//! Iterator that produces the items of a slice in shuffled order.

use crate::order::{
    check_permutation, identity, is_permutation, lemma_permutation_yields_each_once,
    lemma_rearranged_identity_is_permutation, referents, reordered,
};
use rand::Rng;
use vstd::prelude::*;

verus! {

/// Shuffle iterator state: the borrowed slice, a permutation of its positions
/// drawn when the iterator was built, and the number of positions consumed.
pub struct ShuffleIter<'a, T: 'a> {
    slice: &'a [T],
    posn: Vec<usize>,
    index: usize,
}

/// Rearranges `posn` in place by `rand::Rng::shuffle`, called on the
/// thread-local generator that `rand::thread_rng` returns.
///
/// Trusted, not proved: `shuffle` does nothing to the slice but swap pairs of
/// its entries, so what it leaves is a rearrangement of what it found. Which
/// rearrangement is left to chance, and nothing is claimed of it. The
/// generator is seeded from the operating system when a thread first asks for
/// it, and `rand` panics there if no source of entropy answers.
#[verifier::external_body]
fn shuffle_positions(posn: &mut Vec<usize>)
    ensures
        final(posn)@.to_multiset() == old(posn)@.to_multiset(),
{
    rand::thread_rng().shuffle(posn);
}

/// The positions `0..len` in their natural order.
fn identity_positions(len: usize) -> (posn: Vec<usize>)
    ensures
        posn@ == identity(len as nat),
{
    let mut posn: Vec<usize> = Vec::new();
    let mut i: usize = 0;
    while i < len
        invariant
            i <= len,
            posn@ == identity(i as nat),
        decreases len - i,
    {
        posn.push(i);
        i += 1;
    }
    posn
}

impl<'a, T> ShuffleIter<'a, T> {
    #[verifier::type_invariant]
    spec fn inv(self) -> bool {
        &&& is_permutation(self.posn@, self.slice@.len())
        &&& self.index <= self.posn@.len()
    }

    /// The elements of the slice that the iterator borrows, in their own order.
    pub closed spec fn backing(self) -> Seq<T> {
        self.slice@
    }

    /// The order in which the iterator visits the slice.
    pub closed spec fn positions(self) -> Seq<usize> {
        self.posn@
    }

    /// How many positions have been consumed.
    pub closed spec fn cursor(self) -> nat {
        self.index as nat
    }

    /// Create a new shuffle iterator instance over `slice`. The order is drawn
    /// here, once; it is some permutation of the slice's positions.
    pub fn new(slice: &'a [T]) -> (r: ShuffleIter<'a, T>)
        ensures
            r.backing() == slice@,
            is_permutation(r.positions(), slice@.len()),
            r.cursor() == 0,
    {
        let mut posn = identity_positions(slice.len());
        shuffle_positions(&mut posn);
        proof {
            lemma_rearranged_identity_is_permutation(posn@, slice@.len());
        }
        ShuffleIter { slice, posn, index: 0 }
    }

    /// Create a shuffle iterator instance that visits `slice` in the order
    /// `posn`, for an order drawn elsewhere. The answer is `None` unless `posn`
    /// is a permutation of the slice's positions.
    pub fn with_order(slice: &'a [T], posn: Vec<usize>) -> (r: Option<ShuffleIter<'a, T>>)
        ensures
            r is Some <==> is_permutation(posn@, slice@.len()),
            r matches Some(it) ==> {
                &&& it.backing() == slice@
                &&& it.positions() == posn@
                &&& it.cursor() == 0
            },
    {
        if check_permutation(posn.as_slice(), slice.len()) {
            Some(ShuffleIter { slice, posn, index: 0 })
        } else {
            None
        }
    }

    /// The order in which the iterator visits the slice: entry `i` is the
    /// position of the `i`-th element that it produces, counted from the start.
    pub fn order(&self) -> (posn: &[usize])
        ensures
            posn@ == self.positions(),
            is_permutation(posn@, self.backing().len()),
    {
        proof {
            use_type_invariant(self);
        }
        self.posn.as_slice()
    }

    /// Produce the next element, if there is one.
    ///
    /// Once every position has been consumed the answer is `None`, on this
    /// call and on every later one. Before that, the answer is the element at
    /// the position under the cursor, and the cursor moves on by one. The
    /// positions are a permutation of those the slice has, so each of them
    /// addresses an element.
    pub fn next(&mut self) -> (r: Option<&'a T>)
        ensures
            final(self).backing() == old(self).backing(),
            final(self).positions() == old(self).positions(),
            is_permutation(old(self).positions(), old(self).backing().len()),
            old(self).cursor() <= old(self).positions().len(),
            old(self).cursor() == old(self).positions().len() ==> {
                &&& r == None::<&'a T>
                &&& *final(self) == *old(self)
            },
            old(self).cursor() < old(self).positions().len() ==> {
                let p = old(self).positions()[old(self).cursor() as int];
                &&& r == Some(&old(self).backing()[p as int])
                &&& final(self).cursor() == old(self).cursor() + 1
            },
    {
        proof {
            use_type_invariant(&*self);
        }
        if self.index >= self.posn.len() {
            return None;
        }
        let result = &self.slice[self.posn[self.index]];
        self.index += 1;
        Some(result)
    }

    /// Run the iterator to its end and gather what it produces: one reference
    /// for each position from the cursor on, in their order.
    ///
    /// An iterator that has produced nothing yet hands out every element of
    /// the slice exactly once: as multisets, the answer and the slice are the
    /// same.
    pub fn collect(self) -> (items: Vec<&'a T>)
        ensures
            is_permutation(self.positions(), self.backing().len()),
            self.cursor() <= self.positions().len(),
            referents(items@) == reordered(
                self.backing(),
                self.positions().skip(self.cursor() as int),
            ),
            self.cursor() == 0 ==> {
                &&& items@.len() == self.backing().len()
                &&& referents(items@).to_multiset() == self.backing().to_multiset()
            },
    {
        let mut it = self;
        let mut items: Vec<&'a T> = Vec::new();
        let ghost start = self.cursor() as int;
        let ghost rest = self.positions().skip(start);
        proof {
            use_type_invariant(&it);
        }
        loop
            invariant
                it.backing() == self.backing(),
                it.positions() == self.positions(),
                start == self.cursor(),
                rest == self.positions().skip(start),
                is_permutation(self.positions(), self.backing().len()),
                0 <= start <= it.cursor() <= self.positions().len(),
                items@.len() == it.cursor() - start,
                forall|i: int|
                    0 <= i < items@.len() ==> *items@[i] == self.backing()[rest[i] as int],
            decreases self.positions().len() - it.cursor(),
        {
            match it.next() {
                Some(item) => {
                    items.push(item);
                },
                None => {
                    proof {
                        assert(referents(items@) =~= reordered(self.backing(), rest));
                        if start == 0 {
                            assert(rest =~= self.positions());
                            lemma_permutation_yields_each_once(self.backing(), self.positions());
                        }
                    }
                    return items;
                },
            }
        }
    }
}

/// Utility trait for being able to say *collection*`.iter_shuffle()`.
pub trait Shuffle<T>: View<V = Seq<T>> {
    /// Return references to the elements of a collection in shuffled order,
    /// without disturbing the collection.
    fn iter_shuffle<'a>(&'a self) -> (r: ShuffleIter<'a, T>)
        ensures
            r.backing() == self@,
            is_permutation(r.positions(), self@.len()),
            r.cursor() == 0,
    ;
}

impl<T> Shuffle<T> for [T] {
    fn iter_shuffle<'a>(&'a self) -> (r: ShuffleIter<'a, T>) {
        ShuffleIter::new(self)
    }
}

impl<T> Shuffle<T> for Vec<T> {
    fn iter_shuffle<'a>(&'a self) -> (r: ShuffleIter<'a, T>) {
        ShuffleIter::new(self.as_slice())
    }
}

impl<T, const N: usize> Shuffle<T> for [T; N] {
    fn iter_shuffle<'a>(&'a self) -> (r: ShuffleIter<'a, T>) {
        ShuffleIter::new(self.as_slice())
    }
}

} // verus!
