//! Iterator that produces references to the items of a slice in some
//! specified order.

use crate::order::{in_range, referents, reordered};
use vstd::prelude::*;

verus! {

/// A position that addresses no element: `index` was asked of a slice that
/// holds `len` elements, and `index >= len`.
#[derive(Clone, Copy, Debug, PartialEq, Eq, Structural)]
pub struct IndexOutOfRange {
    pub index: usize,
    pub len: usize,
}

/// Iterator for returning references to elements of a sequence in a specified
/// order, without disturbing the sequence.
#[derive(Debug)]
pub struct Reorder<'a, T: 'a> {
    slice: &'a [T],
    posn: &'a [usize],
    index: usize,
}

impl<'a, T> Clone for Reorder<'a, T> {
    /// A second iterator over the same slice and positions, at the same cursor.
    fn clone(&self) -> (r: Self)
        ensures
            r == *self,
    {
        proof {
            use_type_invariant(self);
        }
        Reorder { slice: self.slice, posn: self.posn, index: self.index }
    }
}

impl<'a, T> Reorder<'a, T> {
    #[verifier::type_invariant]
    spec fn inv(self) -> bool {
        self.index <= self.posn@.len()
    }

    /// The elements of the slice that the iterator borrows, in their own order.
    pub closed spec fn backing(self) -> Seq<T> {
        self.slice@
    }

    /// The positions that the iterator was given.
    pub closed spec fn positions(self) -> Seq<usize> {
        self.posn@
    }

    /// How many positions have been consumed.
    pub closed spec fn cursor(self) -> nat {
        self.index as nat
    }

    /// Create a new reorder iterator instance. The reorder iterator will
    /// return references to the elements of the sequence `slice`, in the order
    /// specified by the sequence `posn` of `usize` indices into `slice`. Any
    /// number of indices is allowed; repeated and omitted indices are allowed.
    ///
    /// Nothing is checked here: an index that the slice does not have is
    /// reported by [`Reorder::next`] when the iterator reaches it.
    pub fn new(slice: &'a [T], posn: &'a [usize]) -> (r: Reorder<'a, T>)
        ensures
            r.backing() == slice@,
            r.positions() == posn@,
            r.cursor() == 0,
    {
        Reorder { slice, posn, index: 0 }
    }

    /// Produce the next element, if there is one.
    ///
    /// Once every position has been consumed the answer is `Ok(None)`, on this
    /// call and on every later one. Before that, the position at the cursor is
    /// resolved against the slice: if the slice has it, the element there is
    /// returned and the cursor moves on by one; if not, the answer is the
    /// error, and the cursor stays where it is.
    pub fn next(&mut self) -> (r: Result<Option<&'a T>, IndexOutOfRange>)
        ensures
            final(self).backing() == old(self).backing(),
            final(self).positions() == old(self).positions(),
            old(self).cursor() <= old(self).positions().len(),
            old(self).cursor() == old(self).positions().len() ==> {
                &&& r == Ok::<Option<&'a T>, IndexOutOfRange>(None)
                &&& *final(self) == *old(self)
            },
            old(self).cursor() < old(self).positions().len() ==> {
                let p = old(self).positions()[old(self).cursor() as int];
                let len = old(self).backing().len();
                if p < len {
                    &&& r == Ok::<Option<&'a T>, IndexOutOfRange>(
                        Some(&old(self).backing()[p as int]),
                    )
                    &&& final(self).cursor() == old(self).cursor() + 1
                } else {
                    &&& r matches Err(e)
                    &&& e.index == p
                    &&& e.len == len
                    &&& *final(self) == *old(self)
                }
            },
    {
        proof {
            use_type_invariant(&*self);
        }
        if self.index >= self.posn.len() {
            return Ok(None);
        }
        let p = self.posn[self.index];
        if p >= self.slice.len() {
            return Err(IndexOutOfRange { index: p, len: self.slice.len() });
        }
        let result = &self.slice[p];
        self.index += 1;
        Ok(Some(result))
    }

    /// Run the iterator to its end and gather what it produces.
    ///
    /// With `rest` the positions from the cursor on: if the slice has every
    /// one of them, the answer holds one reference for each, in their order.
    /// If not, the answer is the error for the first of them that the slice
    /// does not have.
    ///
    /// So an iterator that has produced nothing yet, over positions that are
    /// all in range, gives as many elements as there are positions, the
    /// `i`-th of them being `slice[posn[i]]`; and one over no positions gives
    /// nothing, and no error, whatever the slice.
    pub fn collect(self) -> (r: Result<Vec<&'a T>, IndexOutOfRange>)
        ensures
            self.cursor() <= self.positions().len(),
            ({
                let rest = self.positions().skip(self.cursor() as int);
                let len = self.backing().len();
                match r {
                    Ok(items) => {
                        &&& in_range(rest, len)
                        &&& referents(items@) == reordered(self.backing(), rest)
                    },
                    Err(e) => exists|k: int|
                        {
                            &&& 0 <= k < rest.len()
                            &&& in_range(rest.take(k), len)
                            &&& #[trigger] rest[k] >= len
                            &&& e.index == rest[k]
                            &&& e.len == len
                        },
                }
            }),
            self.cursor() == 0 && in_range(self.positions(), self.backing().len()) ==> {
                &&& r matches Ok(items)
                &&& items@.len() == self.positions().len()
                &&& forall|i: int|
                    0 <= i < items@.len() ==> *items@[i]
                        == self.backing()[self.positions()[i] as int]
            },
            self.positions().len() == 0 ==> {
                &&& r matches Ok(items)
                &&& items@.len() == 0
            },
    {
        let mut it = self;
        let mut items: Vec<&'a T> = Vec::new();
        let ghost start = self.cursor() as int;
        let ghost rest = self.positions().skip(start);
        proof {
            use_type_invariant(&it);
        }
        loop
            invariant
                it.backing() == self.backing(),
                it.positions() == self.positions(),
                start == self.cursor(),
                rest == self.positions().skip(start),
                0 <= start <= it.cursor() <= self.positions().len(),
                items@.len() == it.cursor() - start,
                in_range(rest.take(it.cursor() - start), self.backing().len()),
                forall|i: int|
                    0 <= i < items@.len() ==> *items@[i] == self.backing()[rest[i] as int],
            decreases self.positions().len() - it.cursor(),
        {
            let ghost k = it.cursor() - start;
            match it.next() {
                Ok(Some(item)) => {
                    items.push(item);
                },
                Ok(None) => {
                    assert(rest.take(k) =~= rest);
                    return Ok(items);
                },
                Err(e) => {
                    assert(rest[k] == self.positions()[start + k]);
                    return Err(e);
                },
            }
        }
    }
}

/// Utility trait for being able to say *collection*`.iter_reorder()`.
pub trait IterReorder<T>: View<V = Seq<T>> {
    /// Return references to the elements of a collection in the specified
    /// order, without disturbing the collection.
    fn iter_reorder<'a>(&'a self, posn: &'a [usize]) -> (r: Reorder<'a, T>)
        ensures
            r.backing() == self@,
            r.positions() == posn@,
            r.cursor() == 0,
    ;
}

impl<T> IterReorder<T> for [T] {
    fn iter_reorder<'a>(&'a self, posn: &'a [usize]) -> (r: Reorder<'a, T>) {
        Reorder::new(self, posn)
    }
}

impl<T> IterReorder<T> for Vec<T> {
    fn iter_reorder<'a>(&'a self, posn: &'a [usize]) -> (r: Reorder<'a, T>) {
        Reorder::new(self.as_slice(), posn)
    }
}

impl<T, const N: usize> IterReorder<T> for [T; N] {
    fn iter_reorder<'a>(&'a self, posn: &'a [usize]) -> (r: Reorder<'a, T>) {
        Reorder::new(self.as_slice(), posn)
    }
}

} // verus!
