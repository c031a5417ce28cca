//! The model: what a sequence of positions selects from a backing sequence.

use vstd::prelude::*;

verus! {

/// The elements of `backing` that `positions` selects, in the order of
/// `positions`: entry `i` is `backing[positions[i]]`.
pub open spec fn reordered<T>(backing: Seq<T>, positions: Seq<usize>) -> Seq<T> {
    Seq::new(positions.len(), |i: int| backing[positions[i] as int])
}

/// The values behind a sequence of references.
pub open spec fn referents<T>(items: Seq<&T>) -> Seq<T> {
    Seq::new(items.len(), |i: int| *items[i])
}

/// Every entry of `positions` addresses an element of a sequence of length `len`.
pub open spec fn in_range(positions: Seq<usize>, len: nat) -> bool {
    forall|i: int| 0 <= i < positions.len() ==> positions[i] < len
}

/// The positions `0, 1, .., len - 1` in their natural order.
pub open spec fn identity(len: nat) -> Seq<usize> {
    Seq::new(len, |i: int| i as usize)
}

/// `positions` is a rearrangement of `0..len`: it has `len` entries, each of
/// them in range, and no two of them equal.
pub open spec fn is_permutation(positions: Seq<usize>, len: nat) -> bool {
    &&& positions.len() == len
    &&& in_range(positions, len)
    &&& positions.no_duplicates()
}

/// The first `n` entries of `positions` are in range and differ from each
/// other.
spec fn is_permutation_prefix(positions: Seq<usize>, n: int, len: nat) -> bool {
    &&& forall|i: int| 0 <= i < n ==> positions[i] < len
    &&& forall|i: int, j: int| 0 <= i < j < n ==> positions[i] != positions[j]
}

/// Decides whether `positions` is a permutation of `0..len`.
pub fn check_permutation(positions: &[usize], len: usize) -> (ok: bool)
    ensures
        ok == is_permutation(positions@, len as nat),
{
    if positions.len() != len {
        return false;
    }
    let mut seen: Vec<bool> = vec![false; len];
    let mut i: usize = 0;
    while i < len
        invariant
            positions@.len() == len,
            seen@.len() == len,
            i <= len,
            is_permutation_prefix(positions@, i as int, len as nat),
            forall|v: int|
                0 <= v < len ==> (seen@[v] <==> exists|j: int|
                    0 <= j < i && #[trigger] positions@[j] == v),
        decreases len - i,
    {
        let p = positions[i];
        if p >= len || seen[p] {
            return false;
        }
        seen[p] = true;
        i += 1;
    }
    true
}

/// A rearrangement of `identity(len)` is a permutation of `0..len`.
pub proof fn lemma_rearranged_identity_is_permutation(positions: Seq<usize>, len: nat)
    requires
        len <= usize::MAX,
        positions.to_multiset() == identity(len).to_multiset(),
    ensures
        is_permutation(positions, len),
{
    broadcast use vstd::seq_lib::group_to_multiset_ensures;

    let id = identity(len);
    assert(positions.len() == len) by {
        assert(positions.to_multiset().len() == id.to_multiset().len());
    }
    assert forall|i: int| 0 <= i < positions.len() implies positions[i] < len by {
        assert(id.to_multiset().count(positions[i]) > 0);
    }
    id.lemma_multiset_has_no_duplicates();
    positions.lemma_multiset_has_no_duplicates_conv();
}

/// What is left of a permutation of `0..len`, `len > 0`, when its last entry
/// is dropped and the entries above the dropped one move down by one: a
/// permutation of `0..len - 1`.
spec fn without_last(positions: Seq<usize>) -> Seq<usize> {
    let v = positions.last();
    Seq::new(
        (positions.len() - 1) as nat,
        |i: int|
            if positions[i] > v {
                (positions[i] - 1) as usize
            } else {
                positions[i]
            },
    )
}

proof fn lemma_without_last(positions: Seq<usize>, len: nat)
    requires
        len > 0,
        is_permutation(positions, len),
    ensures
        is_permutation(without_last(positions), (len - 1) as nat),
{
}

/// Selecting by a permutation yields every element exactly once.
///
/// For a backing sequence of length `n` and a permutation of `0..n`: what is
/// selected has `n` entries; no two of them come from the same place; every
/// place of the backing sequence is visited; and as multisets, what is
/// selected and the backing sequence are the same.
pub proof fn lemma_permutation_yields_each_once<T>(backing: Seq<T>, positions: Seq<usize>)
    requires
        is_permutation(positions, backing.len()),
    ensures
        reordered(backing, positions).len() == backing.len(),
        forall|i: int, j: int|
            0 <= i < j < positions.len() ==> positions[i] != positions[j],
        forall|k: usize| k < backing.len() ==> positions.contains(k),
        reordered(backing, positions).to_multiset() == backing.to_multiset(),
    decreases positions.len(),
{
    broadcast use vstd::seq_lib::group_to_multiset_ensures;

    let n = backing.len();
    if n > 0 {
        // Take out the last position, and the element it selects.
        let v = positions.last();
        let fewer = without_last(positions);
        let smaller = backing.remove(v as int);
        let selected = reordered(backing, positions);
        lemma_without_last(positions, n);
        lemma_permutation_yields_each_once(smaller, fewer);
        assert(reordered(smaller, fewer) =~= selected.drop_last());
        assert(selected =~= selected.drop_last().push(backing[v as int]));
        assert forall|k: usize| k < n implies positions.contains(k) by {
            if k != v {
                let below: usize = if k > v {
                    (k - 1) as usize
                } else {
                    k
                };
                assert(fewer.contains(below));
            }
        }
    }
}

} // verus!
