use reorder::order::check_permutation;
use reorder::{IndexOutOfRange, IterReorder, Reorder};

fn gather(chars: &[char], posn: &[usize]) -> Vec<char> {
    let items = Reorder::new(chars, posn).collect().expect("every position is in range");
    items.into_iter().copied().collect()
}

#[test]
#[should_panic]
fn index_error() {
    let _ = Reorder::new(&['a'], &[1]).next().unwrap();
}

#[test]
fn full_permutation_is_followed() {
    assert_eq!(gather(&['a', 'b', 'c'], &[1, 0, 2]), vec!['b', 'a', 'c']);
}

#[test]
fn repeated_indices_are_supported() {
    assert_eq!(gather(&['a', 'b', 'c'], &[1, 0, 1, 1]), vec!['b', 'a', 'b', 'b']);
}

#[test]
fn subset_selection_is_supported() {
    assert_eq!(gather(&['a', 'b', 'c'], &[0, 2]), vec!['a', 'c']);
}

#[test]
fn more_positions_than_elements() {
    assert_eq!(
        gather(&['x', 'y'], &[0, 1, 0, 1, 1, 0, 0]),
        vec!['x', 'y', 'x', 'y', 'y', 'x', 'x']
    );
}

#[test]
fn next_yields_backing_at_each_position() {
    let backing = [10u32, 20, 30, 40, 50];
    let posn = [4usize, 4, 0, 2, 3, 1, 0];
    let mut it = Reorder::new(&backing, &posn);
    for i in 0..posn.len() {
        assert_eq!(it.next(), Ok(Some(&backing[posn[i]])));
    }
    assert_eq!(it.next(), Ok(None));
}

#[test]
fn collect_has_one_entry_per_position() {
    let backing = vec![String::from("p"), String::from("q"), String::from("r")];
    let posn = vec![2usize, 2, 1, 0, 1];
    let items = Reorder::new(&backing, &posn).collect().unwrap();
    assert_eq!(items.len(), posn.len());
    for (i, item) in items.iter().enumerate() {
        assert_eq!(**item, backing[posn[i]]);
    }
}

#[test]
fn yielded_references_point_into_the_backing_slice() {
    let backing = [7u8, 7, 7];
    let posn = [2usize, 0, 1];
    let items = Reorder::new(&backing, &posn).collect().unwrap();
    for (i, item) in items.iter().enumerate() {
        assert!(std::ptr::eq(*item, &backing[posn[i]]));
    }
}

#[test]
fn backing_is_left_as_it_was() {
    let backing = vec![3i64, 1, 4, 1, 5, 9, 2, 6];
    let before = backing.clone();
    let posn = [7usize, 0, 3, 3, 5];
    let mut it = Reorder::new(&backing, &posn);
    while let Ok(Some(_)) = it.next() {}
    assert_eq!(backing, before);
}

#[test]
fn out_of_range_is_reported_by_next_not_by_new() {
    let backing = ['a'];
    let posn = [1usize];
    let mut it = Reorder::new(&backing, &posn);
    assert_eq!(it.next(), Err(IndexOutOfRange { index: 1, len: 1 }));
}

#[test]
fn out_of_range_is_reported_again_on_retry() {
    let backing = [1u8, 2];
    let posn = [0usize, 2, 1];
    let mut it = Reorder::new(&backing, &posn);
    assert_eq!(it.next(), Ok(Some(&1)));
    assert_eq!(it.next(), Err(IndexOutOfRange { index: 2, len: 2 }));
    assert_eq!(it.next(), Err(IndexOutOfRange { index: 2, len: 2 }));
}

#[test]
fn positions_before_a_bad_one_are_served() {
    let backing = ['a', 'b'];
    let posn = [1usize, 0, 9, 0];
    let mut it = Reorder::new(&backing, &posn);
    assert_eq!(it.next(), Ok(Some(&'b')));
    assert_eq!(it.next(), Ok(Some(&'a')));
    assert_eq!(it.next(), Err(IndexOutOfRange { index: 9, len: 2 }));
}

#[test]
fn unreached_bad_position_does_no_harm() {
    let backing = ['a', 'b'];
    let posn = [1usize, 0, usize::MAX];
    let mut it = Reorder::new(&backing, &posn);
    assert_eq!(it.next(), Ok(Some(&'b')));
    assert_eq!(it.next(), Ok(Some(&'a')));
    drop(it);
    assert_eq!(backing, ['a', 'b']);
}

#[test]
fn any_position_is_out_of_range_for_an_empty_slice() {
    let backing: [u32; 0] = [];
    let posn = [0usize];
    assert_eq!(Reorder::new(&backing, &posn).next(), Err(IndexOutOfRange { index: 0, len: 0 }));
}

#[test]
fn collect_reports_the_first_bad_position() {
    let backing = [1u8, 2, 3];
    let posn = [2usize, 5, 0, 7];
    assert_eq!(Reorder::new(&backing, &posn).collect(), Err(IndexOutOfRange { index: 5, len: 3 }));
}

#[test]
fn collect_starts_at_the_cursor() {
    let backing = ['a', 'b', 'c'];
    let posn = [9usize, 2, 1, 1];
    let mut it = Reorder::new(&backing, &posn);
    assert_eq!(it.next(), Err(IndexOutOfRange { index: 9, len: 3 }));
    assert_eq!(it.collect(), Err(IndexOutOfRange { index: 9, len: 3 }));

    let posn = [0usize, 2, 1, 1];
    let mut it = Reorder::new(&backing, &posn);
    assert_eq!(it.next(), Ok(Some(&'a')));
    assert_eq!(it.next(), Ok(Some(&'c')));
    assert_eq!(it.collect(), Ok(vec![&'b', &'b']));
}

#[test]
fn exhausted_reorder_stays_exhausted() {
    let backing = ['a', 'b', 'c'];
    let posn = [2usize, 0];
    let mut it = Reorder::new(&backing, &posn);
    assert_eq!(it.next(), Ok(Some(&'c')));
    assert_eq!(it.next(), Ok(Some(&'a')));
    for _ in 0..10 {
        assert_eq!(it.next(), Ok(None));
    }
    assert_eq!(it.collect(), Ok(vec![]));
}

#[test]
fn empty_positions_yield_nothing() {
    let posn: [usize; 0] = [];
    let backing = ['a', 'b', 'c'];
    let mut it = Reorder::new(&backing, &posn);
    assert_eq!(it.next(), Ok(None));
    assert_eq!(it.next(), Ok(None));
    assert_eq!(Reorder::new(&backing, &posn).collect(), Ok(vec![]));

    let nothing: [char; 0] = [];
    assert_eq!(Reorder::new(&nothing, &posn).next(), Ok(None));
    assert_eq!(Reorder::new(&nothing, &posn).collect(), Ok(vec![]));
}

#[test]
fn clone_goes_on_from_the_same_cursor() {
    let backing = [1u16, 2, 3];
    let posn = [2usize, 1, 0];
    let mut first = Reorder::new(&backing, &posn);
    assert_eq!(first.next(), Ok(Some(&3)));
    let mut second = first.clone();
    assert_eq!(first.next(), Ok(Some(&2)));
    assert_eq!(first.next(), Ok(Some(&1)));
    assert_eq!(first.next(), Ok(None));
    assert_eq!(second.next(), Ok(Some(&2)));
    assert_eq!(second.collect(), Ok(vec![&1]));
}

#[test]
fn iter_reorder_on_array_vec_and_slice() {
    let posn = vec![3usize, 1, 1, 0];
    let array = ['a', 'b', 'c', 'd'];
    assert_eq!(array.iter_reorder(&posn).collect(), Ok(vec![&'d', &'b', &'b', &'a']));
    let vector = vec!['a', 'b', 'c', 'd'];
    assert_eq!(vector.iter_reorder(&posn).collect(), Ok(vec![&'d', &'b', &'b', &'a']));
    let slice: &[char] = &vector[..];
    assert_eq!(slice.iter_reorder(&posn).collect(), Ok(vec![&'d', &'b', &'b', &'a']));
    assert_eq!(slice[1..].iter_reorder(&posn).collect(), Err(IndexOutOfRange { index: 3, len: 3 }));
}

#[test]
fn iter_reorder_follows_a_drawn_order() {
    let elems = ['a', 'b', 'c', 'd', 'e'];
    let posn: Vec<usize> = vec![4, 2, 0, 1, 3];
    assert!(check_permutation(&posn, elems.len()));
    let mut it = elems.iter_reorder(&posn);
    let mut index = 0;
    while let Ok(Some(val)) = it.next() {
        assert_eq!(*val, elems[posn[index]]);
        index += 1;
    }
    assert_eq!(index, 5);
}
