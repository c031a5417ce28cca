//! Iterators that hand out references to the elements of a slice in a chosen
//! order, without copying or disturbing the slice.
//!
//! [`Reorder`] walks a caller-supplied sequence of positions; [`ShuffleIter`]
//! walks a random permutation of all positions that it draws when it is built.
//! The module [`order`] holds the mathematical model that the contracts of both
//! are stated over, and the laws that follow from it.

pub mod order;
pub mod reorder;
pub mod shuffle;

pub use crate::reorder::{IndexOutOfRange, IterReorder, Reorder};
pub use crate::shuffle::{Shuffle, ShuffleIter};
