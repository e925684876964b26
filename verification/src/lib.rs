//! A growable array written from the ground up.
//!
//! [`RawVec`] is the storage: a buffer of slots that knows its capacity, grows on
//! request and keeps no count of the slots in use. [`Vec`] is the array: a buffer
//! and a length, with the first `len()` slots holding the elements in order. The
//! module `laws` states what holds across calls.
//!
//! A type that takes no storage needs no room: for such a type the capacity is
//! `usize::MAX` from the start and never changes.

pub mod laws;
pub mod raw_vec;
pub mod vec;

pub use crate::raw_vec::RawVec;
pub use crate::vec::Vec;
