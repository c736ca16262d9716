//! Mutable iteration over a slice, built by hand: an iterator holds an
//! exclusive view of the elements not yet yielded and, on each advancement,
//! splits the first one off and hands out an exclusive reference to it.
//!
//! Two iterators do this, each in its own way, under one contract; `front`
//! holds the model that the contract is stated over and what follows from it.

pub mod append;
pub mod explicit_split;
pub mod front;
pub mod pattern_split;
pub mod std_contracts;

pub use explicit_split::MyIterMut;
pub use pattern_split::QuineDotIterMut;
