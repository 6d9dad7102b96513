//! The states that the library itself brings along.

pub mod transition;
