//! Helpers shared inside the library.

pub mod rand;
