//! Small helpers around well-known crates: identifiers, hashing, signed
//! tokens, random values and timestamps. Every function carries a contract
//! that says what it returns; what the wrapped crates compute is taken on
//! trust and named where it is used.

pub mod hash;
pub mod jwt;
pub mod modules;
pub mod rand;
pub mod text;
pub mod time;
pub mod uuid;
