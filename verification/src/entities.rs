//! Wide-integer variants of the game API records.

pub mod clan;
