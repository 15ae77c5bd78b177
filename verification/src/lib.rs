//! A guided tour of verified Rust, written with Verus.
//!
//! Each module walks through one area of the language — scalar types,
//! ownership, traits, closures, pattern matching, and so on — as a set of
//! small functions.  Wherever a function computes something, a contract
//! (`requires` / `ensures`) pins down what, and Verus checks it
//! statically; the demonstration functions prove their claims with
//! `assert`, which is ghost code and costs nothing at run time.

pub mod basics;
pub mod closures;
pub mod collections;
pub mod errors;
pub mod generics;
pub mod iterators;
pub mod lifetimes;
pub mod matching;
pub mod misc;
pub mod ownership;
pub mod strings;
pub mod structs;
pub mod traits;
