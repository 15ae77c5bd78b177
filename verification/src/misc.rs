//! Odds and ends: type aliases, the newtype pattern, marker traits, and
//! notes on the language corners that a verified library treats
//! specially.

use vstd::prelude::*;

verus! {

/// We can create type aliases: `Kilometers` means `i32`, and values of
/// the two types are interchangeable.
pub type Kilometers = i32;

/// Demonstrates that a value of an aliased type is just a value of the
/// underlying type.
pub fn alias() {
    let x: Kilometers = 5;
    let y: i32 = x;
    assert(y == 5);
}

/// Rust has a special type `!` for functions that never return, read as
/// "this function can never possibly return".  Verified functions prove
/// termination of their loops and recursion, so a deliberately
/// non-returning function has no place here and stays with the
/// unverified code.
pub fn never_type() {
}

/// Macros are a way of writing code that writes other code, also known
/// as metaprogramming.  Code produced by a macro reaches the verifier
/// already expanded, so what is checked is the expansion.
pub fn macros() {
}

/// Unit tests live under `tests/`, see that directory: each is an
/// ordinary function running the compiled code.  Contracts are erased
/// before compilation, so tests exercise the executable behaviour that
/// the contracts described.
pub fn testing() {
}

/// The `Send` marker trait indicates that ownership of the type can be
/// transferred between threads; `Sync` indicates that it is safe for the
/// type to be referenced from multiple threads.  Both are compiler
/// analyses, not run-time checks, and hold for the plain data types in
/// this crate.
pub fn sync_send() {
}

/// A trait can declare an associated type, chosen once per
/// implementation; the spec functions on traits in this crate's trait
/// module play the same role for contracts.
pub fn associated_types() {
}

/// The newtype pattern: wrapping a foreign type in a one-field tuple
/// struct of our own, so that methods (and trait implementations) can be
/// added locally.
pub struct Wrapper(pub Vec<String>);

impl Wrapper {
    /// How many entries the wrapped vector holds.
    pub fn count(&self) -> (n: usize)
        ensures
            n == self.0@.len(),
    {
        self.0.len()
    }
}

/// We're allowed to implement a trait on a type only as long as the
/// trait or the type is local to our crate.  The newtype pattern gets
/// around this restriction: `Wrapper` is local, so local methods and
/// traits can be attached to it.
pub fn newtype() {
    let w = Wrapper(vec!["foo".to_owned(), "bar".to_owned()]);
    assert(w.0@.len() == 2);
    let n = w.count();
    assert(n == 2);
}

} // verus!
