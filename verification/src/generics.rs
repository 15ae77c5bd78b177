//! Generics: functions and structures over type parameters.  Generic code
//! is monomorphized at compile time, and the verifier checks it once for
//! all instantiations; `==` in specifications works at any type.

use vstd::prelude::*;
use crate::traits::{Point, Trait};

verus! {

/// The function accepts only structures implementing `Trait`, and both
/// arguments must have the same type.  It returns its first argument
/// unchanged, which the postcondition pins down.
pub fn generic_function<T: Trait>(x: T, _y: T) -> (r: T)
    ensures
        r == x,
{
    x
}

/// Accepts any two `Trait` implementations, possibly of different types,
/// and returns the first.  `impl Trait` in return position hides the
/// concrete type from the caller; the contract still identifies the
/// result's behaviour with the first argument's, spec function by spec
/// function.
pub fn function_accepting_implementation(x: impl Trait, _y: impl Trait) -> (r: impl Trait)
    ensures
        forall|p: Point| #[trigger] r.add_req(p) == x.add_req(p),
        forall|p: Point, q: Point| #[trigger] r.add_ens(p, q) == x.add_ens(p, q),
{
    x
}

/// One of two marker traits used to demonstrate multiple trait bounds.
pub trait TraitOne {
}

/// The other marker trait used to demonstrate multiple trait bounds.
pub trait TraitTwo {
}

/// A unit struct implementing both marker traits.
pub struct Both {
}

impl TraitOne for Both {
}

impl TraitTwo for Both {
}

/// A function can specify multiple traits with `+`.
pub fn specifying_multiple_trait<T: TraitOne + TraitTwo>(x: T, _y: T) -> (r: T)
    ensures
        r == x,
{
    x
}

/// An alternative syntax for multiple bounds: a `where` clause.
pub fn specifying_multiple_trait_alternative_syntax<T>(x: T, _y: T) -> (r: T) where
    T: TraitOne + TraitTwo,

    ensures
        r == x,
{
    x
}

/// A generic structure: both fields share the type parameter.
pub struct GenericStruct<T> {
    pub x: T,
    pub y: T,
}

impl<T> GenericStruct<T> {
    /// A generic implementation, available at every `T`: borrow the first
    /// field.
    pub fn generic_function(&self) -> (r: &T)
        ensures
            r == self.x,
    {
        &self.x
    }
}

impl GenericStruct<i32> {
    /// A specific implementation for `GenericStruct<i32>` only: the sum
    /// of the two fields, guarded against overflow by the precondition.
    pub fn specific_function(&self) -> (r: i32)
        requires
            i32::MIN <= self.x + self.y <= i32::MAX,
        ensures
            r == self.x + self.y,
    {
        self.x + self.y
    }
}

/// A generic enum over two type parameters.
pub enum GenericEnum<T, E> {
    Foo(T),
    Bar(E),
}

/// Exercises generic functions, a generic structure with a generic and a
/// specific impl, and a generic enum.
pub fn generics() {
    // Generic function call: both arguments share one type
    let p = generic_function(Point { x: 1, y: 1 }, Point { x: 1, y: 1 });
    assert(p.x == 1);
    // This is different from the following function, which accepts two
    // possibly distinct implementations of the trait
    let p = function_accepting_implementation(Point { x: 1, y: 1 }, Point { x: 1, y: 1 });

    // A function can also specify multiple traits
    let b = specifying_multiple_trait(Both {}, Both {});
    // An alternative syntax
    let b = specifying_multiple_trait_alternative_syntax(Both {}, Both {});

    // Instantiate a generic structure
    let s = GenericStruct { x: 1i32, y: 2i32 };

    // A generic implementation
    let p = s.generic_function();
    assert(*p == 1);

    // A specific implementation for GenericStruct<i32> only
    let i = s.specific_function();
    assert(i == 3);
    let s = GenericStruct { x: "a", y: "b" };
    // s.specific_function() would not compile at this instantiation

    // Instantiate a generic enum
    let p = GenericEnum::<i32, String>::Foo(1);
    assert(p is Foo);
    let p = GenericEnum::<i32, String>::Bar("foo".to_owned());
    assert(p is Bar);
}

} // verus!
