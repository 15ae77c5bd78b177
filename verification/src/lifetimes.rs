//! Lifetimes: the borrow checker's construct for ensuring all borrows are
//! valid.  Lifetime annotations never change how long a value lives; they
//! only constrain which programs compile.  Contracts sit on top: they say
//! which value a returned reference denotes.

use vstd::prelude::*;
use vstd::string::StrSliceExecFns;
use crate::traits::Trait;

verus! {

/// Returns the argument with more characters, the second one when they
/// tie.  Two input references share one lifetime `'a`, and the result
/// borrows from one of them; the postcondition says from which.
pub fn longest_with_lifetime<'a>(x: &'a str, y: &'a str) -> (r: &'a str)
    ensures
        if x@.len() > y@.len() {
            r@ == x@
        } else {
            r@ == y@
        },
{
    if x.unicode_len() > y.unicode_len() {
        x
    } else {
        y
    }
}

/// The function returns its input reference, so the compiler could infer
/// the lifetime on its own; the annotation is legal but not needed.  The
/// contract pins the result to the argument.
pub fn function_with_useless_lifetime<'a>(s: &'a str) -> (r: &'a str)
    ensures
        r@ == s@,
{
    s
}

/// Static means the same lifetime as the whole application.  All string
/// literals have the `'static` lifetime; their text is stored directly in
/// the binary of the program.
pub fn lifetime_function_static() -> (r: &'static str)
    ensures
        r@ == "foo"@,
{
    "foo"
}

/// Lifetime on a structure: `s` should live as long as the struct exists.
pub struct LifetimeStruct<'a> {
    pub s: &'a str,
}

/// Generics and lifetimes combine freely; the bound plays no role in the
/// body, which hands the same reference back.
pub fn generics_with_lifetimes<'a, T>(x: &'a T) -> (r: &'a T) where T: Trait
    ensures
        r == x,
{
    x
}

/// The three compiler rules for inferring lifetimes on references:
/// 1. each reference parameter gets its own lifetime parameter;
/// 2. with exactly one input lifetime, it is assigned to all outputs;
/// 3. in a method, `self`'s lifetime is assigned to all outputs.
///
/// When a rule does not apply, the annotation is written by hand, as in
/// [`longest_with_lifetime`].
pub fn lifetimes() {
    // A reference must not outlive what it borrows; here both stay in
    // scope together, so the borrow is fine
    let s2 = "foo".to_owned();
    let s1 = &s2;
    assert(s1@ == "foo"@);

    // The returned reference borrows from one of the two arguments;
    // which one is part of longest_with_lifetime's contract
    let a = "long text";
    let b = "text";
    let l = longest_with_lifetime(a, b);
    // Whichever branch was taken, the result denotes one of the inputs
    assert(l@ == a@ || l@ == b@);

    // The annotation below is legal but unnecessary
    let s1 = "foo";
    let s2 = function_with_useless_lifetime(s1);
    assert(s2@ == s1@);

    // Returning a static reference
    let s = lifetime_function_static();
    assert(s@ == "foo"@);

    // Lifetime on a structure
    let x = LifetimeStruct { s: "foo" };
    assert(x.s@ == "foo"@);

    // Static: lives the entire lifetime of the application
    let s: &'static str = "I have a static lifetime.";

    // Generics and lifetimes
    let point = crate::traits::Point { x: 1, y: 1 };
    let p = generics_with_lifetimes(&point);
    assert(p.x == 1);
}

} // verus!
