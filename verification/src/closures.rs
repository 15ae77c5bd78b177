//! Closures: anonymous functions that may capture their environment.
//! A closure can carry its own `requires` and `ensures`, and callers of
//! higher-order functions reason about it through `call_requires` and
//! `call_ensures`.

use vstd::prelude::*;

verus! {

/// A struct can hold a closure; the field's type parameter carries the
/// `Fn` bound.
pub struct StructWithClosure<T> where T: Fn(u32) -> u32 {
    pub f: T,
}

/// A function can accept a closure (or any function value) as an
/// argument.  Its own contract forwards the closure's: it may be called
/// whenever the closure accepts the pair, and the result is one the
/// closure's postcondition allows.
pub fn function_accepting_closure<F: Fn(i32, i32) -> i32>(a: i32, b: i32, f: F) -> (r: i32)
    requires
        call_requires(f, (a, b)),
    ensures
        call_ensures(f, (a, b), r),
{
    f(a, b)
}

/// Three types of closure bounds: `FnOnce` (consumes its captures; every
/// closure can be called at least once), `FnMut` (mutable borrow) and
/// `Fn` (immutable borrow).  Each example below states a contract on the
/// closure and the verifier discharges the assertions from it.
pub fn closures() {
    // Closure example: captures x immutably
    let x: i32 = 1;
    let c = |y: i32| -> (r: i32)
        requires
            -1000 <= y <= 1000,
        ensures
            r == x + y,
        {
            x + y
        };
    let n = c(2);
    assert(n == 3);

    // The captured variable holds the value it had where the closure was
    // written
    let x: i32 = 5;
    let c = |v: i32| -> (r: i32)
        requires
            v < i32::MAX,
        ensures
            r == v + 1,
        {
            v + 1
        };
    let y = c(x);
    assert(y == 6);

    // To force a closure to take ownership of the captured values we can
    // use the move keyword
    let p = crate::traits::Point { x: 1, y: 2 };
    let c = move |q: crate::traits::Point| -> (r: crate::traits::Point)
        ensures
            r == q,
        {
            q
        };
    let q = c(crate::traits::Point { x: 3, y: 4 });
    assert(q.x == 3);

    // Direct block evaluation
    let d: i32 = { 1 + 2 };
    assert(d == 3);

    // A struct can hold a closure; the captured variable v is moved in
    let v: u32 = 1;
    let adds_v = move |x: u32| -> (r: u32)
        requires
            x < 1000,
        ensures
            r == x + v,
        {
            x + v
        };
    let s = StructWithClosure { f: adds_v };
    let n = (s.f)(1);
    assert(n == 2);

    // A function can also accept a closure
    let m = function_accepting_closure(1, 2, |a: i32, b: i32| -> (r: i32)
        requires
            i32::MIN <= a + b <= i32::MAX,
        ensures
            r == a + b,
        {
            a + b
        });
    assert(m == 3);
    // We could have also passed a named function, whose contract plays
    // the same role
    let m = function_accepting_closure(1, 2, crate::basics::add);
    assert(m == 3);
}

} // verus!
