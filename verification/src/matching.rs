//! Pattern matching: `match` over integers, ranges, tuples and enums,
//! destructuring, `if let`, and what becomes of `panic!` — in verified
//! code an unreachable arm is proved dead rather than trapped at run time.

use vstd::prelude::*;
use vstd::pervasive::unreached;
use core::cmp::Ordering;
use crate::structs::EnumWithVariants;
use crate::traits::Point;

verus! {

/// A `match` has to cover all the cases, and the verifier tracks which
/// arm a known scrutinee selects, so each assertion below is discharged
/// statically.
pub fn pattern_matching() {
    // Pattern matching on an integer
    let i: i32 = 1;
    // The match has to cover all the cases; it would not compile if the
    // last case were omitted
    let n = match i {
        0 => "zero",
        1 => "one",
        _ => "other",  // Other cases
    };
    assert(n@ == "one"@);

    // If we want to do nothing: () is the unit value
    let n = match i {
        0 => (),
        _ => (),
    };

    // Comparing integers with std::cmp::Ordering; the specification of
    // `cmp` on integers says which variant comes back
    let i: i32 = 1;
    let j: i32 = 2;
    let n = match i.cmp(&j) {
        Ordering::Less => "less",
        Ordering::Greater => "greater",
        Ordering::Equal => "equals",
    };
    assert(n@ == "less"@);

    // Matching multiple options
    let level: i32 = 22;
    let n = match level {
        1 | 2 => "beginner",
        _ => "other",
    };
    assert(n@ == "other"@);

    // Matching an interval
    let level: i32 = 22;
    let n = match level {
        1..=5 => "beginner",
        6..=10 => "intermediate",
        11..=20 => "expert",
        _ => "other",
    };
    assert(n@ == "other"@);

    let c = 'x';
    let lower_half = match c {
        'a'..='j' => true,
        'k'..='z' => false,
        _ => false,
    };
    assert(!lower_half);

    // Pattern matching on a tuple
    let i: i32 = 1;
    let j: i32 = 1;
    let n = match (i, j) {
        (1, 2) => "one, two",
        // Default value on a single element: this is the arm that matches
        (1, _) => "one, default",
        // Default values on both elements
        (_, _) => "default, default",
    };
    assert(n@ == "one, default"@);

    // Enum matching: we have to name all possible variants or use a
    // default case
    let e = EnumWithVariants::Bar("foo".to_owned());
    let tag = match e {
        EnumWithVariants::Foo { id, age } => 0,
        EnumWithVariants::Bar(element) => 1,
        _ => 2,  // Baz variant
    };
    assert(tag == 1);

    // There are two types of patterns:
    // * irrefutable: matches any possible value (let bindings, function
    //   parameters, for loops);
    // * refutable: can fail to match (arms, if let).
    let e = EnumWithVariants::Bar("foo".to_owned());
    match e {
        EnumWithVariants::Foo { id, age } => (),
        EnumWithVariants::Bar(_) => (),
        EnumWithVariants::Baz => (),
    }

    // Match guard: an additional if condition after a pattern
    let o: Option<i32> = Some(5);
    let guarded = match o {
        Some(x) if x < 5 => 0,
        Some(x) => 1,
        _ => 2,
    };
    assert(guarded == 1);

    // The @ operator creates a variable holding the value at the same
    // time the pattern tests it
    let o: Option<i32> = Some(5);
    let at_bound = match o {
        // Matches if o is Some(x) and x is between 0 and 5 included
        Some(x @ 0..=5) => x,
        Some(x) => -1,
        _ => -2,
    };
    assert(at_bound == 5);
}

/// Destructuring pulls the parts of a tuple or struct into variables.
pub fn destructure() {
    // Destructure a tuple
    let (x, y) = (1i32, 2i32);
    assert(x == 1 && y == 2);

    // Matching only the first and last elements of a tuple
    let numbers = (1i32, 2i32, 3i32, 4i32, 5i32);
    let (first, last) = match numbers {
        (first, .., last) => (first, last),
    };
    assert(first == 1 && last == 5);

    // Destructure a structure
    let point = Point { x: 1, y: 2 };
    let Point { x, y } = point;
    assert(x == 1 && y == 2);
}

/// `if let` runs code when the value matches one pattern only;
/// `while let` repeats as long as the pattern matches, and needs a loop
/// invariant and a `decreases` measure like any other loop.
pub fn if_let() {
    let e = EnumWithVariants::Foo { age: 1, id: 3 };
    if let EnumWithVariants::Foo { id, age } = e {
        assert(id == 3 && age == 1);
    }

    let o: Option<i32> = Some(1);
    if let Some(i) = o {
        assert(i == 1);
    }

    // Popping until the stack is empty; `if let` reads the popped value.
    // (A `while let` loop is not supported by the verifier yet.)
    let mut stack: Vec<i32> = Vec::new();
    stack.push(1);
    stack.push(2);
    stack.push(3);
    while stack.len() > 0
        invariant
            stack@.len() <= 3,
            forall|k: int| 0 <= k < stack@.len() ==> 1 <= #[trigger] stack@[k] <= 3,
        decreases stack@.len(),
    {
        if let Some(top) = stack.pop() {
            assert(1 <= top <= 3);
        }
    }
}

/// A panic is an unrecoverable error.  Verified functions do not panic:
/// an input that would reach a `panic!` is excluded by `requires`, and an
/// arm that cannot run is written `unreached()`, which the verifier only
/// accepts where it can prove the arm dead.
pub fn panic() {
    // The scrutinee is known, so the wildcard arm is provably dead;
    // `unreached()` demands exactly that proof
    let level: i32 = 18;
    let s = match level {
        1..=5 => "beginner",
        6..=10 => "intermediate",
        11..=20 => "expert",
        _ => unreached(),
    };
    assert(s@ == "expert"@);
}

} // verus!
