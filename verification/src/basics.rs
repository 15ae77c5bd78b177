//! First steps: scalar types, variables, tuples, control flow, and plain
//! functions, each with the contract that pins down what it computes.

use vstd::prelude::*;

verus! {

/// Build and verify the crate with the usual cargo-style workflow; the
/// verifier runs over every function before anything is compiled.  This
/// item exists only to carry that note, so its body is empty.
pub fn cargo() {
}

/// A 3-slash comment is used to create exportable documentation.
/// It supports **Markdown**.  Inside `verus!`, doc comments also surface
/// the function's `requires` and `ensures` clauses in the rendered docs.
pub fn comment() {
    // Single line comment
    /* Multiline comment */
}

/// Scalar types: signed and unsigned integers, `char` and `bool`.
/// Ghost code adds two more integer types, `int` and `nat`, which are
/// unbounded; every executable integer is known to lie in its type's range.
pub fn scalar_types() {
    // A suffix sets the type alongside the value
    let i = 1i32;
    // The previous declaration is similar to this
    let i: i32 = 1;

    // We can set the type alongside with the value
    let i = 1i8;

    // bool
    let b = false;

    // char
    let c = 'x';

    // The verifier knows the bounds of each scalar type.
    assert(i8::MIN <= i <= i8::MAX);
    assert(-128 <= i < 128);
    assert(!b);
    assert(c == 'x');
}

/// Variables: immutable by default, mutable with `mut`, shadowing, and
/// integer conversion with `as`.  Assertions are ghost code: they are
/// checked statically and erased before compilation.
pub fn variables() {
    // Using let, a variable is immutable
    let s: i32 = 1;

    // Using let mut, a variable is mutable
    let mut s: i32 = 1;
    // Now we can mutate s
    s = 2;
    assert(s == 2);

    // Shadowing: same name but different type
    let shadowed: i32 = 1;
    let shadowed = false;

    // Conversion: the value fits in the target type, so nothing is lost
    let i: i64 = 1;
    let j = i as i32;
    assert(j == 1);

    // Variable names and functions are based on snake_case
    let apple_price: u32 = 32;
}

/// Stack data is fixed-size and copied on assignment; heap data (`Vec`,
/// `String`, boxed values) moves ownership instead.  Verification is not
/// affected by where a value lives: contracts speak about values, and the
/// borrow checker rules out dangling references before the verifier runs.
pub fn heap_stack() {
}

/// A tuple is a collection of values of different types.
pub fn tuples() {
    let t = (true, 1);
    // Same as
    let t: (bool, i32) = (true, 1);

    // Assign elements from a tuple
    let i: bool = t.0;
    let j: i32 = t.1;
    assert(i && j == 1);

    // Or with a single line
    let (i, j) = t;
    assert(i && j == 1);
}

/// If/else, and if/else as an expression.  The verifier tracks each branch
/// condition, so facts like `n == false` below follow automatically.
pub fn control_flow() {
    // If/else
    let i: i32 = 1;
    if i < 2 {
        assert(i == 1);  // true branch
    } else {
        assert(false);  // never reached
    }

    // If/else assignment (similar to ternary operator)
    let n: bool = if i == 5 { true } else { false };
    assert(!n);
}

/// Loops: `for` over a range, `while`, labelled loops, and `loop` with
/// `break`.  Every loop carries an invariant — what holds before and
/// after each iteration — and a `decreases` measure showing termination.
pub fn loops() {
    // For (start included, end excluded)
    let mut count: i32 = 0;
    for i in 0..3
        invariant
            count == i,
    {
        count = count + 1;
    }
    assert(count == 3);

    // While: i has to be mutable
    let mut i: i32 = 0;
    while i <= 3
        invariant
            i <= 4,
        decreases 4 - i,
    {
        i += 1;
    }
    assert(i == 4);

    // Labelled while: break out of a named loop.  A loop that can break
    // states in `ensures` what holds on exit
    let mut i: i32 = 0;
    'while1: while i < 3
        invariant_except_break
            i == 0,
        ensures
            i == 0,
        decreases 3 - i,
    {
        break 'while1;
    }
    assert(i == 0);

    // Loop without conditions: again the `ensures` clause says what
    // holds on exit, since there is no loop condition to negate
    let mut j: i32 = 0;
    loop
        invariant_except_break
            0 <= j <= 4,
        ensures
            j == 5,
        decreases 5 - j,
    {
        j += 1;
        if j == 5 {
            break;
        }
    }
    assert(j == 5);

    // Iteration over the elements of a vector by index
    let v = vec![1i32, 2, 3];
    let mut index: usize = 0;
    while index < v.len()
        invariant
            index <= v@.len() == 3,
            v@ =~= seq![1i32, 2i32, 3i32],
        decreases v@.len() - index,
    {
        let value = v[index];
        assert(1 <= value <= 3);
        index += 1;
    }
}

/// Function calls and higher-order use of named functions.  A function
/// value carries its contract: `call_requires` and `call_ensures` let the
/// caller reason about it.
pub fn functions() {
    // Function call
    let n = increment(1);
    assert(n == 2);

    // Higher order function: pass a named function as a value
    let f = increment;
    let n = apply_to_one(f);
    assert(n == 2);

    // Partially applied function: a closure fixing the first argument
    let partially_applied_function = |x: i32| -> (r: i32)
        requires
            -10000 <= x <= 10000,
        ensures
            r == 3 * x,
        {
            multiply(3, x)
        };
    let f = partially_applied_function(6);
    assert(f == 18);
}

/// Applies a function once to the value 1.  The contract passes the
/// function's own postcondition through to the caller.
pub fn apply_to_one<F: Fn(i32) -> i32>(f: F) -> (n: i32)
    requires
        call_requires(f, (1,)),
    ensures
        call_ensures(f, (1,), n),
{
    f(1)
}

/// A simple function example.  The last expression is the value returned;
/// the precondition rules out overflow at the top of the `i32` range.
pub fn increment(a: i32) -> (r: i32)
    requires
        a < i32::MAX,
    ensures
        r == a + 1,
{
    a + 1
}

/// Another simple function example.  The bounds keep the product inside
/// the `i32` range, and the postcondition states the exact product.
pub fn multiply(a: i32, b: i32) -> (r: i32)
    requires
        -10000 <= a <= 10000,
        -10000 <= b <= 10000,
    ensures
        r == a * b,
{
    proof {
        // Bounded factors give a bounded product; multiplication is
        // nonlinear, so the solver needs to be pointed at it.
        assert(-100000000 <= a * b <= 100000000) by (nonlinear_arith)
            requires
                -10000 <= a <= 10000,
                -10000 <= b <= 10000,
        ;
    }
    a * b
}

/// Adds two numbers; the precondition says exactly when the sum fits.
pub fn add(a: i32, b: i32) -> (r: i32)
    requires
        i32::MIN <= a + b <= i32::MAX,
    ensures
        r == a + b,
{
    a + b
}

/// Adds two numbers, like [`add`]; kept separate as the subject of the
/// crate's first test.
pub fn sum(i: i32, j: i32) -> (r: i32)
    requires
        i32::MIN <= i + j <= i32::MAX,
    ensures
        r == i + j,
{
    i + j
}

} // verus!
