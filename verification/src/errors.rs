//! Recoverable errors: `Option` encodes the possibility of absence,
//! `Result` the possibility of an error.  Contracts here say on exactly
//! which inputs a `Some` / `Ok` comes back, and what it holds.

use vstd::prelude::*;

verus! {

/// Rust's `/` on signed integers truncates towards zero, while `/` in
/// ghost code is Euclidean division.  This function states truncating
/// division in terms of the Euclidean one, so contracts about executable
/// division have an exact mathematical meaning.
pub open spec fn div_towards_zero(a: int, b: int) -> int
    recommends
        b != 0,
{
    if a >= 0 && b > 0 {
        a / b
    } else if a <= 0 && b < 0 {
        (-a) / (-b)
    } else if a < 0 && b > 0 {
        -((-a) / b)
    } else {
        -(a / (-b))
    }
}

/// Division returning a `Result`: an `Err` exactly when the divisor is
/// nil, `Ok` with the truncated quotient otherwise.  The one input pair
/// whose quotient does not fit in `i32` is excluded up front.
pub fn div(a: i32, b: i32) -> (r: Result<i32, &'static str>)
    requires
        !(a == i32::MIN && b == -1),
    ensures
        b == 0 <==> r is Err,
        b == 0 ==> r->Err_0@ == "b is nil"@,
        b != 0 ==> r->Ok_0 == div_towards_zero(a as int, b as int),
{
    if b == 0 {
        return Err("b is nil");
    }
    proof {
        lemma_div_towards_zero_fits(a as int, b as int);
    }
    let q = match a.checked_div(b) {
        Some(q) => q,
        None => {
            // checked_div returns None only for a nil divisor or for
            // i32::MIN / -1; both are excluded above.
            proof {
                assert(false);
            }
            0
        },
    };
    Ok(q)
}

/// The truncated quotient of two `i32` values fits in `i32` except for
/// `i32::MIN / -1`, and agrees with the case split that `checked_div`
/// is specified by.
proof fn lemma_div_towards_zero_fits(a: int, b: int)
    requires
        i32::MIN <= a <= i32::MAX,
        i32::MIN <= b <= i32::MAX,
        b != 0,
        !(a == i32::MIN && b == -1),
    ensures
        i32::MIN <= div_towards_zero(a, b) <= i32::MAX,
        div_towards_zero(a, b) == if a == 0 {
            0int
        } else if a > 0 && b > 0 {
            a / b
        } else if a < 0 && b < 0 {
            (a * -1) / (b * -1)
        } else if a < 0 {
            ((a * -1) / b) * -1
        } else {
            (a / (b * -1)) * -1
        },
{
    assert(i32::MIN <= div_towards_zero(a, b) <= i32::MAX) by (nonlinear_arith)
        requires
            i32::MIN <= a <= i32::MAX,
            i32::MIN <= b <= i32::MAX,
            b != 0,
            !(a == i32::MIN && b == -1),
    ;
    assert((-a) == a * -1 && (-b) == b * -1);
}

/// If `div` returns an error, the `?` operator returns that error from
/// the surrounding function; otherwise the `Ok` value is extracted.  The
/// contract is therefore the same as [`div`]'s.
pub fn result_caller(a: i32, b: i32) -> (r: Result<i32, &'static str>)
    requires
        !(a == i32::MIN && b == -1),
    ensures
        b == 0 <==> r is Err,
        b != 0 ==> r->Ok_0 == div_towards_zero(a as int, b as int),
{
    let i = div(a, b)?;
    Ok(i)
}

/// If a function returns only a possible error, we can make it return a
/// `Result` whose `Ok` carries no value.  This one always succeeds.
pub fn empty_result() -> (r: Result<(), &'static str>)
    ensures
        r is Ok,
{
    Ok(())
}

/// Returns the spelled-out name for zero and nothing for any other input:
/// `Some` exactly on input 0.
pub fn option_example(i: i32) -> (r: Option<String>)
    ensures
        i == 0 <==> r is Some,
        i == 0 ==> r->0@ == "zero"@,
{
    if i == 0 {
        return Some("zero".to_owned());
    }
    None
}

} // verus!
