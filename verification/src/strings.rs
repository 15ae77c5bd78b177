//! Strings: string slices `&str` and the owned, growable `String`.  The
//! view of either is a `Seq<char>`; a string literal's view stays opaque
//! until `reveal_strlit` opens it.  The module ends with a verified
//! string-to-integer conversion whose contract says exactly which strings
//! parse and to what value.

use vstd::prelude::*;
use vstd::string::{StrSliceExecFns, StringExecFns};

verus! {

/// A tour of both string types: literals, conversion between `&str` and
/// `String`, concatenation, slicing at character boundaries, and reading
/// single characters.
pub fn string() {
    // String slice: immutable, the literal's text lives in the binary
    let s: &str = "foo";
    proof {
        reveal_strlit("foo");
    }
    assert(s@.len() == 3 && s@[0] == 'f');

    // Second type of string: String is owned, heap allocated, and
    // growable when declared mutable
    let mut s2: String = String::from_str("foo");
    assert(s2@ == "foo"@);

    // Concatenation with the String type: append glues a slice on
    let mut s = String::from_str("abc");
    s.append("d");
    s.append("bar");
    proof {
        reveal_strlit("abc");
        reveal_strlit("d");
        reveal_strlit("bar");
        reveal_strlit("abcdbar");
    }
    assert(s@ =~= "abcdbar"@);

    // Convert from and to a string literal
    let s1 = "abc";
    let s2 = s1.to_owned();
    let s1 = s2.as_str();
    assert(s1@ == "abc"@);

    // A string slice can denote a subset of a string; slicing is by
    // character position here, which is safe for any text
    let s: String = String::from_str("foo");
    let slice: &str = s.as_str().substring_char(1, 2);  // o
    let slice2: &str = s.as_str().substring_char(0, 2);  // fo
    proof {
        reveal_strlit("foo");
        reveal_strlit("o");
        reveal_strlit("fo");
    }
    assert(slice@ =~= "o"@);
    assert(slice2@ =~= "fo"@);

    // A char can be encoded on multiple bytes, so byte-wise indexing
    // could cut a character apart; reading by character position cannot
    let s = String::from_str("д");
    proof {
        reveal_strlit("д");
    }
    let c = s.as_str().get_char(0);
    assert(c == 'д');

    // Iterate over the characters of a string
    let t = "foo";
    let n = t.unicode_len();
    let mut k: usize = 0;
    while k < n
        invariant
            n == t@.len(),
            k <= n,
            t@ == "foo"@,
        decreases n - k,
    {
        let c = t.get_char(k);
        assert(c == "foo"@[k as int]);
        k += 1;
    }

    // String to int conversion, with an exact contract: see parse_u32
    proof {
        reveal_strlit("42");
        reveal_with_fuel(decimal_value, 3);
        let digits = "42"@;
        assert(digits.drop_last() =~= seq!['4']);
        assert(seq!['4'].drop_last() =~= Seq::<char>::empty());
        assert(decimal_value(digits) == 42);
        assert(is_decimal_digit(digits[0]) && is_decimal_digit(digits[1]));
    }
    let parsed = parse_u32("42");
    assert(parsed is Some);
    assert(parsed->0 == 42);
}

/// Whether a character is a decimal digit.
pub open spec fn is_decimal_digit(c: char) -> bool {
    '0' as u32 <= c as u32 <= '9' as u32
}

/// The numeric value of one decimal digit.
pub open spec fn digit_value(c: char) -> int {
    c as u32 - '0' as u32
}

/// The number a sequence of decimal digits denotes, most significant
/// digit first.
pub open spec fn decimal_value(s: Seq<char>) -> int
    decreases s.len(),
{
    if s.len() == 0 {
        0
    } else {
        10 * decimal_value(s.drop_last()) + digit_value(s.last())
    }
}

/// A digit string denotes a value that is at least 0.
proof fn lemma_decimal_value_nonneg(s: Seq<char>)
    requires
        forall|i: int| 0 <= i < s.len() ==> is_decimal_digit(#[trigger] s[i]),
    ensures
        decimal_value(s) >= 0,
    decreases s.len(),
{
    if s.len() > 0 {
        lemma_decimal_value_nonneg(s.drop_last());
    }
}

/// Extending a digit string to the right never shrinks its value.
proof fn lemma_decimal_value_prefix_le(s: Seq<char>, n: int)
    requires
        0 <= n <= s.len(),
        forall|i: int| 0 <= i < s.len() ==> is_decimal_digit(#[trigger] s[i]),
    ensures
        decimal_value(s.take(n)) <= decimal_value(s),
    decreases s.len() - n,
{
    if n < s.len() {
        lemma_decimal_value_prefix_le(s, n + 1);
        let t = s.take(n + 1);
        assert(t.drop_last() =~= s.take(n));
        assert(t.last() == s[n]);
        lemma_decimal_value_nonneg(s.take(n));
        assert(decimal_value(s.take(n)) <= decimal_value(s.take(n + 1)));
    } else {
        assert(s.take(n) =~= s);
    }
}

/// Parses a decimal number.  `Some` comes back exactly for a non-empty
/// all-digit string whose value fits in `u32`, and then it holds that
/// value; anything else gives `None`.
pub fn parse_u32(s: &str) -> (r: Option<u32>)
    ensures
        r is Some <==> s@.len() > 0 && (forall|i: int|
            0 <= i < s@.len() ==> is_decimal_digit(#[trigger] s@[i])) && decimal_value(s@)
            <= u32::MAX,
        r is Some ==> r->0 == decimal_value(s@),
{
    let n = s.unicode_len();
    if n == 0 {
        return None;
    }
    let mut acc: u32 = 0;
    let mut k: usize = 0;
    while k < n
        invariant
            n == s@.len(),
            0 < n,
            k <= n,
            forall|i: int| 0 <= i < k ==> is_decimal_digit(#[trigger] s@[i]),
            acc == decimal_value(s@.take(k as int)),
        decreases n - k,
    {
        let c = s.get_char(k);
        let cv = c as u32;
        if cv < '0' as u32 || cv > '9' as u32 {
            return None;
        }
        let d = cv - '0' as u32;
        let shifted = match acc.checked_mul(10) {
            Some(v) => v,
            None => {
                proof {
                    lemma_parse_overflow(s@, k as int);
                }
                return None;
            },
        };
        let next = match shifted.checked_add(d) {
            Some(v) => v,
            None => {
                proof {
                    lemma_parse_overflow(s@, k as int);
                }
                return None;
            },
        };
        proof {
            assert(s@.take(k + 1).drop_last() =~= s@.take(k as int));
            assert(s@.take(k + 1).last() == s@[k as int]);
        }
        acc = next;
        k += 1;
    }
    proof {
        assert(s@.take(n as int) =~= s@);
    }
    Some(acc)
}

/// If the value already seen, extended by the digit at position `k`,
/// leaves the `u32` range, then the whole string's value does too.
proof fn lemma_parse_overflow(s: Seq<char>, k: int)
    requires
        0 <= k < s.len(),
        forall|i: int| 0 <= i <= k ==> is_decimal_digit(#[trigger] s[i]),
        10 * decimal_value(s.take(k)) + digit_value(s[k]) > u32::MAX,
    ensures
        !(forall|i: int| 0 <= i < s.len() ==> is_decimal_digit(#[trigger] s[i])) || decimal_value(
            s,
        ) > u32::MAX,
{
    if forall|i: int| 0 <= i < s.len() ==> is_decimal_digit(#[trigger] s[i]) {
        assert(s.take(k + 1).drop_last() =~= s.take(k));
        assert(s.take(k + 1).last() == s[k]);
        assert(decimal_value(s.take(k + 1)) > u32::MAX);
        lemma_decimal_value_prefix_le(s, k + 1);
    }
}

} // verus!
