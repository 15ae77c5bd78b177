//! Iteration: a hand-written iterator with a full contract, and loops
//! that map, filter and fold, each carrying an invariant instead of an
//! iterator adapter chain.

use vstd::prelude::*;

verus! {

/// A linear-scan iterator over a vector of numbers.  The index records
/// how far the scan has come; `next` hands elements out in order.
pub struct CustomIterator {
    pub vec: Vec<i32>,
    pub index: usize,
}

impl CustomIterator {
    /// Starts a scan at the first element.
    pub fn new(vec: Vec<i32>) -> (it: CustomIterator)
        ensures
            it.vec == vec,
            it.index == 0,
    {
        CustomIterator { vec, index: 0 }
    }

    /// The next element, or `None` once the scan is past the end.  The
    /// contract says which element comes back and how the cursor moves,
    /// so a caller can predict the whole stream.
    pub fn next(&mut self) -> (o: Option<i32>)
        ensures
            final(self).vec == old(self).vec,
            old(self).index < old(self).vec@.len() ==> {
                &&& o == Some(old(self).vec@[old(self).index as int])
                &&& final(self).index == old(self).index + 1
            },
            old(self).index >= old(self).vec@.len() ==> {
                &&& o is None
                &&& final(self).index == old(self).index
            },
    {
        if self.index < self.vec.len() {
            self.index += 1;
            return Some(self.vec[self.index - 1]);
        }
        return None;
    }
}

/// Whether `n` has no divisor `d` with `2 <= d < n - 1`.  (The scan
/// deliberately stops short of `n - 1` itself, mirroring a common
/// hand-rolled check; for every `n` above 3 the outcome is the same.)
pub open spec fn spec_prime_scan(n: int) -> bool {
    forall|d: int| 2 <= d < n - 1 ==> #[trigger] (n % d) != 0
}

/// A primality check by trial division, the loop playing the role of an
/// `any` adapter: it stops at the first divisor found.
pub fn is_prime_number(n: u32) -> (r: bool)
    ensures
        r == spec_prime_scan(n as int),
{
    if n <= 3 {
        return true;
    }
    let mut d: u32 = 2;
    while d < n - 1
        invariant
            n >= 4,
            2 <= d <= n - 1,
            forall|k: int| 2 <= k < d ==> #[trigger] ((n as int) % k) != 0,
        decreases n - d,
    {
        if n % d == 0 {
            assert(((n as int) % (d as int)) == 0);
            return false;
        }
        d += 1;
    }
    true
}

/// Mapping, folding and a custom iterator, written as loops with
/// invariants.
pub fn iterator() {
    // Check a few numbers for primality; the loop in is_prime_number is
    // lazy in the same way an iterator chain is: it stops early
    let p = is_prime_number(7);

    // Produce a vector by mapping each element of a reversed range:
    // for i1 = 0, i2 = 10 the result holds increment(10), ..., increment(0)
    let i1: u32 = 0;
    let i2: u32 = 10;
    let mut v: Vec<u32> = Vec::new();
    let mut k: u32 = 0;
    while k <= i2
        invariant
            k <= i2 + 1,
            i2 == 10,
            v@.len() == k,
            forall|j: int| 0 <= j < k ==> v@[j] == 10 - j + 1,
        decreases i2 + 1 - k,
    {
        v.push(i2 - k + 1);
        k += 1;
    }
    assert(v@[0] == 11);
    assert(v@[10] == 1);

    // Iteration over a data structure with the custom iterator
    let mut custom_iterator = CustomIterator::new(vec![1, 2, 3]);
    let o = custom_iterator.next();
    assert(o == Some(1i32));
    let o = custom_iterator.next();
    assert(o == Some(2i32));

    // Fold: sum the numbers 1 to 9
    let mut total: u32 = 0;
    let mut i: u32 = 1;
    while i < 10
        invariant
            1 <= i <= 10,
            2 * total == i * (i - 1),
            total <= 100,
        decreases 10 - i,
    {
        proof {
            assert(2 * (total + i) == (i + 1) * ((i + 1) - 1) && total + i <= 100)
                by (nonlinear_arith)
                requires
                    2 * total == i * (i - 1),
                    1 <= i <= 9,
            ;
        }
        total = total + i;
        i += 1;
    }
    assert(total == 45);
}

} // verus!
