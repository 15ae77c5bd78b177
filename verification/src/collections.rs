//! Arrays, slices and vectors, and a verified sort.  The view `v@` of a
//! vector is a mathematical sequence `Seq<i32>`; contracts and loop
//! invariants speak about views, and `to_multiset()` expresses that a
//! rearrangement keeps exactly the same elements.

use vstd::prelude::*;
use vstd::seq_lib::to_multiset_update;
use std::collections::HashMap;

verus! {

/// Fixed-size arrays and slices over them.  An array's view is a `Seq`
/// of its elements, and its length is part of its type.
pub fn array() {
    // Fixed size array of 5 i32 elements
    let a = [1, 2, 3, 4, 5];
    // Same as
    let a: [i32; 5] = [1, 2, 3, 4, 5];

    // Access element
    let i = a[0];
    assert(i == 1);
    // In order to mutate an element we have to declare the array mutable
    let mut a: [i32; 5] = [1, 2, 3, 4, 5];
    a[1] = 10;
    assert(a@[1] == 10);

    // Initializes the 5 elements to value 0
    let a: [i32; 5] = [0; 5];
    assert(a@[3] == 0);

    // Get array length: 5
    let n = a.len();
    assert(n == 5);

    // Create a slice from the array
    // A slice is a pointer on an array (it is not resizable)
    let p: &[i32] = a.as_slice();
    assert(p@.len() == 5);

    // Create a slice of a sub array (start included, end excluded)
    let a: [i32; 5] = [1, 2, 3, 4, 5];
    let s = vstd::slice::slice_subrange(a.as_slice(), 1, 3);
    // Slice length is 2, and it denotes elements 2 and 3
    let n = s.len();
    assert(n == 2);
    assert(s@ =~= seq![2i32, 3i32]);

    // Array iteration over each element index, summing as we go; the
    // invariant tracks the partial sums 0, 10, 30, 60
    let a: [i32; 3] = [10, 20, 30];
    let mut total: i32 = 0;
    let mut i: usize = 0;
    while i < 3
        invariant
            i <= 3,
            a@ =~= seq![10i32, 20i32, 30i32],
            total == (if i == 0 { 0int } else if i == 1 { 10int } else if i == 2 { 30int } else { 60int }),
        decreases 3 - i,
    {
        total = total + a[i];
        i = i + 1;
    }
    assert(total == 60);
}

/// A vector is a variable-length array, backed by an array with a length
/// and a capacity.  Its view grows and shrinks with it.
pub fn vector() {
    // Initialization - the element type has to be set, as no inserted
    // value lets Rust infer it
    let v: Vec<i32> = Vec::new();
    assert(v@.len() == 0);
    // Initialization using a macro
    let v: Vec<i32> = vec![];
    assert(v@.len() == 0);
    // Initialization with i32 values
    let v = vec![1i32, 2, 3];
    assert(v@ =~= seq![1i32, 2i32, 3i32]);
    // Initialization with an initial capacity, mutable
    let mut v: Vec<i32> = Vec::with_capacity(10);

    // Add an element at index 0
    v.push(10);  // [10]
    // Added at index 1
    v.push(20);  // [10, 20]
    assert(v@ =~= seq![10i32, 20i32]);

    // Remove the latest element
    let o = v.pop();  // [10]
    assert(o == Some(20i32));
    assert(v@ =~= seq![10i32]);

    // Get vector length
    let n = v.len();
    assert(n == 1);

    // Indexing an element requires showing the index is in bounds;
    // accessing outside the vector cannot even be written down
    let v = vec![1i32, 2, 3];
    let first = v[0];
    assert(first == 1);

    // Iteration by index, doubling each value in place
    let mut v = vec![1i32, 2, 3];
    let mut i: usize = 0;
    while i < v.len()
        invariant
            i <= v@.len() == 3,
            forall|k: int| 0 <= k < i ==> v@[k] == 2 * seq![1i32, 2i32, 3i32][k],
            forall|k: int| i <= k < 3 ==> v@[k] == seq![1i32, 2i32, 3i32][k],
        decreases v@.len() - i,
    {
        v[i] = 2 * v[i];
        i = i + 1;
    }
    assert(v@ =~= seq![2i32, 4i32, 6i32]);

    // Copy a vector; the clone's view equals the original's
    let w = v.clone();
    assert(w@ == v@);
}

/// A hash map stores key-value pairs on the heap; its view is a
/// mathematical `Map`.  The specifications hold for keys whose hashing
/// obeys the standard key model — integer keys here — under the default
/// hasher.
pub fn hashmap() {
    // Hashmap creation
    let m: HashMap<u32, i32> = HashMap::new();
    assert(m@ =~= Map::<u32, i32>::empty());
    // With an initial capacity
    let mut map: HashMap<u32, i32> = HashMap::with_capacity(32);

    // Insert elements; the view gains the pair
    let k: u32 = 1;
    let i: i32 = 10;
    map.insert(k, i);
    assert(map@ =~= Map::<u32, i32>::empty().insert(1u32, 10i32));
    assert(map@.contains_key(1u32));

    // An i32 implements the Copy trait, so the values were copied into
    // the hash map and it is valid to reuse them afterwards
    let n = i;
    assert(n == 10);

    // Mutate the value behind a key by inserting over it
    map.insert(2, 2);
    map.insert(2, 20);
    assert(map@[2u32] == 20);
    assert(map@.len() == 2);

    // Look an element up: get returns an Option
    let v = map.get(&1);
    assert(v == Some(&10i32));
    let missing = map.get(&3);
    assert(missing is None);

    // Remove a key; the view loses the pair
    map.remove(&1);
    assert(!map@.contains_key(1u32));
}

/// What it means for a sequence to be sorted in increasing order.
pub open spec fn sorted_ascending(s: Seq<i32>) -> bool {
    forall|i: int, j: int| 0 <= i < j < s.len() ==> s[i] <= s[j]
}

/// What it means for a sequence to be sorted in decreasing order.
pub open spec fn sorted_descending(s: Seq<i32>) -> bool {
    forall|i: int, j: int| 0 <= i < j < s.len() ==> s[i] >= s[j]
}

/// Swapping two positions of a sequence keeps its multiset of elements.
proof fn lemma_swap_preserves_multiset(s: Seq<i32>, i: int, j: int)
    requires
        0 <= i < j < s.len(),
    ensures
        s.update(i, s[j]).update(j, s[i]).to_multiset() == s.to_multiset(),
{
    broadcast use to_multiset_update;

    let s1 = s.update(i, s[j]);
    assert(s1[j] == s[j]);
    assert(s1.update(j, s[i]).to_multiset() =~= s.to_multiset()) by {
        s.to_multiset_ensures();
        assert(s.to_multiset().count(s[i]) > 0);
        assert(s.to_multiset().count(s[j]) > 0);
    }
}

/// Insertion sort: sorts the vector in place, in increasing order.  The
/// postcondition has two halves — the result is sorted, and it holds
/// exactly the elements it started with.  Either half alone would admit
/// wrong implementations; together they pin the result down.
pub fn sort_ascending(v: &mut Vec<i32>)
    ensures
        sorted_ascending(final(v)@),
        final(v)@.to_multiset() == old(v)@.to_multiset(),
        final(v)@.len() == old(v)@.len(),
{
    let mut i: usize = 1;
    while i < v.len()
        invariant
            1 <= i,
            v@.len() == old(v)@.len(),
            v@.to_multiset() == old(v)@.to_multiset(),
            forall|p: int, q: int| 0 <= p < q < i && q < v@.len() ==> v@[p] <= v@[q],
        decreases v@.len() - i,
    {
        let mut j: usize = i;
        while j > 0 && v[j - 1] > v[j]
            invariant
                0 <= j <= i < v@.len() == old(v)@.len(),
                v@.to_multiset() == old(v)@.to_multiset(),
                forall|p: int, q: int| 0 <= p < q <= i && q != j ==> v@[p] <= v@[q],
            decreases j,
        {
            let ghost s = v@;
            let a = v[j - 1];
            let b = v[j];
            v[j - 1] = b;
            v[j] = a;
            proof {
                assert(v@ =~= s.update(j - 1, s[j as int]).update(j as int, s[j - 1]));
                lemma_swap_preserves_multiset(s, j - 1, j as int);
            }
            j = j - 1;
        }
        i = i + 1;
    }
}

/// Reverses the vector in place; the resulting view is the mathematical
/// reversal of the original one.
pub fn reverse(v: &mut Vec<i32>)
    ensures
        final(v)@ =~= old(v)@.reverse(),
{
    let len = v.len();
    let mut i: usize = 0;
    while i < len / 2
        invariant
            len == v@.len() == old(v)@.len(),
            i <= len / 2,
            forall|k: int| 0 <= k < i ==> v@[k] == old(v)@[len - 1 - k],
            forall|k: int| 0 <= k < i ==> v@[len - 1 - k] == old(v)@[k],
            forall|k: int| i <= k < len - i ==> v@[k] == old(v)@[k],
        decreases len - i,
    {
        let a = v[i];
        let b = v[len - 1 - i];
        v[i] = b;
        v[len - 1 - i] = a;
        i = i + 1;
    }
}

/// Sorts the vector in decreasing order: sort increasingly, then
/// reverse.  The contract mirrors [`sort_ascending`]'s.
pub fn sort_descending(v: &mut Vec<i32>)
    ensures
        sorted_descending(final(v)@),
        final(v)@.to_multiset() == old(v)@.to_multiset(),
        final(v)@.len() == old(v)@.len(),
{
    sort_ascending(v);
    let ghost asc = v@;
    reverse(v);
    proof {
        asc.lemma_reverse_to_multiset();
        assert(forall|k: int| 0 <= k < asc.len() ==> v@[k] == asc[asc.len() - 1 - k]);
    }
}

/// Sorting demonstration on a small vector, in both directions.
pub fn sort() {
    let mut input = vec![1, 3, 2];
    // Sort input (mutates input directly)
    sort_ascending(&mut input);
    assert(sorted_ascending(input@));
    // Sort in the decreasing order
    sort_descending(&mut input);
    assert(sorted_descending(input@));
    // Both passes only rearranged the original elements
    assert(input@.to_multiset() == seq![1i32, 3i32, 2i32].to_multiset());
}

} // verus!
