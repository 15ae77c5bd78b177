//! Ownership and borrowing.  Every value has one owner; assignment either
//! copies or moves; borrows are shared or mutable.  Contracts on borrowing
//! functions relate the borrowed value before and after the call.

use vstd::prelude::*;

verus! {

/// Takes ownership of a string and drops it; the caller cannot use the
/// argument afterwards.
pub fn takes_ownership(_s: String) {
}

/// An empty struct whose one method consumes the instance.
pub struct Foo {
}

impl Foo {
    /// Having a method that takes ownership of the instance by using just
    /// `self` is rare; it's usually used when the method transforms `self`
    /// into something else, so the caller may not use the original
    /// instance afterwards.
    pub fn bar(self) {
    }
}

/// Ownership rules:
/// * each value has a variable that is called the owner;
/// * only one owner at a time;
/// * when the owner goes out of scope, the value is dropped.
pub fn ownership() {
    // When a variable goes out of scope, the memory is automatically
    // returned
    {
        let _i: i32 = 1;
    }

    // Assigning a String transfers ownership: i was moved into j, and i
    // cannot be used afterwards
    let i = "hello".to_owned();
    let j = i;
    assert(j@ == "hello"@);

    // Yet, a primitive value is copied, not transferred: both variables
    // own an i32 value, and facts about the first carry over
    let i: i32 = 1;
    let j = i;
    assert(i == 1 && j == 1);

    // An array of primitives is copied as well
    let a: [i32; 3] = [1, 2, 3];
    let a2 = a;
    assert(a[0] == 1 && a2[0] == 1);

    // The semantics for passing a value to a function is similar to
    // variable assignment: s is moved into the callee
    let s = "foo".to_owned();
    takes_ownership(s);

    // A method taking just self also consumes its receiver
    Foo {}.bar();
}

/// A copy of stack data is bit-for-bit; `clone` is the explicit deep copy
/// for heap data, and its contract says the views are equal.
pub fn copy() {
    let i = "hello".to_owned();
    let j = i.clone();
    // Both own equal character sequences now
    assert(i@ == j@ && j@ == "hello"@);

    // Rust never automatically creates deep copies; cloning is always
    // explicit
    let i = "hello".to_owned();
    let j = i.clone();
    assert(j@ == "hello"@);
}

/// A shared borrow: the function may read the vector but not change it,
/// which is visible in the signature alone — no `&mut`, no `final`.
pub fn function_accepting_shared_borrowing_vector(_v: &Vec<i32>) {
}

/// A mutable borrow: the function may change the vector.  This one leaves
/// it as it was, and the postcondition says so.
pub fn function_accepting_mutable_borrowing_vector(v: &mut Vec<i32>)
    ensures
        final(v)@ == old(v)@,
{
}

/// Two types of borrowing:
/// * shared: data can be borrowed by multiple users but must not be
///   altered;
/// * mutable: data can be borrowed and altered by a single user.
///
/// The benefit of these restrictions is the data-race analysis done by
/// the compiler; the verifier builds on it to track values through
/// borrows.
pub fn borrowing() {
    // Shared borrowing: multiple immutable references are allowed
    let v1 = vec![1, 2, 3];
    let v2 = &v1;
    let v3 = &v1;
    assert(v2@ == v1@ && v3@ == v1@);

    // Mutable borrowing: only one mutable reference is allowed
    let mut v1 = vec![1, 2, 3];
    let v2 = &mut v1;
    // Here, only v2 should read and access the vector
    v2[0] = 10;
    let i = v2[0];
    assert(i == 10);

    // The same applies while calling a function
    // Shared borrowing
    let v = vec![1, 2, 3];
    function_accepting_shared_borrowing_vector(&v);
    assert(v@ == seq![1i32, 2i32, 3i32]);
    // Mutable borrowing
    let mut v = vec![1, 2, 3];
    function_accepting_mutable_borrowing_vector(&mut v);
    // At this stage, the ownership has been automatically returned to v,
    // and the callee's contract tells us nothing changed
    v.push(4);
    assert(v@ == seq![1i32, 2i32, 3i32, 4i32]);

    // Multiple immutable references are fine as long as no mutable
    // reference exists at the same time
    let s = "foo".to_owned();
    let s1 = &s;  // First immutable reference
    let s2 = &s;  // Second immutable reference
    assert(s1@ == s2@);
}

/// A smart pointer is a data structure that acts like a pointer with
/// additional metadata and capabilities.  To specifications the common
/// smart pointers are transparent: a `Box<T>`, `Rc<T>` or `Arc<T>` is
/// seen as the value it holds.
pub fn smart_pointers() {
    // Box<T> stores data on the heap rather than the stack; what remains
    // on the stack is a pointer to the heap data
    let b = Box::new(5i32);
    // Using the dereference operator, the Deref trait is involved
    let i = *b;
    assert(i == 5);

    // Rc<T>: reference-counted pointer for single-threaded code, when a
    // single value has multiple owners.  The reference counts themselves
    // are run-time bookkeeping that no contract here speaks about
    let a = std::rc::Rc::new(7i32);
    assert(*a == 7);

    // Arc<T> is like Rc<T> but safe for concurrent use (A for atomic)
    let c = std::sync::Arc::new(9i32);
    assert(*c == 9);

    // Taking the value back out of an Rc: either way, the value seen is
    // the one that was stored
    let back = std::rc::Rc::try_unwrap(a);
    assert(match back {
        Ok(t) => t == 7,
        Err(e) => *e == 7,
    });

    // RefCell<T> and interior mutability are not supported in verified
    // code; code that needs them stays with the unverified shell
}

/// A dangling pointer is a pointer that references an invalid location in
/// memory.  Rust prevents this from happening: a function cannot return a
/// reference to a local, so there is nothing left for the verifier to
/// check — memory safety comes from the borrow checker.
pub fn dangling() {
}

} // verus!
