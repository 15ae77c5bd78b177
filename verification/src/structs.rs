//! Structs and enums: the three struct flavours, methods on a struct, and
//! enums with and without payloads.  Contracts on methods relate the state
//! after a call to the state before it.

use vstd::prelude::*;

verus! {

/// C-like structure.
/// The naming convention for each structure type is pascal case.
#[derive(Debug)]
pub struct CLikePerson {
    pub name: String,
    pub age: u32,
}

impl CLikePerson {
    /// Takes `&self`: the method does not take ownership and cannot
    /// mutate the structure, so callers keep every fact they had about
    /// the fields.
    pub fn method1(&self) {
        // The structure cannot be mutated, so `self.age = 20;` would not
        // compile here.
    }

    /// Takes `&mut self`, allowing the structure to be mutated within the
    /// method.  `old(self)` is the value before the call and `final(self)`
    /// the value after it.
    pub fn method2(&mut self)
        ensures
            final(self).age == 20,
            final(self).name == old(self).name,
    {
        // This time, the structure can be mutated
        self.age = 20;
    }

    /// Takes `self`: the ownership of the structure is transferred to the
    /// method and the value is dropped when the method returns.
    pub fn method3(self) {
    }

    /// An impl block can also contain associated functions, called
    /// without an instance.  Use cases: constructors, or functions used
    /// only by methods of `CLikePerson`.
    pub fn factory(name: String, age: u32) -> (p: CLikePerson)
        ensures
            p.name == name,
            p.age == age,
    {
        CLikePerson { name, age }
    }
}

// Note that it's allowed to have multiple impl blocks for the same struct
impl CLikePerson {}

/// Tuple structure: fields are reached by index, `person.0`, `person.1`.
pub struct TuplePerson(pub String, pub u32);

/// Unit structure: a simple structure without members.  Useful where a
/// trait has to be implemented on some type but there is no data to store
/// in the type itself.
pub struct UnitStruct;

/// A tour of the three struct flavours.  The verifier tracks field values
/// through construction, functional update and method calls, so each
/// `assert` below is discharged statically.
pub fn structs() {
    /* Structs (C-like) */

    // We need to assign a value for each member of the structure,
    // otherwise it won't compile
    let person = CLikePerson { name: "foo".to_owned(), age: 18 };

    // Access
    assert(person.age == 18);
    assert(person.name@ == "foo"@);

    // Copy the remaining fields from another value; `..person` fills in
    // every field not listed before it
    let s = CLikePerson { name: "bar".to_owned(), ..person };
    assert(s.age == 18);

    // If we hold variables whose names are the same as the fields, we can
    // pass them directly
    let name = "foo".to_owned();
    let age: u32 = 1;
    let p = CLikePerson { name, age };
    assert(p.age == 1);

    let person = CLikePerson { name: "foo".to_owned(), age: 18 };

    // There are three types of methods
    // 1. Calling using a &self
    // The method doesn't take ownership and can't mutate the structure
    person.method1();
    assert(person.age == 18);
    // 2. Passing a &mut self allowing the structure to be mutated within
    // the method; its postcondition says what changed
    let mut mutable_person = CLikePerson { name: "foo".to_owned(), age: 18 };
    mutable_person.method2();
    assert(mutable_person.age == 20);
    // 3. Transferring the ownership of the structure
    person.method3();

    /* Tuple structs */

    let tuple_person = TuplePerson("foo".to_owned(), 20);
    // Accessing elements
    assert(tuple_person.1 == 20);

    /* Unit-like structs */

    let n = UnitStruct;
}

/// Simple enum (based on units).
pub enum Plain {
    Foo,
    Bar,
}

/// Enum with variants: a struct variant, a tuple variant, and a unit
/// variant.  In specifications, `e is Foo` tests the variant and
/// `e->field` reads its payload.
pub enum EnumWithVariants {
    Foo { id: i32, age: i32 },  // Struct variant
    Bar(String),                // Tuple variant
    Baz,                        // Unit
}

/// Construct each kind of enum value and check, in ghost code, which
/// variant each value holds.
pub fn enums() {
    // Simple enum (based on units)
    let e = Plain::Foo;
    assert(e is Foo);
    let e = Plain::Bar;
    assert(e is Bar);

    // Enum with variants
    let e = EnumWithVariants::Foo { id: 1, age: 1 };
    assert(e is Foo && e->id == 1);
    let e = EnumWithVariants::Bar("foo".to_owned());
    assert(e is Bar);
    let e = EnumWithVariants::Baz;
    assert(e is Baz);
}

} // verus!
