//! Traits and generics.  A trait can carry a contract: spec functions
//! declared on the trait give each implementation a place to say what its
//! methods require and ensure, and generic callers reason through those
//! spec functions without knowing the concrete type.

use vstd::prelude::*;

verus! {

/// A plain struct with two coordinates, used throughout this module.
pub struct Point {
    pub x: i32,
    pub y: i32,
}

// A collection of methods on the Point structure
impl Point {
    /// Consumes both points and returns their component-wise sum.
    pub fn foo(self, point: Point) -> (r: Point)
        requires
            i32::MIN <= self.x + point.x <= i32::MAX,
            i32::MIN <= self.y + point.y <= i32::MAX,
        ensures
            r.x == self.x + point.x,
            r.y == self.y + point.y,
    {
        Point { x: self.x + point.x, y: self.y + point.y }
    }

    /// Associated function (static): it does not take a `self` argument.
    pub fn new(a: i32, b: i32) -> (p: Self)
        ensures
            p.x == a,
            p.y == b,
    {
        Point { x: a, y: b }
    }
}

/// Trait example.  A trait can be seen as a contract; it's similar to
/// interfaces in other languages, with some differences.  In Verus the
/// contract is literal: the two spec functions below are chosen by each
/// implementation, and the `add` method promises to satisfy them.
pub trait Trait {
    /// When may `add` be called on this receiver?
    spec fn add_req(&self, p2: Point) -> bool;

    /// What does `add` return?
    spec fn add_ens(&self, p2: Point, r: Point) -> bool;

    /// Combine the receiver with a point.
    fn add(&self, p2: Point) -> (r: Point)
        requires
            self.add_req(p2),
        ensures
            self.add_ens(p2, r),
    ;

    /// An interface can also have default methods, inherited by every
    /// implementation that does not override them.
    fn default_method(&self) {
    }
}

// The implementation of the trait has to be done explicitly
impl Trait for Point {
    /// The sums of the coordinates must fit in `i32`.
    open spec fn add_req(&self, p2: Point) -> bool {
        i32::MIN <= self.x + p2.x <= i32::MAX && i32::MIN <= self.y + p2.y <= i32::MAX
    }

    /// The result is the component-wise sum.
    open spec fn add_ens(&self, p2: Point, r: Point) -> bool {
        r.x == self.x + p2.x && r.y == self.y + p2.y
    }

    fn add(&self, point: Point) -> Point {
        Point { x: self.x + point.x, y: self.y + point.y }
    }
}

/// A trait can be a parameter: `impl Trait` accepts any implementation.
pub fn function_accepting_trait(a: impl Trait) {
    a.default_method();
}

/// A syntax variant called *trait bound* syntax; the previous variant is
/// syntactic sugar for this one.
pub fn function_accepting_trait_variant<T: Trait>(a: T) {
    a.default_method();
}

/// The trait bound syntax is useful for specific use cases, for example
/// to enforce that two parameters have the same type.
pub fn function_accepting_two_parameters_of_the_same_type<T: Trait>(a: T, b: T) {
    a.default_method();
    b.default_method();
}

/// A function can also return a trait.  Note: it's only possible if the
/// function returns a single concrete type.  The postcondition can still
/// describe the value through the trait's spec functions.
pub fn function_returning_trait() -> (r: impl Trait)
    ensures
        forall|p: Point| -1000 <= p.x <= 1000 && -1000 <= p.y <= 1000 ==> #[trigger] r.add_req(p),
        forall|p: Point, q: Point|
            #[trigger] r.add_ens(p, q) ==> q.x == 1 + p.x && q.y == 1 + p.y,
{
    Point { x: 1, y: 1 }
}

/// Trait with generics: an associated function converting a value of the
/// parameter type.  The spec function `tuple_of` names the conversion so
/// that callers know exactly what comes back.
pub trait TraitWithGenerics<T> {
    /// The mathematical content of the conversion.
    spec fn tuple_of(t: T) -> (i32, i32);

    /// Convert a value into a pair.
    fn convert_to_tuple(t: T) -> (r: (i32, i32))
        ensures
            r == Self::tuple_of(t),
    ;
}

impl TraitWithGenerics<Point> for Point {
    open spec fn tuple_of(point: Point) -> (i32, i32) {
        (point.x, point.y)
    }

    fn convert_to_tuple(point: Point) -> (i32, i32) {
        (point.x, point.y)
    }
}

/// A vehicle can report an identifier.
pub trait Vehicle {
    /// The identifier, as a mathematical sequence of characters.
    spec fn spec_id(self) -> Seq<char>;

    /// Consumes the vehicle and hands its identifier out.
    fn id(self) -> (r: String)
        ensures
            r@ == self.spec_id(),
    ;
}

/// Car inherits from Vehicle: every implementor must also be a Vehicle.
pub trait Car: Vehicle {
    /// The colour, as a mathematical sequence of characters.
    spec fn spec_color(self) -> Seq<char>;

    /// Consumes the car and hands its colour out.
    fn color(self) -> (r: String)
        ensures
            r@ == self.spec_color(),
    ;
}

/// A type implementing both traits: Vehicle and Car.
pub struct Ferrari {
    pub id: String,
    pub color: String,
}

// Vehicle implementation
impl Vehicle for Ferrari {
    open spec fn spec_id(self) -> Seq<char> {
        self.id@
    }

    fn id(self) -> String {
        self.id
    }
}

// Car implementation
impl Car for Ferrari {
    open spec fn spec_color(self) -> Seq<char> {
        self.color@
    }

    fn color(self) -> String {
        self.color
    }
}

/// Exercises the items above: method calls, trait parameters in each
/// syntax, a trait returned from a function, and trait inheritance.
pub fn traits() {
    // An impl is used to define methods for structs and enums
    let p = Point { x: 1, y: 1 }.foo(Point { x: 2, y: 2 });
    assert(p.x == 3 && p.y == 3);

    // An associated (static) function call
    let point = Point::new(1, 1);
    assert(point.x == 1);

    // A trait can be a parameter
    function_accepting_trait(Point::new(1, 1));
    // A syntax variant called *trait bound* syntax
    function_accepting_trait_variant(Point::new(1, 1));
    // The trait bound syntax can enforce two parameters of the same type
    function_accepting_two_parameters_of_the_same_type(Point::new(1, 1), Point::new(1, 1));

    // A function can also return a trait
    let t = function_returning_trait();
    let q = t.add(Point::new(4, 5));
    assert(q.x == 5 && q.y == 6);

    // Point also implements the generic trait TraitWithGenerics
    let p = Point::convert_to_tuple(Point { x: 1, y: 1 });
    assert(p == (1i32, 1i32));

    // Inheritance example: Ferrari implements the Vehicle and Car traits
    let f = Ferrari { id: "001".to_owned(), color: "red".to_owned() };
    let c = f.color();
    assert(c@ == "red"@);
}

} // verus!
