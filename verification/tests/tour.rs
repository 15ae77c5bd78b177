use verus_tour::basics;
use verus_tour::traits::{Car, Trait, TraitWithGenerics, Vehicle};
use verus_tour::closures;
use verus_tour::collections;
use verus_tour::errors;
use verus_tour::generics;
use verus_tour::iterators;
use verus_tour::lifetimes;
use verus_tour::matching;
use verus_tour::misc;
use verus_tour::ownership;
use verus_tour::strings;
use verus_tour::structs;
use verus_tour::traits;

#[test]
// We can use:
// * #[ignore] to ignore a test
// * #[should_panic] to check that a function should panic
fn test_sum() {
    // Assert equal
    assert_eq!(basics::sum(2, 2), 4);
    // Assert not equal
    assert_ne!(basics::sum(2, 2), 3);
    // Assert boolean
    assert!("hello foo".contains("foo"), "do not contain foo")
}

#[test]
fn test_increment() {
    assert_eq!(basics::increment(1), 2);
    assert_eq!(basics::increment(-5), -4);
}

#[test]
fn test_multiply() {
    assert_eq!(basics::multiply(3, 6), 18);
    assert_eq!(basics::multiply(-4, 5), -20);
    assert_eq!(basics::multiply(0, 10000), 0);
}

#[test]
fn test_add() {
    assert_eq!(basics::add(1, 2), 3);
    assert_eq!(basics::add(-1, 1), 0);
}

#[test]
fn test_apply_to_one() {
    assert_eq!(basics::apply_to_one(basics::increment), 2);
}

#[test]
fn test_basics_demos_run() {
    basics::cargo();
    basics::comment();
    basics::scalar_types();
    basics::variables();
    basics::heap_stack();
    basics::tuples();
    basics::control_flow();
    basics::loops();
    basics::functions();
}

#[test]
fn test_structs_demos_run() {
    structs::structs();
    structs::enums();
}

#[test]
fn test_person_factory() {
    let p = structs::CLikePerson::factory(String::from("foo"), 18);
    assert_eq!(p.name, "foo");
    assert_eq!(p.age, 18);
}

#[test]
fn test_person_methods() {
    let mut p = structs::CLikePerson::factory(String::from("foo"), 18);
    p.method1();
    assert_eq!(p.age, 18);
    p.method2();
    assert_eq!(p.age, 20);
    assert_eq!(p.name, "foo");
    p.method3();
}

#[test]
fn test_point_methods() {
    let p = traits::Point::new(1, 2);
    assert_eq!(p.x, 1);
    assert_eq!(p.y, 2);
    let q = p.foo(traits::Point::new(10, 20));
    assert_eq!(q.x, 11);
    assert_eq!(q.y, 22);
}

#[test]
fn test_trait_add() {
    let p = traits::Point::new(1, 2);
    let r = p.add(traits::Point::new(3, 4));
    assert_eq!(r.x, 4);
    assert_eq!(r.y, 6);
}

#[test]
fn test_convert_to_tuple() {
    let t = traits::Point::convert_to_tuple(traits::Point::new(7, 9));
    assert_eq!(t, (7, 9));
}

#[test]
fn test_vehicle_car() {
    let f = traits::Ferrari { id: String::from("001"), color: String::from("red") };
    assert_eq!(f.id(), "001");
    let f = traits::Ferrari { id: String::from("001"), color: String::from("red") };
    assert_eq!(f.color(), "red");
}

#[test]
fn test_traits_demo_runs() {
    traits::traits();
}

#[test]
fn test_generic_functions() {
    let p = generics::generic_function(traits::Point::new(1, 1), traits::Point::new(2, 2));
    assert_eq!(p.x, 1);
    let b = generics::specifying_multiple_trait(generics::Both {}, generics::Both {});
    let _ = generics::specifying_multiple_trait_alternative_syntax(b, generics::Both {});
}

#[test]
fn test_generic_struct() {
    let s = generics::GenericStruct { x: 1i32, y: 2i32 };
    assert_eq!(*s.generic_function(), 1);
    assert_eq!(s.specific_function(), 3);
    generics::generics();
}

#[test]
fn test_div() {
    assert_eq!(errors::div(1, 1), Ok(1));
    assert_eq!(errors::div(7, 2), Ok(3));
    // Rust division truncates towards zero
    assert_eq!(errors::div(-7, 2), Ok(-3));
    assert_eq!(errors::div(7, -2), Ok(-3));
    assert_eq!(errors::div(-7, -2), Ok(3));
    assert_eq!(errors::div(1, 0), Err("b is nil"));
}

#[test]
fn test_result_caller() {
    assert_eq!(errors::result_caller(6, 3), Ok(2));
    assert_eq!(errors::result_caller(1, 0), Err("b is nil"));
}

#[test]
fn test_empty_result() {
    assert_eq!(errors::empty_result(), Ok(()));
}

#[test]
fn test_option_example() {
    assert_eq!(errors::option_example(0), Some(String::from("zero")));
    assert_eq!(errors::option_example(5), None);
    assert_eq!(errors::option_example(-1), None);
}

#[test]
fn test_sort_ascending() {
    let mut v = vec![1, 3, 2];
    collections::sort_ascending(&mut v);
    assert_eq!(v, vec![1, 2, 3]);

    let mut v = vec![5, -1, 4, 4, 0];
    collections::sort_ascending(&mut v);
    assert_eq!(v, vec![-1, 0, 4, 4, 5]);

    let mut v: Vec<i32> = vec![];
    collections::sort_ascending(&mut v);
    assert_eq!(v, vec![]);
}

#[test]
fn test_sort_descending() {
    let mut v = vec![1, 3, 2];
    collections::sort_descending(&mut v);
    assert_eq!(v, vec![3, 2, 1]);
}

#[test]
fn test_reverse() {
    let mut v = vec![1, 2, 3, 4];
    collections::reverse(&mut v);
    assert_eq!(v, vec![4, 3, 2, 1]);
    let mut v = vec![7];
    collections::reverse(&mut v);
    assert_eq!(v, vec![7]);
}

#[test]
fn test_collections_demos_run() {
    collections::array();
    collections::vector();
    collections::hashmap();
    collections::sort();
}

#[test]
fn test_parse_u32() {
    assert_eq!(strings::parse_u32("42"), Some(42));
    assert_eq!(strings::parse_u32("0"), Some(0));
    assert_eq!(strings::parse_u32("042"), Some(42));
    assert_eq!(strings::parse_u32(""), None);
    assert_eq!(strings::parse_u32("4x2"), None);
    assert_eq!(strings::parse_u32("-42"), None);
    // Largest value that fits, and the first that does not
    assert_eq!(strings::parse_u32("4294967295"), Some(u32::MAX));
    assert_eq!(strings::parse_u32("4294967296"), None);
}

#[test]
fn test_string_demo_runs() {
    strings::string();
}

#[test]
fn test_longest_with_lifetime() {
    assert_eq!(lifetimes::longest_with_lifetime("long text", "text"), "long text");
    assert_eq!(lifetimes::longest_with_lifetime("ab", "xy"), "xy");
    assert_eq!(lifetimes::longest_with_lifetime("", "x"), "x");
}

#[test]
fn test_lifetime_functions() {
    assert_eq!(lifetimes::function_with_useless_lifetime("foo"), "foo");
    assert_eq!(lifetimes::lifetime_function_static(), "foo");
    let p = traits::Point::new(3, 4);
    let r = lifetimes::generics_with_lifetimes(&p);
    assert_eq!(r.x, 3);
    lifetimes::lifetimes();
}

#[test]
fn test_custom_iterator() {
    let mut it = iterators::CustomIterator::new(vec![1, 2, 3]);
    assert_eq!(it.next(), Some(1));
    assert_eq!(it.next(), Some(2));
    assert_eq!(it.next(), Some(3));
    assert_eq!(it.next(), None);
    assert_eq!(it.next(), None);
}

#[test]
fn test_is_prime_number() {
    assert!(iterators::is_prime_number(2));
    assert!(iterators::is_prime_number(3));
    assert!(!iterators::is_prime_number(4));
    assert!(iterators::is_prime_number(5));
    assert!(iterators::is_prime_number(7));
    assert!(!iterators::is_prime_number(8));
    assert!(!iterators::is_prime_number(9));
    assert!(iterators::is_prime_number(13));
}

#[test]
fn test_iterator_demo_runs() {
    iterators::iterator();
}

#[test]
fn test_matching_demos_run() {
    matching::pattern_matching();
    matching::destructure();
    matching::if_let();
    matching::panic();
}

#[test]
fn test_ownership_demos_run() {
    ownership::ownership();
    ownership::copy();
    ownership::borrowing();
    ownership::dangling();
    ownership::smart_pointers();
    ownership::takes_ownership(String::from("foo"));
    ownership::Foo {}.bar();
}

#[test]
fn test_borrowing_functions() {
    let v = vec![1, 2, 3];
    ownership::function_accepting_shared_borrowing_vector(&v);
    assert_eq!(v, vec![1, 2, 3]);
    let mut v = vec![1, 2, 3];
    ownership::function_accepting_mutable_borrowing_vector(&mut v);
    assert_eq!(v, vec![1, 2, 3]);
}

#[test]
fn test_closures() {
    assert_eq!(closures::function_accepting_closure(1, 2, |a, b| a + b), 3);
    assert_eq!(closures::function_accepting_closure(4, 5, |a, b| a * b), 20);
    closures::closures();
}

#[test]
fn test_misc() {
    misc::alias();
    misc::never_type();
    misc::macros();
    misc::testing();
    misc::sync_send();
    misc::associated_types();
    let w = misc::Wrapper(vec![String::from("foo"), String::from("bar")]);
    assert_eq!(w.count(), 2);
    misc::newtype();
}
