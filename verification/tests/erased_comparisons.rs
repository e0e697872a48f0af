use core::cmp::Ordering;

use dyn_ord::DynEq;
use dyn_ord::DynOrd;
use dyn_ord::Erased;
use dyn_ord::TypeTag;
use dyn_ord::compare;
use dyn_ord::equal;
use dyn_ord::ord_eq;
use dyn_ord::lex::str_compare;

fn wrap_int(x: i64) -> Erased {
    Erased::Int(x)
}

fn wrap_text(s: &str) -> Erased {
    Erased::Text(String::from(s))
}

fn wrap_flag(b: bool) -> Erased {
    Erased::Flag(b)
}

#[test]
fn reflexivity() {
    assert!(equal(&wrap_int(42), &wrap_int(42)));
    assert!(equal(&wrap_text("qux"), &wrap_text("qux")));
    assert!(equal(&wrap_text(""), &wrap_text("")));
    assert!(equal(&wrap_flag(true), &wrap_flag(true)));
    assert!(equal(&wrap_flag(false), &wrap_flag(false)));
    assert_eq!(compare(&wrap_int(42), &wrap_int(42)), Some(Ordering::Equal));
    assert_eq!(compare(&wrap_text("qux"), &wrap_text("qux")), Some(Ordering::Equal));
}

#[test]
fn cross_type_unequal_and_incomparable() {
    let a = wrap_int(42);
    let b = wrap_text("qux");
    let c = wrap_flag(true);
    assert!(!equal(&a, &b));
    assert!(!equal(&b, &a));
    assert!(!equal(&a, &c));
    assert!(!equal(&b, &c));
    assert_eq!(compare(&a, &b), None);
    assert_eq!(compare(&b, &a), None);
    assert_eq!(compare(&a, &c), None);
    assert_eq!(compare(&c, &b), None);
}

#[test]
fn same_type_delegation_equality() {
    // The erased answer must match the concrete types' own equality.
    assert_eq!(equal(&wrap_int(5), &wrap_int(7)), 5i64 == 7i64);
    assert_eq!(equal(&wrap_int(5), &wrap_int(5)), 5i64 == 5i64);
    assert_eq!(equal(&wrap_text("qux"), &wrap_text("baz")), "qux" == "baz");
    assert_eq!(equal(&wrap_text("qux"), &wrap_text("qux")), "qux" == "qux");
    assert_eq!(equal(&wrap_flag(true), &wrap_flag(false)), true == false);
}

#[test]
fn same_type_delegation_ordering() {
    // The erased answer must match the concrete types' own partial order.
    assert_eq!(compare(&wrap_int(5), &wrap_int(7)), 5i64.partial_cmp(&7i64));
    assert_eq!(compare(&wrap_int(7), &wrap_int(5)), 7i64.partial_cmp(&5i64));
    assert_eq!(compare(&wrap_text("qux"), &wrap_text("baz")), "qux".partial_cmp("baz"));
    assert_eq!(compare(&wrap_text("baz"), &wrap_text("qux")), "baz".partial_cmp("qux"));
    assert_eq!(compare(&wrap_flag(false), &wrap_flag(true)), false.partial_cmp(&true));
}

#[test]
fn symmetry_of_equality() {
    let values = [wrap_int(42), wrap_int(7), wrap_text("qux"), wrap_text("baz"), wrap_text(""), wrap_flag(true), wrap_flag(false)];
    for x in &values {
        for y in &values {
            assert_eq!(equal(x, y), equal(y, x));
        }
    }
}

#[test]
fn antisymmetry_of_ordering() {
    assert_eq!(compare(&wrap_text("qux"), &wrap_text("baz")), Some(Ordering::Greater));
    assert_eq!(compare(&wrap_text("baz"), &wrap_text("qux")), Some(Ordering::Less));
    assert_eq!(compare(&wrap_int(1), &wrap_int(2)), Some(Ordering::Less));
    assert_eq!(compare(&wrap_int(2), &wrap_int(1)), Some(Ordering::Greater));
    assert_eq!(compare(&wrap_flag(false), &wrap_flag(true)), Some(Ordering::Less));
    assert_eq!(compare(&wrap_flag(true), &wrap_flag(false)), Some(Ordering::Greater));
}

#[test]
fn consistency_between_layers() {
    let values = [wrap_int(42), wrap_int(7), wrap_text("qux"), wrap_text("baz"), wrap_flag(true), wrap_flag(false)];
    for x in &values {
        for y in &values {
            assert_eq!(compare(x, y) == Some(Ordering::Equal), equal(x, y));
            assert_eq!(ord_eq(x, y), equal(x, y));
        }
    }
}

#[test]
fn equality_scenario() {
    // An integer and two texts, each compared against every other.
    let a = wrap_int(42);
    let b = wrap_text("qux");
    let c = wrap_text("baz");
    assert!(equal(&a, &a));
    assert!(!equal(&a, &b));
    assert!(!equal(&a, &c));
    assert!(!equal(&b, &c));
    assert!(equal(&b, &b));
    assert!(equal(&c, &c));
}

#[test]
fn ordering_scenario() {
    let x = wrap_int(1337);
    let y = wrap_text("qux");
    let z = wrap_text("baz");
    assert_eq!(compare(&y, &z), Some(Ordering::Greater));
    assert_eq!(compare(&z, &y), Some(Ordering::Less));
    assert_eq!(compare(&y, &y), Some(Ordering::Equal));
    assert_eq!(compare(&x, &y), None);
    assert_eq!(compare(&wrap_int(42), &wrap_text("qux")), None);
}

#[test]
fn dispatch_keeps_operand_order() {
    // A dispatch hop that swapped its operands would negate every ordering
    // result: pin the non-reversed outcome for differently-ordered pairs.
    assert_eq!(compare(&wrap_int(1), &wrap_int(2)), Some(Ordering::Less));
    assert_eq!(compare(&wrap_text("abc"), &wrap_text("abd")), Some(Ordering::Less));
    assert_eq!(compare(&wrap_text("abd"), &wrap_text("abc")), Some(Ordering::Greater));
}

#[test]
fn erased_operators() {
    let x = wrap_int(42);
    let y = wrap_text("qux");
    let z = wrap_text("baz");
    assert!(x == x);
    assert!(x != y);
    assert!(x != z);
    assert!(y != z);
    assert!(y == y);
    assert!(z == z);
    assert_eq!(y.partial_cmp(&z), Some(Ordering::Greater));
    assert_eq!(z.partial_cmp(&y), Some(Ordering::Less));
    assert_eq!(y.partial_cmp(&y), Some(Ordering::Equal));
    assert_eq!(x.partial_cmp(&y), None);
    assert!(z < y);
    assert!(!(x < y) && !(y < x) && x != y);
}

#[test]
fn type_tags_and_downcasts() {
    let a = wrap_int(42);
    let b = wrap_text("qux");
    let c = wrap_flag(true);
    assert_eq!(a.tag(), TypeTag::Int);
    assert_eq!(b.tag(), TypeTag::Text);
    assert_eq!(c.tag(), TypeTag::Flag);
    assert_eq!(a.as_int(), Some(42));
    assert_eq!(a.as_text(), None);
    assert_eq!(a.as_flag(), None);
    assert_eq!(b.as_text().map(|s| s.as_str()), Some("qux"));
    assert_eq!(b.as_int(), None);
    assert_eq!(c.as_flag(), Some(true));
}

#[test]
fn trait_dispatch_from_concrete_values() {
    let q = String::from("qux");
    let b = String::from("baz");
    assert!(5i64.dyn_eq(&5i64.as_erased()));
    assert!(!5i64.dyn_eq(&7i64.as_erased()));
    assert!(!5i64.dyn_eq(&q.as_erased()));
    assert!(q.dyn_eq(&q.as_erased()));
    assert!(!q.dyn_eq(&b.as_erased()));
    assert_eq!(q.dyn_ord(&b.as_erased()), Some(Ordering::Greater));
    assert_eq!(b.dyn_ord(&q.as_erased()), Some(Ordering::Less));
    assert_eq!(5i64.dyn_ord(&q.as_erased()), None);
    assert_eq!(true.dyn_ord(&false.as_erased()), Some(Ordering::Greater));
}

#[test]
fn text_edge_cases() {
    assert_eq!(compare(&wrap_text(""), &wrap_text("")), Some(Ordering::Equal));
    assert_eq!(compare(&wrap_text(""), &wrap_text("a")), Some(Ordering::Less));
    assert_eq!(compare(&wrap_text("a"), &wrap_text("")), Some(Ordering::Greater));
    // A proper prefix orders before the longer text.
    assert_eq!(compare(&wrap_text("ab"), &wrap_text("abc")), Some(Ordering::Less));
    assert_eq!(compare(&wrap_text("abc"), &wrap_text("ab")), Some(Ordering::Greater));
    // Order follows Unicode scalar values, as the native string order does.
    assert_eq!(compare(&wrap_text("aé"), &wrap_text("az")), "aé".partial_cmp("az"));
    assert_eq!(compare(&wrap_text("日本"), &wrap_text("日ア")), "日本".partial_cmp("日ア"));
}

#[test]
fn integer_edge_cases() {
    assert_eq!(compare(&wrap_int(-5), &wrap_int(3)), Some(Ordering::Less));
    assert_eq!(compare(&wrap_int(i64::MIN), &wrap_int(i64::MAX)), Some(Ordering::Less));
    assert_eq!(compare(&wrap_int(i64::MAX), &wrap_int(i64::MIN)), Some(Ordering::Greater));
    assert!(equal(&wrap_int(i64::MIN), &wrap_int(i64::MIN)));
    assert!(!equal(&wrap_int(i64::MIN), &wrap_int(i64::MAX)));
}

#[test]
fn str_compare_matches_native_order() {
    assert_eq!(str_compare("qux", "baz"), "qux".cmp("baz"));
    assert_eq!(str_compare("qux", "baz"), Ordering::Greater);
    assert_eq!(str_compare("baz", "qux"), Ordering::Less);
    assert_eq!(str_compare("", ""), Ordering::Equal);
    assert_eq!(str_compare("ab", "abc"), Ordering::Less);
}
