//! The equality capability: the rule that decides whether two erased values
//! are equal, and the trait a concrete type implements to take part in it.

use crate::erased::Erased;
use vstd::prelude::*;

verus! {

/// Equality of two erased values: values of different concrete types are
/// never equal; values of the same concrete type are equal exactly when that
/// type's own equality holds of them.
pub open spec fn erased_eq(a: Erased, b: Erased) -> bool {
    match (a, b) {
        (Erased::Int(x), Erased::Int(y)) => x == y,
        (Erased::Text(x), Erased::Text(y)) => x@ == y@,
        (Erased::Flag(x), Erased::Flag(y)) => x == y,
        _ => false,
    }
}

/// The capability a concrete type supplies to take part in erased equality:
/// a stable erased identity and a self-type equality.
///
/// The two proof obligations are the laws the erasure layer relies on: the
/// self-type equality must be reflexive and symmetric, and comparing the
/// erased views of two values must agree with comparing the values natively
/// (same-type delegation).
pub trait DynEq: Sized {
    /// The erased view of this value.
    spec fn erase_spec(&self) -> Erased;

    /// The concrete type's own equality.
    spec fn eq_spec(&self, other: &Self) -> bool;

    /// Wrap this value in the erased interface.
    fn as_erased(&self) -> (e: Erased)
        ensures
            e == self.erase_spec(),
    ;

    /// The concrete type's own equality test.
    fn concrete_eq(&self, other: &Self) -> (r: bool)
        ensures
            r == self.eq_spec(other),
    ;

    /// Compare this value against an erased value: attempt to downcast the
    /// other side to this value's own concrete type, and on success defer to
    /// the concrete equality; a failed downcast is a plain "not equal".
    fn dyn_eq(&self, other: &Erased) -> (r: bool)
        ensures
            r == erased_eq(self.erase_spec(), *other),
    ;

    /// The concrete equality is reflexive.
    proof fn lemma_eq_reflexive(&self)
        ensures
            self.eq_spec(self),
    ;

    /// The concrete equality is symmetric.
    proof fn lemma_eq_symmetric(&self, other: &Self)
        ensures
            self.eq_spec(other) == other.eq_spec(self),
    ;

    /// Erased equality of two same-type values delegates to the concrete
    /// type's own equality, verbatim.
    proof fn lemma_eq_delegates(&self, other: &Self)
        ensures
            erased_eq(self.erase_spec(), other.erase_spec()) == self.eq_spec(other),
    ;
}

impl DynEq for i64 {
    open spec fn erase_spec(&self) -> Erased {
        Erased::Int(*self)
    }

    open spec fn eq_spec(&self, other: &i64) -> bool {
        self == other
    }

    fn as_erased(&self) -> (e: Erased) {
        Erased::Int(*self)
    }

    fn concrete_eq(&self, other: &i64) -> (r: bool) {
        *self == *other
    }

    fn dyn_eq(&self, other: &Erased) -> (r: bool) {
        match other.as_int() {
            Some(y) => self.concrete_eq(&y),
            None => false,
        }
    }

    proof fn lemma_eq_reflexive(&self) {
    }

    proof fn lemma_eq_symmetric(&self, other: &i64) {
    }

    proof fn lemma_eq_delegates(&self, other: &i64) {
    }
}

impl DynEq for String {
    open spec fn erase_spec(&self) -> Erased {
        Erased::Text(*self)
    }

    open spec fn eq_spec(&self, other: &String) -> bool {
        self@ == other@
    }

    fn as_erased(&self) -> (e: Erased) {
        Erased::Text(self.clone())
    }

    fn concrete_eq(&self, other: &String) -> (r: bool) {
        *self == *other
    }

    fn dyn_eq(&self, other: &Erased) -> (r: bool) {
        match other.as_text() {
            Some(y) => self.concrete_eq(y),
            None => false,
        }
    }

    proof fn lemma_eq_reflexive(&self) {
    }

    proof fn lemma_eq_symmetric(&self, other: &String) {
    }

    proof fn lemma_eq_delegates(&self, other: &String) {
    }
}

impl DynEq for bool {
    open spec fn erase_spec(&self) -> Erased {
        Erased::Flag(*self)
    }

    open spec fn eq_spec(&self, other: &bool) -> bool {
        self == other
    }

    fn as_erased(&self) -> (e: Erased) {
        Erased::Flag(*self)
    }

    fn concrete_eq(&self, other: &bool) -> (r: bool) {
        *self == *other
    }

    fn dyn_eq(&self, other: &Erased) -> (r: bool) {
        match other.as_flag() {
            Some(y) => self.concrete_eq(&y),
            None => false,
        }
    }

    proof fn lemma_eq_reflexive(&self) {
    }

    proof fn lemma_eq_symmetric(&self, other: &bool) {
    }

    proof fn lemma_eq_delegates(&self, other: &bool) {
    }
}

/// Compare two erased values for equality.
///
/// Dispatches on the concrete type of the left operand, whose `dyn_eq`
/// attempts to downcast the right operand to that same type; a failed
/// downcast (differing concrete types) is "not equal".
pub fn equal(a: &Erased, b: &Erased) -> (r: bool)
    ensures
        r == erased_eq(*a, *b),
{
    match a {
        Erased::Int(x) => x.dyn_eq(b),
        Erased::Text(s) => s.dyn_eq(b),
        Erased::Flag(f) => f.dyn_eq(b),
    }
}

impl vstd::std_specs::cmp::PartialEqSpecImpl for Erased {
    open spec fn obeys_eq_spec() -> bool {
        true
    }

    open spec fn eq_spec(&self, other: &Erased) -> bool {
        erased_eq(*self, *other)
    }
}

impl PartialEq for Erased {
    fn eq(&self, other: &Erased) -> (r: bool) {
        equal(self, other)
    }
}

/// Every erased value is equal to itself.
pub proof fn lemma_equal_reflexive(x: Erased)
    ensures
        erased_eq(x, x),
{
}

/// Erased equality does not depend on which operand the comparison is
/// invoked on.
pub proof fn lemma_equal_symmetric(x: Erased, y: Erased)
    ensures
        erased_eq(x, y) == erased_eq(y, x),
{
}

/// Erased values of differing concrete types are never equal, whatever they
/// hold.
pub proof fn lemma_cross_type_unequal(x: Erased, y: Erased)
    requires
        x.tag_spec() != y.tag_spec(),
    ensures
        !erased_eq(x, y),
{
}

/// Same-type delegation of equality: comparing the erased views of two
/// values of one concrete type answers exactly what the type's own equality
/// answers on the values themselves.
pub proof fn lemma_same_type_eq_delegates<T: DynEq>(x: &T, y: &T)
    ensures
        erased_eq(x.erase_spec(), y.erase_spec()) == x.eq_spec(y),
{
    x.lemma_eq_delegates(y);
}

} // verus!
