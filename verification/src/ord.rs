//! The ordering capability: the rule that decides whether and how two erased
//! values are ordered, and the trait a concrete type implements to take part
//! in it. Requires the equality capability, and never contradicts it.

use crate::eq::DynEq;
use crate::eq::erased_eq;
use crate::erased::Erased;
use crate::lex::flip;
use crate::lex::lemma_lex_cmp_equal_iff;
use crate::lex::lemma_lex_cmp_flip;
use crate::lex::lex_cmp;
use crate::lex::str_compare;
use core::cmp::Ordering;
use vstd::prelude::*;

verus! {

/// Three-way order of two mathematical integers.
pub open spec fn int_cmp(a: int, b: int) -> Ordering {
    if a < b {
        Ordering::Less
    } else if a == b {
        Ordering::Equal
    } else {
        Ordering::Greater
    }
}

/// Three-way order of two booleans: false orders before true.
pub open spec fn bool_cmp(a: bool, b: bool) -> Ordering {
    if a == b {
        Ordering::Equal
    } else if !a {
        Ordering::Less
    } else {
        Ordering::Greater
    }
}

/// Ordering of two erased values: values of different concrete types are
/// incomparable; values of the same concrete type are ordered by that type's
/// own partial order, with the operands in the same logical order.
pub open spec fn erased_cmp(a: Erased, b: Erased) -> Option<Ordering> {
    match (a, b) {
        (Erased::Int(x), Erased::Int(y)) => Some(int_cmp(x as int, y as int)),
        (Erased::Text(x), Erased::Text(y)) => Some(lex_cmp(x@, y@)),
        (Erased::Flag(x), Erased::Flag(y)) => Some(bool_cmp(x, y)),
        _ => None,
    }
}

/// The capability a concrete type supplies to take part in erased ordering,
/// on top of [`DynEq`]: a self-type partial order.
///
/// The proof obligations are the laws the erasure layer relies on: the
/// self-type order must be anti-symmetric, it must call a pair equal exactly
/// when the self-type equality does, and comparing the erased views of two
/// values must agree with comparing the values natively (same-type
/// delegation).
pub trait DynOrd: DynEq {
    /// The concrete type's own partial order.
    spec fn cmp_spec(&self, other: &Self) -> Option<Ordering>;

    /// The concrete type's own three-way comparison.
    fn concrete_cmp(&self, other: &Self) -> (r: Option<Ordering>)
        ensures
            r == self.cmp_spec(other),
    ;

    /// Order this value against an erased value: attempt to downcast the
    /// other side to this value's own concrete type, and on success defer to
    /// the concrete order, operands unswapped; a failed downcast is a plain
    /// "incomparable".
    fn dyn_ord(&self, other: &Erased) -> (r: Option<Ordering>)
        ensures
            r == erased_cmp(self.erase_spec(), *other),
    ;

    /// Swapping the operands of the concrete order flips its outcome.
    proof fn lemma_cmp_antisymmetric(&self, other: &Self)
        ensures
            other.cmp_spec(self) == match self.cmp_spec(other) {
                Some(o) => Some(flip(o)),
                None => None::<Ordering>,
            },
    ;

    /// The concrete order calls a pair equal exactly when the concrete
    /// equality does.
    proof fn lemma_cmp_eq_agree(&self, other: &Self)
        ensures
            (self.cmp_spec(other) == Some(Ordering::Equal)) <==> self.eq_spec(other),
    ;

    /// Erased ordering of two same-type values delegates to the concrete
    /// type's own partial order, verbatim.
    proof fn lemma_cmp_delegates(&self, other: &Self)
        ensures
            erased_cmp(self.erase_spec(), other.erase_spec()) == self.cmp_spec(other),
    ;
}

impl DynOrd for i64 {
    open spec fn cmp_spec(&self, other: &i64) -> Option<Ordering> {
        Some(int_cmp(*self as int, *other as int))
    }

    fn concrete_cmp(&self, other: &i64) -> (r: Option<Ordering>) {
        if *self < *other {
            Some(Ordering::Less)
        } else if *self == *other {
            Some(Ordering::Equal)
        } else {
            Some(Ordering::Greater)
        }
    }

    fn dyn_ord(&self, other: &Erased) -> (r: Option<Ordering>) {
        match other.as_int() {
            Some(y) => self.concrete_cmp(&y),
            None => None,
        }
    }

    proof fn lemma_cmp_antisymmetric(&self, other: &i64) {
    }

    proof fn lemma_cmp_eq_agree(&self, other: &i64) {
    }

    proof fn lemma_cmp_delegates(&self, other: &i64) {
    }
}

impl DynOrd for String {
    open spec fn cmp_spec(&self, other: &String) -> Option<Ordering> {
        Some(lex_cmp(self@, other@))
    }

    fn concrete_cmp(&self, other: &String) -> (r: Option<Ordering>) {
        Some(str_compare(self.as_str(), other.as_str()))
    }

    fn dyn_ord(&self, other: &Erased) -> (r: Option<Ordering>) {
        match other.as_text() {
            Some(y) => self.concrete_cmp(y),
            None => None,
        }
    }

    proof fn lemma_cmp_antisymmetric(&self, other: &String) {
        lemma_lex_cmp_flip(self@, other@);
    }

    proof fn lemma_cmp_eq_agree(&self, other: &String) {
        lemma_lex_cmp_equal_iff(self@, other@);
    }

    proof fn lemma_cmp_delegates(&self, other: &String) {
    }
}

impl DynOrd for bool {
    open spec fn cmp_spec(&self, other: &bool) -> Option<Ordering> {
        Some(bool_cmp(*self, *other))
    }

    fn concrete_cmp(&self, other: &bool) -> (r: Option<Ordering>) {
        if *self == *other {
            Some(Ordering::Equal)
        } else if !*self {
            Some(Ordering::Less)
        } else {
            Some(Ordering::Greater)
        }
    }

    fn dyn_ord(&self, other: &Erased) -> (r: Option<Ordering>) {
        match other.as_flag() {
            Some(y) => self.concrete_cmp(&y),
            None => None,
        }
    }

    proof fn lemma_cmp_antisymmetric(&self, other: &bool) {
    }

    proof fn lemma_cmp_eq_agree(&self, other: &bool) {
    }

    proof fn lemma_cmp_delegates(&self, other: &bool) {
    }
}

/// Order two erased values.
///
/// Dispatches on the concrete type of the left operand, whose `dyn_ord`
/// attempts to downcast the right operand to that same type; a failed
/// downcast (differing concrete types) is "incomparable".
pub fn compare(a: &Erased, b: &Erased) -> (r: Option<Ordering>)
    ensures
        r == erased_cmp(*a, *b),
{
    match a {
        Erased::Int(x) => x.dyn_ord(b),
        Erased::Text(s) => s.dyn_ord(b),
        Erased::Flag(f) => f.dyn_ord(b),
    }
}

/// Equality of two erased values, derived from their ordering: equal exactly
/// when the ordering outcome is "equal", so that "incomparable" can never
/// drift apart from "not equal".
pub fn ord_eq(a: &Erased, b: &Erased) -> (r: bool)
    ensures
        r == (erased_cmp(*a, *b) == Some(Ordering::Equal)),
        r == erased_eq(*a, *b),
{
    proof {
        lemma_compare_equal_iff_equal(*a, *b);
    }
    match compare(a, b) {
        Some(Ordering::Equal) => true,
        _ => false,
    }
}

impl vstd::std_specs::cmp::PartialOrdSpecImpl for Erased {
    open spec fn obeys_partial_cmp_spec() -> bool {
        true
    }

    open spec fn partial_cmp_spec(&self, other: &Erased) -> Option<Ordering> {
        erased_cmp(*self, *other)
    }
}

impl PartialOrd for Erased {
    fn partial_cmp(&self, other: &Erased) -> (r: Option<Ordering>) {
        compare(self, other)
    }
}

/// Erased values of differing concrete types are never ordered, whatever
/// they hold.
pub proof fn lemma_cross_type_incomparable(x: Erased, y: Erased)
    requires
        x.tag_spec() != y.tag_spec(),
    ensures
        erased_cmp(x, y) is None,
{
}

/// Swapping the operands of the erased ordering flips its outcome: in
/// particular one operand orders below the other exactly when the other
/// orders above it, with no asymmetry introduced by the dispatch.
pub proof fn lemma_compare_antisymmetric(x: Erased, y: Erased)
    ensures
        erased_cmp(y, x) == match erased_cmp(x, y) {
            Some(o) => Some(flip(o)),
            None => None::<Ordering>,
        },
        (erased_cmp(x, y) == Some(Ordering::Less)) <==> (erased_cmp(y, x) == Some(
            Ordering::Greater,
        )),
{
    match (x, y) {
        (Erased::Text(s), Erased::Text(t)) => {
            lemma_lex_cmp_flip(s@, t@);
        },
        _ => {},
    }
}

/// The two layers never contradict each other: the erased ordering calls a
/// pair equal exactly when erased equality does, and an incomparable pair is
/// never equal.
pub proof fn lemma_compare_equal_iff_equal(x: Erased, y: Erased)
    ensures
        (erased_cmp(x, y) == Some(Ordering::Equal)) <==> erased_eq(x, y),
{
    match (x, y) {
        (Erased::Text(s), Erased::Text(t)) => {
            lemma_lex_cmp_equal_iff(s@, t@);
        },
        _ => {},
    }
}

/// Same-type delegation of ordering: comparing the erased views of two
/// values of one concrete type answers exactly what the type's own partial
/// order answers on the values themselves.
pub proof fn lemma_same_type_cmp_delegates<T: DynOrd>(x: &T, y: &T)
    ensures
        erased_cmp(x.erase_spec(), y.erase_spec()) == x.cmp_spec(y),
{
    x.lemma_cmp_delegates(y);
}

} // verus!
