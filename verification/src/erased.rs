//! The erased value itself: a tagged wrapper around one of the concrete
//! types that participate in erased comparison, together with the identity
//! tag that tells the concrete types apart and the checked downcasts that
//! recover a concretely-typed view.

use vstd::prelude::*;

verus! {

/// The runtime identity of an erased value's concrete type.
///
/// The tag supports only one question: are two erased values of the same
/// concrete type? It cannot be used to inspect or build a value.
#[derive(Clone, Copy, PartialEq, Eq, Structural, Debug)]
pub enum TypeTag {
    /// The concrete type is a signed machine integer.
    Int,
    /// The concrete type is an owned text string.
    Text,
    /// The concrete type is a boolean.
    Flag,
}

/// A value whose concrete type has been erased.
///
/// Callers that hold two `Erased` values see only the uniform comparison
/// operations; the variant records which concrete type the value was built
/// from, and is what the checked downcasts test.
pub enum Erased {
    /// An erased signed machine integer.
    Int(i64),
    /// An erased owned text string.
    Text(String),
    /// An erased boolean.
    Flag(bool),
}

impl Erased {
    /// The identity tag of this value's concrete type.
    pub open spec fn tag_spec(&self) -> TypeTag {
        match self {
            Erased::Int(_) => TypeTag::Int,
            Erased::Text(_) => TypeTag::Text,
            Erased::Flag(_) => TypeTag::Flag,
        }
    }

    /// Read the identity tag of this value's concrete type.
    pub fn tag(&self) -> (t: TypeTag)
        ensures
            t == self.tag_spec(),
    {
        match self {
            Erased::Int(_) => TypeTag::Int,
            Erased::Text(_) => TypeTag::Text,
            Erased::Flag(_) => TypeTag::Flag,
        }
    }

    /// What a downcast to the integer type yields: the wrapped integer when
    /// the concrete type matches, nothing otherwise.
    pub open spec fn as_int_spec(&self) -> Option<i64> {
        match self {
            Erased::Int(x) => Some(*x),
            _ => None,
        }
    }

    /// What a downcast to the text type yields.
    pub open spec fn as_text_spec(&self) -> Option<Seq<char>> {
        match self {
            Erased::Text(s) => Some(s@),
            _ => None,
        }
    }

    /// What a downcast to the boolean type yields.
    pub open spec fn as_flag_spec(&self) -> Option<bool> {
        match self {
            Erased::Flag(b) => Some(*b),
            _ => None,
        }
    }

    /// Attempt to view this erased value as an integer; succeeds exactly
    /// when the concrete type is the integer type.
    pub fn as_int(&self) -> (r: Option<i64>)
        ensures
            r == self.as_int_spec(),
    {
        match self {
            Erased::Int(x) => Some(*x),
            _ => None,
        }
    }

    /// Attempt to view this erased value as text; succeeds exactly when the
    /// concrete type is the text type.
    pub fn as_text(&self) -> (r: Option<&String>)
        ensures
            match r {
                Some(s) => self.as_text_spec() == Some(s@),
                None => self.as_text_spec() is None,
            },
    {
        match self {
            Erased::Text(s) => Some(s),
            _ => None,
        }
    }

    /// Attempt to view this erased value as a boolean; succeeds exactly when
    /// the concrete type is the boolean type.
    pub fn as_flag(&self) -> (r: Option<bool>)
        ensures
            r == self.as_flag_spec(),
    {
        match self {
            Erased::Flag(b) => Some(*b),
            _ => None,
        }
    }
}

} // verus!
