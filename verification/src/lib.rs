//! Equality and ordering for values whose concrete type is erased.
//!
//! A value wrapped in [`erased::Erased`] is reachable only through the common
//! erased interface; its concrete type is recorded as an opaque identity tag.
//! Two erased values of different concrete types are never equal and never
//! ordered; two of the same concrete type are compared by that type's own
//! equality or partial order, recovered through a checked downcast.
//!
//! The [`eq::DynEq`] and [`ord::DynOrd`] traits are the two capabilities a
//! concrete type supplies in order to participate: runtime type identity plus
//! self-type equality, and additionally a self-type partial order.

pub mod eq;
pub mod erased;
pub mod lex;
pub mod ord;

pub use eq::DynEq;
pub use eq::equal;
pub use eq::erased_eq;
pub use erased::Erased;
pub use erased::TypeTag;
pub use ord::DynOrd;
pub use ord::compare;
pub use ord::erased_cmp;
pub use ord::ord_eq;
