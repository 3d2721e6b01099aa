//! Checked run-time narrowing of type-erased values.
//!
//! A value of an erasable type can be viewed in erased form (`AnyRef`,
//! `AnyMut`, or an owned `AnyValue`) that carries its `TypeTag`. The
//! `Downcast` methods recover the concrete type only when the caller names the
//! type the value really has; otherwise they report absence or hand the value
//! back unchanged.
pub mod as_any;
pub mod downcast;
pub mod erased;
pub mod type_tag;

pub use as_any::AsAny;
pub use downcast::Downcast;
pub use erased::{AnyMut, AnyRef, AnyValue};
pub use type_tag::TypeTag;
