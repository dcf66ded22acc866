//! Typed placeholders for database entity references.
//!
//! A reference to a related record can be just an identifier, a fully
//! materialized value, a lazily unfetched collection, or nothing at all.
//! This crate models each of those shapes as a closed union with verified
//! accessors, together with the capability traits that let a record type
//! declare its identifier and display label, and a layout validator that
//! derives those capabilities from a record declaration's field layout.

use vstd::prelude::*;

pub mod codegen;
pub mod entity;
pub mod entity_label;
pub mod errors;
pub mod key;
pub mod many;
pub mod tag;
pub mod text;

pub use entity::Entity;
pub use entity_label::EntityLabel;
pub use errors::Error;
pub use key::Key;
pub use many::Many;
pub use tag::{Keyed, Label, Tag, Tagged};
pub use text::ToText;

verus! {

/// An Int typedef for convenience, to be used as a Key number.
pub type Int = usize;

/// An Entity that has an Int as key.
pub type EntityInt<T> = Entity<Int, T>;

/// An Entity that has a String as key.
pub type EntityString<T> = Entity<String, T>;

/// An EntityLabel that has an Int as key.
pub type EntityLabelInt<T> = EntityLabel<Int, T, String>;

/// An EntityLabel that has a String as key.
pub type EntityLabelString<T> = EntityLabel<String, T, String>;

} // verus!
