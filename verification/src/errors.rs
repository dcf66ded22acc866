//! The closed enumeration of recoverable wrong-state failures.

use vstd::prelude::*;

verus! {

/// The error type for all run-time errors in this crate: one variant per
/// "wrong state" query on a union or placeholder.
#[derive(Clone, Copy, PartialEq, Eq, Debug)]
pub enum Error {
    /// An `Entity` in the empty state was asked for a key or data.
    EntityEmpty,
    /// An `EntityLabel` in the empty state was asked for a key, label or data.
    EntityLabelEmpty,
    /// An `Entity` holding only a key was asked for its data.
    EntityNotFetched,
    /// An `EntityLabel` holding only a key and label was asked for its data.
    EntityLabelNotFetched,
    /// A `Many` in the empty state was asked for its data.
    ManyEmpty,
    /// A `Many` in the unfetched state was asked for its data.
    ManyNotFetched,
}

impl Error {
    /// A human-readable description of the failure.
    pub fn message(&self) -> (r: &'static str)
        ensures
            *self is EntityEmpty ==> r@ == "nothing set for this Entity"@,
            *self is EntityLabelEmpty ==> r@ == "nothing set for this EntityLabel"@,
            *self is EntityNotFetched ==> r@ == "data was not fetched from the database for this Entity"@,
            *self is EntityLabelNotFetched ==> r@ == "data was not fetched from the database for this EntityLabel"@,
            *self is ManyEmpty ==> r@ == "no data set for this Many"@,
            *self is ManyNotFetched ==> r@ == "data were not fetched from the database for this Many"@,
    {
        match self {
            Error::EntityEmpty => "nothing set for this Entity",
            Error::EntityLabelEmpty => "nothing set for this EntityLabel",
            Error::EntityNotFetched => "data was not fetched from the database for this Entity",
            Error::EntityLabelNotFetched => "data was not fetched from the database for this EntityLabel",
            Error::ManyEmpty => "no data set for this Many",
            Error::ManyNotFetched => "data were not fetched from the database for this Many",
        }
    }
}

} // verus!
