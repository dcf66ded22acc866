//! The collection placeholder: a reference to many related records.

use vstd::prelude::*;

use crate::errors::Error;

verus! {

/// Enum for defining one-to-many or many-to-many relationships.
///
/// The unfetched state signals that the relationship exists in the schema
/// but was not queried; the empty state signals that no relationship is
/// asserted at all. The two are never conflated.
#[derive(Clone, PartialEq, Eq, Debug)]
pub enum Many<T> {
    /// This holds the created/fetched data in a vector.
    Data(Vec<T>),
    /// For when the data exists but is not fetched.
    NotFetched,
    /// For when you have no data to fill or fetch from the database.
    Empty,
}

impl<T> Many<T> {
    /// Returns the `Vec` of data if they exist and were fetched/created.
    pub fn data(&self) -> (r: Result<&Vec<T>, Error>)
        ensures
            r is Ok <==> self is Data,
            self matches Many::Data(d) ==> (r matches Ok(v) && *v == d),
            self is NotFetched ==> (r matches Err(e) && e == Error::ManyNotFetched),
            self is Empty ==> (r matches Err(e) && e == Error::ManyEmpty),
    {
        match self {
            Many::Data(data) => Ok(data),
            Many::NotFetched => Err(Error::ManyNotFetched),
            Many::Empty => Err(Error::ManyEmpty),
        }
    }

    /// Returns the mutable `Vec` of data if they exist and were
    /// fetched/created.
    pub fn data_mut(&mut self) -> (r: Result<&mut Vec<T>, Error>)
        ensures
            r is Ok <==> *old(self) is Data,
            *old(self) matches Many::Data(d) ==> (r matches Ok(v) && *v == d
                && *final(self) == Many::Data(*final(v))),
            !(*old(self) is Data) ==> *final(self) == *old(self),
            *old(self) is NotFetched ==> (r matches Err(e) && e == Error::ManyNotFetched),
            *old(self) is Empty ==> (r matches Err(e) && e == Error::ManyEmpty),
    {
        match self {
            Many::Data(data) => Ok(data),
            Many::NotFetched => Err(Error::ManyNotFetched),
            Many::Empty => Err(Error::ManyEmpty),
        }
    }

    /// Is this a Data variant?
    pub fn is_data(&self) -> (r: bool)
        ensures
            r == (self is Data),
    {
        matches!(self, Many::Data(..))
    }

    /// Is this a NotFetched variant?
    pub fn is_not_fetched(&self) -> (r: bool)
        ensures
            r == (self is NotFetched),
    {
        matches!(self, Many::NotFetched)
    }

    /// Is this the empty variant?
    pub fn is_none(&self) -> (r: bool)
        ensures
            r == (self is Empty),
    {
        matches!(self, Many::Empty)
    }
}

impl<T> Default for Many<T> {
    /// The default Many is empty.
    fn default() -> (r: Self)
        ensures
            r == Many::<T>::Empty,
    {
        Many::Empty
    }
}

impl<T> From<Vec<T>> for Many<T> {
    /// Converts a sequence of records into the loaded state, keeping its
    /// order.
    fn from(entities: Vec<T>) -> (r: Self) {
        Many::Data(entities)
    }
}

impl<T> vstd::std_specs::convert::FromSpecImpl<Vec<T>> for Many<T> {
    open spec fn obeys_from_spec() -> bool {
        true
    }

    open spec fn from_spec(v: Vec<T>) -> Self {
        Many::Data(v)
    }
}

} // verus!
