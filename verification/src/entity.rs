//! The single-reference union: a placeholder for one related record.

use vstd::prelude::*;

use crate::errors::Error;
use crate::key::Key;
use crate::tag::Keyed;

verus! {

/// Enum for defining a simple entity reference that holds a Key or the
/// created/fetched data.
///
/// Collapsing "not joined", "joined" and "intentionally absent" into one
/// exhaustive union forces every call site to handle all three states.
/// The by-value state owns its record exclusively, behind a heap
/// indirection that keeps the union's size independent of the record's.
#[derive(Clone, PartialEq, Eq, Debug)]
pub enum Entity<K, T> {
    /// Key of the entity.
    Key(Key<K>),
    /// Created/fetched data for the entity.
    Data(Box<T>),
    /// For when you have no data to fill, or null from the database.
    Empty,
}

impl<K, T: Keyed<KeyType = K>> Keyed for Entity<K, T> {
    type KeyType = K;

    open spec fn key_ok(&self) -> bool {
        match *self {
            Entity::Key(_) => true,
            Entity::Data(d) => d.key_ok(),
            Entity::Empty => false,
        }
    }

    open spec fn key_val(&self) -> Key<K> {
        match *self {
            Entity::Key(k) => k,
            Entity::Data(d) => d.key_val(),
            Entity::Empty => Key(None),
        }
    }

    open spec fn key_err(&self) -> Error {
        match *self {
            Entity::Data(d) => d.key_err(),
            _ => Error::EntityEmpty,
        }
    }

    fn key(&self) -> (r: Result<&Key<K>, Error>) {
        match self {
            Entity::Key(key) => Ok(key),
            Entity::Data(data) => data.key(),
            Entity::Empty => Err(Error::EntityEmpty),
        }
    }
}

impl<K, T> Entity<K, T> {
    /// Returns the data if it exists and was fetched/created.
    pub fn data(&self) -> (r: Result<&T, Error>)
        ensures
            r is Ok <==> self is Data,
            self matches Entity::Data(d) ==> (r matches Ok(t) && *t == *d),
            self is Key ==> (r matches Err(e) && e == Error::EntityNotFetched),
            self is Empty ==> (r matches Err(e) && e == Error::EntityEmpty),
    {
        match self {
            Entity::Data(data) => Ok(&**data),
            Entity::Key(_) => Err(Error::EntityNotFetched),
            Entity::Empty => Err(Error::EntityEmpty),
        }
    }

    /// Returns the mutable data if it exists and was fetched/created.
    pub fn data_mut(&mut self) -> (r: Result<&mut T, Error>)
        ensures
            r is Ok <==> *old(self) is Data,
            *old(self) matches Entity::Data(d) ==> (r matches Ok(t) && *t == *d
                && *final(self) == Entity::<K, T>::Data(Box::new(*final(t)))),
            !(*old(self) is Data) ==> *final(self) == *old(self),
            *old(self) is Key ==> (r matches Err(e) && e == Error::EntityNotFetched),
            *old(self) is Empty ==> (r matches Err(e) && e == Error::EntityEmpty),
    {
        match self {
            Entity::Data(data) => Ok(&mut **data),
            Entity::Key(_) => Err(Error::EntityNotFetched),
            Entity::Empty => Err(Error::EntityEmpty),
        }
    }

    /// Is this a Key variant?
    pub fn is_key(&self) -> (r: bool)
        ensures
            r == (self is Key),
    {
        matches!(self, Entity::Key(..))
    }

    /// Is this a Data variant?
    pub fn is_data(&self) -> (r: bool)
        ensures
            r == (self is Data),
    {
        matches!(self, Entity::Data(..))
    }

    /// Is this the empty variant?
    pub fn is_none(&self) -> (r: bool)
        ensures
            r == (self is Empty),
    {
        matches!(self, Entity::Empty)
    }
}

impl<K, T> Default for Entity<K, T> {
    /// The default Entity is empty.
    fn default() -> (r: Self)
        ensures
            r == Entity::<K, T>::Empty,
    {
        Entity::Empty
    }
}

impl<K, T> From<T> for Entity<K, T> {
    /// Converts a raw record into the by-value state, taking ownership.
    fn from(entity: T) -> (r: Self) {
        Entity::Data(Box::new(entity))
    }
}

impl<K, T> vstd::std_specs::convert::FromSpecImpl<T> for Entity<K, T> {
    open spec fn obeys_from_spec() -> bool {
        true
    }

    open spec fn from_spec(v: T) -> Self {
        Entity::Data(Box::new(v))
    }
}

/// Law: the key query succeeds in the by-key state with the stored Key
/// verbatim, delegates to the record's own key in the by-value state, and
/// in the empty state fails with `EntityEmpty`.
pub proof fn lemma_entity_key_states<K, T: Keyed<KeyType = K>>(e: &Entity<K, T>)
    ensures
        e matches Entity::Key(k) ==> e.key_ok() && e.key_val() == k,
        e matches Entity::Data(d) ==> (e.key_ok() <==> d.key_ok()) && (d.key_ok() ==> e.key_val()
            == d.key_val()) && (!d.key_ok() ==> e.key_err() == d.key_err()),
        *e is Empty ==> !e.key_ok() && e.key_err() == Error::EntityEmpty,
{
}

/// Law: the key query fails with `EntityEmpty` only in the empty state,
/// provided the wrapped record does not itself report that error (a record
/// that does — for instance a nested empty Entity — makes the unqualified
/// claim false).
pub proof fn lemma_entity_empty_error_only_when_empty<K, T: Keyed<KeyType = K>>(e: &Entity<K, T>)
    requires
        e matches Entity::Data(d) ==> d.key_err() != Error::EntityEmpty,
    ensures
        (!e.key_ok() && e.key_err() == Error::EntityEmpty) <==> *e is Empty,
{
}

} // verus!
