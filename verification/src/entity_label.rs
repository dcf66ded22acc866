//! The labeled-reference union: a single-reference placeholder whose
//! identifier-only state also carries a cached display label.

use vstd::prelude::*;

use crate::errors::Error;
use crate::key::Key;
use crate::tag::{Keyed, Label};

verus! {

/// Enum for situations when you want to define not just a Key but also a
/// Label.
///
/// This may be useful for faster access, avoiding an extra join merely to
/// render a name, or because you may have missing data (thus no Key) and
/// having the Label still makes the entity valid.
#[derive(Clone, PartialEq, Eq, Debug)]
pub enum EntityLabel<K, T, L> {
    /// Key and Label for this entity.
    KeyLabel(Key<K>, L),
    /// Created/fetched data for the entity.
    Data(Box<T>),
    /// For when you have no data to fill, or null from the database.
    Empty,
}

impl<K, T: Keyed<KeyType = K>, L> Keyed for EntityLabel<K, T, L> {
    type KeyType = K;

    open spec fn key_ok(&self) -> bool {
        match *self {
            EntityLabel::KeyLabel(_, _) => true,
            EntityLabel::Data(d) => d.key_ok(),
            EntityLabel::Empty => false,
        }
    }

    open spec fn key_val(&self) -> Key<K> {
        match *self {
            EntityLabel::KeyLabel(k, _) => k,
            EntityLabel::Data(d) => d.key_val(),
            EntityLabel::Empty => Key(None),
        }
    }

    open spec fn key_err(&self) -> Error {
        match *self {
            EntityLabel::Data(d) => d.key_err(),
            _ => Error::EntityLabelEmpty,
        }
    }

    fn key(&self) -> (r: Result<&Key<K>, Error>) {
        match self {
            EntityLabel::KeyLabel(key, _) => Ok(key),
            EntityLabel::Data(data) => data.key(),
            EntityLabel::Empty => Err(Error::EntityLabelEmpty),
        }
    }
}

impl<K, T: Label<LabelType = L>, L> Label for EntityLabel<K, T, L> {
    type LabelType = L;

    open spec fn label_ok(&self) -> bool {
        match *self {
            EntityLabel::KeyLabel(_, _) => true,
            EntityLabel::Data(d) => d.label_ok(),
            EntityLabel::Empty => false,
        }
    }

    open spec fn label_val(&self) -> L {
        match *self {
            EntityLabel::KeyLabel(_, l) => l,
            EntityLabel::Data(d) => d.label_val(),
            EntityLabel::Empty => arbitrary(),
        }
    }

    open spec fn label_err(&self) -> Error {
        match *self {
            EntityLabel::Data(d) => d.label_err(),
            _ => Error::EntityLabelEmpty,
        }
    }

    fn label(&self) -> (r: Result<&L, Error>) {
        match self {
            EntityLabel::KeyLabel(_, label) => Ok(label),
            EntityLabel::Data(data) => data.label(),
            EntityLabel::Empty => Err(Error::EntityLabelEmpty),
        }
    }
}

impl<K, T, L> EntityLabel<K, T, L> {
    /// Returns the data if it exists and was fetched/created.
    pub fn data(&self) -> (r: Result<&T, Error>)
        ensures
            r is Ok <==> self is Data,
            self matches EntityLabel::Data(d) ==> (r matches Ok(t) && *t == *d),
            self is KeyLabel ==> (r matches Err(e) && e == Error::EntityLabelNotFetched),
            self is Empty ==> (r matches Err(e) && e == Error::EntityLabelEmpty),
    {
        match self {
            EntityLabel::Data(data) => Ok(&**data),
            EntityLabel::KeyLabel(..) => Err(Error::EntityLabelNotFetched),
            EntityLabel::Empty => Err(Error::EntityLabelEmpty),
        }
    }

    /// Returns the mutable data if it exists and was fetched/created.
    pub fn data_mut(&mut self) -> (r: Result<&mut T, Error>)
        ensures
            r is Ok <==> *old(self) is Data,
            *old(self) matches EntityLabel::Data(d) ==> (r matches Ok(t) && *t == *d
                && *final(self) == EntityLabel::<K, T, L>::Data(Box::new(*final(t)))),
            !(*old(self) is Data) ==> *final(self) == *old(self),
            *old(self) is KeyLabel ==> (r matches Err(e) && e == Error::EntityLabelNotFetched),
            *old(self) is Empty ==> (r matches Err(e) && e == Error::EntityLabelEmpty),
    {
        match self {
            EntityLabel::Data(data) => Ok(&mut **data),
            EntityLabel::KeyLabel(..) => Err(Error::EntityLabelNotFetched),
            EntityLabel::Empty => Err(Error::EntityLabelEmpty),
        }
    }

    /// Is this a KeyLabel variant?
    pub fn is_keylabel(&self) -> (r: bool)
        ensures
            r == (self is KeyLabel),
    {
        matches!(self, EntityLabel::KeyLabel(..))
    }

    /// Is this a Data variant?
    pub fn is_data(&self) -> (r: bool)
        ensures
            r == (self is Data),
    {
        matches!(self, EntityLabel::Data(..))
    }

    /// Is this the empty variant?
    pub fn is_none(&self) -> (r: bool)
        ensures
            r == (self is Empty),
    {
        matches!(self, EntityLabel::Empty)
    }
}

impl<K, T, L> Default for EntityLabel<K, T, L> {
    /// The default EntityLabel is empty.
    fn default() -> (r: Self)
        ensures
            r == EntityLabel::<K, T, L>::Empty,
    {
        EntityLabel::Empty
    }
}

impl<K, T, L> From<T> for EntityLabel<K, T, L> {
    /// Converts a raw record into the by-value state, taking ownership.
    fn from(entity: T) -> (r: Self) {
        EntityLabel::Data(Box::new(entity))
    }
}

impl<K, T, L> vstd::std_specs::convert::FromSpecImpl<T> for EntityLabel<K, T, L> {
    open spec fn obeys_from_spec() -> bool {
        true
    }

    open spec fn from_spec(v: T) -> Self {
        EntityLabel::Data(Box::new(v))
    }
}

/// Law: an explicit key-and-label state answers the key query with exactly
/// the stored Key and the label query with exactly the stored label, while
/// the empty state fails both with `EntityLabelEmpty`.
pub proof fn lemma_entity_label_replacement<
    K,
    T: Keyed<KeyType = K> + Label<LabelType = L>,
    L,
>(k: Key<K>, l: L)
    ensures
        EntityLabel::<K, T, L>::KeyLabel(k, l).key_ok(),
        EntityLabel::<K, T, L>::KeyLabel(k, l).key_val() == k,
        EntityLabel::<K, T, L>::KeyLabel(k, l).label_ok(),
        EntityLabel::<K, T, L>::KeyLabel(k, l).label_val() == l,
        !EntityLabel::<K, T, L>::Empty.key_ok(),
        EntityLabel::<K, T, L>::Empty.key_err() == Error::EntityLabelEmpty,
        !EntityLabel::<K, T, L>::Empty.label_ok(),
        EntityLabel::<K, T, L>::Empty.label_err() == Error::EntityLabelEmpty,
{
}

} // verus!
