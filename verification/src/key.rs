//! The identifier wrapper: an optional primary-key value.

use vstd::prelude::*;
use vstd::string::StringExecFns;

use crate::entity::Entity;
use crate::text::ToText;

verus! {

/// A newtype for defining a Key on entities.
///
/// Absence of a value is a first-class state of its own, never conflated
/// with a zero or default value of `K`.
#[derive(Clone, PartialEq, Eq, Hash, Debug)]
pub struct Key<K>(pub Option<K>);

impl<K> Key<K> {
    /// Creates a new Key from a value `K`.
    pub fn new(value: K) -> (r: Self)
        ensures
            r == Key(Some(value)),
    {
        Key(Some(value))
    }

    /// True when this Key holds a value.
    pub fn is_some(&self) -> (r: bool)
        ensures
            r == (self.0 is Some),
    {
        self.0.is_some()
    }

    /// True when this Key is absent.
    pub fn is_none(&self) -> (r: bool)
        ensures
            r == (self.0 is None),
    {
        self.0.is_none()
    }

    /// The inner value of a present Key.
    pub fn unwrap(&self) -> (r: K) where K: Copy
        requires
            self.0 is Some,
        ensures
            r == self.0->0,
    {
        match &self.0 {
            Some(v) => *v,
            None => unreached(),
        }
    }

    /// Converts this Key into an Entity in the by-key state.
    pub fn into_entity<T>(self) -> (r: Entity<K, T>)
        ensures
            r == Entity::<K, T>::Key(self),
    {
        Entity::Key(self)
    }

    /// Clones this Key into an Entity in the by-key state.
    pub fn to_entity<T>(&self) -> (r: Entity<K, T>) where K: Clone
        ensures
            r matches Entity::Key(k) && (k.0 is Some <==> self.0 is Some),
            self.0 matches Some(w) ==> (r matches Entity::Key(k) && k.0 matches Some(v)
                && cloned(w, v)),
    {
        let k: Key<K> = match &self.0 {
            Some(v) => Key(Some(v.clone())),
            None => Key(None),
        };
        Entity::Key(k)
    }
}

impl<K: ToText> Key<K> {
    /// The textual rendering of this Key: the value's own text when present,
    /// the text "None" when absent.
    pub open spec fn text(&self) -> Seq<char> {
        match self.0 {
            Some(v) => v.text(),
            None => "None"@,
        }
    }

    /// Renders this Key as text.
    pub fn to_text(&self) -> (r: String)
        ensures
            r@ == self.text(),
    {
        match &self.0 {
            Some(v) => v.to_text(),
            None => String::from_str("None"),
        }
    }
}

impl<K> Default for Key<K> {
    /// The default Key is absent.
    fn default() -> (r: Self)
        ensures
            r == Key::<K>(None),
    {
        Key(None)
    }
}

impl<K> From<Option<K>> for Key<K> {
    /// Wraps an optional value as a Key.
    fn from(value: Option<K>) -> (r: Self) {
        Key(value)
    }
}

impl<K> vstd::std_specs::convert::FromSpecImpl<Option<K>> for Key<K> {
    open spec fn obeys_from_spec() -> bool {
        true
    }

    open spec fn from_spec(v: Option<K>) -> Self {
        Key(v)
    }
}

impl<K: Clone> From<&Option<K>> for Key<K> {
    /// Wraps a reference to an optional value as a Key, cloning the inner
    /// value.
    fn from(value: &Option<K>) -> (r: Self)
        ensures
            r.0 is Some <==> *value is Some,
            *value matches Some(v) ==> (r.0 matches Some(x) && cloned(v, x)),
    {
        match value {
            Some(v) => Key(Some(v.clone())),
            None => Key(None),
        }
    }
}

impl<K: Clone> vstd::std_specs::convert::FromSpecImpl<&Option<K>> for Key<K> {
    /// What a clone of the inner value returns is not pinned down for an
    /// arbitrary `K`, so this conversion carries its contract on `from`
    /// itself rather than through a deterministic conversion function.
    open spec fn obeys_from_spec() -> bool {
        false
    }

    open spec fn from_spec(v: &Option<K>) -> Self {
        arbitrary()
    }
}

/// Law: a present Key renders as its value's own text, and an absent Key
/// renders as exactly the four characters of "None".
pub proof fn lemma_key_text<K: ToText>(v: K)
    ensures
        Key(Some(v)).text() == v.text(),
        Key::<K>(None).text() == "None"@,
        Key::<K>(None).text() =~= seq!['N', 'o', 'n', 'e'],
{
    reveal_strlit("None");
}

} // verus!
