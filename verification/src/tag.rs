//! Capability traits: a record's identifier, its display label, and the
//! derived textual tag that combines both.

use vstd::prelude::*;

use crate::errors::Error;
use crate::key::Key;
use crate::text::ToText;

verus! {

/// Trait for entities to declare which value holds their primary key.
pub trait Keyed {
    /// The type of the Key's inner value.
    type KeyType;

    /// Whether a key is available in the current state. The default is
    /// right for a plain record whose key query always succeeds; container
    /// types with failing states override it.
    open spec fn key_ok(&self) -> bool {
        true
    }

    /// The Key reported when one is available. There is no canonical
    /// default: an implementation whose callers rely on the key's value
    /// overrides this.
    open spec fn key_val(&self) -> Key<Self::KeyType> {
        arbitrary()
    }

    /// The error reported when no key is available. Meaningful only where
    /// `key_ok` can be false.
    open spec fn key_err(&self) -> Error {
        arbitrary()
    }

    /// Returns the Key for the entity. The returned Key may itself be
    /// absent; the error is for states that carry no identifier
    /// information at all.
    fn key(&self) -> (r: Result<&Key<Self::KeyType>, Error>)
        ensures
            r is Ok <==> self.key_ok(),
            r matches Ok(k) ==> *k == self.key_val(),
            r matches Err(e) ==> e == self.key_err(),
    ;
}

/// Trait for entities that have a display label.
pub trait Label {
    /// The type of the Label.
    type LabelType;

    /// Whether a label is available in the current state. The default is
    /// right for a plain record whose label query always succeeds;
    /// container types with failing states override it.
    open spec fn label_ok(&self) -> bool {
        true
    }

    /// The label reported when one is available. There is no canonical
    /// default: an implementation whose callers rely on the label's value
    /// overrides this.
    open spec fn label_val(&self) -> Self::LabelType {
        arbitrary()
    }

    /// The error reported when no label is available. Meaningful only
    /// where `label_ok` can be false.
    open spec fn label_err(&self) -> Error {
        arbitrary()
    }

    /// Returns the Label for the entity.
    fn label(&self) -> (r: Result<&Self::LabelType, Error>)
        ensures
            r is Ok <==> self.label_ok(),
            r matches Ok(l) ==> *l == self.label_val(),
            r matches Err(e) ==> e == self.label_err(),
    ;
}

/// Struct that holds both key and label as text, for convenience.
#[derive(Clone, PartialEq, Eq, Hash, Debug)]
pub struct Tag {
    /// Entity key, rendered as text.
    pub key: String,
    /// Entity label, rendered as text.
    pub label: String,
}

impl Default for Tag {
    /// The default Tag holds empty texts.
    fn default() -> (r: Self)
        ensures
            r.key@ == Seq::<char>::empty(),
            r.label@ == Seq::<char>::empty(),
    {
        Tag { key: String::new(), label: String::new() }
    }
}

/// Convenience trait for returning both key and label as a Tag.
///
/// There is a blanket implementation for every type that implements both
/// `Keyed` and `Label` with renderable key and label values.
pub trait Tagged {
    /// Whether a Tag is available.
    spec fn tag_ok(&self) -> bool;

    /// The text carried by the Tag's key field.
    spec fn tag_key_text(&self) -> Seq<char>;

    /// The text carried by the Tag's label field.
    spec fn tag_label_text(&self) -> Seq<char>;

    /// The error reported when no Tag is available.
    spec fn tag_err(&self) -> Error;

    /// Whether the entity has a usable tag: a key that is actually present.
    spec fn has_tag_spec(&self) -> bool;

    /// Returns the Tag for the entity.
    fn tag(&self) -> (r: Result<Tag, Error>)
        ensures
            r is Ok <==> self.tag_ok(),
            r matches Ok(t) ==> t.key@ == self.tag_key_text() && t.label@ == self.tag_label_text(),
            r matches Err(e) ==> e == self.tag_err(),
    ;

    /// The entity does not have a valid tag if it does not have a Key.
    fn has_tag(&self) -> (r: bool)
        ensures
            r == self.has_tag_spec(),
    ;
}

impl<K, T, L> Tagged for T where
    T: Keyed<KeyType = K> + Label<LabelType = L>,
    K: ToText,
    L: ToText,
 {
    open spec fn tag_ok(&self) -> bool {
        self.key_ok() && self.label_ok()
    }

    open spec fn tag_key_text(&self) -> Seq<char> {
        self.key_val().text()
    }

    open spec fn tag_label_text(&self) -> Seq<char> {
        self.label_val().text()
    }

    open spec fn tag_err(&self) -> Error {
        if !self.key_ok() {
            self.key_err()
        } else {
            self.label_err()
        }
    }

    open spec fn has_tag_spec(&self) -> bool {
        self.key_ok() && self.key_val().0 is Some
    }

    fn tag(&self) -> (r: Result<Tag, Error>) {
        let key = match self.key() {
            Ok(k) => k,
            Err(e) => return Err(e),
        };
        let label = match self.label() {
            Ok(l) => l,
            Err(e) => return Err(e),
        };
        Ok(Tag { key: key.to_text(), label: label.to_text() })
    }

    fn has_tag(&self) -> (r: bool) {
        match self.key() {
            Ok(k) => k.is_some(),
            Err(_) => false,
        }
    }
}

/// Law: for a record with both capabilities whose label is available
/// whenever its key is, the Tag query succeeds exactly when the key query
/// succeeds; and the record has a usable tag exactly when the key query
/// succeeds with a present Key.
pub proof fn lemma_tag_iff_key<K: ToText, L: ToText, T: Keyed<KeyType = K> + Label<LabelType = L>>(
    r: &T,
)
    requires
        r.key_ok() ==> r.label_ok(),
    ensures
        r.tag_ok() <==> r.key_ok(),
        r.has_tag_spec() <==> r.key_ok() && r.key_val().0 is Some,
{
}

} // verus!
