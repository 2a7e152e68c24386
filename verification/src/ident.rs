//! Opaque identities and tags, which the engine only ever compares for equality.

use vstd::prelude::*;

verus! {

/// A caller or subject, as handed over by the host.
///
/// The engine never authenticates an identity; it only compares two of them.
/// The view of an identity is the text the host knows it by.
#[derive(Debug)]
pub struct Identity {
    pub key: String,
}

impl View for Identity {
    type V = Seq<char>;

    open spec fn view(&self) -> Seq<char> {
        self.key@
    }
}

impl Identity {
    /// The identity that the host knows as `key`.
    pub fn new(key: &str) -> (id: Identity)
        ensures
            id@ == key@,
    {
        Identity { key: key.to_owned() }
    }
}

impl Clone for Identity {
    fn clone(&self) -> (copy: Identity)
        ensures
            copy == *self,
    {
        Identity { key: self.key.clone() }
    }
}

impl PartialEq for Identity {
    fn eq(&self, other: &Identity) -> (same: bool) {
        self.key == other.key
    }
}

impl Eq for Identity {

}

impl vstd::std_specs::cmp::PartialEqSpecImpl for Identity {
    open spec fn obeys_eq_spec() -> bool {
        true
    }

    open spec fn eq_spec(&self, other: &Identity) -> bool {
        self.key@ == other.key@
    }
}

/// The text of an identity that may be absent.
pub open spec fn identity_view(identity: Option<&Identity>) -> Option<Seq<char>> {
    match identity {
        Some(identity) => Some(identity@),
        None => None,
    }
}

/// A short label naming a product category, a region or a certification.
///
/// The view of a tag is its text; two tags are the same tag when their texts agree.
#[derive(Debug)]
pub struct Tag {
    pub label: String,
}

impl View for Tag {
    type V = Seq<char>;

    open spec fn view(&self) -> Seq<char> {
        self.label@
    }
}

impl Tag {
    /// The tag written `label`.
    pub fn new(label: &str) -> (tag: Tag)
        ensures
            tag@ == label@,
    {
        Tag { label: label.to_owned() }
    }
}

impl Clone for Tag {
    fn clone(&self) -> (copy: Tag)
        ensures
            copy == *self,
    {
        Tag { label: self.label.clone() }
    }
}

impl PartialEq for Tag {
    fn eq(&self, other: &Tag) -> (same: bool) {
        self.label == other.label
    }
}

impl Eq for Tag {

}

impl vstd::std_specs::cmp::PartialEqSpecImpl for Tag {
    open spec fn obeys_eq_spec() -> bool {
        true
    }

    open spec fn eq_spec(&self, other: &Tag) -> bool {
        self.label@ == other.label@
    }
}

} // verus!
