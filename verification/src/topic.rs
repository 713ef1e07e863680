//! Topic identifiers: the structured addresses that messages are routed by.
//!
//! A topic is a three-part address: the name of the remote authority, the
//! identifier (and major version) of a logical entity, and a resource or
//! method within that entity. The wire format carries each part as a plain
//! value whose default stands for "absent": an empty authority name, a zero
//! entity identifier, a zero resource identifier. Equality is structural,
//! and a topic is immutable once constructed.

use vstd::prelude::*;

verus! {

/// A structured routing address: authority name, logical entity (with its
/// major version), and a resource or method within the entity.
///
/// A default part is an absent part: an empty `authority` means no authority
/// is named, `entity == 0` means no entity is named, and `resource == 0`
/// means no resource is named.
#[derive(Debug)]
pub struct Topic {
    /// Name of the remote authority; empty when no authority is named.
    pub authority: String,
    /// Identifier of the logical entity; zero when no entity is named.
    pub entity: u32,
    /// Major version of the logical entity.
    pub version: u32,
    /// Resource or method within the entity; zero when no resource is named.
    pub resource: u32,
}

/// The mathematical value of a [`Topic`].
#[verifier::ext_equal]
pub ghost struct TopicModel {
    pub authority: Seq<char>,
    pub entity: u32,
    pub version: u32,
    pub resource: u32,
}

impl View for Topic {
    type V = TopicModel;

    open spec fn view(&self) -> TopicModel {
        TopicModel {
            authority: self.authority@,
            entity: self.entity,
            version: self.version,
            resource: self.resource,
        }
    }
}

/// True when the topic names an authority.
pub open spec fn has_authority(t: TopicModel) -> bool {
    t.authority.len() > 0
}

/// True when the topic names a logical entity.
pub open spec fn has_entity(t: TopicModel) -> bool {
    t.entity != 0
}

/// True when the topic names a resource within its entity.
pub open spec fn has_resource(t: TopicModel) -> bool {
    t.resource != 0
}

/// True for the empty (default) topic, which addresses nothing.
pub open spec fn is_default_topic(t: TopicModel) -> bool {
    !has_authority(t) && !has_entity(t) && !has_resource(t)
}

/// True for the special address form that names an authority alone. Such an
/// address asks for every message of every kind at that authority; this
/// transport does not implement that routing mode.
pub open spec fn is_authority_only(t: TopicModel) -> bool {
    has_authority(t) && !has_entity(t) && !has_resource(t)
}

/// True when the topic is well formed as a routing key: it must name the
/// logical entity it addresses. The empty topic and the authority-only form
/// are not well formed.
pub open spec fn topic_well_formed(t: TopicModel) -> bool {
    has_entity(t)
}

impl Topic {
    /// Builds a topic from its parts.
    pub fn new(authority: &str, entity: u32, version: u32, resource: u32) -> (t: Topic)
        ensures
            t@.authority == authority@,
            t@.entity == entity,
            t@.version == version,
            t@.resource == resource,
    {
        Topic { authority: authority.to_owned(), entity, version, resource }
    }

    /// True when this topic names a logical entity.
    pub fn is_well_formed(&self) -> (r: bool)
        ensures
            r == topic_well_formed(self@),
    {
        self.entity != 0
    }

    /// True for the authority-only address form, which this transport does
    /// not route.
    pub fn is_authority_only(&self) -> (r: bool)
        ensures
            r == is_authority_only(self@),
    {
        !self.authority.as_str().is_empty() && self.entity == 0 && self.resource == 0
    }
}

impl Clone for Topic {
    fn clone(&self) -> (r: Self)
        ensures
            r@ == self@,
    {
        let r = Topic {
            authority: self.authority.clone(),
            entity: self.entity,
            version: self.version,
            resource: self.resource,
        };
        proof {
            assert(r@ =~= self@);
        }
        r
    }
}

impl PartialEq for Topic {
    fn eq(&self, other: &Topic) -> (r: bool)
    {
        self.authority == other.authority && self.entity == other.entity
            && self.version == other.version && self.resource == other.resource
    }
}

impl vstd::std_specs::cmp::PartialEqSpecImpl for Topic {
    open spec fn obeys_eq_spec() -> bool {
        true
    }

    open spec fn eq_spec(&self, other: &Topic) -> bool {
        self@ == other@
    }
}

impl Eq for Topic {

}

} // verus!
