//! Transport-level operations around the registry.
//!
//! Registration validates the topic before touching the registry: the
//! authority-only address form — a request for every message of every kind
//! at an authority — is a separately specified routing mode this transport
//! does not implement, and a topic that names no entity is not a valid
//! registration key. Unregistration and lookup need no such gate; they are
//! the registry's own operations.

use vstd::prelude::*;

use crate::registry::Registry;
use crate::status::{Code, Status};
use crate::topic::{is_authority_only, topic_well_formed, Topic, TopicModel};

verus! {

/// Registers a listener for a topic, after validating the topic: the
/// authority-only form is `Unimplemented`, a topic naming no entity is
/// `InvalidArgument`, and an already registered pair is `AlreadyExists`.
pub fn register_listener(reg: &mut Registry, topic: Topic, listener: u64) -> (r: Result<
    (),
    Status,
>)
    requires
        old(reg).wf(),
    ensures
        final(reg).wf(),
        is_authority_only(topic@) ==> (r matches Err(s) && s.code == Code::Unimplemented
            && *final(reg) == *old(reg)),
        !is_authority_only(topic@) && !topic_well_formed(topic@) ==> (r matches Err(s) && s.code
            == Code::InvalidArgument && *final(reg) == *old(reg)),
        !is_authority_only(topic@) && topic_well_formed(topic@) ==> {
            &&& (r is Ok ==> !old(reg).contains_pair(topic@, listener))
            &&& (r is Ok ==> forall|t: TopicModel, l: u64|
                final(reg).contains_pair(t, l) <==> (old(reg).contains_pair(t, l) || (t == topic@
                    && l == listener)))
            &&& (r is Ok ==> forall|t: TopicModel|
                final(reg).has_topic(t) <==> (old(reg).has_topic(t) || t == topic@))
            &&& (r matches Err(s) ==> s.code == Code::AlreadyExists && old(reg).contains_pair(
                topic@,
                listener,
            ) && *final(reg) == *old(reg))
        },
{
    if topic.is_authority_only() {
        Err(Status::fail_with_code(Code::Unimplemented, "authority-wide registration is not implemented"))
    } else if !topic.is_well_formed() {
        Err(Status::fail_with_code(Code::InvalidArgument, "invalid topic"))
    } else {
        reg.register(topic, listener)
    }
}

/// The pull-style receive of the transport interface: this transport
/// delivers inbound messages through registered listeners alone, so a
/// direct receive always reports `Unimplemented`.
pub fn receive_status() -> (s: Status)
    ensures
        s.code == Code::Unimplemented,
{
    Status::fail_with_code(Code::Unimplemented, "not implemented")
}

} // verus!
