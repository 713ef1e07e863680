//! The dispatch loop's decisions: classify an inbound frame, resolve its
//! routing topic, and name the listeners to fan out to.
//!
//! The loop itself — read a frame, decide, invoke listeners concurrently —
//! is run by the host around this module's step function. The decisions
//! are pure: a read failure stops the loop; an empty read, a malformed
//! frame, an unrouted kind, and a topic without listeners are all absorbed
//! and the loop continues; only a deliverable message names listeners to
//! invoke.

use vstd::prelude::*;

use crate::codec::{decode_frame, frame_envelope};
use crate::message::{Attributes, AttributesModel, Envelope, Kind};
use crate::registry::{distinct_seq, Registry};
use crate::topic::{Topic, TopicModel};

verus! {

/// The routing topic of an attribute set: the source of a publish
/// message, the sink of a request. Responses and unspecified kinds carry
/// no registered routing behaviour.
pub open spec fn route_of(a: AttributesModel) -> Option<TopicModel> {
    match a.kind {
        Kind::Publish => a.source,
        Kind::Request => a.sink,
        Kind::Response => None,
        Kind::Unspecified => None,
    }
}

/// The outcome of handling one inbound frame.
pub enum Dispatched {
    /// The frame did not decode to an envelope; it is skipped.
    Invalid,
    /// The envelope's kind carries no routing behaviour; nothing is done.
    Unrouted,
    /// No listener is registered for the routing topic; a normal outcome.
    NoListeners,
    /// The envelope is delivered: every named listener receives it once.
    Deliver(Vec<u64>, Envelope),
}

/// One read from the socket channel, as the host hands it over.
pub enum ReadEvent {
    /// The read failed; the connection is gone.
    Failure,
    /// The read returned these bytes; zero bytes means no data yet.
    Data(Vec<u8>),
}

/// What the dispatch loop does next.
pub enum LoopAction {
    /// Exit the loop; only a read failure causes this.
    Stop,
    /// Iterate again without invoking anyone.
    Continue,
    /// Invoke each named listener once with the envelope, concurrently and
    /// independently, then iterate again.
    Deliver(Vec<u64>, Envelope),
}

/// Resolves the routing topic of an attribute set.
pub fn route_topic(a: &Attributes) -> (r: Option<&Topic>)
    ensures
        match r {
            Some(t) => route_of(a@) == Some(t@),
            None => route_of(a@) is None,
        },
{
    match a.kind {
        Kind::Publish => match &a.source {
            Some(t) => Some(t),
            None => None,
        },
        Kind::Request => match &a.sink {
            Some(t) => Some(t),
            None => None,
        },
        Kind::Response => None,
        Kind::Unspecified => None,
    }
}

/// Decodes one frame and decides its dispatch: a malformed frame is
/// skipped, an unrouted kind is a no-op, a topic without listeners is a
/// normal miss, and otherwise every listener registered for the routing
/// topic — and no other — is named for delivery, each exactly once.
pub fn handle_frame(reg: &Registry, bytes: &[u8]) -> (d: Dispatched)
    requires
        reg.wf(),
    ensures
        frame_envelope(bytes@) is None ==> d == Dispatched::Invalid,
        frame_envelope(bytes@) matches Some(e) ==> match route_of(e.attributes) {
            None => d == Dispatched::Unrouted,
            Some(t) => {
                &&& (!reg.has_topic(t) ==> d == Dispatched::NoListeners)
                &&& (reg.has_topic(t) ==> (d matches Dispatched::Deliver(v, env) && env@ == e
                    && v@.len() > 0 && distinct_seq(v@) && (forall|l: u64|
                    v@.contains(l) <==> reg.contains_pair(t, l))))
            },
        },
{
    match decode_frame(bytes) {
        None => Dispatched::Invalid,
        Some(env) => match route_topic(&env.attributes) {
            None => Dispatched::Unrouted,
            Some(t) => match reg.listeners_for(t) {
                Ok(v) => Dispatched::Deliver(v, env),
                Err(_) => Dispatched::NoListeners,
            },
        },
    }
}

/// One step of the dispatch loop. The loop stops exactly on a read
/// failure; everything else — an empty read, a malformed frame, an
/// unrouted kind, a topic nobody listens to — is absorbed and the loop
/// continues. A deliverable message names the listeners of its routing
/// topic, each exactly once.
pub fn loop_step(reg: &Registry, event: ReadEvent) -> (a: LoopAction)
    requires
        reg.wf(),
    ensures
        a is Stop <==> event is Failure,
        event matches ReadEvent::Data(b) ==> {
            &&& (b@.len() == 0 ==> a == LoopAction::Continue)
            &&& (b@.len() > 0 ==> match frame_envelope(b@) {
                None => a == LoopAction::Continue,
                Some(e) => match route_of(e.attributes) {
                    None => a == LoopAction::Continue,
                    Some(t) => {
                        &&& (!reg.has_topic(t) ==> a == LoopAction::Continue)
                        &&& (reg.has_topic(t) ==> (a matches LoopAction::Deliver(v, env) && env@
                            == e && v@.len() > 0 && distinct_seq(v@) && (forall|l: u64|
                            v@.contains(l) <==> reg.contains_pair(t, l))))
                    },
                },
            })
        },
{
    match event {
        ReadEvent::Failure => LoopAction::Stop,
        ReadEvent::Data(b) => {
            if b.len() == 0 {
                LoopAction::Continue
            } else {
                match handle_frame(reg, b.as_slice()) {
                    Dispatched::Deliver(v, env) => LoopAction::Deliver(v, env),
                    Dispatched::Invalid => LoopAction::Continue,
                    Dispatched::Unrouted => LoopAction::Continue,
                    Dispatched::NoListeners => LoopAction::Continue,
                }
            }
        },
    }
}

/// The routing key is selected by the message kind alone: a publish
/// envelope routes by its source, a request by its sink, and responses
/// and unspecified kinds are not routed.
pub proof fn lemma_routing_by_kind(a: AttributesModel)
    ensures
        a.kind == Kind::Publish ==> route_of(a) == a.source,
        a.kind == Kind::Request ==> route_of(a) == a.sink,
        a.kind == Kind::Response || a.kind == Kind::Unspecified ==> route_of(a) is None,
{
}

} // verus!
