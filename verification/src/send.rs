//! The send path: validate an outgoing envelope, then serialize it.
//!
//! The rules of the envelope's kind are checked first; only a valid
//! envelope is turned into a wire frame, so nothing is ever written to the
//! socket for a rejected envelope. The host performs the socket write on a
//! private duplicate of the channel and reports the outcome as an explicit
//! status value.

use vstd::prelude::*;

use crate::codec::{
    encode_envelope, envelope_within_limit, frame_envelope, frame_of, within_frame_limit,
};
use crate::message::{Envelope, Kind};
use crate::message::AttributesModel;
use crate::status::{Code, Status};
use crate::topic::is_default_topic;
use crate::validate::{
    opt_topic_well_formed, send_failure_message, valid_for_send, validate_for_send,
};

verus! {

/// Validates the envelope's attribute set and serializes the envelope to
/// the frame to be written. Fails with `InvalidArgument`, producing no
/// frame, exactly when the attribute set breaks the rules of its kind;
/// fails with `Unavailable` when the attribute set is valid but the
/// envelope's content is too large for the wire format to serialize.
pub fn prepare_send(e: &Envelope) -> (r: Result<Vec<u8>, Status>)
    ensures
        r is Ok <==> valid_for_send(e.attributes@) && within_frame_limit(e@),
        r matches Ok(frame) ==> frame@ == frame_of(e@) && frame_envelope(frame@) == Some(e@),
        r matches Err(s) ==> s.code == (
            if valid_for_send(e.attributes@) {
                Code::Unavailable
            } else {
                Code::InvalidArgument
            }
        ),
        r matches Err(s) ==> s.message@ == (
            if valid_for_send(e.attributes@) {
                "envelope serialization issue: content too large for the wire format"@
            } else {
                send_failure_message(e.attributes@)
            }
        ),
{
    match validate_for_send(&e.attributes) {
        Ok(_) => {
            if envelope_within_limit(e) {
                Ok(encode_envelope(e))
            } else {
                Err(
                    Status::fail_with_code(
                        Code::Unavailable,
                        "envelope serialization issue: content too large for the wire format",
                    ),
                )
            }
        },
        Err(s) => Err(s),
    }
}

/// The status a send reports once the socket write has completed: an
/// explicit success value when the frame was written, `Unavailable` when
/// the dispatcher link failed.
pub fn send_status(wrote: bool) -> (s: Status)
    ensures
        wrote ==> s.code == Code::Success,
        !wrote ==> s.code == Code::Unavailable,
{
    if wrote {
        Status::ok()
    } else {
        Status::fail_with_code(Code::Unavailable, "dispatcher communication issue")
    }
}

/// A publish envelope whose source is absent or the empty default topic is
/// never valid to send: `prepare_send` rejects it with `InvalidArgument`
/// and produces no frame to write.
pub proof fn lemma_validation_gate(a: AttributesModel)
    requires
        a.kind == Kind::Publish,
        a.source matches Some(t) ==> is_default_topic(t),
    ensures
        !valid_for_send(a),
{
    if a.source is Some {
        assert(!opt_topic_well_formed(a.source));
    }
}

} // verus!
