//! The frame codec: the boundary to the external wire encoding.
//!
//! The wire format of an envelope is owned by the external codec — the
//! protobuf encoding of the uProtocol message type — and this transport
//! treats it as an opaque encode/decode step. The two operations are named
//! by uninterpreted functions: `frame_of` gives the frame an envelope
//! serializes to, and `frame_envelope` gives the envelope a frame decodes
//! to, if any. The one fact the library relies on, stated on the encoder
//! and documented by the codec, is that decoding inverts encoding.
//!
//! The wire format caps a message at `i32::MAX` serialized bytes and
//! carries every length prefix in 32 bits, so the encoder is only called
//! for envelopes within [`FRAME_CONTENT_LIMIT`]; the send path tests that
//! bound first and reports an oversized envelope as a status value.

use vstd::prelude::*;

use protobuf::{EnumOrUnknown, Message, MessageField};

use crate::message::{kind_of_wire_value, kind_wire_value, Attributes, Envelope, EnvelopeModel, Uuid128};
use crate::topic::{Topic, TopicModel};
use vstd::utf8::encode_utf8;

verus! {

/// The most bytes of variable-length content — payload, token, trace
/// parent, and the two authority names — an envelope may carry and still
/// be serialized: far below the wire format's cap on a message, so that
/// the fixed-size fields and tags never push a bounded envelope past it.
pub const FRAME_CONTENT_LIMIT: u64 = 0x3FFFFFFF;

/// The encoded byte length of an optional text field.
pub open spec fn text_len(o: Option<Seq<char>>) -> nat {
    match o {
        Some(s) => encode_utf8(s).len(),
        None => 0,
    }
}

/// The encoded byte length of an optional topic's authority name, the one
/// variable-length part of a topic.
pub open spec fn authority_len(o: Option<TopicModel>) -> nat {
    match o {
        Some(t) => encode_utf8(t.authority).len(),
        None => 0,
    }
}

/// The bytes of variable-length content an envelope carries.
pub open spec fn frame_content_len(e: EnvelopeModel) -> nat {
    e.payload.len() + text_len(e.attributes.token) + text_len(e.attributes.trace_parent)
        + authority_len(e.attributes.source) + authority_len(e.attributes.sink)
}

/// True when the envelope's content is small enough for the wire format.
pub open spec fn within_frame_limit(e: EnvelopeModel) -> bool {
    frame_content_len(e) <= FRAME_CONTENT_LIMIT as nat
}

/// The encoded byte length of an optional text field.
fn opt_text_bytes(o: &Option<String>) -> (n: usize)
    ensures
        n == text_len(
            match *o {
                Some(ref s) => Some(s@),
                None => None,
            },
        ),
{
    match o {
        Some(s) => s.as_str().as_bytes().len(),
        None => 0,
    }
}

/// The encoded byte length of an optional topic's authority name.
fn opt_authority_bytes(o: &Option<Topic>) -> (n: usize)
    ensures
        n == authority_len(
            match *o {
                Some(ref t) => Some(t@),
                None => None,
            },
        ),
{
    match o {
        Some(t) => t.authority.as_str().as_bytes().len(),
        None => 0,
    }
}

/// Tests whether the envelope's content is small enough for the wire
/// format, so that the encoder may be called on it.
pub fn envelope_within_limit(e: &Envelope) -> (r: bool)
    ensures
        r == within_frame_limit(e@),
{
    let p0 = e.payload.len() as u64;
    let p1 = opt_text_bytes(&e.attributes.token) as u64;
    let p2 = opt_text_bytes(&e.attributes.trace_parent) as u64;
    let p3 = opt_authority_bytes(&e.attributes.source) as u64;
    let p4 = opt_authority_bytes(&e.attributes.sink) as u64;
    let mut total: u64 = 0;
    if p0 > FRAME_CONTENT_LIMIT - total {
        return false;
    }
    total = total + p0;
    if p1 > FRAME_CONTENT_LIMIT - total {
        return false;
    }
    total = total + p1;
    if p2 > FRAME_CONTENT_LIMIT - total {
        return false;
    }
    total = total + p2;
    if p3 > FRAME_CONTENT_LIMIT - total {
        return false;
    }
    total = total + p3;
    if p4 > FRAME_CONTENT_LIMIT - total {
        return false;
    }
    true
}

#[verifier::external_type_specification]
#[verifier::external_body]
pub struct ExUUri(up_rust::UUri);

#[verifier::external_type_specification]
#[verifier::external_body]
pub struct ExUUID(up_rust::UUID);

#[verifier::external_type_specification]
#[verifier::external_body]
pub struct ExUAttributes(up_rust::UAttributes);

/// The frame an envelope serializes to. The encoding depends on the
/// envelope's value alone.
pub uninterp spec fn frame_of(e: EnvelopeModel) -> Seq<u8>;

/// The envelope a frame decodes to, or nothing for a malformed frame. The
/// outcome depends on the frame's bytes alone.
pub uninterp spec fn frame_envelope(bytes: Seq<u8>) -> Option<EnvelopeModel>;

/// Builds the codec's address type from a topic, field by field.
#[verifier::external_body]
fn uuri_of_topic(t: &Topic) -> up_rust::UUri {
    let mut u = up_rust::UUri::new();
    u.authority_name = t.authority.clone();
    u.ue_id = t.entity;
    u.ue_version_major = t.version;
    u.resource_id = t.resource;
    u
}

/// Reads a topic back out of the codec's address type, field by field.
#[verifier::external_body]
fn topic_of_uuri(u: &up_rust::UUri) -> Topic {
    Topic {
        authority: u.authority_name.clone(),
        entity: u.ue_id,
        version: u.ue_version_major,
        resource: u.resource_id,
    }
}

/// Builds the codec's identifier type from a 128-bit identifier.
#[verifier::external_body]
fn uuid_of_id(u: &Uuid128) -> up_rust::UUID {
    let mut r = up_rust::UUID::new();
    r.msb = u.msb;
    r.lsb = u.lsb;
    r
}

/// Reads a 128-bit identifier back out of the codec's identifier type.
#[verifier::external_body]
fn id_of_uuid(u: &up_rust::UUID) -> Uuid128 {
    Uuid128 { msb: u.msb, lsb: u.lsb }
}

/// Builds the codec's attribute type from an attribute set, field by
/// field; the message kind travels as its wire value.
#[verifier::external_body]
fn uattributes_of_attributes(a: &Attributes) -> up_rust::UAttributes {
    let mut ua = up_rust::UAttributes::new();
    ua.type_ = EnumOrUnknown::from_i32(kind_wire_value(a.kind));
    ua.id = MessageField::from_option(a.id.as_ref().map(uuid_of_id));
    ua.source = MessageField::from_option(a.source.as_ref().map(uuri_of_topic));
    ua.sink = MessageField::from_option(a.sink.as_ref().map(uuri_of_topic));
    ua.priority = EnumOrUnknown::from_i32(a.priority);
    ua.ttl = a.ttl;
    ua.permission_level = a.permission_level;
    ua.commstatus = a.comm_status.map(EnumOrUnknown::from_i32);
    ua.reqid = MessageField::from_option(a.request_id.as_ref().map(uuid_of_id));
    ua.token = a.token.clone();
    ua.traceparent = a.trace_parent.clone();
    ua
}

/// Reads an attribute set back out of the codec's attribute type, field
/// by field; wire values of the kind without registered behaviour read
/// back as the unspecified kind.
#[verifier::external_body]
fn attributes_of_uattributes(ua: &up_rust::UAttributes) -> Attributes {
    Attributes {
        kind: kind_of_wire_value(ua.type_.value()),
        id: ua.id.as_ref().map(id_of_uuid),
        source: ua.source.as_ref().map(topic_of_uuri),
        sink: ua.sink.as_ref().map(topic_of_uuri),
        priority: ua.priority.value(),
        ttl: ua.ttl,
        permission_level: ua.permission_level,
        comm_status: ua.commstatus.map(|c| c.value()),
        request_id: ua.reqid.as_ref().map(id_of_uuid),
        token: ua.token.clone(),
        trace_parent: ua.traceparent.clone(),
    }
}

/// Serializes an envelope to its wire frame.
///
/// Relies on `protobuf::Message::write_to_bytes` of the uProtocol message
/// type: the encoding is a function of the message value, and its own
/// documentation states that `parse_from_bytes` reverses it, which is the
/// round-trip fact stated here. The encoder refuses a nested message past
/// `i32::MAX` serialized bytes and writes every length prefix in 32 bits,
/// so this wrapper is only called for envelopes within
/// [`FRAME_CONTENT_LIMIT`], where neither bound can be reached; the send
/// path tests that first and reports an oversized envelope as a status.
#[verifier::external_body]
pub fn encode_envelope(e: &Envelope) -> (r: Vec<u8>)
    requires
        within_frame_limit(e@),
    ensures
        r@ == frame_of(e@),
        frame_envelope(r@) == Some(e@),
{
    let mut m = up_rust::UMessage::new();
    m.attributes = MessageField::some(uattributes_of_attributes(&e.attributes));
    m.payload = Some(bytes::Bytes::copy_from_slice(e.payload.as_slice()));
    m.write_to_bytes().expect("envelope serialization failed")
}

/// Decodes a wire frame into an envelope, or nothing for a malformed
/// frame.
///
/// Relies on `protobuf::Message::parse_from_bytes` of the uProtocol
/// message type: parsing is a function of the frame's bytes alone.
#[verifier::external_body]
pub fn decode_frame(bytes: &[u8]) -> (r: Option<Envelope>)
    ensures
        match r {
            Some(e) => frame_envelope(bytes@) == Some(e@),
            None => frame_envelope(bytes@) is None,
        },
{
    let m: up_rust::UMessage = match Message::parse_from_bytes(bytes) {
        Ok(m) => m,
        Err(_) => return None,
    };
    let attributes = attributes_of_uattributes(m.attributes.get_or_default());
    let payload = match &m.payload {
        Some(b) => b.to_vec(),
        None => Vec::new(),
    };
    Some(Envelope { attributes, payload })
}

} // verus!
