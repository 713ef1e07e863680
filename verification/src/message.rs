//! Message envelopes: an attribute set paired with opaque payload bytes.
//!
//! The attribute set carries the message kind, the routing addresses, and
//! the correlation and bookkeeping fields of the protocol. The kind decides
//! which address is the routing key and which validation rules apply on the
//! send path. An envelope is immutable once constructed.

use vstd::prelude::*;

use crate::topic::{Topic, TopicModel};

verus! {

/// The kind of a message. Kinds other than these three carry no registered
/// behaviour in this transport and are treated as unspecified.
#[derive(Clone, Copy, Debug, PartialEq, Eq, Structural)]
pub enum Kind {
    Unspecified,
    Publish,
    Request,
    Response,
}

/// A 128-bit message identifier, split into its most and least significant
/// halves.
#[derive(Clone, Copy, Debug, PartialEq, Eq, Structural)]
pub struct Uuid128 {
    pub msb: u64,
    pub lsb: u64,
}

/// The attribute set of a message: its kind, addressing, correlation and
/// bookkeeping fields.
#[derive(Debug)]
pub struct Attributes {
    /// The message kind; decides the routing key and the validation rules.
    pub kind: Kind,
    /// Identifier of this message.
    pub id: Option<Uuid128>,
    /// Origin address; the routing topic of a publish message.
    pub source: Option<Topic>,
    /// Destination address; the routing topic of a request message.
    pub sink: Option<Topic>,
    /// Priority class, as its wire value.
    pub priority: i32,
    /// Time to live in milliseconds.
    pub ttl: Option<u32>,
    /// Permission level of the sender.
    pub permission_level: Option<u32>,
    /// Communication status code, as its wire value.
    pub comm_status: Option<i32>,
    /// Identifier of the request that a response answers.
    pub request_id: Option<Uuid128>,
    /// Access token of the sender.
    pub token: Option<String>,
    /// Tracing context of the message.
    pub trace_parent: Option<String>,
}

/// The mathematical value of an [`Attributes`].
#[verifier::ext_equal]
pub ghost struct AttributesModel {
    pub kind: Kind,
    pub id: Option<Uuid128>,
    pub source: Option<TopicModel>,
    pub sink: Option<TopicModel>,
    pub priority: i32,
    pub ttl: Option<u32>,
    pub permission_level: Option<u32>,
    pub comm_status: Option<i32>,
    pub request_id: Option<Uuid128>,
    pub token: Option<Seq<char>>,
    pub trace_parent: Option<Seq<char>>,
}

impl View for Attributes {
    type V = AttributesModel;

    open spec fn view(&self) -> AttributesModel {
        AttributesModel {
            kind: self.kind,
            id: self.id,
            source: match self.source {
                Some(t) => Some(t@),
                None => None,
            },
            sink: match self.sink {
                Some(t) => Some(t@),
                None => None,
            },
            priority: self.priority,
            ttl: self.ttl,
            permission_level: self.permission_level,
            comm_status: self.comm_status,
            request_id: self.request_id,
            token: match self.token {
                Some(ref s) => Some(s@),
                None => None,
            },
            trace_parent: match self.trace_parent {
                Some(ref s) => Some(s@),
                None => None,
            },
        }
    }
}

/// A message envelope: an attribute set and opaque payload bytes.
#[derive(Debug)]
pub struct Envelope {
    pub attributes: Attributes,
    pub payload: Vec<u8>,
}

/// The mathematical value of an [`Envelope`].
#[verifier::ext_equal]
pub ghost struct EnvelopeModel {
    pub attributes: AttributesModel,
    pub payload: Seq<u8>,
}

impl View for Envelope {
    type V = EnvelopeModel;

    open spec fn view(&self) -> EnvelopeModel {
        EnvelopeModel { attributes: self.attributes@, payload: self.payload@ }
    }
}

/// The wire value of a message kind.
pub open spec fn kind_wire(k: Kind) -> i32 {
    match k {
        Kind::Unspecified => 0,
        Kind::Publish => 1,
        Kind::Request => 2,
        Kind::Response => 3,
    }
}

/// The kind a wire value decodes to. Values carrying no registered
/// behaviour decode to `Unspecified`.
pub open spec fn kind_of_wire(v: i32) -> Kind {
    if v == 1 {
        Kind::Publish
    } else if v == 2 {
        Kind::Request
    } else if v == 3 {
        Kind::Response
    } else {
        Kind::Unspecified
    }
}

/// Computes the wire value of a message kind.
pub fn kind_wire_value(k: Kind) -> (v: i32)
    ensures
        v == kind_wire(k),
{
    match k {
        Kind::Unspecified => 0,
        Kind::Publish => 1,
        Kind::Request => 2,
        Kind::Response => 3,
    }
}

/// Decodes a wire value into a message kind.
pub fn kind_of_wire_value(v: i32) -> (k: Kind)
    ensures
        k == kind_of_wire(v),
{
    if v == 1 {
        Kind::Publish
    } else if v == 2 {
        Kind::Request
    } else if v == 3 {
        Kind::Response
    } else {
        Kind::Unspecified
    }
}

fn clone_opt_string(o: &Option<String>) -> (r: Option<String>)
    ensures
        match *o {
            Some(ref s) => r matches Some(rs) && rs@ == s@,
            None => r is None,
        },
{
    match o {
        Some(s) => Some(s.clone()),
        None => None,
    }
}

impl Clone for Attributes {
    fn clone(&self) -> (r: Self)
        ensures
            r@ == self@,
    {
        let source = match &self.source {
            Some(t) => Some(t.clone()),
            None => None,
        };
        let sink = match &self.sink {
            Some(t) => Some(t.clone()),
            None => None,
        };
        let r = Attributes {
            kind: self.kind,
            id: self.id,
            source,
            sink,
            priority: self.priority,
            ttl: self.ttl,
            permission_level: self.permission_level,
            comm_status: self.comm_status,
            request_id: self.request_id,
            token: clone_opt_string(&self.token),
            trace_parent: clone_opt_string(&self.trace_parent),
        };
        proof {
            assert(r@ =~= self@);
        }
        r
    }
}

impl Clone for Envelope {
    fn clone(&self) -> (r: Self)
        ensures
            r@ == self@,
    {
        let r = Envelope {
            attributes: self.attributes.clone(),
            payload: vstd::slice::slice_to_vec(self.payload.as_slice()),
        };
        proof {
            assert(r@ =~= self@);
        }
        r
    }
}

} // verus!
