//! Kind-specific validation rules of the send path.
//!
//! Each message kind has its own rules on the attribute set: a publish
//! message must carry a well-formed source topic; a request must carry
//! well-formed source and sink; a response must also carry the identifier
//! of the request it answers. A message of unspecified kind is never valid
//! to send.

use vstd::prelude::*;

use crate::message::{Attributes, AttributesModel, Kind};
use crate::status::{Code, Status};
use crate::topic::{topic_well_formed, Topic, TopicModel};

verus! {

/// True when an optional topic is present and well formed.
pub open spec fn opt_topic_well_formed(o: Option<TopicModel>) -> bool {
    o matches Some(t) && topic_well_formed(t)
}

/// The rules a publish attribute set must meet: a well-formed source, the
/// topic the message is published to.
pub open spec fn publish_rules(a: AttributesModel) -> bool {
    opt_topic_well_formed(a.source)
}

/// The rules a request attribute set must meet: a well-formed source (the
/// reply-to address) and a well-formed sink (the method invoked).
pub open spec fn request_rules(a: AttributesModel) -> bool {
    opt_topic_well_formed(a.source) && opt_topic_well_formed(a.sink)
}

/// The rules a response attribute set must meet: well-formed source and
/// sink, and the identifier of the request being answered.
pub open spec fn response_rules(a: AttributesModel) -> bool {
    opt_topic_well_formed(a.source) && opt_topic_well_formed(a.sink) && a.request_id is Some
}

/// True when the attribute set may be sent: the rules of its kind hold,
/// and the kind itself is specified.
pub open spec fn valid_for_send(a: AttributesModel) -> bool {
    match a.kind {
        Kind::Publish => publish_rules(a),
        Kind::Request => request_rules(a),
        Kind::Response => response_rules(a),
        Kind::Unspecified => false,
    }
}

/// Checks that an optional topic is present and well formed.
fn check_opt_topic(o: &Option<Topic>) -> (r: bool)
    ensures
        r == opt_topic_well_formed(
            match *o {
                Some(ref t) => Some(t@),
                None => None,
            },
        ),
{
    match o {
        Some(t) => t.is_well_formed(),
        None => false,
    }
}

/// The message a failed publish validation carries: which rule was broken.
pub open spec fn publish_failure_message(a: AttributesModel) -> Seq<char> {
    "publish attributes lack a well-formed source"@
}

/// The message a failed request validation carries: which rule was broken.
pub open spec fn request_failure_message(a: AttributesModel) -> Seq<char> {
    if !opt_topic_well_formed(a.source) {
        "request attributes lack a well-formed source"@
    } else {
        "request attributes lack a well-formed sink"@
    }
}

/// The message a failed response validation carries: which rule was
/// broken, the first of the kind's rules that fails.
pub open spec fn response_failure_message(a: AttributesModel) -> Seq<char> {
    if !opt_topic_well_formed(a.source) {
        "response attributes lack a well-formed source"@
    } else if !opt_topic_well_formed(a.sink) {
        "response attributes lack a well-formed sink"@
    } else {
        "response attributes lack a request identifier"@
    }
}

/// The message a failed send validation carries for each kind.
pub open spec fn send_failure_message(a: AttributesModel) -> Seq<char> {
    match a.kind {
        Kind::Publish => publish_failure_message(a),
        Kind::Request => request_failure_message(a),
        Kind::Response => response_failure_message(a),
        Kind::Unspecified => "wrong message kind in attributes"@,
    }
}

/// Validates an attribute set against the publish rules.
pub fn validate_publish(a: &Attributes) -> (r: Result<(), Status>)
    ensures
        r is Ok <==> publish_rules(a@),
        r matches Err(s) ==> s.code == Code::InvalidArgument && s.message@
            == publish_failure_message(a@),
{
    if check_opt_topic(&a.source) {
        Ok(())
    } else {
        Err(Status::fail_with_code(Code::InvalidArgument, "publish attributes lack a well-formed source"))
    }
}

/// Validates an attribute set against the request rules.
pub fn validate_request(a: &Attributes) -> (r: Result<(), Status>)
    ensures
        r is Ok <==> request_rules(a@),
        r matches Err(s) ==> s.code == Code::InvalidArgument && s.message@
            == request_failure_message(a@),
{
    if !check_opt_topic(&a.source) {
        Err(Status::fail_with_code(Code::InvalidArgument, "request attributes lack a well-formed source"))
    } else if !check_opt_topic(&a.sink) {
        Err(Status::fail_with_code(Code::InvalidArgument, "request attributes lack a well-formed sink"))
    } else {
        Ok(())
    }
}

/// Validates an attribute set against the response rules.
pub fn validate_response(a: &Attributes) -> (r: Result<(), Status>)
    ensures
        r is Ok <==> response_rules(a@),
        r matches Err(s) ==> s.code == Code::InvalidArgument && s.message@
            == response_failure_message(a@),
{
    if !check_opt_topic(&a.source) {
        Err(Status::fail_with_code(Code::InvalidArgument, "response attributes lack a well-formed source"))
    } else if !check_opt_topic(&a.sink) {
        Err(Status::fail_with_code(Code::InvalidArgument, "response attributes lack a well-formed sink"))
    } else if a.request_id.is_none() {
        Err(Status::fail_with_code(Code::InvalidArgument, "response attributes lack a request identifier"))
    } else {
        Ok(())
    }
}

/// Selects the validator for the attribute set's kind and applies it. An
/// unspecified kind is rejected outright. A failure carries the specific
/// rule violated in its message.
pub fn validate_for_send(a: &Attributes) -> (r: Result<(), Status>)
    ensures
        r is Ok <==> valid_for_send(a@),
        r matches Err(s) ==> s.code == Code::InvalidArgument && s.message@
            == send_failure_message(a@),
{
    match a.kind {
        Kind::Publish => validate_publish(a),
        Kind::Request => validate_request(a),
        Kind::Response => validate_response(a),
        Kind::Unspecified => Err(
            Status::fail_with_code(Code::InvalidArgument, "wrong message kind in attributes"),
        ),
    }
}

} // verus!
