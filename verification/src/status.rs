//! Status values surfaced by the transport core.
//!
//! Every fallible operation reports its outcome through a [`Status`]: an
//! explicit code plus a human-readable message. Callers are expected to
//! inspect the code; a `Success` code is a positive success signal, not merely
//! the absence of an error.

use vstd::prelude::*;

verus! {

/// The status codes surfaced by the transport core.
#[derive(Clone, Copy, Debug, PartialEq, Eq, Structural)]
pub enum Code {
    Success,
    InvalidArgument,
    NotFound,
    AlreadyExists,
    Unavailable,
    Internal,
    Unimplemented,
}

/// An explicit outcome value: a code together with a message.
#[derive(Debug)]
pub struct Status {
    pub code: Code,
    pub message: String,
}

impl Clone for Status {
    fn clone(&self) -> (r: Self)
        ensures
            r.code == self.code,
            r.message@ == self.message@,
    {
        Status { code: self.code, message: self.message.clone() }
    }
}

impl Status {
    /// A success status; callers check the code field, so success is an
    /// explicit value rather than the absence of an error.
    pub fn ok() -> (s: Status)
        ensures
            s.code == Code::Success,
            s.message@ == Seq::<char>::empty(),
    {
        Status { code: Code::Success, message: String::new() }
    }

    /// A failure status carrying the given code and message.
    pub fn fail_with_code(code: Code, message: &str) -> (s: Status)
        ensures
            s.code == code,
            s.message@ == message@,
    {
        Status { code, message: message.to_owned() }
    }

    /// True exactly when this status signals success.
    pub fn is_ok(&self) -> (r: bool)
        ensures
            r == (self.code == Code::Success),
    {
        match self.code {
            Code::Success => true,
            _ => false,
        }
    }
}

} // verus!
