//! Socket-based point-to-point message transport core.
//!
//! The library models the transport's data (topics, attribute sets, message
//! envelopes), the topic-to-listener registry, the per-kind validation rules
//! of the send path, and the routing decisions of the dispatch loop. The
//! wire codec and the socket itself are external collaborators reached
//! through trusted wrappers; everything else is verified.

pub mod b64;
pub mod codec;
pub mod dispatch;
pub mod message;
pub mod registry;
pub mod send;
pub mod status;
pub mod text;
pub mod topic;
pub mod transport;
pub mod validate;
