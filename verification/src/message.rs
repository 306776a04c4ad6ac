//! The message sample model.
//!
//! A sample is an ordered sequence of at most fifteen messages for one
//! chat, newest first, as the service delivers it. Each message carries
//! its identifier, its unix timestamp in seconds, and an optional action
//! tag already rendered to text.

use vstd::prelude::*;

verus! {

/// One message of a bounded sample.
#[derive(Debug, Clone, PartialEq, Eq)]
pub struct MessageInfo {
    pub id: i32,
    /// Unix timestamp of the message, in seconds.
    pub timestamp: i64,
    /// Action tag of a service message, rendered to text; `None` for an
    /// ordinary message.
    pub action: Option<String>,
}

} // verus!
