//! The typed events the relay handles, their subtypes, and the errors a
//! delivery can be refused with.

use vstd::prelude::*;

verus! {

/// A build result reported by the build service. Only project, package,
/// arch and repository feed the notification text; the remaining fields are
/// parsed for forward compatibility and otherwise unused.
pub struct BuildEvent {
    pub project: String,
    pub package: String,
    pub arch: String,
    pub repository: String,
    pub reason: Option<String>,
    pub release: Option<String>,
    pub readytime: Option<String>,
    pub srcmd5: Option<String>,
    pub rev: Option<String>,
    pub bcnt: Option<String>,
    pub verifymd5: Option<String>,
    pub starttime: Option<String>,
    pub endtime: Option<String>,
    pub workerid: Option<String>,
    pub versrel: Option<String>,
    pub hostarch: Option<String>,
    pub previouslyfailed: Option<String>,
}

/// A change to a review request. Number, state and comment feed the
/// notification text; the remaining fields are parsed and otherwise unused.
pub struct RequestEvent {
    pub number: u64,
    pub state: String,
    pub author: Option<String>,
    pub comment: Option<String>,
    pub description: Option<String>,
    pub actions: Option<serde_json::Value>,
    pub when: Option<String>,
    pub who: Option<String>,
    pub oldstate: Option<String>,
}

/// The subtype of a build event, read off the routing key.
#[derive(Clone, Copy, PartialEq, Eq, Structural, Debug)]
pub enum BuildKind {
    Succeeded,
    Failed,
}

/// The subtype of a request event, read off the routing key.
#[derive(Clone, Copy, PartialEq, Eq, Structural, Debug)]
pub enum RequestKind {
    ChangedByAdmin,
    StateChanged,
    Deleted,
}

/// Why a delivery was refused rather than relayed. A refused delivery is
/// logged and left unacknowledged, so the broker redelivers it by default.
#[derive(Debug)]
pub enum EventError {
    /// The routing key matched no known suffix.
    UnknownRoutingKey { routing_key: String },
    /// The payload was not valid UTF-8 text.
    PayloadNotUtf8,
    /// The payload was not a well-formed JSON document.
    PayloadMalformed,
    /// A required payload field was absent or of the wrong type.
    MissingField { field: String },
}

} // verus!
