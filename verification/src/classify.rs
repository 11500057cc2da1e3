//! Classification of a broker routing key into an event subtype. The known
//! suffixes are matched by substring, in a fixed priority order; anything
//! else is a classification error naming the unexpected routing key.

use vstd::prelude::*;

use crate::events::{BuildKind, EventError, RequestKind};
use crate::text::{has_substring, str_contains};

verus! {

/// The subtype a build routing key classifies to, or none.
pub open spec fn classify_build_spec(rk: Seq<char>) -> Option<BuildKind> {
    if has_substring(rk, "obs.package.build_success"@) {
        Some(BuildKind::Succeeded)
    } else if has_substring(rk, "obs.package.build_fail"@) {
        Some(BuildKind::Failed)
    } else {
        None
    }
}

/// The subtype a request routing key classifies to, or none.
pub open spec fn classify_request_spec(rk: Seq<char>) -> Option<RequestKind> {
    if has_substring(rk, "obs.request.change"@) {
        Some(RequestKind::ChangedByAdmin)
    } else if has_substring(rk, "obs.request.state_change"@) {
        Some(RequestKind::StateChanged)
    } else if has_substring(rk, "obs.request.delete"@) {
        Some(RequestKind::Deleted)
    } else {
        None
    }
}

/// Classify a build routing key; an unknown key is an error carrying it.
pub fn classify_build(routing_key: &str) -> (r: Result<BuildKind, EventError>)
    ensures
        r is Ok <==> classify_build_spec(routing_key@) is Some,
        r is Ok ==> r.unwrap() == classify_build_spec(routing_key@).unwrap(),
        r matches Err(e) ==> e matches EventError::UnknownRoutingKey { routing_key: k } && k@
            == routing_key@,
{
    if str_contains(routing_key, "obs.package.build_success") {
        Ok(BuildKind::Succeeded)
    } else if str_contains(routing_key, "obs.package.build_fail") {
        Ok(BuildKind::Failed)
    } else {
        Err(EventError::UnknownRoutingKey { routing_key: routing_key.to_owned() })
    }
}

/// Classify a request routing key; an unknown key is an error carrying it.
pub fn classify_request(routing_key: &str) -> (r: Result<RequestKind, EventError>)
    ensures
        r is Ok <==> classify_request_spec(routing_key@) is Some,
        r is Ok ==> r.unwrap() == classify_request_spec(routing_key@).unwrap(),
        r matches Err(e) ==> e matches EventError::UnknownRoutingKey { routing_key: k } && k@
            == routing_key@,
{
    if str_contains(routing_key, "obs.request.change") {
        Ok(RequestKind::ChangedByAdmin)
    } else if str_contains(routing_key, "obs.request.state_change") {
        Ok(RequestKind::StateChanged)
    } else if str_contains(routing_key, "obs.request.delete") {
        Ok(RequestKind::Deleted)
    } else {
        Err(EventError::UnknownRoutingKey { routing_key: routing_key.to_owned() })
    }
}

} // verus!
