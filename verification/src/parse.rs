//! Verified assembly of typed events from a raw payload. The payload bytes
//! pass through the trusted JSON boundary; which event comes out of a given
//! payload is pinned here, over the names `jsonio` gives serde_json's
//! results: parsing succeeds exactly when the payload is UTF-8 text holding
//! a well-formed JSON document with the required fields, every field of the
//! event is tied to the document's member of that name, and each failure is
//! told apart.

use vstd::prelude::*;
use vstd::utf8::{decode_utf8, valid_utf8};

use crate::events::{BuildEvent, EventError, RequestEvent};
use crate::jsonio::{bytes_as_str, json_as_str, json_as_u64, json_clone, json_get, json_parse,
    json_wellformed, obj_str_fields, obj_u64_fields, text_str_fields, text_u64_fields};

verus! {

/// Whether the payload is UTF-8 text holding one well-formed JSON document.
pub open spec fn payload_wellformed(payload: Seq<u8>) -> bool {
    valid_utf8(payload) && json_wellformed(decode_utf8(payload))
}

/// The named top-level member of the payload's document, when it is a
/// string.
pub open spec fn payload_str_field(payload: Seq<u8>, field: Seq<char>) -> Option<Seq<char>> {
    if text_str_fields(decode_utf8(payload)).contains_key(field) {
        Some(text_str_fields(decode_utf8(payload))[field])
    } else {
        None
    }
}

/// The named top-level member of the payload's document, when it is a
/// non-negative integer in range.
pub open spec fn payload_u64_field(payload: Seq<u8>, field: Seq<char>) -> Option<u64> {
    if text_u64_fields(decode_utf8(payload)).contains_key(field) {
        Some(text_u64_fields(decode_utf8(payload))[field])
    } else {
        None
    }
}

/// The characters of an optional string, for tying optional event fields to
/// optional payload fields.
pub open spec fn opt_text(o: Option<String>) -> Option<Seq<char>> {
    match o {
        Some(s) => Some(s@),
        None => None,
    }
}

/// Whether the payload's document carries the four fields a build event
/// requires, each as a string.
pub open spec fn build_fields_present(payload: Seq<u8>) -> bool {
    &&& payload_str_field(payload, "project"@) is Some
    &&& payload_str_field(payload, "package"@) is Some
    &&& payload_str_field(payload, "arch"@) is Some
    &&& payload_str_field(payload, "repository"@) is Some
}

/// Whether a build payload parses: well-formed with the required fields.
pub open spec fn build_payload_parses(payload: Seq<u8>) -> bool {
    payload_wellformed(payload) && build_fields_present(payload)
}

/// Every field of the build event is the payload's member of that name.
pub open spec fn build_event_matches_payload(ev: BuildEvent, payload: Seq<u8>) -> bool {
    &&& Some(ev.project@) == payload_str_field(payload, "project"@)
    &&& Some(ev.package@) == payload_str_field(payload, "package"@)
    &&& Some(ev.arch@) == payload_str_field(payload, "arch"@)
    &&& Some(ev.repository@) == payload_str_field(payload, "repository"@)
    &&& opt_text(ev.reason) == payload_str_field(payload, "reason"@)
    &&& opt_text(ev.release) == payload_str_field(payload, "release"@)
    &&& opt_text(ev.readytime) == payload_str_field(payload, "readytime"@)
    &&& opt_text(ev.srcmd5) == payload_str_field(payload, "srcmd5"@)
    &&& opt_text(ev.rev) == payload_str_field(payload, "rev"@)
    &&& opt_text(ev.bcnt) == payload_str_field(payload, "bcnt"@)
    &&& opt_text(ev.verifymd5) == payload_str_field(payload, "verifymd5"@)
    &&& opt_text(ev.starttime) == payload_str_field(payload, "starttime"@)
    &&& opt_text(ev.endtime) == payload_str_field(payload, "endtime"@)
    &&& opt_text(ev.workerid) == payload_str_field(payload, "workerid"@)
    &&& opt_text(ev.versrel) == payload_str_field(payload, "versrel"@)
    &&& opt_text(ev.hostarch) == payload_str_field(payload, "hostarch"@)
    &&& opt_text(ev.previouslyfailed) == payload_str_field(payload, "previouslyfailed"@)
}

/// Whether the payload's document carries the two fields a request event
/// requires: an in-range number and a string state.
pub open spec fn request_fields_present(payload: Seq<u8>) -> bool {
    &&& payload_u64_field(payload, "number"@) is Some
    &&& payload_str_field(payload, "state"@) is Some
}

/// Whether a request payload parses: well-formed with the required fields.
pub open spec fn request_payload_parses(payload: Seq<u8>) -> bool {
    payload_wellformed(payload) && request_fields_present(payload)
}

/// Every plain field of the request event is the payload's member of that
/// name. (The opaque `actions` member is carried through without a model.)
pub open spec fn request_event_matches_payload(ev: RequestEvent, payload: Seq<u8>) -> bool {
    &&& Some(ev.number) == payload_u64_field(payload, "number"@)
    &&& Some(ev.state@) == payload_str_field(payload, "state"@)
    &&& opt_text(ev.author) == payload_str_field(payload, "author"@)
    &&& opt_text(ev.comment) == payload_str_field(payload, "comment"@)
    &&& opt_text(ev.description) == payload_str_field(payload, "description"@)
    &&& opt_text(ev.when) == payload_str_field(payload, "when"@)
    &&& opt_text(ev.who) == payload_str_field(payload, "who"@)
    &&& opt_text(ev.oldstate) == payload_str_field(payload, "oldstate"@)
}

/// The named field as a string: present and a string exactly when the
/// document's string members carry it, with that text; otherwise the error
/// naming the field.
fn require_string_field(doc: &serde_json::Value, field: &str) -> (r: Result<String, EventError>)
    ensures
        r is Ok <==> obj_str_fields(*doc).contains_key(field@),
        r matches Ok(s) ==> s@ == obj_str_fields(*doc)[field@],
        r matches Err(e) ==> e matches EventError::MissingField { field: f } && f@ == field@,
{
    match json_get(doc, field) {
        Some(v) => match json_as_str(v) {
            Some(s) => Ok(s.to_owned()),
            None => Err(EventError::MissingField { field: field.to_owned() }),
        },
        None => Err(EventError::MissingField { field: field.to_owned() }),
    }
}

/// The named field as a string when the document's string members carry it,
/// with that text; absent otherwise.
fn optional_string_field(doc: &serde_json::Value, field: &str) -> (r: Option<String>)
    ensures
        r is Some <==> obj_str_fields(*doc).contains_key(field@),
        r matches Some(s) ==> s@ == obj_str_fields(*doc)[field@],
{
    match json_get(doc, field) {
        Some(v) => match json_as_str(v) {
            Some(s) => Some(s.to_owned()),
            None => None,
        },
        None => None,
    }
}

/// The named field as a number: present exactly when the document's integer
/// members carry it, with that value; otherwise the error naming the field.
fn require_u64_field(doc: &serde_json::Value, field: &str) -> (r: Result<u64, EventError>)
    ensures
        r is Ok <==> obj_u64_fields(*doc).contains_key(field@),
        r matches Ok(n) ==> n == obj_u64_fields(*doc)[field@],
        r matches Err(e) ==> e matches EventError::MissingField { field: f } && f@ == field@,
{
    match json_get(doc, field) {
        Some(v) => match json_as_u64(v) {
            Some(n) => Ok(n),
            None => Err(EventError::MissingField { field: field.to_owned() }),
        },
        None => Err(EventError::MissingField { field: field.to_owned() }),
    }
}

/// A build event read out of a delivery payload. Parsing succeeds exactly
/// when the payload is UTF-8, well-formed JSON, and carries project,
/// package, arch and repository as strings; the event's fields are then the
/// payload's. Bytes that are not UTF-8 are refused as such; a document that
/// is not well-formed JSON is refused as malformed; otherwise the first
/// absent required field, in that order, is refused by name.
pub fn parse_build_event(payload: &[u8]) -> (r: Result<BuildEvent, EventError>)
    ensures
        r is Ok <==> build_payload_parses(payload@),
        r matches Ok(ev) ==> build_event_matches_payload(ev, payload@),
        r is Err ==> (r->Err_0 is PayloadNotUtf8 || r->Err_0 is PayloadMalformed || r->Err_0
            is MissingField),
        !valid_utf8(payload@) <==> (r is Err && r->Err_0 is PayloadNotUtf8),
        (valid_utf8(payload@) && !json_wellformed(decode_utf8(payload@))) <==> (r is Err
            && r->Err_0 is PayloadMalformed),
        r matches Err(e) ==> (e matches EventError::MissingField { field: f } ==> {
            &&& payload_wellformed(payload@)
            &&& payload_str_field(payload@, f@) is None
            &&& (f@ == "project"@ || f@ == "package"@ || f@ == "arch"@ || f@ == "repository"@)
            &&& (f@ == "package"@ ==> payload_str_field(payload@, "project"@) is Some)
            &&& (f@ == "arch"@ ==> payload_str_field(payload@, "package"@) is Some)
            &&& (f@ == "repository"@ ==> payload_str_field(payload@, "arch"@) is Some)
        }),
{
    proof {
        reveal_strlit("project");
        reveal_strlit("package");
        reveal_strlit("arch");
        reveal_strlit("repository");
        assert("project"@.len() == 7 && "package"@.len() == 7 && "arch"@.len() == 4
            && "repository"@.len() == 10);
        assert("project"@[1] == 'r' && "package"@[1] == 'a');
        assert("project"@ != "package"@);
    }
    let text = match bytes_as_str(payload) {
        Some(t) => t,
        None => {
            return Err(EventError::PayloadNotUtf8);
        },
    };
    let doc = match json_parse(text) {
        Ok(d) => d,
        Err(_) => {
            return Err(EventError::PayloadMalformed);
        },
    };
    let project = match require_string_field(&doc, "project") {
        Ok(s) => s,
        Err(e) => {
            return Err(e);
        },
    };
    let package = match require_string_field(&doc, "package") {
        Ok(s) => s,
        Err(e) => {
            return Err(e);
        },
    };
    let arch = match require_string_field(&doc, "arch") {
        Ok(s) => s,
        Err(e) => {
            return Err(e);
        },
    };
    let repository = match require_string_field(&doc, "repository") {
        Ok(s) => s,
        Err(e) => {
            return Err(e);
        },
    };
    Ok(
        BuildEvent {
            project,
            package,
            arch,
            repository,
            reason: optional_string_field(&doc, "reason"),
            release: optional_string_field(&doc, "release"),
            readytime: optional_string_field(&doc, "readytime"),
            srcmd5: optional_string_field(&doc, "srcmd5"),
            rev: optional_string_field(&doc, "rev"),
            bcnt: optional_string_field(&doc, "bcnt"),
            verifymd5: optional_string_field(&doc, "verifymd5"),
            starttime: optional_string_field(&doc, "starttime"),
            endtime: optional_string_field(&doc, "endtime"),
            workerid: optional_string_field(&doc, "workerid"),
            versrel: optional_string_field(&doc, "versrel"),
            hostarch: optional_string_field(&doc, "hostarch"),
            previouslyfailed: optional_string_field(&doc, "previouslyfailed"),
        },
    )
}

/// A request event read out of a delivery payload, under the same refusal
/// rules as [`parse_build_event`]: parsing succeeds exactly when the payload
/// is UTF-8, well-formed JSON, and carries a non-negative integer `number`
/// and a string `state`; the event's fields are then the payload's. An
/// absent `number` is refused before an absent `state`.
pub fn parse_request_event(payload: &[u8]) -> (r: Result<RequestEvent, EventError>)
    ensures
        r is Ok <==> request_payload_parses(payload@),
        r matches Ok(ev) ==> request_event_matches_payload(ev, payload@),
        r is Err ==> (r->Err_0 is PayloadNotUtf8 || r->Err_0 is PayloadMalformed || r->Err_0
            is MissingField),
        !valid_utf8(payload@) <==> (r is Err && r->Err_0 is PayloadNotUtf8),
        (valid_utf8(payload@) && !json_wellformed(decode_utf8(payload@))) <==> (r is Err
            && r->Err_0 is PayloadMalformed),
        r matches Err(e) ==> (e matches EventError::MissingField { field: f } ==> {
            &&& payload_wellformed(payload@)
            &&& (f@ == "number"@ || f@ == "state"@)
            &&& (f@ == "number"@ ==> payload_u64_field(payload@, "number"@) is None)
            &&& (f@ == "state"@ ==> payload_str_field(payload@, "state"@) is None
                && payload_u64_field(payload@, "number"@) is Some)
        }),
{
    proof {
        reveal_strlit("number");
        reveal_strlit("state");
        assert("number"@.len() == 6 && "state"@.len() == 5);
        assert("number"@ != "state"@);
    }
    let text = match bytes_as_str(payload) {
        Some(t) => t,
        None => {
            return Err(EventError::PayloadNotUtf8);
        },
    };
    let doc = match json_parse(text) {
        Ok(d) => d,
        Err(_) => {
            return Err(EventError::PayloadMalformed);
        },
    };
    let number = match require_u64_field(&doc, "number") {
        Ok(n) => n,
        Err(e) => {
            return Err(e);
        },
    };
    let state = match require_string_field(&doc, "state") {
        Ok(s) => s,
        Err(e) => {
            return Err(e);
        },
    };
    let actions = match json_get(&doc, "actions") {
        Some(v) => Some(json_clone(v)),
        None => None,
    };
    Ok(
        RequestEvent {
            number,
            state,
            author: optional_string_field(&doc, "author"),
            comment: optional_string_field(&doc, "comment"),
            description: optional_string_field(&doc, "description"),
            actions,
            when: optional_string_field(&doc, "when"),
            who: optional_string_field(&doc, "who"),
            oldstate: optional_string_field(&doc, "oldstate"),
        },
    )
}

} // verus!
