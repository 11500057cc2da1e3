//! The relay dispatcher: given a delivery's routing key and payload, decide
//! exactly which rooms are notified with which texts, and whether the
//! delivery is acknowledged. The surrounding program performs the sends in
//! order and acknowledges afterwards exactly when the plan says so; a
//! refused delivery is logged and left unacknowledged.

use vstd::prelude::*;
use vstd::utf8::valid_utf8;

use crate::classify::{classify_build, classify_build_spec, classify_request,
    classify_request_spec};
use crate::events::{BuildEvent, BuildKind, EventError, RequestEvent, RequestKind};
use crate::notify::{build_plain_spec, build_rich_spec, format_build_plain, format_build_rich,
    format_request_plain, format_request_rich, request_plain_spec, request_rich_spec};
use crate::parse::{build_event_matches_payload, build_payload_parses, parse_build_event,
    parse_request_event, payload_wellformed, request_event_matches_payload,
    request_payload_parses};
use crate::registry::{KeyView, SubscriptionKey, SubscriptionRegistry};
use crate::text::{dec_rep, u64_to_string};
use crate::ConnectionDetails;

verus! {

/// One notification to send: a room and the plain and rich texts for it.
pub struct Notification {
    pub room: String,
    pub plain: String,
    pub rich: String,
}

/// What one delivery asks of the outside world: the notifications to send,
/// in order, and whether to acknowledge the delivery after attempting them.
pub struct RelayPlan {
    pub notifications: Vec<Notification>,
    pub acknowledge: bool,
}

/// The registry key a build event is relayed under.
pub open spec fn build_key_view(ev: BuildEvent) -> KeyView {
    KeyView::Build { project: ev.project@, package: ev.package@ }
}

/// The registry key a request event is relayed under.
pub open spec fn request_key_view(ev: RequestEvent) -> KeyView {
    KeyView::Request { number: dec_rep(ev.number as int) }
}

/// A plan carries one notification per subscribed room, in subscription
/// order, with the exact formatted texts, and acknowledges the delivery.
pub open spec fn build_plan_matches(
    plan: RelayPlan,
    registry: SubscriptionRegistry,
    details: ConnectionDetails,
    kind: BuildKind,
    ev: BuildEvent,
) -> bool {
    &&& plan.acknowledge
    &&& plan.notifications@.len() == registry.rooms(build_key_view(ev)).len()
    &&& forall|i: int|
        0 <= i < plan.notifications@.len() ==> {
            &&& (#[trigger] plan.notifications@[i]).room@ == registry.rooms(build_key_view(ev))[i]
            &&& plan.notifications@[i].plain@ == build_plain_spec(kind, ev)
            &&& plan.notifications@[i].rich@ == build_rich_spec(details, kind, ev)
        }
}

/// The request-side counterpart of [`build_plan_matches`].
pub open spec fn request_plan_matches(
    plan: RelayPlan,
    registry: SubscriptionRegistry,
    details: ConnectionDetails,
    kind: RequestKind,
    ev: RequestEvent,
) -> bool {
    &&& plan.acknowledge
    &&& plan.notifications@.len() == registry.rooms(request_key_view(ev)).len()
    &&& forall|i: int|
        0 <= i < plan.notifications@.len() ==> {
            &&& (#[trigger] plan.notifications@[i]).room@ == registry.rooms(request_key_view(ev))[i]
            &&& plan.notifications@[i].plain@ == request_plain_spec(kind, ev)
            &&& plan.notifications@[i].rich@ == request_rich_spec(details, kind, ev)
        }
}

/// The plan for a classified build event: one send per subscribed room, then
/// acknowledgment. An event without subscribers plans zero sends and still
/// acknowledges.
pub fn relay_build(
    registry: &SubscriptionRegistry,
    details: &ConnectionDetails,
    kind: BuildKind,
    ev: &BuildEvent,
) -> (plan: RelayPlan)
    requires
        registry.wf(),
    ensures
        build_plan_matches(plan, *registry, *details, kind, *ev),
{
    let key = SubscriptionKey::Build { project: ev.project.clone(), package: ev.package.clone() };
    proof {
        assert(key@ == build_key_view(*ev));
    }
    let rooms = registry.lookup(&key);
    let plain = format_build_plain(kind, ev);
    let rich = format_build_rich(details, kind, ev);
    let mut notifications: Vec<Notification> = Vec::new();
    let n = rooms.len();
    let mut i: usize = 0;
    while i < n
        invariant
            i <= n == rooms@.len(),
            rooms.deep_view() == registry.rooms(build_key_view(*ev)),
            plain@ == build_plain_spec(kind, *ev),
            rich@ == build_rich_spec(*details, kind, *ev),
            notifications@.len() == i,
            forall|j: int|
                0 <= j < i ==> {
                    &&& (#[trigger] notifications@[j]).room@ == rooms.deep_view()[j]
                    &&& notifications@[j].plain@ == plain@
                    &&& notifications@[j].rich@ == rich@
                },
        decreases n - i,
    {
        notifications.push(
            Notification { room: rooms[i].clone(), plain: plain.clone(), rich: rich.clone() },
        );
        i += 1;
    }
    RelayPlan { notifications, acknowledge: true }
}

/// The plan for a classified request event, as [`relay_build`] plans builds.
pub fn relay_request(
    registry: &SubscriptionRegistry,
    details: &ConnectionDetails,
    kind: RequestKind,
    ev: &RequestEvent,
) -> (plan: RelayPlan)
    requires
        registry.wf(),
    ensures
        request_plan_matches(plan, *registry, *details, kind, *ev),
{
    let key = SubscriptionKey::Request { number: u64_to_string(ev.number) };
    proof {
        assert(key@ == request_key_view(*ev));
    }
    let rooms = registry.lookup(&key);
    let plain = format_request_plain(kind, ev);
    let rich = format_request_rich(details, kind, ev);
    let mut notifications: Vec<Notification> = Vec::new();
    let n = rooms.len();
    let mut i: usize = 0;
    while i < n
        invariant
            i <= n == rooms@.len(),
            rooms.deep_view() == registry.rooms(request_key_view(*ev)),
            plain@ == request_plain_spec(kind, *ev),
            rich@ == request_rich_spec(*details, kind, *ev),
            notifications@.len() == i,
            forall|j: int|
                0 <= j < i ==> {
                    &&& (#[trigger] notifications@[j]).room@ == rooms.deep_view()[j]
                    &&& notifications@[j].plain@ == plain@
                    &&& notifications@[j].rich@ == rich@
                },
        decreases n - i,
    {
        notifications.push(
            Notification { room: rooms[i].clone(), plain: plain.clone(), rich: rich.clone() },
        );
        i += 1;
    }
    RelayPlan { notifications, acknowledge: true }
}

/// Law: relaying an event whose key nothing has subscribed to plans zero
/// sends and still acknowledges the delivery.
pub proof fn lemma_relay_unsubscribed(
    plan: RelayPlan,
    registry: SubscriptionRegistry,
    details: ConnectionDetails,
    kind: BuildKind,
    ev: BuildEvent,
)
    requires
        !registry.contains_key(build_key_view(ev)),
        build_plan_matches(plan, registry, details, kind, ev),
    ensures
        plan.notifications@.len() == 0,
        plan.acknowledge,
{
    registry.lemma_unsubscribed_rooms_empty(build_key_view(ev));
}

/// Law: relaying a request event whose key nothing has subscribed to plans
/// zero sends and still acknowledges the delivery.
pub proof fn lemma_relay_request_unsubscribed(
    plan: RelayPlan,
    registry: SubscriptionRegistry,
    details: ConnectionDetails,
    kind: RequestKind,
    ev: RequestEvent,
)
    requires
        !registry.contains_key(request_key_view(ev)),
        request_plan_matches(plan, registry, details, kind, ev),
    ensures
        plan.notifications@.len() == 0,
        plan.acknowledge,
{
    registry.lemma_unsubscribed_rooms_empty(request_key_view(ev));
}

/// How a build delivery was handled: relayed under a plan, or refused with
/// the delivery left unacknowledged.
pub enum BuildDeliveryOutcome {
    Relayed { kind: BuildKind, event: BuildEvent, plan: RelayPlan },
    Refused { error: EventError },
}

/// How a request delivery was handled.
pub enum RequestDeliveryOutcome {
    Relayed { kind: RequestKind, event: RequestEvent, plan: RelayPlan },
    Refused { error: EventError },
}

/// Handle one build delivery: classify the routing key, parse the payload,
/// and plan the relay. The delivery is relayed — and so acknowledged —
/// exactly when the routing key classifies and the payload parses; the
/// outcome then carries the payload's event and the exact plan for it. An
/// unknown routing key is refused naming it, and each payload failure is
/// refused with its own error, the delivery left unacknowledged.
pub fn handle_build_delivery(
    registry: &SubscriptionRegistry,
    details: &ConnectionDetails,
    routing_key: &str,
    payload: &[u8],
) -> (r: BuildDeliveryOutcome)
    requires
        registry.wf(),
    ensures
        classify_build_spec(routing_key@) is Some ==> (r is Relayed <==> build_payload_parses(
            payload@,
        )),
        classify_build_spec(routing_key@) is None <==> (r matches BuildDeliveryOutcome::Refused {
            error,
        } && error is UnknownRoutingKey),
        r matches BuildDeliveryOutcome::Refused {
            error: EventError::UnknownRoutingKey { routing_key: k },
        } ==> k@ == routing_key@,
        classify_build_spec(routing_key@) is Some && !valid_utf8(payload@) ==> (r matches
            BuildDeliveryOutcome::Refused { error } && error is PayloadNotUtf8),
        classify_build_spec(routing_key@) is Some && valid_utf8(payload@) && !payload_wellformed(
            payload@,
        ) ==> (r matches BuildDeliveryOutcome::Refused { error } && error is PayloadMalformed),
        classify_build_spec(routing_key@) is Some && payload_wellformed(payload@)
            && !build_payload_parses(payload@) ==> (r matches BuildDeliveryOutcome::Refused {
            error,
        } && error is MissingField),
        r matches BuildDeliveryOutcome::Relayed { kind, event, plan } ==> {
            &&& classify_build_spec(routing_key@) == Some(kind)
            &&& build_event_matches_payload(event, payload@)
            &&& build_plan_matches(plan, *registry, *details, kind, event)
        },
{
    let kind = match classify_build(routing_key) {
        Ok(k) => k,
        Err(e) => {
            return BuildDeliveryOutcome::Refused { error: e };
        },
    };
    let event = match parse_build_event(payload) {
        Ok(ev) => ev,
        Err(e) => {
            return BuildDeliveryOutcome::Refused { error: e };
        },
    };
    let plan = relay_build(registry, details, kind, &event);
    BuildDeliveryOutcome::Relayed { kind, event, plan }
}

/// Handle one request delivery, as [`handle_build_delivery`] handles builds.
pub fn handle_request_delivery(
    registry: &SubscriptionRegistry,
    details: &ConnectionDetails,
    routing_key: &str,
    payload: &[u8],
) -> (r: RequestDeliveryOutcome)
    requires
        registry.wf(),
    ensures
        classify_request_spec(routing_key@) is Some ==> (r is Relayed <==> request_payload_parses(
            payload@,
        )),
        classify_request_spec(routing_key@) is None <==> (r matches
            RequestDeliveryOutcome::Refused { error } && error is UnknownRoutingKey),
        r matches RequestDeliveryOutcome::Refused {
            error: EventError::UnknownRoutingKey { routing_key: k },
        } ==> k@ == routing_key@,
        classify_request_spec(routing_key@) is Some && !valid_utf8(payload@) ==> (r matches
            RequestDeliveryOutcome::Refused { error } && error is PayloadNotUtf8),
        classify_request_spec(routing_key@) is Some && valid_utf8(payload@)
            && !payload_wellformed(payload@) ==> (r matches RequestDeliveryOutcome::Refused {
            error,
        } && error is PayloadMalformed),
        classify_request_spec(routing_key@) is Some && payload_wellformed(payload@)
            && !request_payload_parses(payload@) ==> (r matches RequestDeliveryOutcome::Refused {
            error,
        } && error is MissingField),
        r matches RequestDeliveryOutcome::Relayed { kind, event, plan } ==> {
            &&& classify_request_spec(routing_key@) == Some(kind)
            &&& request_event_matches_payload(event, payload@)
            &&& request_plan_matches(plan, *registry, *details, kind, event)
        },
{
    let kind = match classify_request(routing_key) {
        Ok(k) => k,
        Err(e) => {
            return RequestDeliveryOutcome::Refused { error: e };
        },
    };
    let event = match parse_request_event(payload) {
        Ok(ev) => ev,
        Err(e) => {
            return RequestDeliveryOutcome::Refused { error: e };
        },
    };
    let plan = relay_request(registry, details, kind, &event);
    RequestDeliveryOutcome::Relayed { kind, event, plan }
}

/// The routing-key patterns one build queue is bound with: the two literal
/// build suffixes, without a scope prefix.
pub fn build_binding_patterns() -> (r: Vec<String>)
    ensures
        r.deep_view() == seq!["obs.package.build_success"@, "obs.package.build_fail"@],
{
    let mut r: Vec<String> = Vec::new();
    r.push("obs.package.build_success".to_owned());
    r.push("obs.package.build_fail".to_owned());
    proof {
        assert(r.deep_view() =~~= seq![
            "obs.package.build_success"@,
            "obs.package.build_fail"@,
        ]);
    }
    r
}

/// The routing-key patterns one request queue is bound with: the server's
/// scope, a dot, then each request suffix.
pub fn request_binding_patterns(details: &ConnectionDetails) -> (r: Vec<String>)
    ensures
        r.deep_view() == seq![
            details.rabbitscope@ + ".obs.request.change"@,
            details.rabbitscope@ + ".obs.request.state_change"@,
            details.rabbitscope@ + ".obs.request.delete"@,
        ],
{
    let mut r: Vec<String> = Vec::new();
    let mut a = details.rabbitscope.clone();
    a.append(".obs.request.change");
    r.push(a);
    let mut b = details.rabbitscope.clone();
    b.append(".obs.request.state_change");
    r.push(b);
    let mut c = details.rabbitscope.clone();
    c.append(".obs.request.delete");
    r.push(c);
    proof {
        assert(r.deep_view() =~~= seq![
            details.rabbitscope@ + ".obs.request.change"@,
            details.rabbitscope@ + ".obs.request.state_change"@,
            details.rabbitscope@ + ".obs.request.delete"@,
        ]);
    }
    r
}

} // verus!
