use obs_relay::classify::{classify_build, classify_request};
use obs_relay::events::{BuildKind, EventError, RequestKind};
use obs_relay::registry::{SubscriptionKey, SubscriptionRegistry};
use obs_relay::relay::{
    build_binding_patterns, handle_build_delivery, handle_request_delivery,
    request_binding_patterns, BuildDeliveryOutcome, RequestDeliveryOutcome,
};
use obs_relay::ConnectionDetails;

fn details() -> ConnectionDetails {
    ConnectionDetails {
        domain: "opensuse.org".to_string(),
        login: "user:pass".to_string(),
        buildprefix: "build".to_string(),
        rabbitprefix: "rabbit".to_string(),
        rabbitscope: "opensuse".to_string(),
    }
}

const BUILD_PAYLOAD: &str = "{\"arch\":\"x86_64\",\"repository\":\"openSUSE_Factory\",\"package\":\"mypkg\",\"project\":\"myproj\",\"reason\":\"new build\"}";

#[test]
fn classifier_reads_suffixes() {
    assert_eq!(
        classify_build("opensuse.obs.package.build_success").unwrap(),
        BuildKind::Succeeded
    );
    assert_eq!(classify_build("suse.obs.package.build_fail").unwrap(), BuildKind::Failed);
    assert_eq!(
        classify_request("opensuse.obs.request.change").unwrap(),
        RequestKind::ChangedByAdmin
    );
    assert_eq!(
        classify_request("opensuse.obs.request.state_change").unwrap(),
        RequestKind::StateChanged
    );
    assert_eq!(classify_request("opensuse.obs.request.delete").unwrap(), RequestKind::Deleted);
}

#[test]
fn unknown_routing_key_is_refused_and_not_acknowledged() {
    let registry = SubscriptionRegistry::new();
    let d = details();
    let outcome = handle_build_delivery(
        &registry,
        &d,
        "opensuse.obs.package.something_else",
        BUILD_PAYLOAD.as_bytes(),
    );
    match outcome {
        BuildDeliveryOutcome::Refused { error: EventError::UnknownRoutingKey { routing_key } } => {
            assert_eq!(routing_key, "opensuse.obs.package.something_else");
        },
        _ => panic!("expected a classification refusal"),
    }
}

#[test]
fn build_delivery_fans_out_to_every_subscribed_room() {
    let mut registry = SubscriptionRegistry::new();
    let key = || SubscriptionKey::Build {
        project: "myproj".to_string(),
        package: "mypkg".to_string(),
    };
    registry.subscribe(key(), "!a:example.org".to_string());
    registry.subscribe(key(), "!b:example.org".to_string());
    let d = details();
    let outcome = handle_build_delivery(
        &registry,
        &d,
        "opensuse.obs.package.build_success",
        BUILD_PAYLOAD.as_bytes(),
    );
    let plan = match outcome {
        BuildDeliveryOutcome::Relayed { kind, event, plan } => {
            assert_eq!(kind, BuildKind::Succeeded);
            assert_eq!(event.project, "myproj");
            assert_eq!(event.repository, "openSUSE_Factory");
            assert_eq!(event.reason.as_deref(), Some("new build"));
            assert_eq!(event.srcmd5, None);
            plan
        },
        _ => panic!("expected a relayed delivery"),
    };
    assert!(plan.acknowledge);
    assert_eq!(plan.notifications.len(), 2);
    assert_eq!(plan.notifications[0].room, "!a:example.org");
    assert_eq!(plan.notifications[1].room, "!b:example.org");
    for n in &plan.notifications {
        assert_eq!(n.plain, "Build succeeded: myproj/mypkg (x86_64 / openSUSE_Factory)");
        assert_eq!(
            n.rich,
            "<strong>Build succeeded</strong>: <a href=https://build.opensuse.org/package/show/myproj/mypkg>myproj/mypkg</a> (x86_64 / openSUSE_Factory)"
        );
    }
}

#[test]
fn failed_build_is_underlined() {
    let mut registry = SubscriptionRegistry::new();
    registry.subscribe(
        SubscriptionKey::Build { project: "myproj".to_string(), package: "mypkg".to_string() },
        "!a:example.org".to_string(),
    );
    let d = details();
    let outcome = handle_build_delivery(
        &registry,
        &d,
        "opensuse.obs.package.build_fail",
        BUILD_PAYLOAD.as_bytes(),
    );
    match outcome {
        BuildDeliveryOutcome::Relayed { plan, .. } => {
            assert_eq!(
                plan.notifications[0].plain,
                "Build failed: myproj/mypkg (x86_64 / openSUSE_Factory)"
            );
            assert_eq!(
                plan.notifications[0].rich,
                "<strong>Build <u>failed</u></strong>: <a href=https://build.opensuse.org/package/show/myproj/mypkg>myproj/mypkg</a> (x86_64 / openSUSE_Factory)"
            );
        },
        _ => panic!("expected a relayed delivery"),
    }
}

#[test]
fn unsubscribed_build_event_plans_zero_sends_and_acknowledges() {
    let registry = SubscriptionRegistry::new();
    let d = details();
    let outcome = handle_build_delivery(
        &registry,
        &d,
        "opensuse.obs.package.build_success",
        BUILD_PAYLOAD.as_bytes(),
    );
    match outcome {
        BuildDeliveryOutcome::Relayed { plan, .. } => {
            assert!(plan.notifications.is_empty());
            assert!(plan.acknowledge);
        },
        _ => panic!("expected a relayed delivery"),
    }
}

#[test]
fn payload_errors_are_told_apart() {
    let registry = SubscriptionRegistry::new();
    let d = details();
    let not_utf8 = handle_build_delivery(
        &registry,
        &d,
        "opensuse.obs.package.build_success",
        &[0xff, 0xfe, 0x01],
    );
    assert!(matches!(
        not_utf8,
        BuildDeliveryOutcome::Refused { error: EventError::PayloadNotUtf8 }
    ));
    let malformed = handle_build_delivery(
        &registry,
        &d,
        "opensuse.obs.package.build_success",
        b"{\"project\": unclosed",
    );
    assert!(matches!(
        malformed,
        BuildDeliveryOutcome::Refused { error: EventError::PayloadMalformed }
    ));
    let missing = handle_build_delivery(
        &registry,
        &d,
        "opensuse.obs.package.build_success",
        b"{\"project\":\"p\",\"package\":\"k\",\"arch\":\"a\"}",
    );
    match missing {
        BuildDeliveryOutcome::Refused { error: EventError::MissingField { field } } => {
            assert_eq!(field, "repository");
        },
        _ => panic!("expected a missing-field refusal"),
    }
}

#[test]
fn request_delivery_formats_number_state_and_comment() {
    let mut registry = SubscriptionRegistry::new();
    registry.subscribe(
        SubscriptionKey::Request { number: "42".to_string() },
        "!r:example.org".to_string(),
    );
    let d = details();
    let payload = "{\"number\":42,\"state\":\"accepted\",\"comment\":\"ok then\"}";
    let outcome = handle_request_delivery(
        &registry,
        &d,
        "opensuse.obs.request.state_change",
        payload.as_bytes(),
    );
    match outcome {
        RequestDeliveryOutcome::Relayed { kind, event, plan } => {
            assert_eq!(kind, RequestKind::StateChanged);
            assert_eq!(event.number, 42);
            assert!(plan.acknowledge);
            assert_eq!(plan.notifications.len(), 1);
            assert_eq!(plan.notifications[0].room, "!r:example.org");
            assert_eq!(plan.notifications[0].plain, "Request 42 was changed: accepted (ok then)");
            assert_eq!(
                plan.notifications[0].rich,
                "<a href=https://build.opensuse.org/request/show/42>Request 42</a> was changed: <strong>accepted</strong> (ok then)"
            );
        },
        _ => panic!("expected a relayed delivery"),
    }
}

#[test]
fn request_without_comment_reads_empty() {
    let mut registry = SubscriptionRegistry::new();
    registry.subscribe(
        SubscriptionKey::Request { number: "7".to_string() },
        "!r:example.org".to_string(),
    );
    let d = details();
    let payload = "{\"number\":7,\"state\":\"revoked\"}";
    let outcome = handle_request_delivery(
        &registry,
        &d,
        "suse.obs.request.delete",
        payload.as_bytes(),
    );
    match outcome {
        RequestDeliveryOutcome::Relayed { plan, .. } => {
            assert_eq!(plan.notifications[0].plain, "Request 7 was deleted: revoked ()");
        },
        _ => panic!("expected a relayed delivery"),
    }
}

#[test]
fn request_number_must_be_an_integer() {
    let registry = SubscriptionRegistry::new();
    let d = details();
    let payload = "{\"number\":\"42\",\"state\":\"accepted\"}";
    let outcome = handle_request_delivery(
        &registry,
        &d,
        "opensuse.obs.request.change",
        payload.as_bytes(),
    );
    match outcome {
        RequestDeliveryOutcome::Refused { error: EventError::MissingField { field } } => {
            assert_eq!(field, "number");
        },
        _ => panic!("expected a missing-field refusal"),
    }
}

#[test]
fn binding_patterns_follow_each_category() {
    let d = details();
    assert_eq!(
        build_binding_patterns(),
        vec![
            "obs.package.build_success".to_string(),
            "obs.package.build_fail".to_string(),
        ]
    );
    assert_eq!(
        request_binding_patterns(&d),
        vec![
            "opensuse.obs.request.change".to_string(),
            "opensuse.obs.request.state_change".to_string(),
            "opensuse.obs.request.delete".to_string(),
        ]
    );
}
