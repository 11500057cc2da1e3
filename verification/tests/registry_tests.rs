use obs_relay::registry::{SharedRegistry, SubscriptionKey, SubscriptionRegistry};

fn build_key(project: &str, package: &str) -> SubscriptionKey {
    SubscriptionKey::Build { project: project.to_string(), package: package.to_string() }
}

#[test]
fn lookup_of_unsubscribed_key_is_empty() {
    let registry = SubscriptionRegistry::new();
    let rooms = registry.lookup(&build_key("proj", "pkg"));
    assert!(rooms.is_empty());
}

#[test]
fn subscribe_preserves_insertion_order() {
    let mut registry = SubscriptionRegistry::new();
    registry.subscribe(build_key("proj", "pkg"), "!room1:example.org".to_string());
    registry.subscribe(build_key("proj", "pkg"), "!room2:example.org".to_string());
    let rooms = registry.lookup(&build_key("proj", "pkg"));
    assert_eq!(rooms, vec!["!room1:example.org".to_string(), "!room2:example.org".to_string()]);
}

#[test]
fn duplicate_subscription_is_kept() {
    let mut registry = SubscriptionRegistry::new();
    registry.subscribe(build_key("proj", "pkg"), "!dup:example.org".to_string());
    registry.subscribe(build_key("proj", "pkg"), "!dup:example.org".to_string());
    let rooms = registry.lookup(&build_key("proj", "pkg"));
    assert_eq!(rooms.len(), 2);
    assert_eq!(rooms[0], "!dup:example.org");
    assert_eq!(rooms[1], "!dup:example.org");
}

#[test]
fn shared_registry_keeps_order_behind_its_lock() {
    let registry = SharedRegistry::new();
    registry.subscribe(build_key("proj", "pkg"), "!one:example.org".to_string());
    registry.subscribe(build_key("proj", "pkg"), "!two:example.org".to_string());
    let rooms = registry.lookup(&build_key("proj", "pkg"));
    assert_eq!(rooms, vec!["!one:example.org".to_string(), "!two:example.org".to_string()]);
    assert!(registry.lookup(&build_key("proj", "other")).is_empty());
}

#[test]
fn distinct_keys_do_not_mix() {
    let mut registry = SubscriptionRegistry::new();
    registry.subscribe(build_key("proj", "pkg"), "!a:example.org".to_string());
    registry.subscribe(build_key("proj", "other"), "!b:example.org".to_string());
    registry.subscribe(
        SubscriptionKey::Request { number: "42".to_string() },
        "!c:example.org".to_string(),
    );
    assert_eq!(registry.lookup(&build_key("proj", "pkg")), vec!["!a:example.org".to_string()]);
    assert_eq!(registry.lookup(&build_key("proj", "other")), vec!["!b:example.org".to_string()]);
    let req = registry.lookup(&SubscriptionKey::Request { number: "42".to_string() });
    assert_eq!(req, vec!["!c:example.org".to_string()]);
    assert!(registry.lookup(&build_key("other", "pkg")).is_empty());
}
