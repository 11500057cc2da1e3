use obs_relay::commands::{
    build_command_action, internal_error_reply, request_command_action, request_key_from_message,
    usage_error_reply, CommandAction,
};
use obs_relay::registry::{SubscriptionKey, SubscriptionRegistry};

#[test]
fn build_message_subscribes_room_to_pair() {
    let action = build_command_action("myproj/mypkg");
    let key = match action {
        CommandAction::Subscribe { key } => key,
        _ => panic!("expected a subscription"),
    };
    match &key {
        SubscriptionKey::Build { project, package } => {
            assert_eq!(project, "myproj");
            assert_eq!(package, "mypkg");
        },
        _ => panic!("expected a build key"),
    }
    let mut registry = SubscriptionRegistry::new();
    registry.subscribe(key, "!abc:example.org".to_string());
    let probe = SubscriptionKey::Build {
        project: "myproj".to_string(),
        package: "mypkg".to_string(),
    };
    assert_eq!(registry.lookup(&probe), vec!["!abc:example.org".to_string()]);
}

#[test]
fn request_message_takes_last_segment() {
    let number = request_key_from_message("a/b/c/42").expect("enough segments");
    assert_eq!(number, "42");
}

#[test]
fn build_message_without_slash_is_passed_on() {
    let action = build_command_action("no slashes here");
    assert!(matches!(action, CommandAction::NotForMe));
    let registry = SubscriptionRegistry::new();
    let probe = SubscriptionKey::Build {
        project: "no slashes here".to_string(),
        package: "".to_string(),
    };
    assert!(registry.lookup(&probe).is_empty());
}

#[test]
fn build_segments_are_trimmed() {
    let action = build_command_action("please watch/ myproj / mypkg ");
    match action {
        CommandAction::Subscribe { key: SubscriptionKey::Build { project, package } } => {
            assert_eq!(project, "myproj");
            assert_eq!(package, "mypkg");
        },
        _ => panic!("expected a build subscription"),
    }
}

#[test]
fn request_message_without_fragment_is_passed_on() {
    let action = request_command_action("opensuse.org", "myproj/mypkg");
    assert!(matches!(action, CommandAction::NotForMe));
}

#[test]
fn request_url_message_subscribes_number() {
    let action = request_command_action(
        "opensuse.org",
        "see https://build.opensuse.org/request/show/9001",
    );
    match action {
        CommandAction::Subscribe { key: SubscriptionKey::Request { number } } => {
            assert_eq!(number, "9001");
        },
        _ => panic!("expected a request subscription"),
    }
}

#[test]
fn reply_texts_are_fixed() {
    assert_eq!(
        usage_error_reply(),
        "Sorry, I could not parse that. Please post a submitrequest URL"
    );
    assert_eq!(
        internal_error_reply(),
        "Sorry, I could not add your request to the subscriptions, due to an internal error."
    );
}
