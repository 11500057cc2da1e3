use obs_relay::commands::{build_command_action, request_command_action, CommandAction};
use obs_relay::general_help_str;
use obs_relay::help::help_reply;
use obs_relay::notify::{package_show_url, request_show_url};
use obs_relay::registry::SubscriptionKey;
use obs_relay::ConnectionDetails;

fn details() -> ConnectionDetails {
    ConnectionDetails {
        domain: "opensuse.org".to_string(),
        login: "user:pass".to_string(),
        buildprefix: "build".to_string(),
        rabbitprefix: "rabbit".to_string(),
        rabbitscope: "opensuse".to_string(),
    }
}

#[test]
fn package_url_parses_back_to_its_key() {
    let d = details();
    let url = package_show_url(&d, "myproj", "mypkg");
    assert_eq!(url, "https://build.opensuse.org/package/show/myproj/mypkg");
    match build_command_action(&url) {
        CommandAction::Subscribe { key: SubscriptionKey::Build { project, package } } => {
            assert_eq!(project, "myproj");
            assert_eq!(package, "mypkg");
        },
        _ => panic!("expected a build subscription"),
    }
}

#[test]
fn package_url_with_interior_whitespace_parses_back() {
    let d = details();
    let url = package_show_url(&d, "my proj", "mypkg");
    match build_command_action(&url) {
        CommandAction::Subscribe { key: SubscriptionKey::Build { project, package } } => {
            assert_eq!(project, "my proj");
            assert_eq!(package, "mypkg");
        },
        _ => panic!("expected a build subscription"),
    }
}

#[test]
fn request_url_parses_back_to_its_number() {
    let d = details();
    let url = request_show_url(&d, 9001);
    assert_eq!(url, "https://build.opensuse.org/request/show/9001");
    match request_command_action("opensuse.org", &url) {
        CommandAction::Subscribe { key: SubscriptionKey::Request { number } } => {
            assert_eq!(number, "9001");
        },
        _ => panic!("expected a request subscription"),
    }
}

#[test]
fn help_text_lists_the_commands() {
    assert_eq!(
        general_help_str(),
        "Hi, I'm a friendly robot and provide these options:\n!help         - Print this help\n!help COMMAND - Print add. help for one of the commands below\n"
    );
}

#[test]
fn help_reply_depends_on_word_count() {
    assert_eq!(help_reply(""), general_help_str());
    assert_eq!(help_reply("   "), general_help_str());
    assert_eq!(help_reply("roll"), "Sorry, unknown command");
    assert_eq!(
        help_reply("roll the dice"),
        "Sorry, that is not possible. Please use \"!help\" or \"!help COMMAND\" for more information."
    );
}
