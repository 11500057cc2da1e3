//! The subscription command handler: reading a chat message as a request to
//! subscribe the room it arrived on, and the laws tying the keys it derives
//! to the links the formatter embeds.

use vstd::prelude::*;

use crate::notify::{package_show_url_spec, request_show_url_spec};
use crate::registry::{KeyView, SubscriptionKey};
use crate::text::{dec_rep, has_substring, is_dec_digit, is_space, lemma_dec_rep_digits,
    lemma_split_on_no_sep, lemma_split_on_nonempty, lemma_split_on_tail_two, lemma_trim_spotless,
    split_char, split_on, str_contains, trim_spec, trim_str};
use crate::ConnectionDetails;

verus! {

/// What a handler does with one chat message: nothing (other handlers may
/// still match it), a usage-error reply, or a subscription of the room.
pub enum CommandAction {
    NotForMe,
    UsageError,
    Subscribe { key: SubscriptionKey },
}

/// The mathematical value of a command action.
pub enum ActionView {
    NotForMe,
    UsageError,
    Subscribe { key: KeyView },
}

impl View for CommandAction {
    type V = ActionView;

    open spec fn view(&self) -> ActionView {
        match self {
            CommandAction::NotForMe => ActionView::NotForMe,
            CommandAction::UsageError => ActionView::UsageError,
            CommandAction::Subscribe { key } => ActionView::Subscribe { key: key@ },
        }
    }
}

/// What a build-subscription handler does with a message: any message of at
/// least two slash-delimited segments subscribes the room to the pair of the
/// two right-most segments, trimmed, as project and package; anything else
/// is left to other handlers.
pub open spec fn build_action_spec(body: Seq<char>) -> ActionView {
    let parts = split_on(body, '/');
    if parts.len() < 2 {
        ActionView::NotForMe
    } else {
        ActionView::Subscribe {
            key: KeyView::Build {
                project: trim_spec(parts[parts.len() - 2]),
                package: trim_spec(parts[parts.len() - 1]),
            },
        }
    }
}

/// The fragment a message must contain to address a server's
/// request-subscription handler.
pub open spec fn request_pattern_spec(domain: Seq<char>) -> Seq<char> {
    domain + "/request/"@
}

/// What a request-subscription handler does with a message: a message
/// without the server's request fragment is left to other handlers; one with
/// it but fewer than three slash-delimited segments earns a usage-error
/// reply; otherwise the room is subscribed to the right-most segment,
/// trimmed, as the request number.
pub open spec fn request_action_spec(domain: Seq<char>, body: Seq<char>) -> ActionView {
    if !has_substring(body, request_pattern_spec(domain)) {
        ActionView::NotForMe
    } else {
        let parts = split_on(body, '/');
        if parts.len() < 3 {
            ActionView::UsageError
        } else {
            ActionView::Subscribe {
                key: KeyView::Request { number: trim_spec(parts[parts.len() - 1]) },
            }
        }
    }
}

/// Read one chat message for the build-subscription handler. A message
/// without any slash-delimited split (no separator at all) is never a
/// subscription and is passed on untouched.
pub fn build_command_action(body: &str) -> (r: CommandAction)
    ensures
        r@ == build_action_spec(body@),
        (forall|i: int| 0 <= i < body@.len() ==> body@[i] != '/') ==> r is NotForMe,
{
    proof {
        lemma_split_on_no_sep(body@, '/');
        lemma_split_on_nonempty(body@, '/');
    }
    let parts = split_char(body, '/');
    if parts.len() < 2 {
        CommandAction::NotForMe
    } else {
        let n = parts.len();
        let project = trim_str(parts[n - 2].as_str());
        let package = trim_str(parts[n - 1].as_str());
        proof {
            assert(parts@[n - 2]@ == parts.deep_view()[n - 2]);
            assert(parts@[n - 1]@ == parts.deep_view()[n - 1]);
        }
        CommandAction::Subscribe { key: SubscriptionKey::Build { project, package } }
    }
}

/// The request number a message's slash-delimited segments carry: the
/// right-most segment, trimmed; none when there are fewer than three
/// segments.
pub fn request_key_from_message(body: &str) -> (r: Option<String>)
    ensures
        ({
            let parts = split_on(body@, '/');
            if parts.len() < 3 {
                r is None
            } else {
                r matches Some(number) && number@ == trim_spec(parts[parts.len() - 1])
            }
        }),
{
    let parts = split_char(body, '/');
    if parts.len() < 3 {
        None
    } else {
        let n = parts.len();
        proof {
            assert(parts@[n - 1]@ == parts.deep_view()[n - 1]);
        }
        Some(trim_str(parts[n - 1].as_str()))
    }
}

/// Read one chat message for a server's request-subscription handler.
pub fn request_command_action(domain: &str, body: &str) -> (r: CommandAction)
    ensures
        r@ == request_action_spec(domain@, body@),
{
    let mut pattern = domain.to_owned();
    pattern.append("/request/");
    if !str_contains(body, pattern.as_str()) {
        return CommandAction::NotForMe;
    }
    match request_key_from_message(body) {
        Some(number) => CommandAction::Subscribe { key: SubscriptionKey::Request { number } },
        None => CommandAction::UsageError,
    }
}

/// The reply a room gets for a request-subscription message with too few
/// segments to carry a request number.
pub fn usage_error_reply() -> (r: String)
    ensures
        r@ == "Sorry, I could not parse that. Please post a submitrequest URL"@,
{
    "Sorry, I could not parse that. Please post a submitrequest URL".to_owned()
}

/// The reply a room gets when a subscription cannot be recorded because the
/// registry lock was lost.
pub fn internal_error_reply() -> (r: String)
    ensures
        r@
            == "Sorry, I could not add your request to the subscriptions, due to an internal error."@,
{
    "Sorry, I could not add your request to the subscriptions, due to an internal error.".to_owned()
}

/// Law: the package link a build notification embeds parses back, through
/// the build-subscription handler, to exactly the project and package it was
/// built from, for names free of the separator and without leading or
/// trailing whitespace (interior whitespace is kept, since trimming only
/// touches a segment's edges).
pub proof fn lemma_build_url_roundtrip(
    details: ConnectionDetails,
    project: Seq<char>,
    package: Seq<char>,
)
    requires
        forall|i: int| 0 <= i < project.len() ==> project[i] != '/',
        forall|i: int| 0 <= i < package.len() ==> package[i] != '/',
        trim_spec(project) == project,
        trim_spec(package) == package,
    ensures
        build_action_spec(package_show_url_spec(details, project, package)) == (
        ActionView::Subscribe { key: KeyView::Build { project, package } }),
{
    let url = package_show_url_spec(details, project, package);
    let prefix = "https://"@ + details.buildprefix@ + "."@ + details.domain@ + "/package/show"@;
    reveal_strlit("/package/show/");
    reveal_strlit("/package/show");
    reveal_strlit("/");
    assert("/package/show/"@ =~= "/package/show"@ + seq!['/']);
    assert("/"@ =~= seq!['/']);
    assert(url =~= prefix + seq!['/'] + project + seq!['/'] + package);
    lemma_split_on_tail_two(prefix, project, package, '/');
}

/// Law: the request link a request notification embeds parses back, through
/// the server's request-subscription handler, to exactly the decimal request
/// number it was built for.
pub proof fn lemma_request_url_roundtrip(details: ConnectionDetails, number: int)
    requires
        0 <= number,
    ensures
        request_action_spec(details.domain@, request_show_url_spec(details, number)) == (
        ActionView::Subscribe { key: KeyView::Request { number: dec_rep(number) } }),
{
    let url = request_show_url_spec(details, number);
    let head = "https://"@ + details.buildprefix@ + "."@;
    let pattern = request_pattern_spec(details.domain@);
    reveal_strlit("/request/show/");
    reveal_strlit("/request/");
    reveal_strlit("/request");
    reveal_strlit("show");
    assert(url =~= head + pattern + ("show/"@ + dec_rep(number))) by {
        reveal_strlit("show/");
        assert("/request/show/"@ =~= "/request/"@ + "show/"@);
    }
    assert(has_substring(url, pattern)) by {
        let i = head.len() as int;
        assert(url.subrange(i, i + pattern.len()) =~= pattern);
        assert(crate::text::has_substring_at(url, pattern, i));
    }
    let prefix = "https://"@ + details.buildprefix@ + "."@ + details.domain@ + "/request"@;
    assert(url =~= prefix + seq!['/'] + "show"@ + seq!['/'] + dec_rep(number)) by {
        assert("/request/show/"@ =~= "/request"@ + seq!['/'] + "show"@ + seq!['/']);
    }
    assert forall|i: int| 0 <= i < "show"@.len() implies "show"@[i] != '/' by {}
    lemma_dec_rep_digits(number);
    assert forall|i: int|
        0 <= i < dec_rep(number).len() implies dec_rep(number)[i] != '/' && !is_space(
        dec_rep(number)[i],
    ) by {
        assert(is_dec_digit(dec_rep(number)[i]));
    }
    lemma_split_on_tail_two(prefix, "show"@, dec_rep(number), '/');
    lemma_trim_spotless(dec_rep(number));
}

} // verus!
