//! The notification formatter: the exact plain and rich texts a classified
//! event is announced with, and the links the rich variant embeds.

use vstd::prelude::*;

use crate::events::{BuildEvent, BuildKind, RequestEvent, RequestKind};
use crate::text::{dec_rep, u64_to_string};
use crate::ConnectionDetails;

verus! {

/// The word the result of a build is reported with.
pub open spec fn build_result_word(kind: BuildKind) -> Seq<char> {
    match kind {
        BuildKind::Succeeded => "succeeded"@,
        BuildKind::Failed => "failed"@,
    }
}

/// The words a request change is reported with.
pub open spec fn request_change_word(kind: RequestKind) -> Seq<char> {
    match kind {
        RequestKind::ChangedByAdmin => "changed by admin"@,
        RequestKind::StateChanged => "changed"@,
        RequestKind::Deleted => "deleted"@,
    }
}

/// The link to a package on the server's build service.
pub open spec fn package_show_url_spec(
    details: ConnectionDetails,
    project: Seq<char>,
    package: Seq<char>,
) -> Seq<char> {
    "https://"@ + details.buildprefix@ + "."@ + details.domain@ + "/package/show/"@ + project
        + "/"@ + package
}

/// The link to a request on the server's build service.
pub open spec fn request_show_url_spec(details: ConnectionDetails, number: int) -> Seq<char> {
    "https://"@ + details.buildprefix@ + "."@ + details.domain@ + "/request/show/"@ + dec_rep(
        number,
    )
}

/// The plain text of a build notification.
pub open spec fn build_plain_spec(kind: BuildKind, ev: BuildEvent) -> Seq<char> {
    "Build "@ + build_result_word(kind) + ": "@ + ev.project@ + "/"@ + ev.package@ + " ("@
        + ev.arch@ + " / "@ + ev.repository@ + ")"@
}

/// The rich text of a build notification: the package linked to its page,
/// the result word underlined when the build failed.
pub open spec fn build_rich_spec(
    details: ConnectionDetails,
    kind: BuildKind,
    ev: BuildEvent,
) -> Seq<char> {
    "<strong>Build "@ + (match kind {
        BuildKind::Succeeded => "succeeded"@,
        BuildKind::Failed => "<u>failed</u>"@,
    }) + "</strong>: <a href="@ + package_show_url_spec(details, ev.project@, ev.package@) + ">"@
        + ev.project@ + "/"@ + ev.package@ + "</a> ("@ + ev.arch@ + " / "@ + ev.repository@ + ")"@
}

/// The plain text of a request notification; a missing comment reads empty.
pub open spec fn request_plain_spec(kind: RequestKind, ev: RequestEvent) -> Seq<char> {
    "Request "@ + dec_rep(ev.number as int) + " was "@ + request_change_word(kind) + ": "@
        + ev.state@ + " ("@ + (match ev.comment {
        Some(c) => c@,
        None => Seq::<char>::empty(),
    }) + ")"@
}

/// The rich text of a request notification: the request number linked to its
/// page, the state in bold.
pub open spec fn request_rich_spec(
    details: ConnectionDetails,
    kind: RequestKind,
    ev: RequestEvent,
) -> Seq<char> {
    "<a href="@ + request_show_url_spec(details, ev.number as int) + ">Request "@ + dec_rep(
        ev.number as int,
    ) + "</a> was "@ + request_change_word(kind) + ": <strong>"@ + ev.state@ + "</strong> ("@ + (
    match ev.comment {
        Some(c) => c@,
        None => Seq::<char>::empty(),
    }) + ")"@
}

/// The link to a package's page, as [`package_show_url_spec`] describes.
pub fn package_show_url(details: &ConnectionDetails, project: &str, package: &str) -> (r: String)
    ensures
        r@ == package_show_url_spec(*details, project@, package@),
{
    let mut r = "https://".to_owned();
    r.append(details.buildprefix.as_str());
    r.append(".");
    r.append(details.domain.as_str());
    r.append("/package/show/");
    r.append(project);
    r.append("/");
    r.append(package);
    proof {
        assert(r@ =~= package_show_url_spec(*details, project@, package@));
    }
    r
}

/// The link to a request's page, as [`request_show_url_spec`] describes.
pub fn request_show_url(details: &ConnectionDetails, number: u64) -> (r: String)
    ensures
        r@ == request_show_url_spec(*details, number as int),
{
    let mut r = "https://".to_owned();
    r.append(details.buildprefix.as_str());
    r.append(".");
    r.append(details.domain.as_str());
    r.append("/request/show/");
    let num = u64_to_string(number);
    r.append(num.as_str());
    proof {
        assert(r@ =~= request_show_url_spec(*details, number as int));
    }
    r
}

/// The plain text of a build notification, as [`build_plain_spec`] says.
pub fn format_build_plain(kind: BuildKind, ev: &BuildEvent) -> (r: String)
    ensures
        r@ == build_plain_spec(kind, *ev),
{
    let mut r = "Build ".to_owned();
    match kind {
        BuildKind::Succeeded => r.append("succeeded"),
        BuildKind::Failed => r.append("failed"),
    }
    r.append(": ");
    r.append(ev.project.as_str());
    r.append("/");
    r.append(ev.package.as_str());
    r.append(" (");
    r.append(ev.arch.as_str());
    r.append(" / ");
    r.append(ev.repository.as_str());
    r.append(")");
    proof {
        assert(r@ =~= build_plain_spec(kind, *ev));
    }
    r
}

/// The rich text of a build notification, as [`build_rich_spec`] says.
pub fn format_build_rich(details: &ConnectionDetails, kind: BuildKind, ev: &BuildEvent) -> (r:
    String)
    ensures
        r@ == build_rich_spec(*details, kind, *ev),
{
    let mut r = "<strong>Build ".to_owned();
    match kind {
        BuildKind::Succeeded => r.append("succeeded"),
        BuildKind::Failed => r.append("<u>failed</u>"),
    }
    r.append("</strong>: <a href=");
    let url = package_show_url(details, ev.project.as_str(), ev.package.as_str());
    r.append(url.as_str());
    r.append(">");
    r.append(ev.project.as_str());
    r.append("/");
    r.append(ev.package.as_str());
    r.append("</a> (");
    r.append(ev.arch.as_str());
    r.append(" / ");
    r.append(ev.repository.as_str());
    r.append(")");
    proof {
        assert(r@ =~= build_rich_spec(*details, kind, *ev));
    }
    r
}

/// The plain text of a request notification, as [`request_plain_spec`] says.
pub fn format_request_plain(kind: RequestKind, ev: &RequestEvent) -> (r: String)
    ensures
        r@ == request_plain_spec(kind, *ev),
{
    let mut r = "Request ".to_owned();
    let num = u64_to_string(ev.number);
    r.append(num.as_str());
    r.append(" was ");
    match kind {
        RequestKind::ChangedByAdmin => r.append("changed by admin"),
        RequestKind::StateChanged => r.append("changed"),
        RequestKind::Deleted => r.append("deleted"),
    }
    r.append(": ");
    r.append(ev.state.as_str());
    r.append(" (");
    match &ev.comment {
        Some(c) => r.append(c.as_str()),
        None => (),
    }
    r.append(")");
    proof {
        assert(r@ =~= request_plain_spec(kind, *ev));
    }
    r
}

/// The rich text of a request notification, as [`request_rich_spec`] says.
pub fn format_request_rich(details: &ConnectionDetails, kind: RequestKind, ev: &RequestEvent) -> (r:
    String)
    ensures
        r@ == request_rich_spec(*details, kind, *ev),
{
    let mut r = "<a href=".to_owned();
    let url = request_show_url(details, ev.number);
    r.append(url.as_str());
    r.append(">Request ");
    let num = u64_to_string(ev.number);
    r.append(num.as_str());
    r.append("</a> was ");
    match kind {
        RequestKind::ChangedByAdmin => r.append("changed by admin"),
        RequestKind::StateChanged => r.append("changed"),
        RequestKind::Deleted => r.append("deleted"),
    }
    r.append(": <strong>");
    r.append(ev.state.as_str());
    r.append("</strong> (");
    match &ev.comment {
        Some(c) => r.append(c.as_str()),
        None => (),
    }
    r.append(")");
    proof {
        assert(r@ =~= request_rich_spec(*details, kind, *ev));
    }
    r
}

} // verus!
