//! The issue tracker as this crate sees it: the call that files an issue,
//! the reply that comes back, and the verdict on that reply.
//!
//! Nothing here touches the network. The caller sends a `TrackerCall` and
//! hands back what happened as a `TrackerReply`.

use crate::render::{issue_body, render_issue_body};
use crate::report::{FailureReportRequest, FailureReportView};
use vstd::prelude::*;

verus! {

/// Where issues are filed: one fixed repository.
pub const ISSUES_ENDPOINT: &'static str = "https://api.github.com/repos/block/goose/issues";

/// Stands before the credential in the authorization header.
pub const AUTHORIZATION_SCHEME: &'static str = "Bearer ";

/// How this client names itself to the tracker.
pub const CLIENT_IDENTIFIER: &'static str = "goose-server";

/// Asks the tracker for its JSON form of the issue.
pub const ACCEPTED_FORMAT: &'static str = "application/vnd.github.v3+json";

/// Stands before the client's title in the title of the issue.
pub const TITLE_TAG: &'static str = "[FAILURE REPORT] ";

pub const LABEL_BUG: &'static str = "bug";

pub const LABEL_NEEDS_TRIAGE: &'static str = "needs-triage";

pub const LABEL_FAILURE_REPORT: &'static str = "failure-report";

/// The issue to be filed.
#[derive(Debug, Clone, PartialEq, Eq)]
pub struct IssueRequest {
    pub title: String,
    pub body: String,
    pub labels: Vec<String>,
}

/// One call to the tracker: where it goes, its three headers, and the issue
/// it carries.
#[derive(Debug, Clone, PartialEq, Eq)]
pub struct TrackerCall {
    pub endpoint: String,
    pub authorization: String,
    pub user_agent: String,
    pub accept: String,
    pub issue: IssueRequest,
}

/// What came of a call.
#[derive(Debug, Clone, PartialEq, Eq)]
pub enum TrackerReply {
    /// No answer came: the call failed on the way.
    Unreachable { detail: String },
    /// The tracker answered. `issue_url` is the address of the new issue as
    /// the answer gives it, where it gives one.
    Answered { status: u16, body: String, issue_url: Option<String> },
}

/// Why a report did not reach the tracker. The client is never told which.
#[derive(Debug, Clone, PartialEq, Eq)]
pub enum RemoteFailure {
    /// No credential was configured, so no call was made.
    CredentialMissing,
    /// The call failed on the way.
    Transport { detail: String },
    /// The tracker answered with a status outside the successful range.
    Rejected { status: u16, body: String },
    /// The tracker answered with success but named no issue.
    UrlMissing { body: String },
}

pub ghost struct IssueRequestView {
    pub title: Seq<char>,
    pub body: Seq<char>,
    pub labels: Seq<Seq<char>>,
}

pub ghost struct TrackerCallView {
    pub endpoint: Seq<char>,
    pub authorization: Seq<char>,
    pub user_agent: Seq<char>,
    pub accept: Seq<char>,
    pub issue: IssueRequestView,
}

pub ghost enum TrackerReplyView {
    Unreachable { detail: Seq<char> },
    Answered { status: u16, body: Seq<char>, issue_url: Option<Seq<char>> },
}

pub ghost enum RemoteFailureView {
    CredentialMissing,
    Transport { detail: Seq<char> },
    Rejected { status: u16, body: Seq<char> },
    UrlMissing { body: Seq<char> },
}

impl View for IssueRequest {
    type V = IssueRequestView;

    open spec fn view(&self) -> IssueRequestView {
        IssueRequestView {
            title: self.title@,
            body: self.body@,
            labels: self.labels.deep_view(),
        }
    }
}

impl View for TrackerCall {
    type V = TrackerCallView;

    open spec fn view(&self) -> TrackerCallView {
        TrackerCallView {
            endpoint: self.endpoint@,
            authorization: self.authorization@,
            user_agent: self.user_agent@,
            accept: self.accept@,
            issue: self.issue@,
        }
    }
}

impl View for TrackerReply {
    type V = TrackerReplyView;

    open spec fn view(&self) -> TrackerReplyView {
        match self {
            TrackerReply::Unreachable { detail } => TrackerReplyView::Unreachable {
                detail: detail@,
            },
            TrackerReply::Answered { status, body, issue_url } => TrackerReplyView::Answered {
                status: *status,
                body: body@,
                issue_url: issue_url.deep_view(),
            },
        }
    }
}

impl View for RemoteFailure {
    type V = RemoteFailureView;

    open spec fn view(&self) -> RemoteFailureView {
        match self {
            RemoteFailure::CredentialMissing => RemoteFailureView::CredentialMissing,
            RemoteFailure::Transport { detail } => RemoteFailureView::Transport { detail: detail@ },
            RemoteFailure::Rejected { status, body } => RemoteFailureView::Rejected {
                status: *status,
                body: body@,
            },
            RemoteFailure::UrlMissing { body } => RemoteFailureView::UrlMissing { body: body@ },
        }
    }
}

/// The outcome of an attempt at remote delivery, as text: the address of
/// the issue, or why there is none.
pub open spec fn attempt_view(attempt: Result<String, RemoteFailure>) -> Result<
    Seq<char>,
    RemoteFailureView,
> {
    match attempt {
        Ok(url) => Ok(url@),
        Err(failure) => Err(failure@),
    }
}

/// The three labels that every filed issue carries, in this order.
pub open spec fn fixed_labels() -> Seq<Seq<char>> {
    seq![LABEL_BUG@, LABEL_NEEDS_TRIAGE@, LABEL_FAILURE_REPORT@]
}

/// The title of the issue: the tag, then the client's title.
pub open spec fn issue_title(title: Seq<char>) -> Seq<char> {
    TITLE_TAG@ + title
}

/// The issue that is filed for `r`.
pub open spec fn issue_for(r: FailureReportView) -> IssueRequestView {
    IssueRequestView { title: issue_title(r.title), body: issue_body(r), labels: fixed_labels() }
}

/// The call that files the issue for `r` under the credential `token`.
pub open spec fn call_for(token: Seq<char>, r: FailureReportView) -> TrackerCallView {
    TrackerCallView {
        endpoint: ISSUES_ENDPOINT@,
        authorization: AUTHORIZATION_SCHEME@ + token,
        user_agent: CLIENT_IDENTIFIER@,
        accept: ACCEPTED_FORMAT@,
        issue: issue_for(r),
    }
}

/// The statuses that mean the tracker took the issue.
pub open spec fn is_success_status(status: u16) -> bool {
    200 <= status < 300
}

/// The tracker answered, with a successful status, and named the new issue.
pub open spec fn names_new_issue(reply: TrackerReplyView) -> bool {
    &&& reply is Answered
    &&& is_success_status(reply->status)
    &&& reply->issue_url is Some
}

/// The verdict on a reply. Only an answer with a successful status that
/// names the new issue counts as delivery; everything else is a failure
/// that keeps the tracker's text for diagnosis.
pub open spec fn verdict(reply: TrackerReplyView) -> Result<Seq<char>, RemoteFailureView> {
    match reply {
        TrackerReplyView::Unreachable { detail } => Err(RemoteFailureView::Transport { detail }),
        TrackerReplyView::Answered { status, body, issue_url } => {
            if !is_success_status(status) {
                Err(RemoteFailureView::Rejected { status, body })
            } else {
                match issue_url {
                    Some(url) => Ok(url),
                    None => Err(RemoteFailureView::UrlMissing { body }),
                }
            }
        },
    }
}

/// The three fixed labels.
pub fn labels() -> (labels: Vec<String>)
    ensures
        labels.deep_view() == fixed_labels(),
{
    let mut labels: Vec<String> = Vec::new();
    labels.push(String::from_str(LABEL_BUG));
    labels.push(String::from_str(LABEL_NEEDS_TRIAGE));
    labels.push(String::from_str(LABEL_FAILURE_REPORT));
    labels
}

/// The issue that is filed for `report`.
pub fn build_issue(report: &FailureReportRequest) -> (issue: IssueRequest)
    ensures
        issue@ == issue_for(report@),
{
    let mut title = String::from_str(TITLE_TAG);
    title.append(report.title.as_str());
    IssueRequest { title, body: render_issue_body(report), labels: labels() }
}

/// The call that files the issue for `report` under the credential
/// `token`. The credential is used as it is given: nothing checks it ahead
/// of the call.
pub fn build_call(token: &str, report: &FailureReportRequest) -> (call: TrackerCall)
    ensures
        call@ == call_for(token@, report@),
{
    let mut authorization = String::from_str(AUTHORIZATION_SCHEME);
    authorization.append(token);
    TrackerCall {
        endpoint: String::from_str(ISSUES_ENDPOINT),
        authorization,
        user_agent: String::from_str(CLIENT_IDENTIFIER),
        accept: String::from_str(ACCEPTED_FORMAT),
        issue: build_issue(report),
    }
}

/// Judges a reply: the address of the new issue, or why the report counts
/// as not delivered. The address is the one the answer gave, unchanged.
pub fn judge_reply(reply: TrackerReply) -> (attempt: Result<String, RemoteFailure>)
    ensures
        attempt_view(attempt) == verdict(reply@),
        attempt is Ok <==> names_new_issue(reply@),
        attempt matches Ok(url) ==> reply@->issue_url == Some(url@),
{
    match reply {
        TrackerReply::Unreachable { detail } => Err(RemoteFailure::Transport { detail }),
        TrackerReply::Answered { status, body, issue_url } => {
            if status < 200 || status >= 300 {
                Err(RemoteFailure::Rejected { status, body })
            } else {
                match issue_url {
                    Some(url) => Ok(url),
                    None => Err(RemoteFailure::UrlMissing { body }),
                }
            }
        },
    }
}

} // verus!
