//! Delivery of one report: try the tracker where one is configured, fall
//! back to the local log where that fails, and compose the answer.
//!
//! A delivery that goes to the tracker is in one of three states. It starts
//! out attempting remote delivery and ends either delivered or fallen back;
//! both ends are final, and nothing is tried twice. Where no tracker is
//! configured, the delivery ends at once with the report logged. The
//! network is the caller's business: `begin` says whether a call is to be
//! made, and `conclude` takes what came of it.

use crate::fallback::{
    fallback_line, lemma_record_holds_report_texts, log_failure_report_locally,
    record_after_description, record_before_description,
};
use crate::report::{FailureReportRequest, FailureReportResponse, FailureReportView, ResponseView};
use crate::text::occurs_in;
use crate::tracker::{
    attempt_view, build_call, call_for, is_success_status, judge_reply, names_new_issue, verdict,
    RemoteFailure, RemoteFailureView, TrackerCall, TrackerCallView, TrackerReply,
    TrackerReplyView,
};
use vstd::prelude::*;

verus! {

/// Told to the client whose report was filed.
pub const MESSAGE_SUBMITTED: &'static str = "Failure report submitted automatically";

/// Told to the client whose report could not be filed.
pub const MESSAGE_REPORT_MANUALLY: &'static str =
    "The failure report could not be submitted automatically. Please report the issue manually.";

/// Told to the client where reports are only logged.
pub const MESSAGE_LOGGED: &'static str = "Failure report logged successfully";

/// Where reports go.
#[derive(Debug, Clone, PartialEq, Eq)]
pub enum Sink {
    /// No tracker is configured: every report is logged, and that counts as
    /// success.
    LogOnly,
    /// Reports are filed with the tracker under `credential`, as it was
    /// found when the report came in.
    Tracker { credential: Option<String> },
}

/// How a delivery ended.
#[derive(Debug, Clone, PartialEq, Eq)]
pub enum Outcome {
    /// The tracker took the report and named the issue.
    Delivered,
    /// The tracker did not take the report, which was logged instead.
    FallenBack { cause: RemoteFailure },
    /// No tracker is configured, and the report was logged.
    Logged,
}

/// A finished delivery: how it ended, what the client is told, and the line
/// to be logged, where there is one.
#[derive(Debug, Clone, PartialEq, Eq)]
pub struct Submission {
    pub outcome: Outcome,
    pub response: FailureReportResponse,
    pub log_line: Option<String>,
}

/// What the caller is to do next.
#[derive(Debug, Clone, PartialEq, Eq)]
pub enum Step {
    /// Make this call and hand the reply to `conclude`.
    Post(TrackerCall),
    /// Log the line, where there is one, and answer the client.
    Finish(Submission),
}

pub ghost enum SinkView {
    LogOnly,
    Tracker { credential: Option<Seq<char>> },
}

pub ghost enum OutcomeView {
    Delivered,
    FallenBack { cause: RemoteFailureView },
    Logged,
}

pub ghost struct SubmissionView {
    pub outcome: OutcomeView,
    pub response: ResponseView,
    pub log_line: Option<Seq<char>>,
}

pub ghost enum StepView {
    Post(TrackerCallView),
    Finish(SubmissionView),
}

impl View for Sink {
    type V = SinkView;

    open spec fn view(&self) -> SinkView {
        match self {
            Sink::LogOnly => SinkView::LogOnly,
            Sink::Tracker { credential } => SinkView::Tracker {
                credential: credential.deep_view(),
            },
        }
    }
}

impl View for Outcome {
    type V = OutcomeView;

    open spec fn view(&self) -> OutcomeView {
        match self {
            Outcome::Delivered => OutcomeView::Delivered,
            Outcome::FallenBack { cause } => OutcomeView::FallenBack { cause: cause@ },
            Outcome::Logged => OutcomeView::Logged,
        }
    }
}

impl View for Submission {
    type V = SubmissionView;

    open spec fn view(&self) -> SubmissionView {
        SubmissionView {
            outcome: self.outcome@,
            response: self.response@,
            log_line: self.log_line.deep_view(),
        }
    }
}

impl View for Step {
    type V = StepView;

    open spec fn view(&self) -> StepView {
        match self {
            Step::Post(call) => StepView::Post(call@),
            Step::Finish(done) => StepView::Finish(done@),
        }
    }
}

impl SubmissionView {
    /// What holds of every finished delivery: the answer is one of the
    /// three this crate gives; an issue address goes with delivery and with
    /// nothing else; success is denied exactly where the tracker failed;
    /// and a line is logged exactly where the report was not delivered.
    pub open spec fn well_formed(self) -> bool {
        &&& self.response.well_formed()
        &&& self.outcome is Delivered <==> self.response.issue_url is Some
        &&& self.outcome is FallenBack <==> !self.response.success
        &&& self.outcome is Delivered <==> self.log_line is None
        &&& self.response.message == match self.outcome {
            OutcomeView::Delivered => MESSAGE_SUBMITTED@,
            OutcomeView::FallenBack { .. } => MESSAGE_REPORT_MANUALLY@,
            OutcomeView::Logged => MESSAGE_LOGGED@,
        }
    }
}

/// The delivery that ends with the issue at `url`: success, the address,
/// and nothing to log.
pub open spec fn delivered(url: Seq<char>) -> SubmissionView {
    SubmissionView {
        outcome: OutcomeView::Delivered,
        response: ResponseView {
            success: true,
            message: MESSAGE_SUBMITTED@,
            issue_url: Some(url),
        },
        log_line: None,
    }
}

/// The delivery that fell back for `cause`: no success, no address, and the
/// record of `r` to log.
pub open spec fn fallen_back(r: FailureReportView, cause: RemoteFailureView) -> SubmissionView {
    SubmissionView {
        outcome: OutcomeView::FallenBack { cause },
        response: ResponseView {
            success: false,
            message: MESSAGE_REPORT_MANUALLY@,
            issue_url: None,
        },
        log_line: Some(fallback_line(r)),
    }
}

/// The delivery where no tracker is configured: success, no address, and
/// the record of `r` to log.
pub open spec fn logged(r: FailureReportView) -> SubmissionView {
    SubmissionView {
        outcome: OutcomeView::Logged,
        response: ResponseView { success: true, message: MESSAGE_LOGGED@, issue_url: None },
        log_line: Some(fallback_line(r)),
    }
}

/// How the delivery of `r` ends after an attempt at the tracker.
pub open spec fn settled(
    r: FailureReportView,
    attempt: Result<Seq<char>, RemoteFailureView>,
) -> SubmissionView {
    match attempt {
        Ok(url) => delivered(url),
        Err(cause) => fallen_back(r, cause),
    }
}

/// The first step for `r`: a call to the tracker where one is configured
/// with a credential; otherwise the delivery ends at once.
pub open spec fn first_step(sink: SinkView, r: FailureReportView) -> StepView {
    match sink {
        SinkView::LogOnly => StepView::Finish(logged(r)),
        SinkView::Tracker { credential: None } => StepView::Finish(
            fallen_back(r, RemoteFailureView::CredentialMissing),
        ),
        SinkView::Tracker { credential: Some(token) } => StepView::Post(call_for(token, r)),
    }
}

/// How the delivery of `r` ends once the tracker's reply is in.
pub open spec fn concluded(r: FailureReportView, reply: TrackerReplyView) -> SubmissionView {
    settled(r, verdict(reply))
}

/// Ends the delivery of `report` after an attempt at the tracker: with the
/// address where the attempt gave one, with the fallback record otherwise.
pub fn settle(report: &FailureReportRequest, attempt: Result<String, RemoteFailure>) -> (done:
    Submission)
    ensures
        done@ == settled(report@, attempt_view(attempt)),
        done@.well_formed(),
{
    match attempt {
        Ok(url) => Submission {
            outcome: Outcome::Delivered,
            response: FailureReportResponse {
                success: true,
                message: String::from_str(MESSAGE_SUBMITTED),
                issue_url: Some(url),
            },
            log_line: None,
        },
        Err(cause) => Submission {
            outcome: Outcome::FallenBack { cause },
            response: FailureReportResponse {
                success: false,
                message: String::from_str(MESSAGE_REPORT_MANUALLY),
                issue_url: None,
            },
            log_line: Some(log_failure_report_locally(report)),
        },
    }
}

/// Ends the delivery of `report` where no tracker is configured.
pub fn log_only(report: &FailureReportRequest) -> (done: Submission)
    ensures
        done@ == logged(report@),
        done@.well_formed(),
{
    Submission {
        outcome: Outcome::Logged,
        response: FailureReportResponse {
            success: true,
            message: String::from_str(MESSAGE_LOGGED),
            issue_url: None,
        },
        log_line: Some(log_failure_report_locally(report)),
    }
}

/// Starts the delivery of `report`. Without a tracker the report is logged;
/// with a tracker but no credential the delivery falls back before any call
/// is made; with both, the caller is handed the call to make.
pub fn begin(sink: &Sink, report: &FailureReportRequest) -> (step: Step)
    ensures
        step@ == first_step(sink@, report@),
        step matches Step::Finish(done) ==> done@.well_formed(),
{
    match sink {
        Sink::LogOnly => Step::Finish(log_only(report)),
        Sink::Tracker { credential: None } => Step::Finish(
            settle(report, Err(RemoteFailure::CredentialMissing)),
        ),
        Sink::Tracker { credential: Some(token) } => Step::Post(build_call(token.as_str(), report)),
    }
}

/// Ends the delivery of `report` with the tracker's reply. Whatever the
/// reply, there is an answer for the client.
pub fn conclude(report: &FailureReportRequest, reply: TrackerReply) -> (done: Submission)
    ensures
        done@ == concluded(report@, reply@),
        done@.well_formed(),
{
    settle(report, judge_reply(reply))
}

/// Takes `report` through its whole delivery, with `post` making the call
/// to the tracker. `post` is called at most once, and only where a tracker
/// and a credential are configured; whatever it returns, the delivery ends
/// with an answer for the client.
pub fn submit<F: FnOnce(TrackerCall) -> TrackerReply>(
    sink: &Sink,
    report: &FailureReportRequest,
    post: F,
) -> (done: Submission)
    requires
        first_step(sink@, report@) matches StepView::Post(due) ==> forall|call: TrackerCall|
            call@ == due ==> call_requires(post, (call,)),
    ensures
        done@.well_formed(),
        first_step(sink@, report@) matches StepView::Finish(ended) ==> done@ == ended,
        first_step(sink@, report@) matches StepView::Post(due) ==> exists|
            sent: TrackerCall,
            reply: TrackerReply,
        |
            sent@ == due && call_ensures(post, (sent,), reply) && done@ == concluded(
                report@,
                reply@,
            ),
{
    match begin(sink, report) {
        Step::Finish(done) => done,
        Step::Post(call) => {
            let reply = post(call);
            conclude(report, reply)
        },
    }
}

/// Every delivery ends with a well-formed answer, whatever the sink, the
/// report and the tracker's reply: there is no report and no reply for
/// which the client gets none.
pub proof fn lemma_every_delivery_answers(
    sink: SinkView,
    r: FailureReportView,
    reply: TrackerReplyView,
)
    ensures
        first_step(sink, r) matches StepView::Finish(ended) ==> ended.well_formed(),
        concluded(r, reply).well_formed(),
{
}

/// With a tracker but no credential, no call is made: the delivery ends at
/// once without success and without an address, and the one line that is
/// logged holds the title and the timestamp as the client sent them.
pub proof fn lemma_missing_credential_falls_back(sink: SinkView, r: FailureReportView)
    requires
        sink is Tracker,
        sink->credential is None,
    ensures
        first_step(sink, r) is Finish,
        first_step(sink, r)->Finish_0 == fallen_back(r, RemoteFailureView::CredentialMissing),
        !first_step(sink, r)->Finish_0.response.success,
        first_step(sink, r)->Finish_0.response.issue_url is None,
        first_step(sink, r)->Finish_0.log_line == Some(fallback_line(r)),
        occurs_in(r.title, fallback_line(r)),
        occurs_in(r.timestamp, fallback_line(r)),
{
    lemma_record_holds_report_texts(r);
}

/// Where the tracker answers with a status outside the successful range,
/// the delivery ends without success, and the line that is logged carries
/// the description between its two labels, whole and unchanged.
pub proof fn lemma_refused_report_falls_back(r: FailureReportView, reply: TrackerReplyView)
    requires
        reply is Answered,
        !is_success_status(reply->status),
    ensures
        concluded(r, reply).outcome is FallenBack,
        concluded(r, reply).outcome->cause is Rejected,
        !concluded(r, reply).response.success,
        concluded(r, reply).response.issue_url is None,
        concluded(r, reply).log_line == Some(
            record_before_description(r) + r.description + record_after_description(r),
        ),
        occurs_in(r.description, concluded(r, reply).log_line->0),
{
    lemma_record_holds_report_texts(r);
}

/// Where the reply does not name a new issue under a successful status, for
/// whatever reason, the delivery falls back: no success, no address, and
/// the record of the report to log.
pub proof fn lemma_failed_attempt_falls_back(r: FailureReportView, reply: TrackerReplyView)
    requires
        !names_new_issue(reply),
    ensures
        verdict(reply) is Err,
        concluded(r, reply) == fallen_back(r, verdict(reply)->Err_0),
        !concluded(r, reply).response.success,
        concluded(r, reply).response.issue_url is None,
        concluded(r, reply).log_line == Some(fallback_line(r)),
{
}

/// Why a delivery fell back stays inside: whatever the cause, the client is
/// told the same and the same line is logged. That line is also the one
/// logged where no tracker is configured.
pub proof fn lemma_cause_stays_inside(
    r: FailureReportView,
    one: RemoteFailureView,
    other: RemoteFailureView,
)
    ensures
        fallen_back(r, one).response == fallen_back(r, other).response,
        fallen_back(r, one).log_line == fallen_back(r, other).log_line,
        fallen_back(r, one).log_line == logged(r).log_line,
{
}

/// Where the tracker answers with a successful status and names the new
/// issue, the delivery succeeds, the client is given exactly that address,
/// and nothing is logged.
pub proof fn lemma_named_issue_is_delivered(
    r: FailureReportView,
    reply: TrackerReplyView,
    url: Seq<char>,
)
    requires
        reply is Answered,
        is_success_status(reply->status),
        reply->issue_url == Some(url),
    ensures
        concluded(r, reply) == delivered(url),
        concluded(r, reply).response.success,
        concluded(r, reply).response.issue_url == Some(url),
        concluded(r, reply).log_line is None,
{
}

} // verus!
