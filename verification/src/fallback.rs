//! What is written to the local log for a report: the record that stands in
//! for a report the tracker did not take, and the short note of its arrival.

use crate::report::{FailureReportRequest, FailureReportView, SystemInfo, SystemInfoView};
use crate::text::{leading, leading_chars, lemma_occurs_between, occurs_in};
use vstd::prelude::*;

verus! {

/// Marks the record as one that somebody has to file by hand.
pub const RECORD_TAG: &'static str = "FAILURE REPORT (Manual Processing Required): ";

pub const RECORD_TITLE_LABEL: &'static str = "Title: ";

pub const RECORD_DESCRIPTION_LABEL: &'static str = ", Description: ";

pub const RECORD_SYSTEM_LABEL: &'static str = ", System: ";

pub const RECORD_SYSTEM_SLASH: &'static str = "/";

pub const RECORD_TIMESTAMP_LABEL: &'static str = ", Timestamp: ";

pub const RECEIPT_LABEL: &'static str = "Received failure report: ";

pub const RECEIPT_DASH: &'static str = " - ";

/// How many characters of the description the note of arrival shows.
pub const RECEIPT_DESCRIPTION_LIMIT: usize = 100;

/// Platform, architecture and version, with a slash between each two.
pub open spec fn system_triple(s: SystemInfoView) -> Seq<char> {
    s.platform + RECORD_SYSTEM_SLASH@ + s.architecture + RECORD_SYSTEM_SLASH@ + s.goose_version
}

/// The record up to the place where the description begins.
pub open spec fn record_before_description(r: FailureReportView) -> Seq<char> {
    RECORD_TAG@ + RECORD_TITLE_LABEL@ + r.title + RECORD_DESCRIPTION_LABEL@
}

/// The record from the place where the description has ended.
pub open spec fn record_after_description(r: FailureReportView) -> Seq<char> {
    RECORD_SYSTEM_LABEL@ + system_triple(r.system_info) + RECORD_TIMESTAMP_LABEL@ + r.timestamp
}

/// The one line that is logged for a report that was not delivered: the
/// tag, then title, description, system and timestamp, each after its label.
pub open spec fn fallback_line(r: FailureReportView) -> Seq<char> {
    record_before_description(r) + r.description + record_after_description(r)
}

/// The note of arrival: the title, then the description cut to its first
/// `RECEIPT_DESCRIPTION_LIMIT` characters.
pub open spec fn receipt_line(r: FailureReportView) -> Seq<char> {
    RECEIPT_LABEL@ + r.title + RECEIPT_DASH@ + leading(
        r.description,
        RECEIPT_DESCRIPTION_LIMIT as nat,
    )
}

fn push_system_triple(out: &mut String, info: &SystemInfo)
    ensures
        final(out)@ == old(out)@ + system_triple(info@),
{
    out.append(info.platform.as_str());
    out.append(RECORD_SYSTEM_SLASH);
    out.append(info.architecture.as_str());
    out.append(RECORD_SYSTEM_SLASH);
    out.append(info.goose_version.as_str());
}

/// Writes the record that is to be logged for `payload`, for somebody to
/// file by hand. The caller hands the line to its log; nothing is cut from
/// the description.
pub fn log_failure_report_locally(payload: &FailureReportRequest) -> (line: String)
    ensures
        line@ == fallback_line(payload@),
{
    let mut line = String::from_str(RECORD_TAG);
    line.append(RECORD_TITLE_LABEL);
    line.append(payload.title.as_str());
    line.append(RECORD_DESCRIPTION_LABEL);
    line.append(payload.description.as_str());
    line.append(RECORD_SYSTEM_LABEL);
    push_system_triple(&mut line, &payload.system_info);
    line.append(RECORD_TIMESTAMP_LABEL);
    line.append(payload.timestamp.as_str());
    line
}

/// Writes the note that a report has arrived.
pub fn summarize_receipt(payload: &FailureReportRequest) -> (line: String)
    ensures
        line@ == receipt_line(payload@),
{
    let shown = leading_chars(payload.description.as_str(), RECEIPT_DESCRIPTION_LIMIT);
    let mut line = String::from_str(RECEIPT_LABEL);
    line.append(payload.title.as_str());
    line.append(RECEIPT_DASH);
    line.append(shown.as_str());
    line
}

/// The record holds the title, the whole description, the system triple and
/// the timestamp, each as the client sent it.
pub proof fn lemma_record_holds_report_texts(r: FailureReportView)
    ensures
        occurs_in(r.title, fallback_line(r)),
        occurs_in(r.description, fallback_line(r)),
        occurs_in(system_triple(r.system_info), fallback_line(r)),
        occurs_in(r.timestamp, fallback_line(r)),
{
    let line = fallback_line(r);
    let to_title = RECORD_TAG@ + RECORD_TITLE_LABEL@;
    let past_title = RECORD_DESCRIPTION_LABEL@ + r.description + record_after_description(r);
    lemma_occurs_between(to_title, r.title, past_title);
    assert(to_title + r.title + past_title =~= line);

    lemma_occurs_between(record_before_description(r), r.description, record_after_description(r));

    let to_system = record_before_description(r) + r.description + RECORD_SYSTEM_LABEL@;
    let past_system = RECORD_TIMESTAMP_LABEL@ + r.timestamp;
    lemma_occurs_between(to_system, system_triple(r.system_info), past_system);
    assert(to_system + system_triple(r.system_info) + past_system =~= line);

    let to_timestamp = to_system + system_triple(r.system_info) + RECORD_TIMESTAMP_LABEL@;
    let nothing = Seq::<char>::empty();
    lemma_occurs_between(to_timestamp, r.timestamp, nothing);
    assert(to_timestamp + r.timestamp + nothing =~= line);
}

/// The note of arrival never shows more of the description than the limit,
/// and shows all of a description that is within it.
pub proof fn lemma_receipt_is_bounded(r: FailureReportView)
    ensures
        receipt_line(r).len() <= RECEIPT_LABEL@.len() + r.title.len() + RECEIPT_DASH@.len()
            + RECEIPT_DESCRIPTION_LIMIT,
        r.description.len() <= RECEIPT_DESCRIPTION_LIMIT ==> receipt_line(r) == RECEIPT_LABEL@
            + r.title + RECEIPT_DASH@ + r.description,
{
}

} // verus!
