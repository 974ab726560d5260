//! The text of the issue that is filed for a report.
//!
//! The body is made of five parts in a fixed order: the description, the
//! system the application ran on, the recent errors in a preformatted block,
//! the client's timestamp, and a closing note.

use crate::report::{FailureReportRequest, FailureReportView, SystemInfo, SystemInfoView};
use crate::text::{
    join_lines, join_with_newlines, lemma_join_holds_each_line, lemma_join_two,
    lemma_occurs_between, lemma_occurs_widen, occurs_in,
};
use vstd::prelude::*;
use vstd::utf8::encode_utf8;

verus! {

pub const BODY_OPENING: &'static str = "## Failure Report\n\n**Description:**\n";

pub const SYSTEM_HEADING: &'static str = "\n\n**System Information:**\n";

pub const PLATFORM_LABEL: &'static str = "- OS: ";

pub const PLATFORM_GAP: &'static str = " ";

pub const VERSION_LABEL: &'static str = "\n- Goose Version: ";

pub const PROVIDER_LABEL: &'static str = "\n- Provider: ";

/// What stands for the provider where the client named none.
pub const UNKNOWN_PROVIDER: &'static str = "Unknown";

pub const ERRORS_HEADING: &'static str = "\n\n**Recent Errors:**\n";

pub const FENCE_OPEN: &'static str = "```\n";

pub const FENCE_CLOSE: &'static str = "\n```";

pub const TIMESTAMP_LABEL: &'static str = "\n\n**Timestamp:** ";

pub const FOOTER: &'static str =
    "\n\n---\n*This issue was automatically generated from a failure report.*";

/// The provider as the body shows it.
pub open spec fn provider_text(provider: Option<Seq<char>>) -> Seq<char> {
    match provider {
        Some(name) => name,
        None => UNKNOWN_PROVIDER@,
    }
}

/// The opening and the description, as the client wrote it.
pub open spec fn description_section(r: FailureReportView) -> Seq<char> {
    BODY_OPENING@ + r.description
}

/// Platform and architecture on one line, then the version, then the
/// provider.
pub open spec fn system_section(s: SystemInfoView) -> Seq<char> {
    SYSTEM_HEADING@ + PLATFORM_LABEL@ + s.platform + PLATFORM_GAP@ + s.architecture
        + VERSION_LABEL@ + s.goose_version + PROVIDER_LABEL@ + provider_text(s.provider_type)
}

/// The recent errors, oldest first, one to a line, between the two fences.
pub open spec fn errors_block(errors: Seq<Seq<char>>) -> Seq<char> {
    FENCE_OPEN@ + join_lines(errors) + FENCE_CLOSE@
}

pub open spec fn errors_section(r: FailureReportView) -> Seq<char> {
    ERRORS_HEADING@ + errors_block(r.recent_errors)
}

pub open spec fn timestamp_section(r: FailureReportView) -> Seq<char> {
    TIMESTAMP_LABEL@ + r.timestamp
}

/// The whole body of the issue filed for `r`.
pub open spec fn issue_body(r: FailureReportView) -> Seq<char> {
    description_section(r) + system_section(r.system_info) + errors_section(r)
        + timestamp_section(r) + FOOTER@
}

fn push_system_section(out: &mut String, info: &SystemInfo)
    ensures
        final(out)@ == old(out)@ + system_section(info@),
{
    out.append(SYSTEM_HEADING);
    out.append(PLATFORM_LABEL);
    out.append(info.platform.as_str());
    out.append(PLATFORM_GAP);
    out.append(info.architecture.as_str());
    out.append(VERSION_LABEL);
    out.append(info.goose_version.as_str());
    out.append(PROVIDER_LABEL);
    match &info.provider_type {
        Some(name) => out.append(name.as_str()),
        None => out.append(UNKNOWN_PROVIDER),
    }
}

fn push_errors_section(out: &mut String, errors: &Vec<String>)
    ensures
        final(out)@ == old(out)@ + (ERRORS_HEADING@ + errors_block(errors.deep_view())),
{
    let joined = join_with_newlines(errors);
    out.append(ERRORS_HEADING);
    out.append(FENCE_OPEN);
    out.append(joined.as_str());
    out.append(FENCE_CLOSE);
}

/// Renders the body of the issue for `report`. Every report has a body:
/// nothing in it is checked or rejected.
pub fn render_issue_body(report: &FailureReportRequest) -> (body: String)
    ensures
        body@ == issue_body(report@),
{
    let mut body = String::from_str(BODY_OPENING);
    body.append(report.description.as_str());
    push_system_section(&mut body, &report.system_info);
    push_errors_section(&mut body, &report.recent_errors);
    body.append(TIMESTAMP_LABEL);
    body.append(report.timestamp.as_str());
    body.append(FOOTER);
    body
}

/// The body is a function of what it shows and of nothing else: two reports
/// that agree on description, platform, architecture, version, provider,
/// recent errors and timestamp have the same body, character for character
/// and byte for byte. Rendering one report twice therefore gives one text.
pub proof fn lemma_body_fixed_by_shown_fields(a: FailureReportView, b: FailureReportView)
    requires
        a.description == b.description,
        a.system_info.platform == b.system_info.platform,
        a.system_info.architecture == b.system_info.architecture,
        a.system_info.goose_version == b.system_info.goose_version,
        a.system_info.provider_type == b.system_info.provider_type,
        a.recent_errors == b.recent_errors,
        a.timestamp == b.timestamp,
    ensures
        issue_body(a) == issue_body(b),
        encode_utf8(issue_body(a)) == encode_utf8(issue_body(b)),
{
}

/// The body holds the preformatted block, and the block holds the recent
/// errors joined by line feeds in the order in which they were reported.
pub proof fn lemma_body_holds_errors_block(r: FailureReportView)
    ensures
        occurs_in(errors_block(r.recent_errors), issue_body(r)),
{
    let before = description_section(r) + system_section(r.system_info) + ERRORS_HEADING@;
    let after = timestamp_section(r) + FOOTER@;
    lemma_occurs_between(before, errors_block(r.recent_errors), after);
    assert(before + errors_block(r.recent_errors) + after =~= issue_body(r));
}

/// The body holds every recent error, whole and as the client sent it.
pub proof fn lemma_body_holds_each_error(r: FailureReportView, k: int)
    requires
        0 <= k < r.recent_errors.len(),
    ensures
        occurs_in(r.recent_errors[k], issue_body(r)),
{
    let before = description_section(r) + system_section(r.system_info) + ERRORS_HEADING@
        + FENCE_OPEN@;
    let after = FENCE_CLOSE@ + timestamp_section(r) + FOOTER@;
    lemma_join_holds_each_line(r.recent_errors, k);
    lemma_occurs_widen(r.recent_errors[k], join_lines(r.recent_errors), before, after);
    assert(before + join_lines(r.recent_errors) + after =~= issue_body(r));
}

/// Where two errors were reported, the block shows the first, a line feed,
/// and the second, in that order.
pub proof fn lemma_body_holds_two_errors(r: FailureReportView, first: Seq<char>, second: Seq<char>)
    requires
        r.recent_errors == seq![first, second],
    ensures
        occurs_in(FENCE_OPEN@ + (first + seq!['\n'] + second) + FENCE_CLOSE@, issue_body(r)),
{
    lemma_join_two(first, second);
    lemma_body_holds_errors_block(r);
}

/// The body shows the provider right after the provider label: the name the
/// client gave, or the word `Unknown` where it gave none.
pub proof fn lemma_body_names_provider(r: FailureReportView)
    ensures
        occurs_in(PROVIDER_LABEL@ + provider_text(r.system_info.provider_type), issue_body(r)),
        r.system_info.provider_type is None ==> occurs_in(
            PROVIDER_LABEL@ + UNKNOWN_PROVIDER@,
            issue_body(r),
        ),
        r.system_info.provider_type is None ==> occurs_in(UNKNOWN_PROVIDER@, issue_body(r)),
{
    let s = r.system_info;
    let shown = provider_text(s.provider_type);
    let line = PROVIDER_LABEL@ + shown;
    let before = description_section(r) + (SYSTEM_HEADING@ + PLATFORM_LABEL@ + s.platform
        + PLATFORM_GAP@ + s.architecture + VERSION_LABEL@ + s.goose_version);
    let after = errors_section(r) + timestamp_section(r) + FOOTER@;
    lemma_occurs_between(before, line, after);
    assert(before + line + after =~= issue_body(r));
    lemma_occurs_between(before + PROVIDER_LABEL@, shown, after);
    assert(before + PROVIDER_LABEL@ + shown + after =~= issue_body(r));
}

/// The body holds the description, the platform, the architecture, the
/// version and the timestamp, each whole and as the client sent it.
pub proof fn lemma_body_holds_report_texts(r: FailureReportView)
    ensures
        occurs_in(r.description, issue_body(r)),
        occurs_in(r.system_info.platform, issue_body(r)),
        occurs_in(r.system_info.architecture, issue_body(r)),
        occurs_in(r.system_info.goose_version, issue_body(r)),
        occurs_in(r.timestamp, issue_body(r)),
{
    let s = r.system_info;
    let body = issue_body(r);
    let tail_of_system = VERSION_LABEL@ + s.goose_version + PROVIDER_LABEL@ + provider_text(
        s.provider_type,
    );
    let after_system = errors_section(r) + timestamp_section(r) + FOOTER@;

    lemma_occurs_between(BODY_OPENING@, r.description, system_section(s) + after_system);
    assert(BODY_OPENING@ + r.description + (system_section(s) + after_system) =~= body);

    let to_platform = description_section(r) + SYSTEM_HEADING@ + PLATFORM_LABEL@;
    let past_platform = PLATFORM_GAP@ + s.architecture + tail_of_system + after_system;
    lemma_occurs_between(to_platform, s.platform, past_platform);
    assert(to_platform + s.platform + past_platform =~= body);

    let to_architecture = to_platform + s.platform + PLATFORM_GAP@;
    lemma_occurs_between(to_architecture, s.architecture, tail_of_system + after_system);
    assert(to_architecture + s.architecture + (tail_of_system + after_system) =~= body);

    let to_version = to_architecture + s.architecture + VERSION_LABEL@;
    let past_version = PROVIDER_LABEL@ + provider_text(s.provider_type) + after_system;
    lemma_occurs_between(to_version, s.goose_version, past_version);
    assert(to_version + s.goose_version + past_version =~= body);

    let to_timestamp = description_section(r) + system_section(s) + errors_section(r)
        + TIMESTAMP_LABEL@;
    lemma_occurs_between(to_timestamp, r.timestamp, FOOTER@);
    assert(to_timestamp + r.timestamp + FOOTER@ =~= body);
}

} // verus!
