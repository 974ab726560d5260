use failure_report::render::render_issue_body;
use failure_report::report::{FailureReportRequest, SystemInfo};
use failure_report::tracker::{
    build_call, build_issue, judge_reply, labels, RemoteFailure, TrackerReply,
};

fn sample() -> FailureReportRequest {
    FailureReportRequest {
        title: "Crash".to_string(),
        description: "App crashed on load".to_string(),
        system_info: SystemInfo {
            goose_version: "1.2.3".to_string(),
            os_version: "14.5".to_string(),
            platform: "macOS".to_string(),
            architecture: "arm64".to_string(),
            provider_type: None,
            extension_count: 2u32,
        },
        recent_errors: vec!["err1".to_string(), "err2".to_string()],
        timestamp: "2024-01-01T00:00:00Z".to_string(),
    }
}

fn answered(status: u16, body: &str, url: Option<&str>) -> TrackerReply {
    TrackerReply::Answered {
        status,
        body: body.to_string(),
        issue_url: url.map(|u| u.to_string()),
    }
}

#[test]
fn labels_are_the_fixed_three_in_order() {
    assert_eq!(labels(), vec!["bug", "needs-triage", "failure-report"]);
}

#[test]
fn issue_carries_tagged_title_body_and_labels() {
    let report = sample();
    let issue = build_issue(&report);
    assert_eq!(issue.title, "[FAILURE REPORT] Crash");
    assert_eq!(issue.body, render_issue_body(&report));
    assert_eq!(issue.labels, vec!["bug", "needs-triage", "failure-report"]);
}

#[test]
fn call_goes_to_the_fixed_repository_with_the_three_headers() {
    let report = sample();
    let call = build_call("s3cr3t", &report);
    assert_eq!(call.endpoint, "https://api.github.com/repos/block/goose/issues");
    assert_eq!(call.authorization, "Bearer s3cr3t");
    assert_eq!(call.user_agent, "goose-server");
    assert_eq!(call.accept, "application/vnd.github.v3+json");
    assert_eq!(call.issue, build_issue(&report));
}

#[test]
fn call_uses_the_credential_unchecked() {
    let call = build_call("", &sample());
    assert_eq!(call.authorization, "Bearer ");
}

#[test]
fn no_answer_is_a_transport_failure() {
    let reply = TrackerReply::Unreachable { detail: "connection refused".to_string() };
    assert_eq!(
        judge_reply(reply),
        Err(RemoteFailure::Transport { detail: "connection refused".to_string() })
    );
}

#[test]
fn status_outside_the_successful_range_is_a_rejection() {
    assert_eq!(
        judge_reply(answered(404u16, "Not Found", None)),
        Err(RemoteFailure::Rejected { status: 404u16, body: "Not Found".to_string() })
    );
    assert_eq!(
        judge_reply(answered(199u16, "", Some("https://example.test/1"))),
        Err(RemoteFailure::Rejected { status: 199u16, body: "".to_string() })
    );
    assert_eq!(
        judge_reply(answered(300u16, "moved", Some("https://example.test/1"))),
        Err(RemoteFailure::Rejected { status: 300u16, body: "moved".to_string() })
    );
    assert_eq!(
        judge_reply(answered(500u16, "boom", None)),
        Err(RemoteFailure::Rejected { status: 500u16, body: "boom".to_string() })
    );
}

#[test]
fn success_without_an_address_is_a_failure() {
    assert_eq!(
        judge_reply(answered(201u16, "{}", None)),
        Err(RemoteFailure::UrlMissing { body: "{}".to_string() })
    );
}

#[test]
fn success_with_an_address_gives_that_address() {
    let url = "https://github.com/block/goose/issues/42";
    assert_eq!(judge_reply(answered(201u16, "{...}", Some(url))), Ok(url.to_string()));
    assert_eq!(judge_reply(answered(200u16, "", Some(url))), Ok(url.to_string()));
    assert_eq!(judge_reply(answered(299u16, "", Some(url))), Ok(url.to_string()));
}
