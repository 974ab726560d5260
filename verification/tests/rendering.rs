use failure_report::render::{render_issue_body, FENCE_CLOSE, FENCE_OPEN, UNKNOWN_PROVIDER};
use failure_report::report::{FailureReportRequest, SystemInfo};
use failure_report::text::{join_with_newlines, leading_chars};

fn crash_report(provider: Option<&str>, errors: &[&str]) -> FailureReportRequest {
    FailureReportRequest {
        title: "Crash".to_string(),
        description: "App crashed on load".to_string(),
        system_info: SystemInfo {
            goose_version: "1.2.3".to_string(),
            os_version: "14.5".to_string(),
            platform: "macOS".to_string(),
            architecture: "arm64".to_string(),
            provider_type: provider.map(|p| p.to_string()),
            extension_count: 4u32,
        },
        recent_errors: errors.iter().map(|e| e.to_string()).collect(),
        timestamp: "2024-01-01T00:00:00Z".to_string(),
    }
}

#[test]
fn body_of_a_full_report_is_exact() {
    let body = render_issue_body(&crash_report(Some("anthropic"), &["err1", "err2"]));
    let expected = "## Failure Report\n\n**Description:**\nApp crashed on load\n\n\
**System Information:**\n- OS: macOS arm64\n- Goose Version: 1.2.3\n- Provider: anthropic\n\n\
**Recent Errors:**\n```\nerr1\nerr2\n```\n\n**Timestamp:** 2024-01-01T00:00:00Z\n\n---\n\
*This issue was automatically generated from a failure report.*";
    assert_eq!(body, expected);
}

#[test]
fn two_errors_stand_in_the_block_in_order() {
    let body = render_issue_body(&crash_report(None, &["a", "b"]));
    assert!(body.contains("```\na\nb\n```"));
    assert!(!body.contains("b\na"));
    assert_eq!(body.matches("a\nb").count(), 1);
    assert!(body.contains(&format!("{}a\nb{}", FENCE_OPEN, FENCE_CLOSE)));
}

#[test]
fn no_errors_leave_the_block_empty() {
    let body = render_issue_body(&crash_report(None, &[]));
    assert!(body.contains("**Recent Errors:**\n```\n\n```\n\n**Timestamp:**"));
}

#[test]
fn a_single_error_has_no_line_feed_of_its_own() {
    let body = render_issue_body(&crash_report(None, &["only"]));
    assert!(body.contains("```\nonly\n```"));
}

#[test]
fn missing_provider_reads_unknown() {
    let body = render_issue_body(&crash_report(None, &["err1", "err2"]));
    assert_eq!(UNKNOWN_PROVIDER, "Unknown");
    assert!(body.contains("\n- Provider: Unknown\n"));
}

#[test]
fn given_provider_is_shown_as_given() {
    let body = render_issue_body(&crash_report(Some("openai"), &[]));
    assert!(body.contains("\n- Provider: openai\n"));
    assert!(!body.contains("Unknown"));
}

#[test]
fn rendering_twice_gives_the_same_bytes() {
    let report = crash_report(None, &["a", "b"]);
    let first = render_issue_body(&report);
    let second = render_issue_body(&report);
    assert_eq!(first.as_bytes(), second.as_bytes());
    let copy = report.clone();
    assert_eq!(render_issue_body(&copy), first);
}

#[test]
fn body_does_not_depend_on_what_it_does_not_show() {
    let shown = crash_report(None, &["a"]);
    let mut other = shown.clone();
    other.title = "Another title".to_string();
    other.system_info.os_version = "15.0".to_string();
    other.system_info.extension_count = 9u32;
    assert_eq!(render_issue_body(&shown), render_issue_body(&other));
}

#[test]
fn body_keeps_the_description_and_timestamp_verbatim() {
    let mut report = crash_report(None, &[]);
    report.description = "line one\nline two with ``` and \u{1F980}".to_string();
    report.timestamp = "not a date at all".to_string();
    let body = render_issue_body(&report);
    assert!(body.starts_with("## Failure Report\n\n**Description:**\nline one\nline two with ``` and \u{1F980}\n\n"));
    assert!(body.contains("**Timestamp:** not a date at all\n\n---\n"));
    assert!(body.ends_with("*This issue was automatically generated from a failure report.*"));
}

#[test]
fn joining_puts_line_feeds_between_lines_only() {
    let none: Vec<String> = Vec::new();
    assert_eq!(join_with_newlines(&none), "");
    assert_eq!(join_with_newlines(&vec!["x".to_string()]), "x");
    let three = vec!["a".to_string(), "b".to_string(), "c".to_string()];
    assert_eq!(join_with_newlines(&three), "a\nb\nc");
    let blanks = vec!["".to_string(), "".to_string()];
    assert_eq!(join_with_newlines(&blanks), "\n");
}

#[test]
fn leading_chars_counts_characters_not_bytes() {
    assert_eq!(leading_chars("hello", 10usize), "hello");
    assert_eq!(leading_chars("hello", 5usize), "hello");
    assert_eq!(leading_chars("hello", 3usize), "hel");
    assert_eq!(leading_chars("hello", 0usize), "");
    assert_eq!(leading_chars("", 3usize), "");
    assert_eq!(leading_chars("h\u{e9}llo w\u{f6}rld", 2usize), "h\u{e9}");
    assert_eq!(leading_chars("\u{1F980}\u{1F980}\u{1F980}", 2usize), "\u{1F980}\u{1F980}");
}
