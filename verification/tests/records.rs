use failure_report::fallback::{
    log_failure_report_locally, summarize_receipt, RECEIPT_DESCRIPTION_LIMIT,
};
use failure_report::report::{FailureReportRequest, SystemInfo};

fn report_with(title: &str, description: &str) -> FailureReportRequest {
    FailureReportRequest {
        title: title.to_string(),
        description: description.to_string(),
        system_info: SystemInfo {
            goose_version: "1.2.3".to_string(),
            os_version: "14.5".to_string(),
            platform: "macOS".to_string(),
            architecture: "arm64".to_string(),
            provider_type: None,
            extension_count: 0u32,
        },
        recent_errors: vec!["err1".to_string(), "err2".to_string()],
        timestamp: "2024-01-01T00:00:00Z".to_string(),
    }
}

#[test]
fn record_line_is_exact() {
    let line = log_failure_report_locally(&report_with("Crash", "App crashed on load"));
    assert_eq!(
        line,
        "FAILURE REPORT (Manual Processing Required): Title: Crash, \
Description: App crashed on load, System: macOS/arm64/1.2.3, Timestamp: 2024-01-01T00:00:00Z"
    );
}

#[test]
fn record_keeps_a_long_description_whole() {
    let long = "x".repeat(5000);
    let line = log_failure_report_locally(&report_with("Crash", &long));
    let expected = format!(", Description: {}, System: ", long);
    assert!(line.contains(&expected));
    assert_eq!(line.matches('x').count(), 5000);
}

#[test]
fn record_does_not_show_errors_or_provider() {
    let line = log_failure_report_locally(&report_with("Crash", "d"));
    assert!(!line.contains("err1"));
    assert!(!line.contains("Unknown"));
    assert!(!line.contains("14.5"));
}

#[test]
fn receipt_shows_a_short_description_whole() {
    let line = summarize_receipt(&report_with("Crash", "App crashed on load"));
    assert_eq!(line, "Received failure report: Crash - App crashed on load");
}

#[test]
fn receipt_cuts_a_long_description_at_the_limit() {
    assert_eq!(RECEIPT_DESCRIPTION_LIMIT, 100usize);
    let long = format!("{}{}", "a".repeat(100), "b".repeat(30));
    let line = summarize_receipt(&report_with("T", &long));
    assert_eq!(line, format!("Received failure report: T - {}", "a".repeat(100)));
    let exact = "c".repeat(100);
    let line = summarize_receipt(&report_with("T", &exact));
    assert_eq!(line, format!("Received failure report: T - {}", exact));
}

#[test]
fn receipt_limit_counts_characters() {
    let long = "\u{e9}".repeat(150);
    let line = summarize_receipt(&report_with("T", &long));
    assert_eq!(line, format!("Received failure report: T - {}", "\u{e9}".repeat(100)));
}
