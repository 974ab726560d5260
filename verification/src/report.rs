//! The report that a client sends in and the answer it gets back.

use vstd::prelude::*;

verus! {

/// Where the reporting application was running.
#[derive(Debug, Clone, PartialEq, Eq)]
pub struct SystemInfo {
    pub goose_version: String,
    pub os_version: String,
    pub platform: String,
    pub architecture: String,
    /// The model provider in use, where the client knew it.
    pub provider_type: Option<String>,
    pub extension_count: u32,
}

/// A failure as the client described it. The timestamp is the client's own
/// text and is passed through as it came.
#[derive(Debug, Clone, PartialEq, Eq)]
pub struct FailureReportRequest {
    pub title: String,
    pub description: String,
    pub system_info: SystemInfo,
    /// Oldest first.
    pub recent_errors: Vec<String>,
    pub timestamp: String,
}

/// What the client is told about its report.
#[derive(Debug, Clone, PartialEq, Eq)]
pub struct FailureReportResponse {
    /// The tracker took the report, or, where no tracker is configured, the
    /// report was logged.
    pub success: bool,
    pub message: String,
    pub issue_url: Option<String>,
}

/// `SystemInfo` as text and numbers.
pub ghost struct SystemInfoView {
    pub goose_version: Seq<char>,
    pub os_version: Seq<char>,
    pub platform: Seq<char>,
    pub architecture: Seq<char>,
    pub provider_type: Option<Seq<char>>,
    pub extension_count: nat,
}

/// `FailureReportRequest` as text.
pub ghost struct FailureReportView {
    pub title: Seq<char>,
    pub description: Seq<char>,
    pub system_info: SystemInfoView,
    pub recent_errors: Seq<Seq<char>>,
    pub timestamp: Seq<char>,
}

/// `FailureReportResponse` as text.
pub ghost struct ResponseView {
    pub success: bool,
    pub message: Seq<char>,
    pub issue_url: Option<Seq<char>>,
}

impl View for SystemInfo {
    type V = SystemInfoView;

    open spec fn view(&self) -> SystemInfoView {
        SystemInfoView {
            goose_version: self.goose_version@,
            os_version: self.os_version@,
            platform: self.platform@,
            architecture: self.architecture@,
            provider_type: self.provider_type.deep_view(),
            extension_count: self.extension_count as nat,
        }
    }
}

impl View for FailureReportRequest {
    type V = FailureReportView;

    open spec fn view(&self) -> FailureReportView {
        FailureReportView {
            title: self.title@,
            description: self.description@,
            system_info: self.system_info@,
            recent_errors: self.recent_errors.deep_view(),
            timestamp: self.timestamp@,
        }
    }
}

impl View for FailureReportResponse {
    type V = ResponseView;

    open spec fn view(&self) -> ResponseView {
        ResponseView {
            success: self.success,
            message: self.message@,
            issue_url: self.issue_url.deep_view(),
        }
    }
}

impl ResponseView {
    /// An issue address is only ever given together with success.
    pub open spec fn well_formed(self) -> bool {
        self.issue_url is Some ==> self.success
    }
}

} // verus!
