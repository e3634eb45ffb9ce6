//! The data that the pages of the web interface show, and the labels and CSS
//! classes of severities.
use vstd::prelude::*;
use crate::models::{AuditReport, Finding, Severity};
use crate::services::app_state::{ClusterInfo, ScanJob, UiSettings};
use crate::time::Timestamp;

verus! {

/// The label of a severity (also the name that its `Debug` writes).
pub open spec fn severity_label_text(s: Severity) -> Seq<char> {
    match s {
        Severity::Critical => "Critical"@,
        Severity::High => "High"@,
        Severity::Medium => "Medium"@,
        Severity::Low => "Low"@,
        Severity::Info => "Info"@,
    }
}

/// The CSS class of a severity.
pub open spec fn severity_class_text(s: Severity) -> Seq<char> {
    match s {
        Severity::Critical => "critical"@,
        Severity::High => "high"@,
        Severity::Medium => "medium"@,
        Severity::Low => "low"@,
        Severity::Info => "info"@,
    }
}

/// The lowercase of an ASCII letter; other characters unchanged.
pub open spec fn ascii_lower(c: char) -> char {
    if 'A' <= c && c <= 'Z' {
        ((c as u32) + 32) as char
    } else {
        c
    }
}

/// The CSS class of a severity is its label in lowercase, and distinct
/// severities have distinct labels.
pub proof fn lemma_severity_class_is_lowercase_label(a: Severity, b: Severity)
    ensures
        severity_class_text(a) == severity_label_text(a).map_values(|c: char| ascii_lower(c)),
        severity_label_text(a) == severity_label_text(b) ==> a == b,
{
    reveal_strlit("Critical");
    reveal_strlit("High");
    reveal_strlit("Medium");
    reveal_strlit("Low");
    reveal_strlit("Info");
    reveal_strlit("critical");
    reveal_strlit("high");
    reveal_strlit("medium");
    reveal_strlit("low");
    reveal_strlit("info");
    assert(severity_class_text(a) =~= severity_label_text(a).map_values(|c: char| ascii_lower(c)));
    if severity_label_text(a) == severity_label_text(b) {
        assert(severity_label_text(a).len() == severity_label_text(b).len());
        assert(severity_label_text(a)[0] == severity_label_text(b)[0]);
    }
}

pub fn severity_label(severity: &Severity) -> (r: &'static str)
    ensures
        r@ == severity_label_text(*severity),
{
    match severity {
        Severity::Critical => "Critical",
        Severity::High => "High",
        Severity::Medium => "Medium",
        Severity::Low => "Low",
        Severity::Info => "Info",
    }
}

pub fn severity_class(severity: &Severity) -> (r: &'static str)
    ensures
        r@ == severity_class_text(*severity),
{
    match severity {
        Severity::Critical => "critical",
        Severity::High => "high",
        Severity::Medium => "medium",
        Severity::Low => "low",
        Severity::Info => "info",
    }
}

/// The date shown for an optional instant: its minute stamp, or `-`.
pub fn fmt_date(v: &Option<Timestamp>) -> (r: String)
    ensures
        r@ == crate::time::fmt_date_text(*v),
{
    crate::time::fmt_date(v)
}

/// A count shown on the dashboard.
#[derive(Debug, Clone, Copy)]
pub struct DashboardMetric {
    pub label: &'static str,
    pub value: usize,
}

/// The dashboard page.
pub struct DashboardTemplate {
    pub page_title: &'static str,
    pub report: Option<AuditReport>,
    pub metrics: Vec<DashboardMetric>,
    pub top_risks: Vec<Finding>,
    pub recent_scans: Vec<ScanJob>,
}

/// The list of scans.
pub struct ScansTemplate {
    pub page_title: &'static str,
    pub scans: Vec<ScanJob>,
}

/// The list of findings.
pub struct FindingsTemplate {
    pub page_title: &'static str,
    pub findings: Vec<Finding>,
}

/// One finding.
pub struct FindingDetailTemplate {
    pub page_title: &'static str,
    pub finding: Finding,
}

/// The report history.
pub struct ReportsTemplate {
    pub page_title: &'static str,
    pub reports: Vec<AuditReport>,
}

/// The clusters.
pub struct ClustersTemplate {
    pub page_title: &'static str,
    pub clusters: Vec<ClusterInfo>,
}

/// The settings.
pub struct SettingsTemplate {
    pub page_title: &'static str,
    pub settings: UiSettings,
}

} // verus!
