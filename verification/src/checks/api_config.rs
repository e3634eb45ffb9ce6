//! API server configuration: a standing note that the control plane needs a
//! manual review.
use vstd::prelude::*;
use crate::models::{CheckResult, CheckResultView, Evidence, EvidenceView, Finding, FindingView, Severity};
use crate::text::owned;

verus! {

/// The check on API server hardening.
pub struct ApiServerConfigCheck;

/// The one finding of this check, whatever the cluster.
pub open spec fn api_server_finding() -> FindingView {
    FindingView {
        id: "APISERVER-HARDENING-HEURISTIC"@,
        title: "API-Server Hardening nur teilautomatisiert bewertet"@,
        area: "API Server / Cluster-Konfiguration"@,
        criterion: "Sichere Flags und AuthN/AuthZ-Konfiguration"@,
        description: "Direkte API-Server-Flags sind in gemanagten Clustern oft nicht vollständig auslesbar."@,
        resource: None,
        evidence: EvidenceView {
            summary: "Automatisierte Vollprüfung nicht in allen Umgebungen möglich"@,
            details: seq![
                "Manuelle Ergänzung: kube-apiserver Flags, Audit Policy, Admission Controller Status"@,
            ],
        },
        risk: "Hardening-Lücken könnten unentdeckt bleiben"@,
        recommendation: "Cluster-Benchmark (z.B. CIS) und Control-Plane-Review ergänzen."@,
        severity: Severity::Info,
        heuristic: true,
    }
}

impl ApiServerConfigCheck {
    pub fn name(&self) -> (r: &'static str)
        ensures
            r@ == "api_server_config"@,
    {
        "api_server_config"
    }

    /// The result of the check: always the one heuristic finding.
    pub fn evaluate(&self) -> (r: CheckResult)
        ensures
            r@ == (CheckResultView {
                check_name: "api_server_config"@,
                findings: seq![api_server_finding()],
            }),
    {
        let mut details: Vec<String> = Vec::new();
        details.push(
            owned(
                "Manuelle Ergänzung: kube-apiserver Flags, Audit Policy, Admission Controller Status",
            ),
        );
        let f = Finding {
            id: owned("APISERVER-HARDENING-HEURISTIC"),
            title: owned("API-Server Hardening nur teilautomatisiert bewertet"),
            area: owned("API Server / Cluster-Konfiguration"),
            criterion: owned("Sichere Flags und AuthN/AuthZ-Konfiguration"),
            description: owned(
                "Direkte API-Server-Flags sind in gemanagten Clustern oft nicht vollständig auslesbar.",
            ),
            resource: None,
            evidence: Evidence {
                summary: owned("Automatisierte Vollprüfung nicht in allen Umgebungen möglich"),
                details,
            },
            risk: owned("Hardening-Lücken könnten unentdeckt bleiben"),
            recommendation: owned("Cluster-Benchmark (z.B. CIS) und Control-Plane-Review ergänzen."),
            severity: Severity::Info,
            heuristic: true,
        };
        assert(f@.evidence.details =~= seq![
            "Manuelle Ergänzung: kube-apiserver Flags, Audit Policy, Admission Controller Status"@,
        ]);
        let mut findings: Vec<Finding> = Vec::new();
        findings.push(f);
        assert(findings.deep_view() =~= seq![api_server_finding()]);
        CheckResult { check_name: owned(self.name()), findings }
    }
}

} // verus!
