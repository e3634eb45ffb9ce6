//! etcd: a standing note that etcd protection must be validated separately.
use vstd::prelude::*;
use crate::models::{CheckResult, CheckResultView, Evidence, EvidenceView, Finding, FindingView, Severity};
use crate::text::owned;

verus! {

/// The check on etcd protection.
pub struct EtcdCheck;

/// The one finding of this check, whatever the cluster.
pub open spec fn etcd_finding() -> FindingView {
    FindingView {
        id: "ETCD-EXPOSURE-HEURISTIC"@,
        title: "etcd-Absicherung muss separat validiert werden"@,
        area: "etcd"@,
        criterion: "Verschlüsselung-at-Rest und Netzwerkexposition"@,
        description: "Aus Workload-Sicht kann etcd-Zugriff/Verschlüsselung nicht abschließend belegt werden."@,
        resource: None,
        evidence: EvidenceView {
            summary: "Heuristische Feststellung"@,
            details: seq!["Prüfen: --encryption-provider-config, TLS-Clientauth, Port-Exposition"@],
        },
        risk: "Kompromittierung von Secrets/Clusterstate bei schwacher etcd-Security"@,
        recommendation: "etcd isolieren, TLS mTLS erzwingen, Encryption-at-Rest aktivieren."@,
        severity: Severity::High,
        heuristic: true,
    }
}

impl EtcdCheck {
    pub fn name(&self) -> (r: &'static str)
        ensures
            r@ == "etcd"@,
    {
        "etcd"
    }

    /// The result of the check: always the one heuristic finding.
    pub fn evaluate(&self) -> (r: CheckResult)
        ensures
            r@ == (CheckResultView { check_name: "etcd"@, findings: seq![etcd_finding()] }),
    {
        let mut details: Vec<String> = Vec::new();
        details.push(owned("Prüfen: --encryption-provider-config, TLS-Clientauth, Port-Exposition"));
        let f = Finding {
            id: owned("ETCD-EXPOSURE-HEURISTIC"),
            title: owned("etcd-Absicherung muss separat validiert werden"),
            area: owned("etcd"),
            criterion: owned("Verschlüsselung-at-Rest und Netzwerkexposition"),
            description: owned(
                "Aus Workload-Sicht kann etcd-Zugriff/Verschlüsselung nicht abschließend belegt werden.",
            ),
            resource: None,
            evidence: Evidence { summary: owned("Heuristische Feststellung"), details },
            risk: owned("Kompromittierung von Secrets/Clusterstate bei schwacher etcd-Security"),
            recommendation: owned("etcd isolieren, TLS mTLS erzwingen, Encryption-at-Rest aktivieren."),
            severity: Severity::High,
            heuristic: true,
        };
        assert(f@.evidence.details =~= seq![
            "Prüfen: --encryption-provider-config, TLS-Clientauth, Port-Exposition"@,
        ]);
        let mut findings: Vec<Finding> = Vec::new();
        findings.push(f);
        assert(findings.deep_view() =~= seq![etcd_finding()]);
        CheckResult { check_name: owned(self.name()), findings }
    }
}

} // verus!
