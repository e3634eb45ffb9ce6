//! Logging and monitoring: whether `kube-system` shows a central log agent.
use vstd::prelude::*;
use crate::cluster::ConfigMapInfo;
use crate::models::{CheckResult, CheckResultView, Evidence, EvidenceView, Finding, FindingView, Severity};
use crate::text::{contains_text, has_infix, owned};

verus! {

/// The check on central logging.
pub struct LoggingMonitoringCheck;

/// A config map name that points to a log agent or audit logging.
pub open spec fn is_log_agent_name(n: Seq<char>) -> bool {
    has_infix(n, "fluent"@) || has_infix(n, "loki"@) || has_infix(n, "audit"@)
}

/// Some config map has a name that points to a log agent.
pub open spec fn has_known_log_agent(cms: Seq<ConfigMapInfo>) -> bool {
    exists|k: int|
        0 <= k < cms.len() && #[trigger] cms[k].name is Some && is_log_agent_name(
            cms[k].name->0@,
        )
}

/// The single finding when no log agent is seen.
pub open spec fn no_agent_finding() -> FindingView {
    FindingView {
        id: "LOG-NO-CENTRAL-AGENT"@,
        title: "Zentralisierte Logs nicht eindeutig nachweisbar"@,
        area: "Logging / Monitoring"@,
        criterion: "Auditierbarkeit von sicherheitsrelevanten Ereignissen"@,
        description: "Es wurden keine typischen Logging-Konfigurationsartefakte in kube-system erkannt."@,
        resource: None,
        evidence: EvidenceView {
            summary: "Heuristik auf ConfigMap-Namen"@,
            details: seq!["Kein Hinweis auf fluent/loki/audit"@],
        },
        risk: "Sicherheitsvorfälle könnten unvollständig nachvollziehbar sein"@,
        recommendation: "Zentrales, manipulationssicheres Logging inkl. Retention und Alarmierung etablieren."@,
        severity: Severity::Medium,
        heuristic: true,
    }
}

/// No finding where a log agent is seen; otherwise the one finding.
pub open spec fn logging_findings(cms: Seq<ConfigMapInfo>) -> Seq<FindingView> {
    if has_known_log_agent(cms) {
        Seq::empty()
    } else {
        seq![no_agent_finding()]
    }
}

/// The check reports nothing exactly when some config map, at any place of
/// the list, has a name holding `fluent`, `loki` or `audit`; otherwise it
/// reports the one heuristic finding `LOG-NO-CENTRAL-AGENT`.
pub proof fn lemma_logging_reported(cms: Seq<ConfigMapInfo>)
    ensures
        logging_findings(cms).len() == 0 <==> exists|k: int|
            0 <= k < cms.len() && (#[trigger] cms[k]).name is Some && (has_infix(
                cms[k].name->0@,
                "fluent"@,
            ) || has_infix(cms[k].name->0@, "loki"@) || has_infix(cms[k].name->0@, "audit"@)),
        logging_findings(cms).len() != 0 ==> logging_findings(cms) == seq![no_agent_finding()],
        no_agent_finding().id == "LOG-NO-CENTRAL-AGENT"@,
        no_agent_finding().heuristic,
{
    if exists|k: int|
        0 <= k < cms.len() && (#[trigger] cms[k]).name is Some && (has_infix(
            cms[k].name->0@,
            "fluent"@,
        ) || has_infix(cms[k].name->0@, "loki"@) || has_infix(cms[k].name->0@, "audit"@)) {
        let k = choose|k: int|
            0 <= k < cms.len() && (#[trigger] cms[k]).name is Some && (has_infix(
                cms[k].name->0@,
                "fluent"@,
            ) || has_infix(cms[k].name->0@, "loki"@) || has_infix(cms[k].name->0@, "audit"@));
        assert(cms[k].name is Some && is_log_agent_name(cms[k].name->0@));
    }
}

/// Whether a config map name points to a log agent.
pub fn log_agent_name(n: &str) -> (r: bool)
    ensures
        r == is_log_agent_name(n@),
{
    contains_text(n, "fluent") || contains_text(n, "loki") || contains_text(n, "audit")
}

/// Whether some config map name points to a log agent.
fn any_log_agent(config_maps: &Vec<ConfigMapInfo>) -> (r: bool)
    ensures
        r == has_known_log_agent(config_maps@),
{
    let mut i: usize = 0;
    while i < config_maps.len()
        invariant
            i <= config_maps@.len(),
            forall|k: int|
                0 <= k < i ==> !(#[trigger] config_maps@[k].name is Some && is_log_agent_name(
                    config_maps@[k].name->0@,
                )),
        decreases config_maps@.len() - i,
    {
        match &config_maps[i].name {
            Some(n) => {
                if log_agent_name(n.as_str()) {
                    assert(config_maps@[i as int].name is Some && is_log_agent_name(
                        config_maps@[i as int].name->0@,
                    ));
                    return true;
                }
            },
            None => {},
        }
        i = i + 1;
    }
    false
}

impl LoggingMonitoringCheck {
    pub fn name(&self) -> (r: &'static str)
        ensures
            r@ == "logging_monitoring"@,
    {
        "logging_monitoring"
    }

    /// The result of the check on the config maps of `kube-system`.
    pub fn evaluate(&self, config_maps: &Vec<ConfigMapInfo>) -> (r: CheckResult)
        ensures
            r@ == (CheckResultView {
                check_name: "logging_monitoring"@,
                findings: logging_findings(config_maps@),
            }),
    {
        let found = any_log_agent(config_maps);
        let mut findings: Vec<Finding> = Vec::new();
        if !found {
            let mut details: Vec<String> = Vec::new();
            details.push(owned("Kein Hinweis auf fluent/loki/audit"));
            findings.push(
                Finding {
                    id: owned("LOG-NO-CENTRAL-AGENT"),
                    title: owned("Zentralisierte Logs nicht eindeutig nachweisbar"),
                    area: owned("Logging / Monitoring"),
                    criterion: owned("Auditierbarkeit von sicherheitsrelevanten Ereignissen"),
                    description: owned(
                        "Es wurden keine typischen Logging-Konfigurationsartefakte in kube-system erkannt.",
                    ),
                    resource: None,
                    evidence: Evidence { summary: owned("Heuristik auf ConfigMap-Namen"), details },
                    risk: owned("Sicherheitsvorfälle könnten unvollständig nachvollziehbar sein"),
                    recommendation: owned(
                        "Zentrales, manipulationssicheres Logging inkl. Retention und Alarmierung etablieren.",
                    ),
                    severity: Severity::Medium,
                    heuristic: true,
                },
            );
            assert(findings@[0]@.evidence.details =~= seq!["Kein Hinweis auf fluent/loki/audit"@]);
            assert(findings.deep_view() =~= seq![no_agent_finding()]);
        } else {
            assert(findings.deep_view() =~= Seq::<FindingView>::empty());
        }
        CheckResult { check_name: owned(self.name()), findings }
    }
}

} // verus!
