//! Kubernetes security and compliance audit: the checks that turn cluster
//! objects into findings, the report model and its renderers, and the state
//! of the web interface.
use vstd::prelude::*;
use crate::checks::CheckKind;
use crate::config::{AuditConfig, CheckSelection};

pub mod checks;
pub mod cluster;
pub mod config;
pub mod handlers;
pub mod models;
pub mod reporting;
pub mod seqs;
pub mod services;
pub mod templates;
pub mod text;
pub mod time;

verus! {

/// `s` followed by `k` where `on`, else `s` unchanged.
pub open spec fn push_if(s: Seq<CheckKind>, on: bool, k: CheckKind) -> Seq<CheckKind> {
    if on {
        s.push(k)
    } else {
        s
    }
}

/// The checks that a selection enables, in the fixed order rbac, secrets,
/// pod_security, network, ingress, images, logging_monitoring,
/// api_server_config, etcd, tls.
pub open spec fn enabled_checks(sel: CheckSelection) -> Seq<CheckKind> {
    let s0 = Seq::<CheckKind>::empty();
    let s1 = push_if(s0, sel.rbac, CheckKind::Rbac);
    let s2 = push_if(s1, sel.secrets, CheckKind::Secrets);
    let s3 = push_if(s2, sel.pod_security, CheckKind::PodSecurity);
    let s4 = push_if(s3, sel.network, CheckKind::Network);
    let s5 = push_if(s4, sel.ingress, CheckKind::Ingress);
    let s6 = push_if(s5, sel.images, CheckKind::Images);
    let s7 = push_if(s6, sel.logging_monitoring, CheckKind::LoggingMonitoring);
    let s8 = push_if(s7, sel.api_server_config, CheckKind::ApiServerConfig);
    let s9 = push_if(s8, sel.etcd, CheckKind::Etcd);
    push_if(s9, sel.tls, CheckKind::Tls)
}

/// The ten checks in their fixed order.
pub open spec fn all_checks() -> Seq<CheckKind> {
    seq![
        CheckKind::Rbac,
        CheckKind::Secrets,
        CheckKind::PodSecurity,
        CheckKind::Network,
        CheckKind::Ingress,
        CheckKind::Images,
        CheckKind::LoggingMonitoring,
        CheckKind::ApiServerConfig,
        CheckKind::Etcd,
        CheckKind::Tls,
    ]
}

/// Whether the selection enables the check `k`.
pub open spec fn selects(sel: CheckSelection, k: CheckKind) -> bool {
    match k {
        CheckKind::Rbac => sel.rbac,
        CheckKind::Secrets => sel.secrets,
        CheckKind::PodSecurity => sel.pod_security,
        CheckKind::Network => sel.network,
        CheckKind::Ingress => sel.ingress,
        CheckKind::Images => sel.images,
        CheckKind::LoggingMonitoring => sel.logging_monitoring,
        CheckKind::ApiServerConfig => sel.api_server_config,
        CheckKind::Etcd => sel.etcd,
        CheckKind::Tls => sel.tls,
    }
}

/// The position of a check in the fixed order.
pub open spec fn rank(k: CheckKind) -> int {
    match k {
        CheckKind::Rbac => 0,
        CheckKind::Secrets => 1,
        CheckKind::PodSecurity => 2,
        CheckKind::Network => 3,
        CheckKind::Ingress => 4,
        CheckKind::Images => 5,
        CheckKind::LoggingMonitoring => 6,
        CheckKind::ApiServerConfig => 7,
        CheckKind::Etcd => 8,
        CheckKind::Tls => 9,
    }
}

/// Strictly increasing in rank, and every rank below `b`.
pub open spec fn ranked_below(s: Seq<CheckKind>, b: int) -> bool {
    &&& forall|i: int, j: int| 0 <= i < j < s.len() ==> rank(#[trigger] s[i]) < rank(#[trigger] s[j])
    &&& forall|i: int| 0 <= i < s.len() ==> rank(#[trigger] s[i]) < b
}

proof fn lemma_push_if_ranked(s: Seq<CheckKind>, on: bool, k: CheckKind)
    requires
        ranked_below(s, rank(k)),
    ensures
        ranked_below(push_if(s, on, k), rank(k) + 1),
{
}

proof fn lemma_push_if_contains(s: Seq<CheckKind>, on: bool, k: CheckKind, x: CheckKind)
    ensures
        push_if(s, on, k).contains(x) == (s.contains(x) || (on && x == k)),
{
    let t = push_if(s, on, k);
    if on {
        if t.contains(x) {
            let i = choose|i: int| 0 <= i < t.len() && t[i] == x;
            if i < s.len() {
                assert(s[i] == x);
            }
        }
        if s.contains(x) {
            let i = choose|i: int| 0 <= i < s.len() && s[i] == x;
            assert(t[i] == x);
        }
        if x == k {
            assert(t[s.len() as int] == x);
        }
    }
}

/// A check is run exactly when the selection enables it, and no check is run
/// twice.
pub proof fn lemma_enabled_checks_exact(sel: CheckSelection)
    ensures
        enabled_checks(sel).no_duplicates(),
        forall|k: CheckKind| #[trigger] enabled_checks(sel).contains(k) == selects(sel, k),
{
    let s0 = Seq::<CheckKind>::empty();
    let s1 = push_if(s0, sel.rbac, CheckKind::Rbac);
    let s2 = push_if(s1, sel.secrets, CheckKind::Secrets);
    let s3 = push_if(s2, sel.pod_security, CheckKind::PodSecurity);
    let s4 = push_if(s3, sel.network, CheckKind::Network);
    let s5 = push_if(s4, sel.ingress, CheckKind::Ingress);
    let s6 = push_if(s5, sel.images, CheckKind::Images);
    let s7 = push_if(s6, sel.logging_monitoring, CheckKind::LoggingMonitoring);
    let s8 = push_if(s7, sel.api_server_config, CheckKind::ApiServerConfig);
    let s9 = push_if(s8, sel.etcd, CheckKind::Etcd);
    let s10 = push_if(s9, sel.tls, CheckKind::Tls);
    lemma_push_if_ranked(s0, sel.rbac, CheckKind::Rbac);
    lemma_push_if_ranked(s1, sel.secrets, CheckKind::Secrets);
    lemma_push_if_ranked(s2, sel.pod_security, CheckKind::PodSecurity);
    lemma_push_if_ranked(s3, sel.network, CheckKind::Network);
    lemma_push_if_ranked(s4, sel.ingress, CheckKind::Ingress);
    lemma_push_if_ranked(s5, sel.images, CheckKind::Images);
    lemma_push_if_ranked(s6, sel.logging_monitoring, CheckKind::LoggingMonitoring);
    lemma_push_if_ranked(s7, sel.api_server_config, CheckKind::ApiServerConfig);
    lemma_push_if_ranked(s8, sel.etcd, CheckKind::Etcd);
    lemma_push_if_ranked(s9, sel.tls, CheckKind::Tls);
    assert(s10 == enabled_checks(sel));
    assert forall|i: int, j: int| 0 <= i < s10.len() && 0 <= j < s10.len() && i != j implies s10[i]
        != s10[j] by {
        if i < j {
            assert(rank(s10[i]) < rank(s10[j]));
        } else {
            assert(rank(s10[j]) < rank(s10[i]));
        }
    }
    assert forall|k: CheckKind| #[trigger] s10.contains(k) == selects(sel, k) by {
        lemma_push_if_contains(s9, sel.tls, CheckKind::Tls, k);
        lemma_push_if_contains(s8, sel.etcd, CheckKind::Etcd, k);
        lemma_push_if_contains(s7, sel.api_server_config, CheckKind::ApiServerConfig, k);
        lemma_push_if_contains(s6, sel.logging_monitoring, CheckKind::LoggingMonitoring, k);
        lemma_push_if_contains(s5, sel.images, CheckKind::Images, k);
        lemma_push_if_contains(s4, sel.ingress, CheckKind::Ingress, k);
        lemma_push_if_contains(s3, sel.network, CheckKind::Network, k);
        lemma_push_if_contains(s2, sel.pod_security, CheckKind::PodSecurity, k);
        lemma_push_if_contains(s1, sel.secrets, CheckKind::Secrets, k);
        lemma_push_if_contains(s0, sel.rbac, CheckKind::Rbac, k);
    }
}

/// With every check enabled, as in the default configuration, all ten
/// checks run, in the fixed order.
pub proof fn lemma_all_enabled_runs_all(sel: CheckSelection)
    requires
        sel.all_enabled(),
    ensures
        enabled_checks(sel) == all_checks(),
{
    assert(enabled_checks(sel) =~= all_checks());
}

/// The checks to run for a configuration.
pub fn build_checks(config: &AuditConfig) -> (r: Vec<CheckKind>)
    ensures
        r@ == enabled_checks(config.checks),
{
    let sel = config.checks;
    let mut checks: Vec<CheckKind> = Vec::new();
    if sel.rbac {
        checks.push(CheckKind::Rbac);
    }
    if sel.secrets {
        checks.push(CheckKind::Secrets);
    }
    if sel.pod_security {
        checks.push(CheckKind::PodSecurity);
    }
    if sel.network {
        checks.push(CheckKind::Network);
    }
    if sel.ingress {
        checks.push(CheckKind::Ingress);
    }
    if sel.images {
        checks.push(CheckKind::Images);
    }
    if sel.logging_monitoring {
        checks.push(CheckKind::LoggingMonitoring);
    }
    if sel.api_server_config {
        checks.push(CheckKind::ApiServerConfig);
    }
    if sel.etcd {
        checks.push(CheckKind::Etcd);
    }
    if sel.tls {
        checks.push(CheckKind::Tls);
    }
    checks
}

} // verus!
