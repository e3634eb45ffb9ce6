//! Which check made a finding, as its id tells by its first two characters,
//! and why ids of different checks never meet in one report.
use vstd::prelude::*;
use crate::checks::{
    CheckKind, api_config, etcd, images, ingress, logging_monitoring, network, pod_security, rbac,
    secrets, tls,
};
use crate::cluster::{
    ClusterRoleBindingInfo, ClusterRoleInfo, ConfigMapInfo, IngressInfo, NamespaceInfo,
    NetworkPolicyInfo, PodInfo, ProbeOutcome, SecretInfo, ServiceInfo,
};
use crate::models::{
    CheckResultView, FindingView, findings_lists, ids_distinct, lemma_concat_ids_distinct,
    report_findings,
};
use crate::seqs::{concat_all, lemma_concat_all_forall};

verus! {

/// The check whose findings carry ids starting as `id` does: `RB` RBAC, `SE`
/// secrets, `PO` pod security, `NE` network, `EX` exposure, `IM` images, `LO`
/// logging, `AP` API server, `ET` etcd, `TL` and `WE` TLS.
pub open spec fn id_check(id: Seq<char>) -> Option<CheckKind> {
    if id.len() < 2 {
        None
    } else {
        let (a, b) = (id[0], id[1]);
        if a == 'R' && b == 'B' {
            Some(CheckKind::Rbac)
        } else if a == 'S' && b == 'E' {
            Some(CheckKind::Secrets)
        } else if a == 'P' && b == 'O' {
            Some(CheckKind::PodSecurity)
        } else if a == 'N' && b == 'E' {
            Some(CheckKind::Network)
        } else if a == 'E' && b == 'X' {
            Some(CheckKind::Ingress)
        } else if a == 'I' && b == 'M' {
            Some(CheckKind::Images)
        } else if a == 'L' && b == 'O' {
            Some(CheckKind::LoggingMonitoring)
        } else if a == 'A' && b == 'P' {
            Some(CheckKind::ApiServerConfig)
        } else if a == 'E' && b == 'T' {
            Some(CheckKind::Etcd)
        } else if (a == 'T' && b == 'L') || (a == 'W' && b == 'E') {
            Some(CheckKind::Tls)
        } else {
            None
        }
    }
}

/// Every finding of `fs` tells by its id that check `k` made it.
pub open spec fn all_from(fs: Seq<FindingView>, k: CheckKind) -> bool {
    forall|i: int| 0 <= i < fs.len() ==> id_check((#[trigger] fs[i]).id) == Some(k)
}

/// Ids of the pieces tell `k`; so do those of their concatenation.
proof fn lemma_all_from_concat(pieces: Seq<Seq<FindingView>>, k: CheckKind)
    requires
        forall|i: int, j: int|
            0 <= i < pieces.len() && 0 <= j < pieces[i].len() ==> id_check(
                (#[trigger] pieces[i][j]).id,
            ) == Some(k),
    ensures
        all_from(concat_all(pieces), k),
{
    let p = |f: FindingView| id_check(f.id) == Some(k);
    assert forall|i: int, j: int| 0 <= i < pieces.len() && 0 <= j < pieces[i].len() implies #[trigger] p(
        pieces[i][j],
    ) by {}
    lemma_concat_all_forall(pieces, p);
    assert forall|i: int| 0 <= i < concat_all(pieces).len() implies id_check(
        (#[trigger] concat_all(pieces)[i]).id,
    ) == Some(k) by {
        assert(p(concat_all(pieces)[i]));
    }
}

/// Two lists whose ids tell `k`, joined.
proof fn lemma_all_from_add(a: Seq<FindingView>, b: Seq<FindingView>, k: CheckKind)
    requires
        all_from(a, k),
        all_from(b, k),
    ensures
        all_from(a + b, k),
{
    assert forall|i: int| 0 <= i < (a + b).len() implies id_check((#[trigger] (a + b)[i]).id) == Some(
        k,
    ) by {
        if i < a.len() {
            assert((a + b)[i] == a[i]);
        } else {
            assert((a + b)[i] == b[i - a.len()]);
        }
    }
}

/// The first two characters of `p` followed by anything are those of `p`.
proof fn lemma_starts(p: Seq<char>, rest: Seq<char>)
    requires
        p.len() >= 2,
    ensures
        id_check(p + rest) == id_check(p.take(2)),
{
    assert((p + rest)[0] == p[0] && (p + rest)[1] == p[1]);
    assert(p.take(2)[0] == p[0] && p.take(2)[1] == p[1]);
}

/// Every finding of the RBAC check tells by its id that it made it.
pub proof fn lemma_rbac_from(roles: Seq<ClusterRoleInfo>, bindings: Seq<ClusterRoleBindingInfo>)
    ensures
        all_from(rbac::rbac_findings(roles, bindings), CheckKind::Rbac),
{
    reveal_strlit("RBAC-WILDCARD-");
    reveal_strlit("RBAC-CRB-CLUSTERADMIN-");
    let rp = roles.map_values(|r: ClusterRoleInfo| rbac::role_piece(r));
    let bp = bindings.map_values(|b: ClusterRoleBindingInfo| rbac::binding_piece(b));
    assert forall|i: int, j: int| 0 <= i < rp.len() && 0 <= j < rp[i].len() implies id_check(
        (#[trigger] rp[i][j]).id,
    ) == Some(CheckKind::Rbac) by {
        lemma_starts("RBAC-WILDCARD-"@, crate::text::text_or_empty(roles[i].name));
    }
    assert forall|i: int, j: int| 0 <= i < bp.len() && 0 <= j < bp[i].len() implies id_check(
        (#[trigger] bp[i][j]).id,
    ) == Some(CheckKind::Rbac) by {
        lemma_starts("RBAC-CRB-CLUSTERADMIN-"@, crate::text::text_or_empty(bindings[i].name));
    }
    lemma_all_from_concat(rp, CheckKind::Rbac);
    lemma_all_from_concat(bp, CheckKind::Rbac);
    lemma_all_from_add(concat_all(rp), concat_all(bp), CheckKind::Rbac);
}

/// Every finding of the secrets check tells by its id that it made it.
pub proof fn lemma_secrets_from(s: Seq<SecretInfo>)
    ensures
        all_from(secrets::secrets_findings(s), CheckKind::Secrets),
{
    reveal_strlit("SECRET-SENSITIVE-");
    let pieces = s.map_values(|x: SecretInfo| secrets::secret_piece(x));
    assert forall|i: int, j: int| 0 <= i < pieces.len() && 0 <= j < pieces[i].len() implies id_check(
        (#[trigger] pieces[i][j]).id,
    ) == Some(CheckKind::Secrets) by {
        lemma_starts("SECRET-SENSITIVE-"@, crate::text::text_or_empty(s[i].name));
    }
    lemma_all_from_concat(pieces, CheckKind::Secrets);
}

/// Every finding of the pod security check tells by its id that it made it.
pub proof fn lemma_pod_security_from(pods: Seq<PodInfo>)
    ensures
        all_from(pod_security::pod_security_findings(pods), CheckKind::PodSecurity),
{
    reveal_strlit("POD-HOST-NS");
    reveal_strlit("POD-PRIV");
    reveal_strlit("POD-APE");
    reveal_strlit("POD-ROFS");
    reveal_strlit("POD-LIMITS");
    let pieces = pods.map_values(|x: PodInfo| pod_security::pod_findings(x));
    assert forall|i: int, j: int| 0 <= i < pieces.len() && 0 <= j < pieces[i].len() implies id_check(
        (#[trigger] pieces[i][j]).id,
    ) == Some(CheckKind::PodSecurity) by {
        let id = pieces[i][j].id;
        let name = crate::text::text_or_empty(pods[i].name);
        pod_security::lemma_pod_findings_rules(pods[i]);
        assert(pod_security::names_pod(id, name));
        let p = choose|p: Seq<char>|
            pod_security::is_pod_rule_prefix(p) && id == #[trigger] pod_security::pod_rule_id(p, name);
        lemma_starts(p, "-"@ + name);
        assert(p + "-"@ + name =~= p + ("-"@ + name));
    }
    lemma_all_from_concat(pieces, CheckKind::PodSecurity);
}

/// Every finding of the network check tells by its id that it made it.
pub proof fn lemma_network_from(namespaces: Seq<NamespaceInfo>, policies: Seq<NetworkPolicyInfo>)
    ensures
        all_from(network::network_findings(namespaces, policies), CheckKind::Network),
{
    reveal_strlit("NET-NOPOLICY-");
    let pieces = network::network_pieces(namespaces, policies);
    assert forall|i: int, j: int| 0 <= i < pieces.len() && 0 <= j < pieces[i].len() implies id_check(
        (#[trigger] pieces[i][j]).id,
    ) == Some(CheckKind::Network) by {
        lemma_starts("NET-NOPOLICY-"@, network::name_any_text(namespaces[i]));
    }
    lemma_all_from_concat(pieces, CheckKind::Network);
}

/// Every finding of the exposure check tells by its id that it made it.
pub proof fn lemma_ingress_from(services: Seq<ServiceInfo>, ingresses: Seq<IngressInfo>)
    ensures
        all_from(ingress::exposure_findings(services, ingresses), CheckKind::Ingress),
{
    reveal_strlit("EXPOSURE-SVC-");
    reveal_strlit("EXPOSURE-ING-NOTLS-");
    let sp = services.map_values(|s: ServiceInfo| ingress::service_piece(s));
    let ip = ingresses.map_values(|i: IngressInfo| ingress::ingress_piece(i));
    assert forall|i: int, j: int| 0 <= i < sp.len() && 0 <= j < sp[i].len() implies id_check(
        (#[trigger] sp[i][j]).id,
    ) == Some(CheckKind::Ingress) by {
        lemma_starts("EXPOSURE-SVC-"@, crate::text::text_or_empty(services[i].name));
    }
    assert forall|i: int, j: int| 0 <= i < ip.len() && 0 <= j < ip[i].len() implies id_check(
        (#[trigger] ip[i][j]).id,
    ) == Some(CheckKind::Ingress) by {
        lemma_starts("EXPOSURE-ING-NOTLS-"@, crate::text::text_or_empty(ingresses[i].name));
    }
    lemma_all_from_concat(sp, CheckKind::Ingress);
    lemma_all_from_concat(ip, CheckKind::Ingress);
    lemma_all_from_add(concat_all(sp), concat_all(ip), CheckKind::Ingress);
}

/// Every finding of the image check tells by its id that it made it.
pub proof fn lemma_images_from(pods: Seq<PodInfo>)
    ensures
        all_from(images::image_findings(pods), CheckKind::Images),
{
    reveal_strlit("IMG-UNPINNED-");
    let pieces = pods.map_values(|x: PodInfo| images::pod_image_findings(x));
    assert forall|i: int, j: int| 0 <= i < pieces.len() && 0 <= j < pieces[i].len() implies id_check(
        (#[trigger] pieces[i][j]).id,
    ) == Some(CheckKind::Images) by {
        let pod = pods[i];
        match pod.spec {
            None => {},
            Some(spec) => {
                let inner = spec.containers@.map_values(
                    |c: crate::cluster::ContainerInfo| images::container_image_piece(pod, c),
                );
                assert forall|a: int, b: int| 0 <= a < inner.len() && 0 <= b < inner[a].len() implies id_check(
                    (#[trigger] inner[a][b]).id,
                ) == Some(CheckKind::Images) by {
                    lemma_starts("IMG-UNPINNED-"@, images::image_key(pod));
                }
                lemma_all_from_concat(inner, CheckKind::Images);
            },
        }
    }
    lemma_all_from_concat(pieces, CheckKind::Images);
}

/// The findings of the logging, API server and etcd checks tell by their
/// ids which check made them.
pub proof fn lemma_standing_notes_from(cms: Seq<ConfigMapInfo>)
    ensures
        all_from(logging_monitoring::logging_findings(cms), CheckKind::LoggingMonitoring),
        all_from(seq![api_config::api_server_finding()], CheckKind::ApiServerConfig),
        all_from(seq![etcd::etcd_finding()], CheckKind::Etcd),
{
    reveal_strlit("LOG-NO-CENTRAL-AGENT");
    reveal_strlit("APISERVER-HARDENING-HEURISTIC");
    reveal_strlit("ETCD-EXPOSURE-HEURISTIC");
}

/// Every finding of the TLS check tells by its id that it made it.
pub proof fn lemma_tls_from(
    mails: Seq<Seq<char>>,
    targets: Seq<Seq<char>>,
    outcomes: Seq<Option<ProbeOutcome>>,
)
    ensures
        all_from(tls::tls_findings(mails, targets, outcomes), CheckKind::Tls),
{
    reveal_strlit("TLS-EMAIL-INVALID-");
    reveal_strlit("TLS-NO-HTTPS");
    reveal_strlit("TLS-NO-HSTS");
    reveal_strlit("WEB-SERVER-BANNER");
    reveal_strlit("TLS-CONNECT-ERROR");
    let ep = mails.map_values(|m: Seq<char>| tls::email_piece(m));
    assert forall|i: int, j: int| 0 <= i < ep.len() && 0 <= j < ep[i].len() implies id_check(
        (#[trigger] ep[i][j]).id,
    ) == Some(CheckKind::Tls) by {
        lemma_starts("TLS-EMAIL-INVALID-"@, mails[i]);
    }
    let pp = tls::target_pieces(targets, outcomes);
    assert forall|i: int, j: int| 0 <= i < pp.len() && 0 <= j < pp[i].len() implies id_check(
        (#[trigger] pp[i][j]).id,
    ) == Some(CheckKind::Tls) by {
        let id = pp[i][j].id;
        tls::lemma_target_piece_stems(targets[i], tls::outcome_at(outcomes, i));
        let p = choose|p: Seq<char>| tls::is_web_stem(p) && id == #[trigger] tls::tls_id(p, targets[i]);
        lemma_starts(p, "-"@ + targets[i]);
        assert(tls::tls_id(p, targets[i]) =~= p + ("-"@ + targets[i]));
    }
    lemma_all_from_concat(ep, CheckKind::Tls);
    lemma_all_from_concat(pp, CheckKind::Tls);
    lemma_all_from_add(concat_all(ep), concat_all(pp), CheckKind::Tls);
}

/// Where each result of a report comes from another check (its findings
/// telling by their ids that this check made them) and no result repeats an
/// id, no two findings of the report share an id.
pub proof fn lemma_report_ids_distinct(results: Seq<CheckResultView>, kinds: Seq<CheckKind>)
    requires
        results.len() == kinds.len(),
        kinds.no_duplicates(),
        forall|i: int|
            0 <= i < results.len() ==> ids_distinct((#[trigger] results[i]).findings) && all_from(
                results[i].findings,
                kinds[i],
            ),
    ensures
        ids_distinct(report_findings(results)),
{
    let pieces = findings_lists(results);
    assert forall|i: int| 0 <= i < pieces.len() implies ids_distinct(#[trigger] pieces[i]) by {
        assert(pieces[i] == results[i].findings);
    }
    assert forall|i: int, j: int, a: int, b: int|
        0 <= i < j < pieces.len() && 0 <= a < pieces[i].len() && 0 <= b < pieces[j].len()
            implies (#[trigger] pieces[i][a]).id != (#[trigger] pieces[j][b]).id by {
        assert(pieces[i] == results[i].findings && pieces[j] == results[j].findings);
        assert(id_check(results[i].findings[a].id) == Some(kinds[i]));
        assert(id_check(results[j].findings[b].id) == Some(kinds[j]));
        assert(kinds[i] != kinds[j]);
    }
    lemma_concat_ids_distinct(pieces);
}

} // verus!
