//! Properties of the checks that hold for every input: which findings are
//! marked heuristic, which area each check reports under, and when a check
//! finds nothing.
use vstd::prelude::*;
use crate::checks::{api_config, etcd, images, ingress, logging_monitoring, network, pod_security, rbac, secrets, tls};
use crate::cluster::{
    ClusterRoleBindingInfo, ClusterRoleInfo, ConfigMapInfo, ContainerInfo, IngressInfo,
    NamespaceInfo, NetworkPolicyInfo, PodInfo, ProbeOutcome, SecretInfo, ServiceInfo,
};
use crate::models::{FindingView, Severity, only_if};
use crate::seqs::{concat_all, lemma_concat_all_forall};

verus! {

/// Every finding of `fs` has heuristic flag `h` and area `area`.
pub open spec fn all_marked(fs: Seq<FindingView>, h: bool, area: Seq<char>) -> bool {
    forall|k: int| 0 <= k < fs.len() ==> (#[trigger] fs[k]).heuristic == h && fs[k].area == area
}

/// The secrets check marks every finding heuristic, under `Secrets`.
pub proof fn lemma_secrets_marked(s: Seq<SecretInfo>)
    ensures
        all_marked(secrets::secrets_findings(s), true, "Secrets"@),
{
    let pieces = s.map_values(|x: SecretInfo| secrets::secret_piece(x));
    let p = |f: FindingView| f.heuristic == true && f.area == "Secrets"@;
    assert forall|i: int, j: int| 0 <= i < pieces.len() && 0 <= j < pieces[i].len() implies #[trigger] p(
        pieces[i][j],
    ) by {}
    lemma_concat_all_forall(pieces, p);
    let fs = concat_all(pieces);
    assert(secrets::secrets_findings(s) == fs);
    assert forall|k: int| 0 <= k < fs.len() implies (#[trigger] fs[k]).heuristic == true && fs[k].area
        == "Secrets"@ by {
        assert(p(fs[k]));
    }
}

/// The RBAC check marks no finding heuristic, and reports under `RBAC`.
pub proof fn lemma_rbac_marked(roles: Seq<ClusterRoleInfo>, bindings: Seq<ClusterRoleBindingInfo>)
    ensures
        all_marked(rbac::rbac_findings(roles, bindings), false, "RBAC"@),
{
    let rp = roles.map_values(|r: ClusterRoleInfo| rbac::role_piece(r));
    let bp = bindings.map_values(|b: ClusterRoleBindingInfo| rbac::binding_piece(b));
    let p = |f: FindingView| f.heuristic == false && f.area == "RBAC"@;
    assert forall|i: int, j: int| 0 <= i < rp.len() && 0 <= j < rp[i].len() implies #[trigger] p(
        rp[i][j],
    ) by {}
    assert forall|i: int, j: int| 0 <= i < bp.len() && 0 <= j < bp[i].len() implies #[trigger] p(
        bp[i][j],
    ) by {}
    lemma_concat_all_forall(rp, p);
    lemma_concat_all_forall(bp, p);
    let a = concat_all(rp);
    let b = concat_all(bp);
    let fs = a + b;
    assert forall|k: int| 0 <= k < fs.len() implies #[trigger] p(fs[k]) by {
        if k < a.len() {
            assert(p(a[k]));
        } else {
            assert(p(b[k - a.len()]));
        }
    }
    assert(rbac::rbac_findings(roles, bindings) == fs);
    assert forall|k: int| 0 <= k < fs.len() implies (#[trigger] fs[k]).heuristic == false && fs[k].area
        == "RBAC"@ by {
        assert(p(fs[k]));
    }
}

/// The pod security check marks no finding heuristic, and reports under
/// `Pod Security`.
pub proof fn lemma_pod_security_marked(pods: Seq<PodInfo>)
    ensures
        all_marked(pod_security::pod_security_findings(pods), false, "Pod Security"@),
{
    let p = |f: FindingView| f.heuristic == false && f.area == "Pod Security"@;
    let pieces = pods.map_values(|x: PodInfo| pod_security::pod_findings(x));
    assert forall|i: int, j: int| 0 <= i < pieces.len() && 0 <= j < pieces[i].len() implies #[trigger] p(
        pieces[i][j],
    ) by {
        let pod = pods[i];
        match pod.spec {
            None => {},
            Some(spec) => {
                let name = crate::text::text_or_empty(pod.name);
                let ns = crate::text::opt_text(pod.namespace);
                let inner = pod_security::container_pieces(name, ns, spec);
                assert forall|a: int, b: int| 0 <= a < inner.len() && 0 <= b < inner[a].len() implies #[trigger] p(
                    inner[a][b],
                ) by {}
                lemma_concat_all_forall(inner, p);
                let head = pod_security::host_piece(name, ns, spec);
                assert(pieces[i] == head + concat_all(inner));
                if j >= head.len() {
                    assert(pieces[i][j] == concat_all(inner)[j - head.len()]);
                }
            },
        }
    }
    lemma_concat_all_forall(pieces, p);
    let fs = concat_all(pieces);
    assert(pod_security::pod_security_findings(pods) == fs);
    assert forall|k: int| 0 <= k < fs.len() implies (#[trigger] fs[k]).heuristic == false && fs[k].area
        == "Pod Security"@ by {
        assert(p(fs[k]));
    }
}

/// The network check marks no finding heuristic, and reports under
/// `Network Policies`.
pub proof fn lemma_network_marked(namespaces: Seq<NamespaceInfo>, policies: Seq<NetworkPolicyInfo>)
    ensures
        all_marked(network::network_findings(namespaces, policies), false, "Network Policies"@),
{
    let pieces = network::network_pieces(namespaces, policies);
    let p = |f: FindingView| f.heuristic == false && f.area == "Network Policies"@;
    assert forall|i: int, j: int| 0 <= i < pieces.len() && 0 <= j < pieces[i].len() implies #[trigger] p(
        pieces[i][j],
    ) by {}
    lemma_concat_all_forall(pieces, p);
    let fs = concat_all(pieces);
    assert(network::network_findings(namespaces, policies) == fs);
    assert forall|k: int| 0 <= k < fs.len() implies (#[trigger] fs[k]).heuristic == false && fs[k].area
        == "Network Policies"@ by {
        assert(p(fs[k]));
    }
}

/// The exposure check marks no finding heuristic, and reports under
/// `Ingress / Exposure`.
pub proof fn lemma_ingress_marked(services: Seq<ServiceInfo>, ingresses: Seq<IngressInfo>)
    ensures
        all_marked(ingress::exposure_findings(services, ingresses), false, "Ingress / Exposure"@),
{
    let sp = services.map_values(|s: ServiceInfo| ingress::service_piece(s));
    let ip = ingresses.map_values(|i: IngressInfo| ingress::ingress_piece(i));
    let p = |f: FindingView| f.heuristic == false && f.area == "Ingress / Exposure"@;
    assert forall|i: int, j: int| 0 <= i < sp.len() && 0 <= j < sp[i].len() implies #[trigger] p(
        sp[i][j],
    ) by {}
    assert forall|i: int, j: int| 0 <= i < ip.len() && 0 <= j < ip[i].len() implies #[trigger] p(
        ip[i][j],
    ) by {}
    lemma_concat_all_forall(sp, p);
    lemma_concat_all_forall(ip, p);
    let a = concat_all(sp);
    let b = concat_all(ip);
    let fs = a + b;
    assert forall|k: int| 0 <= k < fs.len() implies #[trigger] p(fs[k]) by {
        if k < a.len() {
            assert(p(a[k]));
        } else {
            assert(p(b[k - a.len()]));
        }
    }
    assert(ingress::exposure_findings(services, ingresses) == fs);
    assert forall|k: int| 0 <= k < fs.len() implies (#[trigger] fs[k]).heuristic == false && fs[k].area
        == "Ingress / Exposure"@ by {
        assert(p(fs[k]));
    }
}

/// The images check marks no finding heuristic, and reports under `Images`.
pub proof fn lemma_images_marked(pods: Seq<PodInfo>)
    ensures
        all_marked(images::image_findings(pods), false, "Images"@),
{
    let p = |f: FindingView| f.heuristic == false && f.area == "Images"@;
    let pieces = pods.map_values(|x: PodInfo| images::pod_image_findings(x));
    assert forall|i: int, j: int| 0 <= i < pieces.len() && 0 <= j < pieces[i].len() implies #[trigger] p(
        pieces[i][j],
    ) by {
        let pod = pods[i];
        match pod.spec {
            None => {},
            Some(spec) => {
                let inner = spec.containers@.map_values(
                    |c: ContainerInfo| images::container_image_piece(pod, c),
                );
                assert forall|a: int, b: int| 0 <= a < inner.len() && 0 <= b < inner[a].len() implies #[trigger] p(
                    inner[a][b],
                ) by {}
                lemma_concat_all_forall(inner, p);
            },
        }
    }
    lemma_concat_all_forall(pieces, p);
    let fs = concat_all(pieces);
    assert(images::image_findings(pods) == fs);
    assert forall|k: int| 0 <= k < fs.len() implies (#[trigger] fs[k]).heuristic == false && fs[k].area
        == "Images"@ by {
        assert(p(fs[k]));
    }
}

/// The logging check marks its finding heuristic, under
/// `Logging / Monitoring`.
pub proof fn lemma_logging_marked(cms: Seq<ConfigMapInfo>)
    ensures
        all_marked(logging_monitoring::logging_findings(cms), true, "Logging / Monitoring"@),
{
}

/// The API server and etcd checks mark their finding heuristic.
pub proof fn lemma_standing_notes_marked()
    ensures
        all_marked(seq![api_config::api_server_finding()], true, "API Server / Cluster-Konfiguration"@),
        all_marked(seq![etcd::etcd_finding()], true, "etcd"@),
{
}

/// The TLS check marks no finding heuristic.
pub proof fn lemma_tls_not_heuristic(
    mails: Seq<Seq<char>>,
    targets: Seq<Seq<char>>,
    outcomes: Seq<Option<ProbeOutcome>>,
)
    ensures
        forall|k: int|
            0 <= k < tls::tls_findings(mails, targets, outcomes).len() ==> !(
            #[trigger] tls::tls_findings(mails, targets, outcomes)[k]).heuristic,
{
    let ep = mails.map_values(|m: Seq<char>| tls::email_piece(m));
    let pp = tls::target_pieces(targets, outcomes);
    let p = |f: FindingView| !f.heuristic;
    assert forall|i: int, j: int| 0 <= i < ep.len() && 0 <= j < ep[i].len() implies #[trigger] p(
        ep[i][j],
    ) by {}
    assert forall|i: int, j: int| 0 <= i < pp.len() && 0 <= j < pp[i].len() implies #[trigger] p(
        pp[i][j],
    ) by {
        let target = targets[i];
        match tls::url_scheme_of(target) {
            None => {},
            Some(scheme) => {
                match tls::outcome_at(outcomes, i) {
                    None => {},
                    Some(ProbeOutcome::Failed { error }) => {},
                    Some(ProbeOutcome::Answered { hsts, server_debug }) => {
                        let x = only_if(
                            scheme != "https"@,
                            tls::web_finding(
                                "TLS-NO-HTTPS"@,
                                "Endpoint ohne HTTPS"@,
                                target,
                                "URL verwendet kein HTTPS"@,
                                Severity::High,
                            ),
                        );
                        let y = only_if(
                            !hsts,
                            tls::web_finding(
                                "TLS-NO-HSTS"@,
                                "HSTS Header fehlt"@,
                                target,
                                "strict-transport-security Header nicht gesetzt"@,
                                Severity::Medium,
                            ),
                        );
                        let all = pp[i];
                        if j < x.len() {
                            assert(all[j] == x[j]);
                        } else if j < x.len() + y.len() {
                            assert(all[j] == y[j - x.len()]);
                        }
                    },
                }
            },
        }
    }
    lemma_concat_all_forall(ep, p);
    lemma_concat_all_forall(pp, p);
    let a = concat_all(ep);
    let b = concat_all(pp);
    let fs = a + b;
    assert forall|k: int| 0 <= k < fs.len() implies #[trigger] p(fs[k]) by {
        if k < a.len() {
            assert(p(a[k]));
        } else {
            assert(p(b[k - a.len()]));
        }
    }
    assert(tls::tls_findings(mails, targets, outcomes) == fs);
    assert forall|k: int| 0 <= k < fs.len() implies !(#[trigger] fs[k]).heuristic by {
        assert(p(fs[k]));
    }
}

/// A container that is not privileged, forbids privilege escalation, has a
/// read-only root filesystem and resource limits gives no finding.
pub open spec fn hardened(c: ContainerInfo) -> bool {
    &&& !pod_security::is_privileged(c)
    &&& !pod_security::may_escalate(c)
    &&& !pod_security::root_fs_writable(c)
    &&& !pod_security::lacks_limits(c)
}

/// A hardened container gives no finding.
pub proof fn lemma_hardened_container_clean(pod_name: Seq<char>, ns: Option<Seq<char>>, c: ContainerInfo)
    requires
        hardened(c),
    ensures
        pod_security::container_findings(pod_name, ns, c).len() == 0,
{
}

/// An endpoint reached over HTTPS that sends HSTS and no server header gives
/// no finding.
pub proof fn lemma_secure_endpoint_clean(target: Seq<char>)
    ensures
        tls::outcome_findings(
            target,
            "https"@,
            ProbeOutcome::Answered { hsts: true, server_debug: None },
        ).len() == 0,
{
}

/// An endpoint that cannot be reached gives exactly one finding, of severity
/// Info.
pub proof fn lemma_unreachable_endpoint(target: Seq<char>, scheme: Seq<char>, error: String)
    ensures
        tls::outcome_findings(target, scheme, ProbeOutcome::Failed { error }).len() == 1,
        tls::outcome_findings(target, scheme, ProbeOutcome::Failed { error })[0].severity
            == Severity::Info,
{
}

} // verus!
