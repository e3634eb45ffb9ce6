//! Pod security: host namespaces, privileged containers, privilege
//! escalation, writable root filesystems and missing resource limits.
use vstd::prelude::*;
use crate::cluster::{ContainerInfo, PodInfo, PodSpecInfo};
use crate::models::{
    CheckResult, CheckResultView, Evidence, EvidenceView, Finding, FindingView, ResourceReference,
    ResourceReferenceView, Severity, ids_distinct, lemma_concat_ids_distinct, lemma_ids_distinct_add,
    has_id, lemma_prefix_cancel, only_if, push_finding,
};
use crate::seqs::{
    concat_all, lemma_concat_all_contains, lemma_concat_all_forall, lemma_concat_all_take,
};
use crate::text::{clone_opt, has_prefix, join3, opt_text, owned, text_or_empty, unwrap_or_empty};

verus! {

/// The check on pod and container hardening.
pub struct PodSecurityCheck;

/// The finding that `base_finding` builds.
pub open spec fn pod_base_finding(
    id_prefix: Seq<char>,
    title: Seq<char>,
    pod_name: Seq<char>,
    namespace: Option<Seq<char>>,
    detail: Seq<char>,
    severity: Severity,
) -> FindingView {
    FindingView {
        id: id_prefix + "-"@ + pod_name,
        title: title,
        area: "Pod Security"@,
        criterion: "Pod Hardening nach Least Privilege"@,
        description: "Sicherheitsrelevante Pod-Konfiguration weicht von Best Practices ab."@,
        resource: Some(ResourceReferenceView { kind: "Pod"@, namespace: namespace, name: pod_name }),
        evidence: EvidenceView { summary: detail, details: seq![detail] },
        risk: "Erhöhte Privilegien oder schwache Isolation können zur Cluster-Kompromittierung führen."@,
        recommendation: "SecurityContext hart setzen (non-root, no privilege escalation, readonly FS, Limits)."@,
        severity: severity,
        heuristic: false,
    }
}

/// A finding of the pod security area about a pod.
pub fn base_finding(
    id_prefix: &str,
    title: &str,
    pod_name: &str,
    namespace: Option<String>,
    detail: &str,
    severity: Severity,
) -> (r: Finding)
    ensures
        r@ == pod_base_finding(id_prefix@, title@, pod_name@, opt_text(namespace), detail@, severity),
{
    let mut details: Vec<String> = Vec::new();
    details.push(owned(detail));
    let r = Finding {
        id: join3(id_prefix, "-", pod_name),
        title: owned(title),
        area: owned("Pod Security"),
        criterion: owned("Pod Hardening nach Least Privilege"),
        description: owned("Sicherheitsrelevante Pod-Konfiguration weicht von Best Practices ab."),
        resource: Some(ResourceReference { kind: owned("Pod"), namespace, name: owned(pod_name) }),
        evidence: Evidence { summary: owned(detail), details },
        risk: owned(
            "Erhöhte Privilegien oder schwache Isolation können zur Cluster-Kompromittierung führen.",
        ),
        recommendation: owned(
            "SecurityContext hart setzen (non-root, no privilege escalation, readonly FS, Limits).",
        ),
        severity,
        heuristic: false,
    };
    assert(r@.evidence.details =~= seq![detail@]);
    r
}

/// `hostNetwork`, `hostPID` or `hostIPC` is set to true.
pub open spec fn uses_host_namespaces(spec: PodSpecInfo) -> bool {
    spec.host_network == Some(true) || spec.host_pid == Some(true) || spec.host_ipc == Some(true)
}

/// `privileged` is set to true.
pub open spec fn is_privileged(c: ContainerInfo) -> bool {
    match c.security_context {
        Some(sc) => sc.privileged == Some(true),
        None => false,
    }
}

/// `allowPrivilegeEscalation` is true or unset.
pub open spec fn may_escalate(c: ContainerInfo) -> bool {
    match c.security_context {
        Some(sc) => sc.allow_privilege_escalation != Some(false),
        None => true,
    }
}

/// `readOnlyRootFilesystem` is not set to true.
pub open spec fn root_fs_writable(c: ContainerInfo) -> bool {
    match c.security_context {
        Some(sc) => sc.read_only_root_filesystem != Some(true),
        None => true,
    }
}

/// `resources.limits` is not set.
pub open spec fn lacks_limits(c: ContainerInfo) -> bool {
    match c.resources {
        Some(r) => !r.has_limits,
        None => true,
    }
}

/// The id prefixes of the rules about one container.
pub open spec fn is_container_rule_prefix(p: Seq<char>) -> bool {
    ||| p == "POD-PRIV"@
    ||| p == "POD-APE"@
    ||| p == "POD-ROFS"@
    ||| p == "POD-LIMITS"@
}

/// The id prefixes of all rules of the check.
pub open spec fn is_pod_rule_prefix(p: Seq<char>) -> bool {
    p == "POD-HOST-NS"@ || is_container_rule_prefix(p)
}

/// The id of a finding of rule `prefix` about pod `pod`, as `base_finding`
/// builds it: the prefix, `-`, the pod's name.
pub open spec fn pod_rule_id(prefix: Seq<char>, pod: Seq<char>) -> Seq<char> {
    prefix + "-"@ + pod
}

/// The findings for one container, in the order privileged, privilege
/// escalation, root filesystem, limits.
pub open spec fn container_findings(
    pod_name: Seq<char>,
    ns: Option<Seq<char>>,
    c: ContainerInfo,
) -> Seq<FindingView> {
    let n = c.name@;
    only_if(
        is_privileged(c),
        pod_base_finding(
            "POD-PRIV"@,
            "Privilegierter Container"@,
            pod_name,
            ns,
            "Container "@ + n + " privileged=true"@,
            Severity::Critical,
        ),
    ) + only_if(
        may_escalate(c),
        pod_base_finding(
            "POD-APE"@,
            "allowPrivilegeEscalation aktiv/undefiniert"@,
            pod_name,
            ns,
            "Container "@ + n + " allowPrivilegeEscalation nicht auf false"@,
            Severity::High,
        ),
    ) + only_if(
        root_fs_writable(c),
        pod_base_finding(
            "POD-ROFS"@,
            "readOnlyRootFilesystem fehlt"@,
            pod_name,
            ns,
            "Container "@ + n + " readOnlyRootFilesystem!=true"@,
            Severity::Medium,
        ),
    ) + only_if(
        lacks_limits(c),
        pod_base_finding(
            "POD-LIMITS"@,
            "Fehlende Ressourcenlimits"@,
            pod_name,
            ns,
            "Container "@ + n + " ohne resources.limits"@,
            Severity::Medium,
        ),
    )
}

/// The finding on host namespaces of a pod, where it uses them.
pub open spec fn host_piece(name: Seq<char>, ns: Option<Seq<char>>, spec: PodSpecInfo) -> Seq<
    FindingView,
> {
    only_if(
        uses_host_namespaces(spec),
        pod_base_finding(
            "POD-HOST-NS"@,
            "Host-Namespace Nutzung erkannt"@,
            name,
            ns,
            "hostNetwork/hostPID/hostIPC aktiviert"@,
            Severity::High,
        ),
    )
}

/// What each container of a pod contributes, in order.
pub open spec fn container_pieces(
    name: Seq<char>,
    ns: Option<Seq<char>>,
    spec: PodSpecInfo,
) -> Seq<Seq<FindingView>> {
    spec.containers@.map_values(|c: ContainerInfo| container_findings(name, ns, c))
}

/// The findings for one pod: host namespaces first, then container by
/// container. A pod without a spec has none.
pub open spec fn pod_findings(p: PodInfo) -> Seq<FindingView> {
    let name = text_or_empty(p.name);
    let ns = opt_text(p.namespace);
    match p.spec {
        None => Seq::empty(),
        Some(spec) => host_piece(name, ns, spec) + concat_all(container_pieces(name, ns, spec)),
    }
}

/// The findings for all pods, in order.
pub open spec fn pod_security_findings(pods: Seq<PodInfo>) -> Seq<FindingView> {
    concat_all(pods.map_values(|p: PodInfo| pod_findings(p)))
}

/// `id` is the id of a rule about one container, for pod `pod`.
pub open spec fn names_container_rule(id: Seq<char>, pod: Seq<char>) -> bool {
    exists|p: Seq<char>| is_container_rule_prefix(p) && id == #[trigger] pod_rule_id(p, pod)
}

/// `id` is the id of some rule of the check, for pod `pod`.
pub open spec fn names_pod(id: Seq<char>, pod: Seq<char>) -> bool {
    exists|p: Seq<char>| is_pod_rule_prefix(p) && id == #[trigger] pod_rule_id(p, pod)
}

/// `id` is the id of some rule of the check, for some pod.
pub open spec fn names_pod_any_rule(id: Seq<char>) -> bool {
    exists|p: Seq<char>, pod: Seq<char>| is_pod_rule_prefix(p) && id == #[trigger] pod_rule_id(p, pod)
}

/// The pods are such that their ids cannot meet: no two pods share a name,
/// and no pod has more than one container. (A pod with two containers that
/// both miss a setting gets the same id twice; so do two pods of one name in
/// two namespaces.)
pub open spec fn pod_ids_separable(pods: Seq<PodInfo>) -> bool {
    &&& forall|i: int, j: int|
        0 <= i < j < pods.len() ==> text_or_empty((#[trigger] pods[i]).name) != text_or_empty(
            (#[trigger] pods[j]).name,
        )
    &&& forall|i: int|
        0 <= i < pods.len() ==> match (#[trigger] pods[i]).spec {
            Some(spec) => spec.containers@.len() <= 1,
            None => true,
        }
}

/// The character at place 4 of an id tells its rule.
proof fn lemma_pod_id_letter(p: Seq<char>, pod: Seq<char>)
    requires
        is_pod_rule_prefix(p),
    ensures
        pod_rule_id(p, pod).len() > 4,
        pod_rule_id(p, pod)[4] == p[4],
{
    reveal_strlit("POD-HOST-NS");
    reveal_strlit("POD-PRIV");
    reveal_strlit("POD-APE");
    reveal_strlit("POD-ROFS");
    reveal_strlit("POD-LIMITS");
    assert((p + "-"@ + pod)[4] == (p + "-"@)[4]);
}

/// An id of the check gives back its rule and its pod.
pub proof fn lemma_pod_id_injective(p1: Seq<char>, pod1: Seq<char>, p2: Seq<char>, pod2: Seq<char>)
    requires
        is_pod_rule_prefix(p1),
        is_pod_rule_prefix(p2),
        pod_rule_id(p1, pod1) == pod_rule_id(p2, pod2),
    ensures
        p1 == p2,
        pod1 == pod2,
{
    reveal_strlit("POD-HOST-NS");
    reveal_strlit("POD-PRIV");
    reveal_strlit("POD-APE");
    reveal_strlit("POD-ROFS");
    reveal_strlit("POD-LIMITS");
    lemma_pod_id_letter(p1, pod1);
    lemma_pod_id_letter(p2, pod2);
    assert(p1 == p2);
    lemma_prefix_cancel(p1 + "-"@, pod1, pod2);
}

/// The findings of one container carry distinct ids, each that of a rule
/// about one container.
proof fn lemma_container_ids(name: Seq<char>, ns: Option<Seq<char>>, c: ContainerInfo)
    ensures
        ids_distinct(container_findings(name, ns, c)),
        forall|k: int|
            0 <= k < container_findings(name, ns, c).len() ==> names_container_rule(
                (#[trigger] container_findings(name, ns, c)[k]).id,
                name,
            ),
{
    reveal_strlit("POD-PRIV");
    reveal_strlit("POD-APE");
    reveal_strlit("POD-ROFS");
    reveal_strlit("POD-LIMITS");
    let n = c.name@;
    let f1 = pod_base_finding("POD-PRIV"@, "Privilegierter Container"@, name, ns,
        "Container "@ + n + " privileged=true"@, Severity::Critical);
    let f2 = pod_base_finding("POD-APE"@, "allowPrivilegeEscalation aktiv/undefiniert"@, name, ns,
        "Container "@ + n + " allowPrivilegeEscalation nicht auf false"@, Severity::High);
    let f3 = pod_base_finding("POD-ROFS"@, "readOnlyRootFilesystem fehlt"@, name, ns,
        "Container "@ + n + " readOnlyRootFilesystem!=true"@, Severity::Medium);
    let f4 = pod_base_finding("POD-LIMITS"@, "Fehlende Ressourcenlimits"@, name, ns,
        "Container "@ + n + " ohne resources.limits"@, Severity::Medium);
    let o1 = only_if(is_privileged(c), f1);
    let o2 = only_if(may_escalate(c), f2);
    let o3 = only_if(root_fs_writable(c), f3);
    let o4 = only_if(lacks_limits(c), f4);
    let all = container_findings(name, ns, c);
    assert(all == o1 + o2 + o3 + o4);
    lemma_pod_id_letter("POD-PRIV"@, name);
    lemma_pod_id_letter("POD-APE"@, name);
    lemma_pod_id_letter("POD-ROFS"@, name);
    lemma_pod_id_letter("POD-LIMITS"@, name);
    assert(names_container_rule(f1.id, name));
    assert(names_container_rule(f2.id, name));
    assert(names_container_rule(f3.id, name));
    assert(names_container_rule(f4.id, name));
    assert(f1.id[4] == 'P' && f2.id[4] == 'A' && f3.id[4] == 'R' && f4.id[4] == 'L');
    assert forall|k: int| 0 <= k < all.len() implies names_container_rule(
        (#[trigger] all[k]).id,
        name,
    ) && (all[k] == f1 || all[k] == f2 || all[k] == f3 || all[k] == f4) by {
        let a2 = o1 + o2;
        let a3 = o1 + o2 + o3;
        if k < o1.len() {
            assert(all[k] == o1[k]);
        } else if k < a2.len() {
            assert(all[k] == a2[k]);
        } else if k < a3.len() {
            assert(all[k] == a3[k]);
        } else {
            assert(all[k] == o4[k - a3.len()]);
        }
    }
    assert forall|i: int, j: int| 0 <= i < j < all.len() implies (#[trigger] all[i]).id != (
    #[trigger] all[j]).id by {
        let a2 = o1 + o2;
        let a3 = o1 + o2 + o3;
        // each part holds at most one finding, and the parts differ at place 4
        if i < o1.len() {
            assert(all[i] == f1);
        }
        if o1.len() <= i < a2.len() {
            assert(all[i] == f2);
        }
        if a2.len() <= i < a3.len() {
            assert(all[i] == f3);
        }
        if a3.len() <= i {
            assert(all[i] == f4);
        }
        if j < o1.len() {
            assert(all[j] == f1);
        }
        if o1.len() <= j < a2.len() {
            assert(all[j] == f2);
        }
        if a2.len() <= j < a3.len() {
            assert(all[j] == f3);
        }
        if a3.len() <= j {
            assert(all[j] == f4);
        }
    }
}

/// The security context of the container sets `privileged` to true.
pub open spec fn runs_privileged(c: ContainerInfo) -> bool {
    c.security_context is Some && c.security_context->0.privileged == Some(true)
}

/// The security context of the container is missing, or does not set
/// `allowPrivilegeEscalation` to false.
pub open spec fn escalation_not_forbidden(c: ContainerInfo) -> bool {
    c.security_context is None || c.security_context->0.allow_privilege_escalation != Some(false)
}

/// The security context of the container is missing, or does not set
/// `readOnlyRootFilesystem` to true.
pub open spec fn root_fs_not_read_only(c: ContainerInfo) -> bool {
    c.security_context is None || c.security_context->0.read_only_root_filesystem != Some(true)
}

/// The container has no resources, or its resources set no limits.
pub open spec fn limits_missing(c: ContainerInfo) -> bool {
    c.resources is None || !c.resources->0.has_limits
}

/// Each rule about a container gives its finding, under its prefix, `-` and
/// the pod's name, exactly when the container's settings call for it:
/// privileged set to true; privilege escalation not forbidden; root
/// filesystem not read-only; no limits. Each finding names the container.
pub proof fn lemma_container_rules_reported(name: Seq<char>, ns: Option<Seq<char>>, c: ContainerInfo)
    ensures
        has_id(container_findings(name, ns, c), "POD-PRIV-"@ + name) <==> runs_privileged(c),
        has_id(container_findings(name, ns, c), "POD-APE-"@ + name) <==> escalation_not_forbidden(c),
        has_id(container_findings(name, ns, c), "POD-ROFS-"@ + name) <==> root_fs_not_read_only(c),
        has_id(container_findings(name, ns, c), "POD-LIMITS-"@ + name) <==> limits_missing(c),
        container_findings(name, ns, c).len() <= 4,
        forall|k: int|
            0 <= k < container_findings(name, ns, c).len() ==> has_prefix(
                (#[trigger] container_findings(name, ns, c)[k]).evidence.summary,
                "Container "@ + c.name@ + " "@,
            ),
        root_fs_not_read_only(c) ==> exists|k: int|
            0 <= k < container_findings(name, ns, c).len() && (#[trigger] container_findings(
                name,
                ns,
                c,
            )[k]).id == "POD-ROFS-"@ + name && container_findings(name, ns, c)[k].evidence.summary
                == "Container "@ + c.name@ + " readOnlyRootFilesystem!=true"@
                && container_findings(name, ns, c)[k].severity == Severity::Medium,
{
    reveal_strlit("POD-PRIV");
    reveal_strlit("POD-APE");
    reveal_strlit("POD-ROFS");
    reveal_strlit("POD-LIMITS");
    reveal_strlit("POD-PRIV-");
    reveal_strlit("POD-APE-");
    reveal_strlit("POD-ROFS-");
    reveal_strlit("POD-LIMITS-");
    reveal_strlit("-");
    reveal_strlit("Container ");
    reveal_strlit(" ");
    reveal_strlit(" privileged=true");
    reveal_strlit(" allowPrivilegeEscalation nicht auf false");
    reveal_strlit(" readOnlyRootFilesystem!=true");
    reveal_strlit(" ohne resources.limits");
    let n = c.name@;
    let f1 = pod_base_finding("POD-PRIV"@, "Privilegierter Container"@, name, ns,
        "Container "@ + n + " privileged=true"@, Severity::Critical);
    let f2 = pod_base_finding("POD-APE"@, "allowPrivilegeEscalation aktiv/undefiniert"@, name, ns,
        "Container "@ + n + " allowPrivilegeEscalation nicht auf false"@, Severity::High);
    let f3 = pod_base_finding("POD-ROFS"@, "readOnlyRootFilesystem fehlt"@, name, ns,
        "Container "@ + n + " readOnlyRootFilesystem!=true"@, Severity::Medium);
    let f4 = pod_base_finding("POD-LIMITS"@, "Fehlende Ressourcenlimits"@, name, ns,
        "Container "@ + n + " ohne resources.limits"@, Severity::Medium);
    let o1 = only_if(is_privileged(c), f1);
    let o2 = only_if(may_escalate(c), f2);
    let o3 = only_if(root_fs_writable(c), f3);
    let o4 = only_if(lacks_limits(c), f4);
    let all = container_findings(name, ns, c);
    assert(all == o1 + o2 + o3 + o4);
    let (i1, i2, i3, i4) = ("POD-PRIV-"@ + name, "POD-APE-"@ + name, "POD-ROFS-"@ + name, "POD-LIMITS-"@ + name);
    assert(f1.id =~= i1 && f2.id =~= i2 && f3.id =~= i3 && f4.id =~= i4);
    assert(i1[4] == 'P' && i2[4] == 'A' && i3[4] == 'R' && i4[4] == 'L');
    let a2 = o1 + o2;
    let a3 = o1 + o2 + o3;
    assert forall|k: int| 0 <= k < all.len() implies ((#[trigger] all[k] == f1 && is_privileged(c)) || (
    all[k] == f2 && may_escalate(c)) || (all[k] == f3 && root_fs_writable(c)) || (all[k] == f4
        && lacks_limits(c))) by {
        if k < o1.len() {
            assert(all[k] == o1[k]);
        } else if k < a2.len() {
            assert(all[k] == a2[k]);
            assert(a2[k] == o2[k - o1.len()]);
        } else if k < a3.len() {
            assert(all[k] == a3[k]);
            assert(a3[k] == o3[k - a2.len()]);
        } else {
            assert(all[k] == o4[k - a3.len()]);
        }
    }
    if is_privileged(c) {
        assert(all[0] == f1);
    }
    if may_escalate(c) {
        assert(all[o1.len() as int] == a2[o1.len() as int]);
        assert(all[o1.len() as int] == f2);
    }
    if root_fs_writable(c) {
        assert(all[a2.len() as int] == a3[a2.len() as int]);
        assert(all[a2.len() as int] == f3);
    }
    if lacks_limits(c) {
        assert(all[a3.len() as int] == f4);
    }
    assert forall|k: int| 0 <= k < all.len() implies has_prefix(
        (#[trigger] all[k]).evidence.summary,
        "Container "@ + n + " "@,
    ) by {
        let sm = all[k].evidence.summary;
        let pre = "Container "@ + n + " "@;
        assert(sm.subrange(0, pre.len() as int) =~= pre);
    }
    assert(is_privileged(c) == runs_privileged(c));
    assert(may_escalate(c) == escalation_not_forbidden(c));
    assert(root_fs_writable(c) == root_fs_not_read_only(c));
    assert(lacks_limits(c) == limits_missing(c));
}

/// A container gets the root filesystem finding `POD-ROFS-` and its pod's
/// name exactly when its security context is missing or does not set
/// `readOnlyRootFilesystem` to true (set to false, or left unset); the
/// finding names the container and is medium.
pub proof fn lemma_rofs_reported(name: Seq<char>, ns: Option<Seq<char>>, c: ContainerInfo)
    ensures
        (exists|k: int|
            0 <= k < container_findings(name, ns, c).len() && (#[trigger] container_findings(
                name,
                ns,
                c,
            )[k]).id == "POD-ROFS-"@ + name) <==> root_fs_not_read_only(c),
        root_fs_not_read_only(c) ==> exists|k: int|
            0 <= k < container_findings(name, ns, c).len() && (#[trigger] container_findings(
                name,
                ns,
                c,
            )[k]).id == "POD-ROFS-"@ + name && container_findings(name, ns, c)[k].evidence.summary
                == "Container "@ + c.name@ + " readOnlyRootFilesystem!=true"@
                && container_findings(name, ns, c)[k].severity == Severity::Medium,
{
    lemma_container_rules_reported(name, ns, c);
    assert(has_id(container_findings(name, ns, c), "POD-ROFS-"@ + name) == (exists|k: int|
        0 <= k < container_findings(name, ns, c).len() && (#[trigger] container_findings(
            name,
            ns,
            c,
        )[k]).id == "POD-ROFS-"@ + name));
}

/// A pod gets the host namespace finding `POD-HOST-NS-` and its name exactly
/// when it has a spec that sets `hostNetwork`, `hostPID` or `hostIPC` to
/// true; the finding comes first among the pod's findings.
pub proof fn lemma_host_namespaces_reported(p: PodInfo)
    ensures
        has_id(pod_findings(p), "POD-HOST-NS-"@ + text_or_empty(p.name)) <==> (p.spec is Some && (
        p.spec->0.host_network == Some(true) || p.spec->0.host_pid == Some(true)
            || p.spec->0.host_ipc == Some(true))),
        has_id(pod_findings(p), "POD-HOST-NS-"@ + text_or_empty(p.name)) ==> pod_findings(p)[0].id
            == "POD-HOST-NS-"@ + text_or_empty(p.name) && pod_findings(p)[0].severity == Severity::High,
{
    reveal_strlit("POD-HOST-NS");
    reveal_strlit("POD-HOST-NS-");
    reveal_strlit("POD-PRIV");
    reveal_strlit("POD-APE");
    reveal_strlit("POD-ROFS");
    reveal_strlit("POD-LIMITS");
    reveal_strlit("-");
    let name = text_or_empty(p.name);
    let hid = "POD-HOST-NS-"@ + name;
    match p.spec {
        None => {},
        Some(spec) => {
            let ns = opt_text(p.namespace);
            let host = host_piece(name, ns, spec);
            let pieces = container_pieces(name, ns, spec);
            let rest = concat_all(pieces);
            assert(pod_findings(p) == host + rest);
            lemma_pod_id_letter("POD-HOST-NS"@, name);
            assert(hid =~= pod_rule_id("POD-HOST-NS"@, name));
            let pred = |f: FindingView| names_container_rule(f.id, name);
            assert forall|i: int, a: int| 0 <= i < pieces.len() && 0 <= a < pieces[i].len() implies #[trigger] pred(
                pieces[i][a],
            ) by {
                lemma_container_ids(name, ns, spec.containers@[i]);
            }
            lemma_concat_all_forall(pieces, pred);
            assert forall|k: int| 0 <= k < rest.len() implies (#[trigger] rest[k]).id != hid by {
                assert(pred(rest[k]));
                let q = choose|q: Seq<char>|
                    is_container_rule_prefix(q) && rest[k].id == #[trigger] pod_rule_id(q, name);
                if rest[k].id == hid {
                    lemma_pod_id_injective("POD-HOST-NS"@, name, q, name);
                    assert(q[4] != "POD-HOST-NS"@[4]);
                }
            }
            if uses_host_namespaces(spec) {
                assert(pod_findings(p)[0] == host[0]);
            } else {
                assert(host.len() == 0);
                assert(pod_findings(p) =~= rest);
            }
        },
    }
}

/// Every container of a listed pod whose security context is missing or does
/// not set `readOnlyRootFilesystem` to true is reported in the check's
/// findings, under `POD-ROFS-` and its pod's name, naming the container.
pub proof fn lemma_rofs_containers_reported(pods: Seq<PodInfo>, i: int, j: int)
    requires
        0 <= i < pods.len(),
        pods[i].spec is Some,
        0 <= j < pods[i].spec->0.containers@.len(),
        root_fs_not_read_only(pods[i].spec->0.containers@[j]),
    ensures
        exists|m: int|
            0 <= m < pod_security_findings(pods).len() && (#[trigger] pod_security_findings(
                pods,
            )[m]).id == "POD-ROFS-"@ + text_or_empty(pods[i].name)
                && pod_security_findings(pods)[m].evidence.summary == "Container "@
                + pods[i].spec->0.containers@[j].name@ + " readOnlyRootFilesystem!=true"@,
{
    let p = pods[i];
    let spec = p.spec->0;
    let c = spec.containers@[j];
    let name = text_or_empty(p.name);
    let ns = opt_text(p.namespace);
    lemma_rofs_reported(name, ns, c);
    let cf = container_findings(name, ns, c);
    let k = choose|k: int|
        0 <= k < cf.len() && (#[trigger] cf[k]).id == "POD-ROFS-"@ + name && cf[k].evidence.summary
            == "Container "@ + c.name@ + " readOnlyRootFilesystem!=true"@ && cf[k].severity
            == Severity::Medium;
    let f = cf[k];
    let pieces = container_pieces(name, ns, spec);
    assert(pieces[j] == cf);
    lemma_concat_all_contains(pieces, j, k);
    let rest = concat_all(pieces);
    let host = host_piece(name, ns, spec);
    let r = choose|r: int| 0 <= r < rest.len() && rest[r] == f;
    let pf = pod_findings(p);
    assert(pf == host + rest);
    assert(pf[host.len() + r] == f);
    let all = pods.map_values(|x: PodInfo| pod_findings(x));
    assert(all[i] == pf);
    lemma_concat_all_contains(all, i, host.len() + r);
    let fs = concat_all(all);
    assert(pod_security_findings(pods) == fs);
    let m = choose|m: int| 0 <= m < fs.len() && fs[m] == all[i][host.len() + r];
    assert(fs[m] == f);
}

/// Every finding of a pod carries the id of some rule of the check.
pub proof fn lemma_pod_findings_rules(p: PodInfo)
    ensures
        forall|k: int|
            0 <= k < pod_findings(p).len() ==> names_pod(
                (#[trigger] pod_findings(p)[k]).id,
                text_or_empty(p.name),
            ),
{
    match p.spec {
        None => {},
        Some(spec) => {
            reveal_strlit("POD-HOST-NS");
            let name = text_or_empty(p.name);
            let ns = opt_text(p.namespace);
            let host = host_piece(name, ns, spec);
            let pieces = container_pieces(name, ns, spec);
            let cs = spec.containers@;
            let pred = |f: FindingView| names_container_rule(f.id, name);
            assert forall|i: int, a: int| 0 <= i < pieces.len() && 0 <= a < pieces[i].len() implies #[trigger] pred(
                pieces[i][a],
            ) by {
                lemma_container_ids(name, ns, cs[i]);
            }
            lemma_concat_all_forall(pieces, pred);
            let rest = concat_all(pieces);
            assert(pod_findings(p) == host + rest);
            assert forall|k: int| 0 <= k < pod_findings(p).len() implies names_pod(
                (#[trigger] pod_findings(p)[k]).id,
                name,
            ) by {
                if k < host.len() {
                    assert(pod_findings(p)[k] == host[k]);
                    assert(host[k].id == pod_rule_id("POD-HOST-NS"@, name));
                } else {
                    assert(pod_findings(p)[k] == rest[k - host.len()]);
                    assert(pred(rest[k - host.len()]));
                    let q = choose|q: Seq<char>|
                        is_container_rule_prefix(q) && rest[k - host.len()].id == #[trigger] pod_rule_id(
                            q,
                            name,
                        );
                    assert(is_pod_rule_prefix(q));
                }
            }
        },
    }
}

/// The findings of a pod with at most one container carry distinct ids.
proof fn lemma_pod_ids(p: PodInfo)
    requires
        match p.spec {
            Some(spec) => spec.containers@.len() <= 1,
            None => true,
        },
    ensures
        ids_distinct(pod_findings(p)),
{
    match p.spec {
        None => {},
        Some(spec) => {
            reveal_strlit("POD-HOST-NS");
            reveal_strlit("POD-PRIV");
            reveal_strlit("POD-APE");
            reveal_strlit("POD-ROFS");
            reveal_strlit("POD-LIMITS");
            let name = text_or_empty(p.name);
            let ns = opt_text(p.namespace);
            let host = host_piece(name, ns, spec);
            let pieces = container_pieces(name, ns, spec);
            let rest = concat_all(pieces);
            if pieces.len() == 1 {
                assert(pieces.drop_last() =~= Seq::<Seq<FindingView>>::empty());
                    assert(concat_all(pieces.drop_last()) =~= Seq::<FindingView>::empty());
                    assert(pieces.last() == pieces[0]);
                assert(rest =~= pieces[0]);
                lemma_container_ids(name, ns, spec.containers@[0]);
            } else {
                assert(rest =~= Seq::<FindingView>::empty());
            }
            assert(ids_distinct(rest));
            assert forall|k: int| 0 <= k < rest.len() implies names_container_rule(
                (#[trigger] rest[k]).id,
                name,
            ) by {
                lemma_container_ids(name, ns, spec.containers@[0]);
            }
            assert forall|i: int, j: int| 0 <= i < host.len() && 0 <= j < rest.len() implies (
            #[trigger] host[i]).id != (#[trigger] rest[j]).id by {
                assert(host[i].id == pod_rule_id("POD-HOST-NS"@, name));
                assert(names_container_rule(rest[j].id, name));
                let q = choose|q: Seq<char>|
                    is_container_rule_prefix(q) && rest[j].id == #[trigger] pod_rule_id(q, name);
                if host[i].id == rest[j].id {
                    lemma_pod_id_injective("POD-HOST-NS"@, name, q, name);
                }
            }
            lemma_ids_distinct_add(host, rest);
            assert(pod_findings(p) == host + rest);
        },
    }
}

/// Where no two pods share a name and no pod has more than one container, no
/// two findings of the pod security check share an id.
pub proof fn lemma_pod_security_ids_distinct(pods: Seq<PodInfo>)
    requires
        pod_ids_separable(pods),
    ensures
        ids_distinct(pod_security_findings(pods)),
{
    let pieces = pods.map_values(|p: PodInfo| pod_findings(p));
    assert forall|i: int| 0 <= i < pieces.len() implies ids_distinct(#[trigger] pieces[i]) by {
        lemma_pod_ids(pods[i]);
    }
    assert forall|i: int, j: int, a: int, b: int|
        0 <= i < j < pieces.len() && 0 <= a < pieces[i].len() && 0 <= b < pieces[j].len()
            implies (#[trigger] pieces[i][a]).id != (#[trigger] pieces[j][b]).id by {
        let (n1, n2) = (text_or_empty(pods[i].name), text_or_empty(pods[j].name));
        lemma_pod_findings_rules(pods[i]);
        lemma_pod_findings_rules(pods[j]);
        assert(names_pod(pieces[i][a].id, n1));
        assert(names_pod(pieces[j][b].id, n2));
        let q1 = choose|q: Seq<char>| is_pod_rule_prefix(q) && pieces[i][a].id == #[trigger] pod_rule_id(q, n1);
        let q2 = choose|q: Seq<char>| is_pod_rule_prefix(q) && pieces[j][b].id == #[trigger] pod_rule_id(q, n2);
        if pieces[i][a].id == pieces[j][b].id {
            lemma_pod_id_injective(q1, n1, q2, n2);
        }
    }
    lemma_concat_ids_distinct(pieces);
}

fn opt_flag_is(v: Option<bool>, b: bool) -> (r: bool)
    ensures
        r == (v == Some(b)),
{
    match v {
        Some(x) => x == b,
        None => false,
    }
}

/// The finding of rule `prefix` about container `c` of a pod.
fn container_rule_finding(
    prefix: &str,
    title: &str,
    pod_name: &String,
    ns: &Option<String>,
    c: &ContainerInfo,
    detail: &str,
    severity: Severity,
) -> (r: Finding)
    ensures
        r@ == pod_base_finding(
            prefix@,
            title@,
            pod_name@,
            opt_text(*ns),
            "Container "@ + c.name@ + detail@,
            severity,
        ),
{
    let d = join3("Container ", c.name.as_str(), detail);
    base_finding(prefix, title, pod_name.as_str(), clone_opt(ns), d.as_str(), severity)
}

fn check_container(
    findings: &mut Vec<Finding>,
    pod_name: &String,
    ns: &Option<String>,
    c: &ContainerInfo,
)
    ensures
        final(findings).deep_view() == old(findings).deep_view() + container_findings(
            pod_name@,
            opt_text(*ns),
            *c,
        ),
{
    let ghost start = findings.deep_view();
    let ghost n = c.name@;
    let ghost pn = pod_name@;
    let ghost nsv = opt_text(*ns);
    let privileged = match &c.security_context {
        Some(sc) => opt_flag_is(sc.privileged, true),
        None => false,
    };
    if privileged {
        push_finding(
            findings,
            container_rule_finding(
                "POD-PRIV",
                "Privilegierter Container",
                pod_name,
                ns,
                c,
                " privileged=true",
                Severity::Critical,
            ),
        );
    }
    let ghost after_priv = findings.deep_view();
    assert(after_priv =~= start + only_if(
        is_privileged(*c),
        pod_base_finding(
            "POD-PRIV"@,
            "Privilegierter Container"@,
            pn,
            nsv,
            "Container "@ + n + " privileged=true"@,
            Severity::Critical,
        ),
    ));
    let escalates = match &c.security_context {
        Some(sc) => !opt_flag_is(sc.allow_privilege_escalation, false),
        None => true,
    };
    if escalates {
        push_finding(
            findings,
            container_rule_finding(
                "POD-APE",
                "allowPrivilegeEscalation aktiv/undefiniert",
                pod_name,
                ns,
                c,
                " allowPrivilegeEscalation nicht auf false",
                Severity::High,
            ),
        );
    }
    let ghost after_ape = findings.deep_view();
    assert(after_ape =~= after_priv + only_if(
        may_escalate(*c),
        pod_base_finding(
            "POD-APE"@,
            "allowPrivilegeEscalation aktiv/undefiniert"@,
            pn,
            nsv,
            "Container "@ + n + " allowPrivilegeEscalation nicht auf false"@,
            Severity::High,
        ),
    ));
    let writable = match &c.security_context {
        Some(sc) => !opt_flag_is(sc.read_only_root_filesystem, true),
        None => true,
    };
    if writable {
        push_finding(
            findings,
            container_rule_finding(
                "POD-ROFS",
                "readOnlyRootFilesystem fehlt",
                pod_name,
                ns,
                c,
                " readOnlyRootFilesystem!=true",
                Severity::Medium,
            ),
        );
    }
    let ghost after_rofs = findings.deep_view();
    assert(after_rofs =~= after_ape + only_if(
        root_fs_writable(*c),
        pod_base_finding(
            "POD-ROFS"@,
            "readOnlyRootFilesystem fehlt"@,
            pn,
            nsv,
            "Container "@ + n + " readOnlyRootFilesystem!=true"@,
            Severity::Medium,
        ),
    ));
    let no_limits = match &c.resources {
        Some(r) => !r.has_limits,
        None => true,
    };
    if no_limits {
        push_finding(
            findings,
            container_rule_finding(
                "POD-LIMITS",
                "Fehlende Ressourcenlimits",
                pod_name,
                ns,
                c,
                " ohne resources.limits",
                Severity::Medium,
            ),
        );
    }
    assert(findings.deep_view() =~= after_rofs + only_if(
        lacks_limits(*c),
        pod_base_finding(
            "POD-LIMITS"@,
            "Fehlende Ressourcenlimits"@,
            pn,
            nsv,
            "Container "@ + n + " ohne resources.limits"@,
            Severity::Medium,
        ),
    ));
    assert(findings.deep_view() =~= start + container_findings(pn, nsv, *c));
}

fn check_pod(findings: &mut Vec<Finding>, p: &PodInfo)
    ensures
        final(findings).deep_view() == old(findings).deep_view() + pod_findings(*p),
{
    let ghost start = findings.deep_view();
    match &p.spec {
        None => {
            assert(findings.deep_view() =~= start + pod_findings(*p));
        },
        Some(spec) => {
            let pod_name = unwrap_or_empty(&p.name);
            let ns = clone_opt(&p.namespace);
            let ghost name = pod_name@;
            let ghost nsv = opt_text(ns);
            if opt_flag_is(spec.host_network, true) || opt_flag_is(spec.host_pid, true)
                || opt_flag_is(spec.host_ipc, true) {
                push_finding(
                    findings,
                    base_finding(
                        "POD-HOST-NS",
                        "Host-Namespace Nutzung erkannt",
                        pod_name.as_str(),
                        clone_opt(&ns),
                        "hostNetwork/hostPID/hostIPC aktiviert",
                        Severity::High,
                    ),
                );
            }
            let ghost head = findings.deep_view();
            assert(head =~= start + host_piece(name, nsv, *spec));
            let ghost pieces = container_pieces(name, nsv, *spec);
            let mut i: usize = 0;
            while i < spec.containers.len()
                invariant
                    pieces == container_pieces(name, nsv, *spec),
                    name == pod_name@,
                    nsv == opt_text(ns),
                    i <= spec.containers@.len(),
                    findings.deep_view() == head + concat_all(pieces.take(i as int)),
                decreases spec.containers@.len() - i,
            {
                proof {
                    lemma_concat_all_take(pieces, i as int);
                }
                check_container(findings, &pod_name, &ns, &spec.containers[i]);
                assert(findings.deep_view() =~= head + concat_all(pieces.take(i + 1)));
                i = i + 1;
            }
            assert(pieces.take(i as int) =~= pieces);
            assert(findings.deep_view() =~= start + pod_findings(*p));
        },
    }
}

impl PodSecurityCheck {
    pub fn name(&self) -> (r: &'static str)
        ensures
            r@ == "pod_security"@,
    {
        "pod_security"
    }

    /// The result of the check on the pods of the cluster.
    pub fn evaluate(&self, pods: &Vec<PodInfo>) -> (r: CheckResult)
        ensures
            r@ == (CheckResultView {
                check_name: "pod_security"@,
                findings: pod_security_findings(pods@),
            }),
    {
        let ghost pieces = pods@.map_values(|p: PodInfo| pod_findings(p));
        let mut findings: Vec<Finding> = Vec::new();
        let mut i: usize = 0;
        while i < pods.len()
            invariant
                pieces == pods@.map_values(|p: PodInfo| pod_findings(p)),
                i <= pods@.len(),
                findings.deep_view() == concat_all(pieces.take(i as int)),
            decreases pods@.len() - i,
        {
            proof {
                lemma_concat_all_take(pieces, i as int);
            }
            check_pod(&mut findings, &pods[i]);
            i = i + 1;
        }
        assert(pieces.take(i as int) =~= pieces);
        CheckResult { check_name: owned(self.name()), findings }
    }
}

} // verus!
