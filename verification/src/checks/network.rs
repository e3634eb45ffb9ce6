//! Network policies: namespaces in which no network policy stands.
use vstd::prelude::*;
use crate::cluster::{NamespaceInfo, NetworkPolicyInfo};
use crate::models::{
    CheckResult, CheckResultView, Evidence, EvidenceView, Finding, FindingView, ResourceReference,
    ResourceReferenceView, Severity, ids_distinct, lemma_keyed_ids_distinct, lemma_prefix_cancel,
    push_finding,
};
use crate::seqs::{
    concat_all, lemma_concat_all_contains, lemma_concat_all_forall, lemma_concat_all_take,
};
use crate::text::{join2, opt_text, owned, text_or_empty};

verus! {

/// The check on network segmentation.
pub struct NetworkCheck;

/// The name by which a namespace is shown: its name, else its generated-name
/// prefix, else empty (kube's `ResourceExt::name_any`).
pub open spec fn name_any_text(n: NamespaceInfo) -> Seq<char> {
    match n.name {
        Some(s) => s@,
        None => text_or_empty(n.generate_name),
    }
}

/// A namespace is shown under its name where it has one, else under its
/// generated-name prefix where it has one, else under the empty name.
pub proof fn lemma_name_any_choice(n: NamespaceInfo)
    ensures
        n.name is Some ==> name_any_text(n) == n.name->0@,
        n.name is None && n.generate_name is Some ==> name_any_text(n) == n.generate_name->0@,
        n.name is None && n.generate_name is None ==> name_any_text(n).len() == 0,
{
}

/// `name_any` of a namespace.
pub fn name_any(n: &NamespaceInfo) -> (r: String)
    ensures
        r@ == name_any_text(*n),
{
    match &n.name {
        Some(s) => s.clone(),
        None => match &n.generate_name {
            Some(g) => g.clone(),
            None => String::new(),
        },
    }
}

/// Some policy stands in the namespace named `ns`.
pub open spec fn has_policy(policies: Seq<NetworkPolicyInfo>, ns: Seq<char>) -> bool {
    exists|k: int| 0 <= k < policies.len() && #[trigger] opt_text(policies[k].namespace) == Some(ns)
}

/// The finding for a namespace without policies.
pub open spec fn no_policy_finding(ns: Seq<char>) -> FindingView {
    FindingView {
        id: "NET-NOPOLICY-"@ + ns,
        title: "Namespace ohne NetworkPolicy"@,
        area: "Network Policies"@,
        criterion: "Segmentierung pro Namespace"@,
        description: "Für den Namespace wurden keine NetworkPolicies gefunden."@,
        resource: Some(ResourceReferenceView { kind: "Namespace"@, namespace: None, name: ns }),
        evidence: EvidenceView {
            summary: "Keine Policyobjekte im Namespace"@,
            details: seq!["Zero-trust Segmentierung nicht nachweisbar"@],
        },
        risk: "Unnötig offene Ost-West-Kommunikation möglich"@,
        recommendation: "Default-Deny + explizite Allow-Policies einführen."@,
        severity: Severity::High,
        heuristic: false,
    }
}

pub open spec fn namespace_piece(
    policies: Seq<NetworkPolicyInfo>,
    n: NamespaceInfo,
) -> Seq<FindingView> {
    if has_policy(policies, name_any_text(n)) {
        Seq::empty()
    } else {
        seq![no_policy_finding(name_any_text(n))]
    }
}

/// What each namespace contributes, in order.
pub open spec fn network_pieces(
    namespaces: Seq<NamespaceInfo>,
    policies: Seq<NetworkPolicyInfo>,
) -> Seq<Seq<FindingView>> {
    namespaces.map_values(|n: NamespaceInfo| namespace_piece(policies, n))
}

/// One finding per namespace without a policy, in the order of the namespaces.
pub open spec fn network_findings(
    namespaces: Seq<NamespaceInfo>,
    policies: Seq<NetworkPolicyInfo>,
) -> Seq<FindingView> {
    concat_all(network_pieces(namespaces, policies))
}

/// A namespace in which some policy stands, at any place of the list of
/// policies, is never reported; a listed namespace in which none stands is
/// reported under `NET-NOPOLICY-` and its name.
pub proof fn lemma_network_reported(
    namespaces: Seq<NamespaceInfo>,
    policies: Seq<NetworkPolicyInfo>,
    x: Seq<char>,
)
    ensures
        (exists|k: int| 0 <= k < policies.len() && #[trigger] opt_text(policies[k].namespace) == Some(x))
            ==> forall|m: int|
            0 <= m < network_findings(namespaces, policies).len() ==> (
            #[trigger] network_findings(namespaces, policies)[m]).id != "NET-NOPOLICY-"@ + x,
        (exists|i: int| 0 <= i < namespaces.len() && #[trigger] name_any_text(namespaces[i]) == x)
            && (forall|k: int| 0 <= k < policies.len() ==> #[trigger] opt_text(policies[k].namespace) != Some(x))
            ==> exists|m: int|
            0 <= m < network_findings(namespaces, policies).len() && (
            #[trigger] network_findings(namespaces, policies)[m]).id == "NET-NOPOLICY-"@ + x,
{
    let pieces = network_pieces(namespaces, policies);
    let fs = network_findings(namespaces, policies);
    if exists|k: int| 0 <= k < policies.len() && #[trigger] opt_text(policies[k].namespace) == Some(x) {
        assert(has_policy(policies, x));
        let other = |f: FindingView| f.id != "NET-NOPOLICY-"@ + x;
        assert forall|i: int, j: int| 0 <= i < pieces.len() && 0 <= j < pieces[i].len() implies #[trigger] other(
            pieces[i][j],
        ) by {
            let n = name_any_text(namespaces[i]);
            if pieces[i][j].id == "NET-NOPOLICY-"@ + x {
                lemma_prefix_cancel("NET-NOPOLICY-"@, n, x);
            }
        }
        lemma_concat_all_forall(pieces, other);
        assert forall|m: int| 0 <= m < fs.len() implies (#[trigger] fs[m]).id != "NET-NOPOLICY-"@ + x by {
            assert(other(fs[m]));
        }
    }
    if (exists|i: int| 0 <= i < namespaces.len() && #[trigger] name_any_text(namespaces[i]) == x)
        && (forall|k: int| 0 <= k < policies.len() ==> #[trigger] opt_text(policies[k].namespace) != Some(x)) {
        let i = choose|i: int| 0 <= i < namespaces.len() && #[trigger] name_any_text(namespaces[i]) == x;
        assert(!has_policy(policies, x));
        assert(pieces[i] == seq![no_policy_finding(x)]);
        lemma_concat_all_contains(pieces, i, 0);
        let m = choose|m: int| 0 <= m < fs.len() && fs[m] == pieces[i][0];
        assert(fs[m].id == "NET-NOPOLICY-"@ + x);
    }
}

/// No two namespaces are shown under the same name.
pub open spec fn names_distinct(namespaces: Seq<NamespaceInfo>) -> bool {
    forall|i: int, j: int|
        0 <= i < j < namespaces.len() ==> name_any_text(#[trigger] namespaces[i]) != name_any_text(
            #[trigger] namespaces[j],
        )
}

/// Where no two namespaces share a name, no two findings of the network
/// check share an id.
pub proof fn lemma_network_ids_distinct(
    namespaces: Seq<NamespaceInfo>,
    policies: Seq<NetworkPolicyInfo>,
)
    requires
        names_distinct(namespaces),
    ensures
        ids_distinct(network_findings(namespaces, policies)),
{
    let keys = namespaces.map_values(|n: NamespaceInfo| name_any_text(n));
    assert forall|i: int, j: int| 0 <= i < j < keys.len() implies #[trigger] keys[i] != #[trigger] keys[j] by {
        assert(name_any_text(namespaces[i]) != name_any_text(namespaces[j]));
    }
    lemma_keyed_ids_distinct(network_pieces(namespaces, policies), keys, "NET-NOPOLICY-"@);
}

/// Whether some policy stands in namespace `ns`.
fn policy_in(policies: &Vec<NetworkPolicyInfo>, ns: &String) -> (r: bool)
    ensures
        r == has_policy(policies@, ns@),
{
    let mut i: usize = 0;
    while i < policies.len()
        invariant
            i <= policies@.len(),
            forall|k: int| 0 <= k < i ==> opt_text(#[trigger] policies@[k].namespace) != Some(ns@),
        decreases policies@.len() - i,
    {
        match &policies[i].namespace {
            Some(p) => {
                if *p == *ns {
                    assert(opt_text(policies@[i as int].namespace) == Some(ns@));
                    return true;
                }
            },
            None => {},
        }
        i = i + 1;
    }
    false
}

fn missing_policy_finding(ns: &String) -> (r: Finding)
    ensures
        r@ == no_policy_finding(ns@),
{
    let mut details: Vec<String> = Vec::new();
    details.push(owned("Zero-trust Segmentierung nicht nachweisbar"));
    let r = Finding {
        id: join2("NET-NOPOLICY-", ns.as_str()),
        title: owned("Namespace ohne NetworkPolicy"),
        area: owned("Network Policies"),
        criterion: owned("Segmentierung pro Namespace"),
        description: owned("Für den Namespace wurden keine NetworkPolicies gefunden."),
        resource: Some(ResourceReference { kind: owned("Namespace"), namespace: None, name: ns.clone() }),
        evidence: Evidence { summary: owned("Keine Policyobjekte im Namespace"), details },
        risk: owned("Unnötig offene Ost-West-Kommunikation möglich"),
        recommendation: owned("Default-Deny + explizite Allow-Policies einführen."),
        severity: Severity::High,
        heuristic: false,
    };
    assert(r@.evidence.details =~= seq!["Zero-trust Segmentierung nicht nachweisbar"@]);
    r
}

impl NetworkCheck {
    pub fn name(&self) -> (r: &'static str)
        ensures
            r@ == "network"@,
    {
        "network"
    }

    /// The result of the check on the namespaces and network policies.
    pub fn evaluate(
        &self,
        namespaces: &Vec<NamespaceInfo>,
        policies: &Vec<NetworkPolicyInfo>,
    ) -> (r: CheckResult)
        ensures
            r@ == (CheckResultView {
                check_name: "network"@,
                findings: network_findings(namespaces@, policies@),
            }),
    {
        let ghost pieces = network_pieces(namespaces@, policies@);
        let mut findings: Vec<Finding> = Vec::new();
        let mut i: usize = 0;
        while i < namespaces.len()
            invariant
                pieces == network_pieces(namespaces@, policies@),
                i <= namespaces@.len(),
                findings.deep_view() == concat_all(pieces.take(i as int)),
            decreases namespaces@.len() - i,
        {
            proof {
                lemma_concat_all_take(pieces, i as int);
            }
            let ns = name_any(&namespaces[i]);
            if !policy_in(policies, &ns) {
                push_finding(&mut findings, missing_policy_finding(&ns));
            } else {
                assert(pieces[i as int] =~= Seq::<FindingView>::empty());
            }
            i = i + 1;
        }
        assert(pieces.take(i as int) =~= pieces);
        CheckResult { check_name: owned(self.name()), findings }
    }
}

} // verus!
