//! RBAC: cluster roles with wildcard rules, and bindings to `cluster-admin`.
use vstd::prelude::*;
use crate::cluster::{ClusterRoleBindingInfo, ClusterRoleInfo, PolicyRuleInfo};
use crate::models::{
    CheckResult, CheckResultView, Evidence, EvidenceView, Finding, FindingView, ResourceReference,
    ResourceReferenceView, Severity, ids_distinct, keyed_by, lemma_ids_distinct_append,
    lemma_keyed_ids_distinct, push_finding,
};
use crate::seqs::{concat_all, lemma_concat_all_contains, lemma_concat_all_take};
use crate::text::{eq_text, join2, owned, text_or_empty, unwrap_or_empty};

verus! {

/// The check on roles and role bindings.
pub struct RbacCheck;

/// Some entry of `v` is `*`.
pub open spec fn has_star(v: Seq<Seq<char>>) -> bool {
    exists|k: int| 0 <= k < v.len() && #[trigger] v[k] == "*"@
}

/// A rule grants `*` as a verb or as a resource.
pub open spec fn rule_has_wildcard(r: PolicyRuleInfo) -> bool {
    ||| has_star(r.verbs.deep_view())
    ||| match r.resources {
        Some(rs) => has_star(rs.deep_view()),
        None => false,
    }
}

/// Some rule of the list grants a wildcard.
pub open spec fn rules_have_wildcard(rules: Seq<PolicyRuleInfo>) -> bool {
    exists|k: int| 0 <= k < rules.len() && #[trigger] rule_has_wildcard(rules[k])
}

/// The role has rules, and one of them grants a wildcard.
pub open spec fn role_flagged(role: ClusterRoleInfo) -> bool {
    match role.rules {
        Some(rules) => rules_have_wildcard(rules@),
        None => false,
    }
}

/// The finding for a role with wildcard rules.
pub open spec fn role_finding(role: ClusterRoleInfo) -> FindingView {
    let name = text_or_empty(role.name);
    FindingView {
        id: "RBAC-WILDCARD-"@ + name,
        title: "Wildcard-Berechtigungen erkannt"@,
        area: "RBAC"@,
        criterion: "Rollen dürfen nicht unbeschränkt (*) berechtigen"@,
        description: "ClusterRole enthält Wildcards in verbs/resources."@,
        resource: Some(ResourceReferenceView { kind: "ClusterRole"@, namespace: None, name: name }),
        evidence: EvidenceView {
            summary: "Wildcard in Rule gefunden"@,
            details: seq!["rules="@ + role.rules_debug@],
        },
        risk: "Missbrauch mit vollständiger Clusterkontrolle möglich"@,
        recommendation: "Least-Privilege durch explizite verbs/resources implementieren."@,
        severity: Severity::Critical,
        heuristic: false,
    }
}

pub open spec fn role_piece(role: ClusterRoleInfo) -> Seq<FindingView> {
    if role_flagged(role) {
        seq![role_finding(role)]
    } else {
        Seq::empty()
    }
}

/// The binding names an API group and binds `cluster-admin`.
pub open spec fn binding_flagged(b: ClusterRoleBindingInfo) -> bool {
    b.role_ref.api_group is Some && b.role_ref.name@ == "cluster-admin"@
}

/// The finding for a binding to `cluster-admin`.
pub open spec fn binding_finding(b: ClusterRoleBindingInfo) -> FindingView {
    let name = text_or_empty(b.name);
    FindingView {
        id: "RBAC-CRB-CLUSTERADMIN-"@ + name,
        title: "ClusterRoleBinding auf cluster-admin"@,
        area: "RBAC"@,
        criterion: "Kritische Rollenbindungen sind zu minimieren"@,
        description: "Binding delegiert cluster-admin-Rechte."@,
        resource: Some(
            ResourceReferenceView { kind: "ClusterRoleBinding"@, namespace: None, name: name },
        ),
        evidence: EvidenceView {
            summary: "roleRef.name=cluster-admin"@,
            details: seq!["subjects="@ + b.subjects_debug@],
        },
        risk: "Vollständige Rechte für gebundene Subjects"@,
        recommendation: "Binding entfernen oder auf minimal erforderliche Rolle reduzieren."@,
        severity: Severity::High,
        heuristic: false,
    }
}

pub open spec fn binding_piece(b: ClusterRoleBindingInfo) -> Seq<FindingView> {
    if binding_flagged(b) {
        seq![binding_finding(b)]
    } else {
        Seq::empty()
    }
}

/// All findings: first those of the roles, then those of the bindings.
pub open spec fn rbac_findings(
    roles: Seq<ClusterRoleInfo>,
    bindings: Seq<ClusterRoleBindingInfo>,
) -> Seq<FindingView> {
    concat_all(roles.map_values(|r: ClusterRoleInfo| role_piece(r))) + concat_all(
        bindings.map_values(|b: ClusterRoleBindingInfo| binding_piece(b)),
    )
}

/// Rule `r` names `*` at place `v` of its verbs or of its resources.
pub open spec fn star_at(r: PolicyRuleInfo, v: int) -> bool {
    ||| 0 <= v < r.verbs@.len() && r.verbs@[v]@ == "*"@
    ||| match r.resources {
        Some(res) => 0 <= v < res@.len() && res@[v]@ == "*"@,
        None => false,
    }
}

/// A role is reported, once, exactly when it has rules and some rule at any
/// place of its list names `*` among its verbs or its resources; the finding
/// is `RBAC-WILDCARD-` and the role's name, critical.
pub proof fn lemma_role_reported(role: ClusterRoleInfo)
    ensures
        role_piece(role).len() <= 1,
        role_piece(role).len() == 1 <==> match role.rules {
            Some(rs) => exists|k: int, v: int| 0 <= k < rs@.len() && #[trigger] star_at(rs@[k], v),
            None => false,
        },
        role_piece(role).len() == 1 ==> role_piece(role)[0].id == "RBAC-WILDCARD-"@ + text_or_empty(
            role.name,
        ) && role_piece(role)[0].severity == Severity::Critical,
{
    match role.rules {
        Some(rs) => {
            if exists|k: int, v: int| 0 <= k < rs@.len() && #[trigger] star_at(rs@[k], v) {
                let (k, v) = choose|k: int, v: int| 0 <= k < rs@.len() && #[trigger] star_at(rs@[k], v);
                let r = rs@[k];
                if 0 <= v < r.verbs@.len() && r.verbs@[v]@ == "*"@ {
                    assert(r.verbs.deep_view()[v] == r.verbs@[v]@);
                    assert(has_star(r.verbs.deep_view()));
                } else {
                    let res = r.resources->0;
                    assert(res.deep_view()[v] == res@[v]@);
                    assert(has_star(res.deep_view()));
                }
                assert(rule_has_wildcard(rs@[k]));
            }
            if rules_have_wildcard(rs@) {
                let k = choose|k: int| 0 <= k < rs@.len() && #[trigger] rule_has_wildcard(rs@[k]);
                let r = rs@[k];
                if has_star(r.verbs.deep_view()) {
                    let v = choose|v: int| 0 <= v < r.verbs.deep_view().len() && #[trigger] r.verbs.deep_view()[v] == "*"@;
                    assert(r.verbs.deep_view()[v] == r.verbs@[v]@);
                    assert(star_at(r, v));
                } else {
                    let res = r.resources->0;
                    let v = choose|v: int| 0 <= v < res.deep_view().len() && #[trigger] res.deep_view()[v] == "*"@;
                    assert(res.deep_view()[v] == res@[v]@);
                    assert(star_at(r, v));
                }
            }
        },
        None => {},
    }
}

/// A binding is reported, once, exactly when its role reference names an API
/// group and the role `cluster-admin`; the finding is high, under
/// `RBAC-CRB-CLUSTERADMIN-` and the binding's name.
pub proof fn lemma_binding_reported(b: ClusterRoleBindingInfo)
    ensures
        binding_piece(b).len() <= 1,
        binding_piece(b).len() == 1 <==> (b.role_ref.api_group is Some && b.role_ref.name@
            == "cluster-admin"@),
        binding_piece(b).len() == 1 ==> binding_piece(b)[0].id == "RBAC-CRB-CLUSTERADMIN-"@
            + text_or_empty(b.name) && binding_piece(b)[0].severity == Severity::High,
{
}

/// Every listed role that has a rule naming `*`, at any place, is reported in
/// the check's findings.
pub proof fn lemma_wildcard_roles_reported(
    roles: Seq<ClusterRoleInfo>,
    bindings: Seq<ClusterRoleBindingInfo>,
    i: int,
    k: int,
    v: int,
)
    requires
        0 <= i < roles.len(),
        roles[i].rules is Some,
        0 <= k < roles[i].rules->0@.len(),
        star_at(roles[i].rules->0@[k], v),
    ensures
        exists|m: int|
            0 <= m < rbac_findings(roles, bindings).len() && (#[trigger] rbac_findings(
                roles,
                bindings,
            )[m]).id == "RBAC-WILDCARD-"@ + text_or_empty(roles[i].name) && rbac_findings(
                roles,
                bindings,
            )[m].severity == Severity::Critical,
{
    lemma_role_reported(roles[i]);
    let rs = roles[i].rules->0;
    assert(star_at(rs@[k], v));
    let rp = roles.map_values(|r: ClusterRoleInfo| role_piece(r));
    assert(rp[i] == role_piece(roles[i]));
    lemma_concat_all_contains(rp, i, 0);
    let a = concat_all(rp);
    let b = concat_all(bindings.map_values(|b: ClusterRoleBindingInfo| binding_piece(b)));
    let m = choose|m: int| 0 <= m < a.len() && a[m] == rp[i][0];
    assert((a + b)[m] == a[m]);
    assert(rbac_findings(roles, bindings) == a + b);
}

/// No two roles carry the same name.
pub open spec fn role_names_distinct(roles: Seq<ClusterRoleInfo>) -> bool {
    forall|i: int, j: int|
        0 <= i < j < roles.len() ==> text_or_empty((#[trigger] roles[i]).name) != text_or_empty(
            (#[trigger] roles[j]).name,
        )
}

/// No two bindings carry the same name.
pub open spec fn binding_names_distinct(bindings: Seq<ClusterRoleBindingInfo>) -> bool {
    forall|i: int, j: int|
        0 <= i < j < bindings.len() ==> text_or_empty((#[trigger] bindings[i]).name)
            != text_or_empty((#[trigger] bindings[j]).name)
}

/// Where no two roles and no two bindings share a name, no two findings of
/// the RBAC check share an id.
pub proof fn lemma_rbac_ids_distinct(
    roles: Seq<ClusterRoleInfo>,
    bindings: Seq<ClusterRoleBindingInfo>,
)
    requires
        role_names_distinct(roles),
        binding_names_distinct(bindings),
    ensures
        ids_distinct(rbac_findings(roles, bindings)),
{
    let rkeys = roles.map_values(|r: ClusterRoleInfo| text_or_empty(r.name));
    let bkeys = bindings.map_values(|b: ClusterRoleBindingInfo| text_or_empty(b.name));
    let rpieces = roles.map_values(|r: ClusterRoleInfo| role_piece(r));
    let bpieces = bindings.map_values(|b: ClusterRoleBindingInfo| binding_piece(b));
    let rprefix = "RBAC-WILDCARD-"@;
    let bprefix = "RBAC-CRB-CLUSTERADMIN-"@;
    assert forall|i: int, j: int| 0 <= i < j < rkeys.len() implies #[trigger] rkeys[i]
        != #[trigger] rkeys[j] by {
        assert(text_or_empty(roles[i].name) != text_or_empty(roles[j].name));
    }
    assert forall|i: int, j: int| 0 <= i < j < bkeys.len() implies #[trigger] bkeys[i]
        != #[trigger] bkeys[j] by {
        assert(text_or_empty(bindings[i].name) != text_or_empty(bindings[j].name));
    }
    lemma_keyed_ids_distinct(rpieces, rkeys, rprefix);
    lemma_keyed_ids_distinct(bpieces, bkeys, bprefix);
    let a = concat_all(rpieces);
    let b = concat_all(bpieces);
    reveal_strlit("RBAC-WILDCARD-");
    reveal_strlit("RBAC-CRB-CLUSTERADMIN-");
    assert forall|k: int| 0 <= k < a.len() implies 5 < (#[trigger] a[k]).id.len() && a[k].id[5]
        == 'W' by {
        assert(keyed_by(a[k].id, rkeys, rprefix));
        let i = choose|i: int| 0 <= i < rkeys.len() && a[k].id == rprefix + rkeys[i];
        assert((rprefix + rkeys[i])[5] == rprefix[5]);
    }
    assert forall|k: int| 0 <= k < b.len() implies 5 < (#[trigger] b[k]).id.len() && b[k].id[5]
        == 'C' by {
        assert(keyed_by(b[k].id, bkeys, bprefix));
        let i = choose|i: int| 0 <= i < bkeys.len() && b[k].id == bprefix + bkeys[i];
        assert((bprefix + bkeys[i])[5] == bprefix[5]);
    }
    lemma_ids_distinct_append(a, b, 5, 'W', 'C');
}

/// Whether some entry is `*`.
fn any_star(v: &Vec<String>) -> (r: bool)
    ensures
        r == has_star(v.deep_view()),
{
    let mut i: usize = 0;
    while i < v.len()
        invariant
            i <= v@.len(),
            forall|k: int| 0 <= k < i ==> v@[k]@ != "*"@,
        decreases v@.len() - i,
    {
        if eq_text(&v[i], "*") {
            assert(v.deep_view()[i as int] == "*"@);
            return true;
        }
        i = i + 1;
    }
    proof {
        assert forall|k: int| 0 <= k < v.deep_view().len() implies #[trigger] v.deep_view()[k]
            != "*"@ by {
            assert(v.deep_view()[k] == v@[k]@);
        }
    }
    false
}

/// Whether a rule grants a wildcard.
pub fn rule_wildcard(rule: &PolicyRuleInfo) -> (r: bool)
    ensures
        r == rule_has_wildcard(*rule),
{
    if any_star(&rule.verbs) {
        return true;
    }
    match &rule.resources {
        Some(rs) => any_star(rs),
        None => false,
    }
}

fn role_wildcard(role: &ClusterRoleInfo) -> (r: bool)
    ensures
        r == role_flagged(*role),
{
    match &role.rules {
        None => false,
        Some(rules) => {
            let mut i: usize = 0;
            while i < rules.len()
                invariant
                    role.rules == Some(*rules),
                    i <= rules@.len(),
                    forall|k: int| 0 <= k < i ==> !rule_has_wildcard(#[trigger] rules@[k]),
                decreases rules@.len() - i,
            {
                if rule_wildcard(&rules[i]) {
                    assert(rule_has_wildcard(rules@[i as int]));
                    return true;
                }
                i = i + 1;
            }
            false
        },
    }
}

fn wildcard_role_finding(role: &ClusterRoleInfo) -> (r: Finding)
    ensures
        r@ == role_finding(*role),
{
    let name = unwrap_or_empty(&role.name);
    let mut details: Vec<String> = Vec::new();
    details.push(join2("rules=", role.rules_debug.as_str()));
    let r = Finding {
        id: join2("RBAC-WILDCARD-", name.as_str()),
        title: owned("Wildcard-Berechtigungen erkannt"),
        area: owned("RBAC"),
        criterion: owned("Rollen dürfen nicht unbeschränkt (*) berechtigen"),
        description: owned("ClusterRole enthält Wildcards in verbs/resources."),
        resource: Some(ResourceReference { kind: owned("ClusterRole"), namespace: None, name }),
        evidence: Evidence { summary: owned("Wildcard in Rule gefunden"), details },
        risk: owned("Missbrauch mit vollständiger Clusterkontrolle möglich"),
        recommendation: owned("Least-Privilege durch explizite verbs/resources implementieren."),
        severity: Severity::Critical,
        heuristic: false,
    };
    assert(r@.evidence.details =~= seq!["rules="@ + role.rules_debug@]);
    r
}

fn cluster_admin_finding(b: &ClusterRoleBindingInfo) -> (r: Finding)
    ensures
        r@ == binding_finding(*b),
{
    let name = unwrap_or_empty(&b.name);
    let mut details: Vec<String> = Vec::new();
    details.push(join2("subjects=", b.subjects_debug.as_str()));
    let r = Finding {
        id: join2("RBAC-CRB-CLUSTERADMIN-", name.as_str()),
        title: owned("ClusterRoleBinding auf cluster-admin"),
        area: owned("RBAC"),
        criterion: owned("Kritische Rollenbindungen sind zu minimieren"),
        description: owned("Binding delegiert cluster-admin-Rechte."),
        resource: Some(ResourceReference { kind: owned("ClusterRoleBinding"), namespace: None, name }),
        evidence: Evidence { summary: owned("roleRef.name=cluster-admin"), details },
        risk: owned("Vollständige Rechte für gebundene Subjects"),
        recommendation: owned("Binding entfernen oder auf minimal erforderliche Rolle reduzieren."),
        severity: Severity::High,
        heuristic: false,
    };
    assert(r@.evidence.details =~= seq!["subjects="@ + b.subjects_debug@]);
    r
}

impl RbacCheck {
    pub fn name(&self) -> (r: &'static str)
        ensures
            r@ == "rbac"@,
    {
        "rbac"
    }

    /// The result of the check on the cluster roles and cluster role bindings.
    pub fn evaluate(
        &self,
        roles: &Vec<ClusterRoleInfo>,
        bindings: &Vec<ClusterRoleBindingInfo>,
    ) -> (r: CheckResult)
        ensures
            r@ == (CheckResultView { check_name: "rbac"@, findings: rbac_findings(roles@, bindings@) }),
    {
        let ghost rpieces = roles@.map_values(|r: ClusterRoleInfo| role_piece(r));
        let ghost bpieces = bindings@.map_values(|b: ClusterRoleBindingInfo| binding_piece(b));
        let mut findings: Vec<Finding> = Vec::new();
        let mut i: usize = 0;
        while i < roles.len()
            invariant
                rpieces == roles@.map_values(|r: ClusterRoleInfo| role_piece(r)),
                i <= roles@.len(),
                findings.deep_view() == concat_all(rpieces.take(i as int)),
            decreases roles@.len() - i,
        {
            proof {
                lemma_concat_all_take(rpieces, i as int);
            }
            if role_wildcard(&roles[i]) {
                push_finding(&mut findings, wildcard_role_finding(&roles[i]));
            } else {
                assert(rpieces[i as int] =~= Seq::<FindingView>::empty());
            }
            i = i + 1;
        }
        assert(rpieces.take(i as int) =~= rpieces);
        let ghost role_part = findings.deep_view();
        let mut j: usize = 0;
        while j < bindings.len()
            invariant
                bpieces == bindings@.map_values(|b: ClusterRoleBindingInfo| binding_piece(b)),
                j <= bindings@.len(),
                findings.deep_view() == role_part + concat_all(bpieces.take(j as int)),
            decreases bindings@.len() - j,
        {
            proof {
                lemma_concat_all_take(bpieces, j as int);
            }
            let b = &bindings[j];
            if b.role_ref.api_group.is_some() && eq_text(&b.role_ref.name, "cluster-admin") {
                push_finding(&mut findings, cluster_admin_finding(b));
                assert(findings.deep_view() =~= role_part + concat_all(bpieces.take(j + 1)));
            } else {
                assert(bpieces[j as int] =~= Seq::<FindingView>::empty());
                assert(findings.deep_view() =~= role_part + concat_all(bpieces.take(j + 1)));
            }
            j = j + 1;
        }
        assert(bpieces.take(j as int) =~= bpieces);
        CheckResult { check_name: owned(self.name()), findings }
    }
}

} // verus!
