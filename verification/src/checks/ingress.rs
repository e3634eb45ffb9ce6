//! Ingress and exposure: externally reachable services and ingresses without
//! TLS.
use vstd::prelude::*;
use crate::cluster::{IngressInfo, ServiceInfo};
use crate::models::{
    CheckResult, CheckResultView, Evidence, EvidenceView, Finding, FindingView, ResourceReference,
    ResourceReferenceView, Severity, ids_distinct, keyed_by, lemma_ids_distinct_append,
    lemma_keyed_ids_distinct, push_finding,
};
use crate::seqs::{concat_all, lemma_concat_all_take};
use crate::text::{clone_opt, eq_text, join2, join3, opt_text, owned, text_or_empty, unwrap_or_empty};

verus! {

/// The check on exposure to outside the cluster.
pub struct IngressExposureCheck;

/// The service type, where the service has a spec and the spec a type.
pub open spec fn service_type_of(s: ServiceInfo) -> Option<Seq<char>> {
    match s.spec {
        Some(spec) => opt_text(spec.service_type),
        None => None,
    }
}

/// A service type that exposes the service outside the cluster.
pub open spec fn is_exposing_type(ty: Seq<char>) -> bool {
    ty == "LoadBalancer"@ || ty == "NodePort"@
}

/// The finding for a service of exposing type `ty`.
pub open spec fn service_finding(s: ServiceInfo, ty: Seq<char>) -> FindingView {
    let name = text_or_empty(s.name);
    FindingView {
        id: "EXPOSURE-SVC-"@ + name,
        title: "Service mit externer Exposition ("@ + ty + ")"@,
        area: "Ingress / Exposure"@,
        criterion: "Exposition nur nach minimalem Need-to-expose"@,
        description: "Service ist potenziell öffentlich erreichbar."@,
        resource: Some(
            ResourceReferenceView { kind: "Service"@, namespace: opt_text(s.namespace), name: name },
        ),
        evidence: EvidenceView {
            summary: "spec.type="@ + ty,
            details: seq!["Externe Angriffsfläche vorhanden"@],
        },
        risk: "Direkte Angriffsfläche auf Workloads"@,
        recommendation: "Ingress Controller mit WAF/TLS, SourceRanges und AuthN einsetzen."@,
        severity: Severity::High,
        heuristic: false,
    }
}

pub open spec fn service_piece(s: ServiceInfo) -> Seq<FindingView> {
    match service_type_of(s) {
        Some(ty) => if is_exposing_type(ty) {
            seq![service_finding(s, ty)]
        } else {
            Seq::empty()
        },
        None => Seq::empty(),
    }
}

/// The ingress has no spec, or a spec without a `tls` block.
pub open spec fn tls_missing(i: IngressInfo) -> bool {
    match i.spec {
        Some(spec) => !spec.has_tls,
        None => true,
    }
}

/// The finding for an ingress without TLS.
pub open spec fn ingress_finding(i: IngressInfo) -> FindingView {
    let name = text_or_empty(i.name);
    FindingView {
        id: "EXPOSURE-ING-NOTLS-"@ + name,
        title: "Ingress ohne TLS-Block"@,
        area: "Ingress / Exposure"@,
        criterion: "TLS-Absicherung für externe HTTP-Endpunkte"@,
        description: "Ingress-Regel enthält keine TLS-Konfiguration."@,
        resource: Some(
            ResourceReferenceView { kind: "Ingress"@, namespace: opt_text(i.namespace), name: name },
        ),
        evidence: EvidenceView { summary: "spec.tls fehlt"@, details: Seq::empty() },
        risk: "Unverschlüsselte Übertragung oder Fehlkonfiguration möglich"@,
        recommendation: "TLS-Secret setzen und Redirect auf HTTPS erzwingen."@,
        severity: Severity::Medium,
        heuristic: false,
    }
}

pub open spec fn ingress_piece(i: IngressInfo) -> Seq<FindingView> {
    if tls_missing(i) {
        seq![ingress_finding(i)]
    } else {
        Seq::empty()
    }
}

/// The findings of the services, then those of the ingresses.
pub open spec fn exposure_findings(
    services: Seq<ServiceInfo>,
    ingresses: Seq<IngressInfo>,
) -> Seq<FindingView> {
    concat_all(services.map_values(|s: ServiceInfo| service_piece(s))) + concat_all(
        ingresses.map_values(|i: IngressInfo| ingress_piece(i)),
    )
}

/// No two services carry the same name. (Services of one name in two
/// namespaces get the same id.)
pub open spec fn service_names_distinct(services: Seq<ServiceInfo>) -> bool {
    forall|i: int, j: int|
        0 <= i < j < services.len() ==> text_or_empty((#[trigger] services[i]).name)
            != text_or_empty((#[trigger] services[j]).name)
}

/// No two ingresses carry the same name. (Ingresses of one name in two
/// namespaces get the same id.)
pub open spec fn ingress_names_distinct(ingresses: Seq<IngressInfo>) -> bool {
    forall|i: int, j: int|
        0 <= i < j < ingresses.len() ==> text_or_empty((#[trigger] ingresses[i]).name)
            != text_or_empty((#[trigger] ingresses[j]).name)
}

/// Where no two services and no two ingresses share a name, no two findings
/// of the exposure check share an id.
pub proof fn lemma_exposure_ids_distinct(services: Seq<ServiceInfo>, ingresses: Seq<IngressInfo>)
    requires
        service_names_distinct(services),
        ingress_names_distinct(ingresses),
    ensures
        ids_distinct(exposure_findings(services, ingresses)),
{
    let skeys = services.map_values(|s: ServiceInfo| text_or_empty(s.name));
    let ikeys = ingresses.map_values(|i: IngressInfo| text_or_empty(i.name));
    let spieces = services.map_values(|s: ServiceInfo| service_piece(s));
    let ipieces = ingresses.map_values(|i: IngressInfo| ingress_piece(i));
    let sprefix = "EXPOSURE-SVC-"@;
    let iprefix = "EXPOSURE-ING-NOTLS-"@;
    assert forall|i: int, j: int| 0 <= i < j < skeys.len() implies #[trigger] skeys[i]
        != #[trigger] skeys[j] by {
        assert(text_or_empty(services[i].name) != text_or_empty(services[j].name));
    }
    assert forall|i: int, j: int| 0 <= i < j < ikeys.len() implies #[trigger] ikeys[i]
        != #[trigger] ikeys[j] by {
        assert(text_or_empty(ingresses[i].name) != text_or_empty(ingresses[j].name));
    }
    lemma_keyed_ids_distinct(spieces, skeys, sprefix);
    lemma_keyed_ids_distinct(ipieces, ikeys, iprefix);
    let a = concat_all(spieces);
    let b = concat_all(ipieces);
    reveal_strlit("EXPOSURE-SVC-");
    reveal_strlit("EXPOSURE-ING-NOTLS-");
    assert forall|k: int| 0 <= k < a.len() implies 9 < (#[trigger] a[k]).id.len() && a[k].id[9]
        == 'S' by {
        assert(keyed_by(a[k].id, skeys, sprefix));
        let i = choose|i: int| 0 <= i < skeys.len() && a[k].id == sprefix + skeys[i];
        assert((sprefix + skeys[i])[9] == sprefix[9]);
    }
    assert forall|k: int| 0 <= k < b.len() implies 9 < (#[trigger] b[k]).id.len() && b[k].id[9]
        == 'I' by {
        assert(keyed_by(b[k].id, ikeys, iprefix));
        let i = choose|i: int| 0 <= i < ikeys.len() && b[k].id == iprefix + ikeys[i];
        assert((iprefix + ikeys[i])[9] == iprefix[9]);
    }
    lemma_ids_distinct_append(a, b, 9, 'S', 'I');
}

/// A service is reported, once, exactly when its spec sets the type
/// `LoadBalancer` or `NodePort`; the finding is high, under `EXPOSURE-SVC-` and
/// its name, and shows the type.
pub proof fn lemma_service_reported(s: ServiceInfo)
    ensures
        service_piece(s).len() <= 1,
        service_piece(s).len() == 1 <==> (s.spec is Some && s.spec->0.service_type is Some && (
        s.spec->0.service_type->0@ == "LoadBalancer"@ || s.spec->0.service_type->0@
            == "NodePort"@)),
        service_piece(s).len() == 1 ==> {
            let f = service_piece(s)[0];
            &&& f.id == "EXPOSURE-SVC-"@ + text_or_empty(s.name)
            &&& f.evidence.summary == "spec.type="@ + s.spec->0.service_type->0@
            &&& f.severity == Severity::High
        },
{
}

/// An ingress is reported, once, exactly when it has no spec or its spec has
/// no `tls` block; the finding is medium, under `EXPOSURE-ING-NOTLS-` and its
/// name.
pub proof fn lemma_ingress_reported(i: IngressInfo)
    ensures
        ingress_piece(i).len() <= 1,
        ingress_piece(i).len() == 1 <==> (i.spec is None || !i.spec->0.has_tls),
        ingress_piece(i).len() == 1 ==> ingress_piece(i)[0].id == "EXPOSURE-ING-NOTLS-"@
            + text_or_empty(i.name) && ingress_piece(i)[0].severity == Severity::Medium,
{
}

fn exposed_service_finding(s: &ServiceInfo, ty: &String) -> (r: Finding)
    ensures
        r@ == service_finding(*s, ty@),
{
    let name = unwrap_or_empty(&s.name);
    let mut details: Vec<String> = Vec::new();
    details.push(owned("Externe Angriffsfläche vorhanden"));
    let r = Finding {
        id: join2("EXPOSURE-SVC-", name.as_str()),
        title: join3("Service mit externer Exposition (", ty.as_str(), ")"),
        area: owned("Ingress / Exposure"),
        criterion: owned("Exposition nur nach minimalem Need-to-expose"),
        description: owned("Service ist potenziell öffentlich erreichbar."),
        resource: Some(
            ResourceReference { kind: owned("Service"), namespace: clone_opt(&s.namespace), name },
        ),
        evidence: Evidence { summary: join2("spec.type=", ty.as_str()), details },
        risk: owned("Direkte Angriffsfläche auf Workloads"),
        recommendation: owned("Ingress Controller mit WAF/TLS, SourceRanges und AuthN einsetzen."),
        severity: Severity::High,
        heuristic: false,
    };
    assert(r@.evidence.details =~= seq!["Externe Angriffsfläche vorhanden"@]);
    r
}

fn no_tls_finding(i: &IngressInfo) -> (r: Finding)
    ensures
        r@ == ingress_finding(*i),
{
    let name = unwrap_or_empty(&i.name);
    let details: Vec<String> = Vec::new();
    let r = Finding {
        id: join2("EXPOSURE-ING-NOTLS-", name.as_str()),
        title: owned("Ingress ohne TLS-Block"),
        area: owned("Ingress / Exposure"),
        criterion: owned("TLS-Absicherung für externe HTTP-Endpunkte"),
        description: owned("Ingress-Regel enthält keine TLS-Konfiguration."),
        resource: Some(
            ResourceReference { kind: owned("Ingress"), namespace: clone_opt(&i.namespace), name },
        ),
        evidence: Evidence { summary: owned("spec.tls fehlt"), details },
        risk: owned("Unverschlüsselte Übertragung oder Fehlkonfiguration möglich"),
        recommendation: owned("TLS-Secret setzen und Redirect auf HTTPS erzwingen."),
        severity: Severity::Medium,
        heuristic: false,
    };
    assert(r@.evidence.details =~= Seq::<Seq<char>>::empty());
    r
}

fn check_service(findings: &mut Vec<Finding>, s: &ServiceInfo)
    ensures
        final(findings).deep_view() == old(findings).deep_view() + service_piece(*s),
{
    let ghost start = findings.deep_view();
    match &s.spec {
        Some(spec) => match &spec.service_type {
            Some(ty) => {
                if eq_text(ty, "LoadBalancer") || eq_text(ty, "NodePort") {
                    push_finding(findings, exposed_service_finding(s, ty));
                }
            },
            None => {},
        },
        None => {},
    }
    assert(findings.deep_view() =~= start + service_piece(*s));
}

impl IngressExposureCheck {
    pub fn name(&self) -> (r: &'static str)
        ensures
            r@ == "ingress"@,
    {
        "ingress"
    }

    /// The result of the check on the services and ingresses of the cluster.
    pub fn evaluate(&self, services: &Vec<ServiceInfo>, ingresses: &Vec<IngressInfo>) -> (r:
        CheckResult)
        ensures
            r@ == (CheckResultView {
                check_name: "ingress"@,
                findings: exposure_findings(services@, ingresses@),
            }),
    {
        let ghost spieces = services@.map_values(|s: ServiceInfo| service_piece(s));
        let ghost ipieces = ingresses@.map_values(|i: IngressInfo| ingress_piece(i));
        let mut findings: Vec<Finding> = Vec::new();
        let mut i: usize = 0;
        while i < services.len()
            invariant
                spieces == services@.map_values(|s: ServiceInfo| service_piece(s)),
                i <= services@.len(),
                findings.deep_view() == concat_all(spieces.take(i as int)),
            decreases services@.len() - i,
        {
            proof {
                lemma_concat_all_take(spieces, i as int);
            }
            check_service(&mut findings, &services[i]);
            i = i + 1;
        }
        assert(spieces.take(i as int) =~= spieces);
        let ghost head = findings.deep_view();
        let mut j: usize = 0;
        while j < ingresses.len()
            invariant
                ipieces == ingresses@.map_values(|i: IngressInfo| ingress_piece(i)),
                j <= ingresses@.len(),
                findings.deep_view() == head + concat_all(ipieces.take(j as int)),
            decreases ingresses@.len() - j,
        {
            proof {
                lemma_concat_all_take(ipieces, j as int);
            }
            let ing = &ingresses[j];
            let missing = match &ing.spec {
                Some(spec) => !spec.has_tls,
                None => true,
            };
            if missing {
                push_finding(&mut findings, no_tls_finding(ing));
            } else {
                assert(ipieces[j as int] =~= Seq::<FindingView>::empty());
            }
            assert(findings.deep_view() =~= head + concat_all(ipieces.take(j + 1)));
            j = j + 1;
        }
        assert(ipieces.take(j as int) =~= ipieces);
        CheckResult { check_name: owned(self.name()), findings }
    }
}

} // verus!
