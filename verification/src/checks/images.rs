//! Images: containers whose image is not pinned to a tag other than `latest`.
use vstd::prelude::*;
use crate::cluster::{ContainerInfo, PodInfo};
use crate::models::{
    CheckResult, CheckResultView, Evidence, EvidenceView, Finding, FindingView, ResourceReference,
    ResourceReferenceView, Severity, ids_distinct, lemma_keyed_ids_distinct, push_finding,
};
use crate::seqs::{concat_all, lemma_concat_all_take};
use crate::text::{
    clone_opt, contains_char, ends_with_text, has_suffix, join2, join3,
    opt_text, owned, text_or_empty, unwrap_or_empty,
};

verus! {

/// The check on image tags.
pub struct ImagesCheck;

/// The image reference ends with `:latest` or names no tag at all.
pub open spec fn image_unpinned(image: Seq<char>) -> bool {
    has_suffix(image, ":latest"@) || !image.contains(':')
}

/// What the id of an image finding names: `namespace-pod`, each empty where
/// unset.
pub open spec fn image_key(p: PodInfo) -> Seq<char> {
    text_or_empty(p.namespace) + "-"@ + text_or_empty(p.name)
}

/// The finding for an unpinned image of container `c` in pod `p`.
pub open spec fn image_finding(p: PodInfo, c: ContainerInfo) -> FindingView {
    let image = text_or_empty(c.image);
    FindingView {
        id: "IMG-UNPINNED-"@ + image_key(p),
        title: "Ungepinnte oder latest Image-Tags"@,
        area: "Images"@,
        criterion: "Deterministische und überprüfbare Image-Versionierung"@,
        description: "Container "@ + c.name@ + " nutzt potenziell unsicheren Tag: "@ + image,
        resource: Some(
            ResourceReferenceView {
                kind: "Pod"@,
                namespace: opt_text(p.namespace),
                name: text_or_empty(p.name),
            },
        ),
        evidence: EvidenceView { summary: "image="@ + image, details: seq!["Kein digest pinning"@] },
        risk: "Nicht reproduzierbare Deployments und Supply-Chain-Risiken"@,
        recommendation: "Image per SHA256-Digest pinnen und Admission Policies ergänzen."@,
        severity: Severity::Medium,
        heuristic: false,
    }
}

pub open spec fn container_image_piece(p: PodInfo, c: ContainerInfo) -> Seq<FindingView> {
    if image_unpinned(text_or_empty(c.image)) {
        seq![image_finding(p, c)]
    } else {
        Seq::empty()
    }
}

/// The findings for one pod, container by container; none without a spec.
pub open spec fn pod_image_findings(p: PodInfo) -> Seq<FindingView> {
    match p.spec {
        None => Seq::empty(),
        Some(spec) => concat_all(
            spec.containers@.map_values(|c: ContainerInfo| container_image_piece(p, c)),
        ),
    }
}

/// The findings for all pods, in order.
pub open spec fn image_findings(pods: Seq<PodInfo>) -> Seq<FindingView> {
    concat_all(pods.map_values(|p: PodInfo| pod_image_findings(p)))
}

/// The pods are such that image ids cannot meet: no pod has more than one
/// container, and no two pods give the same `namespace-pod`. (Two unpinned
/// containers of one pod get the same id.)
pub open spec fn image_ids_separable(pods: Seq<PodInfo>) -> bool {
    &&& forall|i: int|
        0 <= i < pods.len() ==> match (#[trigger] pods[i]).spec {
            Some(spec) => spec.containers@.len() <= 1,
            None => true,
        }
    &&& forall|i: int, j: int|
        0 <= i < j < pods.len() ==> image_key(#[trigger] pods[i]) != image_key(#[trigger] pods[j])
}

/// Where no pod has more than one container and no two pods give the same
/// `namespace-pod`, no two findings of the image check share an id.
pub proof fn lemma_image_ids_distinct(pods: Seq<PodInfo>)
    requires
        image_ids_separable(pods),
    ensures
        ids_distinct(image_findings(pods)),
{
    let pieces = pods.map_values(|p: PodInfo| pod_image_findings(p));
    let keys = pods.map_values(|p: PodInfo| image_key(p));
    assert forall|i: int| 0 <= i < pieces.len() implies (#[trigger] pieces[i]).len() <= 1 && (forall|
        j: int,
    | 0 <= j < pieces[i].len() ==> (#[trigger] pieces[i][j]).id == "IMG-UNPINNED-"@ + keys[i]) by {
        let p = pods[i];
        match p.spec {
            None => {},
            Some(spec) => {
                let inner = spec.containers@.map_values(|c: ContainerInfo| container_image_piece(p, c));
                if inner.len() == 1 {
                    assert(inner.drop_last() =~= Seq::<Seq<FindingView>>::empty());
                    assert(concat_all(inner.drop_last()) =~= Seq::<FindingView>::empty());
                    assert(inner.last() == inner[0]);
                    assert(concat_all(inner) =~= inner[0]);
                } else {
                    assert(concat_all(inner) =~= Seq::<FindingView>::empty());
                }
            },
        }
    }
    assert forall|i: int, j: int| 0 <= i < j < keys.len() implies #[trigger] keys[i]
        != #[trigger] keys[j] by {
        assert(image_key(pods[i]) != image_key(pods[j]));
    }
    lemma_keyed_ids_distinct(pieces, keys, "IMG-UNPINNED-"@);
}

/// The image reference ends with the seven characters `:latest`, or holds no
/// `:` at all.
pub open spec fn latest_or_untagged(image: Seq<char>) -> bool {
    ||| image.len() >= 7 && image.subrange(image.len() - 7, image.len() as int) == ":latest"@
    ||| forall|k: int| 0 <= k < image.len() ==> image[k] != ':'
}

/// A container is reported, once, exactly when its image (empty where unset)
/// ends with `:latest` or names no tag; the finding is medium, under
/// `IMG-UNPINNED-`, the namespace, `-` and the pod's name, and shows the image.
pub proof fn lemma_image_reported(p: PodInfo, c: ContainerInfo)
    ensures
        container_image_piece(p, c).len() <= 1,
        container_image_piece(p, c).len() == 1 <==> latest_or_untagged(text_or_empty(c.image)),
        container_image_piece(p, c).len() == 1 ==> {
            let f = container_image_piece(p, c)[0];
            &&& f.id == "IMG-UNPINNED-"@ + text_or_empty(p.namespace) + "-"@ + text_or_empty(p.name)
            &&& f.evidence.summary == "image="@ + text_or_empty(c.image)
            &&& f.severity == Severity::Medium
        },
{
    reveal_strlit(":latest");
    let img = text_or_empty(c.image);
    if !img.contains(':') {
        assert forall|k: int| 0 <= k < img.len() implies img[k] != ':' by {
            if img[k] == ':' {
                assert(img.contains(':'));
            }
        }
    }
    if forall|k: int| 0 <= k < img.len() ==> img[k] != ':' {
        assert(!img.contains(':'));
    }
    assert("IMG-UNPINNED-"@ + image_key(p) =~= "IMG-UNPINNED-"@ + text_or_empty(p.namespace) + "-"@
        + text_or_empty(p.name));
}

/// Whether an image reference is unpinned.
pub fn is_unpinned_image(image: &str) -> (r: bool)
    ensures
        r == image_unpinned(image@),
{
    ends_with_text(image, ":latest") || !contains_char(image, ':')
}

fn unpinned_finding(p: &PodInfo, c: &ContainerInfo, image: &String) -> (r: Finding)
    requires
        image@ == text_or_empty(c.image),
    ensures
        r@ == image_finding(*p, *c),
{
    let ns = unwrap_or_empty(&p.namespace);
    let name = unwrap_or_empty(&p.name);
    let id_head = join3("IMG-UNPINNED-", ns.as_str(), "-");
    let desc_head = join3("Container ", c.name.as_str(), " nutzt potenziell unsicheren Tag: ");
    let mut details: Vec<String> = Vec::new();
    details.push(owned("Kein digest pinning"));
    let r = Finding {
        id: join2(id_head.as_str(), name.as_str()),
        title: owned("Ungepinnte oder latest Image-Tags"),
        area: owned("Images"),
        criterion: owned("Deterministische und überprüfbare Image-Versionierung"),
        description: join2(desc_head.as_str(), image.as_str()),
        resource: Some(
            ResourceReference {
                kind: owned("Pod"),
                namespace: clone_opt(&p.namespace),
                name: unwrap_or_empty(&p.name),
            },
        ),
        evidence: Evidence { summary: join2("image=", image.as_str()), details },
        risk: owned("Nicht reproduzierbare Deployments und Supply-Chain-Risiken"),
        recommendation: owned("Image per SHA256-Digest pinnen und Admission Policies ergänzen."),
        severity: Severity::Medium,
        heuristic: false,
    };
    assert(r@.evidence.details =~= seq!["Kein digest pinning"@]);
    assert(r@.id =~= "IMG-UNPINNED-"@ + image_key(*p));
    r
}

fn check_pod_images(findings: &mut Vec<Finding>, p: &PodInfo)
    ensures
        final(findings).deep_view() == old(findings).deep_view() + pod_image_findings(*p),
{
    let ghost start = findings.deep_view();
    match &p.spec {
        None => {
            assert(findings.deep_view() =~= start + pod_image_findings(*p));
        },
        Some(spec) => {
            let ghost pieces = spec.containers@.map_values(
                |c: ContainerInfo| container_image_piece(*p, c),
            );
            let mut i: usize = 0;
            while i < spec.containers.len()
                invariant
                    pieces == spec.containers@.map_values(
                        |c: ContainerInfo| container_image_piece(*p, c),
                    ),
                    i <= spec.containers@.len(),
                    findings.deep_view() == start + concat_all(pieces.take(i as int)),
                decreases spec.containers@.len() - i,
            {
                proof {
                    lemma_concat_all_take(pieces, i as int);
                }
                let c = &spec.containers[i];
                let image = unwrap_or_empty(&c.image);
                if is_unpinned_image(image.as_str()) {
                    push_finding(findings, unpinned_finding(p, c, &image));
                } else {
                    assert(pieces[i as int] =~= Seq::<FindingView>::empty());
                }
                assert(findings.deep_view() =~= start + concat_all(pieces.take(i + 1)));
                i = i + 1;
            }
            assert(pieces.take(i as int) =~= pieces);
            assert(findings.deep_view() =~= start + pod_image_findings(*p));
        },
    }
}

impl ImagesCheck {
    pub fn name(&self) -> (r: &'static str)
        ensures
            r@ == "images"@,
    {
        "images"
    }

    /// The result of the check on the images of the pods of the cluster.
    pub fn evaluate(&self, pods: &Vec<PodInfo>) -> (r: CheckResult)
        ensures
            r@ == (CheckResultView { check_name: "images"@, findings: image_findings(pods@) }),
    {
        let ghost pieces = pods@.map_values(|p: PodInfo| pod_image_findings(p));
        let mut findings: Vec<Finding> = Vec::new();
        let mut i: usize = 0;
        while i < pods.len()
            invariant
                pieces == pods@.map_values(|p: PodInfo| pod_image_findings(p)),
                i <= pods@.len(),
                findings.deep_view() == concat_all(pieces.take(i as int)),
            decreases pods@.len() - i,
        {
            proof {
                lemma_concat_all_take(pieces, i as int);
            }
            check_pod_images(&mut findings, &pods[i]);
            i = i + 1;
        }
        assert(pieces.take(i as int) =~= pieces);
        CheckResult { check_name: owned(self.name()), findings }
    }
}

} // verus!
