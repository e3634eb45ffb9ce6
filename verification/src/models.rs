//! The report model: severities, findings with their evidence, the result of
//! one check, and the audit report that collects them.
use vstd::prelude::*;
use crate::seqs::{concat_all, lemma_concat_all_forall, lemma_concat_all_take};
use crate::text::{clone_opt, clone_strings, opt_text};
use crate::time::Timestamp;

verus! {

/// How serious a finding is (Kritisch / Hoch / Mittel / Niedrig / Hinweis).
#[derive(Clone, Copy, Debug, PartialEq, Eq, Structural)]
pub enum Severity {
    Critical,
    High,
    Medium,
    Low,
    Info,
}

/// The cluster object or endpoint that a finding is about.
#[derive(Debug)]
pub struct ResourceReference {
    pub kind: String,
    pub namespace: Option<String>,
    pub name: String,
}

pub struct ResourceReferenceView {
    pub kind: Seq<char>,
    pub namespace: Option<Seq<char>>,
    pub name: Seq<char>,
}

impl View for ResourceReference {
    type V = ResourceReferenceView;

    open spec fn view(&self) -> ResourceReferenceView {
        ResourceReferenceView { kind: self.kind@, namespace: opt_text(self.namespace), name: self.name@ }
    }
}

impl Clone for ResourceReference {
    fn clone(&self) -> (r: Self)
        ensures
            r@ == self@,
    {
        ResourceReference {
            kind: self.kind.clone(),
            namespace: clone_opt(&self.namespace),
            name: self.name.clone(),
        }
    }
}

/// Technical evidence: a summary line and further details.
#[derive(Debug)]
pub struct Evidence {
    pub summary: String,
    pub details: Vec<String>,
}

pub struct EvidenceView {
    pub summary: Seq<char>,
    pub details: Seq<Seq<char>>,
}

impl View for Evidence {
    type V = EvidenceView;

    open spec fn view(&self) -> EvidenceView {
        EvidenceView { summary: self.summary@, details: self.details.deep_view() }
    }
}

impl Clone for Evidence {
    fn clone(&self) -> (r: Self)
        ensures
            r@ == self@,
    {
        Evidence { summary: self.summary.clone(), details: clone_strings(&self.details) }
    }
}

/// One finding of the audit.
#[derive(Debug)]
pub struct Finding {
    pub id: String,
    pub title: String,
    pub area: String,
    pub criterion: String,
    pub description: String,
    pub resource: Option<ResourceReference>,
    pub evidence: Evidence,
    pub risk: String,
    pub recommendation: String,
    pub severity: Severity,
    pub heuristic: bool,
}

pub struct FindingView {
    pub id: Seq<char>,
    pub title: Seq<char>,
    pub area: Seq<char>,
    pub criterion: Seq<char>,
    pub description: Seq<char>,
    pub resource: Option<ResourceReferenceView>,
    pub evidence: EvidenceView,
    pub risk: Seq<char>,
    pub recommendation: Seq<char>,
    pub severity: Severity,
    pub heuristic: bool,
}

pub open spec fn opt_resource_view(r: Option<ResourceReference>) -> Option<ResourceReferenceView> {
    match r {
        Some(x) => Some(x@),
        None => None,
    }
}

impl View for Finding {
    type V = FindingView;

    open spec fn view(&self) -> FindingView {
        FindingView {
            id: self.id@,
            title: self.title@,
            area: self.area@,
            criterion: self.criterion@,
            description: self.description@,
            resource: opt_resource_view(self.resource),
            evidence: self.evidence@,
            risk: self.risk@,
            recommendation: self.recommendation@,
            severity: self.severity,
            heuristic: self.heuristic,
        }
    }
}

impl DeepView for Finding {
    type V = FindingView;

    open spec fn deep_view(&self) -> FindingView {
        self@
    }
}

impl Clone for Finding {
    fn clone(&self) -> (r: Self)
        ensures
            r@ == self@,
    {
        let resource = match &self.resource {
            Some(x) => Some(x.clone()),
            None => None,
        };
        Finding {
            id: self.id.clone(),
            title: self.title.clone(),
            area: self.area.clone(),
            criterion: self.criterion.clone(),
            description: self.description.clone(),
            resource,
            evidence: self.evidence.clone(),
            risk: self.risk.clone(),
            recommendation: self.recommendation.clone(),
            severity: self.severity,
            heuristic: self.heuristic,
        }
    }
}

/// Some finding of `fs` carries id `id`.
pub open spec fn has_id(fs: Seq<FindingView>, id: Seq<char>) -> bool {
    exists|k: int| 0 <= k < fs.len() && (#[trigger] fs[k]).id == id
}

/// No two findings share an id.
pub open spec fn ids_distinct(fs: Seq<FindingView>) -> bool {
    forall|i: int, j: int| 0 <= i < j < fs.len() ==> (#[trigger] fs[i]).id != (#[trigger] fs[j]).id
}

/// Each piece holds at most one finding, whose id is `prefix` followed by the
/// key of the piece.
pub open spec fn keyed_pieces(
    pieces: Seq<Seq<FindingView>>,
    keys: Seq<Seq<char>>,
    prefix: Seq<char>,
) -> bool {
    &&& pieces.len() == keys.len()
    &&& forall|i: int| 0 <= i < pieces.len() ==> (#[trigger] pieces[i]).len() <= 1
    &&& forall|i: int, j: int|
        0 <= i < pieces.len() && 0 <= j < pieces[i].len() ==> (#[trigger] pieces[i][j]).id == prefix
            + keys[i]
}

/// `id` is `prefix` followed by one of `keys`.
pub open spec fn keyed_by(id: Seq<char>, keys: Seq<Seq<char>>, prefix: Seq<char>) -> bool {
    exists|i: int| 0 <= i < keys.len() && id == prefix + #[trigger] keys[i]
}

/// A common prefix can be cancelled.
pub proof fn lemma_prefix_cancel(p: Seq<char>, a: Seq<char>, b: Seq<char>)
    requires
        p + a == p + b,
    ensures
        a == b,
{
    assert((p + a).subrange(p.len() as int, (p + a).len() as int) =~= a);
    assert((p + b).subrange(p.len() as int, (p + b).len() as int) =~= b);
}

/// Pieces keyed by pairwise distinct keys give findings with pairwise
/// distinct ids, each id being the prefix followed by one of the keys.
pub proof fn lemma_keyed_ids_distinct(
    pieces: Seq<Seq<FindingView>>,
    keys: Seq<Seq<char>>,
    prefix: Seq<char>,
)
    requires
        keyed_pieces(pieces, keys, prefix),
        forall|i: int, j: int| 0 <= i < j < keys.len() ==> #[trigger] keys[i] != #[trigger] keys[j],
    ensures
        ids_distinct(concat_all(pieces)),
        forall|k: int|
            0 <= k < concat_all(pieces).len() ==> keyed_by(
                (#[trigger] concat_all(pieces)[k]).id,
                keys,
                prefix,
            ),
    decreases pieces.len(),
{
    if pieces.len() > 0 {
        let n = pieces.len() - 1;
        let ps = pieces.drop_last();
        let ks = keys.drop_last();
        assert forall|i: int| 0 <= i < ps.len() implies (#[trigger] ps[i]).len() <= 1 by {
            assert(ps[i] == pieces[i]);
        }
        assert forall|i: int, j: int| 0 <= i < ps.len() && 0 <= j < ps[i].len() implies (
        #[trigger] ps[i][j]).id == prefix + ks[i] by {
            assert(ps[i] == pieces[i]);
        }
        assert forall|i: int, j: int| 0 <= i < j < ks.len() implies #[trigger] ks[i] != #[trigger] ks[j] by {
            assert(ks[i] == keys[i]);
            assert(ks[j] == keys[j]);
        }
        lemma_keyed_ids_distinct(ps, ks, prefix);
        let before = concat_all(ps);
        let now = concat_all(pieces);
        let piece = pieces[n];
        assert(now == before + piece);
        assert forall|k: int| 0 <= k < now.len() implies keyed_by(
            (#[trigger] now[k]).id,
            keys,
            prefix,
        ) by {
            if k < before.len() {
                assert(now[k] == before[k]);
                assert(keyed_by(before[k].id, ks, prefix));
                let i = choose|i: int| 0 <= i < ks.len() && before[k].id == prefix + ks[i];
                assert(ks[i] == keys[i]);
            } else {
                assert(now[k] == piece[k - before.len()]);
                assert(now[k].id == prefix + keys[n]);
            }
        }
        assert forall|a: int, b: int| 0 <= a < b < now.len() implies (#[trigger] now[a]).id != (
        #[trigger] now[b]).id by {
            if b < before.len() {
                assert(now[a] == before[a]);
                assert(now[b] == before[b]);
            } else {
                assert(now[b] == piece[b - before.len()]);
                if a < before.len() {
                    assert(now[a] == before[a]);
                    assert(keyed_by(before[a].id, ks, prefix));
                    let i = choose|i: int| 0 <= i < ks.len() && before[a].id == prefix + ks[i];
                    if now[a].id == now[b].id {
                        lemma_prefix_cancel(prefix, ks[i], keys[n]);
                        assert(ks[i] == keys[i]);
                    }
                }
            }
        }
    }
}

/// Findings of two lists whose ids carry different characters at one place
/// never share an id.
pub proof fn lemma_ids_distinct_append(
    a: Seq<FindingView>,
    b: Seq<FindingView>,
    pos: int,
    ca: char,
    cb: char,
)
    requires
        ids_distinct(a),
        ids_distinct(b),
        ca != cb,
        forall|k: int| 0 <= k < a.len() ==> pos < (#[trigger] a[k]).id.len() && a[k].id[pos] == ca,
        forall|k: int| 0 <= k < b.len() ==> pos < (#[trigger] b[k]).id.len() && b[k].id[pos] == cb,
    ensures
        ids_distinct(a + b),
{
    let c = a + b;
    assert forall|i: int, j: int| 0 <= i < j < c.len() implies (#[trigger] c[i]).id != (
    #[trigger] c[j]).id by {
        if j < a.len() {
            assert(c[i] == a[i] && c[j] == a[j]);
        } else if i >= a.len() {
            assert(c[i] == b[i - a.len()] && c[j] == b[j - a.len()]);
        } else {
            assert(c[i] == a[i] && c[j] == b[j - a.len()]);
            assert(c[i].id[pos] == ca);
            assert(c[j].id[pos] == cb);
        }
    }
}

/// Two lists without a repeated id, where no id of the first is an id of the
/// second, joined.
pub proof fn lemma_ids_distinct_add(a: Seq<FindingView>, b: Seq<FindingView>)
    requires
        ids_distinct(a),
        ids_distinct(b),
        forall|i: int, j: int|
            0 <= i < a.len() && 0 <= j < b.len() ==> (#[trigger] a[i]).id != (#[trigger] b[j]).id,
    ensures
        ids_distinct(a + b),
{
    let c = a + b;
    assert forall|i: int, j: int| 0 <= i < j < c.len() implies (#[trigger] c[i]).id != (
    #[trigger] c[j]).id by {
        if j < a.len() {
            assert(c[i] == a[i] && c[j] == a[j]);
        } else if i >= a.len() {
            assert(c[i] == b[i - a.len()] && c[j] == b[j - a.len()]);
        } else {
            assert(c[i] == a[i] && c[j] == b[j - a.len()]);
        }
    }
}

/// Lists without a repeated id, where lists at different places share no id,
/// joined.
pub proof fn lemma_concat_ids_distinct(pieces: Seq<Seq<FindingView>>)
    requires
        forall|i: int| 0 <= i < pieces.len() ==> ids_distinct(#[trigger] pieces[i]),
        forall|i: int, j: int, a: int, b: int|
            0 <= i < j < pieces.len() && 0 <= a < pieces[i].len() && 0 <= b < pieces[j].len()
                ==> (#[trigger] pieces[i][a]).id != (#[trigger] pieces[j][b]).id,
    ensures
        ids_distinct(concat_all(pieces)),
    decreases pieces.len(),
{
    if pieces.len() > 0 {
        let n = pieces.len() - 1;
        let ps = pieces.drop_last();
        let last = pieces[n];
        assert forall|i: int| 0 <= i < ps.len() implies ids_distinct(#[trigger] ps[i]) by {
            assert(ps[i] == pieces[i]);
        }
        assert forall|i: int, j: int, a: int, b: int|
            0 <= i < j < ps.len() && 0 <= a < ps[i].len() && 0 <= b < ps[j].len() implies (
            #[trigger] ps[i][a]).id != (#[trigger] ps[j][b]).id by {
            assert(ps[i] == pieces[i] && ps[j] == pieces[j]);
            assert(pieces[i][a].id != pieces[j][b].id);
        }
        lemma_concat_ids_distinct(ps);
        let apart = |f: FindingView| forall|b: int| 0 <= b < last.len() ==> f.id != #[trigger] last[b].id;
        assert forall|i: int, a: int| 0 <= i < ps.len() && 0 <= a < ps[i].len() implies #[trigger] apart(
            ps[i][a],
        ) by {
            assert(ps[i] == pieces[i]);
            assert forall|b: int| 0 <= b < last.len() implies ps[i][a].id != #[trigger] last[b].id by {
                assert(pieces[i][a].id != pieces[n][b].id);
            }
        }
        lemma_concat_all_forall(ps, apart);
        let before = concat_all(ps);
        assert forall|i: int, j: int| 0 <= i < before.len() && 0 <= j < last.len() implies (
        #[trigger] before[i]).id != (#[trigger] last[j]).id by {
            assert(apart(before[i]));
        }
        assert(ids_distinct(last));
        lemma_ids_distinct_add(before, last);
        assert(concat_all(pieces) == before + last);
    }
}

/// The finding where `cond` holds, else nothing.
pub open spec fn only_if(cond: bool, f: FindingView) -> Seq<FindingView> {
    if cond {
        seq![f]
    } else {
        Seq::empty()
    }
}

/// Appends a finding to a list.
pub fn push_finding(v: &mut Vec<Finding>, f: Finding)
    ensures
        final(v).deep_view() == old(v).deep_view().push(f@),
{
    let ghost prev = v.deep_view();
    let ghost fv = f@;
    v.push(f);
    assert(v.deep_view() =~= prev.push(fv));
}

/// A copy of a list of findings.
pub fn clone_findings(v: &Vec<Finding>) -> (r: Vec<Finding>)
    ensures
        r.deep_view() == v.deep_view(),
{
    let mut r: Vec<Finding> = Vec::new();
    let mut i: usize = 0;
    while i < v.len()
        invariant
            i <= v@.len(),
            r@.len() == i,
            forall|k: int| 0 <= k < i ==> #[trigger] r@[k]@ == v@[k]@,
        decreases v@.len() - i,
    {
        r.push(v[i].clone());
        i = i + 1;
    }
    assert(r.deep_view() =~= v.deep_view());
    r
}

/// The findings of one check.
#[derive(Debug)]
pub struct CheckResult {
    pub check_name: String,
    pub findings: Vec<Finding>,
}

pub struct CheckResultView {
    pub check_name: Seq<char>,
    pub findings: Seq<FindingView>,
}

impl View for CheckResult {
    type V = CheckResultView;

    open spec fn view(&self) -> CheckResultView {
        CheckResultView { check_name: self.check_name@, findings: self.findings.deep_view() }
    }
}

impl DeepView for CheckResult {
    type V = CheckResultView;

    open spec fn deep_view(&self) -> CheckResultView {
        self@
    }
}

impl Clone for CheckResult {
    fn clone(&self) -> (r: Self)
        ensures
            r@ == self@,
    {
        CheckResult { check_name: self.check_name.clone(), findings: clone_findings(&self.findings) }
    }
}

impl Default for CheckResult {
    fn default() -> (r: Self)
        ensures
            r@.check_name.len() == 0,
            r@.findings.len() == 0,
    {
        CheckResult { check_name: String::new(), findings: Vec::new() }
    }
}

/// A complete audit report.
#[derive(Debug)]
pub struct AuditReport {
    pub report_id: String,
    pub profile: String,
    pub generated_at: Timestamp,
    pub target: String,
    pub results: Vec<CheckResult>,
}

pub struct AuditReportView {
    pub report_id: Seq<char>,
    pub profile: Seq<char>,
    pub generated_at: Timestamp,
    pub target: Seq<char>,
    pub results: Seq<CheckResultView>,
}

impl View for AuditReport {
    type V = AuditReportView;

    open spec fn view(&self) -> AuditReportView {
        AuditReportView {
            report_id: self.report_id@,
            profile: self.profile@,
            generated_at: self.generated_at,
            target: self.target@,
            results: self.results.deep_view(),
        }
    }
}

impl DeepView for AuditReport {
    type V = AuditReportView;

    open spec fn deep_view(&self) -> AuditReportView {
        self@
    }
}

/// A copy of a list of check results.
pub fn clone_results(v: &Vec<CheckResult>) -> (r: Vec<CheckResult>)
    ensures
        r.deep_view() == v.deep_view(),
{
    let mut r: Vec<CheckResult> = Vec::new();
    let mut i: usize = 0;
    while i < v.len()
        invariant
            i <= v@.len(),
            r@.len() == i,
            forall|k: int| 0 <= k < i ==> #[trigger] r@[k]@ == v@[k]@,
        decreases v@.len() - i,
    {
        r.push(v[i].clone());
        i = i + 1;
    }
    assert(r.deep_view() =~= v.deep_view());
    r
}

impl Clone for AuditReport {
    fn clone(&self) -> (r: Self)
        ensures
            r@ == self@,
    {
        AuditReport {
            report_id: self.report_id.clone(),
            profile: self.profile.clone(),
            generated_at: self.generated_at,
            target: self.target.clone(),
            results: clone_results(&self.results),
        }
    }
}

/// The findings lists of the results, in order.
pub open spec fn findings_lists(results: Seq<CheckResultView>) -> Seq<Seq<FindingView>> {
    results.map_values(|r: CheckResultView| r.findings)
}

/// All findings of all results, in the order of the results.
pub open spec fn report_findings(results: Seq<CheckResultView>) -> Seq<FindingView> {
    concat_all(findings_lists(results))
}

impl AuditReport {
    /// All findings of the report, check by check, in order.
    pub fn all_findings(&self) -> (r: Vec<Finding>)
        ensures
            r.deep_view() == report_findings(self@.results),
    {
        let ghost results = self@.results;
        let mut r: Vec<Finding> = Vec::new();
        let mut i: usize = 0;
        while i < self.results.len()
            invariant
                results == self@.results,
                i <= results.len(),
                r.deep_view() == concat_all(findings_lists(results).take(i as int)),
            decreases results.len() - i,
        {
            let findings = &self.results[i].findings;
            let ghost before = r.deep_view();
            let mut j: usize = 0;
            while j < findings.len()
                invariant
                    j <= findings@.len(),
                    r.deep_view() == before + findings.deep_view().take(j as int),
                decreases findings@.len() - j,
            {
                let c = findings[j].clone();
                let ghost prev = r.deep_view();
                r.push(c);
                proof {
                    assert(r.deep_view() =~= prev.push(c.deep_view()));
                    assert(c.deep_view() == findings.deep_view()[j as int]);
                    assert(findings.deep_view().take(j + 1) =~= findings.deep_view().take(
                        j as int,
                    ).push(findings.deep_view()[j as int]));
                }
                j = j + 1;
                assert(r.deep_view() =~= before + findings.deep_view().take(j as int));
            }
            proof {
                assert(findings.deep_view().take(j as int) =~= findings.deep_view());
                assert(findings_lists(results)[i as int] == findings.deep_view());
                lemma_concat_all_take(findings_lists(results), i as int);
            }
            i = i + 1;
        }
        assert(findings_lists(results).take(i as int) =~= findings_lists(results));
        r
    }
}

} // verus!
