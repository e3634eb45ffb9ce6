//! What the pages of the web interface show, computed from its state.
use vstd::prelude::*;
use crate::models::{Finding, FindingView, Severity, report_findings};
use crate::seqs::{count_where, lemma_count_where_take, push_deep};
use crate::services::app_state::{AppData, ClusterInfo, ScanJob, opt_report_view};
use crate::models::{AuditReport, AuditReportView};
use crate::templates::{
    ClustersTemplate, DashboardMetric, DashboardTemplate, FindingDetailTemplate, FindingsTemplate,
    ReportsTemplate, ScansTemplate, SettingsTemplate,
};

verus! {

/// The settings form as submitted.
#[derive(Debug)]
pub struct SettingsForm {
    pub report_title: String,
    pub output_format: String,
    pub branding: String,
}

/// Where to send the visitor of a page: to the setup page while no cluster
/// connection is configured, else nowhere.
pub fn setup_redirect_if_missing(has_config: bool) -> (r: Option<&'static str>)
    ensures
        match r {
            Some(target) => !has_config && target@ == "/setup"@,
            None => has_config,
        },
{
    if has_config {
        None
    } else {
        Some("/setup")
    }
}

/// The findings of the latest report, or none without a report.
pub open spec fn latest_findings_of(latest: Option<AuditReportView>) -> Seq<FindingView> {
    match latest {
        Some(r) => report_findings(r.results),
        None => Seq::empty(),
    }
}

/// All findings of the latest report.
pub fn latest_findings(data: &AppData) -> (r: Vec<Finding>)
    ensures
        r.deep_view() == latest_findings_of(opt_report_view(data.latest_report)),
{
    match &data.latest_report {
        Some(r) => r.all_findings(),
        None => {
            let v: Vec<Finding> = Vec::new();
            assert(v.deep_view() =~= Seq::<FindingView>::empty());
            v
        },
    }
}

pub open spec fn is_critical(f: FindingView) -> bool {
    f.severity == Severity::Critical
}

pub open spec fn is_high(f: FindingView) -> bool {
    f.severity == Severity::High
}

pub open spec fn is_medium(f: FindingView) -> bool {
    f.severity == Severity::Medium
}

pub open spec fn is_low_or_info(f: FindingView) -> bool {
    f.severity == Severity::Low || f.severity == Severity::Info
}

/// How many findings have severity Critical, High, Medium, and Low or Info.
pub open spec fn severity_counts(fs: Seq<FindingView>) -> (nat, nat, nat, nat) {
    (
        count_where(fs, |f: FindingView| is_critical(f)),
        count_where(fs, |f: FindingView| is_high(f)),
        count_where(fs, |f: FindingView| is_medium(f)),
        count_where(fs, |f: FindingView| is_low_or_info(f)),
    )
}

/// The first `n` elements, or all where there are fewer.
pub open spec fn first_n<A>(s: Seq<A>, n: nat) -> Seq<A> {
    if s.len() <= n {
        s
    } else {
        s.take(n as int)
    }
}

/// The label and value of a metric.
pub open spec fn metric_view(m: DashboardMetric) -> (Seq<char>, nat) {
    (m.label@, m.value as nat)
}

/// The four metrics of the dashboard for the given findings.
pub open spec fn dashboard_metrics_of(fs: Seq<FindingView>) -> Seq<(Seq<char>, nat)> {
    let c = severity_counts(fs);
    seq![("Critical"@, c.0), ("High"@, c.1), ("Medium"@, c.2), ("Low/Info"@, c.3)]
}

/// Every finding is counted in exactly one of the four dashboard metrics:
/// together they count all findings.
pub proof fn lemma_metrics_count_every_finding(fs: Seq<FindingView>)
    ensures
        severity_counts(fs).0 + severity_counts(fs).1 + severity_counts(fs).2 + severity_counts(
            fs,
        ).3 == fs.len(),
    decreases fs.len(),
{
    if fs.len() > 0 {
        lemma_metrics_count_every_finding(fs.drop_last());
    }
}

/// The counts of no findings are all zero; one more finding adds one to the
/// count of its own severity (Low and Info sharing one) and leaves the other
/// three unchanged.
pub proof fn lemma_metrics_count_by_severity(fs: Seq<FindingView>, f: FindingView)
    ensures
        severity_counts(Seq::<FindingView>::empty()) == (0nat, 0nat, 0nat, 0nat),
        severity_counts(fs.push(f)) == match f.severity {
            Severity::Critical => (
                severity_counts(fs).0 + 1,
                severity_counts(fs).1,
                severity_counts(fs).2,
                severity_counts(fs).3,
            ),
            Severity::High => (
                severity_counts(fs).0,
                severity_counts(fs).1 + 1,
                severity_counts(fs).2,
                severity_counts(fs).3,
            ),
            Severity::Medium => (
                severity_counts(fs).0,
                severity_counts(fs).1,
                severity_counts(fs).2 + 1,
                severity_counts(fs).3,
            ),
            Severity::Low | Severity::Info => (
                severity_counts(fs).0,
                severity_counts(fs).1,
                severity_counts(fs).2,
                severity_counts(fs).3 + 1,
            ),
        },
{
    assert(fs.push(f).drop_last() =~= fs);
}

/// The first `n` elements are the start of `s`, as many as `n` or as `s` has.
pub proof fn lemma_first_n_prefix<A>(s: Seq<A>, n: nat)
    ensures
        first_n(s, n).len() == if s.len() <= n {
            s.len()
        } else {
            n
        },
        forall|k: int| 0 <= k < first_n(s, n).len() ==> #[trigger] first_n(s, n)[k] == s[k],
{
}

fn count_severities(fs: &Vec<Finding>) -> (r: (usize, usize, usize, usize))
    ensures
        (r.0 as nat, r.1 as nat, r.2 as nat, r.3 as nat) == severity_counts(fs.deep_view()),
{
    let ghost s = fs.deep_view();
    let mut c: usize = 0;
    let mut h: usize = 0;
    let mut m: usize = 0;
    let mut l: usize = 0;
    let mut i: usize = 0;
    while i < fs.len()
        invariant
            s == fs.deep_view(),
            i <= s.len(),
            c <= i,
            h <= i,
            m <= i,
            l <= i,
            c == count_where(s.take(i as int), |f: FindingView| is_critical(f)),
            h == count_where(s.take(i as int), |f: FindingView| is_high(f)),
            m == count_where(s.take(i as int), |f: FindingView| is_medium(f)),
            l == count_where(s.take(i as int), |f: FindingView| is_low_or_info(f)),
        decreases s.len() - i,
    {
        proof {
            lemma_count_where_take(s, |f: FindingView| is_critical(f), i as int);
            lemma_count_where_take(s, |f: FindingView| is_high(f), i as int);
            lemma_count_where_take(s, |f: FindingView| is_medium(f), i as int);
            lemma_count_where_take(s, |f: FindingView| is_low_or_info(f), i as int);
            assert(s[i as int] == fs@[i as int]@);
        }
        match fs[i].severity {
            Severity::Critical => {
                c = c + 1;
            },
            Severity::High => {
                h = h + 1;
            },
            Severity::Medium => {
                m = m + 1;
            },
            Severity::Low | Severity::Info => {
                l = l + 1;
            },
        }
        i = i + 1;
    }
    assert(s.take(i as int) =~= s);
    (c, h, m, l)
}

/// The scans, newest first (in the reverse order of their start), at most
/// `limit` of them where a limit is given.
pub fn scans_newest_first(scans: &Vec<ScanJob>, limit: Option<usize>) -> (r: Vec<ScanJob>)
    ensures
        r.deep_view() == match limit {
            Some(n) => first_n(scans.deep_view().reverse(), n as nat),
            None => scans.deep_view().reverse(),
        },
{
    let ghost rev = scans.deep_view().reverse();
    let len = scans.len();
    let count = match limit {
        Some(n) => if n < len {
            n
        } else {
            len
        },
        None => len,
    };
    let mut r: Vec<ScanJob> = Vec::new();
    let mut t: usize = 0;
    while t < count
        invariant
            rev == scans.deep_view().reverse(),
            len == scans@.len(),
            count <= len,
            t <= count,
            r.deep_view() == rev.take(t as int),
        decreases count - t,
    {
        let j = scans[len - 1 - t].clone();
        push_deep(&mut r, j);
        proof {
            assert(rev[t as int] == scans.deep_view()[len - 1 - t]);
            assert(r.deep_view() =~= rev.take(t + 1));
        }
        t = t + 1;
    }
    proof {
        if count == len {
            assert(rev.take(len as int) =~= rev);
        }
    }
    r
}

/// The dashboard: the latest report, the finding counts by severity, the
/// first six findings and the six most recent scans.
pub fn dashboard_page(data: &AppData) -> (r: DashboardTemplate)
    ensures
        r.page_title@ == "Dashboard"@,
        opt_report_view(r.report) == opt_report_view(data.latest_report),
        r.metrics@.map_values(|m: DashboardMetric| metric_view(m)) == dashboard_metrics_of(
            latest_findings_of(opt_report_view(data.latest_report)),
        ),
        r.top_risks.deep_view() == first_n(
            latest_findings_of(opt_report_view(data.latest_report)),
            6,
        ),
        r.recent_scans.deep_view() == first_n(data.scans.deep_view().reverse(), 6),
{
    let report = match &data.latest_report {
        Some(x) => Some(x.clone()),
        None => None,
    };
    let findings = latest_findings(data);
    let counts = count_severities(&findings);
    let mut metrics: Vec<DashboardMetric> = Vec::new();
    metrics.push(DashboardMetric { label: "Critical", value: counts.0 });
    metrics.push(DashboardMetric { label: "High", value: counts.1 });
    metrics.push(DashboardMetric { label: "Medium", value: counts.2 });
    metrics.push(DashboardMetric { label: "Low/Info", value: counts.3 });
    let ghost fs = findings.deep_view();
    assert(metrics@.map_values(|m: DashboardMetric| metric_view(m)) =~= dashboard_metrics_of(fs));
    let mut top_risks: Vec<Finding> = Vec::new();
    let mut i: usize = 0;
    while i < findings.len() && i < 6
        invariant
            fs == findings.deep_view(),
            i <= fs.len(),
            i <= 6,
            top_risks.deep_view() == fs.take(i as int),
        decreases fs.len() - i,
    {
        push_deep(&mut top_risks, findings[i].clone());
        assert(top_risks.deep_view() =~= fs.take(i + 1));
        i = i + 1;
    }
    assert(top_risks.deep_view() =~= first_n(fs, 6));
    let recent_scans = scans_newest_first(&data.scans, Some(6));
    DashboardTemplate { page_title: "Dashboard", report, metrics, top_risks, recent_scans }
}

/// The scans page: all scans, newest first.
pub fn scans_page(data: &AppData) -> (r: ScansTemplate)
    ensures
        r.page_title@ == "Scans"@,
        r.scans.deep_view() == data.scans.deep_view().reverse(),
{
    ScansTemplate { page_title: "Scans", scans: scans_newest_first(&data.scans, None) }
}

/// The findings page: all findings of the latest report.
pub fn findings_page(data: &AppData) -> (r: FindingsTemplate)
    ensures
        r.page_title@ == "Findings"@,
        r.findings.deep_view() == latest_findings_of(opt_report_view(data.latest_report)),
{
    FindingsTemplate { page_title: "Findings", findings: latest_findings(data) }
}

/// The finding at `i` is the first of `fs` with id `id`.
pub open spec fn is_first_finding(fs: Seq<FindingView>, id: Seq<char>, i: int) -> bool {
    &&& 0 <= i < fs.len()
    &&& fs[i].id == id
    &&& forall|j: int| 0 <= j < i ==> fs[j].id != id
}

/// The detail page of the first finding of the latest report with id `id`,
/// or `None` where there is no such finding (the page is then "not found").
pub fn finding_detail_page(data: &AppData, id: &String) -> (r: Option<FindingDetailTemplate>)
    ensures
        match r {
            Some(page) => page.page_title@ == "Finding Detail"@ && exists|i: int|
                #[trigger] is_first_finding(
                    latest_findings_of(opt_report_view(data.latest_report)),
                    id@,
                    i,
                ) && page.finding@ == latest_findings_of(opt_report_view(data.latest_report))[i],
            None => forall|i: int|
                0 <= i < latest_findings_of(opt_report_view(data.latest_report)).len()
                    ==> #[trigger] latest_findings_of(
                    opt_report_view(data.latest_report),
                )[i].id != id@,
        },
{
    let findings = latest_findings(data);
    let ghost fs = findings.deep_view();
    let mut i: usize = 0;
    while i < findings.len()
        invariant
            fs == findings.deep_view(),
            fs == latest_findings_of(opt_report_view(data.latest_report)),
            i <= fs.len(),
            forall|j: int| 0 <= j < i ==> #[trigger] fs[j].id != id@,
        decreases fs.len() - i,
    {
        if findings[i].id == *id {
            let finding = findings[i].clone();
            assert(fs[i as int] == findings@[i as int]@);
            assert(is_first_finding(fs, id@, i as int));
            assert(is_first_finding(
                latest_findings_of(opt_report_view(data.latest_report)),
                id@,
                i as int,
            ));
            return Some(FindingDetailTemplate { page_title: "Finding Detail", finding });
        }
        i = i + 1;
    }
    None
}

/// The reports page: the report history, newest first.
pub fn reports_page(data: &AppData) -> (r: ReportsTemplate)
    ensures
        r.page_title@ == "Reports"@,
        r.reports.deep_view() == data.report_history.deep_view().reverse(),
{
    let ghost rev = data.report_history.deep_view().reverse();
    let hist = &data.report_history;
    let mut r: Vec<AuditReport> = Vec::new();
    let mut k: usize = hist.len();
    while k > 0
        invariant
            rev == hist.deep_view().reverse(),
            k <= hist@.len(),
            r.deep_view() == rev.take(hist@.len() - k),
        decreases k,
    {
        let x = hist[k - 1].clone();
        push_deep(&mut r, x);
        proof {
            assert(rev[hist@.len() - k] == hist.deep_view()[k - 1]);
            assert(r.deep_view() =~= rev.take(hist@.len() - k + 1));
        }
        k = k - 1;
    }
    assert(rev.take(hist@.len() as int) =~= rev);
    ReportsTemplate { page_title: "Reports", reports: r }
}

/// The clusters page.
pub fn clusters_page(data: &AppData) -> (r: ClustersTemplate)
    ensures
        r.page_title@ == "Clusters"@,
        r.clusters.deep_view() == data.clusters.deep_view(),
{
    let mut clusters: Vec<ClusterInfo> = Vec::new();
    let mut i: usize = 0;
    while i < data.clusters.len()
        invariant
            i <= data.clusters@.len(),
            clusters.deep_view() == data.clusters.deep_view().take(i as int),
        decreases data.clusters@.len() - i,
    {
        push_deep(&mut clusters, data.clusters[i].clone());
        assert(clusters.deep_view() =~= data.clusters.deep_view().take(i + 1));
        i = i + 1;
    }
    assert(data.clusters.deep_view().take(i as int) =~= data.clusters.deep_view());
    ClustersTemplate { page_title: "Clusters", clusters }
}

/// The settings page.
pub fn settings_page(data: &AppData) -> (r: SettingsTemplate)
    ensures
        r.page_title@ == "Settings"@,
        r.settings@ == data.settings@,
{
    SettingsTemplate { page_title: "Settings", settings: data.settings.clone() }
}

} // verus!
