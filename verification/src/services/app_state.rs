//! The state of the web interface: the latest report and the report history,
//! the scan jobs, the clusters, the settings and the connection settings.
use vstd::prelude::*;
use crate::config::AuditConfig;
use crate::models::{AuditReport, AuditReportView, report_findings};
use crate::services::kube_ui::{KubeUiConfig, KubeUiConfigView};
use crate::text::{join2, owned, u64_text, i64_text, nat_decimal, int_decimal};
use crate::time::Timestamp;

verus! {

/// A scan started from the web interface.
#[derive(Debug)]
pub struct ScanJob {
    pub id: String,
    pub status: String,
    pub progress: u8,
    pub started_at: Timestamp,
    pub finished_at: Option<Timestamp>,
    pub message: String,
}

pub struct ScanJobView {
    pub id: Seq<char>,
    pub status: Seq<char>,
    pub progress: u8,
    pub started_at: Timestamp,
    pub finished_at: Option<Timestamp>,
    pub message: Seq<char>,
}

impl View for ScanJob {
    type V = ScanJobView;

    open spec fn view(&self) -> ScanJobView {
        ScanJobView {
            id: self.id@,
            status: self.status@,
            progress: self.progress,
            started_at: self.started_at,
            finished_at: self.finished_at,
            message: self.message@,
        }
    }
}

impl DeepView for ScanJob {
    type V = ScanJobView;

    open spec fn deep_view(&self) -> ScanJobView {
        self@
    }
}

impl Clone for ScanJob {
    fn clone(&self) -> (r: Self)
        ensures
            r@ == self@,
    {
        ScanJob {
            id: self.id.clone(),
            status: self.status.clone(),
            progress: self.progress,
            started_at: self.started_at,
            finished_at: self.finished_at,
            message: self.message.clone(),
        }
    }
}

/// A cluster known to the web interface.
#[derive(Debug)]
pub struct ClusterInfo {
    pub name: String,
    pub status: String,
    pub last_scan: Option<Timestamp>,
    pub risk: String,
    pub reachable: bool,
}

pub struct ClusterInfoView {
    pub name: Seq<char>,
    pub status: Seq<char>,
    pub last_scan: Option<Timestamp>,
    pub risk: Seq<char>,
    pub reachable: bool,
}

impl View for ClusterInfo {
    type V = ClusterInfoView;

    open spec fn view(&self) -> ClusterInfoView {
        ClusterInfoView {
            name: self.name@,
            status: self.status@,
            last_scan: self.last_scan,
            risk: self.risk@,
            reachable: self.reachable,
        }
    }
}

impl DeepView for ClusterInfo {
    type V = ClusterInfoView;

    open spec fn deep_view(&self) -> ClusterInfoView {
        self@
    }
}

impl Clone for ClusterInfo {
    fn clone(&self) -> (r: Self)
        ensures
            r@ == self@,
    {
        ClusterInfo {
            name: self.name.clone(),
            status: self.status.clone(),
            last_scan: self.last_scan,
            risk: self.risk.clone(),
            reachable: self.reachable,
        }
    }
}

/// The report settings of the web interface.
#[derive(Debug)]
pub struct UiSettings {
    pub report_title: String,
    pub output_format: String,
    pub branding: String,
}

pub struct UiSettingsView {
    pub report_title: Seq<char>,
    pub output_format: Seq<char>,
    pub branding: Seq<char>,
}

impl View for UiSettings {
    type V = UiSettingsView;

    open spec fn view(&self) -> UiSettingsView {
        UiSettingsView {
            report_title: self.report_title@,
            output_format: self.output_format@,
            branding: self.branding@,
        }
    }
}

impl Clone for UiSettings {
    fn clone(&self) -> (r: Self)
        ensures
            r@ == self@,
    {
        UiSettings {
            report_title: self.report_title.clone(),
            output_format: self.output_format.clone(),
            branding: self.branding.clone(),
        }
    }
}

/// The error messages of failed scans, by scan id.
///
/// Entries are kept in the order they were recorded; a later entry for the
/// same id overrides an earlier one, so the view is the map that a sequence
/// of `BTreeMap::insert` calls would give. A `BTreeMap<String, String>` itself
/// would prove nothing here: vstd states what its `insert` does only for keys
/// whose ordering obeys vstd's `cmp` specification, and `String` is given none.
#[derive(Debug)]
pub struct ScanErrors {
    entries: Vec<(String, String)>,
}

/// The map that inserting the entries one after the other gives.
pub open spec fn entries_map(s: Seq<(String, String)>) -> Map<Seq<char>, Seq<char>>
    decreases s.len(),
{
    if s.len() == 0 {
        Map::empty()
    } else {
        entries_map(s.drop_last()).insert(s.last().0@, s.last().1@)
    }
}

impl View for ScanErrors {
    type V = Map<Seq<char>, Seq<char>>;

    closed spec fn view(&self) -> Map<Seq<char>, Seq<char>> {
        entries_map(self.entries@)
    }
}

impl ScanErrors {
    /// No errors recorded.
    pub fn new() -> (r: Self)
        ensures
            r@ == Map::<Seq<char>, Seq<char>>::empty(),
    {
        ScanErrors { entries: Vec::new() }
    }

    /// Records the error of a scan, replacing an earlier one for the same id.
    pub fn insert(&mut self, scan_id: String, message: String)
        ensures
            final(self)@ == old(self)@.insert(scan_id@, message@),
    {
        let ghost before = self.entries@;
        let ghost k = scan_id@;
        let ghost v = message@;
        self.entries.push((scan_id, message));
        assert(self.entries@.drop_last() =~= before);
    }
}

/// The state of the web interface.
#[derive(Debug)]
pub struct AppData {
    pub latest_report: Option<AuditReport>,
    pub report_history: Vec<AuditReport>,
    pub scans: Vec<ScanJob>,
    pub clusters: Vec<ClusterInfo>,
    pub settings: UiSettings,
    pub config: AuditConfig,
    pub kube_config: Option<KubeUiConfig>,
    pub scan_errors: ScanErrors,
}

pub open spec fn opt_report_view(r: Option<AuditReport>) -> Option<AuditReportView> {
    match r {
        Some(x) => Some(x@),
        None => None,
    }
}

pub open spec fn opt_kube_view(k: Option<KubeUiConfig>) -> Option<KubeUiConfigView> {
    match k {
        Some(x) => Some(x@),
        None => None,
    }
}

/// A running job: status `running`, at 10 %, not finished.
pub open spec fn job_running(j: ScanJobView) -> bool {
    j.status == "running"@ && j.progress == 10 && j.finished_at is None
}

/// A finished job: status `completed` or `failed`, at 100 %, with the time it
/// finished.
pub open spec fn job_finished(j: ScanJobView) -> bool {
    &&& j.status == "completed"@ || j.status == "failed"@
    &&& j.progress == 100
    &&& j.finished_at is Some
}

/// The latest report is the last of the history, and there is one exactly
/// when the history is not empty; every job is running or finished.
pub open spec fn app_invariant(
    latest: Option<AuditReportView>,
    history: Seq<AuditReportView>,
    scans: Seq<ScanJobView>,
) -> bool {
    &&& match latest {
        None => history.len() == 0,
        Some(r) => history.len() > 0 && history.last() == r,
    }
    &&& forall|i: int| 0 <= i < scans.len() ==> job_running(#[trigger] scans[i]) || job_finished(scans[i])
}

/// From `before` to `after` no job is removed or moved: each keeps its place,
/// its id and its start time. A job changes only by finishing, and a finished
/// job stays finished, so a job leaves `running` at most once. New jobs come
/// at the end.
pub open spec fn scans_progressed(before: Seq<ScanJobView>, after: Seq<ScanJobView>) -> bool {
    &&& before.len() <= after.len()
    &&& forall|i: int|
        0 <= i < before.len() ==> {
            &&& (#[trigger] after[i]).id == before[i].id
            &&& after[i].started_at == before[i].started_at
            &&& after[i] != before[i] ==> job_finished(after[i])
            &&& job_finished(before[i]) ==> job_finished(after[i])
        }
}

/// Steps that each keep the jobs in place and only finish them, one after the
/// other, do the same.
pub proof fn lemma_scans_progressed_trans(
    a: Seq<ScanJobView>,
    b: Seq<ScanJobView>,
    c: Seq<ScanJobView>,
)
    requires
        scans_progressed(a, b),
        scans_progressed(b, c),
    ensures
        scans_progressed(a, c),
{
    assert forall|i: int| 0 <= i < a.len() implies {
        &&& (#[trigger] c[i]).id == a[i].id
        &&& c[i].started_at == a[i].started_at
        &&& c[i] != a[i] ==> job_finished(c[i])
        &&& job_finished(a[i]) ==> job_finished(c[i])
    } by {
        assert(b[i].id == a[i].id);
        assert(c[i].id == b[i].id);
    }
}

/// A finished job is not running.
pub proof fn lemma_finished_not_running(j: ScanJobView)
    requires
        job_finished(j),
    ensures
        !job_running(j),
{
    reveal_strlit("running");
    reveal_strlit("completed");
    reveal_strlit("failed");
    assert("running"@[0] != "completed"@[0]);
    assert("running"@[0] != "failed"@[0]);
}

/// The scan at `i` is the first with id `id`.
pub open spec fn is_first_with_id(scans: Seq<ScanJobView>, id: Seq<char>, i: int) -> bool {
    &&& 0 <= i < scans.len()
    &&& scans[i].id == id
    &&& forall|j: int| 0 <= j < i ==> scans[j].id != id
}

/// No scan has id `id`.
pub open spec fn no_scan_with_id(scans: Seq<ScanJobView>, id: Seq<char>) -> bool {
    forall|j: int| 0 <= j < scans.len() ==> scans[j].id != id
}

/// The scan marked finished with `status` and `message` at `now`.
pub open spec fn finished_job(
    s: ScanJobView,
    status: Seq<char>,
    message: Seq<char>,
    now: Timestamp,
) -> ScanJobView {
    ScanJobView {
        status: status,
        progress: 100,
        finished_at: Some(now),
        message: message,
        ..s
    }
}

/// The first scan with id `id` finished with `status` and `message`; the
/// scans unchanged where no scan has that id.
pub open spec fn scans_after_finish(
    scans: Seq<ScanJobView>,
    id: Seq<char>,
    status: Seq<char>,
    message: Seq<char>,
    now: Timestamp,
    result: Seq<ScanJobView>,
) -> bool {
    ||| no_scan_with_id(scans, id) && result == scans
    ||| exists|i: int|
        #[trigger] is_first_with_id(scans, id, i) && result == scans.update(
            i,
            finished_job(scans[i], status, message, now),
        )
}

/// The risk text of a cluster after a report: `"<n> findings"`, or
/// `"No findings"`.
pub open spec fn risk_text(report: AuditReportView) -> Seq<char> {
    let n = report_findings(report.results).len();
    if n > 0 {
        nat_decimal(n) + " findings"@
    } else {
        "No findings"@
    }
}

/// The identifier of a scan started at `now`: `scan-<milliseconds>`.
pub open spec fn scan_id_text(now: Timestamp) -> Seq<char> {
    "scan-"@ + int_decimal(now.millis())
}

/// Finds the first scan with the given id.
fn find_scan(scans: &Vec<ScanJob>, id: &str) -> (r: Option<usize>)
    ensures
        match r {
            Some(i) => is_first_with_id(scans.deep_view(), id@, i as int),
            None => no_scan_with_id(scans.deep_view(), id@),
        },
{
    let target = owned(id);
    let mut i: usize = 0;
    while i < scans.len()
        invariant
            target@ == id@,
            i <= scans@.len(),
            forall|j: int| 0 <= j < i ==> #[trigger] scans@[j]@.id != id@,
        decreases scans@.len() - i,
    {
        if scans[i].id == target {
            return Some(i);
        }
        i = i + 1;
    }
    None
}

impl AppData {
    /// The fields of the state other than those named are those of `other`.
    pub open spec fn same_except_scans(&self, other: &AppData) -> bool {
        &&& opt_report_view(self.latest_report) == opt_report_view(other.latest_report)
        &&& self.report_history.deep_view() == other.report_history.deep_view()
        &&& self.clusters.deep_view() == other.clusters.deep_view()
        &&& self.settings@ == other.settings@
        &&& self.config@ == other.config@
        &&& opt_kube_view(self.kube_config) == opt_kube_view(other.kube_config)
        &&& self.scan_errors@ == other.scan_errors@
    }

    pub open spec fn well_formed(&self) -> bool {
        app_invariant(
            opt_report_view(self.latest_report),
            self.report_history.deep_view(),
            self.scans.deep_view(),
        )
    }

    /// The state at start: the seed report (if any) as latest report and as
    /// the whole history, no scans, the configured cluster as the only
    /// cluster (healthy, never scanned, risk unknown, reachable), the default
    /// settings and no scan errors.
    pub fn new(config: AuditConfig, seed_report: Option<AuditReport>, kube_config: Option<
        KubeUiConfig,
    >) -> (r: Self)
        ensures
            opt_report_view(r.latest_report) == opt_report_view(seed_report),
            r.report_history.deep_view() == match seed_report {
                Some(s) => seq![s@],
                None => Seq::<AuditReportView>::empty(),
            },
            r.scans@.len() == 0,
            r.clusters.deep_view() == seq![
                ClusterInfoView {
                    name: config@.cluster_name,
                    status: "Healthy"@,
                    last_scan: None,
                    risk: "Unknown"@,
                    reachable: true,
                },
            ],
            r.settings@ == (UiSettingsView {
                report_title: "Securenetes Compliance Report"@,
                output_format: "html"@,
                branding: "Securenetes"@,
            }),
            r.config@ == config@,
            opt_kube_view(r.kube_config) == opt_kube_view(kube_config),
            r.scan_errors@ == Map::<Seq<char>, Seq<char>>::empty(),
            r.well_formed(),
    {
        let mut report_history: Vec<AuditReport> = Vec::new();
        let latest_report = match seed_report {
            Some(s) => {
                report_history.push(s.clone());
                Some(s)
            },
            None => None,
        };
        let mut clusters: Vec<ClusterInfo> = Vec::new();
        clusters.push(
            ClusterInfo {
                name: config.cluster_name.clone(),
                status: owned("Healthy"),
                last_scan: None,
                risk: owned("Unknown"),
                reachable: true,
            },
        );
        let r = AppData {
            latest_report,
            report_history,
            scans: Vec::new(),
            clusters,
            settings: UiSettings {
                report_title: owned("Securenetes Compliance Report"),
                output_format: owned("html"),
                branding: owned("Securenetes"),
            },
            config,
            kube_config,
            scan_errors: ScanErrors::new(),
        };
        assert(r.clusters.deep_view() =~= seq![r.clusters@[0]@]);
        assert(r.report_history.deep_view() =~= match seed_report {
            Some(s) => seq![s@],
            None => Seq::<AuditReportView>::empty(),
        });
        r
    }

    /// Registers a scan started at `now` and gives its id: a running job at
    /// 10 % with the message `Scan initialized` is added at the end.
    pub fn begin_scan(&mut self, now: Timestamp) -> (id: String)
        ensures
            id@ == scan_id_text(now),
            final(self).scans.deep_view() == old(self).scans.deep_view().push(
                ScanJobView {
                    id: id@,
                    status: "running"@,
                    progress: 10,
                    started_at: now,
                    finished_at: None,
                    message: "Scan initialized"@,
                },
            ),
            final(self).same_except_scans(old(self)),
            scans_progressed(old(self).scans.deep_view(), final(self).scans.deep_view()),
            old(self).well_formed() ==> final(self).well_formed(),
    {
        let millis = i64_text(now.timestamp_millis());
        let id = join2("scan-", millis.as_str());
        let job = ScanJob {
            id: id.clone(),
            status: owned("running"),
            progress: 10,
            started_at: now,
            finished_at: None,
            message: owned("Scan initialized"),
        };
        let ghost before = self.scans.deep_view();
        let ghost jv = job@;
        self.scans.push(job);
        assert(self.scans.deep_view() =~= before.push(jv));
        id
    }

    /// Records the report of a finished scan at `now`: the first scan with id
    /// `scan_id` is marked completed (100 %, finished now, `Audit finished`);
    /// the first cluster was last scanned now and carries the risk text of
    /// the report; the report becomes the latest and is added to the
    /// history.
    pub fn complete_scan(&mut self, scan_id: &str, report: AuditReport, now: Timestamp)
        ensures
            scans_after_finish(
                old(self).scans.deep_view(),
                scan_id@,
                "completed"@,
                "Audit finished"@,
                now,
                final(self).scans.deep_view(),
            ),
            final(self).clusters.deep_view() == if old(self).clusters@.len() > 0 {
                old(self).clusters.deep_view().update(
                    0,
                    ClusterInfoView {
                        last_scan: Some(now),
                        risk: risk_text(report@),
                        ..old(self).clusters.deep_view()[0]
                    },
                )
            } else {
                old(self).clusters.deep_view()
            },
            opt_report_view(final(self).latest_report) == Some(report@),
            final(self).report_history.deep_view() == old(self).report_history.deep_view().push(
                report@,
            ),
            final(self).settings@ == old(self).settings@,
            final(self).config@ == old(self).config@,
            opt_kube_view(final(self).kube_config) == opt_kube_view(old(self).kube_config),
            final(self).scan_errors@ == old(self).scan_errors@,
            scans_progressed(old(self).scans.deep_view(), final(self).scans.deep_view()),
            old(self).well_formed() ==> final(self).well_formed(),
    {
        let ghost old_scans = self.scans.deep_view();
        let ghost old_clusters = self.clusters.deep_view();
        let ghost old_history = self.report_history.deep_view();
        self.finish_job(scan_id, "completed", "Audit finished", now);
        if self.clusters.len() > 0 {
            let findings = report.all_findings();
            let count = findings.len();
            let risk = if count > 0 {
                let n = u64_text(count as u64);
                join2(n.as_str(), " findings")
            } else {
                owned("No findings")
            };
            assert(risk@ == risk_text(report@));
            let first = ClusterInfo {
                name: self.clusters[0].name.clone(),
                status: self.clusters[0].status.clone(),
                last_scan: Some(now),
                risk,
                reachable: self.clusters[0].reachable,
            };
            let ghost fv = first@;
            self.clusters.set(0, first);
            assert(self.clusters.deep_view() =~= old_clusters.update(0, fv));
        }
        let ghost rv = report@;
        self.latest_report = Some(report.clone());
        self.report_history.push(report);
        assert(self.report_history.deep_view() =~= old_history.push(rv));
    }

    /// Records the failure of a scan at `now`: the first scan with id
    /// `scan_id` is marked failed (100 %, finished now, `Scan failed:
    /// <error>`), and the error is recorded for the scan id.
    pub fn fail_scan(&mut self, scan_id: &str, error: &str, now: Timestamp)
        ensures
            scans_after_finish(
                old(self).scans.deep_view(),
                scan_id@,
                "failed"@,
                "Scan failed: "@ + error@,
                now,
                final(self).scans.deep_view(),
            ),
            final(self).scan_errors@ == old(self).scan_errors@.insert(scan_id@, error@),
            opt_report_view(final(self).latest_report) == opt_report_view(old(self).latest_report),
            final(self).report_history.deep_view() == old(self).report_history.deep_view(),
            final(self).clusters.deep_view() == old(self).clusters.deep_view(),
            final(self).settings@ == old(self).settings@,
            final(self).config@ == old(self).config@,
            opt_kube_view(final(self).kube_config) == opt_kube_view(old(self).kube_config),
            scans_progressed(old(self).scans.deep_view(), final(self).scans.deep_view()),
            old(self).well_formed() ==> final(self).well_formed(),
    {
        let message = join2("Scan failed: ", error);
        self.finish_job(scan_id, "failed", message.as_str(), now);
        self.scan_errors.insert(owned(scan_id), owned(error));
    }

    fn finish_job(&mut self, scan_id: &str, status: &str, message: &str, now: Timestamp)
        ensures
            scans_after_finish(
                old(self).scans.deep_view(),
                scan_id@,
                status@,
                message@,
                now,
                final(self).scans.deep_view(),
            ),
            final(self).same_except_scans(old(self)),
            final(self).scans@.len() == old(self).scans@.len(),
            status@ == "completed"@ || status@ == "failed"@ ==> scans_progressed(
                old(self).scans.deep_view(),
                final(self).scans.deep_view(),
            ),
            old(self).well_formed() && (status@ == "completed"@ || status@ == "failed"@)
                ==> final(self).well_formed(),
    {
        let ghost before = self.scans.deep_view();
        match find_scan(&self.scans, scan_id) {
            Some(i) => {
                let job = ScanJob {
                    id: self.scans[i].id.clone(),
                    status: owned(status),
                    progress: 100,
                    started_at: self.scans[i].started_at,
                    finished_at: Some(now),
                    message: owned(message),
                };
                let ghost jv = job@;
                self.scans.set(i, job);
                assert(self.scans.deep_view() =~= before.update(
                    i as int,
                    finished_job(before[i as int], status@, message@, now),
                ));
                assert(is_first_with_id(before, scan_id@, i as int));
            },
            None => {},
        }
    }

    /// Replaces the settings with those of the submitted form.
    pub fn save_settings(&mut self, form: crate::handlers::pages::SettingsForm)
        ensures
            final(self).settings@ == (UiSettingsView {
                report_title: form.report_title@,
                output_format: form.output_format@,
                branding: form.branding@,
            }),
            final(self).scans.deep_view() == old(self).scans.deep_view(),
            final(self).same_except_settings(old(self)),
            old(self).well_formed() ==> final(self).well_formed(),
    {
        self.settings = UiSettings {
            report_title: form.report_title,
            output_format: form.output_format,
            branding: form.branding,
        };
    }

    /// The fields other than the settings are those of `other`.
    pub open spec fn same_except_settings(&self, other: &AppData) -> bool {
        &&& opt_report_view(self.latest_report) == opt_report_view(other.latest_report)
        &&& self.report_history.deep_view() == other.report_history.deep_view()
        &&& self.clusters.deep_view() == other.clusters.deep_view()
        &&& self.config@ == other.config@
        &&& opt_kube_view(self.kube_config) == opt_kube_view(other.kube_config)
        &&& self.scan_errors@ == other.scan_errors@
    }
}

} // verus!
