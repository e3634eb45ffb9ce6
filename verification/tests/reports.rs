use securenetes::handlers::api::ApiStatus;
use securenetes::handlers::pages::{
    dashboard_page, finding_detail_page, latest_findings, reports_page, scans_page,
    setup_redirect_if_missing, SettingsForm,
};
use securenetes::models::{AuditReport, CheckResult, Evidence, Finding, ResourceReference, Severity};
use securenetes::reporting::{html, markdown};
use securenetes::services::app_state::AppData;
use securenetes::services::audit_runner::assemble_report;
use securenetes::services::kube_ui::KubeUiConfig;
use securenetes::config::AuditConfig;
use securenetes::templates::{fmt_date, severity_class, severity_label};
use securenetes::text::{i64_text, is_blank, u64_text};
use securenetes::time::Timestamp;

fn s(x: &str) -> String {
    x.to_string()
}

fn finding(id: &str, severity: Severity, resource: Option<ResourceReference>) -> Finding {
    Finding {
        id: s(id),
        title: s("Titel"),
        area: s("Bereich"),
        criterion: s("Kriterium"),
        description: s("Beschreibung"),
        resource,
        evidence: Evidence { summary: s("Evidenz"), details: vec![] },
        risk: s("Risiko"),
        recommendation: s("Empfehlung"),
        severity,
        heuristic: false,
    }
}

// 2026-04-14T09:00:00Z
const T0: i64 = 1_776_157_200_000_000_000;

fn sample_report() -> AuditReport {
    AuditReport {
        report_id: s("SNET-20260414090000"),
        profile: s("c5-baseline"),
        generated_at: Timestamp { unix_nanos: T0 },
        target: s("prod-cluster-eu-1"),
        results: vec![
            CheckResult {
                check_name: s("rbac"),
                findings: vec![finding(
                    "RBAC-1",
                    Severity::Critical,
                    Some(ResourceReference { kind: s("ClusterRole"), namespace: None, name: s("x") }),
                )],
            },
            CheckResult { check_name: s("etcd"), findings: vec![] },
            CheckResult {
                check_name: s("pod_security"),
                findings: vec![
                    finding(
                        "POD-1",
                        Severity::Low,
                        Some(ResourceReference { kind: s("Pod"), namespace: Some(s("production")), name: s("p") }),
                    ),
                    finding("POD-2", Severity::Info, None),
                ],
            },
        ],
    }
}

#[test]
fn time_texts() {
    let t = Timestamp { unix_nanos: T0 };
    assert_eq!(t.display(), "2026-04-14 09:00:00 UTC");
    assert_eq!(t.rfc3339(), "2026-04-14T09:00:00Z");
    assert_eq!(Timestamp { unix_nanos: T0 + 1_500_000 }.rfc3339(), "2026-04-14T09:00:00.001500Z");
    assert_eq!(t.compact_stamp(), "20260414090000");
    assert_eq!(t.minute_stamp(), "2026-04-14 09:00 UTC");
    assert_eq!(t.timestamp_millis(), 1_776_157_200_000);
    assert_eq!(Timestamp { unix_nanos: -1 }.timestamp_millis(), -1);
    assert_eq!(Timestamp { unix_nanos: -1_000_000 }.timestamp_millis(), -1);
    assert_eq!(Timestamp { unix_nanos: -1_000_001 }.timestamp_millis(), -2);
    assert_eq!(fmt_date(&None), "-");
    assert_eq!(fmt_date(&Some(t)), "2026-04-14 09:00 UTC");
}

#[test]
fn decimal_texts() {
    assert_eq!(u64_text(0), "0");
    assert_eq!(u64_text(1234567890), "1234567890");
    assert_eq!(u64_text(u64::MAX), u64::MAX.to_string());
    assert_eq!(i64_text(-42), "-42");
    assert_eq!(i64_text(i64::MIN), i64::MIN.to_string());
}

#[test]
fn severity_labels_and_classes() {
    for (sev, label, class) in [
        (Severity::Critical, "Critical", "critical"),
        (Severity::High, "High", "high"),
        (Severity::Medium, "Medium", "medium"),
        (Severity::Low, "Low", "low"),
        (Severity::Info, "Info", "info"),
    ] {
        assert_eq!(severity_label(&sev), label);
        assert_eq!(severity_class(&sev), class);
        assert_eq!(format!("{:?}", sev), label);
    }
}

#[test]
fn report_assembly() {
    let config = AuditConfig::default();
    let r = assemble_report(&config, vec![CheckResult::default()], Timestamp { unix_nanos: T0 }, Timestamp { unix_nanos: T0 + 5 });
    assert_eq!(r.report_id, "SNET-20260414090000");
    assert_eq!(r.profile, "c5-baseline");
    assert_eq!(r.target, "default-cluster");
    assert_eq!(r.generated_at, Timestamp { unix_nanos: T0 + 5 });
    assert_eq!(r.results.len(), 1);
}

#[test]
fn all_findings_flattens_in_order() {
    let r = sample_report();
    let ids: Vec<String> = r.all_findings().into_iter().map(|f| f.id).collect();
    assert_eq!(ids, vec![s("RBAC-1"), s("POD-1"), s("POD-2")]);
}

#[test]
fn markdown_report_text() {
    let md = markdown::render(&sample_report());
    let expected = "# Securenetes Audit Report (c5-baseline)\n\n\
- Report-ID: `SNET-20260414090000`\n\
- Zielcluster: `prod-cluster-eu-1`\n\
- Zeitpunkt: `2026-04-14T09:00:00Z`\n\n\
## Prüfbereich: rbac\n\n\
### RBAC-1 - Titel\n\
- **Schweregrad:** Critical\n\
- **Prüfkriterium:** Kriterium\n\
- **Feststellung:** Beschreibung\n\
- **Risiko:** Risiko\n\
- **Handlungsempfehlung:** Empfehlung\n\
- **Evidenz:** Evidenz\n\
- **Betroffene Ressource:** cluster/x (ClusterRole)\n\
\n\
## Prüfbereich: etcd\n\n\
Keine Feststellungen.\n\n\
## Prüfbereich: pod_security\n\n\
### POD-1 - Titel\n\
- **Schweregrad:** Low\n\
- **Prüfkriterium:** Kriterium\n\
- **Feststellung:** Beschreibung\n\
- **Risiko:** Risiko\n\
- **Handlungsempfehlung:** Empfehlung\n\
- **Evidenz:** Evidenz\n\
- **Betroffene Ressource:** production/p (Pod)\n\
\n\
### POD-2 - Titel\n\
- **Schweregrad:** Info\n\
- **Prüfkriterium:** Kriterium\n\
- **Feststellung:** Beschreibung\n\
- **Risiko:** Risiko\n\
- **Handlungsempfehlung:** Empfehlung\n\
- **Evidenz:** Evidenz\n\
\n";
    assert_eq!(md, expected);
}

#[test]
fn html_report_text() {
    let mut r = sample_report();
    r.results.truncate(2);
    let page = html::render(&r);
    let expected = "<html><head><meta charset=\"utf-8\"><title>Securenetes Report</title></head><body>\
<h1>Securenetes Audit Report (c5-baseline)</h1>\
<ul><li>Report-ID: SNET-20260414090000</li><li>Zielcluster: prod-cluster-eu-1</li>\
<li>Zeitpunkt: 2026-04-14 09:00:00 UTC</li></ul>\
<h2>Prüfbereich: rbac</h2>\
<div style='border:1px solid #ccc;padding:10px;margin:8px;'><h3>RBAC-1 - Titel</h3>\
<p><b>Schweregrad:</b> Critical</p><p><b>Feststellung:</b> Beschreibung</p>\
<p><b>Risiko:</b> Risiko</p><p><b>Empfehlung:</b> Empfehlung</p></div>\
<h2>Prüfbereich: etcd</h2></body></html>";
    assert_eq!(page, expected);
}

fn kube() -> KubeUiConfig {
    KubeUiConfig { cluster_url: s("https://k8s:6443"), token: s("SECRET-REDACTED"), ca_cert: Some(s("  \n")), namespace: Some(s("apps")) }
}

#[test]
fn kube_settings_blank_values_are_dropped() {
    let k = kube();
    assert_eq!(k.root_cert_pem(), None);
    assert_eq!(k.listing_namespace(), Some(s("apps")));
    let k2 = KubeUiConfig { ca_cert: Some(s("-----BEGIN CERTIFICATE-----")), namespace: Some(s("\t ")), ..kube() };
    assert_eq!(k2.root_cert_pem(), Some(s("-----BEGIN CERTIFICATE-----")));
    assert_eq!(k2.listing_namespace(), None);
    let k3 = KubeUiConfig { ca_cert: None, namespace: None, ..kube() };
    assert_eq!(k3.root_cert_pem(), None);
    assert_eq!(k3.listing_namespace(), None);
}

#[test]
fn app_state_scan_lifecycle() {
    let mut data = AppData::new(AuditConfig::default(), Some(sample_report()), Some(kube()));
    assert_eq!(data.report_history.len(), 1);
    assert_eq!(data.clusters.len(), 1);
    assert_eq!(data.clusters[0].name, "default-cluster");
    assert_eq!(data.clusters[0].status, "Healthy");
    assert_eq!(data.clusters[0].risk, "Unknown");
    assert_eq!(data.settings.report_title, "Securenetes Compliance Report");
    assert_eq!(data.settings.output_format, "html");

    let t1 = Timestamp { unix_nanos: T0 + 1_500_000 };
    let id = data.begin_scan(t1);
    assert_eq!(id, "scan-1776157200001");
    assert_eq!(data.scans.len(), 1);
    assert_eq!(data.scans[0].status, "running");
    assert_eq!(data.scans[0].progress, 10);
    assert_eq!(data.scans[0].message, "Scan initialized");

    let t2 = Timestamp { unix_nanos: T0 + 9_000_000_000 };
    data.complete_scan(&id, sample_report(), t2);
    assert_eq!(data.scans[0].status, "completed");
    assert_eq!(data.scans[0].progress, 100);
    assert_eq!(data.scans[0].finished_at, Some(t2));
    assert_eq!(data.scans[0].message, "Audit finished");
    assert_eq!(data.clusters[0].last_scan, Some(t2));
    assert_eq!(data.clusters[0].risk, "3 findings");
    assert_eq!(data.report_history.len(), 2);
    assert!(data.latest_report.is_some());

    let id2 = data.begin_scan(t2);
    data.fail_scan(&id2, "kaputt", t2);
    assert_eq!(data.scans[1].status, "failed");
    assert_eq!(data.scans[1].message, "Scan failed: kaputt");
    assert_eq!(data.report_history.len(), 2);

    let empty = AuditReport { results: vec![], ..sample_report() };
    let id3 = data.begin_scan(t2);
    data.complete_scan(&id3, empty, t2);
    assert_eq!(data.clusters[0].risk, "No findings");

    data.save_settings(SettingsForm { report_title: s("T"), output_format: s("md"), branding: s("B") });
    assert_eq!(data.settings.output_format, "md");
}

#[test]
fn pages_from_state() {
    assert_eq!(setup_redirect_if_missing(true), None);
    assert_eq!(setup_redirect_if_missing(false), Some("/setup"));
    let mut data = AppData::new(AuditConfig::default(), Some(sample_report()), None);
    for k in 0..8 {
        data.begin_scan(Timestamp { unix_nanos: T0 + k * 1_000_000 });
    }
    let page = dashboard_page(&data);
    assert_eq!(page.page_title, "Dashboard");
    let metrics: Vec<(&str, usize)> = page.metrics.iter().map(|m| (m.label, m.value)).collect();
    assert_eq!(metrics, vec![("Critical", 1), ("High", 0), ("Medium", 0), ("Low/Info", 2)]);
    assert_eq!(page.top_risks.len(), 3);
    assert_eq!(page.recent_scans.len(), 6);
    assert_eq!(page.recent_scans[0].id, data.scans[7].id);
    assert_eq!(page.recent_scans[5].id, data.scans[2].id);

    let scans = scans_page(&data);
    assert_eq!(scans.scans.len(), 8);
    assert_eq!(scans.scans[7].id, data.scans[0].id);

    assert_eq!(latest_findings(&data).len(), 3);
    let detail = finding_detail_page(&data, &s("POD-2")).unwrap();
    assert_eq!(detail.finding.id, "POD-2");
    assert!(finding_detail_page(&data, &s("missing")).is_none());

    let reports = reports_page(&data);
    assert_eq!(reports.reports.len(), 1);

    let status = ApiStatus::scan_started(s("scan-1"));
    assert!(status.ok);
    assert_eq!(status.message, "Scan started");
    assert_eq!(status.scan_id.as_deref(), Some("scan-1"));
}

#[test]
fn empty_state_pages() {
    let data = AppData::new(AuditConfig::default(), None, None);
    assert!(data.latest_report.is_none());
    assert!(data.report_history.is_empty());
    let page = dashboard_page(&data);
    assert!(page.top_risks.is_empty());
    assert!(page.metrics.iter().all(|m| m.value == 0));
    assert!(finding_detail_page(&data, &s("x")).is_none());
}

#[test]
fn blank_text_is_whitespace_only() {
    assert!(is_blank(""));
    assert!(is_blank(" \t\r\n\u{85}\u{a0}\u{3000}"));
    assert!(!is_blank("\u{200b}"));
    assert!(!is_blank("  x "));
    for u in 0u32..=0x3100 {
        if let Some(c) = char::from_u32(u) {
            assert_eq!(is_blank(&c.to_string()), c.is_whitespace(), "U+{u:04X}");
        }
    }
}
