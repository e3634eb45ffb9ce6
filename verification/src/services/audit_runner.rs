//! The assembly of an audit report from the results of the checks.
use vstd::prelude::*;
use crate::config::AuditConfig;
use crate::models::{AuditReport, AuditReportView, CheckResult};
use crate::text::join2;
use crate::time::{Timestamp, report_id_pattern, utc_format_text};

verus! {

/// The identifier of a report whose identifier was stamped at `t`:
/// `SNET-<%Y%m%d%H%M%S>`.
pub open spec fn report_id_text(t: Timestamp) -> Seq<char> {
    "SNET-"@ + utc_format_text(t.unix_nanos, report_id_pattern())
}

/// The report of a run of the checks, its identifier `SNET-<stamp>`.
pub fn assemble_report_stamped(
    config: &AuditConfig,
    results: Vec<CheckResult>,
    stamp: &str,
    generated_at: Timestamp,
) -> (r: AuditReport)
    ensures
        r@ == (AuditReportView {
            report_id: "SNET-"@ + stamp@,
            profile: config@.profile_name,
            generated_at: generated_at,
            target: config@.cluster_name,
            results: results.deep_view(),
        }),
{
    AuditReport {
        report_id: join2("SNET-", stamp),
        profile: config.profile_name.clone(),
        generated_at,
        target: config.cluster_name.clone(),
        results,
    }
}

/// The report of a run of the checks: its identifier stamped at `id_time`,
/// the configured profile and cluster, generated at `generated_at`, with the
/// results in the order of the checks.
pub fn assemble_report(
    config: &AuditConfig,
    results: Vec<CheckResult>,
    id_time: Timestamp,
    generated_at: Timestamp,
) -> (r: AuditReport)
    ensures
        r@ == (AuditReportView {
            report_id: report_id_text(id_time),
            profile: config@.profile_name,
            generated_at: generated_at,
            target: config@.cluster_name,
            results: results.deep_view(),
        }),
{
    let stamp = id_time.compact_stamp();
    assemble_report_stamped(config, results, stamp.as_str(), generated_at)
}

} // verus!
