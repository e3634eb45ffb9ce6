//! The Markdown report.
use vstd::prelude::*;
use crate::models::{AuditReport, AuditReportView, CheckResult, CheckResultView, Finding, FindingView, ResourceReferenceView};
use crate::seqs::{concat_all, lemma_concat_all_take};
use crate::templates::{severity_label, severity_label_text};
use crate::text::append_all;
use crate::time::utc_rfc3339_text;

verus! {

/// The line naming the affected resource: `namespace/name (kind)`, with
/// `cluster` for resources outside namespaces.
pub open spec fn resource_line(r: Option<ResourceReferenceView>) -> Seq<char> {
    match r {
        Some(x) => "- **Betroffene Ressource:** "@ + match x.namespace {
            Some(ns) => ns,
            None => "cluster"@,
        } + "/"@ + x.name + " ("@ + x.kind + ")\n"@,
        None => Seq::empty(),
    }
}

/// The block of one finding.
pub open spec fn finding_block(f: FindingView) -> Seq<char> {
    "### "@ + f.id + " - "@ + f.title + "\n"@
    + "- **Schweregrad:** "@ + severity_label_text(f.severity) + "\n"@
    + "- **Prüfkriterium:** "@ + f.criterion + "\n"@
    + "- **Feststellung:** "@ + f.description + "\n"@
    + "- **Risiko:** "@ + f.risk + "\n"@
    + "- **Handlungsempfehlung:** "@ + f.recommendation + "\n"@
    + "- **Evidenz:** "@ + f.evidence.summary + "\n"@
    + resource_line(f.resource) + "\n"@
}

/// The section of one check: its heading, then its findings, or a note that
/// there are none.
pub open spec fn result_section(res: CheckResultView) -> Seq<char> {
    "## Prüfbereich: "@ + res.check_name + "\n\n"@ + if res.findings.len() == 0 {
        "Keine Feststellungen.\n\n"@
    } else {
        concat_all(res.findings.map_values(|f: FindingView| finding_block(f)))
    }
}

/// The heading of the report: profile, identifier, target cluster and time.
pub open spec fn report_header(r: AuditReportView, time: Seq<char>) -> Seq<char> {
    "# Securenetes Audit Report ("@ + r.profile + ")\n\n"@
    + "- Report-ID: `"@ + r.report_id + "`\n"@
    + "- Zielcluster: `"@ + r.target + "`\n"@
    + "- Zeitpunkt: `"@ + time + "`\n\n"@
}

/// The whole Markdown report, with `time` as the text of its time.
pub open spec fn markdown_with_time(r: AuditReportView, time: Seq<char>) -> Seq<char> {
    report_header(r, time) + concat_all(r.results.map_values(|c: CheckResultView| result_section(c)))
}

/// The whole Markdown report, its time written by `chrono` in RFC 3339.
pub open spec fn markdown_text(r: AuditReportView) -> Seq<char> {
    markdown_with_time(r, utc_rfc3339_text(r.generated_at.unix_nanos))
}

fn finding_markdown(out: &mut String, f: &Finding)
    ensures
        final(out)@ == old(out)@ + finding_block(f@),
{
    let ghost start = out@;
    let label = severity_label(&f.severity);
    let parts: [&str; 23] = [
        "### ",
        f.id.as_str(),
        " - ",
        f.title.as_str(),
        "\n",
        "- **Schweregrad:** ",
        label,
        "\n",
        "- **Prüfkriterium:** ",
        f.criterion.as_str(),
        "\n",
        "- **Feststellung:** ",
        f.description.as_str(),
        "\n",
        "- **Risiko:** ",
        f.risk.as_str(),
        "\n",
        "- **Handlungsempfehlung:** ",
        f.recommendation.as_str(),
        "\n",
        "- **Evidenz:** ",
        f.evidence.summary.as_str(),
        "\n",
    ];
    append_all(out, &parts);
    proof {
        let pv = parts@.map_values(|p: &str| p@);
        reveal_with_fuel(concat_all, 24);
        assert(pv =~= seq![
            "### "@, f@.id, " - "@, f@.title, "\n"@,
            "- **Schweregrad:** "@, severity_label_text(f.severity), "\n"@,
            "- **Prüfkriterium:** "@, f@.criterion, "\n"@,
            "- **Feststellung:** "@, f@.description, "\n"@,
            "- **Risiko:** "@, f@.risk, "\n"@,
            "- **Handlungsempfehlung:** "@, f@.recommendation, "\n"@,
            "- **Evidenz:** "@, f@.evidence.summary, "\n"@,
        ]);
    }
    let ghost mid = out@;
    assert(mid =~= start + ("### "@ + f@.id + " - "@ + f@.title + "\n"@
        + "- **Schweregrad:** "@ + severity_label_text(f.severity) + "\n"@
        + "- **Prüfkriterium:** "@ + f@.criterion + "\n"@
        + "- **Feststellung:** "@ + f@.description + "\n"@
        + "- **Risiko:** "@ + f@.risk + "\n"@
        + "- **Handlungsempfehlung:** "@ + f@.recommendation + "\n"@
        + "- **Evidenz:** "@ + f@.evidence.summary + "\n"@));
    match &f.resource {
        Some(r) => {
            let ns: &str = match &r.namespace {
                Some(n) => n.as_str(),
                None => "cluster",
            };
            let rparts: [&str; 7] = [
                "- **Betroffene Ressource:** ",
                ns,
                "/",
                r.name.as_str(),
                " (",
                r.kind.as_str(),
                ")\n",
            ];
            append_all(out, &rparts);
            proof {
                reveal_with_fuel(concat_all, 8);
                let rv = rparts@.map_values(|p: &str| p@);
                assert(rv =~= seq![
                    "- **Betroffene Ressource:** "@, ns@, "/"@, r.name@, " ("@, r.kind@, ")\n"@,
                ]);
            }
            assert(out@ =~= mid + resource_line(f@.resource));
        },
        None => {
            assert(out@ =~= mid + resource_line(f@.resource));
        },
    }
    let ghost before_nl = out@;
    out.append("\n");
    assert(out@ =~= start + finding_block(f@));
}

fn result_markdown(out: &mut String, res: &CheckResult)
    ensures
        final(out)@ == old(out)@ + result_section(res@),
{
    let ghost start = out@;
    out.append("## Prüfbereich: ");
    out.append(res.check_name.as_str());
    out.append("\n\n");
    let ghost head = out@;
    assert(head =~= start + ("## Prüfbereich: "@ + res@.check_name + "\n\n"@));
    if res.findings.len() == 0 {
        out.append("Keine Feststellungen.\n\n");
        assert(out@ =~= start + result_section(res@));
        return;
    }
    let ghost pieces = res@.findings.map_values(|f: FindingView| finding_block(f));
    let mut i: usize = 0;
    while i < res.findings.len()
        invariant
            pieces == res@.findings.map_values(|f: FindingView| finding_block(f)),
            i <= res.findings@.len(),
            out@ == head + concat_all(pieces.take(i as int)),
        decreases res.findings@.len() - i,
    {
        proof {
            lemma_concat_all_take(pieces, i as int);
            assert(res@.findings[i as int] == res.findings@[i as int]@);
        }
        finding_markdown(out, &res.findings[i]);
        i = i + 1;
    }
    assert(pieces.take(i as int) =~= pieces);
    assert(out@ =~= start + result_section(res@));
}

/// The report in Markdown.
pub fn render(report: &AuditReport) -> (r: String)
    ensures
        r@ == markdown_text(report@),
{
    let time = report.generated_at.rfc3339();
    render_with_time(report, time.as_str())
}

/// The report in Markdown, with `time` as the text of its time.
pub fn render_with_time(report: &AuditReport, time: &str) -> (r: String)
    ensures
        r@ == markdown_with_time(report@, time@),
{
    let mut out = String::new();
    let parts: [&str; 12] = [
        "# Securenetes Audit Report (",
        report.profile.as_str(),
        ")\n\n",
        "- Report-ID: `",
        report.report_id.as_str(),
        "`\n",
        "- Zielcluster: `",
        report.target.as_str(),
        "`\n",
        "- Zeitpunkt: `",
        time,
        "`\n\n",
    ];
    append_all(&mut out, &parts);
    proof {
        reveal_with_fuel(concat_all, 13);
        let pv = parts@.map_values(|p: &str| p@);
        assert(pv =~= seq![
            "# Securenetes Audit Report ("@, report@.profile, ")\n\n"@,
            "- Report-ID: `"@, report@.report_id, "`\n"@,
            "- Zielcluster: `"@, report@.target, "`\n"@,
            "- Zeitpunkt: `"@, time@, "`\n\n"@,
        ]);
    }
    let ghost head = out@;
    assert(head =~= report_header(report@, time@));
    let ghost pieces = report@.results.map_values(|c: CheckResultView| result_section(c));
    let mut i: usize = 0;
    while i < report.results.len()
        invariant
            pieces == report@.results.map_values(|c: CheckResultView| result_section(c)),
            i <= report.results@.len(),
            out@ == head + concat_all(pieces.take(i as int)),
        decreases report.results@.len() - i,
    {
        proof {
            lemma_concat_all_take(pieces, i as int);
            assert(report@.results[i as int] == report.results@[i as int]@);
        }
        result_markdown(&mut out, &report.results[i]);
        i = i + 1;
    }
    assert(pieces.take(i as int) =~= pieces);
    out
}

} // verus!
