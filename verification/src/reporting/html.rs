//! The HTML report.
use vstd::prelude::*;
use crate::models::{AuditReport, AuditReportView, CheckResult, CheckResultView, Finding, FindingView};
use crate::seqs::{concat_all, lemma_concat_all_take};
use crate::templates::{severity_label, severity_label_text};
use crate::text::append_all;
use crate::time::utc_display_text;

verus! {

/// The box of one finding: id and title, severity, description, risk and
/// recommendation.
pub open spec fn finding_box(f: FindingView) -> Seq<char> {
    "<div style='border:1px solid #ccc;padding:10px;margin:8px;'>"@
    + "<h3>"@ + f.id + " - "@ + f.title + "</h3>"@
    + "<p><b>Schweregrad:</b> "@ + severity_label_text(f.severity) + "</p>"@
    + "<p><b>Feststellung:</b> "@ + f.description + "</p>"@
    + "<p><b>Risiko:</b> "@ + f.risk + "</p>"@
    + "<p><b>Empfehlung:</b> "@ + f.recommendation + "</p>"@
    + "</div>"@
}

/// The section of one check: its heading and the boxes of its findings.
pub open spec fn result_html(res: CheckResultView) -> Seq<char> {
    "<h2>Prüfbereich: "@ + res.check_name + "</h2>"@ + concat_all(
        res.findings.map_values(|f: FindingView| finding_box(f)),
    )
}

/// The head of the page and the list of report data.
pub open spec fn html_header(r: AuditReportView, time: Seq<char>) -> Seq<char> {
    "<html><head><meta charset=\"utf-8\"><title>Securenetes Report</title></head><body>"@
    + "<h1>Securenetes Audit Report ("@ + r.profile + ")</h1>"@
    + "<ul>"@
    + "<li>Report-ID: "@ + r.report_id + "</li>"@
    + "<li>Zielcluster: "@ + r.target + "</li>"@
    + "<li>Zeitpunkt: "@ + time + "</li>"@
    + "</ul>"@
}

/// The whole HTML report, with `time` as the text of its time. Text of the
/// report is written as it is, without escaping.
pub open spec fn html_with_time(r: AuditReportView, time: Seq<char>) -> Seq<char> {
    html_header(r, time) + concat_all(r.results.map_values(|c: CheckResultView| result_html(c)))
        + "</body></html>"@
}

/// The whole HTML report, its time written by `chrono`.
pub open spec fn html_text(r: AuditReportView) -> Seq<char> {
    html_with_time(r, utc_display_text(r.generated_at.unix_nanos))
}

fn finding_html(out: &mut String, f: &Finding)
    ensures
        final(out)@ == old(out)@ + finding_box(f@),
{
    let label = severity_label(&f.severity);
    let parts: [&str; 17] = [
        "<div style='border:1px solid #ccc;padding:10px;margin:8px;'>",
        "<h3>",
        f.id.as_str(),
        " - ",
        f.title.as_str(),
        "</h3>",
        "<p><b>Schweregrad:</b> ",
        label,
        "</p>",
        "<p><b>Feststellung:</b> ",
        f.description.as_str(),
        "</p>",
        "<p><b>Risiko:</b> ",
        f.risk.as_str(),
        "</p>",
        "<p><b>Empfehlung:</b> ",
        f.recommendation.as_str(),
    ];
    let ghost start = out@;
    append_all(out, &parts);
    proof {
        reveal_with_fuel(concat_all, 18);
        let pv = parts@.map_values(|p: &str| p@);
        assert(pv =~= seq![
            "<div style='border:1px solid #ccc;padding:10px;margin:8px;'>"@,
            "<h3>"@, f@.id, " - "@, f@.title, "</h3>"@,
            "<p><b>Schweregrad:</b> "@, severity_label_text(f.severity), "</p>"@,
            "<p><b>Feststellung:</b> "@, f@.description, "</p>"@,
            "<p><b>Risiko:</b> "@, f@.risk, "</p>"@,
            "<p><b>Empfehlung:</b> "@, f@.recommendation,
        ]);
    }
    out.append("</p>");
    out.append("</div>");
    assert(out@ =~= start + finding_box(f@));
}

fn result_section_html(out: &mut String, res: &CheckResult)
    ensures
        final(out)@ == old(out)@ + result_html(res@),
{
    let ghost start = out@;
    out.append("<h2>Prüfbereich: ");
    out.append(res.check_name.as_str());
    out.append("</h2>");
    let ghost head = out@;
    let ghost pieces = res@.findings.map_values(|f: FindingView| finding_box(f));
    let mut i: usize = 0;
    while i < res.findings.len()
        invariant
            pieces == res@.findings.map_values(|f: FindingView| finding_box(f)),
            i <= res.findings@.len(),
            out@ == head + concat_all(pieces.take(i as int)),
        decreases res.findings@.len() - i,
    {
        proof {
            lemma_concat_all_take(pieces, i as int);
            assert(res@.findings[i as int] == res.findings@[i as int]@);
        }
        finding_html(out, &res.findings[i]);
        i = i + 1;
    }
    assert(pieces.take(i as int) =~= pieces);
    assert(out@ =~= start + result_html(res@));
}

/// The report as an HTML page.
pub fn render(report: &AuditReport) -> (r: String)
    ensures
        r@ == html_text(report@),
{
    let time = report.generated_at.display();
    render_with_time(report, time.as_str())
}

/// The report as an HTML page, with `time` as the text of its time.
pub fn render_with_time(report: &AuditReport, time: &str) -> (r: String)
    ensures
        r@ == html_with_time(report@, time@),
{
    let mut out = String::new();
    let parts: [&str; 15] = [
        "<html><head><meta charset=\"utf-8\"><title>Securenetes Report</title></head><body>",
        "<h1>Securenetes Audit Report (",
        report.profile.as_str(),
        ")</h1>",
        "<ul>",
        "<li>Report-ID: ",
        report.report_id.as_str(),
        "</li>",
        "<li>Zielcluster: ",
        report.target.as_str(),
        "</li>",
        "<li>Zeitpunkt: ",
        time,
        "</li>",
        "</ul>",
    ];
    append_all(&mut out, &parts);
    proof {
        reveal_with_fuel(concat_all, 16);
        let pv = parts@.map_values(|p: &str| p@);
        assert(pv =~= seq![
            "<html><head><meta charset=\"utf-8\"><title>Securenetes Report</title></head><body>"@,
            "<h1>Securenetes Audit Report ("@, report@.profile, ")</h1>"@,
            "<ul>"@,
            "<li>Report-ID: "@, report@.report_id, "</li>"@,
            "<li>Zielcluster: "@, report@.target, "</li>"@,
            "<li>Zeitpunkt: "@, time@, "</li>"@,
            "</ul>"@,
        ]);
    }
    let ghost head = out@;
    assert(head =~= html_header(report@, time@));
    let ghost pieces = report@.results.map_values(|c: CheckResultView| result_html(c));
    let mut i: usize = 0;
    while i < report.results.len()
        invariant
            pieces == report@.results.map_values(|c: CheckResultView| result_html(c)),
            i <= report.results@.len(),
            out@ == head + concat_all(pieces.take(i as int)),
        decreases report.results@.len() - i,
    {
        proof {
            lemma_concat_all_take(pieces, i as int);
            assert(report@.results[i as int] == report.results@[i as int]@);
        }
        result_section_html(&mut out, &report.results[i]);
        i = i + 1;
    }
    assert(pieces.take(i as int) =~= pieces);
    out.append("</body></html>");
    out
}

} // verus!
