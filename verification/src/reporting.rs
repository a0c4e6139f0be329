//! Exporting a run's results as CSV and as an HTML report.
use vstd::prelude::*;

use crate::models::{DiagnosticIssue, TestResult, TestRun};
use crate::text::{join, join_texts, chars_of, has_char, i64_text, int_text, owned, push_char, push_str, same_text, u64_text};

verus! {

// ───────────────────────────── escaping ─────────────────────────────

/// `s` with every `"` doubled.
pub open spec fn double_quotes(s: Seq<char>) -> Seq<char>
    decreases s.len(),
{
    if s.len() == 0 {
        seq![]
    } else if s.last() == '"' {
        double_quotes(s.drop_last()) + seq!['"', '"']
    } else {
        double_quotes(s.drop_last()).push(s.last())
    }
}

/// A CSV field holding `s`: quoted, with inner quotes doubled, when `s`
/// holds a comma, a quote or a line feed; `s` itself otherwise.
pub open spec fn csv_field(s: Seq<char>) -> Seq<char> {
    if s.contains(',') || s.contains('"') || s.contains('\n') {
        seq!['"'] + double_quotes(s) + seq!['"']
    } else {
        s
    }
}

/// The HTML text of one character: `&`, `<`, `>` and `"` as entities.
pub open spec fn html_char(c: char) -> Seq<char> {
    if c == '&' {
        "&amp;"@
    } else if c == '<' {
        "&lt;"@
    } else if c == '>' {
        "&gt;"@
    } else if c == '"' {
        "&quot;"@
    } else {
        seq![c]
    }
}

/// `s` with `&`, `<`, `>` and `"` replaced by their entities (the
/// replacements applied one after the other, `&` first, give the same text).
pub open spec fn html_escaped(s: Seq<char>) -> Seq<char>
    decreases s.len(),
{
    if s.len() == 0 {
        seq![]
    } else {
        html_escaped(s.drop_last()) + html_char(s.last())
    }
}

/// A CSV field holding `s`.
pub fn csv_escape(s: &str) -> (r: String)
    ensures
        r@ == csv_field(s@),
{
    if has_char(s, ',') || has_char(s, '"') || has_char(s, '\n') {
        let v = chars_of(s);
        let mut r = String::new();
        push_char(&mut r, '"');
        let mut i: usize = 0;
        assert(v@.take(0) =~= Seq::<char>::empty());
        while i < v.len()
            invariant
                v@ == s@,
                i <= v@.len(),
                r@ == seq!['"'] + double_quotes(v@.take(i as int)),
            decreases v@.len() - i,
        {
            assert(v@.take(i + 1).drop_last() =~= v@.take(i as int));
            if v[i] == '"' {
                push_char(&mut r, '"');
                push_char(&mut r, '"');
                assert(r@ =~= seq!['"'] + double_quotes(v@.take(i + 1)));
            } else {
                push_char(&mut r, v[i]);
                assert(r@ =~= seq!['"'] + double_quotes(v@.take(i + 1)));
            }
            i = i + 1;
        }
        assert(v@.take(v@.len() as int) =~= v@);
        push_char(&mut r, '"');
        assert(r@ =~= csv_field(s@));
        r
    } else {
        owned(s)
    }
}

/// `s` with `&`, `<`, `>` and `"` replaced by their HTML entities.
pub fn html_escape(s: &str) -> (r: String)
    ensures
        r@ == html_escaped(s@),
{
    let v = chars_of(s);
    let mut r = String::new();
    let mut i: usize = 0;
    assert(v@.take(0) =~= Seq::<char>::empty());
    while i < v.len()
        invariant
            v@ == s@,
            i <= v@.len(),
            r@ == html_escaped(v@.take(i as int)),
        decreases v@.len() - i,
    {
        assert(v@.take(i + 1).drop_last() =~= v@.take(i as int));
        let c = v[i];
        if c == '&' {
            push_str(&mut r, "&amp;");
        } else if c == '<' {
            push_str(&mut r, "&lt;");
        } else if c == '>' {
            push_str(&mut r, "&gt;");
        } else if c == '"' {
            push_str(&mut r, "&quot;");
        } else {
            push_char(&mut r, c);
            assert(r@ =~= html_escaped(v@.take(i as int)) + seq![c]);
        }
        i = i + 1;
    }
    assert(v@.take(v@.len() as int) =~= v@);
    r
}

// ───────────────────────────── CSV ─────────────────────────────

/// The header line of a CSV export.
pub const CSV_HEADER: &'static str = "run_uuid,subject_template,subject_token,account_id,provider,placement,raw_folder,matched_at,delivery_latency_ms,spf_result,dkim_result,dmarc_result\n";

/// An optional text, or `default` when absent.
pub open spec fn text_or(o: Option<String>, default: Seq<char>) -> Seq<char> {
    match o {
        Some(s) => s@,
        None => default,
    }
}

/// The fields of the CSV line of one result of a run.
pub open spec fn csv_fields(run: TestRun, r: TestResult) -> Seq<Seq<char>> {
    seq![
        run.run_uuid@,
        csv_field(run.subject_template@),
        run.subject_token@,
        int_text(r.connected_account_id as int),
        r.provider@,
        r.placement@,
        text_or(r.raw_folder, ""@),
        text_or(r.matched_at, ""@),
        match r.delivery_latency_ms {
            Some(ms) => int_text(ms as int),
            None => ""@,
        },
        text_or(r.spf_result, ""@),
        text_or(r.dkim_result, ""@),
        text_or(r.dmarc_result, ""@),
    ]
}

/// The CSV line of one result of a run: its fields separated by commas.
pub open spec fn csv_line(run: TestRun, r: TestResult) -> Seq<char> {
    join(csv_fields(run, r), ","@) + "\n"@
}

/// The CSV lines of results, in order.
pub open spec fn csv_lines(run: TestRun, rs: Seq<TestResult>) -> Seq<char>
    decreases rs.len(),
{
    if rs.len() == 0 {
        seq![]
    } else {
        csv_lines(run, rs.drop_last()) + csv_line(run, rs.last())
    }
}

/// An optional text, or `default` when absent.
fn opt_or(o: &Option<String>, default: &str) -> (r: String)
    ensures
        r@ == text_or(*o, default@),
{
    match o {
        Some(s) => s.clone(),
        None => owned(default),
    }
}

/// Appends the CSV line of one result.
fn push_csv_line(out: &mut String, run: &TestRun, r: &TestResult)
    ensures
        final(out)@ == old(out)@ + csv_line(*run, *r),
{
    let mut fields: Vec<String> = Vec::new();
    fields.push(run.run_uuid.clone());
    fields.push(csv_escape(run.subject_template.as_str()));
    fields.push(run.subject_token.clone());
    fields.push(i64_text(r.connected_account_id));
    fields.push(r.provider.clone());
    fields.push(r.placement.clone());
    fields.push(opt_or(&r.raw_folder, ""));
    fields.push(opt_or(&r.matched_at, ""));
    match r.delivery_latency_ms {
        Some(ms) => fields.push(i64_text(ms)),
        None => fields.push(owned("")),
    }
    fields.push(opt_or(&r.spf_result, ""));
    fields.push(opt_or(&r.dkim_result, ""));
    fields.push(opt_or(&r.dmarc_result, ""));
    assert(fields@.map_values(|p: String| p@) =~= csv_fields(*run, *r));
    let line = join_texts(&fields, ",");
    push_str(out, line.as_str());
    push_str(out, "\n");
}

/// A run's results as CSV: a header line, then one line per result.
pub fn export_csv(run: &TestRun, results: &[TestResult]) -> (out: String)
    ensures
        out@ == CSV_HEADER@ + csv_lines(*run, results@),
{
    let mut out = owned(CSV_HEADER);
    let mut i: usize = 0;
    assert(results@.take(0) =~= Seq::<TestResult>::empty());
    while i < results.len()
        invariant
            i <= results@.len(),
            out@ == CSV_HEADER@ + csv_lines(*run, results@.take(i as int)),
        decreases results@.len() - i,
    {
        assert(results@.take(i + 1).drop_last() =~= results@.take(i as int));
        push_csv_line(&mut out, run, &results[i]);
        assert(out@ =~= CSV_HEADER@ + csv_lines(*run, results@.take(i + 1)));
        i = i + 1;
    }
    assert(results@.take(results@.len() as int) =~= results@);
    out
}

// ───────────────────────────── HTML report ─────────────────────────────

/// The report up to the subject in its title.
pub const HTML_HEAD: &'static str = "<!DOCTYPE html>\n<html lang=\"en\">\n<head><meta charset=\"UTF-8\"><title>MailScope Report: ";

/// From the title's end to the subject in the page.
pub const HTML_STYLE: &'static str = "</title>\n<style>\n  body { font-family: system-ui, sans-serif; max-width: 900px; margin: 40px auto; color: #1a1a1a; }\n  h1 { font-size: 1.4rem; } h2 { font-size: 1rem; color: #555; margin-top: 2rem; }\n  .summary { display: flex; gap: 24px; margin: 1rem 0; }\n  .stat { background: #f5f5f5; border-radius: 8px; padding: 16px 24px; text-align: center; }\n  .stat .value { font-size: 2rem; font-weight: 700; }\n  .stat .label { font-size: 0.8rem; color: #777; }\n  table { width: 100%; border-collapse: collapse; font-size: 0.85rem; }\n  th { background: #f0f0f0; padding: 8px 12px; text-align: left; }\n  td { padding: 8px 12px; border-bottom: 1px solid #eee; }\n</style>\n</head>\n<body>\n<h1>MailScope Inbox Placement Report</h1>\n<p><strong>Subject:</strong> ";

/// From the subject to the run token.
pub const HTML_TOKEN: &'static str = "</p>\n<p><strong>Token:</strong> <code>";

/// From the run token to the run id.
pub const HTML_RUN_ID: &'static str = "</code> &nbsp;|&nbsp; <strong>Run ID:</strong> ";

/// From the run id to the inbox percentage.
pub const HTML_RATE: &'static str = "</p>\n\n<div class=\"summary\">\n  <div class=\"stat\"><div class=\"value\" style=\"color:#2ecc71\">";

/// From the inbox percentage to the inbox count.
pub const HTML_INBOX: &'static str = "%</div><div class=\"label\">Inbox Rate</div></div>\n  <div class=\"stat\"><div class=\"value\">";

/// From the inbox count to the spam count.
pub const HTML_SPAM: &'static str = "</div><div class=\"label\">Inbox</div></div>\n  <div class=\"stat\"><div class=\"value\" style=\"color:#e74c3c\">";

/// From the spam count to the junk count.
pub const HTML_JUNK: &'static str = "</div><div class=\"label\">Spam</div></div>\n  <div class=\"stat\"><div class=\"value\" style=\"color:#e67e22\">";

/// From the junk count to the missing count.
pub const HTML_MISSING: &'static str = "</div><div class=\"label\">Junk</div></div>\n  <div class=\"stat\"><div class=\"value\" style=\"color:#999\">";

/// From the missing count to the result rows.
pub const HTML_ROWS: &'static str = "</div><div class=\"label\">Missing</div></div>\n</div>\n\n<h2>Per-Seed Results</h2>\n<table>\n  <tr><th>Account</th><th>Provider</th><th>Placement</th><th>SPF</th><th>DKIM</th></tr>\n  ";

/// From the result rows to the diagnostics section.
pub const HTML_DIAGNOSTICS: &'static str = "\n</table>\n\n<h2>Diagnostic Issues</h2>\n";

/// After the diagnostics section.
pub const HTML_END: &'static str = "\n</body>\n</html>";

/// How many results have the placement `name`.
pub open spec fn count_placed(rs: Seq<TestResult>, name: Seq<char>) -> nat
    decreases rs.len(),
{
    if rs.len() == 0 {
        0
    } else {
        count_placed(rs.drop_last(), name) + if rs.last().placement@ == name {
            1nat
        } else {
            0nat
        }
    }
}

/// No more results have a placement than there are.
pub proof fn lemma_count_placed_bound(rs: Seq<TestResult>, name: Seq<char>)
    ensures
        count_placed(rs, name) <= rs.len(),
    decreases rs.len(),
{
    if rs.len() > 0 {
        lemma_count_placed_bound(rs.drop_last(), name);
    }
}

/// Results with two different placements are counted apart.
pub proof fn lemma_count_placed_disjoint(rs: Seq<TestResult>, a: Seq<char>, b: Seq<char>)
    requires
        a != b,
    ensures
        count_placed(rs, a) + count_placed(rs, b) <= rs.len(),
    decreases rs.len(),
{
    if rs.len() > 0 {
        lemma_count_placed_disjoint(rs.drop_last(), a, b);
    }
}

/// The share of results in the inbox, in whole percent rounded down; zero
/// without results.
pub open spec fn inbox_percent(rs: Seq<TestResult>) -> nat {
    if rs.len() > 0 {
        count_placed(rs, "inbox"@) * 100 / rs.len()
    } else {
        0
    }
}

/// The table cells of one result.
pub open spec fn result_cells(r: TestResult) -> Seq<Seq<char>> {
    seq![
        int_text(r.connected_account_id as int),
        r.provider@,
        r.placement@,
        text_or(r.spf_result, "-"@),
        text_or(r.dkim_result, "-"@),
    ]
}

/// The table cells of one diagnostic issue.
pub open spec fn issue_cells(d: DiagnosticIssue) -> Seq<Seq<char>> {
    seq![d.severity@, d.check_type@, d.title@, d.recommendation@]
}

/// A table row of the given cells.
pub open spec fn table_row(cells: Seq<Seq<char>>) -> Seq<char> {
    "<tr><td>"@ + join(cells, "</td><td>"@) + "</td></tr>\n"@
}

/// The table rows of results, in order.
pub open spec fn result_rows(rs: Seq<TestResult>) -> Seq<char>
    decreases rs.len(),
{
    if rs.len() == 0 {
        seq![]
    } else {
        result_rows(rs.drop_last()) + table_row(result_cells(rs.last()))
    }
}

/// The table rows of diagnostic issues, in order.
pub open spec fn issue_rows(ds: Seq<DiagnosticIssue>) -> Seq<char>
    decreases ds.len(),
{
    if ds.len() == 0 {
        seq![]
    } else {
        issue_rows(ds.drop_last()) + table_row(issue_cells(ds.last()))
    }
}

/// The diagnostics section: a table of the issues, or a note that there
/// are none.
pub open spec fn diagnostics_section(ds: Seq<DiagnosticIssue>) -> Seq<char> {
    if ds.len() == 0 {
        "<p>No issues detected.</p>"@
    } else {
        "<table><tr><th>Severity</th><th>Type</th><th>Title</th><th>Fix</th></tr>"@ + issue_rows(ds)
            + "</table>"@
    }
}

/// The pieces of the HTML report, in order.
pub open spec fn report_parts(run: TestRun, rs: Seq<TestResult>, ds: Seq<DiagnosticIssue>) -> Seq<
    Seq<char>,
> {
    seq![
        HTML_HEAD@,
        html_escaped(run.subject_template@),
        HTML_STYLE@,
        html_escaped(run.subject_template@),
        HTML_TOKEN@,
        run.subject_token@,
        HTML_RUN_ID@,
        run.run_uuid@,
        HTML_RATE@,
        int_text(inbox_percent(rs) as int),
        HTML_INBOX@,
        int_text(count_placed(rs, "inbox"@) as int),
        HTML_SPAM@,
        int_text(count_placed(rs, "spam"@) as int),
        HTML_JUNK@,
        int_text(count_placed(rs, "junk"@) as int),
        HTML_MISSING@,
        int_text(count_placed(rs, "missing"@) as int),
        HTML_ROWS@,
        result_rows(rs),
        HTML_DIAGNOSTICS@,
        diagnostics_section(ds),
        HTML_END@,
    ]
}

/// The HTML report of a run.
pub open spec fn html_report(run: TestRun, rs: Seq<TestResult>, ds: Seq<DiagnosticIssue>) -> Seq<
    char,
> {
    join(report_parts(run, rs, ds), ""@)
}

/// How many results have the placement `name`.
pub fn count_placement(results: &[TestResult], name: &str) -> (n: u64)
    ensures
        n == count_placed(results@, name@),
{
    let mut n: u64 = 0;
    let mut i: usize = 0;
    assert(results@.take(0) =~= Seq::<TestResult>::empty());
    while i < results.len()
        invariant
            i <= results@.len(),
            n == count_placed(results@.take(i as int), name@),
        decreases results@.len() - i,
    {
        proof {
            lemma_count_placed_bound(results@.take(i as int), name@);
        }
        assert(results@.take(i + 1).drop_last() =~= results@.take(i as int));
        if same_text(results[i].placement.as_str(), name) {
            n = n + 1;
        }
        i = i + 1;
    }
    assert(results@.take(results@.len() as int) =~= results@);
    n
}

/// A table row of the given cells.
fn row_of(cells: &Vec<String>) -> (r: String)
    ensures
        r@ == table_row(cells@.map_values(|c: String| c@)),
{
    let mut r = owned("<tr><td>");
    let inner = join_texts(cells, "</td><td>");
    push_str(&mut r, inner.as_str());
    push_str(&mut r, "</td></tr>\n");
    r
}

/// The table rows of results.
fn result_table_rows(results: &[TestResult]) -> (out: String)
    ensures
        out@ == result_rows(results@),
{
    let mut out = String::new();
    let mut i: usize = 0;
    assert(results@.take(0) =~= Seq::<TestResult>::empty());
    while i < results.len()
        invariant
            i <= results@.len(),
            out@ == result_rows(results@.take(i as int)),
        decreases results@.len() - i,
    {
        assert(results@.take(i + 1).drop_last() =~= results@.take(i as int));
        let r = &results[i];
        let mut cells: Vec<String> = Vec::new();
        cells.push(i64_text(r.connected_account_id));
        cells.push(r.provider.clone());
        cells.push(r.placement.clone());
        cells.push(opt_or(&r.spf_result, "-"));
        cells.push(opt_or(&r.dkim_result, "-"));
        assert(cells@.map_values(|c: String| c@) =~= result_cells(*r));
        let row = row_of(&cells);
        push_str(&mut out, row.as_str());
        i = i + 1;
    }
    assert(results@.take(results@.len() as int) =~= results@);
    out
}

/// The table rows of diagnostic issues.
fn issue_table_rows(diagnostics: &[DiagnosticIssue]) -> (out: String)
    ensures
        out@ == issue_rows(diagnostics@),
{
    let mut out = String::new();
    let mut i: usize = 0;
    assert(diagnostics@.take(0) =~= Seq::<DiagnosticIssue>::empty());
    while i < diagnostics.len()
        invariant
            i <= diagnostics@.len(),
            out@ == issue_rows(diagnostics@.take(i as int)),
        decreases diagnostics@.len() - i,
    {
        assert(diagnostics@.take(i + 1).drop_last() =~= diagnostics@.take(i as int));
        let d = &diagnostics[i];
        let mut cells: Vec<String> = Vec::new();
        cells.push(d.severity.clone());
        cells.push(d.check_type.clone());
        cells.push(d.title.clone());
        cells.push(d.recommendation.clone());
        assert(cells@.map_values(|c: String| c@) =~= issue_cells(*d));
        let row = row_of(&cells);
        push_str(&mut out, row.as_str());
        i = i + 1;
    }
    assert(diagnostics@.take(diagnostics@.len() as int) =~= diagnostics@);
    out
}

/// The HTML report of a run: its subject and token, the placement counts
/// and inbox percentage, a row per result and a section of diagnostics.
pub fn export_html_report(
    run: &TestRun,
    results: &[TestResult],
    diagnostics: &[DiagnosticIssue],
) -> (out: String)
    ensures
        out@ == html_report(*run, results@, diagnostics@),
{
    let inbox = count_placement(results, "inbox");
    let spam = count_placement(results, "spam");
    let junk = count_placement(results, "junk");
    let missing = count_placement(results, "missing");
    let total = results.len();
    proof {
        lemma_count_placed_bound(results@, "inbox"@);
    }
    let inbox_pct: u64 = if total > 0 {
        let prod: u128 = (inbox as u128) * 100;
        let q: u128 = prod / (total as u128);
        assert(q <= 100 && q == count_placed(results@, "inbox"@) * 100 / results@.len()) by (nonlinear_arith)
            requires
                prod == inbox * 100,
                q == (prod as int) / (total as int),
                inbox == count_placed(results@, "inbox"@),
                total == results@.len(),
                inbox <= total,
                total > 0,
        ;
        q as u64
    } else {
        0
    };
    let subject = html_escape(run.subject_template.as_str());
    let diag_section = if diagnostics.len() == 0 {
        owned("<p>No issues detected.</p>")
    } else {
        let mut d = owned("<table><tr><th>Severity</th><th>Type</th><th>Title</th><th>Fix</th></tr>");
        let rows = issue_table_rows(diagnostics);
        push_str(&mut d, rows.as_str());
        push_str(&mut d, "</table>");
        d
    };
    assert(diag_section@ == diagnostics_section(diagnostics@));
    let mut parts: Vec<String> = Vec::new();
    parts.push(owned(HTML_HEAD));
    parts.push(subject.clone());
    parts.push(owned(HTML_STYLE));
    parts.push(subject);
    parts.push(owned(HTML_TOKEN));
    parts.push(run.subject_token.clone());
    parts.push(owned(HTML_RUN_ID));
    parts.push(run.run_uuid.clone());
    parts.push(owned(HTML_RATE));
    parts.push(u64_text(inbox_pct));
    parts.push(owned(HTML_INBOX));
    parts.push(u64_text(inbox));
    parts.push(owned(HTML_SPAM));
    parts.push(u64_text(spam));
    parts.push(owned(HTML_JUNK));
    parts.push(u64_text(junk));
    parts.push(owned(HTML_MISSING));
    parts.push(u64_text(missing));
    parts.push(owned(HTML_ROWS));
    parts.push(result_table_rows(results));
    parts.push(owned(HTML_DIAGNOSTICS));
    parts.push(diag_section);
    parts.push(owned(HTML_END));
    assert(parts@.map_values(|p: String| p@) =~= report_parts(*run, results@, diagnostics@));
    join_texts(&parts, "")
}

} // verus!
