use mailscope::models::{DiagnosticIssue, TestResult, TestRun};
use mailscope::reporting::{csv_escape, export_csv, export_html_report, html_escape};

fn run(subject: &str) -> TestRun {
    TestRun {
        id: 1,
        run_uuid: "r-1".into(),
        sending_profile_id: 2,
        seed_group_id: 3,
        status: "complete".into(),
        subject_template: subject.into(),
        body_text: "b".into(),
        body_html: None,
        subject_token: "MS-20240101-ABCD".into(),
        body_token: "MS-20240101-EF01".into(),
        started_at: None,
        completed_at: None,
        inbox_rate_bits: None,
        spam_rate_bits: None,
        missing_rate_bits: None,
    }
}

fn result(account: i64, provider: &str, placement: &str) -> TestResult {
    TestResult {
        id: 0,
        test_run_id: 1,
        connected_account_id: account,
        provider: provider.into(),
        placement: placement.into(),
        raw_folder: None,
        message_id_remote: None,
        matched_at: None,
        delivery_latency_ms: None,
        spf_result: None,
        dkim_result: None,
        dmarc_result: None,
        auth_summary: None,
        headers_json: None,
        notes_json: None,
        account: None,
    }
}

#[test]
fn csv_escape_quotes_when_needed() {
    assert_eq!(csv_escape("plain"), "plain");
    assert_eq!(csv_escape("a,b"), "\"a,b\"");
    assert_eq!(csv_escape("say \"hi\""), "\"say \"\"hi\"\"\"");
    assert_eq!(csv_escape("two\nlines"), "\"two\nlines\"");
    assert_eq!(csv_escape(""), "");
}

#[test]
fn html_escape_entities() {
    assert_eq!(html_escape("a & b <c> \"d\""), "a &amp; b &lt;c&gt; &quot;d&quot;");
    assert_eq!(html_escape("&lt;"), "&amp;lt;");
    assert_eq!(html_escape("plain"), "plain");
}

#[test]
fn csv_export_lines() {
    let mut a = result(7, "gmail", "inbox");
    a.raw_folder = Some("INBOX".into());
    a.delivery_latency_ms = Some(-5);
    a.spf_result = Some("pass".into());
    a.dkim_result = Some("pass".into());
    a.dmarc_result = Some("fail".into());
    a.matched_at = Some("2024-01-01 10:00:00".into());
    let b = result(-3, "imap", "missing");
    let out = export_csv(&run("Hi, there"), &[a, b]);
    assert_eq!(
        out,
        "run_uuid,subject_template,subject_token,account_id,provider,placement,raw_folder,matched_at,delivery_latency_ms,spf_result,dkim_result,dmarc_result\n\
         r-1,\"Hi, there\",MS-20240101-ABCD,7,gmail,inbox,INBOX,2024-01-01 10:00:00,-5,pass,pass,fail\n\
         r-1,\"Hi, there\",MS-20240101-ABCD,-3,imap,missing,,,,,,\n"
    );
    assert_eq!(
        export_csv(&run("x"), &[]),
        "run_uuid,subject_template,subject_token,account_id,provider,placement,raw_folder,matched_at,delivery_latency_ms,spf_result,dkim_result,dmarc_result\n"
    );
}

#[test]
fn html_report_counts_and_sections() {
    let mut a = result(1, "gmail", "inbox");
    a.spf_result = Some("pass".into());
    let rs = [a, result(2, "gmail", "spam"), result(3, "microsoft", "junk")];
    let html = export_html_report(&run("<Sale> & more"), &rs, &[]);
    assert!(html.starts_with("<!DOCTYPE html>\n<html lang=\"en\">\n<head><meta charset=\"UTF-8\"><title>MailScope Report: &lt;Sale&gt; &amp; more</title>"));
    assert!(html.contains("<div class=\"value\" style=\"color:#2ecc71\">33%</div>"));
    assert!(html.contains("<div class=\"value\">1</div><div class=\"label\">Inbox</div>"));
    assert!(html.contains("<tr><td>1</td><td>gmail</td><td>inbox</td><td>pass</td><td>-</td></tr>\n"));
    assert!(html.contains("<p>No issues detected.</p>"));
    assert!(html.contains("  body { font-family: system-ui, sans-serif;"));
    assert!(html.ends_with("\n</body>\n</html>"));

    let d = DiagnosticIssue {
        id: 1,
        test_run_id: 1,
        check_type: "spf".into(),
        severity: "error".into(),
        title: "SPF failures detected".into(),
        details: "d".into(),
        recommendation: "fix".into(),
    };
    let html2 = export_html_report(&run("s"), &[], &[d]);
    assert!(html2.contains("<div class=\"value\" style=\"color:#2ecc71\">0%</div>"));
    assert!(html2.contains("<table><tr><th>Severity</th><th>Type</th><th>Title</th><th>Fix</th></tr><tr><td>error</td><td>spf</td><td>SPF failures detected</td><td>fix</td></tr>\n</table>"));
}
