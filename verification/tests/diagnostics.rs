use mailscope::diagnostics::{
    dmarc_record_name, doh_query_url, keep_json, lookup_provider, run_diagnostics, select_txt_record, DomainCheckResult,
    Finding,
};
use mailscope::models::{TestResult, TestRun};

fn run() -> TestRun {
    TestRun {
        id: 1,
        run_uuid: "uuid-1".into(),
        sending_profile_id: 2,
        seed_group_id: 3,
        status: "complete".into(),
        subject_template: "Hello".into(),
        body_text: "Body".into(),
        body_html: None,
        subject_token: "MS-20240101-ABCD".into(),
        body_token: "MS-20240101-EF01".into(),
        started_at: None,
        completed_at: None,
        inbox_rate_bits: None,
        spam_rate_bits: None,
        missing_rate_bits: None,
    }
}

fn result(provider: &str, placement: &str) -> TestResult {
    TestResult {
        id: 0,
        test_run_id: 1,
        connected_account_id: 7,
        provider: provider.into(),
        placement: placement.into(),
        raw_folder: None,
        message_id_remote: None,
        matched_at: None,
        delivery_latency_ms: None,
        spf_result: None,
        dkim_result: None,
        dmarc_result: None,
        auth_summary: None,
        headers_json: None,
        notes_json: None,
        account: None,
    }
}

#[test]
fn providers_by_domain() {
    assert_eq!(lookup_provider("Alice@GMAIL.com"), "gmail");
    assert_eq!(lookup_provider("bob@googlemail.com"), "gmail");
    assert_eq!(lookup_provider("c@outlook.com"), "microsoft");
    assert_eq!(lookup_provider("d@hotmail.com"), "microsoft");
    assert_eq!(lookup_provider("e@live.com"), "microsoft");
    assert_eq!(lookup_provider("f@msn.com"), "microsoft");
    assert_eq!(lookup_provider("g@example.org"), "imap");
    assert_eq!(lookup_provider("weird@x@gmail.com"), "gmail");
    assert_eq!(lookup_provider("gmail.com"), "gmail");
    assert_eq!(lookup_provider(""), "imap");
}

#[test]
fn txt_record_selection() {
    let records = vec![
        "\"google-site-verification=abc\"".to_string(),
        "\"v=spf1 include:_spf.example.com ~all\"".to_string(),
    ];
    assert_eq!(
        select_txt_record(&records, "SPF").as_deref(),
        Some("v=spf1 include:_spf.example.com ~all")
    );
    assert_eq!(select_txt_record(&records, "v=DMARC1"), None);
    assert_eq!(dmarc_record_name("example.com"), "_dmarc.example.com");
    let d = DomainCheckResult::default();
    assert!(d.spf.is_none() && !d.has_list_unsubscribe && d.mx_records.is_empty());
}

#[test]
fn no_results_no_findings() {
    assert!(run_diagnostics(&run(), &[]).is_empty());
}

#[test]
fn dkim_pass_dmarc_fail_finding() {
    let mut a = result("gmail", "inbox");
    a.dkim_result = Some("pass".into());
    a.dmarc_result = Some("fail".into());
    let b = result("gmail", "inbox");
    let f = run_diagnostics(&run(), &[a, b]);
    assert_eq!(f, vec![Finding::DkimPassDmarcFail { count: 1 }]);
    let r = f[0].with_details(f[0].details().unwrap());
    assert_eq!(r.check_type, "dmarc");
    assert_eq!(r.severity, "error");
    assert_eq!(r.title, "DKIM passes but DMARC fails");
    assert_eq!(
        r.details,
        "Seen on 1 result(s). DKIM is signing but the d= domain is not aligned with the From header domain."
    );
}

#[test]
fn spf_failures_finding() {
    let mut a = result("imap", "inbox");
    a.spf_result = Some("softfail".into());
    let mut b = result("imap", "inbox");
    b.spf_result = Some("none".into());
    let mut c = result("imap", "inbox");
    c.spf_result = Some("pass".into());
    let f = run_diagnostics(&run(), &[a, b, c]);
    assert_eq!(f, vec![Finding::SpfFailures { count: 2 }]);
    assert_eq!(
        f[0].details().as_deref(),
        Some("2 seed(s) received SPF fail, softfail, or none.")
    );
    assert_eq!(f[0].severity(), "error");
    assert_eq!(f[0].check_type(), "spf");
}

#[test]
fn low_inbox_rate_needs_three_seeds() {
    let two = [result("imap", "spam"), result("imap", "spam")];
    assert!(run_diagnostics(&run(), &two).is_empty());
    let three = [result("imap", "spam"), result("imap", "spam"), result("imap", "inbox")];
    let f = run_diagnostics(&run(), &three);
    assert_eq!(f, vec![Finding::LowInboxRate { inbox: 1, total: 3 }]);
    assert_eq!(f[0].severity(), "critical");
    assert_eq!(f[0].title(), "Inbox rate below 50%");
    assert_eq!(f[0].details(), None);
    // exactly half is not below half
    let four = [
        result("imap", "spam"),
        result("imap", "spam"),
        result("imap", "inbox"),
        result("imap", "inbox"),
    ];
    assert!(run_diagnostics(&run(), &four).is_empty());
}

#[test]
fn slow_delivery_uses_upper_median() {
    let mut rs = Vec::new();
    for ms in [400_000i64, 100_000, 310_000, 900_000] {
        let mut r = result("gmail", "inbox");
        r.delivery_latency_ms = Some(ms);
        rs.push(r);
    }
    rs.push(result("gmail", "inbox"));
    // sorted: 100000, 310000, 400000, 900000; index 2 -> 400000
    let f = run_diagnostics(&run(), &rs);
    assert_eq!(f, vec![Finding::SlowDelivery { median_ms: 400_000 }]);
    assert_eq!(f[0].check_type(), "latency");

    let mut fast = result("gmail", "inbox");
    fast.delivery_latency_ms = Some(300_000);
    assert!(run_diagnostics(&run(), &[fast]).is_empty());
}

#[test]
fn outlook_junk_concentration_thresholds() {
    let mut rs = vec![result("gmail", "inbox"); 5];
    rs.push(result("microsoft", "junk"));
    rs.push(result("microsoft", "spam"));
    rs.push(result("microsoft", "inbox"));
    let f = run_diagnostics(&run(), &rs);
    assert_eq!(
        f,
        vec![Finding::OutlookJunkConcentration {
            gmail_inbox: 5,
            gmail_total: 5,
            ms_junk: 2,
            ms_total: 3
        }]
    );
    assert_eq!(f[0].severity(), "warning");
    // Gmail inbox at exactly 80% does not count
    let mut rs2 = vec![result("gmail", "inbox"); 4];
    rs2.push(result("gmail", "spam"));
    rs2.push(result("microsoft", "junk"));
    assert!(run_diagnostics(&run(), &rs2).is_empty());
}

#[test]
fn missing_list_unsubscribe_reads_stored_headers() {
    let mut a = result("gmail", "inbox");
    a.headers_json = Some("{\"From\":\"x@example.com\"}".into());
    let f = run_diagnostics(&run(), &[a]);
    assert_eq!(f, vec![Finding::MissingListUnsubscribe]);
    assert_eq!(f[0].check_type(), "list_unsubscribe");

    let mut b = result("gmail", "inbox");
    b.headers_json = Some("{\"LIST-UNSUBSCRIBE\":\"<mailto:u@x>\"}".into());
    let mut c = result("gmail", "inbox");
    c.headers_json = Some("not json".into());
    let mut d = result("gmail", "inbox");
    d.headers_json = Some("[1,2]".into());
    assert!(run_diagnostics(&run(), &[b, c, d]).is_empty());
}

#[test]
fn findings_come_in_check_order() {
    let mut a = result("imap", "spam");
    a.dkim_result = Some("pass".into());
    a.dmarc_result = Some("fail".into());
    a.spf_result = Some("fail".into());
    let f = run_diagnostics(&run(), &[a.clone(), a.clone(), a]);
    assert_eq!(
        f,
        vec![
            Finding::DkimPassDmarcFail { count: 3 },
            Finding::LowInboxRate { inbox: 0, total: 3 },
            Finding::SpfFailures { count: 3 },
        ]
    );
}

#[test]
fn doh_query_encodes_the_name() {
    assert_eq!(
        doh_query_url("_dmarc.example.com", "TXT"),
        "https://dns.google/resolve?name=_dmarc.example.com&type=TXT"
    );
    assert_eq!(
        doh_query_url("a b/c", "MX"),
        "https://dns.google/resolve?name=a+b%2Fc&type=MX"
    );
}

#[test]
fn keep_json_keeps_only_json() {
    assert_eq!(keep_json(Some("{\"a\":1}".into())).as_deref(), Some("{\"a\":1}"));
    assert_eq!(keep_json(Some("[1, 2]".into())).as_deref(), Some("[1, 2]"));
    assert_eq!(keep_json(Some("not json".into())), None);
    assert_eq!(keep_json(None), None);
}
