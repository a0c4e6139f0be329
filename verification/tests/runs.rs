use mailscope::classifier::Placement;
use mailscope::models::{TestResult, TestRun};
use mailscope::runs::{
    all_matched, compose_token, generate_token, imap_keychain_ref, is_cancelled, oauth_keychain_ref,
    tally_results, token_from, token_suffix, AddImapParams, CreateProfileParams, CreateRunParams, RunTally,
    RunToken,
};

fn result(placement: &str) -> TestResult {
    TestResult {
        id: 0,
        test_run_id: 1,
        connected_account_id: 7,
        provider: "imap".into(),
        placement: placement.into(),
        raw_folder: None,
        message_id_remote: None,
        matched_at: None,
        delivery_latency_ms: None,
        spf_result: None,
        dkim_result: None,
        dmarc_result: None,
        auth_summary: None,
        headers_json: None,
        notes_json: None,
        account: None,
    }
}

#[test]
fn run_token_suggestions() {
    let t = RunToken::new("Spring sale", "MS-20240101-ABCD".into(), "MS-20240101-EF01".into());
    assert_eq!(t.suggested_subject, "Spring sale [MS-20240101-ABCD]");
    assert_eq!(
        t.suggested_body,
        "This is a MailScope placement test.\r\n\r\nToken: MS-20240101-EF01\r\n"
    );
    assert_eq!(t.subject_token, "MS-20240101-ABCD");
    assert_eq!(t.body_token, "MS-20240101-EF01");
}

#[test]
fn token_from_date_and_uuid() {
    let suffix = token_suffix("a1b-2c3d4e5f-0000-4000-8000-000000000000").unwrap();
    assert_eq!(suffix, "A1B2");
    assert_eq!(compose_token("20240315", &suffix), "MS-20240315-A1B2");
    assert_eq!(token_suffix("ab-c"), None);
    assert_eq!(token_suffix("aé-éé"), None);
    assert_eq!(token_suffix("éé").as_deref(), Some("ÉÉ"));
}

#[test]
fn keychain_references() {
    assert_eq!(imap_keychain_ref("me@x.com", "imap.x.com"), "imap:me@x.com:imap.x.com");
    assert_eq!(oauth_keychain_ref("gmail", "me@gmail.com"), "oauth:gmail:me@gmail.com");
}

#[test]
fn tally_and_completion() {
    let rs = [result("inbox"), result("spam"), result("junk"), result("missing"), result("promotions")];
    assert_eq!(
        tally_results(&rs),
        RunTally { inbox: 1, spam: 2, missing: 1, total: 5 }
    );
    assert!(!all_matched(&rs));
    assert!(all_matched(&rs[..3]));
    assert!(!all_matched(&[]));
}

#[test]
fn cancelled_status() {
    let mut run = TestRun {
        id: 1,
        run_uuid: "u".into(),
        sending_profile_id: 1,
        seed_group_id: 1,
        status: "running".into(),
        subject_template: "s".into(),
        body_text: "b".into(),
        body_html: None,
        subject_token: "t".into(),
        body_token: "t".into(),
        started_at: None,
        completed_at: None,
        inbox_rate_bits: None,
        spam_rate_bits: None,
        missing_rate_bits: None,
    };
    assert!(!is_cancelled(&run));
    run.status = "cancelled".into();
    assert!(is_cancelled(&run));
}

#[test]
fn placement_names() {
    let all = [
        (Placement::Inbox, "inbox"),
        (Placement::Spam, "spam"),
        (Placement::Junk, "junk"),
        (Placement::Promotions, "promotions"),
        (Placement::Social, "social"),
        (Placement::Updates, "updates"),
        (Placement::Missing, "missing"),
        (Placement::Other, "other"),
    ];
    for (p, n) in all {
        assert_eq!(p.to_string(), n);
    }
}

#[test]
fn command_parameters_hold_values() {
    let a = AddImapParams {
        display_name: "d".into(),
        seed_email: "e".into(),
        host: "h".into(),
        port: 993,
        auth_type: "password".into(),
        password: "p".into(),
    };
    assert_eq!(a.port, 993);
    let p = CreateProfileParams {
        name: "n".into(),
        from_name: "f".into(),
        from_email: "e".into(),
        reply_to: None,
        notes: Some("x".into()),
    };
    assert_eq!(p.notes.as_deref(), Some("x"));
    let r = CreateRunParams {
        sending_profile_id: 1,
        seed_group_id: 2,
        subject_template: "s".into(),
        body_text: "b".into(),
        body_html: None,
        subject_token: "t".into(),
        body_token: "u".into(),
    };
    assert_eq!(r.seed_group_id, 2);
}

#[test]
fn token_from_uses_date_and_uppercase_suffix() {
    assert_eq!(
        token_from("20240131", "ab-cdef12-3456").as_deref(),
        Some("MS-20240131-ABCD")
    );
    assert_eq!(token_from("20240131", "abc\u{e9}"), None);
}

#[test]
fn generated_tokens_have_the_documented_shape() {
    let t = generate_token();
    assert_eq!(t.len(), 16);
    assert!(t.starts_with("MS-"));
    assert_eq!(&t[11..12], "-");
    assert!(t[3..11].chars().all(|c| c.is_ascii_digit()));
    assert!(t[12..].chars().all(|c| c.is_ascii_hexdigit() && !c.is_ascii_lowercase()));
    let today = chrono::Utc::now().format("%Y%m%d").to_string();
    let yesterday = (chrono::Utc::now() - chrono::Duration::days(1)).format("%Y%m%d").to_string();
    assert!(t[3..11] == today || t[3..11] == yesterday);
}

#[test]
fn suggested_subject_carries_a_findable_token() {
    let tok = generate_token();
    let rt = RunToken::new("Spring sale", tok.clone(), generate_token());
    assert!(mailscope::matcher::MessageMatcher::subject_contains_token(&rt.suggested_subject, &rt.subject_token));
    assert_eq!(
        mailscope::matcher::MessageMatcher::extract_token_from_subject(&rt.suggested_subject),
        Some(format!("[{}]", tok))
    );
    let rt = RunToken::new("Re: [MS-2024013-ABCD] sale", tok.clone(), generate_token());
    assert_eq!(
        mailscope::matcher::MessageMatcher::extract_token_from_subject(&rt.suggested_subject),
        Some(format!("[{}]", tok))
    );
}
