use mailscope::header_parser::HeaderParser;
use mailscope::headers::HeaderMap;

#[test]
fn parses_spf_pass() {
    let mut headers = HeaderMap::new();
    headers.insert(
        "Authentication-Results".into(),
        "mx.google.com; spf=pass (sender IP is 1.2.3.4) smtp.mailfrom=example.com; dkim=pass header.i=@example.com; dmarc=pass".into(),
    );
    let auth = HeaderParser::parse_auth_results(&headers);
    assert_eq!(auth.spf.as_deref(), Some("pass"));
    assert_eq!(auth.dkim.as_deref(), Some("pass"));
    assert_eq!(auth.dmarc.as_deref(), Some("pass"));
}

#[test]
fn parses_dkim_fail() {
    let mut headers = HeaderMap::new();
    headers.insert(
        "authentication-results".into(),
        "mx.example.com; dkim=fail reason=\"signature verification failed\"".into(),
    );
    let auth = HeaderParser::parse_auth_results(&headers);
    assert_eq!(auth.dkim.as_deref(), Some("fail"));
}

fn map(pairs: &[(&str, &str)]) -> HeaderMap {
    let mut m = HeaderMap::new();
    for (k, v) in pairs {
        m.insert(k.to_string(), v.to_string());
    }
    m
}

#[test]
fn auth_results_join_all_fields_in_order() {
    let h = map(&[
        ("Authentication-Results", "a.example; spf=softfail smtp.mailfrom=x"),
        ("Received", "from somewhere"),
        ("AUTHENTICATION-RESULTS", "b.example; arc=pass; dmarc=fail"),
    ]);
    let auth = HeaderParser::parse_auth_results(&h);
    assert_eq!(
        auth.raw,
        "a.example; spf=softfail smtp.mailfrom=x; b.example; arc=pass; dmarc=fail"
    );
    assert_eq!(auth.spf.as_deref(), Some("softfail"));
    assert_eq!(auth.arc.as_deref(), Some("pass"));
    assert_eq!(auth.dmarc.as_deref(), Some("fail"));
    assert_eq!(auth.dkim, None);
}

#[test]
fn auth_results_absent_gives_nothing() {
    let h = map(&[("Subject", "hello spf=pass")]);
    let auth = HeaderParser::parse_auth_results(&h);
    assert_eq!(auth.raw, "");
    assert!(auth.spf.is_none() && auth.dkim.is_none() && auth.dmarc.is_none() && auth.arc.is_none());
}

#[test]
fn auth_result_match_is_case_insensitive_and_trimmed() {
    let h = map(&[("Authentication-Results", "mx; SPF=Neutral\r\n dkim=\tnone; DMARC=")]);
    let auth = HeaderParser::parse_auth_results(&h);
    assert_eq!(auth.spf.as_deref(), Some("Neutral"));
    // a tab does not end a value, but it is trimmed away
    assert_eq!(auth.dkim.as_deref(), Some("none"));
    // nothing follows `dmarc=`
    assert_eq!(auth.dmarc, None);
}

#[test]
fn auth_results_first_occurrence_wins() {
    let h = map(&[("Authentication-Results", "x; dkim=fail; dkim=pass")]);
    let auth = HeaderParser::parse_auth_results(&h);
    assert_eq!(auth.dkim.as_deref(), Some("fail"));
}

#[test]
fn auth_results_offset_off_character_boundary() {
    // Each KELVIN SIGN (3 bytes) lowercases to `k` (1 byte), so the offset
    // found in the lowercased text falls inside a character of the original.
    let h = map(&[("Authentication-Results", "ab\u{212A}\u{212A}\u{212A}spf=x")]);
    assert!(HeaderParser::try_parse_auth_results(&h).is_none());
}

#[test]
fn auth_results_try_parse_agrees() {
    let h = map(&[("Authentication-Results", "mx; dkim=pass")]);
    let a = HeaderParser::try_parse_auth_results(&h).unwrap();
    assert_eq!(a.dkim.as_deref(), Some("pass"));
    assert_eq!(a.raw, "mx; dkim=pass");
}

#[test]
fn return_path_and_list_unsubscribe_any_case() {
    let h = map(&[
        ("RETURN-PATH", "<bounce@example.com>"),
        ("list-Unsubscribe", "<mailto:u@example.com>"),
    ]);
    assert_eq!(
        HeaderParser::extract_return_path(&h).as_deref(),
        Some("<bounce@example.com>")
    );
    assert_eq!(
        HeaderParser::extract_list_unsubscribe(&h).as_deref(),
        Some("<mailto:u@example.com>")
    );
    assert_eq!(HeaderParser::extract_return_path(&map(&[])), None);
}

#[test]
fn one_click_unsubscribe_detection() {
    let yes = map(&[("List-Unsubscribe-Post", "List-Unsubscribe=One-Click")]);
    let no_value = map(&[("List-Unsubscribe-Post", "something else")]);
    let wrong_name = map(&[("List-Unsubscribe", "List-Unsubscribe=One-Click")]);
    assert!(HeaderParser::has_one_click_unsubscribe(&yes));
    assert!(!HeaderParser::has_one_click_unsubscribe(&no_value));
    assert!(!HeaderParser::has_one_click_unsubscribe(&wrong_name));
}

#[test]
fn message_id_loses_angle_brackets() {
    let h = map(&[("Message-ID", "<<abc@example.com>>")]);
    assert_eq!(
        HeaderParser::extract_message_id(&h).as_deref(),
        Some("abc@example.com")
    );
}

#[test]
fn header_map_insert_then_get() {
    let mut m = HeaderMap::new();
    assert_eq!(m.insert("A".into(), "1".into()), None);
    assert_eq!(m.insert("B".into(), "2".into()), None);
    assert_eq!(m.insert("A".into(), "3".into()), Some("1".to_string()));
    assert_eq!(m.get("A").map(|s| s.as_str()), Some("3"));
    assert_eq!(m.get("B").map(|s| s.as_str()), Some("2"));
    assert_eq!(m.get("a"), None);
    assert_eq!(m.len(), 2);
    assert_eq!(m.name_at(0), "A");
    assert_eq!(m.value_at(0), "3");
}

#[test]
fn header_map_from_pairs_later_wins() {
    let m = HeaderMap::from_pairs(vec![
        ("X".to_string(), "1".to_string()),
        ("Y".to_string(), "2".to_string()),
        ("X".to_string(), "3".to_string()),
    ]);
    assert_eq!(m.len(), 2);
    assert_eq!(m.get("X").map(|s| s.as_str()), Some("3"));
    let c = m.clone();
    assert_eq!(c.get("Y").map(|s| s.as_str()), Some("2"));
}
