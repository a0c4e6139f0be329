use mailscope::headers::HeaderMap;
use mailscope::matcher::{MatchScore, MessageMatcher};

#[test]
fn token_search_in_subject_and_body() {
    assert!(MessageMatcher::subject_contains_token("Hi [MS-20240101-ABCD]", "MS-20240101-ABCD"));
    assert!(!MessageMatcher::subject_contains_token("Hi", "MS-20240101-ABCD"));
    assert!(MessageMatcher::body_contains_token("Token: MS-1", "MS-1"));
    assert!(MessageMatcher::body_contains_token("anything", ""));
}

#[test]
fn custom_header_is_definitive() {
    let mut h = HeaderMap::new();
    h.insert("x-mailscope-token".into(), "MS-T".into());
    let s = MessageMatcher::matches_criteria("unrelated", None, &h, "MS-T", "MS-B");
    assert_eq!(s, MatchScore::Definitive);
    assert!(s.is_match());
}

#[test]
fn header_name_must_match_exactly() {
    let mut h = HeaderMap::new();
    h.insert("X-Mailscope-Token".into(), "MS-T".into());
    let s = MessageMatcher::matches_criteria("unrelated", None, &h, "MS-T", "MS-B");
    assert_eq!(s, MatchScore::NoMatch);
}

#[test]
fn subject_or_body_token_is_strong() {
    let h = HeaderMap::new();
    assert_eq!(
        MessageMatcher::matches_criteria("Re: [MS-T]", None, &h, "MS-T", "MS-B"),
        MatchScore::Strong
    );
    assert_eq!(
        MessageMatcher::matches_criteria("Hello", Some("body MS-B end"), &h, "MS-T", "MS-B"),
        MatchScore::Strong
    );
    assert_eq!(
        MessageMatcher::matches_criteria("Hello", Some("body"), &h, "MS-T", "MS-B"),
        MatchScore::NoMatch
    );
}

#[test]
fn is_match_thresholds() {
    assert!(!MatchScore::NoMatch.is_match());
    assert!(!MatchScore::Weak.is_match());
    assert!(MatchScore::Strong.is_match());
    assert!(MatchScore::Definitive.is_match());
}

#[test]
fn token_extraction_from_subject() {
    assert_eq!(
        MessageMatcher::extract_token_from_subject("Spring sale [MS-20240315-0A9F] now").as_deref(),
        Some("[MS-20240315-0A9F]")
    );
    assert_eq!(MessageMatcher::extract_token_from_subject("[MS-2024031-0A9F]"), None);
    assert_eq!(MessageMatcher::extract_token_from_subject("[MS-20240315-0a9f]"), None);
}
