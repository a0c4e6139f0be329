use mailscope::classifier::{Placement, PlacementClassifier};
use mailscope::headers::HeaderMap;
use mailscope::models::MatchedMessage;

fn msg(folder: &str, labels: &[&str]) -> MatchedMessage {
    MatchedMessage {
        remote_id: "id".into(),
        folder: folder.into(),
        labels: labels.iter().map(|s| s.to_string()).collect(),
        headers: HeaderMap::new(),
        received_at: None,
    }
}

#[test]
fn gmail_inbox() {
    assert_eq!(
        PlacementClassifier::classify_gmail(&msg("INBOX", &["INBOX", "UNREAD"])),
        Placement::Inbox
    );
}

#[test]
fn gmail_spam() {
    assert_eq!(
        PlacementClassifier::classify_gmail(&msg("SPAM", &["SPAM"])),
        Placement::Spam
    );
}

#[test]
fn gmail_promotions() {
    assert_eq!(
        PlacementClassifier::classify_gmail(&msg("INBOX", &["INBOX", "CATEGORY_PROMOTIONS"])),
        Placement::Promotions
    );
}

#[test]
fn microsoft_junk() {
    assert_eq!(
        PlacementClassifier::classify_microsoft(&msg("JunkEmail", &[])),
        Placement::Junk
    );
}

#[test]
fn gmail_label_precedence() {
    assert_eq!(PlacementClassifier::classify_gmail(&msg("X", &["INBOX", "SPAM"])), Placement::Spam);
    assert_eq!(PlacementClassifier::classify_gmail(&msg("X", &["TRASH", "INBOX"])), Placement::Other);
    assert_eq!(PlacementClassifier::classify_gmail(&msg("X", &["CATEGORY_SOCIAL", "INBOX"])), Placement::Social);
    assert_eq!(PlacementClassifier::classify_gmail(&msg("X", &["INBOX", "CATEGORY_UPDATES"])), Placement::Updates);
    assert_eq!(PlacementClassifier::classify_gmail(&msg("X", &["CATEGORY_PROMOTIONS"])), Placement::Other);
    assert_eq!(PlacementClassifier::classify_gmail(&msg("X", &[])), Placement::Other);
    assert_eq!(PlacementClassifier::classify_gmail(&msg("X", &["inbox"])), Placement::Other);
}

#[test]
fn microsoft_and_imap_folders() {
    assert_eq!(PlacementClassifier::classify_microsoft(&msg("Inbox", &[])), Placement::Inbox);
    assert_eq!(PlacementClassifier::classify_microsoft(&msg("Junk Email", &[])), Placement::Junk);
    assert_eq!(PlacementClassifier::classify_microsoft(&msg("SPAM", &[])), Placement::Junk);
    assert_eq!(PlacementClassifier::classify_microsoft(&msg("DeletedItems", &[])), Placement::Other);
    assert_eq!(PlacementClassifier::classify_imap(&msg("INBO", &[])), Placement::Inbox);
    assert_eq!(PlacementClassifier::classify_imap(&msg("[Gmail]/Spam", &[])), Placement::Spam);
    assert_eq!(PlacementClassifier::classify_imap(&msg("Bulk Junk", &[])), Placement::Spam);
    assert_eq!(PlacementClassifier::classify_imap(&msg("Archive", &[])), Placement::Other);
}

#[test]
fn classify_dispatches_by_provider() {
    let m = msg("Junk", &["INBOX"]);
    assert_eq!(PlacementClassifier::classify("gmail", &m), Placement::Inbox);
    assert_eq!(PlacementClassifier::classify("microsoft", &m), Placement::Other);
    assert_eq!(PlacementClassifier::classify("imap", &m), Placement::Spam);
    assert_eq!(PlacementClassifier::classify("Gmail", &m), Placement::Spam);
}
