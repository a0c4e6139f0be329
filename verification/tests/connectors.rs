use mailscope::connector::{ConnectorError, SpecialUse};
use mailscope::gmail::{self, GmailConnector, Header, Message, MessageListResponse, MessagePayload, MessageRef};
use mailscope::imap::{
    fetched_headers, imap_match, imap_search_step, parse_raw_headers, start_imap_search,
    FetchOutcome, ImapConnector, ImapSearchAction, ImapSearchEvent,
};
use mailscope::microsoft::{self, GraphFolder, GraphHeader, GraphMessage, MicrosoftConnector};
use mailscope::models::{FindCriteria, Timestamp};

fn criteria(secs: i64) -> FindCriteria {
    FindCriteria {
        subject_token: "MS-20231114-ABCD".into(),
        body_token: "MS-20231114-EF01".into(),
        since: Timestamp { secs, nanos: 0 },
    }
}

#[test]
fn gmail_auth_url_is_form_encoded() {
    assert_eq!(
        gmail::build_auth_url("abc d/é"),
        "https://accounts.google.com/o/oauth2/v2/auth?client_id=abc+d%2F%C3%A9\
         &redirect_uri=http%3A%2F%2F127.0.0.1%3A43210%2Foauth%2Fcallback\
         &response_type=code\
         &scope=https%3A%2F%2Fwww.googleapis.com%2Fauth%2Fgmail.readonly+https%3A%2F%2Fwww.googleapis.com%2Fauth%2Fuserinfo.email\
         &access_type=offline&prompt=consent"
    );
}

#[test]
fn microsoft_auth_url_is_form_encoded() {
    assert_eq!(
        microsoft::build_auth_url("id-1.x_*"),
        "https://login.microsoftonline.com/common/oauth2/v2.0/authorize?client_id=id-1.x_*\
         &redirect_uri=http%3A%2F%2F127.0.0.1%3A43210%2Foauth%2Fcallback\
         &response_type=code\
         &scope=https%3A%2F%2Fgraph.microsoft.com%2FMail.Read+User.Read+offline_access\
         &response_mode=query"
    );
    assert_eq!(
        microsoft::token_url(),
        "https://login.microsoftonline.com/common/oauth2/v2.0/token"
    );
}

#[test]
fn gmail_connector_addresses() {
    let c = GmailConnector::new("tok".into(), "me@gmail.com".into());
    assert_eq!(c.access_token(), "tok");
    assert_eq!(c.account_email(), "me@gmail.com");
    assert_eq!(c.provider(), "gmail");
    let q = c.search_query(&criteria(1_700_000_000));
    assert_eq!(q, "subject:MS-20231114-ABCD after:1700000000");
    assert_eq!(
        c.search_url(&q),
        "https://www.googleapis.com/gmail/v1/users/me/messages?q=subject%3AMS-20231114-ABCD+after%3A1700000000&maxResults=10"
    );
    assert_eq!(
        c.message_url("abc"),
        "https://www.googleapis.com/gmail/v1/users/me/messages/abc?format=metadata&metadataHeaders=Authentication-Results,Return-Path,Message-ID,List-Unsubscribe,List-Unsubscribe-Post"
    );
    assert_eq!(c.profile_url(), "https://www.googleapis.com/gmail/v1/users/me/profile");
    let folders = c.list_folders();
    assert_eq!(folders.len(), 2);
    assert_eq!(folders[0].id, "INBOX");
    assert_eq!(folders[1].special_use, Some(SpecialUse::Spam));
}

#[test]
fn gmail_status_errors() {
    assert!(matches!(
        gmail::search_error(429, "429 Too Many Requests"),
        Some(ConnectorError::RateLimited { retry_after_secs: 30 })
    ));
    match gmail::search_error(401, "401 Unauthorized") {
        Some(ConnectorError::AuthError(m)) => assert_eq!(m, "token expired"),
        other => panic!("{:?}", other),
    }
    match gmail::search_error(500, "500 Internal Server Error") {
        Some(ConnectorError::ProviderError(m)) => assert_eq!(m, "HTTP 500 Internal Server Error"),
        other => panic!("{:?}", other),
    }
    assert!(gmail::search_error(200, "200 OK").is_none());
    assert!(matches!(gmail::message_error(404), Some(ConnectorError::NotFound)));
    assert!(gmail::message_error(200).is_none());
    match gmail::connect_error(401) {
        Some(ConnectorError::AuthError(m)) => assert_eq!(m, "invalid or expired token"),
        other => panic!("{:?}", other),
    }
    assert!(gmail::connect_error(403).is_none());
}

#[test]
fn connector_error_messages() {
    assert_eq!(ConnectorError::AuthError("x".into()).message(), "authentication failed: x");
    assert_eq!(ConnectorError::NetworkError("y".into()).message(), "network error: y");
    assert_eq!(
        ConnectorError::RateLimited { retry_after_secs: 30 }.message(),
        "rate limited, retry after 30s"
    );
    assert_eq!(ConnectorError::ProviderError("z".into()).message(), "provider error: z");
    assert_eq!(ConnectorError::NotFound.message(), "message not found");
}

#[test]
fn gmail_message_to_match() {
    let list = MessageListResponse {
        messages: Some(vec![
            MessageRef { id: "m1".into(), thread_id: "t1".into() },
            MessageRef { id: "m2".into(), thread_id: "t2".into() },
        ]),
        next_page_token: None,
    };
    assert_eq!(gmail::message_ids(&list), vec!["m1".to_string(), "m2".to_string()]);
    let empty = MessageListResponse { messages: None, next_page_token: None };
    assert!(gmail::message_ids(&empty).is_empty());

    let msg = Message {
        id: "m1".into(),
        label_ids: Some(vec!["CATEGORY_PROMOTIONS".into(), "INBOX".into()]),
        payload: Some(MessagePayload {
            headers: Some(vec![
                Header { name: "Return-Path".into(), value: "<a@b>".into() },
                Header { name: "Return-Path".into(), value: "<c@d>".into() },
            ]),
        }),
        internal_date: Some("1700000000999".into()),
    };
    let m = gmail::to_matched_message("m1".into(), &msg);
    assert_eq!(m.remote_id, "m1");
    assert_eq!(m.folder, "CATEGORY_PROMOTIONS");
    assert_eq!(m.labels.len(), 2);
    assert_eq!(m.headers.len(), 1);
    assert_eq!(m.headers.get("Return-Path").map(|s| s.as_str()), Some("<c@d>"));
    assert_eq!(m.received_at, Some(Timestamp { secs: 1_700_000_000, nanos: 0 }));

    let bare = Message { id: "x".into(), label_ids: None, payload: None, internal_date: Some("-1500".into()) };
    let m = gmail::to_matched_message("x".into(), &bare);
    assert_eq!(m.folder, "UNKNOWN");
    assert_eq!(m.received_at, Some(Timestamp { secs: -1, nanos: 0 }));
    let junk_date = Message { id: "x".into(), label_ids: None, payload: None, internal_date: Some("soon".into()) };
    assert_eq!(gmail::to_matched_message("x".into(), &junk_date).received_at, None);
    let far = Message { id: "x".into(), label_ids: None, payload: None, internal_date: Some(i64::MAX.to_string()) };
    assert_eq!(gmail::to_matched_message("x".into(), &far).received_at, None);
}

#[test]
fn microsoft_folders_and_messages() {
    assert_eq!(microsoft::folder_to_special_use("Inbox"), Some(SpecialUse::Inbox));
    assert_eq!(microsoft::folder_to_special_use("Junk Email"), Some(SpecialUse::Junk));
    assert_eq!(microsoft::folder_to_special_use("Deleted Items"), Some(SpecialUse::Trash));
    assert_eq!(microsoft::folder_to_special_use("SENT"), Some(SpecialUse::Sent));
    assert_eq!(microsoft::folder_to_special_use("Drafts"), Some(SpecialUse::Drafts));
    assert_eq!(microsoft::folder_to_special_use("Archive"), None);
    let f = microsoft::to_mailbox_folder(GraphFolder { id: "f1".into(), display_name: "JunkEmail".into() });
    assert_eq!((f.id.as_str(), f.name.as_str(), f.special_use), ("f1", "JunkEmail", Some(SpecialUse::Junk)));

    assert_eq!(microsoft::resolve_folder_name(&Some("Inbox-123".into())), "Inbox");
    assert_eq!(microsoft::resolve_folder_name(&Some("AAMkINBOXx".into())), "Inbox");
    assert_eq!(microsoft::resolve_folder_name(&Some("AAJunkq".into())), "JunkEmail");
    assert_eq!(microsoft::resolve_folder_name(&Some("AAQk".into())), "AAQk");
    assert_eq!(microsoft::resolve_folder_name(&None), "Unknown");
    assert_eq!(
        microsoft::profile_email(None, Some("upn@x.com".into())),
        "upn@x.com"
    );
    assert_eq!(microsoft::profile_email(Some("m@x.com".into()), Some("u".into())), "m@x.com");
    assert_eq!(microsoft::profile_email(None, None), "");

    let msg = GraphMessage {
        id: "g1".into(),
        subject: Some("s".into()),
        parent_folder_id: Some("junkfolder".into()),
        received_date_time: Some("2023-11-14T23:13:20+01:00".into()),
        internet_message_headers: Some(vec![GraphHeader { name: "Message-ID".into(), value: "<x@y>".into() }]),
    };
    let m = microsoft::first_match(vec![msg]).unwrap();
    assert_eq!(m.remote_id, "g1");
    assert_eq!(m.folder, "JunkEmail");
    assert!(m.labels.is_empty());
    assert_eq!(m.received_at, Some(Timestamp { secs: 1_700_000_000, nanos: 0 }));
    assert_eq!(m.headers.get("Message-ID").map(|s| s.as_str()), Some("<x@y>"));
    assert!(microsoft::first_match(vec![]).is_none());
}

#[test]
fn microsoft_connector_addresses() {
    let c = MicrosoftConnector::new("tok".into(), "me@outlook.com".into());
    assert_eq!(c.provider(), "microsoft");
    assert_eq!(c.access_token(), "tok");
    assert_eq!(c.inbox_url(), "https://graph.microsoft.com/v1.0/me/mailFolders/inbox");
    assert_eq!(c.folders_url(), "https://graph.microsoft.com/v1.0/me/mailFolders?$top=50");
    let f = c.search_filter(&criteria(1_700_000_000)).unwrap();
    assert_eq!(f, "contains(subject,'MS-20231114-ABCD') and receivedDateTime ge 2023-11-14T22:13:20Z");
    assert_eq!(
        c.search_url("a b"),
        "https://graph.microsoft.com/v1.0/me/messages?$filter=a+b&$top=5&$select=id,subject,parentFolderId,receivedDateTime,internetMessageHeaders"
    );
    assert_eq!(
        c.headers_url("id1"),
        "https://graph.microsoft.com/v1.0/me/messages/id1?$select=internetMessageHeaders"
    );
    assert!(c.search_filter(&criteria(i64::MAX)).is_none());
    assert!(c.status_error(401).is_some());
    assert!(c.status_error(200).is_none());
}

#[test]
fn imap_connector_basics() {
    let c = ImapConnector::new("imap.example.com".into(), 993, "u".into(), "p".into());
    assert_eq!(c.server_address(), "imap.example.com:993");
    assert_eq!(c.provider(), "imap");
    assert_eq!(c.port(), 993);
    assert_eq!(c.username(), "u");
    assert_eq!(c.password(), "p");
    assert_eq!(c.host(), "imap.example.com");
    assert_eq!(ImapConnector::subject_query("MS-1"), "SUBJECT \"MS-1\"");
    assert_eq!(ImapConnector::special_use_from_name("INBOX"), Some(SpecialUse::Inbox));
    assert_eq!(ImapConnector::special_use_from_name("[Gmail]/Spam"), Some(SpecialUse::Spam));
    assert_eq!(ImapConnector::special_use_from_name("Deleted Messages"), Some(SpecialUse::Trash));
    assert_eq!(ImapConnector::special_use_from_name("Sent Mail"), Some(SpecialUse::Sent));
    assert_eq!(ImapConnector::special_use_from_name("Drafts"), Some(SpecialUse::Drafts));
    assert_eq!(ImapConnector::special_use_from_name("Archive"), None);
    let order: Vec<&str> = (0..6).filter_map(ImapConnector::search_folder).collect();
    assert_eq!(order, vec!["INBOX", "Junk", "Spam", "Junk Email", "[Gmail]/Spam"]);
}

#[test]
fn raw_header_block_parsing() {
    let raw = b"Return-Path: <a@b.com>\r\nSubject: Hello\r\n  world\r\nno colon line\r\nX-Empty:\r\nSubject: Again  \r\n\tand more\r\n";
    let h = parse_raw_headers(raw);
    assert_eq!(h.len(), 3);
    assert_eq!(h.name_at(0), "Return-Path");
    assert_eq!(h.get("Return-Path").map(|s| s.as_str()), Some("<a@b.com>"));
    assert_eq!(h.get("Subject").map(|s| s.as_str()), Some("Again   and more"));
    assert_eq!(h.get("X-Empty").map(|s| s.as_str()), Some(""));
    assert_eq!(parse_raw_headers(b"").len(), 0);
    let lossy = parse_raw_headers(b"K: v\xff");
    assert_eq!(lossy.get("K").map(|s| s.as_str()), Some("v\u{fffd}"));
}

#[test]
fn imap_search_skips_unusable_folders_and_stops_at_first_hit() {
    let (s, a) = start_imap_search();
    assert_eq!(a, ImapSearchAction::Select { folder: 0 });
    // INBOX cannot be selected.
    let (s, a) = imap_search_step(s, ImapSearchEvent::Selected { ok: false });
    assert_eq!(a, ImapSearchAction::Select { folder: 1 });
    // Junk holds no match.
    let (s, a) = imap_search_step(s, ImapSearchEvent::Selected { ok: true });
    assert_eq!(a, ImapSearchAction::Search { folder: 1 });
    let (s, a) = imap_search_step(s, ImapSearchEvent::Searched { first_uid: None });
    assert_eq!(a, ImapSearchAction::Select { folder: 2 });
    // Spam: the search fails.
    let (s, a) = imap_search_step(s, ImapSearchEvent::Selected { ok: true });
    let (s, a2) = imap_search_step(s, ImapSearchEvent::SearchFailed);
    assert_eq!(a, ImapSearchAction::Search { folder: 2 });
    assert_eq!(a2, ImapSearchAction::Select { folder: 3 });
    // Junk Email: a hit whose fetch gives nothing, so on to the last folder.
    let (s, _) = imap_search_step(s, ImapSearchEvent::Selected { ok: true });
    let (s, a) = imap_search_step(s, ImapSearchEvent::Searched { first_uid: Some(7) });
    assert_eq!(a, ImapSearchAction::Fetch { folder: 3, uid: 7 });
    let (s, a) = imap_search_step(s, ImapSearchEvent::Fetched { outcome: FetchOutcome::NoItem });
    assert_eq!(a, ImapSearchAction::Select { folder: 4 });
    let (s, _) = imap_search_step(s, ImapSearchEvent::Selected { ok: true });
    let (s, _) = imap_search_step(s, ImapSearchEvent::Searched { first_uid: Some(42) });
    let (s, a) = imap_search_step(s, ImapSearchEvent::Fetched { outcome: FetchOutcome::Item });
    assert_eq!(a, ImapSearchAction::Found { folder: 4, uid: 42 });
    let (_, a) = imap_search_step(s, ImapSearchEvent::Selected { ok: true });
    assert_eq!(a, ImapSearchAction::Found { folder: 4, uid: 42 });
}

#[test]
fn imap_search_ends_when_no_folder_matches_or_fetch_fails() {
    let (mut s, mut a) = start_imap_search();
    for _ in 0..5 {
        let (n, na) = imap_search_step(s, ImapSearchEvent::Selected { ok: false });
        s = n;
        a = na;
    }
    assert_eq!(a, ImapSearchAction::NotFound);

    let (s, _) = start_imap_search();
    let (s, _) = imap_search_step(s, ImapSearchEvent::Selected { ok: true });
    let (s, _) = imap_search_step(s, ImapSearchEvent::Searched { first_uid: Some(3) });
    let (_, a) = imap_search_step(s, ImapSearchEvent::Fetched { outcome: FetchOutcome::ItemFailed });
    assert_eq!(a, ImapSearchAction::Failed);
}

#[test]
fn imap_match_builds_the_found_message() {
    let m = imap_match(1, 42, Some(b"Subject: hi\r\nX-A: b\r\n".to_vec()));
    assert_eq!(m.remote_id, "42");
    assert_eq!(m.folder, "Junk");
    assert!(m.labels.is_empty());
    assert!(m.received_at.is_none());
    assert_eq!(m.headers.get("Subject").map(|s| s.as_str()), Some("hi"));
    assert_eq!(m.headers.get("X-A").map(|s| s.as_str()), Some("b"));
    let empty = imap_match(0, 1, None);
    assert_eq!(empty.folder, "INBOX");
    assert_eq!(empty.headers.len(), 0);
}

#[test]
fn fetched_headers_reads_only_a_header_block() {
    let h = fetched_headers(Some(Some(b"A: 1\n B\n".to_vec())));
    assert_eq!(h.get("A").map(|s| s.as_str()), Some("1 B"));
    assert_eq!(fetched_headers(Some(None)).len(), 0);
    assert_eq!(fetched_headers(None).len(), 0);
}
