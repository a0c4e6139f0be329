//! Gmail: the sign-in address, the API addresses, and reading API replies.
use vstd::prelude::*;
use vstd::utf8::encode_utf8;

use crate::connector::{ConnectorError, MailboxFolder, SpecialUse};
use crate::header_parser::opt_text;
use crate::headers::{collect_fields, FieldView, HeaderMap};
use crate::models::{FindCriteria, MatchedMessage, Timestamp};
use crate::text::{form_encoded, form_urlencode, i64_text, int_text, owned, push_str};
use crate::time::{millis_to_secs, ms_to_secs, parse_i64, parsed_i64, utc_from_secs, utc_representable};

verus! {

/// Where Google sends the user back after sign-in.
pub const REDIRECT_URI: &'static str = "http://127.0.0.1:43210/oauth/callback";

/// The permissions asked for: read mail, and the address of the account.
pub const SCOPE: &'static str = "https://www.googleapis.com/auth/gmail.readonly https://www.googleapis.com/auth/userinfo.email";

/// The Gmail API.
pub const BASE: &'static str = "https://www.googleapis.com/gmail/v1";

/// The tokens of a signed-in account.
#[derive(Debug, Clone)]
pub struct OAuthToken {
    pub access_token: String,
    pub refresh_token: Option<String>,
    pub expires_in: Option<u64>,
    pub token_type: String,
}

/// Who signed in.
#[derive(Debug, Clone)]
pub struct UserProfile {
    pub email: String,
    pub name: Option<String>,
}

/// The form-encoded text of a string.
pub open spec fn enc(s: Seq<char>) -> Seq<char> {
    form_encoded(encode_utf8(s))
}

/// The address at which a user signs in to Google for this application.
pub open spec fn auth_url(client_id: Seq<char>) -> Seq<char> {
    "https://accounts.google.com/o/oauth2/v2/auth?client_id="@ + enc(client_id) + "&redirect_uri="@
        + enc(REDIRECT_URI@) + "&response_type=code&scope="@ + enc(SCOPE@)
        + "&access_type=offline&prompt=consent"@
}

/// The address at which a user signs in to Google for this application.
pub fn build_auth_url(client_id: &str) -> (r: String)
    ensures
        r@ == auth_url(client_id@),
{
    let mut r = owned("https://accounts.google.com/o/oauth2/v2/auth?client_id=");
    push_str(&mut r, form_urlencode(client_id).as_str());
    push_str(&mut r, "&redirect_uri=");
    push_str(&mut r, form_urlencode(REDIRECT_URI).as_str());
    push_str(&mut r, "&response_type=code&scope=");
    push_str(&mut r, form_urlencode(SCOPE).as_str());
    push_str(&mut r, "&access_type=offline&prompt=consent");
    r
}

/// A Gmail mailbox reached through the API with an access token.
pub struct GmailConnector {
    access_token: String,
    account_email: String,
}

impl GmailConnector {
    /// A connector for the account `account_email`.
    pub fn new(access_token: String, account_email: String) -> (c: Self)
        ensures
            c.token()@ == access_token@,
            c.email()@ == account_email@,
    {
        GmailConnector { access_token, account_email }
    }

    /// The access token.
    pub closed spec fn token(&self) -> String {
        self.access_token
    }

    /// The account's address.
    pub closed spec fn email(&self) -> String {
        self.account_email
    }

    /// The access token.
    pub fn access_token(&self) -> (r: &String)
        ensures
            r@ == self.token()@,
    {
        &self.access_token
    }

    /// The account's address.
    pub fn account_email(&self) -> (r: &String)
        ensures
            r@ == self.email()@,
    {
        &self.account_email
    }

    /// The provider name of this connector.
    pub fn provider(&self) -> (r: &'static str)
        ensures
            r@ == "gmail"@,
    {
        "gmail"
    }

    /// The folders a Gmail mailbox offers for placement: inbox and spam.
    pub fn list_folders(&self) -> (r: Vec<MailboxFolder>)
        ensures
            r@.len() == 2,
            r@[0].id@ == "INBOX"@ && r@[0].name@ == "Inbox"@ && r@[0].special_use == Some(
                SpecialUse::Inbox,
            ),
            r@[1].id@ == "SPAM"@ && r@[1].name@ == "Spam"@ && r@[1].special_use == Some(
                SpecialUse::Spam,
            ),
    {
        let mut r: Vec<MailboxFolder> = Vec::new();
        r.push(
            MailboxFolder {
                id: owned("INBOX"),
                name: owned("Inbox"),
                special_use: Some(SpecialUse::Inbox),
            },
        );
        r.push(
            MailboxFolder {
                id: owned("SPAM"),
                name: owned("Spam"),
                special_use: Some(SpecialUse::Spam),
            },
        );
        r
    }

    /// The search that finds a run's message: its subject token, received
    /// after the given instant (in seconds since the epoch).
    pub fn search_query(&self, criteria: &FindCriteria) -> (r: String)
        ensures
            r@ == "subject:"@ + criteria.subject_token@ + " after:"@ + int_text(
                criteria.since.secs as int,
            ),
    {
        let mut r = owned("subject:");
        push_str(&mut r, criteria.subject_token.as_str());
        push_str(&mut r, " after:");
        push_str(&mut r, i64_text(criteria.since.secs).as_str());
        r
    }

    /// The address of a message search (at most ten hits).
    pub fn search_url(&self, query: &str) -> (r: String)
        ensures
            r@ == BASE@ + "/users/me/messages?q="@ + enc(query@) + "&maxResults=10"@,
    {
        let mut r = owned(BASE);
        push_str(&mut r, "/users/me/messages?q=");
        push_str(&mut r, form_urlencode(query).as_str());
        push_str(&mut r, "&maxResults=10");
        r
    }

    /// The address of a message's metadata with the headers that the
    /// placement checks read.
    pub fn message_url(&self, id: &str) -> (r: String)
        ensures
            r@ == BASE@ + "/users/me/messages/"@ + id@
                + "?format=metadata&metadataHeaders=Authentication-Results,Return-Path,Message-ID,List-Unsubscribe,List-Unsubscribe-Post"@,
    {
        let mut r = owned(BASE);
        push_str(&mut r, "/users/me/messages/");
        push_str(&mut r, id);
        push_str(
            &mut r,
            "?format=metadata&metadataHeaders=Authentication-Results,Return-Path,Message-ID,List-Unsubscribe,List-Unsubscribe-Post",
        );
        r
    }

    /// The address of the account's profile, which the connection check
    /// reads.
    pub fn profile_url(&self) -> (r: String)
        ensures
            r@ == BASE@ + "/users/me/profile"@,
    {
        let mut r = owned(BASE);
        push_str(&mut r, "/users/me/profile");
        r
    }
}

/// The error that an HTTP status of a search reply means, if any: 429 is
/// rate limiting (retry after 30 s); any other status outside 200..=299 is
/// an expired token (401) or a provider error quoting the status.
pub fn search_error(status: u16, status_text: &str) -> (r: Option<ConnectorError>)
    ensures
        r is Some <==> (status == 429 || !(200 <= status <= 299)),
        status == 429 ==> r == Some(ConnectorError::RateLimited { retry_after_secs: 30 }),
        status == 401 ==> (r matches Some(ConnectorError::AuthError(m)) && m@
            == "token expired"@),
        status != 429 && status != 401 && !(200 <= status <= 299) ==> (r matches Some(
            ConnectorError::ProviderError(m),
        ) && m@ == "HTTP "@ + status_text@),
{
    if status == 429 {
        return Some(ConnectorError::RateLimited { retry_after_secs: 30 });
    }
    if !(200 <= status && status <= 299) {
        if status == 401 {
            return Some(ConnectorError::AuthError(owned("token expired")));
        }
        let mut m = owned("HTTP ");
        push_str(&mut m, status_text);
        return Some(ConnectorError::ProviderError(m));
    }
    None
}

/// The error that an HTTP status of a message reply means: 404 is a
/// missing message.
pub fn message_error(status: u16) -> (r: Option<ConnectorError>)
    ensures
        r is Some <==> status == 404,
        r matches Some(e) ==> e == ConnectorError::NotFound,
{
    if status == 404 {
        Some(ConnectorError::NotFound)
    } else {
        None
    }
}

/// The error that an HTTP status of the connection check means: 401 is an
/// invalid or expired token.
pub fn connect_error(status: u16) -> (r: Option<ConnectorError>)
    ensures
        r is Some <==> status == 401,
        r matches Some(ConnectorError::AuthError(m)) ==> m@ == "invalid or expired token"@,
        r matches Some(e) ==> e is AuthError,
{
    if status == 401 {
        Some(ConnectorError::AuthError(owned("invalid or expired token")))
    } else {
        None
    }
}

/// A page of search hits.
#[derive(Debug, Clone)]
pub struct MessageListResponse {
    pub messages: Option<Vec<MessageRef>>,
    pub next_page_token: Option<String>,
}

/// A search hit.
#[derive(Debug, Clone)]
pub struct MessageRef {
    pub id: String,
    pub thread_id: String,
}

/// A message's metadata.
#[derive(Debug, Clone)]
pub struct Message {
    pub id: String,
    pub label_ids: Option<Vec<String>>,
    pub payload: Option<MessagePayload>,
    pub internal_date: Option<String>,
}

/// The part of a message that holds its headers.
#[derive(Debug, Clone)]
pub struct MessagePayload {
    pub headers: Option<Vec<Header>>,
}

/// A header of a message.
#[derive(Debug, Clone)]
pub struct Header {
    pub name: String,
    pub value: String,
}

/// The ids of the hits of a search, in order (none when the page has no
/// hit list).
pub fn message_ids(list: &MessageListResponse) -> (r: Vec<String>)
    ensures
        match list.messages {
            Some(ms) => r@.map_values(|s: String| s@) == ms@.map_values(|m: MessageRef| m.id@),
            None => r@.len() == 0,
        },
{
    let mut r: Vec<String> = Vec::new();
    match &list.messages {
        Some(ms) => {
            let mut i: usize = 0;
            while i < ms.len()
                invariant
                    i <= ms@.len(),
                    r@.len() == i,
                    r@.map_values(|s: String| s@) =~= ms@.take(i as int).map_values(
                        |m: MessageRef| m.id@,
                    ),
                decreases ms@.len() - i,
            {
                let ghost prev = r@;
                r.push(ms[i].id.clone());
                assert(r@ == prev.push(r@[i as int]));
                assert(ms@.take(i + 1) =~= ms@.take(i as int).push(ms@[i as int]));
                assert(r@.map_values(|s: String| s@) =~= prev.map_values(|s: String| s@).push(
                    ms@[i as int].id@,
                ));
                i = i + 1;
            }
            assert(ms@.take(ms@.len() as int) =~= ms@);
        },
        None => {},
    }
    r
}

/// The header fields of a message (a later field overrides an earlier one
/// of the same name).
pub open spec fn message_fields(msg: Message) -> Seq<FieldView> {
    match msg.payload {
        Some(p) => match p.headers {
            Some(hs) => collect_fields(hs@.map_values(|h: Header| (h.name@, h.value@))),
            None => seq![],
        },
        None => seq![],
    }
}

/// The header fields of a message.
pub fn message_headers(msg: &Message) -> (r: HeaderMap)
    ensures
        r@ == message_fields(*msg),
{
    match &msg.payload {
        Some(p) => match &p.headers {
            Some(hs) => {
                let mut pairs: Vec<(String, String)> = Vec::new();
                let mut i: usize = 0;
                while i < hs.len()
                    invariant
                        i <= hs@.len(),
                        pairs@.len() == i,
                        pairs@.map_values(|q: (String, String)| (q.0@, q.1@)) =~= hs@.take(
                            i as int,
                        ).map_values(|h: Header| (h.name@, h.value@)),
                    decreases hs@.len() - i,
                {
                    let ghost prev = pairs@;
                    pairs.push((hs[i].name.clone(), hs[i].value.clone()));
                    assert(pairs@ == prev.push(pairs@[i as int]));
                    assert(hs@.take(i + 1) =~= hs@.take(i as int).push(hs@[i as int]));
                    assert(pairs@.map_values(|q: (String, String)| (q.0@, q.1@)) =~= prev.map_values(
                        |q: (String, String)| (q.0@, q.1@),
                    ).push((hs@[i as int].name@, hs@[i as int].value@)));
                    i = i + 1;
                }
                assert(hs@.take(hs@.len() as int) =~= hs@);
                HeaderMap::from_pairs(pairs)
            },
            None => HeaderMap::new(),
        },
        None => HeaderMap::new(),
    }
}

/// When a message was received: its internal date (milliseconds since the
/// epoch, as decimal text) in whole seconds toward zero, when the text is
/// a number and chrono can represent the instant.
pub open spec fn received_instant(internal_date: Option<String>) -> Option<(i64, u32)> {
    match internal_date {
        Some(t) => match parsed_i64(t@) {
            Some(ms) => if utc_representable(ms_to_secs(ms as int) as i64, 0) {
                Some((ms_to_secs(ms as int) as i64, 0u32))
            } else {
                None
            },
            None => None,
        },
        None => None,
    }
}

/// When a message was received, from its internal date.
pub fn received_at(internal_date: &Option<String>) -> (r: Option<Timestamp>)
    ensures
        match r {
            Some(t) => received_instant(*internal_date) == Some((t.secs, t.nanos)),
            None => received_instant(*internal_date) is None,
        },
{
    match internal_date {
        Some(t) => match parse_i64(t.as_str()) {
            Some(ms) => utc_from_secs(millis_to_secs(ms)),
            None => None,
        },
        None => None,
    }
}

/// The found message as a mailbox match: its first label stands for its
/// folder (`UNKNOWN` without labels).
pub fn to_matched_message(remote_id: String, msg: &Message) -> (r: MatchedMessage)
    ensures
        r.remote_id@ == remote_id@,
        r.headers@ == message_fields(*msg),
        match msg.label_ids {
            Some(ls) => r.label_texts() == ls@.map_values(|l: String| l@),
            None => r.labels@.len() == 0,
        },
        r.label_texts().len() > 0 ==> r.folder@ == r.label_texts()[0],
        r.label_texts().len() == 0 ==> r.folder@ == "UNKNOWN"@,
        match r.received_at {
            Some(t) => received_instant(msg.internal_date) == Some((t.secs, t.nanos)),
            None => received_instant(msg.internal_date) is None,
        },
{
    let labels: Vec<String> = match &msg.label_ids {
        Some(ls) => ls.clone(),
        None => Vec::new(),
    };
    let folder = if labels.len() > 0 {
        labels[0].clone()
    } else {
        owned("UNKNOWN")
    };
    let headers = message_headers(msg);
    let received_at = received_at(&msg.internal_date);
    MatchedMessage { remote_id, folder, labels, headers, received_at }
}

} // verus!
