//! Microsoft 365 / Outlook: the sign-in address, the Graph API addresses,
//! and reading Graph replies.
use vstd::prelude::*;

use crate::connector::{ConnectorError, MailboxFolder, SpecialUse};
use crate::gmail::enc;
use crate::header_parser::opt_text;
use crate::headers::{collect_fields, FieldView, HeaderMap};
use crate::models::{FindCriteria, MatchedMessage, Timestamp};
use crate::text::{
    contains_seq, form_urlencode, lowercase, owned, push_str, same_text, text_contains,
    to_lowercase,
};
use crate::time::{format_utc, parse_rfc3339, rfc3339_instant, utc_representable, utc_text};

verus! {

/// Where Microsoft sends the user back after sign-in.
pub const REDIRECT_URI: &'static str = "http://127.0.0.1:43210/oauth/callback";

/// The permissions asked for: read mail, read the user, and stay signed in.
pub const SCOPE: &'static str = "https://graph.microsoft.com/Mail.Read User.Read offline_access";

/// The Microsoft identity platform endpoint.
pub const AUTHORITY: &'static str = "https://login.microsoftonline.com/common/oauth2/v2.0";

/// The Microsoft Graph API.
pub const GRAPH: &'static str = "https://graph.microsoft.com/v1.0";

/// The tokens of a signed-in account.
#[derive(Debug, Clone)]
pub struct OAuthToken {
    pub access_token: String,
    pub refresh_token: Option<String>,
    pub expires_in: Option<u64>,
    pub token_type: String,
}

/// Who signed in.
#[derive(Debug, Clone)]
pub struct UserProfile {
    pub display_name: String,
    pub mail: String,
}

/// The address at which a user signs in to Microsoft for this application.
pub open spec fn auth_url(client_id: Seq<char>) -> Seq<char> {
    AUTHORITY@ + "/authorize?client_id="@ + enc(client_id) + "&redirect_uri="@ + enc(REDIRECT_URI@)
        + "&response_type=code&scope="@ + enc(SCOPE@) + "&response_mode=query"@
}

/// The address at which a user signs in to Microsoft for this application.
pub fn build_auth_url(client_id: &str) -> (r: String)
    ensures
        r@ == auth_url(client_id@),
{
    let mut r = owned(AUTHORITY);
    push_str(&mut r, "/authorize?client_id=");
    push_str(&mut r, form_urlencode(client_id).as_str());
    push_str(&mut r, "&redirect_uri=");
    push_str(&mut r, form_urlencode(REDIRECT_URI).as_str());
    push_str(&mut r, "&response_type=code&scope=");
    push_str(&mut r, form_urlencode(SCOPE).as_str());
    push_str(&mut r, "&response_mode=query");
    r
}

/// The address where an authorization code is exchanged for tokens.
pub fn token_url() -> (r: String)
    ensures
        r@ == AUTHORITY@ + "/token"@,
{
    let mut r = owned(AUTHORITY);
    push_str(&mut r, "/token");
    r
}

/// The address of a user profile as Graph reports it.
pub open spec fn profile_address(mail: Option<String>, user_principal_name: Option<String>) -> Seq<
    char,
> {
    match mail {
        Some(m) => m@,
        None => match user_principal_name {
            Some(u) => u@,
            None => seq![],
        },
    }
}

/// The address of a user: the mail address, else the principal name, else
/// empty.
pub fn profile_email(mail: Option<String>, user_principal_name: Option<String>) -> (r: String)
    ensures
        r@ == profile_address(mail, user_principal_name),
{
    match mail {
        Some(m) => m,
        None => match user_principal_name {
            Some(u) => u,
            None => String::new(),
        },
    }
}

/// The role of a Graph folder, by its display name in lowercase.
pub open spec fn folder_role(name: Seq<char>) -> Option<SpecialUse> {
    let n = lowercase(name);
    if n == "inbox"@ {
        Some(SpecialUse::Inbox)
    } else if n == "junkemail"@ || n == "junk email"@ || n == "spam"@ {
        Some(SpecialUse::Junk)
    } else if n == "deleteditems"@ || n == "deleted items"@ {
        Some(SpecialUse::Trash)
    } else if n == "sentitems"@ || n == "sent items"@ || n == "sent"@ {
        Some(SpecialUse::Sent)
    } else if n == "drafts"@ {
        Some(SpecialUse::Drafts)
    } else {
        None
    }
}

/// The role of a Graph folder, by its display name.
pub fn folder_to_special_use(name: &str) -> (r: Option<SpecialUse>)
    ensures
        r == folder_role(name@),
{
    let lower = to_lowercase(name);
    let n = lower.as_str();
    if same_text(n, "inbox") {
        Some(SpecialUse::Inbox)
    } else if same_text(n, "junkemail") || same_text(n, "junk email") || same_text(n, "spam") {
        Some(SpecialUse::Junk)
    } else if same_text(n, "deleteditems") || same_text(n, "deleted items") {
        Some(SpecialUse::Trash)
    } else if same_text(n, "sentitems") || same_text(n, "sent items") || same_text(n, "sent") {
        Some(SpecialUse::Sent)
    } else if same_text(n, "drafts") {
        Some(SpecialUse::Drafts)
    } else {
        None
    }
}

/// A folder as Graph lists it.
#[derive(Debug, Clone)]
pub struct GraphFolder {
    pub id: String,
    pub display_name: String,
}

/// A Graph folder as a mailbox folder.
pub fn to_mailbox_folder(f: GraphFolder) -> (r: MailboxFolder)
    ensures
        r.id@ == f.id@,
        r.name@ == f.display_name@,
        r.special_use == folder_role(f.display_name@),
{
    let su = folder_to_special_use(f.display_name.as_str());
    MailboxFolder { id: f.id, name: f.display_name, special_use: su }
}

/// A header of a Graph message.
#[derive(Debug, Clone)]
pub struct GraphHeader {
    pub name: String,
    pub value: String,
}

/// A message as Graph reports it.
#[derive(Debug, Clone)]
pub struct GraphMessage {
    pub id: String,
    pub subject: Option<String>,
    pub parent_folder_id: Option<String>,
    pub received_date_time: Option<String>,
    pub internet_message_headers: Option<Vec<GraphHeader>>,
}

/// The folder a message is in: `Inbox` when the folder id starts with
/// `Inbox` or mentions `inbox` in any case, `JunkEmail` when it mentions
/// `junk` in any case, the id itself otherwise, and `Unknown` without one.
pub open spec fn folder_name_of(parent_folder_id: Option<String>) -> Seq<char> {
    match parent_folder_id {
        Some(fid) => if crate::text::starts_with(fid@, "Inbox"@) || contains_seq(
            lowercase(fid@),
            "inbox"@,
        ) {
            "Inbox"@
        } else if contains_seq(lowercase(fid@), "junk"@) {
            "JunkEmail"@
        } else {
            fid@
        },
        None => "Unknown"@,
    }
}

/// The folder a message is in.
pub fn resolve_folder_name(parent_folder_id: &Option<String>) -> (r: String)
    ensures
        r@ == folder_name_of(*parent_folder_id),
{
    match parent_folder_id {
        Some(fid) => {
            let lower = to_lowercase(fid.as_str());
            if crate::text::text_starts_with(fid.as_str(), "Inbox") || text_contains(
                lower.as_str(),
                "inbox",
            ) {
                owned("Inbox")
            } else if text_contains(lower.as_str(), "junk") {
                owned("JunkEmail")
            } else {
                fid.clone()
            }
        },
        None => owned("Unknown"),
    }
}

/// The header fields of a Graph message (a later field overrides an
/// earlier one of the same name).
pub open spec fn graph_fields(headers: Option<Vec<GraphHeader>>) -> Seq<FieldView> {
    match headers {
        Some(hs) => collect_fields(hs@.map_values(|h: GraphHeader| (h.name@, h.value@))),
        None => seq![],
    }
}

/// The header fields of a Graph message.
pub fn graph_headers(headers: &Option<Vec<GraphHeader>>) -> (r: HeaderMap)
    ensures
        r@ == graph_fields(*headers),
{
    match headers {
        Some(hs) => {
            let mut pairs: Vec<(String, String)> = Vec::new();
            let mut i: usize = 0;
            while i < hs.len()
                invariant
                    i <= hs@.len(),
                    pairs@.len() == i,
                    pairs@.map_values(|q: (String, String)| (q.0@, q.1@)) =~= hs@.take(
                        i as int,
                    ).map_values(|h: GraphHeader| (h.name@, h.value@)),
                decreases hs@.len() - i,
            {
                let ghost prev = pairs@;
                pairs.push((hs[i].name.clone(), hs[i].value.clone()));
                assert(pairs@ == prev.push(pairs@[i as int]));
                assert(hs@.take(i + 1) =~= hs@.take(i as int).push(hs@[i as int]));
                assert(pairs@.map_values(|q: (String, String)| (q.0@, q.1@)) =~= prev.map_values(
                    |q: (String, String)| (q.0@, q.1@),
                ).push((hs@[i as int].name@, hs@[i as int].value@)));
                i = i + 1;
            }
            assert(hs@.take(hs@.len() as int) =~= hs@);
            HeaderMap::from_pairs(pairs)
        },
        None => HeaderMap::new(),
    }
}

/// A found Graph message as a mailbox match; Graph messages carry no labels.
pub fn to_matched_message(msg: GraphMessage) -> (r: MatchedMessage)
    ensures
        r.remote_id@ == msg.id@,
        r.folder@ == folder_name_of(msg.parent_folder_id),
        r.labels@.len() == 0,
        r.headers@ == graph_fields(msg.internet_message_headers),
        match msg.received_date_time {
            Some(t) => match r.received_at {
                Some(ts) => rfc3339_instant(t@) == Some((ts.secs, ts.nanos)),
                None => rfc3339_instant(t@) is None,
            },
            None => r.received_at is None,
        },
{
    let folder = resolve_folder_name(&msg.parent_folder_id);
    let headers = graph_headers(&msg.internet_message_headers);
    let received_at = match &msg.received_date_time {
        Some(t) => parse_rfc3339(t.as_str()),
        None => None,
    };
    MatchedMessage { remote_id: msg.id, folder, labels: Vec::new(), headers, received_at }
}

/// The first message of a search reply as a mailbox match; none when the
/// reply lists no message.
pub fn first_match(messages: Vec<GraphMessage>) -> (r: Option<MatchedMessage>)
    ensures
        r is Some <==> messages@.len() > 0,
        r matches Some(m) ==> m.remote_id@ == messages@[0].id@ && m.folder@ == folder_name_of(
            messages@[0].parent_folder_id,
        ) && m.headers@ == graph_fields(messages@[0].internet_message_headers)
            && m.labels@.len() == 0 && match messages@[0].received_date_time {
            Some(t) => match m.received_at {
                Some(ts) => rfc3339_instant(t@) == Some((ts.secs, ts.nanos)),
                None => rfc3339_instant(t@) is None,
            },
            None => m.received_at is None,
        },
{
    let mut messages = messages;
    if messages.len() == 0 {
        return None;
    }
    let first = messages.remove(0);
    Some(to_matched_message(first))
}

/// A Microsoft mailbox reached through Graph with an access token.
pub struct MicrosoftConnector {
    access_token: String,
    account_email: String,
}

impl MicrosoftConnector {
    /// A connector for the account `account_email`.
    pub fn new(access_token: String, account_email: String) -> (c: Self)
        ensures
            c.token()@ == access_token@,
            c.email()@ == account_email@,
    {
        MicrosoftConnector { access_token, account_email }
    }

    /// The access token.
    pub closed spec fn token(&self) -> String {
        self.access_token
    }

    /// The account's address.
    pub closed spec fn email(&self) -> String {
        self.account_email
    }

    /// The access token.
    pub fn access_token(&self) -> (r: &String)
        ensures
            r@ == self.token()@,
    {
        &self.access_token
    }

    /// The account's address.
    pub fn account_email(&self) -> (r: &String)
        ensures
            r@ == self.email()@,
    {
        &self.account_email
    }

    /// The provider name of this connector.
    pub fn provider(&self) -> (r: &'static str)
        ensures
            r@ == "microsoft"@,
    {
        "microsoft"
    }

    /// The address of the inbox, which the connection check reads.
    pub fn inbox_url(&self) -> (r: String)
        ensures
            r@ == GRAPH@ + "/me/mailFolders/inbox"@,
    {
        let mut r = owned(GRAPH);
        push_str(&mut r, "/me/mailFolders/inbox");
        r
    }

    /// The address of the folder list (up to fifty folders).
    pub fn folders_url(&self) -> (r: String)
        ensures
            r@ == GRAPH@ + "/me/mailFolders?$top=50"@,
    {
        let mut r = owned(GRAPH);
        push_str(&mut r, "/me/mailFolders?$top=50");
        r
    }

    /// The search filter for a run's message: its subject token, received
    /// at or after the instant (written `YYYY-MM-DDTHH:MM:SSZ`); none when
    /// chrono cannot write the instant, which happens only for an instant it
    /// cannot represent.
    pub fn search_filter(&self, criteria: &FindCriteria) -> (r: Option<String>)
        ensures
            match utc_text(criteria.since.secs, criteria.since.nanos, "%Y-%m-%dT%H:%M:%SZ"@) {
                Some(since) => r matches Some(f) && f@ == "contains(subject,'"@
                    + criteria.subject_token@ + "') and receivedDateTime ge "@ + since,
                None => r is None,
            },
            utc_representable(criteria.since.secs, criteria.since.nanos) ==> r is Some,
    {
        proof {
            reveal_strlit("%Y-%m-%dT%H:%M:%SZ");
        }
        let since = format_utc(criteria.since, "%Y-%m-%dT%H:%M:%SZ");
        match since {
            Some(s) => {
                let mut f = owned("contains(subject,'");
                push_str(&mut f, criteria.subject_token.as_str());
                push_str(&mut f, "') and receivedDateTime ge ");
                push_str(&mut f, s.as_str());
                Some(f)
            },
            None => None,
        }
    }

    /// The address of a message search with the given filter (at most five
    /// hits, with the fields the match needs).
    pub fn search_url(&self, filter: &str) -> (r: String)
        ensures
            r@ == GRAPH@ + "/me/messages?$filter="@ + enc(filter@)
                + "&$top=5&$select=id,subject,parentFolderId,receivedDateTime,internetMessageHeaders"@,
    {
        let mut r = owned(GRAPH);
        push_str(&mut r, "/me/messages?$filter=");
        push_str(&mut r, form_urlencode(filter).as_str());
        push_str(
            &mut r,
            "&$top=5&$select=id,subject,parentFolderId,receivedDateTime,internetMessageHeaders",
        );
        r
    }

    /// The address of a message's headers.
    pub fn headers_url(&self, remote_message_id: &str) -> (r: String)
        ensures
            r@ == GRAPH@ + "/me/messages/"@ + remote_message_id@ + "?$select=internetMessageHeaders"@,
    {
        let mut r = owned(GRAPH);
        push_str(&mut r, "/me/messages/");
        push_str(&mut r, remote_message_id);
        push_str(&mut r, "?$select=internetMessageHeaders");
        r
    }

    /// The error that an HTTP status of a Graph reply means: 401 is an
    /// expired token.
    pub fn status_error(&self, status: u16) -> (r: Option<ConnectorError>)
        ensures
            r is Some <==> status == 401,
            r matches Some(ConnectorError::AuthError(m)) ==> m@ == "token expired"@,
            r matches Some(e) ==> e is AuthError,
    {
        if status == 401 {
            Some(ConnectorError::AuthError(owned("token expired")))
        } else {
            None
        }
    }
}

} // verus!
