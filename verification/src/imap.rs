//! Plain IMAP mailboxes: folder roles, the search, and raw header blocks.
use vstd::prelude::*;
use vstd::utf8::{decode_utf8, valid_utf8};

use crate::connector::SpecialUse;
use crate::headers::{insert_field, lemma_insert_field, FieldView, HeaderMap};
use crate::models::MatchedMessage;
use crate::text::{
    chars_of, contains_seq, find_chars, first_occurrence, int_text, lemma_find_from, lowercase,
    owned, push_char, push_str, same_text, slice_chars, string_of, text_contains, to_lowercase,
    trim, trim_chars, u64_text, CharClass,
};

verus! {

/// An IMAP mailbox reached with a user name and password.
pub struct ImapConnector {
    host: String,
    port: u16,
    username: String,
    password: String,
}

/// The role of an IMAP folder, by its name in lowercase.
pub open spec fn folder_role(name: Seq<char>) -> Option<SpecialUse> {
    let n = lowercase(name);
    if n == "inbox"@ {
        Some(SpecialUse::Inbox)
    } else if contains_seq(n, "spam"@) || contains_seq(n, "junk"@) {
        Some(SpecialUse::Spam)
    } else if contains_seq(n, "trash"@) || contains_seq(n, "deleted"@) {
        Some(SpecialUse::Trash)
    } else if contains_seq(n, "sent"@) {
        Some(SpecialUse::Sent)
    } else if contains_seq(n, "draft"@) {
        Some(SpecialUse::Drafts)
    } else {
        None
    }
}

/// The folders searched for a run's message, in order: the inbox first,
/// then the usual spam and junk folders.
pub open spec fn search_folders() -> Seq<Seq<char>> {
    seq!["INBOX"@, "Junk"@, "Spam"@, "Junk Email"@, "[Gmail]/Spam"@]
}

impl ImapConnector {
    /// A connector for `username` on `host`:`port`.
    pub fn new(host: String, port: u16, username: String, password: String) -> (c: Self)
        ensures
            c.host_name()@ == host@,
            c.port_number() == port,
            c.user()@ == username@,
            c.secret()@ == password@,
    {
        ImapConnector { host, port, username, password }
    }

    /// The server's host name.
    pub closed spec fn host_name(&self) -> String {
        self.host
    }

    /// The server's port.
    pub closed spec fn port_number(&self) -> u16 {
        self.port
    }

    /// The user name.
    pub closed spec fn user(&self) -> String {
        self.username
    }

    /// The password.
    pub closed spec fn secret(&self) -> String {
        self.password
    }

    /// The server's host name.
    pub fn host(&self) -> (r: &String)
        ensures
            r@ == self.host_name()@,
    {
        &self.host
    }

    /// The server's port.
    pub fn port(&self) -> (r: u16)
        ensures
            r == self.port_number(),
    {
        self.port
    }

    /// The user name.
    pub fn username(&self) -> (r: &String)
        ensures
            r@ == self.user()@,
    {
        &self.username
    }

    /// The password.
    pub fn password(&self) -> (r: &String)
        ensures
            r@ == self.secret()@,
    {
        &self.password
    }

    /// The provider name of this connector.
    pub fn provider(&self) -> (r: &'static str)
        ensures
            r@ == "imap"@,
    {
        "imap"
    }

    /// The address to connect to: `host:port`.
    pub fn server_address(&self) -> (r: String)
        ensures
            r@ == self.host_name()@ + ":"@ + int_text(self.port_number() as int),
    {
        let mut r = self.host.clone();
        push_str(&mut r, ":");
        push_str(&mut r, u64_text(self.port as u64).as_str());
        r
    }

    /// The role of a folder, by its name.
    pub fn special_use_from_name(name: &str) -> (r: Option<SpecialUse>)
        ensures
            r == folder_role(name@),
    {
        let lower = to_lowercase(name);
        let n = lower.as_str();
        if same_text(n, "inbox") {
            return Some(SpecialUse::Inbox);
        }
        if text_contains(n, "spam") || text_contains(n, "junk") {
            return Some(SpecialUse::Spam);
        }
        if text_contains(n, "trash") || text_contains(n, "deleted") {
            return Some(SpecialUse::Trash);
        }
        if text_contains(n, "sent") {
            return Some(SpecialUse::Sent);
        }
        if text_contains(n, "draft") {
            return Some(SpecialUse::Drafts);
        }
        None
    }

    /// The IMAP search for a run's message: `SUBJECT "<token>"`.
    pub fn subject_query(token: &str) -> (r: String)
        ensures
            r@ == "SUBJECT \""@ + token@ + "\""@,
    {
        let mut r = owned("SUBJECT \"");
        push_str(&mut r, token);
        push_str(&mut r, "\"");
        r
    }

    /// The folder searched at position `i` of the search order, if any.
    pub fn search_folder(i: usize) -> (r: Option<&'static str>)
        ensures
            i < search_folders().len() ==> (r matches Some(f) && f@ == search_folders()[i as int]),
            i >= search_folders().len() ==> r is None,
    {
        if i == 0 {
            Some("INBOX")
        } else if i == 1 {
            Some("Junk")
        } else if i == 2 {
            Some("Spam")
        } else if i == 3 {
            Some("Junk Email")
        } else if i == 4 {
            Some("[Gmail]/Spam")
        } else {
            None
        }
    }
}

// ───────────────────────────── raw header blocks ─────────────────────────────

/// What `String::from_utf8_lossy` makes of bytes: their UTF-8 text, with
/// each invalid sequence replaced by U+FFFD.
pub uninterp spec fn utf8_lossy(bytes: Seq<u8>) -> Seq<char>;

/// Calls `String::from_utf8_lossy`; valid UTF-8 is decoded as it is.
#[verifier::external_body]
fn lossy_text(raw: &[u8]) -> (r: String)
    ensures
        r@ == utf8_lossy(raw@),
        valid_utf8(raw@) ==> r@ == decode_utf8(raw@),
{
    String::from_utf8_lossy(raw).into_owned()
}

/// A line without the `\r` that ends it, if any.
pub open spec fn strip_cr(l: Seq<char>) -> Seq<char> {
    if l.len() > 0 && l.last() == '\r' {
        l.drop_last()
    } else {
        l
    }
}

/// The lines of a text, as `str::lines` yields them: split at each `\n`, a
/// `\r` before the `\n` dropped, and no empty line after a final `\n`.
pub open spec fn lines_of(t: Seq<char>) -> Seq<Seq<char>>
    decreases t.len(),
{
    if t.len() == 0 {
        seq![]
    } else {
        match first_occurrence(t, seq!['\n']) {
            Some(i) => {
                proof {
                    lemma_find_from(t, seq!['\n'], 0);
                }
                seq![strip_cr(t.take(i))] + lines_of(t.skip(i + 1))
            },
            None => seq![t],
        }
    }
}

/// The header being read while going through the lines: its name (none
/// before the first header line), its value so far, and the fields done.
pub type RawState = (Option<Seq<char>>, Seq<char>, Seq<FieldView>);

/// The fields done, with the header being read stored under its name with
/// its value trimmed.
pub open spec fn flush(st: RawState) -> Seq<FieldView> {
    match st.0 {
        Some(k) => insert_field(st.2, k, trim(st.1)),
        None => st.2,
    }
}

/// One line of a header block: a line starting with a space or a tab
/// continues the value (joined with one space, trimmed); a line with a `:`
/// starts a new header (name before it, value after it); any other line is
/// skipped.
pub open spec fn raw_step(st: RawState, line: Seq<char>) -> RawState {
    if line.len() > 0 && (line[0] == ' ' || line[0] == '\t') {
        (st.0, st.1 + seq![' '] + trim(line), st.2)
    } else {
        match first_occurrence(line, seq![':']) {
            Some(c) => (Some(line.take(c)), line.skip(c + 1), flush(st)),
            None => st,
        }
    }
}

/// The state after the given lines.
pub open spec fn raw_fold(lines: Seq<Seq<char>>) -> RawState
    decreases lines.len(),
{
    if lines.len() == 0 {
        (None, seq![], seq![])
    } else {
        raw_step(raw_fold(lines.drop_last()), lines.last())
    }
}

/// The header fields of a header block's text.
pub open spec fn header_block_fields(text: Seq<char>) -> Seq<FieldView> {
    flush(raw_fold(lines_of(text)))
}

/// A line without the `\r` that ends it, if any.
fn strip_cr_chars(l: Vec<char>) -> (r: Vec<char>)
    ensures
        r@ == strip_cr(l@),
{
    let mut l = l;
    if l.len() > 0 && l[l.len() - 1] == '\r' {
        l.pop();
    }
    l
}

/// The lines of a text.
fn split_lines(v: &[char]) -> (r: Vec<Vec<char>>)
    ensures
        r@.map_values(|l: Vec<char>| l@) == lines_of(v@),
{
    let mut r: Vec<Vec<char>> = Vec::new();
    let mut pos: usize = 0;
    let nl: Vec<char> = vec!['\n'];
    assert(nl@ == seq!['\n']);
    assert(v@.skip(0) =~= v@);
    while pos < v.len()
        invariant
            pos <= v@.len(),
            nl@ == seq!['\n'],
            lines_of(v@) == r@.map_values(|l: Vec<char>| l@) + lines_of(v@.skip(pos as int)),
        decreases v@.len() - pos,
    {
        let ghost before = r@.map_values(|l: Vec<char>| l@);
        let rest = slice_chars(v, pos, v.len());
        assert(rest@ =~= v@.skip(pos as int));
        match find_chars(&rest, &nl) {
            Some(i) => {
                proof {
                    lemma_find_from(rest@, nl@, 0);
                }
                let line = strip_cr_chars(slice_chars(&rest, 0, i));
                r.push(line);
                assert(rest@.subrange(0, i as int) =~= rest@.take(i as int));
                assert(rest@.skip(i + 1) =~= v@.skip(pos + i + 1));
                assert(r@.map_values(|l: Vec<char>| l@) =~= before.push(strip_cr(rest@.take(i as int))));
                assert(lines_of(rest@) == seq![strip_cr(rest@.take(i as int))] + lines_of(
                    rest@.skip(i + 1),
                ));
                pos = pos + i + 1;
                assert(lines_of(v@) =~= r@.map_values(|l: Vec<char>| l@) + lines_of(
                    v@.skip(pos as int),
                ));
            },
            None => {
                r.push(rest);
                assert(r@.map_values(|l: Vec<char>| l@) =~= before.push(v@.skip(pos as int)));
                assert(v@.skip(v@.len() as int) =~= Seq::<char>::empty());
                pos = v.len();
                assert(lines_of(v@) =~= r@.map_values(|l: Vec<char>| l@) + lines_of(
                    v@.skip(pos as int),
                ));
            },
        }
    }
    assert(lines_of(v@.skip(pos as int)) =~= Seq::<Seq<char>>::empty());
    assert(lines_of(v@) =~= r@.map_values(|l: Vec<char>| l@));
    r
}

/// Stores the header being read, if any, under its name with its value
/// trimmed.
fn flush_current(map: &mut HeaderMap, key: Option<String>, val: &String)
    ensures
        final(map)@ == flush((opt_chars(key), val@, old(map)@)),
{
    match key {
        Some(k) => {
            let t = crate::text::trim_text(val.as_str());
            map.insert(k, t);
        },
        None => {},
    }
}

/// An optional text by its characters.
pub open spec fn opt_chars(o: Option<String>) -> Option<Seq<char>> {
    match o {
        Some(s) => Some(s@),
        None => None,
    }
}

/// The header fields of a raw header block (as an IMAP fetch returns it):
/// the bytes read as UTF-8 with invalid sequences replaced, split into
/// lines, continuation lines joined to the header they continue, each value
/// trimmed; a later header overrides an earlier one of the same name.
pub fn parse_raw_headers(raw: &[u8]) -> (r: HeaderMap)
    ensures
        r@ == header_block_fields(utf8_lossy(raw@)),
{
    let text = lossy_text(raw);
    let v = chars_of(text.as_str());
    let lines = split_lines(&v);
    let ghost lv = lines@.map_values(|l: Vec<char>| l@);
    let mut map = HeaderMap::new();
    let mut key: Option<String> = None;
    let mut val = String::new();
    let mut i: usize = 0;
    let colon: Vec<char> = vec![':'];
    assert(colon@ == seq![':']);
    assert(lv.take(0) =~= Seq::<Seq<char>>::empty());
    while i < lines.len()
        invariant
            i <= lines@.len(),
            lv == lines@.map_values(|l: Vec<char>| l@),
            colon@ == seq![':'],
            raw_fold(lv.take(i as int)) == (opt_chars(key), val@, map@),
        decreases lines@.len() - i,
    {
        assert(lv.take(i + 1).drop_last() =~= lv.take(i as int));
        let line = &lines[i];
        if line.len() > 0 && (line[0] == ' ' || line[0] == '\t') {
            push_char(&mut val, ' ');
            let t = trim_chars(line, CharClass::WhiteSpace);
            let ts = string_of(&t);
            push_str(&mut val, ts.as_str());
        } else {
            match find_chars(line, &colon) {
                Some(c) => {
                    proof {
                        lemma_find_from(line@, colon@, 0);
                    }
                    let previous = key;
                    flush_current(&mut map, previous, &val);
                    let name = slice_chars(line, 0, c);
                    let rest = slice_chars(line, c + 1, line.len());
                    assert(name@ =~= line@.take(c as int));
                    assert(rest@ =~= line@.skip(c + 1));
                    key = Some(string_of(&name));
                    val = string_of(&rest);
                },
                None => {},
            }
        }
        i = i + 1;
    }
    assert(lv.take(lines@.len() as int) =~= lv);
    flush_current(&mut map, key, &val);
    map
}


// ───────────────────────────── the search ─────────────────────────────

/// What the search of a mailbox is to do next.
#[derive(Debug, Clone, Copy, PartialEq, Eq, Structural)]
pub enum ImapSearchAction {
    /// Select the folder at this position of the search order.
    Select { folder: usize },
    /// Search the selected folder for the run's subject token.
    Search { folder: usize },
    /// Fetch the header block of the message with this UID.
    Fetch { folder: usize, uid: u32 },
    /// The message was found: log out and report it.
    Found { folder: usize, uid: u32 },
    /// Fetching failed: report a provider error.
    Failed,
    /// No folder holds the message: log out and report none.
    NotFound,
}

/// What came of a fetch of a message's header block.
#[derive(Debug, Clone, Copy, PartialEq, Eq, Structural)]
pub enum FetchOutcome {
    /// The fetch command failed.
    CommandFailed,
    /// The fetch yielded no item.
    NoItem,
    /// The first item came back as an error.
    ItemFailed,
    /// The first item came back.
    Item,
}

/// What happened when the caller performed a search action.
#[derive(Debug, Clone, Copy, PartialEq, Eq, Structural)]
pub enum ImapSearchEvent {
    /// The folder was selected, or could not be.
    Selected { ok: bool },
    /// The search ran: the first UID it gave, if any.
    Searched { first_uid: Option<u32> },
    /// The search command failed.
    SearchFailed,
    /// The fetch ran.
    Fetched { outcome: FetchOutcome },
}

/// Where a mailbox search is: the action it waits on.
#[derive(Debug, Clone, Copy, PartialEq, Eq, Structural)]
pub struct ImapSearchState {
    pub awaiting: ImapSearchAction,
}

/// The action after giving up on the folder at `folder`: the next folder of
/// the search order, or none found after the last.
pub open spec fn after_folder(folder: usize) -> ImapSearchAction {
    if folder + 1 < search_folders().len() {
        ImapSearchAction::Select { folder: (folder + 1) as usize }
    } else {
        ImapSearchAction::NotFound
    }
}

/// The next state of a search on an event.  A folder that cannot be
/// selected or searched, or that holds no match, is skipped; a failed fetch
/// ends the search with an error; the first fetched message ends it.  An
/// event that does not answer the awaited action leaves the state as it is.
pub open spec fn imap_search_next(s: ImapSearchState, e: ImapSearchEvent) -> ImapSearchState {
    let a = match (s.awaiting, e) {
        (ImapSearchAction::Select { folder }, ImapSearchEvent::Selected { ok }) => if ok {
            ImapSearchAction::Search { folder }
        } else {
            after_folder(folder)
        },
        (ImapSearchAction::Search { folder }, ImapSearchEvent::Searched { first_uid }) => match first_uid {
            Some(uid) => ImapSearchAction::Fetch { folder, uid },
            None => after_folder(folder),
        },
        (ImapSearchAction::Search { folder }, ImapSearchEvent::SearchFailed) => after_folder(folder),
        (ImapSearchAction::Fetch { folder, uid }, ImapSearchEvent::Fetched { outcome }) => match outcome {
            FetchOutcome::CommandFailed | FetchOutcome::ItemFailed => ImapSearchAction::Failed,
            FetchOutcome::NoItem => after_folder(folder),
            FetchOutcome::Item => ImapSearchAction::Found { folder, uid },
        },
        _ => s.awaiting,
    };
    ImapSearchState { awaiting: a }
}

/// The folder an action is about, if it is about one.
pub open spec fn action_folder(a: ImapSearchAction) -> Option<usize> {
    match a {
        ImapSearchAction::Select { folder } => Some(folder),
        ImapSearchAction::Search { folder } => Some(folder),
        ImapSearchAction::Fetch { folder, .. } => Some(folder),
        ImapSearchAction::Found { folder, .. } => Some(folder),
        _ => None,
    }
}

/// A state the search can be in: any folder it is about is in the search
/// order.
pub open spec fn search_state_ok(s: ImapSearchState) -> bool {
    action_folder(s.awaiting) matches Some(f) ==> f < search_folders().len()
}

/// The start of a search: select the first folder of the order.
pub fn start_imap_search() -> (r: (ImapSearchState, ImapSearchAction))
    ensures
        r.0.awaiting == (ImapSearchAction::Select { folder: 0 }),
        r.1 == r.0.awaiting,
        search_state_ok(r.0),
{
    let s = ImapSearchState { awaiting: ImapSearchAction::Select { folder: 0 } };
    (s, s.awaiting)
}

/// The action after giving up on a folder.
fn next_folder(folder: usize) -> (r: ImapSearchAction)
    requires
        folder < search_folders().len(),
    ensures
        r == after_folder(folder),
{
    if folder + 1 < 5 {
        ImapSearchAction::Select { folder: folder + 1 }
    } else {
        ImapSearchAction::NotFound
    }
}

/// The next state of a search on an event, and the action to perform next.
pub fn imap_search_step(s: ImapSearchState, e: ImapSearchEvent) -> (r: (
    ImapSearchState,
    ImapSearchAction,
))
    requires
        search_state_ok(s),
    ensures
        r.0 == imap_search_next(s, e),
        r.1 == r.0.awaiting,
        search_state_ok(r.0),
{
    let a = match (s.awaiting, e) {
        (ImapSearchAction::Select { folder }, ImapSearchEvent::Selected { ok }) => if ok {
            ImapSearchAction::Search { folder }
        } else {
            next_folder(folder)
        },
        (ImapSearchAction::Search { folder }, ImapSearchEvent::Searched { first_uid }) => match first_uid {
            Some(uid) => ImapSearchAction::Fetch { folder, uid },
            None => next_folder(folder),
        },
        (ImapSearchAction::Search { folder }, ImapSearchEvent::SearchFailed) => next_folder(folder),
        (ImapSearchAction::Fetch { folder, uid }, ImapSearchEvent::Fetched { outcome }) => match outcome {
            FetchOutcome::CommandFailed | FetchOutcome::ItemFailed => ImapSearchAction::Failed,
            FetchOutcome::NoItem => next_folder(folder),
            FetchOutcome::Item => ImapSearchAction::Found { folder, uid },
        },
        _ => s.awaiting,
    };
    let n = ImapSearchState { awaiting: a };
    (n, a)
}

/// The header fields of a fetched item: the fields of its header block when
/// the item came back with one, none otherwise.
pub open spec fn fetched_fields(item: Option<Option<Seq<u8>>>) -> Seq<FieldView> {
    match item {
        Some(Some(h)) => header_block_fields(utf8_lossy(h)),
        _ => seq![],
    }
}

/// The header fields of the item a header fetch gave: `item` is none when
/// the fetch gave no item or an error, and holds the item's header block
/// when there is one.
pub fn fetched_headers(item: Option<Option<Vec<u8>>>) -> (r: HeaderMap)
    ensures
        r@ == fetched_fields(
            match item {
                Some(Some(h)) => Some(Some(h@)),
                Some(None) => Some(None),
                None => None,
            },
        ),
{
    match item {
        Some(Some(h)) => parse_raw_headers(h.as_slice()),
        _ => HeaderMap::new(),
    }
}

/// The message found in the folder at `folder` of the search order under
/// `uid`, from its fetched header block (an empty block when the item had
/// none).  IMAP messages carry no labels and no receipt time here.
pub fn imap_match(folder: usize, uid: u32, header: Option<Vec<u8>>) -> (r: MatchedMessage)
    requires
        folder < search_folders().len(),
    ensures
        r.remote_id@ == int_text(uid as int),
        r.folder@ == search_folders()[folder as int],
        r.labels@.len() == 0,
        r.headers@ == header_block_fields(
            utf8_lossy(
                match header {
                    Some(h) => h@,
                    None => Seq::<u8>::empty(),
                },
            ),
        ),
        r.received_at is None,
{
    let headers = match header {
        Some(h) => parse_raw_headers(h.as_slice()),
        None => {
            let empty: Vec<u8> = Vec::new();
            assert(empty@ =~= Seq::<u8>::empty());
            parse_raw_headers(empty.as_slice())
        },
    };
    let name = owned(ImapConnector::search_folder(folder).unwrap());
    MatchedMessage {
        remote_id: u64_text(uid as u64),
        folder: name,
        labels: Vec::new(),
        headers,
        received_at: None,
    }
}

} // verus!
