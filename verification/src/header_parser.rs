//! Reading authentication results and list/identity headers out of a
//! message's header fields.
use vstd::prelude::*;
use vstd::utf8::{decode_utf8, encode_utf8, is_char_boundary};

use crate::headers::{FieldView, HeaderMap};
use crate::text::{
    join, lemma_join_push,
    before_class, chars_before_class, chars_of, contains_seq, first_occurrence, find_bytes,
    lowercase, push_str, same_text, string_of, text_contains, to_lowercase, trim, trim_by,
    trim_chars, CharClass,
};

verus! {

/// An optional text by its characters.
pub open spec fn opt_text(o: Option<String>) -> Option<Seq<char>> {
    match o {
        Some(s) => Some(s@),
        None => None,
    }
}

/// The value of the first field whose lowercased name is `lname`.
pub open spec fn field_ci(e: Seq<FieldView>, lname: Seq<char>) -> Option<Seq<char>>
    decreases e.len(),
{
    if e.len() == 0 {
        None
    } else if lowercase(e[0].0) == lname {
        Some(e[0].1)
    } else {
        field_ci(e.drop_first(), lname)
    }
}

/// The values of all fields whose lowercased name is `lname`, in order.
pub open spec fn values_ci(e: Seq<FieldView>, lname: Seq<char>) -> Seq<Seq<char>>
    decreases e.len(),
{
    if e.len() == 0 {
        seq![]
    } else if lowercase(e.last().0) == lname {
        values_ci(e.drop_last(), lname).push(e.last().1)
    } else {
        values_ci(e.drop_last(), lname)
    }
}

/// All `Authentication-Results` values (any capitalisation of the name),
/// joined with `"; "`.
pub open spec fn auth_raw(e: Seq<FieldView>) -> Seq<char> {
    join(values_ci(e, "authentication-results"@), "; "@)
}

/// The bytes searched for in the lowercased header: `<protocol>=`.
pub open spec fn result_pattern(protocol: Seq<char>) -> Seq<u8> {
    encode_utf8(protocol).push(0x3Du8)
}

/// The byte offset just after the first `<protocol>=` in the lowercased
/// text, if there is one.
pub open spec fn result_start(h: Seq<char>, protocol: Seq<char>) -> Option<int> {
    match first_occurrence(encode_utf8(lowercase(h)), result_pattern(protocol)) {
        Some(p) => Some(p + result_pattern(protocol).len()),
        None => None,
    }
}

/// The offset found in the lowercased text is a character boundary of the
/// text itself, so the text can be cut there.
pub open spec fn result_sliceable(h: Seq<char>, protocol: Seq<char>) -> bool {
    result_start(h, protocol) matches Some(k) ==> is_char_boundary(encode_utf8(h), k)
}

/// The result that a header reports for `protocol`: the text after the first
/// `<protocol>=` (found case-insensitively), up to `;`, space, `\n` or
/// `\r`, trimmed; absent when there is no such text or it is empty.
pub open spec fn extracted(h: Seq<char>, protocol: Seq<char>) -> Option<Seq<char>> {
    match result_start(h, protocol) {
        None => None,
        Some(k) => {
            let hb = encode_utf8(h);
            let t = trim(before_class(decode_utf8(hb.subrange(k, hb.len() as int)), CharClass::ResultEnd));
            if t.len() == 0 {
                None
            } else {
                Some(t)
            }
        },
    }
}

/// Every protocol's result can be cut out of the joined header text.
pub open spec fn auth_sliceable(e: Seq<FieldView>) -> bool {
    &&& result_sliceable(auth_raw(e), "spf"@)
    &&& result_sliceable(auth_raw(e), "dkim"@)
    &&& result_sliceable(auth_raw(e), "dmarc"@)
    &&& result_sliceable(auth_raw(e), "arc"@)
}

/// The `Authentication-Results` verdicts of a message.
pub struct AuthResults {
    pub spf: Option<String>,
    pub dkim: Option<String>,
    pub dmarc: Option<String>,
    pub arc: Option<String>,
    pub raw: String,
}

impl AuthResults {
    /// The results read from the given header fields.
    pub open spec fn read_from(self, e: Seq<FieldView>) -> bool {
        &&& self.raw@ == auth_raw(e)
        &&& opt_text(self.spf) == extracted(auth_raw(e), "spf"@)
        &&& opt_text(self.dkim) == extracted(auth_raw(e), "dkim"@)
        &&& opt_text(self.dmarc) == extracted(auth_raw(e), "dmarc"@)
        &&& opt_text(self.arc) == extracted(auth_raw(e), "arc"@)
    }

    /// No results: every verdict absent and the raw text empty.
    pub fn default() -> (r: AuthResults)
        ensures
            r.spf is None,
            r.dkim is None,
            r.dmarc is None,
            r.arc is None,
            r.raw@ == Seq::<char>::empty(),
    {
        AuthResults { spf: None, dkim: None, dmarc: None, arc: None, raw: String::new() }
    }
}

/// Reads authentication and list headers out of a message's header fields.
pub struct HeaderParser;

impl HeaderParser {
    /// Whether the field at `i` has the lowercased name `lname`.
    fn name_is(headers: &HeaderMap, i: usize, lname: &str) -> (r: bool)
        requires
            i < headers@.len(),
        ensures
            r == (lowercase(headers@[i as int].0) == lname@),
    {
        let lower = to_lowercase(headers.name_at(i).as_str());
        same_text(lower.as_str(), lname)
    }

    /// The value of the first field whose lowercased name is `lname`.
    fn find_ci(headers: &HeaderMap, lname: &str) -> (r: Option<String>)
        ensures
            opt_text(r) == field_ci(headers@, lname@),
    {
        let n = headers.len();
        let mut i: usize = 0;
        assert(headers@.subrange(0, n as int) =~= headers@);
        while i < n
            invariant
                n == headers@.len(),
                i <= n,
                field_ci(headers@, lname@) == field_ci(headers@.subrange(i as int, n as int), lname@),
            decreases n - i,
        {
            assert(headers@.subrange(i as int, n as int).drop_first() =~= headers@.subrange(
                i + 1,
                n as int,
            ));
            if Self::name_is(headers, i, lname) {
                return Some(headers.value_at(i).clone());
            }
            i = i + 1;
        }
        None
    }

    /// All `Authentication-Results` values joined with `"; "`.
    fn auth_raw_text(headers: &HeaderMap) -> (raw: String)
        ensures
            raw@ == auth_raw(headers@),
    {
        let n = headers.len();
        let mut raw = String::new();
        let mut count: usize = 0;
        let mut i: usize = 0;
        let ghost lname = "authentication-results"@;
        assert(headers@.take(0) =~= Seq::<FieldView>::empty());
        while i < n
            invariant
                n == headers@.len(),
                i <= n,
                lname == "authentication-results"@,
                raw@ == join(values_ci(headers@.take(i as int), lname), "; "@),
                count == values_ci(headers@.take(i as int), lname).len(),
                count <= i,
            decreases n - i,
        {
            let ghost before = values_ci(headers@.take(i as int), lname);
            assert(headers@.take(i + 1).drop_last() =~= headers@.take(i as int));
            if Self::name_is(headers, i, "authentication-results") {
                proof {
                    lemma_join_push(before, "; "@, headers@[i as int].1);
                }
                if count > 0 {
                    push_str(&mut raw, "; ");
                }
                push_str(&mut raw, headers.value_at(i).as_str());
                count = count + 1;
            }
            i = i + 1;
        }
        assert(headers@.take(n as int) =~= headers@);
        raw
    }

    /// The result that `haystack` reports for `protocol`; `None` when the
    /// offset of the result in the lowercased text is not a character
    /// boundary of `haystack`.
    fn result_after(haystack: &str, protocol: &str) -> (r: Option<Option<String>>)
        ensures
            r is Some <==> result_sliceable(haystack@, protocol@),
            r matches Some(o) ==> opt_text(o) == extracted(haystack@, protocol@),
            haystack@.len() == 0 ==> r == Some(None::<String>),
    {
        let lower = to_lowercase(haystack);
        let lb = lower.as_str().as_bytes();
        let pb = protocol.as_bytes();
        let mut pat: Vec<u8> = Vec::new();
        let mut j: usize = 0;
        while j < pb.len()
            invariant
                j <= pb@.len(),
                pat@ == pb@.take(j as int),
            decreases pb@.len() - j,
        {
            pat.push(pb[j]);
            assert(pb@.take(j + 1) =~= pb@.take(j as int).push(pb@[j as int]));
            j = j + 1;
        }
        assert(pb@.take(pb@.len() as int) =~= pb@);
        pat.push(0x3Du8);
        assert(pat@ == result_pattern(protocol@));
        let lbn = lb.len();
        match find_bytes(lb, &pat) {
            None => Some(None),
            Some(pos) => {
                proof {
                    crate::text::lemma_find_from(lb@, pat@, 0);
                }
                let idx = pos + pat.len();
                proof {
                    vstd::utf8::encode_utf8_valid_utf8(haystack@);
                }
                assert(result_start(haystack@, protocol@) == Some(idx as int));
                if !haystack.is_char_boundary(idx) {
                    return None;
                }
                let (_, rest) = haystack.split_at(idx);
                proof {
                    vstd::utf8::encode_utf8_decode_utf8(rest@);
                }
                let rv = chars_of(rest);
                let piece = chars_before_class(&rv, CharClass::ResultEnd);
                let t = trim_chars(&piece, CharClass::WhiteSpace);
                if t.len() == 0 {
                    Some(None)
                } else {
                    Some(Some(string_of(&t)))
                }
            },
        }
    }

    /// The result that `haystack` reports for `protocol`.
    fn extract_result(haystack: &str, protocol: &str) -> (r: Option<String>)
        requires
            result_sliceable(haystack@, protocol@),
        ensures
            opt_text(r) == extracted(haystack@, protocol@),
            haystack@.len() == 0 ==> r is None,
    {
        match Self::result_after(haystack, protocol) {
            Some(o) => o,
            None => None,
        }
    }

    /// The SPF, DKIM, DMARC and ARC verdicts of all `Authentication-Results`
    /// fields (any capitalisation of the name), and those fields' values
    /// joined with `"; "`.
    pub fn parse_auth_results(headers: &HeaderMap) -> (r: AuthResults)
        requires
            auth_sliceable(headers@),
        ensures
            r.read_from(headers@),
            values_ci(headers@, "authentication-results"@).len() == 0 ==> r.spf is None
                && r.dkim is None && r.dmarc is None && r.arc is None && r.raw@.len() == 0,
    {
        let raw = Self::auth_raw_text(headers);
        let spf = Self::extract_result(raw.as_str(), "spf");
        let dkim = Self::extract_result(raw.as_str(), "dkim");
        let dmarc = Self::extract_result(raw.as_str(), "dmarc");
        let arc = Self::extract_result(raw.as_str(), "arc");
        AuthResults { spf, dkim, dmarc, arc, raw }
    }

    /// [`HeaderParser::parse_auth_results`] where it is defined; `None` when
    /// a verdict's offset in the lowercased text does not fall on a
    /// character boundary of the text itself.
    pub fn try_parse_auth_results(headers: &HeaderMap) -> (r: Option<AuthResults>)
        ensures
            r is Some <==> auth_sliceable(headers@),
            r matches Some(a) ==> a.read_from(headers@),
            values_ci(headers@, "authentication-results"@).len() == 0 ==> (r matches Some(a)
                && a.spf is None && a.dkim is None && a.dmarc is None && a.arc is None
                && a.raw@.len() == 0),
    {
        let raw = Self::auth_raw_text(headers);
        let spf = Self::result_after(raw.as_str(), "spf");
        let dkim = Self::result_after(raw.as_str(), "dkim");
        let dmarc = Self::result_after(raw.as_str(), "dmarc");
        let arc = Self::result_after(raw.as_str(), "arc");
        if spf.is_some() && dkim.is_some() && dmarc.is_some() && arc.is_some() {
            Some(Self::parse_auth_results(headers))
        } else {
            None
        }
    }

    /// The value of the first `Return-Path` field (any capitalisation).
    pub fn extract_return_path(headers: &HeaderMap) -> (r: Option<String>)
        ensures
            opt_text(r) == field_ci(headers@, "return-path"@),
    {
        Self::find_ci(headers, "return-path")
    }

    /// The value of the first `List-Unsubscribe` field (any capitalisation).
    pub fn extract_list_unsubscribe(headers: &HeaderMap) -> (r: Option<String>)
        ensures
            opt_text(r) == field_ci(headers@, "list-unsubscribe"@),
    {
        Self::find_ci(headers, "list-unsubscribe")
    }

    /// Whether some `List-Unsubscribe-Post` field (any capitalisation) asks
    /// for one-click unsubscription.
    pub fn has_one_click_unsubscribe(headers: &HeaderMap) -> (r: bool)
        ensures
            r == exists|i: int|
                0 <= i < headers@.len() && lowercase(#[trigger] headers@[i].0)
                    == "list-unsubscribe-post"@ && contains_seq(
                    lowercase(headers@[i].1),
                    "list-unsubscribe=one-click"@,
                ),
    {
        let n = headers.len();
        let mut i: usize = 0;
        while i < n
            invariant
                n == headers@.len(),
                i <= n,
                forall|j: int|
                    0 <= j < i ==> !(lowercase(#[trigger] headers@[j].0)
                        == "list-unsubscribe-post"@ && contains_seq(
                        lowercase(headers@[j].1),
                        "list-unsubscribe=one-click"@,
                    )),
            decreases n - i,
        {
            if Self::name_is(headers, i, "list-unsubscribe-post") {
                let lv = to_lowercase(headers.value_at(i).as_str());
                if text_contains(lv.as_str(), "list-unsubscribe=one-click") {
                    return true;
                }
            }
            i = i + 1;
        }
        false
    }

    /// The value of the first `Message-ID` field (any capitalisation) without
    /// its surrounding `<` and `>` characters.
    pub fn extract_message_id(headers: &HeaderMap) -> (r: Option<String>)
        ensures
            opt_text(r) == match field_ci(headers@, "message-id"@) {
                Some(v) => Some(trim_by(v, CharClass::AngleBracket)),
                None => None,
            },
    {
        match Self::find_ci(headers, "message-id") {
            Some(v) => {
                let cv = chars_of(v.as_str());
                let t = trim_chars(&cv, CharClass::AngleBracket);
                Some(string_of(&t))
            },
            None => None,
        }
    }
}

} // verus!
