//! Setting up and closing placement runs: tokens, suggested message texts,
//! credential references and the tally of a finished run.
use vstd::prelude::*;
use vstd::utf8::{
    decode_utf8, encode_scalar, encode_utf8, is_char_boundary, leading_byte_width_1,
};

use crate::header_parser::opt_text;
use crate::models::{TestResult, TestRun};
use crate::time::{format_utc, utc_now, utc_representable, utc_text};
use crate::reporting::{count_placed, lemma_count_placed_bound};
use crate::text::{
    ascii_upper, ascii_upper_char, chars_of, is_ascii_text, owned, push_str, same_text, string_of,
    to_uppercase, uppercase,
};

verus! {

/// What the user enters to connect an IMAP seed account.
#[derive(Debug, Clone)]
pub struct AddImapParams {
    pub display_name: String,
    pub seed_email: String,
    pub host: String,
    pub port: u16,
    pub auth_type: String,
    pub password: String,
}

/// What the user enters to create a sending profile.
#[derive(Debug, Clone)]
pub struct CreateProfileParams {
    pub name: String,
    pub from_name: String,
    pub from_email: String,
    pub reply_to: Option<String>,
    pub notes: Option<String>,
}

/// What the user enters to create a run.
#[derive(Debug, Clone)]
pub struct CreateRunParams {
    pub sending_profile_id: i64,
    pub seed_group_id: i64,
    pub subject_template: String,
    pub body_text: String,
    pub body_html: Option<String>,
    pub subject_token: String,
    pub body_token: String,
}

/// The tokens of a new run and the texts suggested for its message.
#[derive(Debug, Clone)]
pub struct RunToken {
    pub subject_token: String,
    pub body_token: String,
    pub suggested_subject: String,
    pub suggested_body: String,
}

/// The subject suggested for a run: the template, a space, and the subject
/// token in brackets.
pub open spec fn suggested_subject_text(template: Seq<char>, subject_token: Seq<char>) -> Seq<char> {
    template + " ["@ + subject_token + "]"@
}

/// The body suggested for a run, carrying the body token.
pub open spec fn suggested_body_text(body_token: Seq<char>) -> Seq<char> {
    "This is a MailScope placement test.\r\n\r\nToken: "@ + body_token + "\r\n"@
}

impl RunToken {
    /// The tokens of a new run with the subject and body suggested for them.
    pub fn new(subject_template: &str, subject_token: String, body_token: String) -> (r: RunToken)
        ensures
            r.subject_token@ == subject_token@,
            r.body_token@ == body_token@,
            r.suggested_subject@ == suggested_subject_text(subject_template@, subject_token@),
            r.suggested_body@ == suggested_body_text(body_token@),
    {
        let mut suggested_subject = owned(subject_template);
        push_str(&mut suggested_subject, " [");
        push_str(&mut suggested_subject, subject_token.as_str());
        push_str(&mut suggested_subject, "]");
        let mut suggested_body = owned("This is a MailScope placement test.\r\n\r\nToken: ");
        push_str(&mut suggested_body, body_token.as_str());
        push_str(&mut suggested_body, "\r\n");
        RunToken { subject_token, body_token, suggested_subject, suggested_body }
    }
}

/// `s` without its `-` characters.
pub open spec fn without_dashes(s: Seq<char>) -> Seq<char>
    decreases s.len(),
{
    if s.len() == 0 {
        seq![]
    } else if s.last() == '-' {
        without_dashes(s.drop_last())
    } else {
        without_dashes(s.drop_last()).push(s.last())
    }
}

/// The characters that a token's suffix is cut from: the identifier in
/// uppercase without its dashes.
pub open spec fn suffix_source(id_text: Seq<char>) -> Seq<char> {
    without_dashes(uppercase(id_text))
}

/// The suffix can be cut: four bytes end on a character boundary.
pub open spec fn suffix_cuttable(id_text: Seq<char>) -> bool {
    is_char_boundary(encode_utf8(suffix_source(id_text)), 4)
}

/// The suffix of a token: the first four bytes of the identifier in
/// uppercase without dashes.
pub open spec fn token_suffix_text(id_text: Seq<char>) -> Seq<char> {
    decode_utf8(encode_utf8(suffix_source(id_text)).take(4))
}

/// `s` without its `-` characters.
fn remove_dashes(s: &str) -> (r: String)
    ensures
        r@ == without_dashes(s@),
{
    let v = chars_of(s);
    let mut out: Vec<char> = Vec::new();
    let mut i: usize = 0;
    assert(v@.take(0) =~= Seq::<char>::empty());
    while i < v.len()
        invariant
            i <= v@.len(),
            out@ == without_dashes(v@.take(i as int)),
        decreases v@.len() - i,
    {
        assert(v@.take(i + 1).drop_last() =~= v@.take(i as int));
        if v[i] != '-' {
            out.push(v[i]);
        }
        i = i + 1;
    }
    assert(v@.take(v@.len() as int) =~= v@);
    string_of(&out)
}

/// The suffix of a token made from an identifier's text (a UUID in its
/// usual hyphenated form): its first four bytes in uppercase, dashes left
/// out; none when those four bytes do not end on a character boundary.
pub fn token_suffix(id_text: &str) -> (r: Option<String>)
    ensures
        r is Some <==> suffix_cuttable(id_text@),
        r matches Some(s) ==> s@ == token_suffix_text(id_text@),
        is_ascii_text(id_text@) ==> uppercase(id_text@) == ascii_upper(id_text@),
{
    let upper = to_uppercase(id_text);
    let plain = remove_dashes(upper.as_str());
    let p = plain.as_str();
    proof {
        vstd::utf8::encode_utf8_valid_utf8(p@);
    }
    if !p.is_char_boundary(4) {
        return None;
    }
    let (head, _) = p.split_at(4);
    proof {
        vstd::utf8::encode_utf8_decode_utf8(head@);
        assert(encode_utf8(p@).subrange(0, 4) == encode_utf8(p@).take(4));
    }
    Some(owned(head))
}

/// A run token: `MS-`, the date, `-`, and the suffix.
pub open spec fn token_text(date: Seq<char>, suffix: Seq<char>) -> Seq<char> {
    "MS-"@ + date + "-"@ + suffix
}

/// A run token made of a date (`YYYYMMDD`) and a suffix.
pub fn compose_token(date: &str, suffix: &str) -> (r: String)
    ensures
        r@ == token_text(date@, suffix@),
{
    let mut r = owned("MS-");
    push_str(&mut r, date);
    push_str(&mut r, "-");
    push_str(&mut r, suffix);
    r
}

/// The token made of a date and an identifier's text; none when the
/// identifier's suffix cannot be cut.
pub open spec fn token_of(date: Seq<char>, id_text: Seq<char>) -> Option<Seq<char>> {
    if suffix_cuttable(id_text) {
        Some(token_text(date, token_suffix_text(id_text)))
    } else {
        None
    }
}

/// A run token made of a date (`YYYYMMDD`) and the suffix of an
/// identifier's text; none when that suffix cannot be cut.
pub fn token_from(date: &str, id_text: &str) -> (r: Option<String>)
    ensures
        opt_text(r) == token_of(date@, id_text@),
        is_ascii_text(id_text@) ==> uppercase(id_text@) == ascii_upper(id_text@),
{
    match token_suffix(id_text) {
        Some(suffix) => Some(compose_token(date, suffix.as_str())),
        None => None,
    }
}

/// A small hexadecimal digit: `0`..`9` or `a`..`f`.
pub open spec fn is_lower_hex(c: char) -> bool {
    ('0' <= c <= '9') || ('a' <= c <= 'f')
}

/// The hyphenated text of a UUID: 36 characters, small hexadecimal digits
/// with `-` at positions 8, 13, 18 and 23.
pub open spec fn uuid_text(s: Seq<char>) -> bool {
    &&& s.len() == 36
    &&& forall|i: int|
        0 <= i < 36 ==> if i == 8 || i == 13 || i == 18 || i == 23 {
            #[trigger] s[i] == '-'
        } else {
            is_lower_hex(s[i])
        }
}

/// Calls `uuid::Uuid::new_v4()` and writes the identifier with its
/// `Display` impl, which is the lower-case hyphenated form.  The identifier
/// is random, so only its form is stated.
#[verifier::external_body]
fn random_id_text() -> (r: String)
    ensures
        uuid_text(r@),
{
    uuid::Uuid::new_v4().to_string()
}

/// `t` is the token of the instant `secs`/`nanos`, an instant chrono can
/// represent, and the UUID text `id_text`: `MS-`, the instant's UTC date
/// written `YYYYMMDD`, `-`, and the first four characters of the UUID in
/// uppercase.
pub open spec fn token_made(t: Seq<char>, secs: i64, nanos: u32, id_text: Seq<char>) -> bool {
    &&& utc_representable(secs, nanos)
    &&& uuid_text(id_text)
    &&& utc_text(secs, nanos, "%Y%m%d"@) matches Some(d)
    &&& token_of(d, id_text) == Some(t)
    &&& t == token_text(d, ascii_upper(id_text.take(4)))
}

/// ASCII text encodes to one byte per character, each below 0x80, and a
/// prefix of the text encodes to the same prefix of the bytes.
proof fn lemma_ascii_encode(s: Seq<char>, k: int)
    requires
        is_ascii_text(s),
        0 <= k <= s.len(),
    ensures
        encode_utf8(s).len() == s.len(),
        forall|i: int| 0 <= i < s.len() ==> (#[trigger] encode_utf8(s)[i]) < 0x80,
        encode_utf8(s).take(k) == encode_utf8(s.take(k)),
    decreases s.len(),
{
    if s.len() > 0 {
        let rest = s.drop_first();
        assert(is_ascii_text(rest)) by {
            assert forall|i: int| 0 <= i < rest.len() implies (#[trigger] rest[i] as u32) < 0x80 by {
                assert(rest[i] == s[i + 1]);
            }
        }
        let km = if k > 0 { k - 1 } else { 0 };
        lemma_ascii_encode(rest, km);
        let u = s[0] as u32;
        assert(u < 0x80);
        assert(u & 0x7F <= 0x7F) by (bit_vector);
        let b = leading_byte_width_1(u);
        assert(encode_scalar(u) == seq![b]);
        assert(b < 0x80);
        assert(encode_utf8(s) == seq![b] + encode_utf8(rest));
        if k > 0 {
            assert(s.take(k).drop_first() =~= rest.take(k - 1));
            assert(s.take(k)[0] == s[0]);
            assert(encode_utf8(s.take(k)) == seq![b] + encode_utf8(rest.take(k - 1)));
            assert(encode_utf8(s).take(k) =~= seq![b] + encode_utf8(rest).take(k - 1));
        } else {
            assert(s.take(0) =~= Seq::<char>::empty());
            assert(encode_utf8(s).take(0) =~= Seq::<u8>::empty());
        }
    } else {
        assert(s.take(k) =~= s);
        assert(encode_utf8(s).take(k) =~= encode_utf8(s));
    }
}

/// Leaving dashes out of two texts one after the other is leaving them out
/// of each.
proof fn lemma_without_dashes_concat(a: Seq<char>, b: Seq<char>)
    ensures
        without_dashes(a + b) == without_dashes(a) + without_dashes(b),
    decreases b.len(),
{
    if b.len() == 0 {
        assert(a + b =~= a);
        assert(without_dashes(a) + without_dashes(b) =~= without_dashes(a));
    } else {
        assert((a + b).drop_last() =~= a + b.drop_last());
        assert((a + b).last() == b.last());
        lemma_without_dashes_concat(a, b.drop_last());
        if b.last() == '-' {
        } else {
            assert(without_dashes(a) + without_dashes(b.drop_last()).push(b.last()) =~= (
            without_dashes(a) + without_dashes(b.drop_last())).push(b.last()));
        }
    }
}

/// A text without dashes is left as it is.
proof fn lemma_without_dashes_none(a: Seq<char>)
    requires
        forall|i: int| 0 <= i < a.len() ==> #[trigger] a[i] != '-',
    ensures
        without_dashes(a) == a,
    decreases a.len(),
{
    if a.len() > 0 {
        lemma_without_dashes_none(a.drop_last());
        assert(a.drop_last().push(a.last()) =~= a);
    }
}

/// Leaving dashes out keeps a text ASCII.
proof fn lemma_without_dashes_ascii(a: Seq<char>)
    requires
        is_ascii_text(a),
    ensures
        is_ascii_text(without_dashes(a)),
    decreases a.len(),
{
    if a.len() > 0 {
        assert(is_ascii_text(a.drop_last())) by {
            assert forall|i: int| 0 <= i < a.drop_last().len() implies (
            #[trigger] a.drop_last()[i] as u32) < 0x80 by {
                assert(a.drop_last()[i] == a[i]);
            }
        }
        lemma_without_dashes_ascii(a.drop_last());
        let w = without_dashes(a.drop_last());
        if a.last() != '-' {
            assert forall|i: int| 0 <= i < w.push(a.last()).len() implies (
            #[trigger] w.push(a.last())[i] as u32) < 0x80 by {
                if i < w.len() {
                    assert(w.push(a.last())[i] == w[i]);
                }
            }
        }
    }
}

/// The suffix of a UUID text can always be cut, and it is the UUID's first
/// four characters in uppercase.
proof fn lemma_uuid_suffix(id: Seq<char>, up: Seq<char>)
    requires
        uuid_text(id),
        up == ascii_upper(id),
        uppercase(id) == up,
    ensures
        suffix_cuttable(id),
        token_suffix_text(id) == ascii_upper(id.take(4)),
{
    assert forall|i: int| 0 <= i < up.len() implies (#[trigger] up[i] as u32) < 0x80
        && (i < 8 ==> up[i] != '-') by {
        assert(up[i] == ascii_upper_char(id[i]));
        let c = id[i];
        if 'a' <= c <= 'z' {
            assert(((c as u32) - 32) as char as u32 == (c as u32) - 32);
        }
    }
    assert(is_ascii_text(up));
    let head = up.take(8);
    let tail = up.skip(8);
    assert(up =~= head + tail);
    assert forall|i: int| 0 <= i < head.len() implies #[trigger] head[i] != '-' by {
        assert(head[i] == up[i]);
    }
    lemma_without_dashes_none(head);
    lemma_without_dashes_concat(head, tail);
    let w = without_dashes(up);
    assert(w == head + without_dashes(tail));
    lemma_without_dashes_ascii(up);
    assert(w.len() >= 8);
    lemma_ascii_encode(w, 4);
    let bytes = encode_utf8(w);
    vstd::utf8::encode_utf8_valid_utf8(w);
    assert(bytes[4] < 0x80);
    vstd::utf8::is_char_boundary_iff_not_is_continuation_byte(bytes, 4);
    assert(w.take(4) =~= up.take(4));
    assert(up.take(4) =~= ascii_upper(id.take(4)));
    vstd::utf8::encode_utf8_decode_utf8(w.take(4));
}

/// A fresh run token: `MS-`, today's UTC date, `-`, and the first four
/// characters of a random UUID in uppercase.  The date and the identifier
/// come from the clock and from chance; the result is the token of what
/// they gave.
pub fn generate_token() -> (r: String)
    ensures
        exists|secs: i64, nanos: u32, id: Seq<char>| #[trigger] token_made(r@, secs, nanos, id),
{
    let now = utc_now();
    let id = random_id_text();
    proof {
        assert(is_ascii_text(id@)) by {
            assert forall|i: int| 0 <= i < id@.len() implies (#[trigger] id@[i] as u32) < 0x80 by {
                assert(i == 8 || i == 13 || i == 18 || i == 23 || is_lower_hex(id@[i]));
            }
        }
        reveal_strlit("%Y%m%d");
    }
    let date = format_utc(now, "%Y%m%d").unwrap();
    let r = token_from(date.as_str(), id.as_str());
    proof {
        lemma_uuid_suffix(id@, ascii_upper(id@));
    }
    let t = r.unwrap();
    assert(token_made(t@, now.secs, now.nanos, id@));
    t
}

/// Where the password of an IMAP seed account is kept.
pub fn imap_keychain_ref(seed_email: &str, host: &str) -> (r: String)
    ensures
        r@ == "imap:"@ + seed_email@ + ":"@ + host@,
{
    let mut r = owned("imap:");
    push_str(&mut r, seed_email);
    push_str(&mut r, ":");
    push_str(&mut r, host);
    r
}

/// Where the refresh token of an OAuth seed account is kept.
pub fn oauth_keychain_ref(provider: &str, seed_email: &str) -> (r: String)
    ensures
        r@ == "oauth:"@ + provider@ + ":"@ + seed_email@,
{
    let mut r = owned("oauth:");
    push_str(&mut r, provider);
    push_str(&mut r, ":");
    push_str(&mut r, seed_email);
    r
}

/// The placement counts that close a run.
#[derive(Debug, Clone, Copy, PartialEq, Eq, Structural)]
pub struct RunTally {
    /// Results in the inbox.
    pub inbox: u64,
    /// Results in spam or junk.
    pub spam: u64,
    /// Results still missing.
    pub missing: u64,
    /// All results.
    pub total: u64,
}

/// The placement counts of a run's results.
pub fn tally_results(results: &[TestResult]) -> (t: RunTally)
    ensures
        t.inbox == count_placed(results@, "inbox"@),
        t.spam == count_placed(results@, "spam"@) + count_placed(results@, "junk"@),
        t.missing == count_placed(results@, "missing"@),
        t.total == results@.len(),
{
    let inbox = crate::reporting::count_placement(results, "inbox");
    let spam = crate::reporting::count_placement(results, "spam");
    let junk = crate::reporting::count_placement(results, "junk");
    let missing = crate::reporting::count_placement(results, "missing");
    proof {
        reveal_strlit("spam");
        reveal_strlit("junk");
        assert("spam"@[0] != "junk"@[0]);
        crate::reporting::lemma_count_placed_disjoint(results@, "spam"@, "junk"@);
    }
    RunTally {
        inbox,
        spam: ((spam as u128) + (junk as u128)) as u64,
        missing,
        total: results.len() as u64,
    }
}

/// Every seed of a run has been matched: there are results and none is
/// missing.
pub open spec fn all_seeds_matched(rs: Seq<TestResult>) -> bool {
    rs.len() > 0 && forall|i: int| 0 <= i < rs.len() ==> #[trigger] rs[i].placement@ != "missing"@
}

/// Whether every seed of a run has been matched.
pub fn all_matched(results: &[TestResult]) -> (r: bool)
    ensures
        r == all_seeds_matched(results@),
{
    if results.len() == 0 {
        return false;
    }
    let mut i: usize = 0;
    while i < results.len()
        invariant
            i <= results@.len(),
            forall|j: int| 0 <= j < i ==> #[trigger] results@[j].placement@ != "missing"@,
        decreases results@.len() - i,
    {
        if same_text(results[i].placement.as_str(), "missing") {
            return false;
        }
        i = i + 1;
    }
    true
}

/// Whether a run was cancelled.
pub fn is_cancelled(run: &TestRun) -> (r: bool)
    ensures
        r == (run.status@ == "cancelled"@),
{
    same_text(run.status.as_str(), "cancelled")
}

} // verus!
