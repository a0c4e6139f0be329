//! Recognising the test message among the messages of a mailbox.
use vstd::prelude::*;

use crate::headers::{lookup, HeaderMap};
use crate::header_parser::opt_text;
use crate::text::{contains_seq, same_text, text_contains};

verus! {

/// How sure a match is, weakest first.
#[derive(Debug, Clone, Copy, PartialEq, Eq, Structural)]
pub enum MatchScore {
    NoMatch,
    Weak,
    Strong,
    Definitive,
}

/// The strength of a score: its position in the order `NoMatch < Weak <
/// Strong < Definitive`.
pub open spec fn score_rank(s: MatchScore) -> int {
    match s {
        MatchScore::NoMatch => 0,
        MatchScore::Weak => 1,
        MatchScore::Strong => 2,
        MatchScore::Definitive => 3,
    }
}

impl MatchScore {
    /// Whether the score is at least `Strong`.
    pub fn is_match(&self) -> (r: bool)
        ensures
            r == (score_rank(*self) >= score_rank(MatchScore::Strong)),
    {
        match self {
            MatchScore::Strong | MatchScore::Definitive => true,
            MatchScore::NoMatch | MatchScore::Weak => false,
        }
    }
}

/// The score of a message against a run's tokens: the custom header carrying
/// the subject token is definitive; the subject token in the subject, or the
/// body token in the body, is strong; anything else is no match.
pub open spec fn criteria_score(
    subject: Seq<char>,
    body: Option<Seq<char>>,
    headers: Seq<(Seq<char>, Seq<char>)>,
    subject_token: Seq<char>,
    body_token: Seq<char>,
) -> MatchScore {
    if lookup(headers, "x-mailscope-token"@) == Some(subject_token) {
        MatchScore::Definitive
    } else if contains_seq(subject, subject_token) {
        MatchScore::Strong
    } else if body matches Some(b) && contains_seq(b, body_token) {
        MatchScore::Strong
    } else {
        MatchScore::NoMatch
    }
}

/// An optional string slice by its characters.
pub open spec fn opt_str(o: Option<&str>) -> Option<Seq<char>> {
    match o {
        Some(s) => Some(s@),
        None => None,
    }
}

/// What compiling `pattern` with `regex::Regex::new` and searching
/// `haystack` with `Regex::find` yields: the text of the leftmost-first match;
/// none when the pattern does not compile or nothing matches.
pub uninterp spec fn regex_first_match(pattern: Seq<char>, haystack: Seq<char>) -> Option<
    Seq<char>,
>;

/// The pattern of a run token in brackets, as subjects carry it:
/// `[MS-` eight digits `-` four uppercase hexadecimal digits `]`.
pub open spec fn token_pattern() -> Seq<char> {
    "\\[MS-\\d{8}-[0-9A-F]{4}\\]"@
}

/// Whether `\d` takes `c`.  With Unicode on (the `regex` default) `\d` is
/// the Unicode category Nd: among ASCII characters exactly `0`..`9`; for
/// any other character, whatever `\d` finds in that character alone.
pub open spec fn regex_digit(c: char) -> bool {
    if (c as u32) < 0x80 {
        '0' <= c <= '9'
    } else {
        regex_first_match("\\d"@, seq![c]) is Some
    }
}

/// An uppercase hexadecimal digit, as `[0-9A-F]` takes it.
pub open spec fn upper_hex(c: char) -> bool {
    ('0' <= c <= '9') || ('A' <= c <= 'F')
}

/// The token pattern matches the eighteen characters of `h` from `i`.
pub open spec fn token_at(h: Seq<char>, i: int) -> bool {
    &&& 0 <= i && i + 18 <= h.len()
    &&& h[i] == '['
    &&& h[i + 1] == 'M'
    &&& h[i + 2] == 'S'
    &&& h[i + 3] == '-'
    &&& forall|k: int| 4 <= k < 12 ==> #[trigger] regex_digit(h[i + k])
    &&& h[i + 12] == '-'
    &&& forall|k: int| 13 <= k < 17 ==> #[trigger] upper_hex(h[i + k])
    &&& h[i + 17] == ']'
}

/// The text of the first place at or after `i` where the token pattern
/// matches `h`.
pub open spec fn token_from_index(h: Seq<char>, i: int) -> Option<Seq<char>>
    decreases h.len() - i,
{
    if i < 0 || i + 18 > h.len() {
        None
    } else if token_at(h, i) {
        Some(h.subrange(i, i + 18))
    } else {
        token_from_index(h, i + 1)
    }
}

/// The leftmost match of the token pattern in `h`.  The pattern has one
/// fixed length and no alternatives, so its leftmost-first match is the
/// match that starts leftmost.
pub open spec fn first_token(h: Seq<char>) -> Option<Seq<char>> {
    token_from_index(h, 0)
}

/// Calls `regex::Regex::new` on `pattern` and `Regex::find` on `haystack`,
/// and returns the matched text.  The contract names the result; for the
/// token pattern it also says what `find` documents: the leftmost-first
/// match, which for that pattern is [`first_token`].
#[verifier::external_body]
fn regex_find(pattern: &str, haystack: &str) -> (r: Option<String>)
    ensures
        opt_text(r) == regex_first_match(pattern@, haystack@),
        pattern@ == token_pattern() ==> opt_text(r) == first_token(haystack@),
{
    match regex::Regex::new(pattern) {
        Ok(re) => re.find(haystack).map(|m| m.as_str().to_string()),
        Err(_) => None,
    }
}

/// Recognises test messages by their tokens.
pub struct MessageMatcher;

impl MessageMatcher {
    /// Whether the subject contains the token.
    pub fn subject_contains_token(subject: &str, token: &str) -> (r: bool)
        ensures
            r == contains_seq(subject@, token@),
    {
        text_contains(subject, token)
    }

    /// Whether the body contains the token.
    pub fn body_contains_token(body: &str, token: &str) -> (r: bool)
        ensures
            r == contains_seq(body@, token@),
    {
        text_contains(body, token)
    }

    /// The first bracketed run token in a subject, brackets included.
    pub fn extract_token_from_subject(subject: &str) -> (r: Option<String>)
        ensures
            opt_text(r) == regex_first_match(token_pattern(), subject@),
            opt_text(r) == first_token(subject@),
    {
        regex_find("\\[MS-\\d{8}-[0-9A-F]{4}\\]", subject)
    }

    /// The score of a message against a run's tokens.
    pub fn matches_criteria(
        subject: &str,
        body: Option<&str>,
        headers: &HeaderMap,
        subject_token: &str,
        body_token: &str,
    ) -> (r: MatchScore)
        ensures
            r == criteria_score(subject@, opt_str(body), headers@, subject_token@, body_token@),
    {
        if let Some(header_token) = headers.get("x-mailscope-token") {
            if same_text(header_token.as_str(), subject_token) {
                return MatchScore::Definitive;
            }
        }
        if Self::subject_contains_token(subject, subject_token) {
            return MatchScore::Strong;
        }
        if let Some(body) = body {
            if Self::body_contains_token(body, body_token) {
                return MatchScore::Strong;
            }
        }
        MatchScore::NoMatch
    }
}

} // verus!
