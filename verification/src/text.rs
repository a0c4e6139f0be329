//! Text primitives shared by the parsers, classifiers and report writers.
//!
//! Strings are reasoned about through their `char` views (`Seq<char>`); the
//! few places where the byte layout of a `str` matters use vstd's UTF-8
//! model (`encode_utf8`).
use vstd::prelude::*;

verus! {

// ───────────────────────────── std functions ─────────────────────────────

/// What `str::to_lowercase` returns for a given text.  The Unicode lowercase
/// mapping (with its context-dependent rules) is not restated here.
pub uninterp spec fn lowercase(s: Seq<char>) -> Seq<char>;

/// What `str::to_uppercase` returns for a given text.
pub uninterp spec fn uppercase(s: Seq<char>) -> Seq<char>;

/// Every character of `s` is ASCII.
pub open spec fn is_ascii_text(s: Seq<char>) -> bool {
    forall|i: int| 0 <= i < s.len() ==> (#[trigger] s[i] as u32) < 0x80
}

/// An ASCII letter `A`..`Z` in lowercase; any other character as it is.
pub open spec fn ascii_lower_char(c: char) -> char {
    if 'A' <= c <= 'Z' {
        ((c as u32) + 32) as char
    } else {
        c
    }
}

/// An ASCII letter `a`..`z` in uppercase; any other character as it is.
pub open spec fn ascii_upper_char(c: char) -> char {
    if 'a' <= c <= 'z' {
        ((c as u32) - 32) as char
    } else {
        c
    }
}

/// A text with its ASCII capitals made small, character by character.
pub open spec fn ascii_lower(s: Seq<char>) -> Seq<char> {
    s.map_values(|c: char| ascii_lower_char(c))
}

/// A text with its small ASCII letters made capital, character by character.
pub open spec fn ascii_upper(s: Seq<char>) -> Seq<char> {
    s.map_values(|c: char| ascii_upper_char(c))
}

/// Calls `str::to_lowercase`; the result is the Unicode lowercase mapping of
/// `s`, a function of `s` alone.  On ASCII text that mapping turns `A`..`Z`
/// into `a`..`z` one character at a time and leaves everything else as it is.
#[verifier::external_body]
pub(crate) fn to_lowercase(s: &str) -> (r: String)
    ensures
        r@ == lowercase(s@),
        s@.len() == 0 ==> r@.len() == 0,
        is_ascii_text(s@) ==> r@ == ascii_lower(s@),
{
    s.to_lowercase()
}

/// Calls `str::to_uppercase`; the result is the Unicode uppercase mapping of
/// `s`, a function of `s` alone.  On ASCII text that mapping turns `a`..`z`
/// into `A`..`Z` one character at a time and leaves everything else as it is.
#[verifier::external_body]
pub(crate) fn to_uppercase(s: &str) -> (r: String)
    ensures
        r@ == uppercase(s@),
        is_ascii_text(s@) ==> r@ == ascii_upper(s@),
{
    s.to_uppercase()
}

/// The Unicode `White_Space` property, the set that `char::is_whitespace`
/// documents: U+0009..U+000D, U+0020, U+0085, U+00A0, U+1680,
/// U+2000..U+200A, U+2028, U+2029, U+202F, U+205F and U+3000.
pub open spec fn is_white_space(c: char) -> bool {
    let u = c as u32;
    ||| 0x09 <= u <= 0x0D
    ||| u == 0x20
    ||| u == 0x85
    ||| u == 0xA0
    ||| u == 0x1680
    ||| 0x2000 <= u <= 0x200A
    ||| u == 0x2028
    ||| u == 0x2029
    ||| u == 0x202F
    ||| u == 0x205F
    ||| u == 0x3000
}

/// Calls `char::is_whitespace`, which holds exactly of the `White_Space`
/// code points listed in [`is_white_space`].
#[verifier::external_body]
pub(crate) fn char_is_whitespace(c: char) -> (b: bool)
    ensures
        b == is_white_space(c),
{
    c.is_whitespace()
}

/// Calls `String::push`, which appends one `char`.
#[verifier::external_body]
pub(crate) fn push_char(s: &mut String, c: char)
    ensures
        final(s)@ == old(s)@.push(c),
{
    s.push(c)
}

/// Calls `String::push_str`, which appends a whole string slice.
#[verifier::external_body]
pub(crate) fn push_str(s: &mut String, t: &str)
    ensures
        final(s)@ == old(s)@ + t@,
{
    s.push_str(t)
}

/// The decimal digits of a natural number, most significant first, with no
/// leading zero (zero itself is `"0"`).
pub open spec fn nat_digits(n: nat) -> Seq<char>
    decreases n,
{
    if n < 10 {
        seq![(('0' as u32) + n) as char]
    } else {
        nat_digits(n / 10).push((('0' as u32) + n % 10) as char)
    }
}

/// The text that `Display` writes for an integer: an optional `-` and the
/// decimal digits of its magnitude.
pub open spec fn int_text(v: int) -> Seq<char> {
    if v < 0 {
        seq!['-'] + nat_digits((-v) as nat)
    } else {
        nat_digits(v as nat)
    }
}

/// Calls `ToString::to_string` on an `i64`, which writes its decimal form.
#[verifier::external_body]
pub(crate) fn i64_text(v: i64) -> (s: String)
    ensures
        s@ == int_text(v as int),
{
    v.to_string()
}

/// Calls `ToString::to_string` on a `u64`, which writes its decimal form.
#[verifier::external_body]
pub(crate) fn u64_text(v: u64) -> (s: String)
    ensures
        s@ == int_text(v as int),
{
    v.to_string()
}

// ───────────────────────────── conversions ─────────────────────────────

/// The characters of a string slice, in order.
pub fn chars_of(s: &str) -> (v: Vec<char>)
    ensures
        v@ == s@,
{
    let mut v: Vec<char> = Vec::new();
    for c in it: s.chars()
        invariant
            it.seq() == s@,
            v@ == it.seq().take(it.index() as int),
    {
        v.push(c);
    }
    v
}

/// A string made of the given characters.
pub fn string_of(v: &[char]) -> (s: String)
    ensures
        s@ == v@,
{
    let mut s = String::new();
    let mut i: usize = 0;
    while i < v.len()
        invariant
            i <= v@.len(),
            s@ == v@.take(i as int),
        decreases v@.len() - i,
    {
        push_char(&mut s, v[i]);
        assert(v@.take(i + 1) == v@.take(i as int).push(v@[i as int]));
        i = i + 1;
    }
    assert(v@.take(v@.len() as int) == v@);
    s
}

/// A copy of a string slice as an owned `String`.
pub fn owned(s: &str) -> (r: String)
    ensures
        r@ == s@,
{
    let mut r = String::new();
    push_str(&mut r, s);
    assert(r@ == s@);
    r
}

/// Whether two strings hold the same characters.
pub fn same_text(a: &str, b: &str) -> (r: bool)
    ensures
        r == (a@ == b@),
{
    let x = chars_of(a);
    let y = chars_of(b);
    seq_equal(&x, &y)
}

/// Whether two character slices are equal.
pub fn seq_equal(a: &[char], b: &[char]) -> (r: bool)
    ensures
        r == (a@ == b@),
{
    if a.len() != b.len() {
        return false;
    }
    let mut i: usize = 0;
    while i < a.len()
        invariant
            a@.len() == b@.len(),
            i <= a@.len(),
            forall|j: int| 0 <= j < i ==> a@[j] == b@[j],
        decreases a@.len() - i,
    {
        if a[i] != b[i] {
            return false;
        }
        i = i + 1;
    }
    assert(a@ =~= b@);
    true
}


// ───────────────────────────── searching ─────────────────────────────

/// `pat` occurs in `s` starting at index `i`.
pub open spec fn occurs_at<A>(s: Seq<A>, pat: Seq<A>, i: int) -> bool {
    0 <= i && i + pat.len() <= s.len() && s.subrange(i, i + pat.len()) == pat
}

/// The first index at or after `i` at which `pat` occurs in `s`.
pub open spec fn find_from<A>(s: Seq<A>, pat: Seq<A>, i: int) -> Option<int>
    decreases s.len() - i,
{
    if i < 0 || i + pat.len() > s.len() {
        None
    } else if occurs_at(s, pat, i) {
        Some(i)
    } else {
        proof {
            if pat.len() == 0 {
                assert(s.subrange(i, i) =~= pat);
            }
        }
        find_from(s, pat, i + 1)
    }
}

/// The first index at which `pat` occurs in `s`, as `str::find` reports it.
pub open spec fn first_occurrence<A>(s: Seq<A>, pat: Seq<A>) -> Option<int> {
    find_from(s, pat, 0)
}

/// `s` contains `pat` as a contiguous run.
pub open spec fn contains_seq<A>(s: Seq<A>, pat: Seq<A>) -> bool {
    first_occurrence(s, pat) is Some
}

/// What `find_from` reports: the index found holds an occurrence, and no
/// earlier index from `i` on does.
pub proof fn lemma_find_from<A>(s: Seq<A>, pat: Seq<A>, i: int)
    requires
        0 <= i,
    ensures
        find_from(s, pat, i) matches Some(k) ==> i <= k && occurs_at(s, pat, k) && (forall|j: int|
            i <= j < k ==> !occurs_at(s, pat, j)),
        find_from(s, pat, i) is None ==> forall|j: int| i <= j ==> !occurs_at(s, pat, j),
    decreases s.len() - i,
{
    if i + pat.len() > s.len() {
    } else if occurs_at(s, pat, i) {
    } else {
        if pat.len() == 0 {
            assert(s.subrange(i, i) =~= pat);
        }
        lemma_find_from(s, pat, i + 1);
    }
}

/// Whether `pat` occurs in `v` at index `i` (bytes).
fn bytes_occur_at(v: &[u8], pat: &[u8], i: usize) -> (r: bool)
    requires
        i + pat@.len() <= v@.len(),
    ensures
        r == occurs_at(v@, pat@, i as int),
{
    let mut j: usize = 0;
    let n = v.len();
    while j < pat.len()
        invariant
            n == v@.len(),
            i + pat@.len() <= v@.len(),
            j <= pat@.len(),
            forall|k: int| 0 <= k < j ==> v@[i + k] == pat@[k],
        decreases pat@.len() - j,
    {
        assert(i + j < v@.len());
        if v[i + j] != pat[j] {
            assert(v@.subrange(i as int, i + pat@.len())[j as int] != pat@[j as int]);
            return false;
        }
        j = j + 1;
    }
    assert(v@.subrange(i as int, i + pat@.len()) =~= pat@);
    true
}

/// The first index at which `pat` occurs in `v` (bytes).
pub fn find_bytes(v: &[u8], pat: &[u8]) -> (r: Option<usize>)
    ensures
        r matches Some(k) ==> first_occurrence(v@, pat@) == Some(k as int),
        r is None ==> first_occurrence(v@, pat@) is None,
{
    let mut i: usize = 0;
    if pat.len() > v.len() {
        return None;
    }
    while i <= v.len() - pat.len()
        invariant
            pat@.len() <= v@.len(),
            i <= v@.len() - pat@.len(),
            find_from(v@, pat@, 0) == find_from(v@, pat@, i as int),
        decreases v@.len() - pat@.len() - i,
    {
        if bytes_occur_at(v, pat, i) {
            return Some(i);
        }
        if i == v.len() - pat.len() {
            assert(find_from(v@, pat@, i + 1) is None);
            return None;
        }
        i = i + 1;
    }
    None
}

/// Whether `pat` occurs in `v` at index `i` (characters).
fn chars_occur_at(v: &[char], pat: &[char], i: usize) -> (r: bool)
    requires
        i + pat@.len() <= v@.len(),
    ensures
        r == occurs_at(v@, pat@, i as int),
{
    let mut j: usize = 0;
    let n = v.len();
    while j < pat.len()
        invariant
            n == v@.len(),
            i + pat@.len() <= v@.len(),
            j <= pat@.len(),
            forall|k: int| 0 <= k < j ==> v@[i + k] == pat@[k],
        decreases pat@.len() - j,
    {
        assert(i + j < v@.len());
        if v[i + j] != pat[j] {
            assert(v@.subrange(i as int, i + pat@.len())[j as int] != pat@[j as int]);
            return false;
        }
        j = j + 1;
    }
    assert(v@.subrange(i as int, i + pat@.len()) =~= pat@);
    true
}

/// The first index at which `pat` occurs in `v` (characters).
pub fn find_chars(v: &[char], pat: &[char]) -> (r: Option<usize>)
    ensures
        r matches Some(k) ==> first_occurrence(v@, pat@) == Some(k as int),
        r is None ==> first_occurrence(v@, pat@) is None,
{
    let mut i: usize = 0;
    if pat.len() > v.len() {
        return None;
    }
    while i <= v.len() - pat.len()
        invariant
            pat@.len() <= v@.len(),
            i <= v@.len() - pat@.len(),
            find_from(v@, pat@, 0) == find_from(v@, pat@, i as int),
        decreases v@.len() - pat@.len() - i,
    {
        if chars_occur_at(v, pat, i) {
            return Some(i);
        }
        if i == v.len() - pat.len() {
            assert(find_from(v@, pat@, i + 1) is None);
            return None;
        }
        i = i + 1;
    }
    None
}

/// Whether `s` contains `pat` (as `str::contains` with a string pattern).
pub fn text_contains(s: &str, pat: &str) -> (r: bool)
    ensures
        r == contains_seq(s@, pat@),
{
    let v = chars_of(s);
    let p = chars_of(pat);
    find_chars(&v, &p).is_some()
}

/// `s` ends with `suffix`.
pub open spec fn ends_with(s: Seq<char>, suffix: Seq<char>) -> bool {
    suffix.len() <= s.len() && s.subrange(s.len() - suffix.len(), s.len() as int) == suffix
}

/// Whether `s` ends with `suffix` (as `str::ends_with` with a string pattern).
pub fn text_ends_with(s: &str, suffix: &str) -> (r: bool)
    ensures
        r == ends_with(s@, suffix@),
{
    let v = chars_of(s);
    let p = chars_of(suffix);
    if p.len() > v.len() {
        return false;
    }
    let off = v.len() - p.len();
    let r = chars_occur_at(&v, &p, off);
    r
}

/// `s` starts with `prefix`.
pub open spec fn starts_with(s: Seq<char>, prefix: Seq<char>) -> bool {
    prefix.len() <= s.len() && s.take(prefix.len() as int) == prefix
}

/// Whether `s` starts with `prefix` (as `str::starts_with` with a string
/// pattern).
pub fn text_starts_with(s: &str, prefix: &str) -> (r: bool)
    ensures
        r == starts_with(s@, prefix@),
{
    let v = chars_of(s);
    let p = chars_of(prefix);
    if p.len() > v.len() {
        return false;
    }
    let r = chars_occur_at(&v, &p, 0);
    assert(v@.subrange(0, p@.len() as int) == v@.take(p@.len() as int));
    r
}

/// Whether the character `c` occurs in `s`.
pub fn has_char(s: &str, c: char) -> (r: bool)
    ensures
        r == s@.contains(c),
{
    let v = chars_of(s);
    let mut i: usize = 0;
    while i < v.len()
        invariant
            v@ == s@,
            i <= v@.len(),
            forall|j: int| 0 <= j < i ==> v@[j] != c,
        decreases v@.len() - i,
    {
        if v[i] == c {
            assert(s@[i as int] == c);
            return true;
        }
        i = i + 1;
    }
    false
}

// ───────────────────────────── trimming and splitting ─────────────────────────────

/// Character sets that strings get trimmed or split by.
pub enum CharClass {
    /// `char::is_whitespace`.
    WhiteSpace,
    /// `<` and `>`.
    AngleBracket,
    /// `"`.
    DoubleQuote,
    /// `;`, space, `\n` and `\r`: what ends a value in an
    /// `Authentication-Results` header.
    ResultEnd,
}

/// Membership of `c` in a character set.
pub open spec fn in_class(k: CharClass, c: char) -> bool {
    match k {
        CharClass::WhiteSpace => is_white_space(c),
        CharClass::AngleBracket => c == '<' || c == '>',
        CharClass::DoubleQuote => c == '"',
        CharClass::ResultEnd => c == ';' || c == ' ' || c == '\n' || c == '\r',
    }
}

/// Whether `c` is in the set `k`.
pub fn class_has(k: &CharClass, c: char) -> (r: bool)
    ensures
        r == in_class(*k, c),
{
    match k {
        CharClass::WhiteSpace => char_is_whitespace(c),
        CharClass::AngleBracket => c == '<' || c == '>',
        CharClass::DoubleQuote => c == '"',
        CharClass::ResultEnd => c == ';' || c == ' ' || c == '\n' || c == '\r',
    }
}

/// `s` without its leading characters from `k`.
pub open spec fn trim_start_by(s: Seq<char>, k: CharClass) -> Seq<char>
    decreases s.len(),
{
    if s.len() > 0 && in_class(k, s[0]) {
        trim_start_by(s.drop_first(), k)
    } else {
        s
    }
}

/// `s` without its trailing characters from `k`.
pub open spec fn trim_end_by(s: Seq<char>, k: CharClass) -> Seq<char>
    decreases s.len(),
{
    if s.len() > 0 && in_class(k, s.last()) {
        trim_end_by(s.drop_last(), k)
    } else {
        s
    }
}

/// `s` without its leading and trailing characters from `k`
/// (`str::trim_matches`).
pub open spec fn trim_by(s: Seq<char>, k: CharClass) -> Seq<char> {
    trim_end_by(trim_start_by(s, k), k)
}

/// `s` without leading and trailing white space (`str::trim`).
pub open spec fn trim(s: Seq<char>) -> Seq<char> {
    trim_by(s, CharClass::WhiteSpace)
}

/// The characters of `v` from `lo` up to `hi`.
pub fn slice_chars(v: &[char], lo: usize, hi: usize) -> (r: Vec<char>)
    requires
        lo <= hi <= v@.len(),
    ensures
        r@ == v@.subrange(lo as int, hi as int),
{
    let mut r: Vec<char> = Vec::new();
    let mut i = lo;
    while i < hi
        invariant
            lo <= i <= hi <= v@.len(),
            r@ == v@.subrange(lo as int, i as int),
        decreases hi - i,
    {
        r.push(v[i]);
        assert(v@.subrange(lo as int, i + 1) == v@.subrange(lo as int, i as int).push(v@[i as int]));
        i = i + 1;
    }
    r
}

/// `v` without its leading and trailing characters from `k`.
pub fn trim_chars(v: &[char], k: CharClass) -> (r: Vec<char>)
    ensures
        r@ == trim_by(v@, k),
{
    let mut start: usize = 0;
    assert(v@.subrange(0, v@.len() as int) =~= v@);
    while start < v.len() && class_has(&k, v[start])
        invariant
            start <= v@.len(),
            trim_start_by(v@, k) == trim_start_by(v@.subrange(start as int, v@.len() as int), k),
        decreases v@.len() - start,
    {
        assert(v@.subrange(start as int, v@.len() as int).drop_first() =~= v@.subrange(
            start + 1,
            v@.len() as int,
        ));
        start = start + 1;
    }
    let ghost t = v@.subrange(start as int, v@.len() as int);
    assert(trim_start_by(v@, k) == t);
    let mut end: usize = v.len();
    while end > start && class_has(&k, v[end - 1])
        invariant
            start <= end <= v@.len(),
            t == v@.subrange(start as int, v@.len() as int),
            trim_end_by(t, k) == trim_end_by(v@.subrange(start as int, end as int), k),
        decreases end - start,
    {
        assert(v@.subrange(start as int, end as int).drop_last() =~= v@.subrange(
            start as int,
            end - 1,
        ));
        end = end - 1;
    }
    slice_chars(v, start, end)
}

/// `s` without leading and trailing white space (`str::trim`).
pub fn trim_text(s: &str) -> (r: String)
    ensures
        r@ == trim(s@),
{
    let v = chars_of(s);
    let t = trim_chars(&v, CharClass::WhiteSpace);
    string_of(&t)
}

/// The characters of `s` before the first one from `k`: the first piece
/// that `str::split` with that set yields.
pub open spec fn before_class(s: Seq<char>, k: CharClass) -> Seq<char>
    decreases s.len(),
{
    if s.len() == 0 || in_class(k, s[0]) {
        seq![]
    } else {
        seq![s[0]] + before_class(s.drop_first(), k)
    }
}

/// The characters of `v` before the first one from `k`.
pub fn chars_before_class(v: &[char], k: CharClass) -> (r: Vec<char>)
    ensures
        r@ == before_class(v@, k),
{
    let mut i: usize = 0;
    assert(v@.subrange(0, v@.len() as int) =~= v@);
    assert(v@.subrange(0, 0) =~= Seq::<char>::empty());
    while i < v.len() && !class_has(&k, v[i])
        invariant
            i <= v@.len(),
            before_class(v@, k) == v@.subrange(0, i as int) + before_class(
                v@.subrange(i as int, v@.len() as int),
                k,
            ),
        decreases v@.len() - i,
    {
        let ghost rest = v@.subrange(i as int, v@.len() as int);
        assert(rest.drop_first() =~= v@.subrange(i + 1, v@.len() as int));
        assert(v@.subrange(0, i + 1) =~= v@.subrange(0, i as int) + seq![rest[0]]);
        i = i + 1;
    }
    assert(before_class(v@.subrange(i as int, v@.len() as int), k) =~= seq![]);
    slice_chars(v, 0, i)
}

/// The characters of `s` after the last `c`; all of `s` when it holds no
/// `c` (the last piece that `str::split` with `c` yields).
pub open spec fn after_last(s: Seq<char>, c: char) -> Seq<char>
    decreases s.len(),
{
    if s.len() == 0 {
        seq![]
    } else if s.last() == c {
        seq![]
    } else {
        after_last(s.drop_last(), c).push(s.last())
    }
}

/// The characters of `v` after the last `c`.
pub fn chars_after_last(v: &[char], c: char) -> (r: Vec<char>)
    ensures
        r@ == after_last(v@, c),
{
    let mut i: usize = v.len();
    assert(v@.subrange(0, v@.len() as int) =~= v@);
    assert(v@.subrange(v@.len() as int, v@.len() as int) =~= Seq::<char>::empty());
    while i > 0 && v[i - 1] != c
        invariant
            i <= v@.len(),
            after_last(v@, c) == after_last(v@.subrange(0, i as int), c) + v@.subrange(
                i as int,
                v@.len() as int,
            ),
        decreases i,
    {
        let ghost pre = v@.subrange(0, i as int);
        assert(pre.drop_last() =~= v@.subrange(0, i - 1));
        assert(v@.subrange(i - 1, v@.len() as int) =~= seq![pre.last()] + v@.subrange(
            i as int,
            v@.len() as int,
        ));
        assert(after_last(pre, c) == after_last(pre.drop_last(), c).push(pre.last()));
        assert(after_last(pre.drop_last(), c).push(pre.last()) + v@.subrange(i as int, v@.len() as int)
            =~= after_last(pre.drop_last(), c) + v@.subrange(i - 1, v@.len() as int));
        i = i - 1;
    }
    assert(after_last(v@.subrange(0, i as int), c) =~= seq![]);
    slice_chars(v, i, v.len())
}

/// The parts joined with `sep` between each two of them.
pub open spec fn join(parts: Seq<Seq<char>>, sep: Seq<char>) -> Seq<char>
    decreases parts.len(),
{
    if parts.len() == 0 {
        seq![]
    } else if parts.len() == 1 {
        parts[0]
    } else {
        join(parts.drop_last(), sep) + sep + parts.last()
    }
}

/// `join` of one more part.
pub proof fn lemma_join_push(parts: Seq<Seq<char>>, sep: Seq<char>, x: Seq<char>)
    ensures
        join(parts.push(x), sep) == if parts.len() == 0 {
            x
        } else {
            join(parts, sep) + sep + x
        },
{
    assert(parts.push(x).drop_last() =~= parts);
}

/// The texts joined with `sep` between each two of them.
pub fn join_texts(parts: &Vec<String>, sep: &str) -> (r: String)
    ensures
        r@ == join(parts@.map_values(|p: String| p@), sep@),
{
    let ghost pv = parts@.map_values(|p: String| p@);
    let mut r = String::new();
    let mut i: usize = 0;
    assert(pv.take(0) =~= Seq::<Seq<char>>::empty());
    while i < parts.len()
        invariant
            pv == parts@.map_values(|p: String| p@),
            i <= pv.len(),
            r@ == join(pv.take(i as int), sep@),
        decreases pv.len() - i,
    {
        proof {
            lemma_join_push(pv.take(i as int), sep@, pv[i as int]);
        }
        assert(pv.take(i + 1) =~= pv.take(i as int).push(pv[i as int]));
        if i > 0 {
            push_str(&mut r, sep);
        }
        push_str(&mut r, parts[i].as_str());
        i = i + 1;
    }
    assert(pv.take(pv.len() as int) =~= pv);
    r
}


// ───────────────────────────── URL form encoding ─────────────────────────────

/// The uppercase hexadecimal digit of a value below sixteen.
pub open spec fn hex_digit(n: int) -> char {
    if n < 10 {
        (('0' as u32) + n) as char
    } else {
        (('A' as u32) + (n - 10)) as char
    }
}

/// The `application/x-www-form-urlencoded` text of one byte: ASCII letters,
/// digits, `*`, `-`, `.` and `_` stay; a space becomes `+`; any other byte
/// becomes `%` and two uppercase hexadecimal digits.
pub open spec fn form_byte(b: u8) -> Seq<char> {
    if (0x30 <= b <= 0x39) || (0x41 <= b <= 0x5A) || (0x61 <= b <= 0x7A) || b == 0x2A || b == 0x2D
        || b == 0x2E || b == 0x5F {
        seq![b as char]
    } else if b == 0x20 {
        seq!['+']
    } else {
        seq!['%', hex_digit(b as int / 16), hex_digit(b as int % 16)]
    }
}

/// The `application/x-www-form-urlencoded` text of a byte sequence.
pub open spec fn form_encoded(bytes: Seq<u8>) -> Seq<char>
    decreases bytes.len(),
{
    if bytes.len() == 0 {
        seq![]
    } else {
        form_encoded(bytes.drop_last()) + form_byte(bytes.last())
    }
}

/// Calls `url::form_urlencoded::byte_serialize` on the UTF-8 bytes of `s`
/// and collects the pieces: each byte encoded as [`form_byte`] says.
#[verifier::external_body]
pub(crate) fn form_urlencode(s: &str) -> (r: String)
    ensures
        r@ == form_encoded(vstd::utf8::encode_utf8(s@)),
{
    url::form_urlencoded::byte_serialize(s.as_bytes()).collect()
}

} // verus!
