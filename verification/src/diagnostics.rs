//! Deliverability diagnostics: which provider an address belongs to, which
//! DNS records matter, and which problems a run's results point at.
use vstd::prelude::*;
use vstd::relations::{sorted_by, total_ordering};

use crate::header_parser::opt_text;
use crate::models::{TestResult, TestRun};
use vstd::utf8::encode_utf8;

use crate::text::{
    after_last, form_encoded, form_urlencode, chars_after_last, chars_of, contains_seq, ends_with, find_chars, lowercase, owned,
    push_str, same_text, string_of, text_ends_with, to_lowercase, trim_by, trim_chars, u64_text,
    CharClass,
};

verus! {

// ───────────────────────────── providers ─────────────────────────────

/// The mailbox provider of an address, by the domain after its last `@`
/// (the whole text when it has none), compared in lowercase.
pub open spec fn provider_of_email(email: Seq<char>) -> Seq<char> {
    let d = lowercase(after_last(email, '@'));
    if ends_with(d, "gmail.com"@) || ends_with(d, "googlemail.com"@) {
        "gmail"@
    } else if ends_with(d, "outlook.com"@) || ends_with(d, "hotmail.com"@) || ends_with(
        d,
        "live.com"@,
    ) || ends_with(d, "msn.com"@) {
        "microsoft"@
    } else {
        "imap"@
    }
}

/// The mailbox provider of an address: `gmail`, `microsoft` or `imap`.
pub fn lookup_provider(email: &str) -> (r: &'static str)
    ensures
        r@ == provider_of_email(email@),
{
    let ev = chars_of(email);
    let dv = chars_after_last(&ev, '@');
    let ds = string_of(&dv);
    let domain = to_lowercase(ds.as_str());
    let d = domain.as_str();
    if text_ends_with(d, "gmail.com") || text_ends_with(d, "googlemail.com") {
        "gmail"
    } else if text_ends_with(d, "outlook.com") || text_ends_with(d, "hotmail.com")
        || text_ends_with(d, "live.com") || text_ends_with(d, "msn.com") {
        "microsoft"
    } else {
        "imap"
    }
}

// ───────────────────────────── DNS records ─────────────────────────────

/// What the DNS of a sending domain publishes.
#[derive(Debug, Clone)]
pub struct DomainCheckResult {
    pub spf: Option<String>,
    pub dkim: Option<String>,
    pub dmarc: Option<String>,
    pub has_list_unsubscribe: bool,
    pub mx_records: Vec<String>,
}

impl DomainCheckResult {
    /// Nothing found.
    pub fn default() -> (r: DomainCheckResult)
        ensures
            r.spf is None,
            r.dkim is None,
            r.dmarc is None,
            !r.has_list_unsubscribe,
            r.mx_records@.len() == 0,
    {
        DomainCheckResult {
            spf: None,
            dkim: None,
            dmarc: None,
            has_list_unsubscribe: false,
            mx_records: Vec::new(),
        }
    }
}

/// The first TXT record (without surrounding `"`) whose lowercase text
/// contains `needle` in lowercase.
pub open spec fn txt_record_with(records: Seq<Seq<char>>, needle: Seq<char>) -> Option<Seq<char>>
    decreases records.len(),
{
    if records.len() == 0 {
        None
    } else {
        let r = trim_by(records[0], CharClass::DoubleQuote);
        if contains_seq(lowercase(r), lowercase(needle)) {
            Some(r)
        } else {
            txt_record_with(records.drop_first(), needle)
        }
    }
}

/// The first TXT record (without surrounding `"`) that mentions `needle`,
/// compared in lowercase.
pub fn select_txt_record(records: &Vec<String>, needle: &str) -> (r: Option<String>)
    ensures
        opt_text(r) == txt_record_with(records@.map_values(|s: String| s@), needle@),
{
    let ghost rv = records@.map_values(|s: String| s@);
    let lower_needle = to_lowercase(needle);
    let nv = chars_of(lower_needle.as_str());
    let mut i: usize = 0;
    assert(rv.subrange(0, rv.len() as int) =~= rv);
    while i < records.len()
        invariant
            rv == records@.map_values(|s: String| s@),
            nv@ == lowercase(needle@),
            i <= rv.len(),
            txt_record_with(rv, needle@) == txt_record_with(rv.subrange(i as int, rv.len() as int), needle@),
        decreases rv.len() - i,
    {
        assert(rv.subrange(i as int, rv.len() as int).drop_first() =~= rv.subrange(
            i + 1,
            rv.len() as int,
        ));
        let cv = chars_of(records[i].as_str());
        let tv = trim_chars(&cv, CharClass::DoubleQuote);
        let t = string_of(&tv);
        let lt = to_lowercase(t.as_str());
        let lv = chars_of(lt.as_str());
        if find_chars(&lv, &nv).is_some() {
            return Some(t);
        }
        i = i + 1;
    }
    None
}

/// The DNS name under which a domain publishes its DMARC policy.
pub fn dmarc_record_name(domain: &str) -> (r: String)
    ensures
        r@ == "_dmarc."@ + domain@,
{
    let mut r = owned("_dmarc.");
    push_str(&mut r, domain);
    r
}

/// The DNS-over-HTTPS query for the records of one type under a name: the
/// name form-encoded, the type as given.
pub fn doh_query_url(name: &str, record_type: &str) -> (r: String)
    ensures
        r@ == "https://dns.google/resolve?name="@ + form_encoded(encode_utf8(name@)) + "&type="@
            + record_type@,
{
    let mut r = owned("https://dns.google/resolve?name=");
    push_str(&mut r, form_urlencode(name).as_str());
    push_str(&mut r, "&type=");
    push_str(&mut r, record_type);
    r
}

// ───────────────────────────── result checks ─────────────────────────────

/// What `serde_json::from_str` makes of a text when read as a
/// `serde_json::Value`: none when the text is not JSON; otherwise the keys
/// of its top-level object, in the order the parsed map yields them, or
/// none inside when the value is not an object.
pub uninterp spec fn json_parsed_keys(text: Seq<char>) -> Option<Option<Seq<Seq<char>>>>;

/// The keys of the top-level object of a JSON text; none when the text is
/// not JSON or not an object.
pub open spec fn json_object_keys(text: Seq<char>) -> Option<Seq<Seq<char>>> {
    match json_parsed_keys(text) {
        Some(Some(keys)) => Some(keys),
        _ => None,
    }
}

/// Whether a text is JSON.
pub open spec fn json_parses(text: Seq<char>) -> bool {
    json_parsed_keys(text) is Some
}

/// Calls `serde_json::from_str::<serde_json::Value>` and lists the keys of
/// the object it yields.  The contract names the result and states nothing
/// of JSON syntax.
#[verifier::external_body]
fn parse_json(text: &str) -> (r: Option<Option<Vec<String>>>)
    ensures
        match r {
            Some(Some(v)) => json_parsed_keys(text@) == Some(Some(v@.map_values(|k: String| k@))),
            Some(None) => json_parsed_keys(text@) == Some(None::<Seq<Seq<char>>>),
            None => json_parsed_keys(text@) is None,
        },
{
    match serde_json::from_str::<serde_json::Value>(text) {
        Ok(serde_json::Value::Object(map)) => Some(Some(map.keys().cloned().collect())),
        Ok(_) => Some(None),
        Err(_) => None,
    }
}

/// The keys of the top-level object of a JSON text.
fn object_keys(text: &str) -> (r: Option<Vec<String>>)
    ensures
        match r {
            Some(v) => json_object_keys(text@) == Some(v@.map_values(|k: String| k@)),
            None => json_object_keys(text@) is None,
        },
{
    match parse_json(text) {
        Some(Some(v)) => Some(v),
        _ => None,
    }
}

/// A stored JSON text kept only when it is JSON.
pub open spec fn kept_json(text: Option<String>) -> Option<Seq<char>> {
    match text {
        Some(t) => if json_parses(t@) {
            Some(t@)
        } else {
            None
        },
        None => None,
    }
}

/// A stored JSON text, kept only when it parses as JSON (a row's headers and
/// notes are shown only then).
pub fn keep_json(text: Option<String>) -> (r: Option<String>)
    ensures
        opt_text(r) == kept_json(text),
{
    match text {
        Some(t) => if parse_json(t.as_str()).is_some() {
            Some(t)
        } else {
            None
        },
        None => None,
    }
}

/// A property of a single result that the checks count.
pub enum ResultTest {
    /// DKIM passed and DMARC failed.
    DkimPassDmarcFail,
    /// A Gmail seed.
    Gmail,
    /// A Gmail seed that got the message in its inbox.
    GmailInbox,
    /// A Microsoft seed.
    Microsoft,
    /// A Microsoft seed that got the message in junk or spam.
    MicrosoftJunk,
    /// The message landed in the inbox.
    Inbox,
    /// SPF reported `fail`, `softfail` or `none`.
    SpfFailure,
    /// The stored headers are a JSON object without a `List-Unsubscribe`
    /// key (any capitalisation).
    NoListUnsubscribe,
}

/// The keys hold no `List-Unsubscribe` (any capitalisation).
pub open spec fn lacks_list_unsubscribe(keys: Seq<Seq<char>>) -> bool {
    forall|i: int| 0 <= i < keys.len() ==> lowercase(#[trigger] keys[i]) != "list-unsubscribe"@
}

/// Whether a result has the property `t`.
pub open spec fn passes(t: ResultTest, r: TestResult) -> bool {
    match t {
        ResultTest::DkimPassDmarcFail => opt_text(r.dkim_result) == Some("pass"@) && opt_text(
            r.dmarc_result,
        ) == Some("fail"@),
        ResultTest::Gmail => r.provider@ == "gmail"@,
        ResultTest::GmailInbox => r.provider@ == "gmail"@ && r.placement@ == "inbox"@,
        ResultTest::Microsoft => r.provider@ == "microsoft"@,
        ResultTest::MicrosoftJunk => r.provider@ == "microsoft"@ && (r.placement@ == "junk"@
            || r.placement@ == "spam"@),
        ResultTest::Inbox => r.placement@ == "inbox"@,
        ResultTest::SpfFailure => opt_text(r.spf_result) == Some("fail"@) || opt_text(
            r.spf_result,
        ) == Some("softfail"@) || opt_text(r.spf_result) == Some("none"@),
        ResultTest::NoListUnsubscribe => match r.headers_json {
            Some(text) => match json_object_keys(text@) {
                Some(keys) => lacks_list_unsubscribe(keys),
                None => false,
            },
            None => false,
        },
    }
}

/// How many results have the property `t`.
pub open spec fn count_passing(rs: Seq<TestResult>, t: ResultTest) -> nat
    decreases rs.len(),
{
    if rs.len() == 0 {
        0
    } else {
        count_passing(rs.drop_last(), t) + if passes(t, rs.last()) {
            1nat
        } else {
            0nat
        }
    }
}

/// No more results pass than there are.
pub proof fn lemma_count_bound(rs: Seq<TestResult>, t: ResultTest)
    ensures
        count_passing(rs, t) <= rs.len(),
    decreases rs.len(),
{
    if rs.len() > 0 {
        lemma_count_bound(rs.drop_last(), t);
    }
}

/// Whether the optional text is `lit`.
fn text_is(o: &Option<String>, lit: &str) -> (r: bool)
    ensures
        r == (opt_text(*o) == Some(lit@)),
{
    match o {
        Some(s) => same_text(s.as_str(), lit),
        None => false,
    }
}

/// Whether none of the keys is `List-Unsubscribe` (any capitalisation).
fn keys_lack_list_unsubscribe(keys: &Vec<String>) -> (r: bool)
    ensures
        r == lacks_list_unsubscribe(keys@.map_values(|k: String| k@)),
{
    let ghost kv = keys@.map_values(|k: String| k@);
    let mut i: usize = 0;
    while i < keys.len()
        invariant
            kv == keys@.map_values(|k: String| k@),
            i <= kv.len(),
            forall|j: int| 0 <= j < i ==> lowercase(#[trigger] kv[j]) != "list-unsubscribe"@,
        decreases kv.len() - i,
    {
        let lk = to_lowercase(keys[i].as_str());
        if same_text(lk.as_str(), "list-unsubscribe") {
            assert(lowercase(kv[i as int]) == "list-unsubscribe"@);
            return false;
        }
        i = i + 1;
    }
    true
}

/// Whether a result has the property `t`.
pub fn result_passes(t: &ResultTest, r: &TestResult) -> (b: bool)
    ensures
        b == passes(*t, *r),
{
    match t {
        ResultTest::DkimPassDmarcFail => text_is(&r.dkim_result, "pass") && text_is(
            &r.dmarc_result,
            "fail",
        ),
        ResultTest::Gmail => same_text(r.provider.as_str(), "gmail"),
        ResultTest::GmailInbox => same_text(r.provider.as_str(), "gmail") && same_text(
            r.placement.as_str(),
            "inbox",
        ),
        ResultTest::Microsoft => same_text(r.provider.as_str(), "microsoft"),
        ResultTest::MicrosoftJunk => same_text(r.provider.as_str(), "microsoft") && (same_text(
            r.placement.as_str(),
            "junk",
        ) || same_text(r.placement.as_str(), "spam")),
        ResultTest::Inbox => same_text(r.placement.as_str(), "inbox"),
        ResultTest::SpfFailure => text_is(&r.spf_result, "fail") || text_is(
            &r.spf_result,
            "softfail",
        ) || text_is(&r.spf_result, "none"),
        ResultTest::NoListUnsubscribe => match &r.headers_json {
            Some(text) => match object_keys(text.as_str()) {
                Some(keys) => keys_lack_list_unsubscribe(&keys),
                None => false,
            },
            None => false,
        },
    }
}

/// How many results have the property `t`.
pub fn count_results(results: &[TestResult], t: ResultTest) -> (n: u64)
    ensures
        n == count_passing(results@, t),
{
    let mut n: u64 = 0;
    let mut i: usize = 0;
    assert(results@.take(0) =~= Seq::<TestResult>::empty());
    while i < results.len()
        invariant
            i <= results@.len(),
            n == count_passing(results@.take(i as int), t),
        decreases results@.len() - i,
    {
        proof {
            lemma_count_bound(results@.take(i as int), t);
        }
        assert(results@.take(i + 1).drop_last() =~= results@.take(i as int));
        if result_passes(&t, &results[i]) {
            n = n + 1;
        }
        i = i + 1;
    }
    assert(results@.take(results@.len() as int) =~= results@);
    n
}

/// The order in which latencies are sorted.
pub open spec fn latency_order() -> spec_fn(i64, i64) -> bool {
    |x: i64, y: i64| x <= y
}

/// The recorded delivery latencies, in result order.
pub open spec fn latencies(rs: Seq<TestResult>) -> Seq<i64>
    decreases rs.len(),
{
    if rs.len() == 0 {
        seq![]
    } else {
        match rs.last().delivery_latency_ms {
            Some(ms) => latencies(rs.drop_last()).push(ms),
            None => latencies(rs.drop_last()),
        }
    }
}

/// The median of non-empty latencies: the middle element (the upper one
/// of the two middle elements for an even count) in ascending order.
pub open spec fn median_latency(l: Seq<i64>) -> i64 {
    l.sort_by(latency_order())[(l.len() / 2) as int]
}

/// Calls `slice::sort_unstable`, which sorts ascending and keeps the
/// elements.
#[verifier::external_body]
fn sort_latencies(v: &mut Vec<i64>)
    ensures
        sorted_by(final(v)@, latency_order()),
        final(v)@.to_multiset() == old(v)@.to_multiset(),
{
    v.sort_unstable()
}

/// The recorded delivery latencies, in result order.
fn collect_latencies(results: &[TestResult]) -> (v: Vec<i64>)
    ensures
        v@ == latencies(results@),
{
    let mut v: Vec<i64> = Vec::new();
    let mut i: usize = 0;
    assert(results@.take(0) =~= Seq::<TestResult>::empty());
    while i < results.len()
        invariant
            i <= results@.len(),
            v@ == latencies(results@.take(i as int)),
        decreases results@.len() - i,
    {
        assert(results@.take(i + 1).drop_last() =~= results@.take(i as int));
        if let Some(ms) = results[i].delivery_latency_ms {
            v.push(ms);
        }
        i = i + 1;
    }
    assert(results@.take(results@.len() as int) =~= results@);
    v
}

/// The median of non-empty latencies.
fn median_of(l: Vec<i64>) -> (m: i64)
    requires
        l@.len() > 0,
    ensures
        m == median_latency(l@),
{
    let mut sorted = l;
    let ghost unsorted = sorted@;
    sort_latencies(&mut sorted);
    proof {
        broadcast use vstd::seq_lib::group_to_multiset_ensures;

        let leq = latency_order();
        assert(total_ordering(leq));
        unsorted.lemma_sort_by_ensures(leq);
        vstd::seq_lib::lemma_sorted_unique(sorted@, unsorted.sort_by(leq), leq);
        vstd::seq_lib::to_multiset_len(sorted@);
        vstd::seq_lib::to_multiset_len(unsorted);
        assert(sorted@.len() == unsorted.len());
    }
    sorted[sorted.len() / 2]
}

/// A problem that a run's results point at, with the figures behind it.
#[derive(Debug, Clone, Copy, PartialEq, Eq, Structural)]
pub enum Finding {
    /// `count` results passed DKIM but failed DMARC.
    DkimPassDmarcFail { count: u64 },
    /// Gmail seeds mostly got the message in the inbox while Microsoft seeds
    /// mostly got it in junk.
    OutlookJunkConcentration { gmail_inbox: u64, gmail_total: u64, ms_junk: u64, ms_total: u64 },
    /// Some stored headers have no `List-Unsubscribe`.
    MissingListUnsubscribe,
    /// The median delivery latency is above five minutes.
    SlowDelivery { median_ms: i64 },
    /// Fewer than half of at least three seeds got the message in the inbox.
    LowInboxRate { inbox: u64, total: u64 },
    /// `count` seeds reported an SPF failure.
    SpfFailures { count: u64 },
}

/// The kind of check that reports a finding.
pub open spec fn finding_check_type(f: Finding) -> Seq<char> {
    match f {
        Finding::DkimPassDmarcFail { .. } => "dmarc"@,
        Finding::OutlookJunkConcentration { .. } => "content"@,
        Finding::MissingListUnsubscribe => "list_unsubscribe"@,
        Finding::SlowDelivery { .. } => "latency"@,
        Finding::LowInboxRate { .. } => "content"@,
        Finding::SpfFailures { .. } => "spf"@,
    }
}

/// How serious a finding is.
pub open spec fn finding_severity(f: Finding) -> Seq<char> {
    match f {
        Finding::DkimPassDmarcFail { .. } => "error"@,
        Finding::OutlookJunkConcentration { .. } => "warning"@,
        Finding::MissingListUnsubscribe => "warning"@,
        Finding::SlowDelivery { .. } => "warning"@,
        Finding::LowInboxRate { .. } => "critical"@,
        Finding::SpfFailures { .. } => "error"@,
    }
}

/// The headline of a finding.
pub open spec fn finding_title(f: Finding) -> Seq<char> {
    match f {
        Finding::DkimPassDmarcFail { .. } => "DKIM passes but DMARC fails"@,
        Finding::OutlookJunkConcentration { .. } => "Outlook/M365 junk concentration despite Gmail inbox"@,
        Finding::MissingListUnsubscribe => "Missing List-Unsubscribe header"@,
        Finding::SlowDelivery { .. } => "Slow median delivery time"@,
        Finding::LowInboxRate { .. } => "Inbox rate below 50%"@,
        Finding::SpfFailures { .. } => "SPF failures detected"@,
    }
}

/// What to do about a finding.
pub open spec fn finding_recommendation(f: Finding) -> Seq<char> {
    match f {
        Finding::DkimPassDmarcFail { .. } => "Ensure the DKIM d= tag matches your From domain, or add the signing domain to your DMARC policy with relaxed alignment."@,
        Finding::OutlookJunkConcentration { .. } => "Check Microsoft SNDS for complaint data, review link reputation, and ensure List-Unsubscribe is present. Consider submitting to Microsoft's JMRP."@,
        Finding::MissingListUnsubscribe => "Add both mailto: and HTTPS List-Unsubscribe headers, and implement List-Unsubscribe-Post for one-click unsubscribe (RFC 8058)."@,
        Finding::SlowDelivery { .. } => "Inspect sending IP for deferrals, check sending IP reputation, and review provider-side throttling. Consider dedicated IPs if on shared infrastructure."@,
        Finding::LowInboxRate { .. } => "Review SPF, DKIM, and DMARC alignment. Check sending domain and IP reputation on major blocklists. Inspect message content for spam signals."@,
        Finding::SpfFailures { .. } => "Add the sending IP or include the sending service's SPF record in your domain's TXT record. Ensure you're not exceeding the 10 DNS lookup limit."@,
    }
}

/// The explanation of a finding whose figures are whole numbers; findings
/// whose explanation shows a fraction (rates, minutes) have none here.
pub open spec fn finding_details(f: Finding) -> Option<Seq<char>> {
    match f {
        Finding::DkimPassDmarcFail { count } => Some(
            "Seen on "@ + crate::text::int_text(count as int)
                + " result(s). DKIM is signing but the d= domain is not aligned with the From header domain."@,
        ),
        Finding::MissingListUnsubscribe => Some(
            "Some received messages have no List-Unsubscribe header. Gmail and Yahoo require this for bulk senders."@,
        ),
        Finding::SpfFailures { count } => Some(
            crate::text::int_text(count as int) + " seed(s) received SPF fail, softfail, or none."@,
        ),
        _ => None,
    }
}

/// A finding as shown to the user.
#[derive(Debug, Clone)]
pub struct DiagnosticResult {
    pub check_type: String,
    pub severity: String,
    pub title: String,
    pub details: String,
    pub recommendation: String,
}

impl Finding {
    /// The kind of check that reports this finding.
    pub fn check_type(&self) -> (r: String)
        ensures
            r@ == finding_check_type(*self),
    {
        match self {
            Finding::DkimPassDmarcFail { .. } => owned("dmarc"),
            Finding::OutlookJunkConcentration { .. } => owned("content"),
            Finding::MissingListUnsubscribe => owned("list_unsubscribe"),
            Finding::SlowDelivery { .. } => owned("latency"),
            Finding::LowInboxRate { .. } => owned("content"),
            Finding::SpfFailures { .. } => owned("spf"),
        }
    }

    /// How serious this finding is.
    pub fn severity(&self) -> (r: String)
        ensures
            r@ == finding_severity(*self),
    {
        match self {
            Finding::DkimPassDmarcFail { .. } => owned("error"),
            Finding::OutlookJunkConcentration { .. } => owned("warning"),
            Finding::MissingListUnsubscribe => owned("warning"),
            Finding::SlowDelivery { .. } => owned("warning"),
            Finding::LowInboxRate { .. } => owned("critical"),
            Finding::SpfFailures { .. } => owned("error"),
        }
    }

    /// The headline of this finding.
    pub fn title(&self) -> (r: String)
        ensures
            r@ == finding_title(*self),
    {
        match self {
            Finding::DkimPassDmarcFail { .. } => owned("DKIM passes but DMARC fails"),
            Finding::OutlookJunkConcentration { .. } => owned("Outlook/M365 junk concentration despite Gmail inbox"),
            Finding::MissingListUnsubscribe => owned("Missing List-Unsubscribe header"),
            Finding::SlowDelivery { .. } => owned("Slow median delivery time"),
            Finding::LowInboxRate { .. } => owned("Inbox rate below 50%"),
            Finding::SpfFailures { .. } => owned("SPF failures detected"),
        }
    }

    /// What to do about this finding.
    pub fn recommendation(&self) -> (r: String)
        ensures
            r@ == finding_recommendation(*self),
    {
        match self {
            Finding::DkimPassDmarcFail { .. } => owned("Ensure the DKIM d= tag matches your From domain, or add the signing domain to your DMARC policy with relaxed alignment."),
            Finding::OutlookJunkConcentration { .. } => owned("Check Microsoft SNDS for complaint data, review link reputation, and ensure List-Unsubscribe is present. Consider submitting to Microsoft's JMRP."),
            Finding::MissingListUnsubscribe => owned("Add both mailto: and HTTPS List-Unsubscribe headers, and implement List-Unsubscribe-Post for one-click unsubscribe (RFC 8058)."),
            Finding::SlowDelivery { .. } => owned("Inspect sending IP for deferrals, check sending IP reputation, and review provider-side throttling. Consider dedicated IPs if on shared infrastructure."),
            Finding::LowInboxRate { .. } => owned("Review SPF, DKIM, and DMARC alignment. Check sending domain and IP reputation on major blocklists. Inspect message content for spam signals."),
            Finding::SpfFailures { .. } => owned("Add the sending IP or include the sending service's SPF record in your domain's TXT record. Ensure you're not exceeding the 10 DNS lookup limit."),
        }
    }

    /// The explanation of this finding when its figures are whole numbers.
    pub fn details(&self) -> (r: Option<String>)
        ensures
            opt_text(r) == finding_details(*self),
    {
        match self {
            Finding::DkimPassDmarcFail { count } => {
                let mut r = owned("Seen on ");
                let n = u64_text(*count);
                push_str(&mut r, n.as_str());
                push_str(
                    &mut r,
                    " result(s). DKIM is signing but the d= domain is not aligned with the From header domain.",
                );
                Some(r)
            },
            Finding::MissingListUnsubscribe => Some(
                owned(
                    "Some received messages have no List-Unsubscribe header. Gmail and Yahoo require this for bulk senders.",
                ),
            ),
            Finding::SpfFailures { count } => {
                let mut r = u64_text(*count);
                push_str(&mut r, " seed(s) received SPF fail, softfail, or none.");
                Some(r)
            },
            _ => None,
        }
    }

    /// This finding as shown to the user, with the given explanation.
    pub fn with_details(&self, details: String) -> (r: DiagnosticResult)
        ensures
            r.check_type@ == finding_check_type(*self),
            r.severity@ == finding_severity(*self),
            r.title@ == finding_title(*self),
            r.details@ == details@,
            r.recommendation@ == finding_recommendation(*self),
    {
        DiagnosticResult {
            check_type: self.check_type(),
            severity: self.severity(),
            title: self.title(),
            details,
            recommendation: self.recommendation(),
        }
    }
}

/// The findings of the DKIM/DMARC check.
pub open spec fn dkim_findings(rs: Seq<TestResult>) -> Seq<Finding> {
    let n = count_passing(rs, ResultTest::DkimPassDmarcFail);
    if n > 0 {
        seq![Finding::DkimPassDmarcFail { count: n as u64 }]
    } else {
        seq![]
    }
}

/// The findings of the Microsoft-junk-despite-Gmail-inbox check: more than
/// 80% of Gmail seeds in the inbox and more than 50% of Microsoft seeds in
/// junk or spam.
pub open spec fn outlook_findings(rs: Seq<TestResult>) -> Seq<Finding> {
    let gi = count_passing(rs, ResultTest::GmailInbox);
    let gt = count_passing(rs, ResultTest::Gmail);
    let mj = count_passing(rs, ResultTest::MicrosoftJunk);
    let mt = count_passing(rs, ResultTest::Microsoft);
    if gt > 0 && mt > 0 && 5 * gi > 4 * gt && 2 * mj > mt {
        seq![
            Finding::OutlookJunkConcentration {
                gmail_inbox: gi as u64,
                gmail_total: gt as u64,
                ms_junk: mj as u64,
                ms_total: mt as u64,
            },
        ]
    } else {
        seq![]
    }
}

/// The findings of the `List-Unsubscribe` check.
pub open spec fn unsubscribe_findings(rs: Seq<TestResult>) -> Seq<Finding> {
    if count_passing(rs, ResultTest::NoListUnsubscribe) > 0 {
        seq![Finding::MissingListUnsubscribe]
    } else {
        seq![]
    }
}

/// The findings of the latency check: a median above 300 000 ms.
pub open spec fn latency_findings(rs: Seq<TestResult>) -> Seq<Finding> {
    let l = latencies(rs);
    if l.len() > 0 && median_latency(l) > 300_000 {
        seq![Finding::SlowDelivery { median_ms: median_latency(l) }]
    } else {
        seq![]
    }
}

/// The findings of the inbox-rate check: fewer than half of the seeds in
/// the inbox, with at least three seeds.
pub open spec fn inbox_rate_findings(rs: Seq<TestResult>) -> Seq<Finding> {
    let inbox = count_passing(rs, ResultTest::Inbox);
    if 2 * inbox < rs.len() && rs.len() >= 3 {
        seq![Finding::LowInboxRate { inbox: inbox as u64, total: rs.len() as u64 }]
    } else {
        seq![]
    }
}

/// The findings of the SPF check.
pub open spec fn spf_findings(rs: Seq<TestResult>) -> Seq<Finding> {
    let n = count_passing(rs, ResultTest::SpfFailure);
    if n > 0 {
        seq![Finding::SpfFailures { count: n as u64 }]
    } else {
        seq![]
    }
}

/// All findings of a run's results, in the order the checks run; none for
/// a run without results.
pub open spec fn diagnose(rs: Seq<TestResult>) -> Seq<Finding> {
    if rs.len() == 0 {
        seq![]
    } else {
        dkim_findings(rs) + outlook_findings(rs) + unsubscribe_findings(rs) + latency_findings(rs)
            + inbox_rate_findings(rs) + spf_findings(rs)
    }
}

/// Appends the findings of the DKIM/DMARC check.
fn check_dkim_dmarc_alignment(results: &[TestResult], issues: &mut Vec<Finding>)
    ensures
        final(issues)@ == old(issues)@ + dkim_findings(results@),
{
    let n = count_results(results, ResultTest::DkimPassDmarcFail);
    if n > 0 {
        issues.push(Finding::DkimPassDmarcFail { count: n });
    }
}

/// Appends the findings of the Microsoft-junk check.
fn check_outlook_junk_concentration(results: &[TestResult], issues: &mut Vec<Finding>)
    ensures
        final(issues)@ == old(issues)@ + outlook_findings(results@),
{
    let gi = count_results(results, ResultTest::GmailInbox);
    let gt = count_results(results, ResultTest::Gmail);
    let mj = count_results(results, ResultTest::MicrosoftJunk);
    let mt = count_results(results, ResultTest::Microsoft);
    proof {
        lemma_count_bound(results@, ResultTest::GmailInbox);
        lemma_count_bound(results@, ResultTest::Gmail);
        lemma_count_bound(results@, ResultTest::MicrosoftJunk);
        lemma_count_bound(results@, ResultTest::Microsoft);
    }
    if gt == 0 || mt == 0 {
        return;
    }
    if 5 * (gi as u128) > 4 * (gt as u128) && 2 * (mj as u128) > mt as u128 {
        issues.push(
            Finding::OutlookJunkConcentration {
                gmail_inbox: gi,
                gmail_total: gt,
                ms_junk: mj,
                ms_total: mt,
            },
        );
    }
}

/// Appends the findings of the `List-Unsubscribe` check.
fn check_missing_list_unsubscribe(results: &[TestResult], issues: &mut Vec<Finding>)
    ensures
        final(issues)@ == old(issues)@ + unsubscribe_findings(results@),
{
    if count_results(results, ResultTest::NoListUnsubscribe) > 0 {
        issues.push(Finding::MissingListUnsubscribe);
    }
}

/// Appends the findings of the latency check.
fn check_slow_delivery(results: &[TestResult], issues: &mut Vec<Finding>)
    ensures
        final(issues)@ == old(issues)@ + latency_findings(results@),
{
    let l = collect_latencies(results);
    if l.len() == 0 {
        return;
    }
    let median = median_of(l);
    if median > 300_000 {
        issues.push(Finding::SlowDelivery { median_ms: median });
    }
}

/// Appends the findings of the inbox-rate check.
fn check_low_inbox_rate(results: &[TestResult], issues: &mut Vec<Finding>)
    ensures
        final(issues)@ == old(issues)@ + inbox_rate_findings(results@),
{
    let inbox = count_results(results, ResultTest::Inbox);
    proof {
        lemma_count_bound(results@, ResultTest::Inbox);
    }
    let total = results.len();
    if 2 * (inbox as u128) < total as u128 && total >= 3 {
        issues.push(Finding::LowInboxRate { inbox, total: total as u64 });
    }
}

/// Appends the findings of the SPF check.
fn check_spf_failures(results: &[TestResult], issues: &mut Vec<Finding>)
    ensures
        final(issues)@ == old(issues)@ + spf_findings(results@),
{
    let n = count_results(results, ResultTest::SpfFailure);
    if n > 0 {
        issues.push(Finding::SpfFailures { count: n });
    }
}

/// The problems that a run's results point at.
pub fn run_diagnostics(run: &TestRun, results: &[TestResult]) -> (issues: Vec<Finding>)
    ensures
        issues@ == diagnose(results@),
{
    let mut issues: Vec<Finding> = Vec::new();
    if results.len() == 0 {
        return issues;
    }
    check_dkim_dmarc_alignment(results, &mut issues);
    check_outlook_junk_concentration(results, &mut issues);
    check_missing_list_unsubscribe(results, &mut issues);
    check_slow_delivery(results, &mut issues);
    check_low_inbox_rate(results, &mut issues);
    check_spf_failures(results, &mut issues);
    assert(issues@ =~= diagnose(results@));
    issues
}

} // verus!
