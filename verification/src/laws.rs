//! Properties that hold of the library as a whole.
use vstd::prelude::*;

use crate::classifier::{gmail_placement, imap_placement, microsoft_placement, placement_for, Placement};
use crate::diagnostics::{
    count_passing, diagnose, dkim_findings, inbox_rate_findings, latency_findings, outlook_findings,
    passes, spf_findings, txt_record_with, unsubscribe_findings, Finding, ResultTest,
};
use crate::imap::{
    action_folder, imap_search_next, FetchOutcome, ImapSearchAction, ImapSearchEvent, ImapSearchState,
};
use crate::matcher::{
    criteria_score, first_token, regex_digit, score_rank, token_at, token_from_index, upper_hex,
    MatchScore,
};
use crate::models::{MatchedMessage, TestResult};
use crate::runs::{is_lower_hex, suggested_subject_text, token_made, token_text};
use crate::time::utc_text;
use crate::text::{ascii_upper, ascii_upper_char, contains_seq, lowercase, trim_by, CharClass};
use crate::orchestrator::{
    initial_state, lemma_wait_bound_from, next_state, state_ok,
    wait_asked, RunAction, RunEvent, RunState, FAST_SLOTS, POLL_SLOTS,
};
use crate::reporting::{count_placed, csv_field, double_quotes, html_char, html_escaped, inbox_percent};
use crate::text::{form_byte, form_encoded, hex_digit};

verus! {

// ───────────────────────────── classification ─────────────────────────────

/// A mailbox never reports a message as missing: only a run's close marks
/// seeds missing.
pub proof fn law_classification_never_missing(provider: Seq<char>, msg: MatchedMessage)
    ensures
        placement_for(provider, msg) != Placement::Missing,
{
}

/// On Gmail the `SPAM` label decides, whatever other labels a message has.
pub proof fn law_gmail_spam_label_wins(labels: Seq<Seq<char>>)
    requires
        labels.contains("SPAM"@),
    ensures
        gmail_placement(labels) == Placement::Spam,
{
}

/// On Gmail a message outside the inbox and outside spam is never counted
/// as inbox or as one of the inbox tabs.
pub proof fn law_gmail_tabs_need_inbox(labels: Seq<Seq<char>>)
    requires
        !labels.contains("INBOX"@),
        !labels.contains("SPAM"@),
    ensures
        gmail_placement(labels) == Placement::Other,
{
}

/// Microsoft folders only ever give inbox, junk or other; plain IMAP
/// folders only ever give inbox, spam or other.
pub proof fn law_folder_placements(folder: Seq<char>)
    ensures
        microsoft_placement(folder) == Placement::Inbox || microsoft_placement(folder)
            == Placement::Junk || microsoft_placement(folder) == Placement::Other,
        imap_placement(folder) == Placement::Inbox || imap_placement(folder) == Placement::Spam
            || imap_placement(folder) == Placement::Other,
{
}

// ───────────────────────────── matching ─────────────────────────────

/// Matching a message against a run's tokens never gives a weak score:
/// it is definitive, strong, or no match at all.
pub proof fn law_match_never_weak(
    subject: Seq<char>,
    body: Option<Seq<char>>,
    headers: Seq<(Seq<char>, Seq<char>)>,
    subject_token: Seq<char>,
    body_token: Seq<char>,
)
    ensures
        criteria_score(subject, body, headers, subject_token, body_token) != MatchScore::Weak,
{
}

/// A subject that carries the subject token always counts as a match.
pub proof fn law_subject_token_matches(
    subject: Seq<char>,
    body: Option<Seq<char>>,
    headers: Seq<(Seq<char>, Seq<char>)>,
    subject_token: Seq<char>,
    body_token: Seq<char>,
)
    requires
        crate::text::contains_seq(subject, subject_token),
    ensures
        score_rank(criteria_score(subject, body, headers, subject_token, body_token)) >= score_rank(
            MatchScore::Strong,
        ),
{
}

/// The subject suggested for a run carries the run's subject token, so a
/// message sent with it is matched by its subject.
pub proof fn law_suggested_subject_carries_token(template: Seq<char>, token: Seq<char>)
    ensures
        crate::text::contains_seq(suggested_subject_text(template, token), token),
{
    reveal_strlit(" [");
    reveal_strlit("]");
    let s = suggested_subject_text(template, token);
    let k: int = template.len() as int + 2;
    assert(s.subrange(k, k + token.len()) =~= token);
    assert(crate::text::occurs_at(s, token, k));
    crate::text::lemma_find_from(s, token, 0);
}

/// Eight ASCII decimal digits, as chrono writes `%Y%m%d` for a year from 1
/// to 9999.
pub open spec fn eight_digits(d: Seq<char>) -> bool {
    d.len() == 8 && forall|k: int| 0 <= k < 8 ==> '0' <= #[trigger] d[k] <= '9'
}

/// Where the token pattern matches nowhere from `i` on, no place from `i`
/// on holds a match.
proof fn lemma_no_token_from(h: Seq<char>, i: int)
    requires
        0 <= i,
        token_from_index(h, i) is None,
    ensures
        forall|j: int| i <= j ==> !#[trigger] token_at(h, j),
    decreases h.len() - i,
{
    if i + 18 <= h.len() {
        lemma_no_token_from(h, i + 1);
    }
}

/// The first match from `i` on is at `p` when `p` holds one and no place
/// between `i` and `p` does.
proof fn lemma_token_first_at(h: Seq<char>, i: int, p: int)
    requires
        0 <= i <= p,
        token_at(h, p),
        forall|j: int| i <= j < p ==> !#[trigger] token_at(h, j),
    ensures
        token_from_index(h, i) == Some(h.subrange(p, p + 18)),
    decreases p - i,
{
    if i < p {
        assert(!token_at(h, i));
        lemma_token_first_at(h, i + 1, p);
    }
}

/// A run token whose date is written with eight digits is found again in
/// the subject suggested for it, with its brackets, when the template
/// itself holds no token.
pub proof fn law_suggested_subject_token_found(
    template: Seq<char>,
    t: Seq<char>,
    secs: i64,
    nanos: u32,
    id: Seq<char>,
)
    requires
        token_made(t, secs, nanos, id),
        utc_text(secs, nanos, "%Y%m%d"@) matches Some(d) && eight_digits(d),
        first_token(template) is None,
    ensures
        first_token(suggested_subject_text(template, t)) == Some("["@ + t + "]"@),
{
    reveal_strlit(" [");
    reveal_strlit("]");
    reveal_strlit("[");
    reveal_strlit("MS-");
    reveal_strlit("-");
    let d = utc_text(secs, nanos, "%Y%m%d"@)->Some_0;
    let suf = ascii_upper(id.take(4));
    assert(t == token_text(d, suf));
    assert forall|k: int| 0 <= k < 4 implies #[trigger] upper_hex(suf[k]) by {
        assert(suf[k] == ascii_upper_char(id[k]));
        assert(is_lower_hex(id[k]));
        let c = id[k];
        if 'a' <= c <= 'z' {
            assert(((c as u32) - 32) as char as u32 == (c as u32) - 32);
        }
    }
    let h = suggested_subject_text(template, t);
    let n = template.len() as int;
    let p = n + 1;
    assert(h.len() == n + 19);
    assert(h[n] == ' ');
    assert(h.subrange(p, p + 18) =~= "["@ + t + "]"@);
    assert forall|k: int| 4 <= k < 12 implies #[trigger] regex_digit(h[p + k]) by {
        assert(h[p + k] == d[k - 4]);
    }
    assert forall|k: int| 13 <= k < 17 implies #[trigger] upper_hex(h[p + k]) by {
        assert(h[p + k] == suf[k - 13]);
    }
    assert(token_at(h, p));
    lemma_no_token_from(template, 0);
    assert forall|j: int| 0 <= j < p implies !#[trigger] token_at(h, j) by {
        if token_at(h, j) {
            if j + 18 <= n {
                assert forall|k: int| 4 <= k < 12 implies #[trigger] regex_digit(template[j + k]) by {
                    assert(h[j + k] == template[j + k]);
                }
                assert forall|k: int| 13 <= k < 17 implies #[trigger] upper_hex(template[j + k]) by {
                    assert(h[j + k] == template[j + k]);
                }
                assert(h[j] == template[j]);
                assert(h[j + 1] == template[j + 1]);
                assert(h[j + 2] == template[j + 2]);
                assert(h[j + 3] == template[j + 3]);
                assert(h[j + 12] == template[j + 12]);
                assert(h[j + 17] == template[j + 17]);
                assert(token_at(template, j));
            } else {
                let k = n - j;
                assert(h[j + k] == ' ');
                assert(!regex_digit(' '));
                assert(!upper_hex(' '));
                if 4 <= k < 12 {
                    assert(regex_digit(h[j + k]));
                }
                if 13 <= k < 17 {
                    assert(upper_hex(h[j + k]));
                }
            }
        }
    }
    lemma_token_first_at(h, 0, p);
}

// ───────────────────────────── diagnostics ─────────────────────────────

/// A run without results has no findings.
pub proof fn law_no_results_no_findings()
    ensures
        diagnose(Seq::<TestResult>::empty()) == Seq::<Finding>::empty(),
{
}

/// Each check reports at most once: the findings of a run come one per
/// check at most, so a run has at most six.
pub proof fn law_at_most_one_finding_per_check(rs: Seq<TestResult>)
    ensures
        diagnose(rs).len() <= 6,
{
}

// ───────────────────────────── escaping ─────────────────────────────

/// `t` with every doubled `"` made single again (read from the end).
pub open spec fn undouble_quotes(t: Seq<char>) -> Seq<char>
    decreases t.len(),
{
    if t.len() >= 2 && t.last() == '"' && t[t.len() - 2] == '"' {
        undouble_quotes(t.subrange(0, t.len() - 2)).push('"')
    } else if t.len() > 0 {
        undouble_quotes(t.drop_last()).push(t.last())
    } else {
        seq![]
    }
}

/// The text a CSV reader takes from a field: a quoted field without its
/// quotes and with doubled quotes made single; any other field as it is.
pub open spec fn csv_read(f: Seq<char>) -> Seq<char> {
    if f.len() >= 2 && f[0] == '"' && f.last() == '"' {
        undouble_quotes(f.subrange(1, f.len() - 1))
    } else {
        f
    }
}

/// Doubled quotes read back as the text they were made from.
pub proof fn lemma_undouble_double(s: Seq<char>)
    ensures
        undouble_quotes(double_quotes(s)) == s,
    decreases s.len(),
{
    if s.len() > 0 {
        lemma_undouble_double(s.drop_last());
        let d = double_quotes(s.drop_last());
        if s.last() == '"' {
            let t = d + seq!['"', '"'];
            assert(t.subrange(0, t.len() - 2) =~= d);
        } else {
            let t = d.push(s.last());
            assert(t.drop_last() =~= d);
        }
        assert(s.drop_last().push(s.last()) =~= s);
    }
}

/// A field written to CSV reads back as the text it was written from.
pub proof fn law_csv_roundtrip(s: Seq<char>)
    ensures
        csv_read(csv_field(s)) == s,
{
    if s.contains(',') || s.contains('"') || s.contains('\n') {
        let f = csv_field(s);
        lemma_undouble_double(s);
        assert(f.subrange(1, f.len() - 1) =~= double_quotes(s));
    } else {
        if s.len() >= 2 && s[0] == '"' {
            assert(s.contains('"'));
        }
    }
}

/// HTML-escaped text holds no `<`, `>` or `"`: what it shows cannot open or
/// close markup or an attribute.
pub proof fn law_html_escape_safe(s: Seq<char>)
    ensures
        !html_escaped(s).contains('<'),
        !html_escaped(s).contains('>'),
        !html_escaped(s).contains('"'),
    decreases s.len(),
{
    reveal_strlit("&amp;");
    reveal_strlit("&lt;");
    reveal_strlit("&gt;");
    reveal_strlit("&quot;");
    if s.len() > 0 {
        law_html_escape_safe(s.drop_last());
        let prev = html_escaped(s.drop_last());
        let c = html_char(s.last());
        assert(html_escaped(s) == prev + c);
        assert(!c.contains('<') && !c.contains('>') && !c.contains('"'));
        assert forall|x: char| (prev + c).contains(x) implies prev.contains(x) || c.contains(x) by {
            let i = choose|i: int| 0 <= i < (prev + c).len() && (prev + c)[i] == x;
            if i < prev.len() {
                assert(prev[i] == x);
            } else {
                assert(c[i - prev.len()] == x);
            }
        }
    }
}

/// A character that form encoding can write: ASCII letters and digits,
/// `*`, `-`, `.`, `_`, `+` and `%`.
pub open spec fn url_safe(c: char) -> bool {
    ('0' <= c <= '9') || ('A' <= c <= 'Z') || ('a' <= c <= 'z') || c == '*' || c == '-' || c == '.'
        || c == '_' || c == '+' || c == '%'
}

/// Form-encoded text holds only URL-safe characters, so it can stand in a
/// query string as it is.
pub proof fn law_form_encoding_safe(bytes: Seq<u8>)
    ensures
        forall|i: int| 0 <= i < form_encoded(bytes).len() ==> url_safe(#[trigger] form_encoded(bytes)[i]),
    decreases bytes.len(),
{
    if bytes.len() > 0 {
        law_form_encoding_safe(bytes.drop_last());
        let prev = form_encoded(bytes.drop_last());
        let b = bytes.last();
        let piece = form_byte(b);
        assert(forall|k: int| 0 <= k < 16 ==> url_safe(#[trigger] hex_digit(k)));
        assert(forall|i: int| 0 <= i < piece.len() ==> url_safe(#[trigger] piece[i]));
        assert forall|i: int| 0 <= i < form_encoded(bytes).len() implies url_safe(
            #[trigger] form_encoded(bytes)[i],
        ) by {
            if i < prev.len() {
                assert(form_encoded(bytes)[i] == prev[i]);
            } else {
                assert(form_encoded(bytes)[i] == piece[i - prev.len()]);
            }
        }
    }
}

// ───────────────────────────── the polling schedule ─────────────────────────────

/// A cancelled run stops at once: it neither polls again nor finalizes.
pub proof fn law_cancel_stops(s: RunState)
    requires
        state_ok(s),
        s.awaiting == RunAction::CheckCancelled,
    ensures
        next_state(s, RunEvent::CancelChecked { cancelled: true }).awaiting == RunAction::Stop,
{
}

/// Once stopped, a run stays stopped whatever is reported.
pub proof fn law_stop_is_final(s: RunState, e: RunEvent)
    requires
        s.awaiting == RunAction::Stop,
    ensures
        next_state(s, e) == s,
{
}

/// A run whose seeds are all matched finalizes at once.
pub proof fn law_all_matched_finalizes(s: RunState)
    requires
        s.awaiting == RunAction::CheckAllMatched,
    ensures
        next_state(s, RunEvent::MatchChecked { all_matched: true }).awaiting
            == RunAction::Finalize,
{
}

/// After the last poll's pause the run finalizes.
pub proof fn law_schedule_ends_in_finalize(s: RunState)
    requires
        state_ok(s),
        s.awaiting is Sleep,
        s.slot + 1 == POLL_SLOTS,
    ensures
        next_state(s, RunEvent::Slept).awaiting == RunAction::Finalize,
{
}

/// The pauses: fifteen seconds after each of the first eight polls, thirty
/// seconds after each later one.
pub proof fn law_poll_intervals(s: RunState)
    requires
        s.awaiting == RunAction::CheckAllMatched,
    ensures
        next_state(s, RunEvent::MatchChecked { all_matched: false }).awaiting == (RunAction::Sleep {
            secs: if s.slot < FAST_SLOTS {
                15u64
            } else {
                30u64
            },
        }),
{
}

/// Whatever happens, a run pauses for at most ten minutes in all: fifteen
/// seconds after each of the first eight polls and thirty after each of the
/// next sixteen.
pub proof fn law_total_wait(events: Seq<RunEvent>)
    ensures
        wait_asked(initial_state(), events) <= 600,
{
    lemma_wait_bound_from(initial_state(), events);
}

// ───────────────────────────── the IMAP search ─────────────────────────────

/// A finished mailbox search stays finished whatever is reported.
pub proof fn law_imap_search_final(s: ImapSearchState, e: ImapSearchEvent)
    requires
        s.awaiting is Found || s.awaiting is Failed || s.awaiting is NotFound,
    ensures
        imap_search_next(s, e) == s,
{
}

/// The first fetched message ends the search, found where it was fetched;
/// a failed fetch ends it with an error, without trying later folders.
pub proof fn law_imap_fetch_decides(folder: usize, uid: u32, outcome: FetchOutcome)
    ensures
        outcome == FetchOutcome::Item ==> imap_search_next(
            ImapSearchState { awaiting: ImapSearchAction::Fetch { folder, uid } },
            ImapSearchEvent::Fetched { outcome },
        ).awaiting == (ImapSearchAction::Found { folder, uid }),
        (outcome == FetchOutcome::CommandFailed || outcome == FetchOutcome::ItemFailed)
            ==> imap_search_next(
            ImapSearchState { awaiting: ImapSearchAction::Fetch { folder, uid } },
            ImapSearchEvent::Fetched { outcome },
        ).awaiting == ImapSearchAction::Failed,
{
}

/// Folders are searched in order: a step never goes back to an earlier
/// folder.
pub proof fn law_imap_folders_in_order(s: ImapSearchState, e: ImapSearchEvent)
    ensures
        action_folder(s.awaiting) matches Some(f) ==> (action_folder(
            imap_search_next(s, e).awaiting,
        ) matches Some(g) ==> f <= g),
{
}

// ───────────────────────────── what each operation is for ─────────────────────────────

/// Every poll is preceded by a cancellation check: the only step into
/// waiting on a poll is a cancellation check that found the run not
/// cancelled.
pub proof fn law_poll_only_after_cancel_check(s: RunState, e: RunEvent)
    requires
        state_ok(s),
        next_state(s, e).awaiting == RunAction::Poll,
        s.awaiting != RunAction::Poll,
    ensures
        s.awaiting == RunAction::CheckCancelled,
        e == (RunEvent::CancelChecked { cancelled: false }),
        next_state(s, e).slot == s.slot,
{
}

/// After a pause that does not end the schedule, the run moves to the next
/// slot and first checks for cancellation.
pub proof fn law_pause_leads_to_cancel_check(s: RunState)
    requires
        state_ok(s),
        s.awaiting is Sleep,
        s.slot + 1 < POLL_SLOTS,
    ensures
        next_state(s, RunEvent::Slept).awaiting == RunAction::CheckCancelled,
        next_state(s, RunEvent::Slept).slot == s.slot + 1,
{
}

/// A result that passed DKIM and failed DMARC, by its recorded verdicts.
pub open spec fn dkim_passed_dmarc_failed(r: TestResult) -> bool {
    &&& r.dkim_result matches Some(d) && d@ == "pass"@
    &&& r.dmarc_result matches Some(m) && m@ == "fail"@
}

/// The results that passed DKIM and failed DMARC, in order.
pub open spec fn misaligned(rs: Seq<TestResult>) -> Seq<TestResult> {
    rs.filter(|r: TestResult| dkim_passed_dmarc_failed(r))
}

proof fn lemma_misaligned_count(rs: Seq<TestResult>)
    ensures
        count_passing(rs, ResultTest::DkimPassDmarcFail) == misaligned(rs).len(),
        misaligned(rs).len() > 0 <==> exists|i: int|
            0 <= i < rs.len() && #[trigger] dkim_passed_dmarc_failed(rs[i]),
    decreases rs.len(),
{
    reveal(Seq::filter);
    if rs.len() > 0 {
        let pre = rs.drop_last();
        lemma_misaligned_count(pre);
        assert(misaligned(rs) == if dkim_passed_dmarc_failed(rs.last()) {
            misaligned(pre).push(rs.last())
        } else {
            misaligned(pre)
        });
        assert(passes(ResultTest::DkimPassDmarcFail, rs.last()) == dkim_passed_dmarc_failed(
            rs.last(),
        ));
        if exists|i: int| 0 <= i < rs.len() && #[trigger] dkim_passed_dmarc_failed(rs[i]) {
            let i = choose|i: int| 0 <= i < rs.len() && #[trigger] dkim_passed_dmarc_failed(rs[i]);
            if i < pre.len() {
                assert(pre[i] == rs[i]);
            }
        }
        if exists|i: int| 0 <= i < pre.len() && #[trigger] dkim_passed_dmarc_failed(pre[i]) {
            let i = choose|i: int| 0 <= i < pre.len() && #[trigger] dkim_passed_dmarc_failed(pre[i]);
            assert(rs[i] == pre[i]);
            assert(dkim_passed_dmarc_failed(rs[i]));
        }
    } else {
        assert(misaligned(rs) =~= Seq::<TestResult>::empty());
    }
}

/// The DKIM/DMARC finding is reported exactly when some result passed DKIM
/// and failed DMARC, and it counts those results: a result whose DMARC
/// passed never counts.
pub proof fn law_dkim_dmarc_finding(rs: Seq<TestResult>)
    ensures
        (exists|k: int| 0 <= k < diagnose(rs).len() && (#[trigger] diagnose(rs)[k]) is DkimPassDmarcFail)
            <==> (exists|i: int| 0 <= i < rs.len() && #[trigger] dkim_passed_dmarc_failed(rs[i])),
        forall|k: int|
            0 <= k < diagnose(rs).len() ==> ((#[trigger] diagnose(rs)[k]) matches Finding::DkimPassDmarcFail {
                count,
            } ==> count == misaligned(rs).len() as u64),
{
    lemma_misaligned_count(rs);
    let d = diagnose(rs);
    if rs.len() > 0 {
        let a = dkim_findings(rs);
        let b = outlook_findings(rs) + unsubscribe_findings(rs) + latency_findings(rs)
            + inbox_rate_findings(rs) + spf_findings(rs);
        assert(d =~= a + b);
        assert forall|k: int| 0 <= k < b.len() implies !((#[trigger] b[k]) is DkimPassDmarcFail) by {
            let o = outlook_findings(rs);
            let u = unsubscribe_findings(rs);
            let l = latency_findings(rs);
            let n = inbox_rate_findings(rs);
            let f = spf_findings(rs);
            assert(b =~= o + u + l + n + f);
            assert(forall|x: int| 0 <= x < o.len() ==> (#[trigger] o[x]) is OutlookJunkConcentration);
            assert(forall|x: int| 0 <= x < u.len() ==> (#[trigger] u[x]) is MissingListUnsubscribe);
            assert(forall|x: int| 0 <= x < l.len() ==> (#[trigger] l[x]) is SlowDelivery);
            assert(forall|x: int| 0 <= x < n.len() ==> (#[trigger] n[x]) is LowInboxRate);
            assert(forall|x: int| 0 <= x < f.len() ==> (#[trigger] f[x]) is SpfFailures);
        }
        assert forall|k: int| 0 <= k < d.len() && (#[trigger] d[k]) is DkimPassDmarcFail implies k
            == 0 && a.len() == 1 by {
            if k >= a.len() {
                assert(d[k] == b[k - a.len()]);
            }
        }
        if misaligned(rs).len() > 0 {
            assert(d[0] is DkimPassDmarcFail);
            assert(d[0] == a[0]);
        }
        assert forall|k: int| 0 <= k < d.len() implies ((#[trigger] d[k]) matches Finding::DkimPassDmarcFail {
            count,
        } ==> count == misaligned(rs).len() as u64) by {
            if d[k] is DkimPassDmarcFail {
                assert(k == 0 && a.len() == 1);
                assert(d[k] == a[0]);
            }
        }
    }
}

/// The IMAP placement reads the folder name regardless of case: folders
/// whose names lowercase alike are placed alike, and any folder whose
/// lowercase name is `inbox` (such as `INBOX`) is the inbox.
pub proof fn law_imap_placement_ignores_case(f1: Seq<char>, f2: Seq<char>)
    ensures
        lowercase(f1) == lowercase(f2) ==> imap_placement(f1) == imap_placement(f2),
        lowercase(f1) == "inbox"@ ==> imap_placement(f1) == Placement::Inbox,
        lowercase(f1) == lowercase(f2) ==> microsoft_placement(f1) == microsoft_placement(f2),
        lowercase(f1) == "inbox"@ ==> microsoft_placement(f1) == Placement::Inbox,
{
}

/// The results placed in the inbox, in order.
pub open spec fn in_inbox(rs: Seq<TestResult>) -> Seq<TestResult> {
    rs.filter(|r: TestResult| r.placement@ == "inbox"@)
}

proof fn lemma_in_inbox_count(rs: Seq<TestResult>)
    ensures
        count_placed(rs, "inbox"@) == in_inbox(rs).len(),
    decreases rs.len(),
{
    reveal(Seq::filter);
    if rs.len() > 0 {
        lemma_in_inbox_count(rs.drop_last());
    }
}

/// The report's inbox rate is the share of all results that landed in the
/// inbox, in whole percent rounded down (zero without results): missing
/// seeds count in the denominator like any other.
pub proof fn law_report_inbox_rate(rs: Seq<TestResult>)
    ensures
        rs.len() == 0 ==> inbox_percent(rs) == 0,
        rs.len() > 0 ==> inbox_percent(rs) * rs.len() <= in_inbox(rs).len() * 100,
        rs.len() > 0 ==> in_inbox(rs).len() * 100 < (inbox_percent(rs) + 1) * rs.len(),
{
    lemma_in_inbox_count(rs);
    if rs.len() > 0 {
        let n = in_inbox(rs).len() * 100;
        let t = rs.len();
        let q = inbox_percent(rs);
        assert(q == n / t);
        assert(q * t <= n && n < (q + 1) * t) by (nonlinear_arith)
            requires
                q == n / t,
                t > 0,
        ;
    }
}

/// A TXT record, without its surrounding quotes, mentions the needle when
/// its lowercase text contains the needle's lowercase text.
pub open spec fn mentions(record: Seq<char>, needle: Seq<char>) -> bool {
    contains_seq(lowercase(trim_by(record, CharClass::DoubleQuote)), lowercase(needle))
}

proof fn lemma_txt_selection(records: Seq<Seq<char>>, needle: Seq<char>)
    ensures
        txt_record_with(records, needle) is Some <==> exists|i: int|
            0 <= i < records.len() && #[trigger] mentions(records[i], needle),
        txt_record_with(records, needle) matches Some(t) ==> exists|i: int|
            0 <= i < records.len() && #[trigger] mentions(records[i], needle) && t == trim_by(
                records[i],
                CharClass::DoubleQuote,
            ) && forall|j: int| 0 <= j < i ==> !#[trigger] mentions(records[j], needle),
    decreases records.len(),
{
    if records.len() > 0 {
        let rest = records.drop_first();
        lemma_txt_selection(rest, needle);
        if mentions(records[0], needle) {
            assert(mentions(records[0], needle));
        } else {
            if exists|i: int| 0 <= i < records.len() && #[trigger] mentions(records[i], needle) {
                let i = choose|i: int| 0 <= i < records.len() && #[trigger] mentions(records[i], needle);
                assert(rest[i - 1] == records[i]);
            }
            if exists|i: int| 0 <= i < rest.len() && #[trigger] mentions(rest[i], needle) {
                let i = choose|i: int| 0 <= i < rest.len() && #[trigger] mentions(rest[i], needle);
                assert(records[i + 1] == rest[i]);
            }
            match txt_record_with(records, needle) {
                Some(t) => {
                    let i = choose|i: int|
                        0 <= i < rest.len() && #[trigger] mentions(rest[i], needle) && t == trim_by(
                            rest[i],
                            CharClass::DoubleQuote,
                        ) && forall|j: int| 0 <= j < i ==> !#[trigger] mentions(rest[j], needle);
                    assert(records[i + 1] == rest[i]);
                    assert forall|j: int| 0 <= j < i + 1 implies !#[trigger] mentions(records[j], needle) by {
                        if j > 0 {
                            assert(records[j] == rest[j - 1]);
                        }
                    }
                },
                None => {},
            }
        }
    }
}

/// TXT record selection compares both sides in lowercase: a record is
/// picked exactly when one mentions the needle (its lowercase text, quotes
/// trimmed, contains the needle's lowercase text), and the record picked is
/// the first that does, quotes trimmed.  So records that lowercase alike
/// are picked alike.
pub proof fn law_txt_record_selection(records: Seq<Seq<char>>, needle: Seq<char>)
    ensures
        txt_record_with(records, needle) is Some <==> exists|i: int|
            0 <= i < records.len() && #[trigger] mentions(records[i], needle),
        txt_record_with(records, needle) matches Some(t) ==> exists|i: int|
            0 <= i < records.len() && #[trigger] mentions(records[i], needle) && t == trim_by(
                records[i],
                CharClass::DoubleQuote,
            ) && forall|j: int| 0 <= j < i ==> !#[trigger] mentions(records[j], needle),
{
    lemma_txt_selection(records, needle);
}

} // verus!
