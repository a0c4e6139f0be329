//! The records that the application stores and exchanges.
//!
//! Rates are stored as the IEEE-754 bit patterns of the `f64` values that the
//! user interface shows; this library never computes with them.
use vstd::prelude::*;

use crate::headers::HeaderMap;

verus! {

/// A mailbox connected as a seed account.
#[derive(Debug, Clone)]
pub struct ConnectedAccount {
    pub id: i64,
    pub provider: String,
    pub display_name: String,
    pub seed_email: String,
    pub auth_type: String,
    pub keychain_ref: String,
    pub status: String,
    pub last_seen_at: Option<String>,
    pub created_at: String,
}

/// A named set of seed accounts.
#[derive(Debug, Clone)]
pub struct SeedGroup {
    pub id: i64,
    pub name: String,
    pub description: Option<String>,
    pub created_at: String,
    pub member_count: Option<i64>,
}

/// Membership of an account in a seed group.
#[derive(Debug, Clone)]
pub struct SeedGroupMember {
    pub id: i64,
    pub seed_group_id: i64,
    pub connected_account_id: i64,
    pub account: Option<ConnectedAccount>,
}

/// A sender identity that test messages go out from.
#[derive(Debug, Clone)]
pub struct SendingProfile {
    pub id: i64,
    pub name: String,
    pub from_name: String,
    pub from_email: String,
    pub reply_to: Option<String>,
    pub sending_mode: String,
    pub smtp_config_ref: Option<String>,
    pub notes: Option<String>,
    pub created_at: String,
}

/// One placement test: a message sent to a seed group.
#[derive(Debug, Clone)]
pub struct TestRun {
    pub id: i64,
    pub run_uuid: String,
    pub sending_profile_id: i64,
    pub seed_group_id: i64,
    pub status: String,
    pub subject_template: String,
    pub body_text: String,
    pub body_html: Option<String>,
    pub subject_token: String,
    pub body_token: String,
    pub started_at: Option<String>,
    pub completed_at: Option<String>,
    /// Bit pattern of the inbox rate (`f64::to_bits`).
    pub inbox_rate_bits: Option<u64>,
    /// Bit pattern of the spam rate (`f64::to_bits`).
    pub spam_rate_bits: Option<u64>,
    /// Bit pattern of the missing rate (`f64::to_bits`).
    pub missing_rate_bits: Option<u64>,
}

/// Where the test message landed for one seed account.
#[derive(Debug, Clone)]
pub struct TestResult {
    pub id: i64,
    pub test_run_id: i64,
    pub connected_account_id: i64,
    pub provider: String,
    pub placement: String,
    pub raw_folder: Option<String>,
    pub message_id_remote: Option<String>,
    pub matched_at: Option<String>,
    pub delivery_latency_ms: Option<i64>,
    pub spf_result: Option<String>,
    pub dkim_result: Option<String>,
    pub dmarc_result: Option<String>,
    pub auth_summary: Option<String>,
    /// The received headers as JSON text.
    pub headers_json: Option<String>,
    /// Free-form notes as JSON text.
    pub notes_json: Option<String>,
    pub account: Option<ConnectedAccount>,
}

/// A stored diagnostic finding of a run.
#[derive(Debug, Clone)]
pub struct DiagnosticIssue {
    pub id: i64,
    pub test_run_id: i64,
    pub check_type: String,
    pub severity: String,
    pub title: String,
    pub details: String,
    pub recommendation: String,
}

/// Placement counts of one provider in a run.
#[derive(Debug, Clone)]
pub struct PlacementSummary {
    pub provider: String,
    pub inbox: i64,
    pub spam: i64,
    pub junk: i64,
    pub promotions: i64,
    pub social: i64,
    pub missing: i64,
    pub other: i64,
    pub total: i64,
    /// Bit pattern of the inbox percentage (`f64::to_bits`).
    pub inbox_rate_bits: u64,
}

/// An instant as seconds and nanoseconds since the Unix epoch (UTC).
#[derive(Debug, Clone, Copy, PartialEq, Eq, Structural)]
pub struct Timestamp {
    pub secs: i64,
    pub nanos: u32,
}

/// What a mailbox search looks for.
#[derive(Debug, Clone)]
pub struct FindCriteria {
    pub subject_token: String,
    pub body_token: String,
    pub since: Timestamp,
}

/// A message found in a seed mailbox.
#[derive(Debug, Clone)]
pub struct MatchedMessage {
    pub remote_id: String,
    pub folder: String,
    pub labels: Vec<String>,
    pub headers: HeaderMap,
    pub received_at: Option<Timestamp>,
}

impl MatchedMessage {
    /// The message's labels as plain text.
    pub open spec fn label_texts(&self) -> Seq<Seq<char>> {
        self.labels@.map_values(|l: String| l@)
    }
}

} // verus!
