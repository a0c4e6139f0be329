//! What mailbox connectors report: folders and errors.
use vstd::prelude::*;

use crate::text::{owned, push_str, u64_text};

verus! {

/// Why a mailbox operation failed.
#[derive(Debug, Clone)]
pub enum ConnectorError {
    AuthError(String),
    NetworkError(String),
    RateLimited { retry_after_secs: u64 },
    ProviderError(String),
    NotFound,
}

/// The message that describes an error.
pub open spec fn error_message(e: ConnectorError) -> Seq<char> {
    match e {
        ConnectorError::AuthError(s) => "authentication failed: "@ + s@,
        ConnectorError::NetworkError(s) => "network error: "@ + s@,
        ConnectorError::RateLimited { retry_after_secs } => "rate limited, retry after "@
            + crate::text::int_text(retry_after_secs as int) + "s"@,
        ConnectorError::ProviderError(s) => "provider error: "@ + s@,
        ConnectorError::NotFound => "message not found"@,
    }
}

impl ConnectorError {
    /// The message that describes this error.
    pub fn message(&self) -> (r: String)
        ensures
            r@ == error_message(*self),
    {
        match self {
            ConnectorError::AuthError(s) => {
                let mut r = owned("authentication failed: ");
                push_str(&mut r, s.as_str());
                r
            },
            ConnectorError::NetworkError(s) => {
                let mut r = owned("network error: ");
                push_str(&mut r, s.as_str());
                r
            },
            ConnectorError::RateLimited { retry_after_secs } => {
                let mut r = owned("rate limited, retry after ");
                let n = u64_text(*retry_after_secs);
                push_str(&mut r, n.as_str());
                push_str(&mut r, "s");
                r
            },
            ConnectorError::ProviderError(s) => {
                let mut r = owned("provider error: ");
                push_str(&mut r, s.as_str());
                r
            },
            ConnectorError::NotFound => owned("message not found"),
        }
    }
}

/// The result of a mailbox operation.
pub type ConnectorResult<T> = Result<T, ConnectorError>;

/// A mailbox folder.
#[derive(Debug, Clone)]
pub struct MailboxFolder {
    pub id: String,
    pub name: String,
    pub special_use: Option<SpecialUse>,
}

/// The role of a mailbox folder.
#[derive(Debug, Clone, Copy, PartialEq, Eq, Structural)]
pub enum SpecialUse {
    Inbox,
    Spam,
    Junk,
    Trash,
    Sent,
    Drafts,
    Archive,
    All,
}

} // verus!
