//! The reasons for which a health check condemns a connection, and the
//! message that each reason gives the pool.

use deadpool::managed::RecycleError;
use vstd::prelude::*;
use vstd::string::StringExecFns;

use crate::trusted::{discard_with, message_of};

verus! {

/// Why a health check condemned a connection. A failure condemns the one
/// connection under test and nothing else.
#[derive(Debug, PartialEq, Eq)]
pub enum RecycleFailure {
    /// The probe query could not be executed. Holds the client's error as text.
    QueryFailed(String),
    /// The query ran, but reading its first row failed. Holds the client's
    /// error as text.
    FetchFailed(String),
    /// The query ran and returned no row at all.
    NoRows,
    /// A row came back, but its column could not be read as an unsigned
    /// 64-bit integer. Holds the client's error as text.
    DecodeFailed(String),
    /// The value that came back is not the probe that was sent.
    Mismatch,
}

impl RecycleFailure {
    /// The message of a failure: a fixed wording for its kind, followed by the
    /// client's error where the kind has one.
    pub open spec fn text(self) -> Seq<char> {
        match self {
            RecycleFailure::QueryFailed(detail) => "Health check query failed: "@ + detail@,
            RecycleFailure::FetchFailed(detail) => "Failed to fetch row: "@ + detail@,
            RecycleFailure::NoRows => "No rows returned from health check"@,
            RecycleFailure::DecodeFailed(detail) => "Failed to get recycle count: "@ + detail@,
            RecycleFailure::Mismatch => "Recycle count mismatch"@,
        }
    }

    /// The message of this failure.
    pub fn message(&self) -> (text: String)
        ensures
            text@ == self.text(),
    {
        match self {
            RecycleFailure::QueryFailed(detail) => {
                String::from_str("Health check query failed: ").concat(detail.as_str())
            },
            RecycleFailure::FetchFailed(detail) => {
                String::from_str("Failed to fetch row: ").concat(detail.as_str())
            },
            RecycleFailure::NoRows => String::from_str("No rows returned from health check"),
            RecycleFailure::DecodeFailed(detail) => {
                String::from_str("Failed to get recycle count: ").concat(detail.as_str())
            },
            RecycleFailure::Mismatch => String::from_str("Recycle count mismatch"),
        }
    }

    /// The failure as the pool takes it: a `RecycleError` that carries the
    /// failure's message.
    pub fn into_recycle_error(self) -> (reason: RecycleError<libsql::Error>)
        ensures
            message_of(reason) == Some(self.text()),
    {
        discard_with(self.message())
    }
}

} // verus!
