//! The health check that decides whether a connection may be handed out again.
//!
//! A check sends one query through the connection. The query echoes the
//! check's probe value as a single row with a single column. The caller
//! executes the query, reads the first row and reads its column as an unsigned
//! 64-bit integer; after each of these three operations it hands the outcome to
//! the check, which either lets it go on or condemns the connection.
//!
//! An open socket does not show that a connection still answers queries
//! correctly. A probe that comes back unchanged does.

use vstd::prelude::*;

use crate::failure::RecycleFailure;
use crate::trusted::{diagnostic, rendering};

verus! {

/// The query of a health check. Its one parameter is the check's probe.
pub const PROBE_QUERY: &'static str = "SELECT ?";

/// One health check in flight.
#[derive(Debug, Clone, Copy, PartialEq, Eq)]
pub struct HealthCheck {
    probe: u64,
}

impl HealthCheck {
    /// The probe of this check, as contracts speak of it.
    pub closed spec fn sent(self) -> u64 {
        self.probe
    }

    /// What this check makes of the outcome of executing the query: rows go on
    /// to the next operation, an error condemns the connection.
    pub open spec fn query_step<R>(self, outcome: Result<R, String>) -> Result<R, RecycleFailure> {
        match outcome {
            Ok(rows) => Ok(rows),
            Err(detail) => Err(RecycleFailure::QueryFailed(detail)),
        }
    }

    /// What this check makes of the outcome of reading the first row: a row
    /// goes on to the next operation, an error or the lack of a row condemns
    /// the connection.
    pub open spec fn fetch_step<R>(self, outcome: Result<Option<R>, String>) -> Result<
        R,
        RecycleFailure,
    > {
        match outcome {
            Ok(Some(row)) => Ok(row),
            Ok(None) => Err(RecycleFailure::NoRows),
            Err(detail) => Err(RecycleFailure::FetchFailed(detail)),
        }
    }

    /// The verdict of this check on the outcome of reading the column: the
    /// connection is kept where the column holds the probe, and condemned
    /// where it holds another value or could not be read.
    pub open spec fn verdict_on(self, outcome: Result<u64, String>) -> Result<(), RecycleFailure> {
        match outcome {
            Ok(echo) => if echo == self.sent() {
                Ok(())
            } else {
                Err(RecycleFailure::Mismatch)
            },
            Err(detail) => Err(RecycleFailure::DecodeFailed(detail)),
        }
    }

    /// A health check that sends `probe`.
    pub fn new(probe: u64) -> (check: HealthCheck)
        ensures
            check.sent() == probe,
    {
        HealthCheck { probe }
    }

    /// The value to bind to the parameter of `PROBE_QUERY`.
    pub fn probe(&self) -> (probe: u64)
        ensures
            probe == self.sent(),
    {
        self.probe
    }

    /// Takes the outcome of executing the query. Where it was executed, its
    /// rows go on to the next operation. Where it failed, the connection is
    /// condemned with the client's error: a connection that cannot execute
    /// the query never passes.
    pub fn after_query<R>(&self, outcome: Result<R, String>) -> (step: Result<R, RecycleFailure>)
        ensures
            step == self.query_step(outcome),
            outcome is Err ==> step matches Err(RecycleFailure::QueryFailed(_)),
    {
        match outcome {
            Ok(rows) => Ok(rows),
            Err(detail) => Err(RecycleFailure::QueryFailed(detail)),
        }
    }

    /// Takes the outcome of reading the first row. A row goes on to the next
    /// operation. The connection is condemned where reading failed, and also
    /// where the query returned no row: a connection that answers a query with
    /// nothing is broken.
    pub fn after_fetch<R>(&self, outcome: Result<Option<R>, String>) -> (step: Result<
        R,
        RecycleFailure,
    >)
        ensures
            step == self.fetch_step(outcome),
    {
        match outcome {
            Ok(Some(row)) => Ok(row),
            Ok(None) => Err(RecycleFailure::NoRows),
            Err(detail) => Err(RecycleFailure::FetchFailed(detail)),
        }
    }

    /// Takes the outcome of reading the row's column and gives the verdict.
    /// The connection is kept if and only if the column was read and holds the
    /// probe that was sent. Any other value is a mismatch, whatever it is.
    pub fn after_read(&self, outcome: Result<u64, String>) -> (verdict: Result<(), RecycleFailure>)
        ensures
            verdict == self.verdict_on(outcome),
            verdict is Ok <==> outcome == Ok::<u64, String>(self.sent()),
            outcome matches Ok(echo) ==> (echo != self.sent() ==> verdict matches Err(
                RecycleFailure::Mismatch,
            )),
    {
        match outcome {
            Ok(echo) => {
                if echo == self.probe {
                    Ok(())
                } else {
                    Err(RecycleFailure::Mismatch)
                }
            },
            Err(detail) => Err(RecycleFailure::DecodeFailed(detail)),
        }
    }
}

/// The verdict of a health check knows two values only, and a connection is
/// kept in one case only: the query was executed, a row came back, and its
/// column held the probe that was sent. In every other case one of the three
/// operations condemns the connection.
pub proof fn kept_only_on_true_echo<A, B>(
    check: HealthCheck,
    executed: Result<A, String>,
    fetched: Result<Option<B>, String>,
    read: Result<u64, String>,
)
    ensures
        ({
            &&& check.query_step(executed) is Ok
            &&& check.fetch_step(fetched) is Ok
            &&& check.verdict_on(read) is Ok
        }) <==> ({
            &&& executed is Ok
            &&& fetched is Ok && fetched->Ok_0 is Some
            &&& read == Ok::<u64, String>(check.sent())
        }),
{
}

/// Renders the error of an outcome as text, so that a health check can take the
/// outcome. A success is handed on unchanged. A failure stays a failure and
/// carries the client's rendering of its error, whole and unchanged.
pub fn rendered<R>(outcome: Result<R, libsql::Error>) -> (plain: Result<R, String>)
    ensures
        outcome matches Ok(value) ==> plain == Ok::<R, String>(value),
        outcome matches Err(error) ==> (plain matches Err(text) && text@ == rendering(error)),
{
    match outcome {
        Ok(value) => Ok(value),
        Err(error) => Err(diagnostic(&error)),
    }
}

} // verus!
