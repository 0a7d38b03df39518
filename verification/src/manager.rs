//! The manager: what a pool holds in order to open connections and to check
//! the ones it takes back.

use deadpool::managed::Metrics;
use std::sync::atomic::{AtomicUsize, Ordering};
use vstd::prelude::*;

use crate::health::HealthCheck;
use crate::probe::probe_of;

verus! {

/// Opens `libsql` connections for a pool and starts the health checks of the
/// connections that the pool takes back.
///
/// A manager owns its database handle and one counter. The counter starts at
/// zero and moves one step on with every health check, whatever the check's
/// verdict; it is never set back.
#[derive(Debug)]
pub struct Manager {
    database: libsql::Database,
    recycle_count: AtomicUsize,
}

impl Manager {
    /// The database handle that this manager owns, as contracts speak of it.
    pub closed spec fn source(&self) -> libsql::Database {
        self.database
    }

    /// A manager for the database given.
    #[must_use]
    pub fn from_database(database: libsql::Database) -> (manager: Manager)
        ensures
            manager.source() == database,
    {
        Manager { database, recycle_count: AtomicUsize::new(0) }
    }

    /// The database handle, from which the pool's connections are opened.
    pub fn database(&self) -> (database: &libsql::Database)
        ensures
            *database == self.source(),
    {
        &self.database
    }

    /// Starts the health check of a connection that the pool took back. The
    /// check gets the counter's value as its probe, and the counter moves one
    /// step on, whatever the check's verdict will be. Both happen in one atomic
    /// operation of `std`, so that checks that run at the same time get
    /// different probes; the contract does not reach into that operation, and
    /// says of the probe only that it is a value of the counter. The pool's
    /// metrics are accepted and not looked at.
    pub fn begin_recycle(&self, _metrics: &Metrics) -> (check: HealthCheck)
        ensures
            check.sent() <= usize::MAX,
    {
        let count = self.recycle_count.fetch_add(1, Ordering::Relaxed);
        HealthCheck::new(probe_of(count))
    }
}

} // verus!
