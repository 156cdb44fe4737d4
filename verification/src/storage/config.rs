//! Settings of the store.

use crate::utils::time::TimeSpan;
use vstd::prelude::*;
use vstd::string::StringExecFns;

verus! {

/// Where the store lives when nothing else is configured.
pub const DEFAULT_URL: &'static str = "sqlite://data.db";

/// How the store is reached.
#[derive(Debug)]
pub struct DatabaseConfig {
    /// Address of the database.
    pub url: String,
    /// How long a statement waits for a database that is busy.
    pub timeout: TimeSpan,
    /// How long a caller waits for a free connection.
    pub pool_timeout: TimeSpan,
    /// The largest number of connections held at once.
    pub pool_max_connections: u32,
}

impl Default for DatabaseConfig {
    /// A database file beside the program, sixteen seconds for a busy
    /// database, thirty-two for a connection, two connections.
    fn default() -> (config: Self)
        ensures
            config.url@ == DEFAULT_URL@,
            config.timeout.millis == 16_000,
            config.pool_timeout.millis == 32_000,
            config.pool_max_connections == 2,
    {
        Self {
            url: String::from_str(DEFAULT_URL),
            timeout: TimeSpan::from_secs(16),
            pool_timeout: TimeSpan::from_secs(32),
            pool_max_connections: 2,
        }
    }
}

} // verus!
