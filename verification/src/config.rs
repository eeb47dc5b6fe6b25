//! Postgres connection settings.

use vstd::prelude::*;
use vstd::string::*;

verus! {

/// Connection settings of the Postgres pool.
#[derive(Debug, Clone)]
pub struct PgConfig {
    pub url: String,
    pub max_connections: u32,
    pub min_connections: u32,
    /// How long acquiring a connection may take, in seconds.
    pub connect_timeout_secs: u64,
}

impl PgConfig {
    /// Settings for `url` with the default pool sizes (16 at most, 1 at
    /// least) and a 5 second acquire timeout.
    pub fn from_url(url: &str) -> (r: PgConfig)
        ensures
            r.url@ == url@,
            r.max_connections == 16,
            r.min_connections == 1,
            r.connect_timeout_secs == 5,
    {
        PgConfig {
            url: String::from_str(url),
            max_connections: 16,
            min_connections: 1,
            connect_timeout_secs: 5,
        }
    }
}

} // verus!
