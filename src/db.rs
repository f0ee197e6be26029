//! Settings of the database connection pool.
use vstd::prelude::*;

verus! {

/// How the connection pool is sized and how connections behave.
#[derive(Clone, Debug)]
pub struct DBConfig {
    /// The most connections the pool keeps open.
    pub database_max_connections: u32,
    /// The fewest connections the pool keeps open.
    pub database_min_connections: u32,
    /// How long a new connection may take, in seconds.
    pub database_connect_timeout: u64,
    /// Whether the statements that run are logged.
    pub database_logging: bool,
}

impl Default for DBConfig {
    /// Between 1 and 1024 connections, a 5 second connect timeout, no
    /// statement logging.
    fn default() -> (r: Self)
        ensures
            r.database_max_connections == 1024,
            r.database_min_connections == 1,
            r.database_connect_timeout == 5,
            !r.database_logging,
    {
        DBConfig {
            database_max_connections: 1024,
            database_min_connections: 1,
            database_connect_timeout: 5,
            database_logging: false,
        }
    }
}

} // verus!
