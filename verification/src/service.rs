//! Settings of the Redis connection pool and the answer given when no
//! connection can be had.

use vstd::prelude::*;

verus! {

/// How the Redis connection pool is built.
#[derive(Clone, Copy, Debug, PartialEq, Eq)]
pub struct PoolSettings {
    /// How long to wait for a pooled connection, in seconds.
    pub connection_timeout_secs: u64,
    /// The most connections that the pool holds.
    pub max_size: u32,
}

impl PoolSettings {
    /// The service's pool: a minute's wait for a connection, fifteen
    /// connections at most.
    pub fn standard() -> (s: Self)
        ensures
            s.connection_timeout_secs == 60,
            s.max_size == 15,
    {
        PoolSettings { connection_timeout_secs: 60, max_size: 15 }
    }
}

/// An error answer: its HTTP status and the two fields of its JSON body.
#[derive(Clone, Debug, PartialEq, Eq)]
pub struct ErrorReply {
    pub status: u16,
    pub error: String,
    pub message: String,
}

/// The answer when the pool yields no Redis connection: an internal server
/// error that says Redis could not be reached.
pub fn redis_unavailable() -> (reply: ErrorReply)
    ensures
        reply.status == 500,
        reply.error@ == "Internal server error"@,
        reply.message@ == "Failed to connect to Redis"@,
{
    ErrorReply {
        status: 500,
        error: String::from_str("Internal server error"),
        message: String::from_str("Failed to connect to Redis"),
    }
}

} // verus!
