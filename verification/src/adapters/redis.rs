//! The Redis cache adapter's configuration and how its replies are read.

use vstd::prelude::*;
use crate::adapters::http::{duration_of_secs, secs_duration};

verus! {

/// Redis cache configuration.
#[derive(Debug)]
pub struct RedisConfig {
    pub url: String,
    pub pool_size: usize,
    pub connect_timeout: core::time::Duration,
    pub read_timeout: core::time::Duration,
    pub write_timeout: core::time::Duration,
}

impl Clone for RedisConfig {
    fn clone(&self) -> (r: Self)
        ensures
            r == *self,
    {
        RedisConfig {
            url: self.url.clone(),
            pool_size: self.pool_size,
            connect_timeout: self.connect_timeout,
            read_timeout: self.read_timeout,
            write_timeout: self.write_timeout,
        }
    }
}

impl Default for RedisConfig {
    fn default() -> (r: Self)
        ensures
            r.url@ == "redis://127.0.0.1:6379"@,
            r.pool_size == 16,
            r.connect_timeout == duration_of_secs(5),
            r.read_timeout == duration_of_secs(3),
            r.write_timeout == duration_of_secs(3),
    {
        RedisConfig {
            url: String::from_str("redis://127.0.0.1:6379"),
            pool_size: 16,
            connect_timeout: secs_duration(5),
            read_timeout: secs_duration(3),
            write_timeout: secs_duration(3),
        }
    }
}

/// The time to live that a `TTL` reply reports: none for a negative reply
/// (no such key, or no expiry), else that many seconds.
pub fn ttl_seconds(ttl: i64) -> (r: Option<u64>)
    ensures
        ttl < 0 ==> r is None,
        ttl >= 0 ==> r == Some(ttl as u64),
{
    if ttl < 0 {
        None
    } else {
        Some(ttl as u64)
    }
}

/// Whether a `DEL` reply reports that something was deleted.
pub fn deleted_any(deleted: i64) -> (r: bool)
    ensures
        r == (deleted > 0),
{
    deleted > 0
}

} // verus!
