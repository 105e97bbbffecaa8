//! Opening Redis clients and connection managers from a connection URL.
//! Opening only reads the URL; no connection is made.

use vstd::prelude::*;

verus! {

#[verifier::external_type_specification]
#[verifier::external_body]
pub struct ExRedisClient(redis::Client);

#[verifier::external_type_specification]
#[verifier::external_body]
pub struct ExRedisError(redis::RedisError);

#[verifier::external_type_specification]
#[verifier::external_body]
pub struct ExRedisConnectionManager(bb8_redis::RedisConnectionManager);

/// Whether `url` is a plain-TCP Redis URL: it begins with `redis://`.
pub open spec fn is_redis_tcp_url(url: Seq<char>) -> bool {
    url.len() >= 8 && url.subrange(0, 8) == "redis://"@
}

/// Whether redis turns the URL `url` into connection settings. For a
/// `redis://` URL: a host is present and the database number and the
/// credentials decode. Other schemes are settled when the crate is built:
/// TLS (`rediss://`) by redis's TLS features, Unix sockets (`unix:`,
/// `redis+unix:`) by whether the target has them. Within one build the
/// answer is a function of the URL alone; no I/O takes part.
pub uninterp spec fn redis_url_accepted(url: Seq<char>) -> bool;

/// Calls `redis::Client::open` on a URL. It only parses the URL, so it
/// succeeds exactly on the URLs that redis accepts. A string without `:`
/// has no scheme, so `url::Url::parse` refuses it.
#[verifier::external_body]
pub fn open_client(redis_url: &str) -> (client: Result<redis::Client, redis::RedisError>)
    ensures
        !redis_url@.contains(':') ==> client is Err,
        is_redis_tcp_url(redis_url@) ==> (client is Ok <==> redis_url_accepted(redis_url@)),
        client is Ok <==> redis_url_accepted(redis_url@),
{
    redis::Client::open(redis_url)
}

/// Calls `bb8_redis::RedisConnectionManager::new` on a URL. It turns the
/// URL into connection settings exactly as `redis::Client::open` does
/// (the same `IntoConnectionInfo` for `&str`) and then opens a client on
/// those settings, which cannot fail; so it succeeds on the same URLs.
#[verifier::external_body]
pub fn open_manager(redis_url: &str) -> (manager: Result<bb8_redis::RedisConnectionManager, redis::RedisError>)
    ensures
        !redis_url@.contains(':') ==> manager is Err,
        is_redis_tcp_url(redis_url@) ==> (manager is Ok <==> redis_url_accepted(redis_url@)),
        manager is Ok <==> redis_url_accepted(redis_url@),
{
    bb8_redis::RedisConnectionManager::new(redis_url)
}

} // verus!
