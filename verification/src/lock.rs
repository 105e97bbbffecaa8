//! A lock held in Redis under a key, owned by a random token so that only
//! its owner releases it.

use vstd::prelude::*;

use crate::connection::{is_redis_tcp_url, open_client, redis_url_accepted};

verus! {

/// Whether `c` is a lowercase hexadecimal digit.
pub open spec fn is_lower_hex(c: char) -> bool {
    ('0' <= c && c <= '9') || ('a' <= c && c <= 'f')
}

/// Whether `s` is a random (version 4) UUID in its hyphenated lowercase
/// form: 36 characters, hyphens at 8, 13, 18 and 23, the version digit `4`
/// at 14, a variant digit out of `8`, `9`, `a`, `b` at 19, and lowercase
/// hexadecimal digits elsewhere.
pub open spec fn is_v4_token(s: Seq<char>) -> bool {
    &&& s.len() == 36
    &&& forall|i: int| 0 <= i < 36 ==> token_char_ok(i, #[trigger] s[i])
    &&& s[14] == '4'
    &&& (s[19] == '8' || s[19] == '9' || s[19] == 'a' || s[19] == 'b')
}

/// The character at position `i` of a hyphenated UUID: a hyphen between
/// the groups, a lowercase hexadecimal digit elsewhere.
pub open spec fn token_char_ok(i: int, c: char) -> bool {
    if i == 8 || i == 13 || i == 18 || i == 23 {
        c == '-'
    } else {
        is_lower_hex(c)
    }
}

/// Calls `uuid::Uuid::new_v4` and renders the UUID with its `Display`
/// impl. The value is random; what is stated holds of every outcome: the
/// hyphenated lowercase form, whose version nibble `new_v4` sets to 4 and
/// whose variant bits it sets to `10`.
#[verifier::external_body]
fn new_owner_token() -> (token: String)
    ensures
        is_v4_token(token@),
{
    uuid::Uuid::new_v4().to_string()
}

/// Calls `redis::Client::clone`, which is derived and copies the connection
/// settings field by field.
#[verifier::external_body]
fn clone_client(client: &redis::Client) -> (copy: redis::Client)
    ensures
        copy == *client,
{
    client.clone()
}

/// Why a lock could not be set up.
#[derive(Debug)]
pub enum LockError {
    /// The Redis client refused the connection URL.
    Client(redis::RedisError),
}

/// One argument of a Redis command.
#[derive(Debug, PartialEq, Eq)]
pub enum CommandArg {
    Text(String),
    Number(u64),
}

/// Whether `arg` is the text `s`.
pub open spec fn arg_is_text(arg: CommandArg, s: Seq<char>) -> bool {
    arg matches CommandArg::Text(t) && t@ == s
}

/// The Lua script that deletes the lock's key only while it still holds
/// the owner's token (`KEYS[1]` is the key, `ARGV[1]` the token).
pub const RELEASE_SCRIPT: &'static str = "
            if redis.call(\"GET\", KEYS[1]) == ARGV[1] then
                return redis.call(\"DEL\", KEYS[1])
            else
                return 0
            end
        ";

/// The call that gives a lock back: `RELEASE_SCRIPT` run with the lock's
/// key as `KEYS[1]` and its owner token as `ARGV[1]`.
#[derive(Clone, Debug, PartialEq, Eq)]
pub struct ReleaseCommand {
    pub script: &'static str,
    pub key: String,
    pub token: String,
}

/// A lock on `lock_key`, identified by a token of its own.
pub struct RedisLock {
    client: redis::Client,
    lock_key: String,
    owner_token: String,
}

impl RedisLock {
    /// The client that the lock talks to Redis through.
    pub closed spec fn client_view(&self) -> redis::Client {
        self.client
    }

    /// The key under which the lock is stored.
    pub closed spec fn key_view(&self) -> Seq<char> {
        self.lock_key@
    }

    /// The token that marks this lock as the owner of the key.
    pub closed spec fn token_view(&self) -> Seq<char> {
        self.owner_token@
    }

    /// A lock on `lock_key` through a copy of `client`, with a fresh random
    /// owner token.
    pub fn new(client: &redis::Client, lock_key: &str) -> (lock: Self)
        ensures
            lock.client_view() == *client,
            lock.key_view() == lock_key@,
            is_v4_token(lock.token_view()),
    {
        RedisLock::with_token(client, lock_key, new_owner_token())
    }

    /// A lock on `lock_key` through a copy of `client`, owned by `token`.
    pub fn with_token(client: &redis::Client, lock_key: &str, token: String) -> (lock: Self)
        ensures
            lock.client_view() == *client,
            lock.key_view() == lock_key@,
            lock.token_view() == token@,
    {
        RedisLock { client: clone_client(client), lock_key: String::from_str(lock_key), owner_token: token }
    }

    /// A lock on `lock_key` from the outcome of opening a client: a lock
    /// through the opened client, or the client's error when opening failed.
    pub fn from_opened_client(
        opened: Result<redis::Client, redis::RedisError>,
        lock_key: &str,
    ) -> (res: Result<Self, LockError>)
        ensures
            match opened {
                Ok(client) => res matches Ok(lock) && lock.client_view() == client
                    && lock.key_view() == lock_key@ && is_v4_token(lock.token_view()),
                Err(e) => res matches Err(LockError::Client(err)) && err == e,
            },
    {
        match opened {
            Ok(client) => Ok(RedisLock::new(&client, lock_key)),
            Err(e) => Err(LockError::Client(e)),
        }
    }

    /// A lock on `lock_key` through a client opened on `redis_url`; the
    /// client's error when the URL is refused.
    pub fn new_with_client(redis_url: &str, lock_key: &str) -> (res: Result<Self, LockError>)
        ensures
            res matches Ok(lock) ==> lock.key_view() == lock_key@ && is_v4_token(lock.token_view()),
            res matches Err(e) ==> e is Client,
            !redis_url@.contains(':') ==> res is Err,
            is_redis_tcp_url(redis_url@) ==> (res is Ok <==> redis_url_accepted(redis_url@)),
            res is Ok <==> redis_url_accepted(redis_url@),
    {
        RedisLock::from_opened_client(open_client(redis_url), lock_key)
    }

    /// The call that gives the lock back: delete the key only while it
    /// still holds this lock's token.
    pub fn release_command(&self) -> (cmd: ReleaseCommand)
        ensures
            cmd.script@ == RELEASE_SCRIPT@,
            cmd.key@ == self.key_view(),
            cmd.token@ == self.token_view(),
    {
        ReleaseCommand {
            script: RELEASE_SCRIPT,
            key: self.lock_key.clone(),
            token: self.owner_token.clone(),
        }
    }

    /// The command that takes the lock: set the key to the owner's token
    /// only if the key is absent (`NX`), expiring after `ttl_sec` seconds
    /// (`EX`).
    pub fn acquire_command(&self, ttl_sec: u64) -> (args: Vec<CommandArg>)
        ensures
            args.len() == 6,
            arg_is_text(args[0], "SET"@),
            arg_is_text(args[1], self.key_view()),
            arg_is_text(args[2], self.token_view()),
            arg_is_text(args[3], "NX"@),
            arg_is_text(args[4], "EX"@),
            args[5] == CommandArg::Number(ttl_sec),
    {
        let mut args: Vec<CommandArg> = Vec::new();
        args.push(CommandArg::Text(String::from_str("SET")));
        args.push(CommandArg::Text(self.lock_key.clone()));
        args.push(CommandArg::Text(self.owner_token.clone()));
        args.push(CommandArg::Text(String::from_str("NX")));
        args.push(CommandArg::Text(String::from_str("EX")));
        args.push(CommandArg::Number(ttl_sec));
        args
    }

    /// The client that the lock talks to Redis through.
    pub fn client(&self) -> (c: &redis::Client)
        ensures
            *c == self.client_view(),
    {
        &self.client
    }

    /// The key under which the lock is stored.
    pub fn lock_key(&self) -> (k: &str)
        ensures
            k@ == self.key_view(),
    {
        self.lock_key.as_str()
    }

    /// The token that marks this lock as the owner of the key.
    pub fn owner_token(&self) -> (t: &str)
        ensures
            t@ == self.token_view(),
    {
        self.owner_token.as_str()
    }
}

} // verus!
