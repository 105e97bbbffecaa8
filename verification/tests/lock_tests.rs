use websocket_rust::lock::{CommandArg, LockError, RedisLock, RELEASE_SCRIPT};

fn is_v4(token: &str) -> bool {
    let chars: Vec<char> = token.chars().collect();
    if chars.len() != 36 {
        return false;
    }
    for (i, c) in chars.iter().enumerate() {
        let ok = if [8, 13, 18, 23].contains(&i) {
            *c == '-'
        } else {
            c.is_ascii_digit() || ('a'..='f').contains(c)
        };
        if !ok {
            return false;
        }
    }
    chars[14] == '4' && "89ab".contains(chars[19])
}

#[test]
fn new_lock_has_key_and_fresh_token() {
    let client = redis::Client::open("redis://127.0.0.1/").unwrap();
    let lock_1 = RedisLock::new(&client, "test_lock");
    let lock_2 = RedisLock::new(&client, "test_lock");
    assert_eq!(lock_1.lock_key(), "test_lock");
    assert!(is_v4(lock_1.owner_token()));
    assert!(is_v4(lock_2.owner_token()));
    assert_ne!(lock_1.owner_token(), lock_2.owner_token());
    assert_eq!(format!("{:?}", lock_1.client()), format!("{:?}", client));
}

#[test]
fn lock_from_url() {
    let lock = RedisLock::new_with_client("redis://localhost:6379", "vchat:user:alice").unwrap();
    assert_eq!(lock.lock_key(), "vchat:user:alice");
    assert!(is_v4(lock.owner_token()));
}

#[test]
fn lock_from_bad_url_fails() {
    assert!(matches!(RedisLock::new_with_client("invalid_url", "k"), Err(LockError::Client(_))));
    assert!(matches!(RedisLock::new_with_client("http://localhost", "k"), Err(LockError::Client(_))));
}

#[test]
fn acquire_command_sets_if_absent_with_expiry() {
    let client = redis::Client::open("redis://127.0.0.1/").unwrap();
    let lock = RedisLock::new(&client, "test_lock");
    let args = lock.acquire_command(10);
    assert_eq!(
        args,
        vec![
            CommandArg::Text("SET".to_string()),
            CommandArg::Text("test_lock".to_string()),
            CommandArg::Text(lock.owner_token().to_string()),
            CommandArg::Text("NX".to_string()),
            CommandArg::Text("EX".to_string()),
            CommandArg::Number(10),
        ]
    );
    assert!(RELEASE_SCRIPT.contains("redis.call(\"DEL\", KEYS[1])"));
}

#[test]
fn lock_from_opened_client_outcome() {
    let lock = RedisLock::from_opened_client(redis::Client::open("redis://127.0.0.1/"), "k1").unwrap();
    assert_eq!(lock.lock_key(), "k1");
    assert!(is_v4(lock.owner_token()));
    let refused = redis::Client::open("not a url");
    assert!(refused.is_err());
    assert!(matches!(RedisLock::from_opened_client(refused, "k1"), Err(LockError::Client(_))));
}

use websocket_rust::connection::{open_client, open_manager};

#[test]
fn release_command_names_key_and_token() {
    let client = redis::Client::open("redis://127.0.0.1/").unwrap();
    let lock = RedisLock::new(&client, "test_lock");
    let release = lock.release_command();
    assert_eq!(release.script, RELEASE_SCRIPT);
    assert_eq!(release.key, "test_lock");
    assert_eq!(release.token, lock.owner_token());
}

#[test]
fn urls_without_a_scheme_are_refused() {
    assert!(open_client("invalid_url").is_err());
    assert!(open_manager("invalid_url").is_err());
    assert!(RedisLock::new_with_client("invalid_url", "k").is_err());
}

#[test]
fn redis_urls_open_without_connecting() {
    assert!(open_client("redis://localhost:6379/0").is_ok());
    assert!(open_manager("redis://localhost:6379/0").is_ok());
    assert!(open_client("redis://localhost:6379/notanumber").is_err());
    assert!(open_manager("redis://localhost:6379/notanumber").is_err());
}

#[test]
fn lock_with_given_token() {
    let client = redis::Client::open("redis://127.0.0.1/").unwrap();
    let lock = RedisLock::with_token(&client, "test_lock", "owner-1".to_string());
    assert_eq!(lock.lock_key(), "test_lock");
    assert_eq!(lock.owner_token(), "owner-1");
}
