use websocket_rust::channel::{is_exit_payload, CHAT_CHANNEL};
use websocket_rust::retry::{ConnectRetry, LISTENER_CONNECT_ATTEMPTS, RETRIES_EXHAUSTED_MESSAGE};
use websocket_rust::service::{redis_unavailable, PoolSettings};
use websocket_rust::websocket::{video_lock_request, VIDEO_LOCK_TTL_SECS};

#[test]
fn open_video_notice_takes_the_users_lock() {
    assert_eq!(video_lock_request("OpenVideo", "alice"), Some("vchat:user:alice".to_string()));
    assert_eq!(VIDEO_LOCK_TTL_SECS, 10);
}

#[test]
fn other_notices_take_no_lock() {
    assert_eq!(video_lock_request("CloseVideo", "alice"), None);
    assert_eq!(video_lock_request("openvideo", "alice"), None);
    assert_eq!(video_lock_request("", "alice"), None);
}

#[test]
fn subscriber_stops_only_on_exit() {
    assert!(is_exit_payload("exit"));
    assert!(!is_exit_payload("exit "));
    assert!(!is_exit_payload("test_message"));
    assert!(!is_exit_payload(""));
    assert_eq!(CHAT_CHANNEL, "my_channel");
}

#[test]
fn lock_policy_allows_ten_attempts() {
    let mut retry = ConnectRetry::for_lock();
    assert_eq!(retry.timeout_secs(), 30);
    let mut attempts = 0;
    while retry.may_attempt() {
        attempts += 1;
        let wait = retry.record_failure();
        if attempts < 10 {
            assert_eq!(wait, Some(5));
        } else {
            assert_eq!(wait, None);
        }
    }
    assert_eq!(attempts, 10);
    assert_eq!(retry.record_failure(), None);
    assert!(!retry.may_attempt());
}

#[test]
fn listener_policy_gives_up_after_its_budget() {
    let mut retry = ConnectRetry::for_listener(LISTENER_CONNECT_ATTEMPTS);
    assert_eq!(retry.timeout_secs(), 10);
    let mut waits = Vec::new();
    while retry.may_attempt() {
        if let Some(w) = retry.record_failure() {
            waits.push(w);
        }
    }
    assert_eq!(waits, vec![10, 10, 10, 10]);
    assert_eq!(RETRIES_EXHAUSTED_MESSAGE, "Over max retry count for redis connection");
}

#[test]
fn zero_budget_makes_no_attempt() {
    let retry = ConnectRetry::for_listener(0);
    assert!(!retry.may_attempt());
}

#[test]
fn pool_and_unavailable_reply() {
    let settings = PoolSettings::standard();
    assert_eq!(settings.connection_timeout_secs, 60);
    assert_eq!(settings.max_size, 15);
    let reply = redis_unavailable();
    assert_eq!(reply.status, 500);
    assert_eq!(reply.error, "Internal server error");
    assert_eq!(reply.message, "Failed to connect to Redis");
}

use websocket_rust::message::{ChatMessage, MessageContent};
use websocket_rust::websocket::{Session, SessionAction, SessionEvent};

fn text_from(user: &str, to: &str, text: &str) -> ChatMessage {
    ChatMessage {
        user_id: user.to_string(),
        to_id: to.to_string(),
        message: MessageContent::Text(text.to_string()),
    }
}

#[test]
fn client_messages_are_published_on_the_chat_channel() {
    let session = Session::new("alice");
    match session.step(SessionEvent::FromClient(text_from("alice", "bob", "hi"))) {
        SessionAction::Publish { channel, message } => {
            assert_eq!(channel, "my_channel");
            assert_eq!(message.to_id, "bob");
            assert_eq!(message.user_id, "alice");
        }
        other => panic!("unexpected action {:?}", other),
    }
}

#[test]
fn relayed_messages_reach_only_their_recipients() {
    let bob = Session::new("bob");
    let carol = Session::new("carol");
    let direct = text_from("alice", "bob", "hi bob");
    assert!(matches!(bob.step(SessionEvent::FromChannel(direct.clone())), SessionAction::Forward(_)));
    assert!(matches!(carol.step(SessionEvent::FromChannel(direct)), SessionAction::Ignore));
    let broadcast = text_from("alice", "", "hi all");
    assert!(matches!(bob.step(SessionEvent::FromChannel(broadcast.clone())), SessionAction::Forward(_)));
    assert!(matches!(carol.step(SessionEvent::FromChannel(broadcast)), SessionAction::Forward(_)));
}

#[test]
fn closing_removes_the_sessions_user() {
    let session = Session::new("dave");
    assert_eq!(session.user_id(), "dave");
    match session.step(SessionEvent::Closed) {
        SessionAction::Leave { user, channel, notice } => {
            assert_eq!(user, "dave");
            assert_eq!(channel, "my_channel");
            assert_eq!(notice.user_id, "dave");
            assert_eq!(notice.to_id, "");
            assert_eq!(notice.message.to_display_string(), "Close(type: leave)");
        }
        other => panic!("unexpected action {:?}", other),
    }
}

#[test]
fn different_users_have_different_video_locks() {
    let a = video_lock_request("OpenVideo", "ab").unwrap();
    let b = video_lock_request("OpenVideo", "a").unwrap();
    assert_ne!(a, b);
}

use websocket_rust::channel::{subscriber_step, SubscriberEvent, SubscriberStep};

#[test]
fn subscriber_steps() {
    assert_eq!(subscriber_step(&SubscriberEvent::ConnectFailed), SubscriberStep::Finish);
    assert_eq!(subscriber_step(&SubscriberEvent::SubscribeFailed), SubscriberStep::Listen);
    assert_eq!(subscriber_step(&SubscriberEvent::Subscribed), SubscriberStep::Listen);
    assert_eq!(subscriber_step(&SubscriberEvent::Payload("exit".to_string())), SubscriberStep::Finish);
    assert_eq!(subscriber_step(&SubscriberEvent::Payload("test_message".to_string())), SubscriberStep::Listen);
    assert_eq!(subscriber_step(&SubscriberEvent::ReadFailed), SubscriberStep::Fail);
}

#[test]
fn bad_frames_end_the_browser_side() {
    let session = Session::new("erin");
    assert!(matches!(session.step(SessionEvent::NonTextFrame), SessionAction::EndSession));
    assert!(matches!(session.step(SessionEvent::Undecodable), SessionAction::EndSession));
}
