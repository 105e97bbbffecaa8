//! Decisions of a user's WebSocket session: who the session is for and
//! which lock a request to open a video call takes.

use vstd::prelude::*;

use crate::channel::CHAT_CHANNEL;
use crate::message::{ChatMessage, Close, MessageContent};

verus! {

/// The query of a WebSocket upgrade: the name of the connecting user.
#[derive(Clone, Debug, PartialEq, Eq)]
pub struct WsParams {
    pub name: String,
}

/// What happens in a user's session.
#[derive(Clone, Debug)]
pub enum SessionEvent {
    /// The user's browser sent a chat message.
    FromClient(ChatMessage),
    /// A chat message arrived on the relay channel.
    FromChannel(ChatMessage),
    /// The connection ended.
    Closed,
    /// The browser sent a frame that is not text, which ends its stream.
    NonTextFrame,
    /// The browser sent text that is not a chat message.
    Undecodable,
}

/// What the session does in answer to an event.
#[derive(Clone, Debug)]
pub enum SessionAction {
    /// Publish the message on the relay channel.
    Publish { channel: String, message: ChatMessage },
    /// Send the message to the user's browser.
    Forward(ChatMessage),
    /// Drop the message: it is addressed to someone else.
    Ignore,
    /// Stop reading from the browser; the session then closes.
    EndSession,
    /// Remove the user's stored position and data, and tell the other
    /// users, by publishing `notice` on `channel`, that the user left.
    Leave { user: String, channel: String, notice: ChatMessage },
}

/// Whether `notice` announces to every user that `user` left: a broadcast
/// from `user` asking to close any call with them.
pub open spec fn is_departure_notice(notice: ChatMessage, user: Seq<char>) -> bool {
    &&& notice.user_id@ == user
    &&& notice.to_id@.len() == 0
    &&& notice.message matches MessageContent::Close(c) && c.kind@ == "leave"@
}

/// The message that tells every user that `user_id` left.
pub fn departure_notice(user_id: &str) -> (notice: ChatMessage)
    ensures
        is_departure_notice(notice, user_id@),
{
    ChatMessage {
        user_id: String::from_str(user_id),
        to_id: String::new(),
        message: MessageContent::Close(Close { kind: String::from_str("leave") }),
    }
}

/// The session of one connected user.
#[derive(Clone, Debug)]
pub struct Session {
    user_id: String,
}

impl Session {
    /// The user that the session serves.
    pub closed spec fn user_view(&self) -> Seq<char> {
        self.user_id@
    }

    /// The session of `user_id`.
    pub fn new(user_id: &str) -> (s: Self)
        ensures
            s.user_view() == user_id@,
    {
        Session { user_id: String::from_str(user_id) }
    }

    /// The user that the session serves.
    pub fn user_id(&self) -> (u: &str)
        ensures
            u@ == self.user_view(),
    {
        self.user_id.as_str()
    }

    /// The session's answer to `event`: a message from the browser is
    /// published on the chat channel; a relayed message is forwarded when
    /// it is delivered to this user and ignored otherwise; a frame that is
    /// not text, or text that is not a chat message, ends the browser's
    /// side of the session; when the connection ends the user is removed
    /// and the other users are told.
    pub fn step(&self, event: SessionEvent) -> (action: SessionAction)
        ensures
            match event {
                SessionEvent::FromClient(m) => action matches SessionAction::Publish { channel, message }
                    && channel@ == CHAT_CHANNEL@ && message == m,
                SessionEvent::FromChannel(m) => if m.delivered_to(self.user_view()) {
                    action == SessionAction::Forward(m)
                } else {
                    action is Ignore
                },
                SessionEvent::NonTextFrame => action is EndSession,
                SessionEvent::Undecodable => action is EndSession,
                SessionEvent::Closed => action matches SessionAction::Leave { user, channel, notice }
                    && user@ == self.user_view() && channel@ == CHAT_CHANNEL@
                    && is_departure_notice(notice, self.user_view()),
            },
    {
        match event {
            SessionEvent::FromClient(m) => SessionAction::Publish {
                channel: String::from_str(CHAT_CHANNEL),
                message: m,
            },
            SessionEvent::FromChannel(m) => {
                if m.is_delivered_to(self.user_id.as_str()) {
                    SessionAction::Forward(m)
                } else {
                    SessionAction::Ignore
                }
            },
            SessionEvent::NonTextFrame => SessionAction::EndSession,
            SessionEvent::Undecodable => SessionAction::EndSession,
            SessionEvent::Closed => SessionAction::Leave {
                user: self.user_id.clone(),
                channel: String::from_str(CHAT_CHANNEL),
                notice: departure_notice(self.user_id.as_str()),
            },
        }
    }
}

/// How long a video-call lock lives, in seconds.
pub const VIDEO_LOCK_TTL_SECS: u64 = 10;

/// The key of the lock that guards `user`'s video calls.
pub open spec fn video_lock_key(user: Seq<char>) -> Seq<char> {
    "vchat:user:"@ + user
}

/// The lock that a notice of type `notice_type` from `user_id` takes: the
/// user's video-call lock for an `OpenVideo` notice, none for any other.
pub fn video_lock_request(notice_type: &str, user_id: &str) -> (key: Option<String>)
    ensures
        notice_type@ == "OpenVideo"@ ==> (key matches Some(k) && k@ == video_lock_key(user_id@)),
        notice_type@ == "OpenVideo"@ ==> (key matches Some(k) && k@ == "vchat:user:"@ + user_id@),
        notice_type@ != "OpenVideo"@ ==> key is None,
{
    let kind = String::from_str(notice_type);
    let open_video = String::from_str("OpenVideo");
    if kind == open_video {
        let mut key = String::from_str("vchat:user:");
        key.append(user_id);
        Some(key)
    } else {
        None
    }
}

/// A user's video-call lock key is the fixed prefix `vchat:user:`
/// followed by the user's name, so it is never the key that holds the
/// user's own data (the bare name).
pub proof fn lemma_video_lock_key_is_prefixed(user: Seq<char>)
    ensures
        video_lock_key(user) == "vchat:user:"@ + user,
        video_lock_key(user).len() == "vchat:user:"@.len() + user.len(),
        video_lock_key(user).subrange(0, "vchat:user:"@.len() as int) == "vchat:user:"@,
        video_lock_key(user).subrange("vchat:user:"@.len() as int, video_lock_key(user).len() as int)
            == user,
        video_lock_key(user) != user,
{
    let prefix = "vchat:user:"@;
    reveal_strlit("vchat:user:");
    assert(video_lock_key(user).subrange(0, prefix.len() as int) =~= prefix);
    assert(video_lock_key(user).subrange(prefix.len() as int, video_lock_key(user).len() as int) =~= user);
    assert(video_lock_key(user).len() != user.len());
}

/// Different users never share a video-call lock.
pub proof fn lemma_video_lock_keys_distinct(a: Seq<char>, b: Seq<char>)
    requires
        a != b,
    ensures
        video_lock_key(a) != video_lock_key(b),
{
    let prefix = "vchat:user:"@;
    if video_lock_key(a) == video_lock_key(b) {
        assert(a =~= video_lock_key(a).subrange(prefix.len() as int, video_lock_key(a).len() as int));
        assert(b =~= video_lock_key(b).subrange(prefix.len() as int, video_lock_key(b).len() as int));
    }
}

} // verus!
