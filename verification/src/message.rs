//! Chat messages relayed between users, how they are shown as text, and
//! to whom a relayed message is delivered.

use vstd::prelude::*;

verus! {

/// A chat or signalling message sent by `user_id`. An empty `to_id` addresses
/// every connected user; otherwise it names the one recipient.
#[derive(Clone, Debug)]
pub struct ChatMessage {
    pub user_id: String,
    pub to_id: String,
    pub message: MessageContent,
}

/// The payload of a chat message: plain text or one of the video-call
/// signalling messages.
#[derive(Clone, Debug)]
pub enum MessageContent {
    Text(String),
    Sdp(Sdp),
    Ice(Ice),
    /// Not part of the signalling protocol: asks the peer to close the call.
    Close(Close),
}

/// A session description offer or answer.
#[derive(Clone, Debug)]
pub struct Sdp {
    pub kind: String,
    pub sdp: String,
}

/// An ICE candidate announcement.
#[derive(Clone, Debug)]
pub struct Ice {
    pub kind: String,
    pub candidate: Candidate,
}

/// A request to close a call.
#[derive(Clone, Debug)]
pub struct Close {
    pub kind: String,
}

/// An ICE candidate as the browser reports it.
#[derive(Clone, Debug)]
#[allow(non_snake_case)]
pub struct Candidate {
    pub candidate: String,
    pub sdpMid: String,
    pub sdpMLineIndex: u32,
}

impl MessageContent {
    /// The text form of a message: text as it is, signalling messages as a
    /// short summary naming their type.
    pub open spec fn display_view(self) -> Seq<char> {
        match self {
            MessageContent::Text(text) => text@,
            MessageContent::Sdp(sdp) => "Sdp(type: "@ + sdp.kind@ + ", sdp: "@ + sdp.sdp@ + ")"@,
            MessageContent::Ice(ice) => "Ice(type: "@ + ice.kind@ + ", candidate: "@
                + ice.candidate.candidate@ + ")"@,
            MessageContent::Close(close) => "Close(type: "@ + close.kind@ + ")"@,
        }
    }

    /// Renders the message as text.
    pub fn to_display_string(&self) -> (s: String)
        ensures
            s@ == self.display_view(),
            self matches MessageContent::Text(t) ==> s@ == t@,
            self matches MessageContent::Sdp(sdp) ==> s@ == "Sdp(type: "@ + sdp.kind@ + ", sdp: "@
                + sdp.sdp@ + ")"@,
            self matches MessageContent::Ice(ice) ==> s@ == "Ice(type: "@ + ice.kind@
                + ", candidate: "@ + ice.candidate.candidate@ + ")"@,
            self matches MessageContent::Close(close) ==> s@ == "Close(type: "@ + close.kind@
                + ")"@,
    {
        match self {
            MessageContent::Text(text) => text.clone(),
            MessageContent::Sdp(sdp) => {
                let mut s = String::from_str("Sdp(type: ");
                s.append(sdp.kind.as_str());
                s.append(", sdp: ");
                s.append(sdp.sdp.as_str());
                s.append(")");
                s
            },
            MessageContent::Ice(ice) => {
                let mut s = String::from_str("Ice(type: ");
                s.append(ice.kind.as_str());
                s.append(", candidate: ");
                s.append(ice.candidate.candidate.as_str());
                s.append(")");
                s
            },
            MessageContent::Close(close) => {
                let mut s = String::from_str("Close(type: ");
                s.append(close.kind.as_str());
                s.append(")");
                s
            },
        }
    }
}

impl ChatMessage {
    /// A message is delivered to `user` when it addresses everyone (empty
    /// recipient) or names `user` as its recipient.
    pub open spec fn delivered_to(self, user: Seq<char>) -> bool {
        self.to_id@.len() == 0 || self.to_id@ == user
    }

    /// Decides whether the connection of `user_id` passes this message on.
    pub fn is_delivered_to(&self, user_id: &str) -> (b: bool)
        ensures
            b == self.delivered_to(user_id@),
    {
        if self.to_id.as_str().is_empty() {
            true
        } else {
            let user = String::from_str(user_id);
            self.to_id == user
        }
    }
}

/// A text message is shown as its text, whole, whatever its length.
pub proof fn lemma_text_is_shown_whole(text: String)
    ensures
        MessageContent::Text(text).display_view() == text@,
        MessageContent::Text(text).display_view().len() == text@.len(),
{
}

/// A signalling message is shown as a summary that names its type: the
/// type appears right after the opening `(type: `.
pub proof fn lemma_signalling_shows_its_type(content: MessageContent)
    requires
        !(content is Text),
    ensures
        ({
            let kind = match content {
                MessageContent::Sdp(sdp) => sdp.kind@,
                MessageContent::Ice(ice) => ice.kind@,
                MessageContent::Close(close) => close.kind@,
                MessageContent::Text(t) => t@,
            };
            let shown = content.display_view();
            let opening = match content {
                MessageContent::Sdp(_) => "Sdp(type: "@,
                MessageContent::Ice(_) => "Ice(type: "@,
                _ => "Close(type: "@,
            };
            shown.subrange(0, opening.len() as int) == opening && shown.subrange(
                opening.len() as int,
                (opening.len() + kind.len()) as int,
            ) == kind
        }),
{
    let shown = content.display_view();
    match content {
        MessageContent::Sdp(sdp) => {
            let opening = "Sdp(type: "@;
            assert(shown.subrange(0, opening.len() as int) =~= opening);
            assert(shown.subrange(opening.len() as int, (opening.len() + sdp.kind@.len()) as int) =~= sdp.kind@);
        },
        MessageContent::Ice(ice) => {
            let opening = "Ice(type: "@;
            assert(shown.subrange(0, opening.len() as int) =~= opening);
            assert(shown.subrange(opening.len() as int, (opening.len() + ice.kind@.len()) as int) =~= ice.kind@);
        },
        MessageContent::Close(close) => {
            let opening = "Close(type: "@;
            assert(shown.subrange(0, opening.len() as int) =~= opening);
            assert(shown.subrange(opening.len() as int, (opening.len() + close.kind@.len()) as int) =~= close.kind@);
        },
        MessageContent::Text(_) => {},
    }
}

/// A message with no recipient reaches every user.
pub proof fn lemma_broadcast_reaches_everyone(msg: ChatMessage, user: Seq<char>)
    requires
        msg.to_id@.len() == 0,
    ensures
        msg.delivered_to(user),
{
}

/// A message with a recipient reaches that recipient and no one else.
pub proof fn lemma_direct_message_reaches_only_recipient(msg: ChatMessage, user: Seq<char>)
    requires
        msg.to_id@.len() != 0,
    ensures
        msg.delivered_to(user) <==> user == msg.to_id@,
{
}

/// Two different users both receive a message only when it is a broadcast.
pub proof fn lemma_shared_delivery_is_broadcast(msg: ChatMessage, a: Seq<char>, b: Seq<char>)
    requires
        a != b,
        msg.delivered_to(a),
        msg.delivered_to(b),
    ensures
        msg.to_id@.len() == 0,
{
}

} // verus!
