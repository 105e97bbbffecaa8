//! The Redis publish/subscribe channel that carries chat messages between
//! server instances, and when a subscriber stops listening.

use vstd::prelude::*;

verus! {

/// The channel on which chat messages are published and relayed.
pub const CHAT_CHANNEL: &'static str = "my_channel";

/// Whether a subscriber stops after receiving `payload`: exactly on the
/// payload `exit`.
pub fn is_exit_payload(payload: &str) -> (stop: bool)
    ensures
        stop <==> payload@ == "exit"@,
{
    let received = String::from_str(payload);
    let exit = String::from_str("exit");
    received == exit
}

/// What happens to a subscriber of a channel.
#[derive(Clone, Debug, PartialEq, Eq)]
pub enum SubscriberEvent {
    /// No connection to Redis could be made.
    ConnectFailed,
    /// The subscription to the channel was refused.
    SubscribeFailed,
    /// The subscription to the channel was taken.
    Subscribed,
    /// A message with this payload arrived.
    Payload(String),
    /// Reading the next message or its payload failed.
    ReadFailed,
}

/// What the subscriber does next.
#[derive(Clone, Copy, Debug, PartialEq, Eq)]
pub enum SubscriberStep {
    /// Wait for the next message.
    Listen,
    /// Stop, reporting success.
    Finish,
    /// Stop, reporting the read error.
    Fail,
}

/// The subscriber's answer to `event`: without a connection it stops
/// quietly; a refused subscription is reported and listening goes on; it
/// stops on the payload `exit` and listens on after any other; a failed
/// read ends it with that error.
pub fn subscriber_step(event: &SubscriberEvent) -> (step: SubscriberStep)
    ensures
        step == match event {
            SubscriberEvent::ConnectFailed => SubscriberStep::Finish,
            SubscriberEvent::SubscribeFailed => SubscriberStep::Listen,
            SubscriberEvent::Subscribed => SubscriberStep::Listen,
            SubscriberEvent::Payload(p) => if p@ == "exit"@ {
                SubscriberStep::Finish
            } else {
                SubscriberStep::Listen
            },
            SubscriberEvent::ReadFailed => SubscriberStep::Fail,
        },
{
    match event {
        SubscriberEvent::ConnectFailed => SubscriberStep::Finish,
        SubscriberEvent::SubscribeFailed => SubscriberStep::Listen,
        SubscriberEvent::Subscribed => SubscriberStep::Listen,
        SubscriberEvent::Payload(p) => if is_exit_payload(p.as_str()) {
            SubscriberStep::Finish
        } else {
            SubscriberStep::Listen
        },
        SubscriberEvent::ReadFailed => SubscriberStep::Fail,
    }
}

} // verus!
