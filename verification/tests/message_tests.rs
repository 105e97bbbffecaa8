use websocket_rust::message::{Candidate, ChatMessage, Close, Ice, MessageContent, Sdp};

fn chat(to: &str, content: MessageContent) -> ChatMessage {
    ChatMessage { user_id: "alice".to_string(), to_id: to.to_string(), message: content }
}

#[test]
fn text_displays_as_itself() {
    let content = MessageContent::Text("hello there".to_string());
    assert_eq!(content.to_display_string(), "hello there");
}

#[test]
fn sdp_displays_type_and_description() {
    let content = MessageContent::Sdp(Sdp { kind: "offer".to_string(), sdp: "v=0".to_string() });
    assert_eq!(content.to_display_string(), "Sdp(type: offer, sdp: v=0)");
}

#[test]
fn ice_displays_type_and_candidate() {
    let content = MessageContent::Ice(Ice {
        kind: "candidate".to_string(),
        candidate: Candidate {
            candidate: "candidate:1 1 UDP 2122252543 192.168.1.2 54321 typ host".to_string(),
            sdpMid: "0".to_string(),
            sdpMLineIndex: 0,
        },
    });
    assert_eq!(
        content.to_display_string(),
        "Ice(type: candidate, candidate: candidate:1 1 UDP 2122252543 192.168.1.2 54321 typ host)"
    );
}

#[test]
fn close_displays_type() {
    let content = MessageContent::Close(Close { kind: "close".to_string() });
    assert_eq!(content.to_display_string(), "Close(type: close)");
}

#[test]
fn broadcast_is_delivered_to_every_user() {
    let msg = chat("", MessageContent::Text("hi all".to_string()));
    assert!(msg.is_delivered_to("bob"));
    assert!(msg.is_delivered_to("carol"));
    assert!(msg.is_delivered_to("alice"));
    assert!(msg.is_delivered_to(""));
}

#[test]
fn direct_message_is_delivered_only_to_recipient() {
    let msg = chat("bob", MessageContent::Text("hi bob".to_string()));
    assert!(msg.is_delivered_to("bob"));
    assert!(!msg.is_delivered_to("carol"));
    assert!(!msg.is_delivered_to("alice"));
    assert!(!msg.is_delivered_to("bo"));
    assert!(!msg.is_delivered_to("bobby"));
}
