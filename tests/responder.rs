use tcp_lag::codec::TransportError;
use tcp_lag::endpoint::Endpoint;
use tcp_lag::responder::{Responder, ResponderAction, ResponderEvent, ResponderPhase};

fn io(cause: &str) -> TransportError {
    TransportError::Io { cause: cause.to_string() }
}

#[test]
fn responder_replies_to_each_connection() {
    let listen = Endpoint::v4(127, 0, 0, 1, 7100);
    let mut r = Responder::new(listen, "pong".to_string());
    assert_eq!(r.next_action(), ResponderAction::Bind { at: listen });
    assert_eq!(r.on_event(ResponderEvent::Bound), ResponderAction::Accept);
    assert_eq!(r.on_event(ResponderEvent::Accepted), ResponderAction::Reply);
    assert_eq!(r.reply_bytes(), b"pong".to_vec());
    assert_eq!(r.on_event(ResponderEvent::Sent), ResponderAction::Accept);
    assert_eq!(r.on_event(ResponderEvent::Accepted), ResponderAction::Reply);
}

#[test]
fn responder_survives_transient_failures() {
    let listen = Endpoint::v4(127, 0, 0, 1, 7101);
    let mut r = Responder::new(listen, "pong".to_string());
    r.on_event(ResponderEvent::Bound);
    assert_eq!(r.on_event(ResponderEvent::AcceptFailed { cause: io("x") }), ResponderAction::Accept);
    assert_eq!(r.on_event(ResponderEvent::Accepted), ResponderAction::Reply);
    assert_eq!(r.on_event(ResponderEvent::SendFailed { cause: io("pipe") }), ResponderAction::Accept);
    assert_eq!(r.phase, ResponderPhase::Accepting);
}

#[test]
fn responder_bind_on_occupied_endpoint_is_fatal() {
    let listen = Endpoint::v4(127, 0, 0, 1, 7102);
    let mut r = Responder::new(listen, "pong".to_string());
    assert_eq!(
        r.on_event(ResponderEvent::BindFailed { cause: io("address in use") }),
        ResponderAction::Abort
    );
    assert_eq!(r.phase, ResponderPhase::Failed);
    assert_eq!(r.on_event(ResponderEvent::Accepted), ResponderAction::Abort);
    assert_eq!(r.next_action(), ResponderAction::Abort);
}

#[test]
fn reply_bytes_are_utf8() {
    let r = Responder::new(Endpoint::v6(1, 1), "ünï".to_string());
    assert_eq!(r.reply_bytes(), "ünï".as_bytes().to_vec());
}
