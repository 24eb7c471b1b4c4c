//! Tests of the per-variant control handlers.

use eventsub_websocket::error::{HandlerErr, WelcomeHandlerErr};
use eventsub_websocket::types::{
    GenericMetadata, Keepalive, KeepaliveSeconds, Session, TwitchMessage, Welcome,
    WelcomeSessionData, WelcomeSessionPayload,
};

fn welcome(keepalive: KeepaliveSeconds) -> Welcome {
    Welcome {
        metadata: GenericMetadata {
            message_id: "w1".to_string(),
            message_type: "session_welcome".to_string(),
            message_timestamp: "t".to_string(),
        },
        payload: WelcomeSessionPayload {
            session: WelcomeSessionData {
                id: "abc".to_string(),
                status: "connected".to_string(),
                connected_at: "t".to_string(),
                keepalive_timeout_seconds: keepalive,
                reconnect_url: None,
            },
        },
    }
}

#[test]
fn welcome_handler_sets_id_and_deadline() {
    let mut s = Session::new("wss://example.com".to_string());
    let w = welcome(KeepaliveSeconds::Seconds(30));
    assert!(w.handle(&mut s).is_ok());
    assert_eq!(s.id, "abc");
    assert_eq!(s.read_timeout_seconds, Some(31));
}

#[test]
fn welcome_handler_reports_missing_keepalive() {
    let mut s = Session::new("wss://example.com".to_string());
    let w = welcome(KeepaliveSeconds::Absent);
    match w.handle(&mut s) {
        Err(WelcomeHandlerErr::NoKeepalive(_)) => {}
        other => panic!("expected the missing-keepalive error, got {:?}", other),
    }
    // the id is set before the keepalive is judged
    assert_eq!(s.id, "abc");
    assert_eq!(s.read_timeout_seconds, None);
}

#[test]
fn welcome_handler_reports_invalid_keepalive() {
    let mut s = Session::new("wss://example.com".to_string());
    let w = welcome(KeepaliveSeconds::Invalid);
    match w.handle(&mut s) {
        Err(WelcomeHandlerErr::InvalidKeepalive(_)) => {}
        other => panic!("expected the invalid-keepalive error, got {:?}", other),
    }
}

#[test]
fn handle_without_session_is_an_error_for_welcome() {
    let msg = TwitchMessage::Welcome(welcome(KeepaliveSeconds::Seconds(10)));
    match msg.handle(None) {
        Err(HandlerErr::Welcome(WelcomeHandlerErr::NoSession(_))) => {}
        other => panic!("expected the missing-session error, got {:?}", other),
    }
}

#[test]
fn handle_welcome_reports_the_deadline_to_arm() {
    let mut s = Session::new("wss://example.com".to_string());
    let msg = TwitchMessage::Welcome(welcome(KeepaliveSeconds::Seconds(10)));
    let outcome = msg.handle(Some(&mut s)).unwrap();
    assert_eq!(outcome.arm, Some(11));
    assert_eq!(outcome.reconnect_to, None);
}

#[test]
fn handle_is_inert_for_a_keepalive() {
    let mut s = Session::new("wss://example.com".to_string());
    let msg = TwitchMessage::Keepalive(Keepalive {
        metadata: GenericMetadata {
            message_id: "k1".to_string(),
            message_type: "session_keepalive".to_string(),
            message_timestamp: "t".to_string(),
        },
        payload: "{}".to_string(),
    });
    let outcome = msg.handle(Some(&mut s)).unwrap();
    assert_eq!(outcome.arm, None);
    assert_eq!(outcome.reconnect_to, None);
    assert_eq!(s.id, "");
    let outcome = msg.handle(None).unwrap();
    assert_eq!(outcome.arm, None);
    assert_eq!(outcome.reconnect_to, None);
}
