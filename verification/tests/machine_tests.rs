//! Tests of the message-processing state machine: duplicate suppression,
//! the welcome and reconnect handlers, the scripted two-phase handoff, and
//! the backoff schedule.

use eventsub_websocket::error::{
    EventSubErr, HandlerErr, ReconnectHandlerErr, WelcomeHandlerErr,
};
use eventsub_websocket::types::{
    GenericMetadata, KeepaliveSeconds, Reconnect, ReconnectSessionData, ReconnectSessionPayload,
    Session, TwitchMessage, Welcome, WelcomeSessionData, WelcomeSessionPayload,
};
use eventsub_websocket::{
    complete_reconnect, dispatch_message, drain_complete, must_send_close, process_frames,
    process_messages, transport_action, Backoff, Control, LegEnd, TransportAction, TransportEvent,
};

fn welcome_msg(id: &str, session_id: &str, keepalive: KeepaliveSeconds) -> TwitchMessage {
    TwitchMessage::Welcome(Welcome {
        metadata: GenericMetadata {
            message_id: id.to_string(),
            message_type: "session_welcome".to_string(),
            message_timestamp: "t".to_string(),
        },
        payload: WelcomeSessionPayload {
            session: WelcomeSessionData {
                id: session_id.to_string(),
                status: "connected".to_string(),
                connected_at: "t".to_string(),
                keepalive_timeout_seconds: keepalive,
                reconnect_url: None,
            },
        },
    })
}

fn keepalive_msg(id: &str) -> TwitchMessage {
    TwitchMessage::Keepalive(eventsub_websocket::types::Keepalive {
        metadata: GenericMetadata {
            message_id: id.to_string(),
            message_type: "session_keepalive".to_string(),
            message_timestamp: "t".to_string(),
        },
        payload: "{}".to_string(),
    })
}

fn reconnect_msg(id: &str, url: &str) -> TwitchMessage {
    TwitchMessage::Reconnect(Reconnect {
        metadata: GenericMetadata {
            message_id: id.to_string(),
            message_type: "session_reconnect".to_string(),
            message_timestamp: "t".to_string(),
        },
        payload: ReconnectSessionPayload {
            session: ReconnectSessionData {
                id: "abc".to_string(),
                status: "reconnecting".to_string(),
                connected_at: "t".to_string(),
                keepalive_timeout_seconds: None,
                reconnect_url: url.to_string(),
            },
        },
    })
}

#[test]
fn message_id_is_read_from_metadata() {
    assert_eq!(welcome_msg("w1", "abc", KeepaliveSeconds::Seconds(10)).id(), "w1");
    assert_eq!(keepalive_msg("k1").id(), "k1");
    assert_eq!(reconnect_msg("r1", "wss://example.com/new").id(), "r1");
}

#[test]
fn welcome_records_id_and_arms_keepalive() {
    let mut s = Session::new("wss://example.com/old".to_string());
    let msg = welcome_msg("w1", "abc", KeepaliveSeconds::Seconds(10));
    let sr = dispatch_message(&mut s, msg, false).unwrap();
    assert_eq!(s.id, "abc");
    assert_eq!(s.read_timeout_seconds, Some(11));
    assert_eq!(s.handled_message_ids, vec!["w1".to_string()]);
    assert_eq!(sr.arm, Some(11));
    assert!(matches!(sr.control, Control::Continue));
    match sr.forward {
        Some(TwitchMessage::Welcome(w)) => assert_eq!(w.payload.session.id, "abc"),
        other => panic!("expected the welcome forwarded, got {:?}", other),
    }
}

#[test]
fn duplicate_message_is_suppressed() {
    let mut s = Session::new("wss://example.com/old".to_string());
    let first = dispatch_message(
        &mut s,
        welcome_msg("w1", "abc", KeepaliveSeconds::Seconds(10)),
        false,
    )
    .unwrap();
    assert!(first.forward.is_some());
    let second = dispatch_message(
        &mut s,
        welcome_msg("w1", "abc", KeepaliveSeconds::Seconds(10)),
        false,
    )
    .unwrap();
    assert!(second.forward.is_none());
    assert!(second.arm.is_none());
    assert!(matches!(second.control, Control::Continue));
    assert_eq!(s.handled_message_ids.len(), 1);
}

#[test]
fn welcome_without_keepalive_is_fatal_when_not_migrating() {
    let mut s = Session::new("wss://example.com/old".to_string());
    let r = dispatch_message(&mut s, welcome_msg("w1", "abc", KeepaliveSeconds::Absent), false);
    match r {
        Err(EventSubErr::GeneralHandler(HandlerErr::Welcome(
            WelcomeHandlerErr::NoKeepalive(_),
        ))) => {}
        other => panic!("expected the missing-keepalive error, got {:?}", other),
    }
    // the handler had already recorded the session id, but nothing was
    // recorded as handled or forwarded
    assert_eq!(s.id, "abc");
    assert!(s.handled_message_ids.is_empty());
    assert_eq!(s.read_timeout_seconds, None);
}

#[test]
fn welcome_without_keepalive_is_swallowed_when_migrating() {
    let mut s = Session::new("wss://example.com/new".to_string());
    let sr = dispatch_message(&mut s, welcome_msg("w1", "abc", KeepaliveSeconds::Absent), true)
        .unwrap();
    assert!(sr.forward.is_some());
    assert!(sr.arm.is_none());
    assert!(matches!(sr.control, Control::Finish));
    assert_eq!(s.handled_message_ids, vec!["w1".to_string()]);
}

#[test]
fn invalid_keepalive_is_fatal_even_when_migrating() {
    let mut s = Session::new("wss://example.com/new".to_string());
    let r = dispatch_message(&mut s, welcome_msg("w1", "abc", KeepaliveSeconds::Invalid), true);
    match r {
        Err(EventSubErr::GeneralHandler(HandlerErr::Welcome(
            WelcomeHandlerErr::InvalidKeepalive(_),
        ))) => {}
        other => panic!("expected the invalid-keepalive error, got {:?}", other),
    }
}

#[test]
fn reconnect_requests_handoff_without_recording() {
    let mut s = Session::new("wss://example.com/old".to_string());
    let sr = dispatch_message(&mut s, reconnect_msg("r1", "wss://example.com/new"), false)
        .unwrap();
    assert!(sr.forward.is_none());
    match sr.control {
        Control::Handoff { url, msg } => {
            assert_eq!(url, "wss://example.com/new");
            assert_eq!(msg.id(), "r1");
        }
        other => panic!("expected a handoff request, got {:?}", other),
    }
    assert!(s.handled_message_ids.is_empty());
}

#[test]
fn reconnect_with_unparsable_url_is_fatal() {
    let mut s = Session::new("wss://example.com/old".to_string());
    let r = dispatch_message(&mut s, reconnect_msg("r1", "not a url at all"), false);
    match r {
        Err(EventSubErr::GeneralHandler(HandlerErr::Reconnect(
            ReconnectHandlerErr::Session(_),
        ))) => {}
        other => panic!("expected the reconnect URL error, got {:?}", other),
    }
}

#[test]
fn handoff_forwards_new_leg_before_drained_old_leg() {
    let mut old_session = Session::new("wss://example.com/old".to_string());
    // the old session has already seen one message
    dispatch_message(
        &mut old_session,
        welcome_msg("w0", "abc", KeepaliveSeconds::Seconds(10)),
        false,
    )
    .unwrap();

    let rc = match reconnect_msg("r1", "wss://example.com/new") {
        TwitchMessage::Reconnect(rc) => rc,
        _ => unreachable!(),
    };
    // the welcome on the new leg legitimately lacks a keepalive
    let new_leg = vec![welcome_msg("w1", "abc", KeepaliveSeconds::Absent)];
    let old_leg = vec![keepalive_msg("k1"), keepalive_msg("k2")];
    let mut out: Vec<TwitchMessage> = Vec::new();
    rc.handle(Some(&mut old_session), new_leg, old_leg, &mut out).unwrap();

    let ids: Vec<String> = out.iter().map(|m| m.id()).collect();
    assert_eq!(ids, vec!["w1".to_string(), "k1".to_string(), "k2".to_string()]);

    // completing the handoff records and forwards the reconnect itself and
    // overrides the connection URL, preserving id and dedup history
    let fwd = complete_reconnect(&mut old_session, TwitchMessage::Reconnect(rc));
    assert_eq!(fwd.id(), "r1");
    assert_eq!(old_session.eventsub_url, "wss://example.com/new");
    assert_eq!(old_session.id, "abc");
    assert_eq!(
        old_session.handled_message_ids,
        vec!["w0".to_string(), "k1".to_string(), "k2".to_string(), "r1".to_string()]
    );
}

#[test]
fn handoff_fails_without_a_welcome_on_the_new_leg() {
    let mut old_session = Session::new("wss://example.com/old".to_string());
    let rc = match reconnect_msg("r1", "wss://example.com/new") {
        TwitchMessage::Reconnect(rc) => rc,
        _ => unreachable!(),
    };
    let new_leg = vec![keepalive_msg("k1")];
    let mut out: Vec<TwitchMessage> = Vec::new();
    let r = rc.handle(Some(&mut old_session), new_leg, vec![], &mut out);
    assert!(matches!(r, Err(ReconnectHandlerErr::Handler(_))));
}

#[test]
fn handoff_without_session_is_an_error() {
    let rc = match reconnect_msg("r1", "wss://example.com/new") {
        TwitchMessage::Reconnect(rc) => rc,
        _ => unreachable!(),
    };
    let mut out: Vec<TwitchMessage> = Vec::new();
    let r = rc.handle(None, vec![], vec![], &mut out);
    assert!(matches!(r, Err(ReconnectHandlerErr::Session(_))));
    assert!(out.is_empty());
}

#[test]
fn drained_messages_are_deduplicated_against_the_old_session() {
    let mut old_session = Session::new("wss://example.com/old".to_string());
    dispatch_message(&mut old_session, keepalive_msg("k1"), false).unwrap();
    let rc = match reconnect_msg("r1", "wss://example.com/new") {
        TwitchMessage::Reconnect(rc) => rc,
        _ => unreachable!(),
    };
    let new_leg = vec![welcome_msg("w1", "abc", KeepaliveSeconds::Absent)];
    // k1 was already handled before the reconnect arrived
    let old_leg = vec![keepalive_msg("k1"), keepalive_msg("k2")];
    let mut out: Vec<TwitchMessage> = Vec::new();
    rc.handle(Some(&mut old_session), new_leg, old_leg, &mut out).unwrap();
    let ids: Vec<String> = out.iter().map(|m| m.id()).collect();
    assert_eq!(ids, vec!["w1".to_string(), "k2".to_string()]);
}

#[test]
fn process_messages_stops_at_handoff() {
    let mut s = Session::new("wss://example.com/old".to_string());
    let msgs = vec![
        keepalive_msg("k1"),
        reconnect_msg("r1", "wss://example.com/new"),
        keepalive_msg("k2"),
    ];
    let mut out: Vec<TwitchMessage> = Vec::new();
    match process_messages(&mut s, msgs, false, &mut out).unwrap() {
        LegEnd::HandoffRequested { url, msg } => {
            assert_eq!(url, "wss://example.com/new");
            assert_eq!(msg.id(), "r1");
        }
        other => panic!("expected a handoff request, got {:?}", other),
    }
    let ids: Vec<String> = out.iter().map(|m| m.id()).collect();
    assert_eq!(ids, vec!["k1".to_string()]);
}

#[test]
fn end_to_end_welcome_scenario() {
    let frame = r#"{"metadata":{"message_id":"1","message_type":"session_welcome","message_timestamp":"t"},"payload":{"session":{"id":"abc","status":"connected","connected_at":"t","keepalive_timeout_seconds":10,"reconnect_url":null}}}"#;
    let mut s = Session::new("wss://example.com".to_string());
    let mut out: Vec<TwitchMessage> = Vec::new();
    let (r, _) = process_frames(&mut s, vec![frame.to_string()], false, &mut out);
    assert!(matches!(r.unwrap(), LegEnd::Exhausted));
    assert_eq!(out.len(), 1);
    match &out[0] {
        TwitchMessage::Welcome(w) => assert_eq!(w.payload.session.id, "abc"),
        other => panic!("expected the welcome forwarded, got {:?}", other),
    }
    assert_eq!(s.id, "abc");
    assert_eq!(s.read_timeout_seconds, Some(11));
}

#[test]
fn unknown_message_type_scenario() {
    let unknown = r#"{"metadata":{"message_id":"9","message_type":"session_party","message_timestamp":"t"},"payload":{}}"#;
    let keepalive = r#"{"metadata":{"message_id":"10","message_type":"session_keepalive","message_timestamp":"t"},"payload":{}}"#;
    let mut s = Session::new("wss://example.com".to_string());
    let mut out: Vec<TwitchMessage> = Vec::new();
    let (r, _) = process_frames(
        &mut s,
        vec![unknown.to_string(), keepalive.to_string()],
        false,
        &mut out,
    );
    assert!(matches!(r.unwrap(), LegEnd::Exhausted));
    // nothing was forwarded for the unknown frame; processing continued
    assert_eq!(out.len(), 1);
    assert_eq!(out[0].id(), "10");
}

#[test]
fn duplicate_frame_scenario() {
    let frame = r#"{"metadata":{"message_id":"1","message_type":"session_keepalive","message_timestamp":"t"},"payload":{}}"#;
    let mut s = Session::new("wss://example.com".to_string());
    let mut out: Vec<TwitchMessage> = Vec::new();
    let (r, _) = process_frames(
        &mut s,
        vec![frame.to_string(), frame.to_string()],
        false,
        &mut out,
    );
    assert!(matches!(r.unwrap(), LegEnd::Exhausted));
    assert_eq!(out.len(), 1);
}

#[test]
fn duplicate_id_is_suppressed_across_variants() {
    // suppression goes by message id alone, whatever the variant
    let mut s = Session::new("wss://example.com".to_string());
    let first = dispatch_message(
        &mut s,
        welcome_msg("m1", "abc", KeepaliveSeconds::Seconds(10)),
        false,
    )
    .unwrap();
    assert!(first.forward.is_some());
    let second = dispatch_message(&mut s, keepalive_msg("m1"), false).unwrap();
    assert!(second.forward.is_none());
}

#[test]
fn migrating_leg_finishes_at_its_welcome() {
    let mut s = Session::new("wss://example.com/new".to_string());
    let msgs = vec![
        keepalive_msg("k1"),
        welcome_msg("w1", "abc", KeepaliveSeconds::Absent),
        keepalive_msg("k2"),
    ];
    let mut out: Vec<TwitchMessage> = Vec::new();
    let end = process_messages(&mut s, msgs, true, &mut out).unwrap();
    assert!(matches!(end, LegEnd::Finished));
    // everything up to and including the welcome was forwarded; the rest
    // stays in flight for whoever reads the socket next
    let ids: Vec<String> = out.iter().map(|m| m.id()).collect();
    assert_eq!(ids, vec!["k1".to_string(), "w1".to_string()]);
}

#[test]
fn fatal_handler_error_aborts_the_leg() {
    let mut s = Session::new("wss://example.com".to_string());
    let msgs = vec![
        keepalive_msg("k1"),
        welcome_msg("w1", "abc", KeepaliveSeconds::Absent),
        keepalive_msg("k2"),
    ];
    let mut out: Vec<TwitchMessage> = Vec::new();
    let r = process_messages(&mut s, msgs, false, &mut out);
    assert!(matches!(
        r,
        Err(EventSubErr::GeneralHandler(HandlerErr::Welcome(
            WelcomeHandlerErr::NoKeepalive(_)
        )))
    ));
    // what was delivered before the failure had been forwarded already
    let ids: Vec<String> = out.iter().map(|m| m.id()).collect();
    assert_eq!(ids, vec!["k1".to_string()]);
}

#[test]
fn backoff_delays_double_from_one_second() {
    let mut b = Backoff::new();
    assert_eq!(b.next_delay(), 1);
    assert_eq!(b.next_delay(), 2);
    assert_eq!(b.next_delay(), 4);
    assert_eq!(b.next_delay(), 8);
    assert_eq!(b.delay_seconds, 16);
}

#[test]
fn set_keepalive_records_the_grace_deadline() {
    let mut s = Session::new("wss://example.com".to_string());
    assert!(s.set_keepalive(10).is_ok());
    assert_eq!(s.read_timeout_seconds, Some(11));
}

#[test]
fn default_url_is_the_well_known_endpoint() {
    let url = eventsub_websocket::get_default_url().unwrap();
    assert_eq!(url, eventsub_websocket::EVENTSUB_URL);
}

#[test]
fn handler_errors_compose() {
    let e: HandlerErr = WelcomeHandlerErr::NoKeepalive("x".to_string()).into();
    assert!(matches!(e, HandlerErr::Welcome(WelcomeHandlerErr::NoKeepalive(_))));
    let e: EventSubErr = HandlerErr::Reconnect(ReconnectHandlerErr::Handler("x".to_string())).into();
    assert!(matches!(e, EventSubErr::GeneralHandler(HandlerErr::Reconnect(_))));
}

#[test]
fn transport_policy_decides_per_event() {
    assert_eq!(
        transport_action(TransportEvent::Frame, false),
        TransportAction::Process
    );
    assert_eq!(
        transport_action(TransportEvent::Closed, false),
        TransportAction::Fail
    );
    assert_eq!(
        transport_action(TransportEvent::Broken, true),
        TransportAction::Fail
    );
    // an I/O failure reconnects in place, unless the loop is draining a
    // superseded connection, where it ends the drain normally
    assert_eq!(
        transport_action(TransportEvent::IoFailure, false),
        TransportAction::Reconnect
    );
    assert_eq!(
        transport_action(TransportEvent::IoFailure, true),
        TransportAction::FinishDrain
    );
}

#[test]
fn drain_guards_decide_close_and_completion() {
    // the close frame goes out exactly once, on a draining loop
    assert!(must_send_close(true, false));
    assert!(!must_send_close(true, true));
    assert!(!must_send_close(false, false));
    // the drain is complete when the superseded socket has nothing left
    assert!(drain_complete(true, false));
    assert!(!drain_complete(true, true));
    assert!(!drain_complete(false, false));
}
