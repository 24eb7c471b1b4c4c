//! The session state and the envelope model of server messages.
//!
//! A `Session` is the logical, possibly-reconnected relationship with the
//! server.  It holds only plain state: the transport socket itself is owned
//! by the embedding program, which mirrors the armed read deadline recorded
//! here onto the socket.  Envelopes are immutable value objects constructed
//! by decoding a received text frame; fields that the wire carries as JSON
//! numbers or opaque JSON subtrees are held as plain integers and as raw
//! JSON text, so that every control decision is made over plain values.

use vstd::prelude::*;

use crate::error::KeepaliveErr;

verus! {

/// The logical connection to the notification server: a session identifier,
/// the record of message ids already dispatched, the URL used to
/// (re)establish the connection, and the armed read deadline.
pub struct Session {
    /// The session id returned by the server in a welcome message.
    /// Initially the empty string.
    pub id: String,
    /// Message ids of the messages already dispatched, consulted before
    /// every dispatch so that a redelivered message is never acted upon or
    /// forwarded twice.  Grows for the lifetime of the `Session` value and
    /// is never compacted — a deliberate choice that keeps the redelivery
    /// window unbounded, at the price of unbounded growth on a long-lived
    /// connection.
    pub handled_message_ids: Vec<String>,
    /// The URL used to connect or reconnect to the server; starts as the
    /// well-known endpoint (or a caller-supplied one) and is overridden by a
    /// server-issued reconnect URL.
    pub eventsub_url: String,
    /// The read deadline, in seconds, that the transport must arm: the
    /// keepalive interval of the last welcome plus one second of grace.
    /// `None` until a welcome with a keepalive has been processed.
    pub read_timeout_seconds: Option<u64>,
}

/// The mathematical value of a `Session`.
#[verifier::ext_equal]
pub struct SessionModel {
    pub id: Seq<char>,
    pub handled: Seq<Seq<char>>,
    pub url: Seq<char>,
    pub read_timeout: Option<u64>,
}

impl SessionModel {
    /// The state of a session that was just opened against `url`.
    pub open spec fn fresh(url: Seq<char>) -> SessionModel {
        SessionModel { id: Seq::empty(), handled: Seq::empty(), url: url, read_timeout: None }
    }
}

impl Session {
    /// The mathematical value of this session.
    pub open spec fn model(&self) -> SessionModel {
        SessionModel {
            id: self.id@,
            handled: self.handled_message_ids.deep_view(),
            url: self.eventsub_url@,
            read_timeout: self.read_timeout_seconds,
        }
    }

    /// Opens the state of a new session against `url`: empty session id,
    /// no handled messages, no armed read deadline.
    pub fn new(url: String) -> (s: Session)
        ensures
            s.model() == SessionModel::fresh(url@),
    {
        let s = Session {
            id: String::new(),
            handled_message_ids: Vec::new(),
            eventsub_url: url,
            read_timeout_seconds: None,
        };
        proof {
            assert(s.model() =~= SessionModel::fresh(s.eventsub_url@));
        }
        s
    }

    /// Records the read deadline that the transport must arm once a welcome
    /// reported `keepalive` seconds: the keepalive plus one second of grace,
    /// so that a silent server makes the next blocking read time out rather
    /// than hang.  The embedding program applies the recorded deadline to
    /// the socket; a failure to do so surfaces there as
    /// `KeepaliveErr::Timeout`.
    pub fn set_keepalive(&mut self, keepalive: u64) -> (r: Result<(), KeepaliveErr>)
        requires
            keepalive < u64::MAX,
        ensures
            r is Ok,
            final(self).model() == (SessionModel {
                read_timeout: Some((keepalive + 1) as u64),
                ..old(self).model()
            }),
    {
        self.read_timeout_seconds = Some(keepalive + 1);
        proof {
            assert(self.model() =~= (SessionModel {
                read_timeout: Some((keepalive + 1) as u64),
                ..old(self).model()
            }));
        }
        Ok(())
    }
}

/// A decoded server message, discriminated by variant.
#[derive(Debug, Clone, PartialEq)]
pub enum TwitchMessage {
    Notification(Notification),
    Welcome(Welcome),
    Reconnect(Reconnect),
    Revocation(Revocation),
    Keepalive(Keepalive),
}

/// An event delivery: subscription metadata plus the subscription
/// descriptor and the opaque event body.
#[derive(Debug, Clone, PartialEq)]
pub struct Notification {
    pub metadata: SubscriptionMetadata,
    pub payload: NotificationPayload,
}

/// The first message on a new connection, carrying the session id and (on
/// an initial connection) the keepalive interval.
#[derive(Debug, Clone, PartialEq)]
pub struct Welcome {
    pub metadata: GenericMetadata,
    pub payload: WelcomeSessionPayload,
}

/// A server-directed instruction to migrate to a new connection URL while
/// the old connection is still briefly usable.
#[derive(Debug, Clone, PartialEq)]
pub struct Reconnect {
    pub metadata: GenericMetadata,
    pub payload: ReconnectSessionPayload,
}

/// A heartbeat; its payload is opaque and is carried as raw JSON text.
#[derive(Debug, Clone, PartialEq)]
pub struct Keepalive {
    pub metadata: GenericMetadata,
    pub payload: String,
}

/// Notice that a subscription was revoked; no event body.
#[derive(Debug, Clone, PartialEq)]
pub struct Revocation {
    pub metadata: SubscriptionMetadata,
    pub payload: SubscriptionPayload,
}

/// The metadata common to every message.
#[derive(Debug, Clone, PartialEq)]
pub struct GenericMetadata {
    pub message_id: String,
    pub message_type: String,
    pub message_timestamp: String,
}

/// The session descriptor of a welcome message.
#[derive(Debug, Clone, PartialEq)]
pub struct WelcomeSessionData {
    pub id: String,
    pub status: String,
    pub connected_at: String,
    /// The keepalive interval.  The wire may omit it (legitimate only on
    /// the new leg of a server-directed reconnect) or carry a number that
    /// is not a `u64` of seconds; both conditions are preserved so that the
    /// welcome handler can enforce the policy on them.
    pub keepalive_timeout_seconds: KeepaliveSeconds,
    pub reconnect_url: Option<String>,
}

/// The keepalive field of a welcome session descriptor, as decoded.
#[derive(Debug, Clone, Copy, PartialEq)]
pub enum KeepaliveSeconds {
    /// Present and representable as whole seconds.
    Seconds(u64),
    /// Present but not representable as an unsigned number of seconds.
    Invalid,
    /// Absent (or JSON null).
    Absent,
}

/// The session descriptor of a reconnect message; the replacement URL is
/// required, the keepalive is optional and unused.
#[derive(Debug, Clone, PartialEq)]
pub struct ReconnectSessionData {
    pub id: String,
    pub status: String,
    pub connected_at: String,
    pub keepalive_timeout_seconds: Option<u64>,
    pub reconnect_url: String,
}

#[derive(Debug, Clone, PartialEq)]
pub struct WelcomeSessionPayload {
    pub session: WelcomeSessionData,
}

#[derive(Debug, Clone, PartialEq)]
pub struct ReconnectSessionPayload {
    pub session: ReconnectSessionData,
}

/// The metadata of subscription-scoped messages.
#[derive(Debug, Clone, PartialEq)]
pub struct SubscriptionMetadata {
    pub message_id: String,
    pub message_type: String,
    pub message_timestamp: String,
    pub subscription_type: String,
    pub subscription_version: String,
}

/// The subscription descriptor carried by notifications and revocations.
#[derive(Debug, Clone, PartialEq)]
pub struct SubscriptionPayload {
    pub id: String,
    pub status: String,
    /// The wire field `type`.
    pub kind: String,
    pub version: String,
    pub cost: u64,
    /// Opaque JSON subtree, carried as raw JSON text.
    pub condition: String,
    /// Opaque JSON subtree, carried as raw JSON text.
    pub transport: String,
    pub created_at: String,
}

/// The payload of a notification: the subscription descriptor plus the
/// opaque event body, carried as raw JSON text.
#[derive(Debug, Clone, PartialEq)]
pub struct NotificationPayload {
    pub subscription: SubscriptionPayload,
    pub event: String,
}

impl TwitchMessage {
    /// The message id, the server-assigned identity used for duplicate
    /// suppression.
    pub open spec fn spec_id(&self) -> Seq<char> {
        match self {
            TwitchMessage::Welcome(m) => m.metadata.message_id@,
            TwitchMessage::Keepalive(m) => m.metadata.message_id@,
            TwitchMessage::Notification(m) => m.metadata.message_id@,
            TwitchMessage::Reconnect(m) => m.metadata.message_id@,
            TwitchMessage::Revocation(m) => m.metadata.message_id@,
        }
    }

    /// Returns a copy of the message id.
    pub fn id(&self) -> (r: String)
        ensures
            r@ == self.spec_id(),
    {
        match self {
            TwitchMessage::Welcome(m) => m.metadata.message_id.clone(),
            TwitchMessage::Keepalive(m) => m.metadata.message_id.clone(),
            TwitchMessage::Notification(m) => m.metadata.message_id.clone(),
            TwitchMessage::Reconnect(m) => m.metadata.message_id.clone(),
            TwitchMessage::Revocation(m) => m.metadata.message_id.clone(),
        }
    }
}

} // verus!
