//! Error taxonomy of the protocol engine.
//!
//! Outside failures (socket errors, channel failures, poisoned locks) are
//! carried as plain text so that every kind can be inspected and matched by
//! verified code; the embedding program formats its transport errors into
//! these variants at the boundary.

use vstd::prelude::*;

verus! {

/// Top level error kind returned by the engine.
#[derive(Debug, PartialEq)]
pub enum EventSubErr {
    /// A control handler failed fatally.
    GeneralHandler(HandlerErr),
    /// The transport failed terminally (hard close, malformed frame).
    Socket(String),
    /// Establishing a connection failed.
    Session(SessionErr),
    /// The forwarding channel's consumer is gone.
    Sending(String),
    /// The background listener could not be created.
    Thread(String),
    /// A participating thread panicked while holding the session lock.
    Poison(String),
    /// An internal invariant did not hold (such as a transport stream of
    /// an unexpected kind): distinct from transport errors, so that it can
    /// be asserted never to occur rather than mistaken for a recoverable
    /// loss.
    InvariantViolation(String),
}

/// A fatal error from one of the per-variant control handlers.
#[derive(Debug, PartialEq)]
pub enum HandlerErr {
    Welcome(WelcomeHandlerErr),
    Reconnect(ReconnectHandlerErr),
}

/// Failure while handling a welcome message.
#[derive(Debug, PartialEq)]
pub enum WelcomeHandlerErr {
    /// The welcome carried no keepalive interval.
    NoKeepalive(String),
    /// The keepalive interval was present but not usable as a number of
    /// whole seconds.
    InvalidKeepalive(String),
    /// The handler was invoked without a session to mutate.
    NoSession(String),
    /// Arming the read deadline on the transport failed.
    CannotSetKeepalive(KeepaliveErr),
    /// The session lock was poisoned.
    Poison(String),
}

/// Failure while handling a server-directed reconnect.
#[derive(Debug, PartialEq)]
pub enum ReconnectHandlerErr {
    /// The reconnect message was unusable (no session context, or an
    /// unparsable replacement URL).
    Session(String),
    /// One of the two handoff phases failed.
    Handler(String),
    /// Establishing the replacement connection failed.
    Connection(String),
    /// The session lock was poisoned.
    Poison(String),
}

/// Failure while opening a session.
#[derive(Debug, PartialEq)]
pub enum SessionErr {
    /// The connection URL did not parse.
    Parse(String),
    /// The connection attempt failed.
    Connect(String),
}

/// Failure while arming the keepalive read deadline.
#[derive(Debug, PartialEq)]
pub enum KeepaliveErr {
    /// Setting the read timeout on the transport failed.
    Timeout(String),
    /// The session lock was poisoned.
    Poison(String),
}

impl From<WelcomeHandlerErr> for HandlerErr {
    fn from(err: WelcomeHandlerErr) -> (r: HandlerErr) {
        HandlerErr::Welcome(err)
    }
}

impl vstd::std_specs::convert::FromSpecImpl<WelcomeHandlerErr> for HandlerErr {
    open spec fn obeys_from_spec() -> bool {
        true
    }

    open spec fn from_spec(err: WelcomeHandlerErr) -> HandlerErr {
        HandlerErr::Welcome(err)
    }
}

impl From<ReconnectHandlerErr> for HandlerErr {
    fn from(err: ReconnectHandlerErr) -> (r: HandlerErr) {
        HandlerErr::Reconnect(err)
    }
}

impl vstd::std_specs::convert::FromSpecImpl<ReconnectHandlerErr> for HandlerErr {
    open spec fn obeys_from_spec() -> bool {
        true
    }

    open spec fn from_spec(err: ReconnectHandlerErr) -> HandlerErr {
        HandlerErr::Reconnect(err)
    }
}

impl From<HandlerErr> for EventSubErr {
    fn from(err: HandlerErr) -> (r: EventSubErr) {
        EventSubErr::GeneralHandler(err)
    }
}

impl vstd::std_specs::convert::FromSpecImpl<HandlerErr> for EventSubErr {
    open spec fn obeys_from_spec() -> bool {
        true
    }

    open spec fn from_spec(err: HandlerErr) -> EventSubErr {
        EventSubErr::GeneralHandler(err)
    }
}

impl From<SessionErr> for EventSubErr {
    fn from(err: SessionErr) -> (r: EventSubErr) {
        EventSubErr::Session(err)
    }
}

impl vstd::std_specs::convert::FromSpecImpl<SessionErr> for EventSubErr {
    open spec fn obeys_from_spec() -> bool {
        true
    }

    open spec fn from_spec(err: SessionErr) -> EventSubErr {
        EventSubErr::Session(err)
    }
}

impl From<KeepaliveErr> for WelcomeHandlerErr {
    fn from(err: KeepaliveErr) -> (r: WelcomeHandlerErr) {
        WelcomeHandlerErr::CannotSetKeepalive(err)
    }
}

impl vstd::std_specs::convert::FromSpecImpl<KeepaliveErr> for WelcomeHandlerErr {
    open spec fn obeys_from_spec() -> bool {
        true
    }

    open spec fn from_spec(err: KeepaliveErr) -> WelcomeHandlerErr {
        WelcomeHandlerErr::CannotSetKeepalive(err)
    }
}

} // verus!
