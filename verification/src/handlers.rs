//! The per-variant control handlers.
//!
//! Only welcome and reconnect messages mutate session state or trigger
//! protocol transitions; keepalive, notification and revocation messages
//! are inert beyond being forwarded.  The welcome handler records the
//! session id and arms the keepalive read deadline; the reconnect handler
//! drives the two-phase handoff to a replacement connection.

use vstd::prelude::*;

use crate::decode::{is_valid_url, url_parse_ok};
use crate::error::{HandlerErr, ReconnectHandlerErr, WelcomeHandlerErr};
use crate::types::{KeepaliveSeconds, Reconnect, Session, SessionModel, TwitchMessage, Welcome};
use crate::{process_messages, spec_run, LegEnd};

verus! {

/// The actions that handling one message asks of the processing loop.
#[derive(Debug, PartialEq)]
pub struct HandleOutcome {
    /// The read deadline, in seconds, to arm on the transport, if the
    /// message armed one.
    pub arm: Option<u64>,
    /// The replacement URL of a reconnect whose handoff must now run.
    pub reconnect_to: Option<String>,
}

impl TwitchMessage {
    /// Dispatches to the matching per-variant control handler.  A welcome
    /// records the session id and arms the keepalive read deadline; a
    /// reconnect validates its replacement URL and asks for the handoff;
    /// keepalive, notification and revocation messages are inert.  Calling
    /// the handler of a welcome or a reconnect without a session is itself
    /// an error.
    pub fn handle(&self, session: Option<&mut Session>) -> (r: Result<HandleOutcome, HandlerErr>)
        ensures
            session is None ==> (match self {
                TwitchMessage::Welcome(_) => r matches Err(
                    HandlerErr::Welcome(WelcomeHandlerErr::NoSession(_)),
                ),
                TwitchMessage::Reconnect(_) => r matches Err(
                    HandlerErr::Reconnect(ReconnectHandlerErr::Session(_)),
                ),
                _ => r matches Ok(o) && o.arm is None && o.reconnect_to is None,
            }),
            session matches Some(s) ==> (match self {
                TwitchMessage::Welcome(w) => {
                    &&& final(s).model() == (SessionModel {
                        id: w.payload.session.id@,
                        read_timeout: match w.payload.session.keepalive_timeout_seconds {
                            KeepaliveSeconds::Seconds(k) => if k < u64::MAX {
                                Some((k + 1) as u64)
                            } else {
                                s.model().read_timeout
                            },
                            _ => s.model().read_timeout,
                        },
                        ..s.model()
                    })
                    &&& (match w.payload.session.keepalive_timeout_seconds {
                        KeepaliveSeconds::Seconds(k) => if k < u64::MAX {
                            r matches Ok(o) && o.arm == Some((k + 1) as u64) && o.reconnect_to
                                is None
                        } else {
                            r matches Err(
                                HandlerErr::Welcome(WelcomeHandlerErr::InvalidKeepalive(_)),
                            )
                        },
                        KeepaliveSeconds::Invalid => r matches Err(
                            HandlerErr::Welcome(WelcomeHandlerErr::InvalidKeepalive(_)),
                        ),
                        KeepaliveSeconds::Absent => r matches Err(
                            HandlerErr::Welcome(WelcomeHandlerErr::NoKeepalive(_)),
                        ),
                    })
                },
                TwitchMessage::Reconnect(rc) => {
                    &&& final(s).model() == s.model()
                    &&& (if is_valid_url(rc.payload.session.reconnect_url@) {
                        r matches Ok(o) && o.arm is None && (o.reconnect_to matches Some(u) && u@
                            == rc.payload.session.reconnect_url@)
                    } else {
                        r matches Err(HandlerErr::Reconnect(ReconnectHandlerErr::Session(_)))
                    })
                },
                _ => {
                    &&& final(s).model() == s.model()
                    &&& (r matches Ok(o) && o.arm is None && o.reconnect_to is None)
                },
            }),
    {
        match self {
            TwitchMessage::Welcome(w) => match session {
                Some(s) => match w.handle(s) {
                    Ok(()) => {
                        let arm = match w.payload.session.keepalive_timeout_seconds {
                            KeepaliveSeconds::Seconds(k) => if k < u64::MAX {
                                Some(k + 1)
                            } else {
                                None
                            },
                            _ => None,
                        };
                        Ok(HandleOutcome { arm, reconnect_to: None })
                    },
                    Err(e) => Err(HandlerErr::Welcome(e)),
                },
                None => Err(
                    HandlerErr::Welcome(
                        WelcomeHandlerErr::NoSession(
                            "the welcome handler needs a session".to_owned(),
                        ),
                    ),
                ),
            },
            TwitchMessage::Reconnect(rc) => match session {
                Some(_) => {
                    if url_parse_ok(rc.payload.session.reconnect_url.as_str()) {
                        Ok(
                            HandleOutcome {
                                arm: None,
                                reconnect_to: Some(rc.payload.session.reconnect_url.clone()),
                            },
                        )
                    } else {
                        Err(
                            HandlerErr::Reconnect(
                                ReconnectHandlerErr::Session(
                                    "could not parse the reconnect URL".to_owned(),
                                ),
                            ),
                        )
                    }
                },
                None => Err(
                    HandlerErr::Reconnect(
                        ReconnectHandlerErr::Session(
                            "the reconnect handler needs a session".to_owned(),
                        ),
                    ),
                ),
            },
            _ => Ok(HandleOutcome { arm: None, reconnect_to: None }),
        }
    }
}

impl Reconnect {
    /// Drives the two-phase handoff of a server-directed reconnect over
    /// scripted legs of already-decoded messages.  Phase one opens a fresh
    /// session against the replacement URL and processes `new_leg` in
    /// migrating mode until it observes a welcome, forwarding everything it
    /// delivers into `out` — this proves the new connection live before the
    /// old one is abandoned; its failure (or its ending without a welcome,
    /// or a nested reconnect on either leg) aborts the whole handoff.
    /// Phase two then drains `old_leg` against the existing session,
    /// forwarding whatever was still in flight, subject to the same
    /// duplicate suppression.  So every new-leg envelope precedes every
    /// drained old-leg envelope in `out`.  The transient session of phase
    /// one is discarded: session id and dedup history of `session` are
    /// preserved.  The reconnect envelope itself is neither recorded nor
    /// forwarded here; the processing loop completes the handoff with
    /// [`crate::complete_reconnect`] afterwards.
    pub fn handle(
        &self,
        session: Option<&mut Session>,
        new_leg: Vec<TwitchMessage>,
        old_leg: Vec<TwitchMessage>,
        out: &mut Vec<TwitchMessage>,
    ) -> (r: Result<(), ReconnectHandlerErr>)
        ensures
            session is None ==> (r matches Err(ReconnectHandlerErr::Session(_)) && final(out)@
                == old(out)@),
            session matches Some(s) ==> ({
                let url = self.payload.session.reconnect_url@;
                if !is_valid_url(url) {
                    &&& r matches Err(ReconnectHandlerErr::Session(_))
                    &&& final(s).model() == s.model()
                    &&& final(out)@ == old(out)@
                } else {
                    let phase2 = spec_run(SessionModel::fresh(url), new_leg@, true);
                    if !(phase2.end is Finished) {
                        &&& r matches Err(ReconnectHandlerErr::Handler(_))
                        &&& final(s).model() == s.model()
                        &&& final(out)@ == old(out)@ + phase2.forwarded
                    } else {
                        let phase3 = spec_run(s.model(), old_leg@, false);
                        &&& final(s).model() == phase3.session
                        &&& final(out)@ == old(out)@ + phase2.forwarded + phase3.forwarded
                        &&& (r is Ok <==> phase3.end is Exhausted)
                        &&& (!(phase3.end is Exhausted) ==> r matches Err(
                            ReconnectHandlerErr::Handler(_),
                        ))
                    }
                }
            }),
    {
        let s = match session {
            Some(s) => s,
            None => {
                return Err(
                    ReconnectHandlerErr::Session(
                        "the reconnect handler needs a session".to_owned(),
                    ),
                );
            },
        };
        if !url_parse_ok(self.payload.session.reconnect_url.as_str()) {
            return Err(
                ReconnectHandlerErr::Session("could not parse the reconnect URL".to_owned()),
            );
        }
        let mut new_session = Session::new(self.payload.session.reconnect_url.clone());
        let phase2_end = match process_messages(&mut new_session, new_leg, true, out) {
            Ok(end) => end,
            Err(_) => {
                return Err(
                    ReconnectHandlerErr::Handler("the handoff's first phase failed".to_owned()),
                );
            },
        };
        match phase2_end {
            LegEnd::Finished => {},
            _ => {
                return Err(
                    ReconnectHandlerErr::Handler(
                        "the new connection ended before its welcome".to_owned(),
                    ),
                );
            },
        }
        let phase3_end = match process_messages(s, old_leg, false, out) {
            Ok(end) => end,
            Err(_) => {
                return Err(
                    ReconnectHandlerErr::Handler("draining the old connection failed".to_owned()),
                );
            },
        };
        match phase3_end {
            LegEnd::Exhausted => Ok(()),
            _ => Err(
                ReconnectHandlerErr::Handler(
                    "draining the old connection was interrupted".to_owned(),
                ),
            ),
        }
    }
}

impl Welcome {
    /// Applies a welcome to the session: the session id is recorded, and
    /// the keepalive read deadline is armed to the reported interval plus
    /// one second of grace.  The session id is set even when the keepalive
    /// is then judged unusable: an absent keepalive is `NoKeepalive`
    /// (expected on the new leg of a reconnect, where the processor
    /// swallows it), one that is not whole seconds admitting the grace
    /// second is `InvalidKeepalive`; both leave the armed deadline as it
    /// was.
    pub fn handle(&self, session: &mut Session) -> (r: Result<(), WelcomeHandlerErr>)
        ensures
            final(session).model() == (SessionModel {
                id: self.payload.session.id@,
                read_timeout: match self.payload.session.keepalive_timeout_seconds {
                    KeepaliveSeconds::Seconds(k) => if k < u64::MAX {
                        Some((k + 1) as u64)
                    } else {
                        old(session).model().read_timeout
                    },
                    _ => old(session).model().read_timeout,
                },
                ..old(session).model()
            }),
            match self.payload.session.keepalive_timeout_seconds {
                KeepaliveSeconds::Seconds(k) => if k < u64::MAX {
                    r is Ok
                } else {
                    r matches Err(WelcomeHandlerErr::InvalidKeepalive(_))
                },
                KeepaliveSeconds::Invalid => r matches Err(WelcomeHandlerErr::InvalidKeepalive(_)),
                KeepaliveSeconds::Absent => r matches Err(WelcomeHandlerErr::NoKeepalive(_)),
            },
    {
        session.id = self.payload.session.id.clone();
        match self.payload.session.keepalive_timeout_seconds {
            KeepaliveSeconds::Seconds(k) => {
                if k == u64::MAX {
                    return Err(
                        WelcomeHandlerErr::InvalidKeepalive(
                            "the keepalive interval does not admit the grace second".to_owned(),
                        ),
                    );
                }
                match session.set_keepalive(k) {
                    Ok(()) => Ok(()),
                    Err(e) => Err(WelcomeHandlerErr::CannotSetKeepalive(e)),
                }
            },
            KeepaliveSeconds::Invalid => Err(
                WelcomeHandlerErr::InvalidKeepalive(
                    "the keepalive is not an unsigned number of seconds".to_owned(),
                ),
            ),
            KeepaliveSeconds::Absent => Err(
                WelcomeHandlerErr::NoKeepalive("the welcome carried no keepalive".to_owned()),
            ),
        }
    }
}

} // verus!
