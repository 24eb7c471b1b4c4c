//! Client-side protocol engine for a push-based, WebSocket-transported
//! event-notification feed.
//!
//! The crate holds the session lifecycle and message-processing state
//! machine: decoding of server frames into envelope variants, duplicate
//! suppression, the welcome/reconnect control handlers, the scripted
//! two-phase reconnect handoff, and the exponential backoff schedule used
//! after transport loss.  The transport itself (sockets, threads, the
//! forwarding channel) lives with the embedding program, which feeds each
//! received frame to the machine and performs the actions the machine
//! returns: forwarding an envelope to the consumer, arming a read deadline,
//! or driving a handoff to a replacement connection.

use vstd::prelude::*;

pub mod decode;
pub mod error;
pub mod handlers;
pub mod types;

pub use decode::parse_message;

use crate::decode::is_valid_url;
use crate::error::{EventSubErr, HandlerErr, ReconnectHandlerErr, WelcomeHandlerErr};
use crate::types::{KeepaliveSeconds, Session, SessionModel, TwitchMessage};

verus! {

/// The well-known endpoint of the notification service.
pub const EVENTSUB_URL: &'static str = "wss://eventsub-beta.wss.twitch.tv/ws";

/// Returns the well-known endpoint, validated as a URL; an error of kind
/// `SessionErr::Parse` exactly when the URL library rejects it.
pub fn get_default_url() -> (r: Result<String, EventSubErr>)
    ensures
        is_valid_url(EVENTSUB_URL@) ==> (r matches Ok(u) && u@ == EVENTSUB_URL@),
        !is_valid_url(EVENTSUB_URL@) ==> r matches Err(EventSubErr::Session(
            crate::error::SessionErr::Parse(_),
        )),
{
    if decode::url_parse_ok(EVENTSUB_URL) {
        Ok(EVENTSUB_URL.to_owned())
    } else {
        Err(
            EventSubErr::Session(
                crate::error::SessionErr::Parse("could not parse the well-known URL".to_owned()),
            ),
        )
    }
}

/// What processing one message decides, at the specification level:
/// suppressed duplicate, delivery to the consumer (possibly ending a
/// migrating leg, possibly arming a read deadline), a server-directed
/// handoff, or one of the fatal handler failures.
pub enum SpecOutcome {
    /// The message id was already handled: nothing is dispatched or
    /// forwarded.
    Duplicate,
    /// The message is recorded as handled and forwarded.  `finish` says the
    /// processing loop ends successfully afterwards (a welcome observed
    /// while migrating); `arm` is the read deadline the transport must arm.
    Deliver { finish: bool, arm: Option<u64> },
    /// The message is a reconnect with a usable replacement URL: the
    /// two-phase handoff must run before the message itself is recorded
    /// and forwarded.
    Handoff,
    /// Fatal: a welcome without a keepalive outside a migration.
    NoKeepalive,
    /// Fatal: a welcome whose keepalive is present but not usable as whole
    /// seconds admitting the one-second grace.
    InvalidKeepalive,
    /// Fatal: a reconnect whose replacement URL does not parse.
    BadUrl,
}

/// The replacement URL carried by a reconnect message.
pub open spec fn spec_reconnect_url(m: TwitchMessage) -> Seq<char> {
    match m {
        TwitchMessage::Reconnect(rc) => rc.payload.session.reconnect_url@,
        _ => Seq::empty(),
    }
}

/// The outcome of dispatching `m` against session state `s`: the duplicate
/// check first, then the per-variant control handler policy.
pub open spec fn spec_outcome(s: SessionModel, m: TwitchMessage, migrating: bool) -> SpecOutcome {
    if s.handled.contains(m.spec_id()) {
        SpecOutcome::Duplicate
    } else {
        match m {
            TwitchMessage::Welcome(w) => match w.payload.session.keepalive_timeout_seconds {
                KeepaliveSeconds::Seconds(k) => if k < u64::MAX {
                    SpecOutcome::Deliver { finish: migrating, arm: Some((k + 1) as u64) }
                } else {
                    SpecOutcome::InvalidKeepalive
                },
                KeepaliveSeconds::Invalid => SpecOutcome::InvalidKeepalive,
                KeepaliveSeconds::Absent => if migrating {
                    SpecOutcome::Deliver { finish: true, arm: None }
                } else {
                    SpecOutcome::NoKeepalive
                },
            },
            TwitchMessage::Reconnect(rc) => if is_valid_url(rc.payload.session.reconnect_url@) {
                SpecOutcome::Handoff
            } else {
                SpecOutcome::BadUrl
            },
            _ => SpecOutcome::Deliver { finish: false, arm: None },
        }
    }
}

/// The session state after dispatching `m`: on delivery the id is recorded
/// (and a welcome overwrites the session id and read deadline); a fatal
/// welcome still overwrites the session id, since the handler sets it
/// before judging the keepalive; everything else leaves the state as it
/// was.
pub open spec fn spec_session_after(
    s: SessionModel,
    m: TwitchMessage,
    migrating: bool,
) -> SessionModel {
    match spec_outcome(s, m, migrating) {
        SpecOutcome::Duplicate => s,
        SpecOutcome::Deliver { finish, arm } => match m {
            TwitchMessage::Welcome(w) => SessionModel {
                id: w.payload.session.id@,
                handled: s.handled.push(m.spec_id()),
                read_timeout: if arm is Some {
                    arm
                } else {
                    s.read_timeout
                },
                ..s
            },
            _ => SessionModel { handled: s.handled.push(m.spec_id()), ..s },
        },
        SpecOutcome::Handoff => s,
        SpecOutcome::NoKeepalive => match m {
            TwitchMessage::Welcome(w) => SessionModel { id: w.payload.session.id@, ..s },
            _ => s,
        },
        SpecOutcome::InvalidKeepalive => match m {
            TwitchMessage::Welcome(w) => SessionModel { id: w.payload.session.id@, ..s },
            _ => s,
        },
        SpecOutcome::BadUrl => s,
    }
}

/// The fatal error kind that each fatal outcome surfaces as.
pub open spec fn spec_err_matches(e: EventSubErr, oc: SpecOutcome) -> bool {
    match oc {
        SpecOutcome::NoKeepalive => e matches EventSubErr::GeneralHandler(
            HandlerErr::Welcome(WelcomeHandlerErr::NoKeepalive(_)),
        ),
        SpecOutcome::InvalidKeepalive => e matches EventSubErr::GeneralHandler(
            HandlerErr::Welcome(WelcomeHandlerErr::InvalidKeepalive(_)),
        ),
        SpecOutcome::BadUrl => e matches EventSubErr::GeneralHandler(
            HandlerErr::Reconnect(ReconnectHandlerErr::Session(_)),
        ),
        _ => false,
    }
}

/// What the processing loop must do after one message, beyond mutating the
/// session.
#[derive(Debug)]
pub enum Control {
    /// Keep reading.
    Continue,
    /// The migrating leg observed its welcome: this loop ends successfully.
    Finish,
    /// A server-directed reconnect: run the two-phase handoff against
    /// `url`, then complete it with `msg` (see [`complete_reconnect`]).
    Handoff { url: String, msg: TwitchMessage },
}

/// The actions decided by dispatching one message.
#[derive(Debug)]
pub struct StepResult {
    /// The envelope to forward to the consumer, if any.
    pub forward: Option<TwitchMessage>,
    /// The read deadline, in seconds, to arm on the transport, if any.
    pub arm: Option<u64>,
    /// How the loop proceeds.
    pub control: Control,
}

/// Checks whether `id` is among the already-handled message ids.
fn contains_id(ids: &Vec<String>, id: &String) -> (r: bool)
    ensures
        r == ids.deep_view().contains(id@),
{
    let mut i: usize = 0;
    while i < ids.len()
        invariant
            i <= ids.len(),
            forall|j: int| 0 <= j < i ==> ids.deep_view()[j] != id@,
        decreases ids.len() - i,
    {
        if ids[i] == *id {
            proof {
                assert(ids.deep_view()[i as int] == id@);
            }
            return true;
        }
        i += 1;
    }
    false
}

/// Dispatches one decoded message against the session: the duplicate check,
/// the per-variant control handler, the record-then-forward step, and the
/// decision how the loop proceeds.  The session afterwards is exactly
/// [`spec_session_after`], and the result follows [`spec_outcome`]:
/// duplicates are suppressed; deliveries record the id and hand the
/// envelope back for forwarding; a reconnect with a usable URL asks for the
/// handoff without recording anything yet; the fatal outcomes surface as
/// the matching handler error.  A welcome lacking a keepalive is fatal
/// exactly when `migrating` is false; while migrating it is expected and
/// swallowed, and the welcome still ends the leg.
pub fn dispatch_message(session: &mut Session, msg: TwitchMessage, migrating: bool) -> (r: Result<
    StepResult,
    EventSubErr,
>)
    ensures
        final(session).model() == spec_session_after(old(session).model(), msg, migrating),
        match spec_outcome(old(session).model(), msg, migrating) {
            SpecOutcome::Duplicate => r matches Ok(sr) && sr.forward is None && sr.arm is None
                && sr.control is Continue,
            SpecOutcome::Deliver { finish, arm } => r matches Ok(sr) && sr.forward == Some(msg)
                && sr.arm == arm && (if finish {
                sr.control is Finish
            } else {
                sr.control is Continue
            }),
            SpecOutcome::Handoff => r matches Ok(sr) && sr.forward is None && sr.arm is None && (
            sr.control matches Control::Handoff { url, msg: m } && m == msg && url@
                == spec_reconnect_url(msg)),
            SpecOutcome::NoKeepalive => r matches Err(e) && spec_err_matches(
                e,
                SpecOutcome::NoKeepalive,
            ),
            SpecOutcome::InvalidKeepalive => r matches Err(e) && spec_err_matches(
                e,
                SpecOutcome::InvalidKeepalive,
            ),
            SpecOutcome::BadUrl => r matches Err(e) && spec_err_matches(e, SpecOutcome::BadUrl),
        },
{
    let id = msg.id();
    if contains_id(&session.handled_message_ids, &id) {
        return Ok(StepResult { forward: None, arm: None, control: Control::Continue });
    }
    let mut arm: Option<u64> = None;
    match &msg {
        TwitchMessage::Welcome(w) => {
            let ka = w.payload.session.keepalive_timeout_seconds;
            match w.handle(session) {
                Ok(()) => {
                    if let KeepaliveSeconds::Seconds(k) = ka {
                        arm = Some(k + 1);
                    }
                },
                Err(e) => {
                    let swallowed = match &e {
                        WelcomeHandlerErr::NoKeepalive(_) => migrating,
                        _ => false,
                    };
                    if !swallowed {
                        return Err(EventSubErr::GeneralHandler(HandlerErr::Welcome(e)));
                    }
                },
            }
        },
        TwitchMessage::Reconnect(rc) => {
            if !decode::url_parse_ok(rc.payload.session.reconnect_url.as_str()) {
                return Err(
                    EventSubErr::GeneralHandler(
                        HandlerErr::Reconnect(
                            ReconnectHandlerErr::Session(
                                "could not parse the reconnect URL".to_owned(),
                            ),
                        ),
                    ),
                );
            }
            let url = rc.payload.session.reconnect_url.clone();
            return Ok(
                StepResult { forward: None, arm: None, control: Control::Handoff { url, msg } },
            );
        },
        _ => {},
    }
    let finish = migrating && (matches!(msg, TwitchMessage::Welcome(_)));
    session.handled_message_ids.push(id);
    proof {
        assert(session.handled_message_ids.deep_view() =~= old(
            session,
        ).handled_message_ids.deep_view().push(msg.spec_id()));
        assert(session.model() =~= spec_session_after(old(session).model(), msg, migrating));
    }
    Ok(
        StepResult {
            forward: Some(msg),
            arm,
            control: if finish {
                Control::Finish
            } else {
                Control::Continue
            },
        },
    )
}

/// How one processing leg over a scripted sequence of messages ends, at
/// the specification level.
pub enum EndModel {
    /// The script ran out with the loop still going.
    Exhausted,
    /// A migrating leg observed its welcome.
    Finished,
    /// A reconnect message asked for the two-phase handoff; it carries the
    /// message, not yet recorded or forwarded.
    Handoff(TwitchMessage),
    /// A fatal outcome aborted the leg.
    Failed(SpecOutcome),
}

/// The complete effect of one processing leg: the session afterwards, the
/// envelopes forwarded to the consumer in order, and how the leg ended.
#[verifier::ext_equal]
pub struct RunModel {
    pub session: SessionModel,
    pub forwarded: Seq<TwitchMessage>,
    pub end: EndModel,
}

/// Folds [`spec_outcome`] / [`spec_session_after`] over a message
/// sequence: duplicates are skipped, deliveries are forwarded in order
/// (a finishing delivery is forwarded and then ends the leg), a handoff
/// request or a fatal outcome ends the leg at that message.
pub open spec fn spec_run(s: SessionModel, msgs: Seq<TwitchMessage>, migrating: bool) -> RunModel
    decreases msgs.len(),
{
    if msgs.len() == 0 {
        RunModel { session: s, forwarded: Seq::empty(), end: EndModel::Exhausted }
    } else {
        let m = msgs[0];
        let oc = spec_outcome(s, m, migrating);
        let s1 = spec_session_after(s, m, migrating);
        match oc {
            SpecOutcome::Duplicate => spec_run(s1, msgs.drop_first(), migrating),
            SpecOutcome::Deliver { finish, arm } => if finish {
                RunModel { session: s1, forwarded: seq![m], end: EndModel::Finished }
            } else {
                let rec = spec_run(s1, msgs.drop_first(), migrating);
                RunModel {
                    session: rec.session,
                    forwarded: seq![m] + rec.forwarded,
                    end: rec.end,
                }
            },
            SpecOutcome::Handoff => RunModel {
                session: s1,
                forwarded: Seq::empty(),
                end: EndModel::Handoff(m),
            },
            _ => RunModel { session: s1, forwarded: Seq::empty(), end: EndModel::Failed(oc) },
        }
    }
}

/// How a processing leg over scripted input ended.
#[derive(Debug)]
pub enum LegEnd {
    /// The input was exhausted with the loop still going.
    Exhausted,
    /// A migrating leg observed its welcome: the handoff's first phase is
    /// complete.
    Finished,
    /// A reconnect message asked for the two-phase handoff against `url`;
    /// `msg` is the reconnect envelope, to be recorded and forwarded only
    /// after the handoff by [`complete_reconnect`].
    HandoffRequested { url: String, msg: TwitchMessage },
}

/// Processes a scripted sequence of already-decoded messages against the
/// session, appending every forwarded envelope to `out` in delivery order.
/// The effect is exactly [`spec_run`]: the session afterwards, the
/// forwarded envelopes and the way the leg ends all follow it.
pub fn process_messages(
    session: &mut Session,
    msgs: Vec<TwitchMessage>,
    migrating: bool,
    out: &mut Vec<TwitchMessage>,
) -> (r: Result<LegEnd, EventSubErr>)
    ensures
        ({
            let run = spec_run(old(session).model(), msgs@, migrating);
            &&& final(session).model() == run.session
            &&& final(out)@ == old(out)@ + run.forwarded
            &&& match run.end {
                EndModel::Exhausted => r matches Ok(LegEnd::Exhausted),
                EndModel::Finished => r matches Ok(LegEnd::Finished),
                EndModel::Handoff(m) => r matches Ok(LegEnd::HandoffRequested { url, msg })
                    && msg == m && url@ == spec_reconnect_url(m),
                EndModel::Failed(oc) => r matches Err(e) && spec_err_matches(e, oc),
            }
        }),
    decreases msgs@.len(),
{
    let ghost s0 = session.model();
    let ghost out0 = out@;
    let ghost msgs0 = msgs@;
    let mut msgs = msgs;
    if msgs.len() == 0 {
        proof {
            assert(out@ =~= out0 + spec_run(s0, msgs0, migrating).forwarded);
        }
        return Ok(LegEnd::Exhausted);
    }
    let m = msgs.remove(0);
    let ghost m0 = m;
    let ghost rest = msgs@;
    proof {
        assert(m0 == msgs0[0]);
        assert(rest =~= msgs0.drop_first());
    }
    let sr = match dispatch_message(session, m, migrating) {
        Ok(sr) => sr,
        Err(e) => {
            proof {
                assert(out@ =~= out0 + spec_run(s0, msgs0, migrating).forwarded);
            }
            return Err(e);
        },
    };
    if let Some(f) = sr.forward {
        out.push(f);
    }
    match sr.control {
        Control::Continue => {
            let ghost mid_out = out@;
            let r = process_messages(session, msgs, migrating, out);
            proof {
                let run = spec_run(s0, msgs0, migrating);
                let rec = spec_run(spec_session_after(s0, m0, migrating), rest, migrating);
                match spec_outcome(s0, m0, migrating) {
                    SpecOutcome::Duplicate => {
                        assert(mid_out == out0);
                        assert(out@ =~= out0 + run.forwarded);
                    },
                    SpecOutcome::Deliver { finish, arm } => {
                        assert(mid_out =~= out0 + seq![m0]);
                        assert(run.forwarded =~= seq![m0] + rec.forwarded);
                        assert(out@ =~= out0 + run.forwarded);
                    },
                    _ => {},
                }
            }
            r
        },
        Control::Finish => {
            proof {
                assert(out@ =~= out0 + spec_run(s0, msgs0, migrating).forwarded);
            }
            Ok(LegEnd::Finished)
        },
        Control::Handoff { url, msg } => {
            proof {
                assert(out@ =~= out0 + spec_run(s0, msgs0, migrating).forwarded);
            }
            Ok(LegEnd::HandoffRequested { url, msg })
        },
    }
}

/// Processes a scripted sequence of raw text frames against the session:
/// `msgs` is everything that the whole frame sequence decodes to, in
/// order: each frame either decodes to nothing and is dropped, or decodes
/// to the next message of `msgs`.
pub open spec fn spec_frames_decode_to(frames: Seq<String>, msgs: Seq<TwitchMessage>) -> bool
    decreases frames.len(),
{
    if frames.len() == 0 {
        msgs.len() == 0
    } else {
        ||| (decode::spec_decodes_to(frames[0]@, None) && spec_frames_decode_to(
            frames.drop_first(),
            msgs,
        ))
        ||| (msgs.len() > 0 && decode::spec_decodes_to(frames[0]@, Some(msgs[0]))
            && spec_frames_decode_to(frames.drop_first(), msgs.drop_first()))
    }
}

/// `msgs` is what a leading part of the frame sequence decodes to, in
/// order; frames past the covered part are unconstrained (a leg that ends
/// early leaves them unread).
pub open spec fn spec_frames_decode_prefix(frames: Seq<String>, msgs: Seq<TwitchMessage>) -> bool
    decreases frames.len(),
{
    if msgs.len() == 0 {
        true
    } else if frames.len() == 0 {
        false
    } else {
        ||| (decode::spec_decodes_to(frames[0]@, None) && spec_frames_decode_prefix(
            frames.drop_first(),
            msgs,
        ))
        ||| (decode::spec_decodes_to(frames[0]@, Some(msgs[0])) && spec_frames_decode_prefix(
            frames.drop_first(),
            msgs.drop_first(),
        ))
    }
}

/// each frame is decoded (a frame that decodes to nothing is discarded and
/// processing continues), the decoded message is dispatched, and every
/// forwarded envelope is appended to `out` in delivery order.  The ghost
/// result is the sequence of decoded messages the leg dispatched, pinned
/// to the frame texts by [`spec_frames_decode_to`] (in full, when the
/// frames were exhausted) and [`spec_frames_decode_prefix`] (a leg that
/// finishes, hands off or fails leaves the remaining frames unread); the
/// whole effect is exactly [`spec_run`] over that sequence.
pub fn process_frames(
    session: &mut Session,
    frames: Vec<String>,
    migrating: bool,
    out: &mut Vec<TwitchMessage>,
) -> (r: (Result<LegEnd, EventSubErr>, Ghost<Seq<TwitchMessage>>))
    ensures
        ({
            let msgs = r.1@;
            let run = spec_run(old(session).model(), msgs, migrating);
            &&& spec_frames_decode_prefix(frames@, msgs)
            &&& (r.0 matches Ok(LegEnd::Exhausted) ==> spec_frames_decode_to(frames@, msgs))
            &&& final(session).model() == run.session
            &&& final(out)@ == old(out)@ + run.forwarded
            &&& match run.end {
                EndModel::Exhausted => r.0 matches Ok(LegEnd::Exhausted),
                EndModel::Finished => r.0 matches Ok(LegEnd::Finished),
                EndModel::Handoff(m) => r.0 matches Ok(LegEnd::HandoffRequested { url, msg })
                    && msg == m && url@ == spec_reconnect_url(m),
                EndModel::Failed(oc) => r.0 matches Err(e) && spec_err_matches(e, oc),
            }
        }),
    decreases frames@.len(),
{
    let ghost s0 = session.model();
    let ghost out0 = out@;
    let ghost frames0 = frames@;
    let mut frames = frames;
    if frames.len() == 0 {
        proof {
            assert(out@ =~= out0 + Seq::<TwitchMessage>::empty());
        }
        let ghost none_decoded = Seq::<TwitchMessage>::empty();
        return (Ok(LegEnd::Exhausted), Ghost(none_decoded));
    }
    let f = frames.remove(0);
    proof {
        assert(f == frames0[0]);
        assert(frames@ =~= frames0.drop_first());
    }
    let m = match parse_message(f.as_str()) {
        None => {
            proof {
                assert(decode::spec_decodes_to(frames0[0]@, None::<TwitchMessage>));
            }
            let (r, msgs) = process_frames(session, frames, migrating, out);
            proof {
                assert(spec_frames_decode_prefix(frames0, msgs@));
                if r matches Ok(LegEnd::Exhausted) {
                    assert(spec_frames_decode_to(frames0, msgs@));
                }
            }
            return (r, msgs);
        },
        Some(m) => m,
    };
    let ghost m0 = m;
    proof {
        assert(decode::spec_decodes_to(frames0[0]@, Some(m0)));
    }
    let sr = match dispatch_message(session, m, migrating) {
        Ok(sr) => sr,
        Err(e) => {
            proof {
                assert(seq![m0].drop_first() =~= Seq::<TwitchMessage>::empty());
                assert(out@ =~= out0 + spec_run(s0, seq![m0], migrating).forwarded);
                assert(seq![m0][0] == m0);
                assert(spec_frames_decode_prefix(
                    frames0.drop_first(),
                    seq![m0].drop_first(),
                ));
                assert(spec_frames_decode_prefix(frames0, seq![m0]));
            }
            let ghost one_decoded = seq![m0];
            return (Err(e), Ghost(one_decoded));
        },
    };
    if let Some(fw) = sr.forward {
        out.push(fw);
    }
    match sr.control {
        Control::Continue => {
            let ghost mid_out = out@;
            let (r, tail) = process_frames(session, frames, migrating, out);
            let ghost msgs = seq![m0] + tail@;
            proof {
                assert(msgs[0] == m0);
                assert(msgs.drop_first() =~= tail@);
                assert(spec_frames_decode_prefix(frames0, msgs));
                if r matches Ok(LegEnd::Exhausted) {
                    assert(spec_frames_decode_to(frames0, msgs));
                }
                let run = spec_run(s0, msgs, migrating);
                let rec = spec_run(spec_session_after(s0, m0, migrating), tail@, migrating);
                match spec_outcome(s0, m0, migrating) {
                    SpecOutcome::Duplicate => {
                        assert(mid_out == out0);
                        assert(out@ =~= out0 + run.forwarded);
                    },
                    SpecOutcome::Deliver { finish, arm } => {
                        assert(mid_out =~= out0 + seq![m0]);
                        assert(run.forwarded =~= seq![m0] + rec.forwarded);
                        assert(out@ =~= out0 + run.forwarded);
                    },
                    _ => {},
                }
            }
            (r, Ghost(msgs))
        },
        Control::Finish => {
            proof {
                assert(seq![m0].drop_first() =~= Seq::<TwitchMessage>::empty());
                assert(out@ =~= out0 + spec_run(s0, seq![m0], migrating).forwarded);
                assert(seq![m0][0] == m0);
                assert(spec_frames_decode_prefix(
                    frames0.drop_first(),
                    seq![m0].drop_first(),
                ));
                assert(spec_frames_decode_prefix(frames0, seq![m0]));
            }
            let ghost one_decoded = seq![m0];
            (Ok(LegEnd::Finished), Ghost(one_decoded))
        },
        Control::Handoff { url, msg } => {
            proof {
                assert(seq![m0].drop_first() =~= Seq::<TwitchMessage>::empty());
                assert(out@ =~= out0 + spec_run(s0, seq![m0], migrating).forwarded);
                assert(seq![m0][0] == m0);
                assert(spec_frames_decode_prefix(
                    frames0.drop_first(),
                    seq![m0].drop_first(),
                ));
                assert(spec_frames_decode_prefix(frames0, seq![m0]));
            }
            let ghost one_decoded = seq![m0];
            (Ok(LegEnd::HandoffRequested { url, msg }), Ghost(one_decoded))
        },
    }
}

/// Completes a server-directed reconnect after both handoff phases have
/// run: the reconnect message is recorded as handled, the session's
/// connection URL is overridden with the server-issued one (so a later
/// transport loss reconnects to the new endpoint), and the envelope is
/// handed back to be forwarded to the consumer.  Session id and dedup
/// history are deliberately preserved: the server's reconnect represents
/// continuity of the same logical session, so only the transport is
/// replaced.
pub fn complete_reconnect(session: &mut Session, msg: TwitchMessage) -> (r: TwitchMessage)
    requires
        msg is Reconnect,
    ensures
        r == msg,
        final(session).model() == (SessionModel {
            handled: old(session).model().handled.push(msg.spec_id()),
            url: spec_reconnect_url(msg),
            ..old(session).model()
        }),
{
    let id = msg.id();
    session.handled_message_ids.push(id);
    match &msg {
        TwitchMessage::Reconnect(rc) => {
            session.eventsub_url = rc.payload.session.reconnect_url.clone();
        },
        _ => {},
    }
    proof {
        assert(session.handled_message_ids.deep_view() =~= old(
            session,
        ).handled_message_ids.deep_view().push(msg.spec_id()));
        assert(session.model() =~= (SessionModel {
            handled: old(session).model().handled.push(msg.spec_id()),
            url: spec_reconnect_url(msg),
            ..old(session).model()
        }));
    }
    msg
}

/// The delay that follows `delay` in the backoff schedule: doubled while
/// that fits in the counter, saturated at its top otherwise (a bound the
/// schedule cannot reach in practice).
pub open spec fn spec_next_delay(delay: u64) -> u64 {
    if delay <= u64::MAX / 2 {
        (2 * delay) as u64
    } else {
        u64::MAX
    }
}

/// The delay before the reconnection attempt after `n` failed attempts:
/// 1s, 2s, 4s, doubling without a practical bound.
pub open spec fn spec_backoff_delay(n: nat) -> u64
    decreases n,
{
    if n == 0 {
        1u64
    } else {
        spec_next_delay(spec_backoff_delay((n - 1) as nat))
    }
}

/// The exponential backoff schedule used between reconnection attempts
/// after a transport loss: the first wait is one second, and each failed
/// attempt doubles the next wait, without an upper bound.  The engine only
/// decides the delays; the embedding program sleeps and retries.
pub struct Backoff {
    /// The wait, in seconds, before the next connection attempt.
    pub delay_seconds: u64,
}

impl Backoff {
    /// A fresh schedule: the first wait is one second.
    pub fn new() -> (b: Backoff)
        ensures
            b.delay_seconds == 1u64,
    {
        Backoff { delay_seconds: 1 }
    }

    /// Takes the wait for the coming attempt and doubles the one after it.
    pub fn next_delay(&mut self) -> (d: u64)
        ensures
            d == old(self).delay_seconds,
            final(self).delay_seconds == spec_next_delay(old(self).delay_seconds),
    {
        let d = self.delay_seconds;
        if self.delay_seconds <= u64::MAX / 2 {
            self.delay_seconds = 2 * self.delay_seconds;
        } else {
            self.delay_seconds = u64::MAX;
        }
        d
    }
}

/// The mathematical backoff schedule: two to the `n` seconds after `n`
/// consecutive failures, with no upper bound.
pub open spec fn spec_backoff_schedule(n: nat) -> nat {
    vstd::arithmetic::power2::pow2(n)
}

/// The delay between successive reconnection attempts doubles — 1s, 2s,
/// 4s, … — with no upper bound in the schedule itself; the counter the
/// engine keeps follows the schedule exactly through its first 63
/// doublings, past which one delay would already outlast any connection
/// (the counter then saturates rather than overflow).
pub proof fn lemma_backoff_growth(n: nat)
    ensures
        spec_backoff_schedule(n + 1) == 2 * spec_backoff_schedule(n),
        spec_backoff_schedule(0) == 1,
        n < 63 ==> spec_backoff_delay(n + 1) == 2 * spec_backoff_delay(n),
        n <= 63 ==> spec_backoff_delay(n) == spec_backoff_schedule(n),
    decreases n,
{
    vstd::arithmetic::power2::lemma_pow2_unfold(n + 1);
    vstd::arithmetic::power2::lemma2_to64();
    if n == 0 {
        assert(spec_backoff_delay(0) == 1);
        assert(spec_backoff_delay(1) == spec_next_delay(spec_backoff_delay(0)));
    } else {
        lemma_backoff_growth((n - 1) as nat);
        if n <= 63 {
            vstd::arithmetic::power2::lemma_pow2_unfold(n);
            vstd::arithmetic::power2::lemma_pow2_strictly_increases((n - 1) as nat, 63);
            vstd::arithmetic::power2::lemma2_to64_rest();
            assert(spec_backoff_delay(n) == spec_next_delay(spec_backoff_delay((n - 1) as nat)));
            assert(spec_backoff_delay(n) == spec_backoff_schedule(n));
        }
        if n < 63 {
            vstd::arithmetic::power2::lemma_pow2_strictly_increases(n, 63);
            assert(spec_backoff_delay(n) < 0x8000000000000000);
            assert(spec_backoff_delay(n + 1) == spec_next_delay(spec_backoff_delay(n)));
        }
    }
}

/// Duplicate suppression is idempotent: once a message is delivered on a
/// session, dispatching any message carrying the same id again — in
/// whatever processing mode — is a suppressed duplicate, so the consumer
/// receives at most one envelope with that id.
pub proof fn lemma_dedup_idempotence(
    s: SessionModel,
    m1: TwitchMessage,
    m2: TwitchMessage,
    migrating1: bool,
    migrating2: bool,
)
    requires
        m1.spec_id() == m2.spec_id(),
        spec_outcome(s, m1, migrating1) is Deliver,
    ensures
        spec_outcome(spec_session_after(s, m1, migrating1), m2, migrating2)
            is Duplicate,
{
    broadcast use vstd::seq_lib::lemma_seq_contains_after_push;

    let s1 = spec_session_after(s, m1, migrating1);
    assert(s1.handled == s.handled.push(m1.spec_id()));
    assert(s1.handled.contains(m2.spec_id()));
}

/// Over any processing leg, the forwarded envelopes carry pairwise
/// distinct message ids, and none of them carries an id the session had
/// already handled: delivery to the consumer is at most once per id.
pub proof fn lemma_run_forwards_distinct(
    s: SessionModel,
    msgs: Seq<TwitchMessage>,
    migrating: bool,
)
    ensures
        ({
            let run = spec_run(s, msgs, migrating);
            &&& forall|i: int|
                0 <= i < run.forwarded.len() ==> !s.handled.contains(
                    #[trigger] run.forwarded[i].spec_id(),
                )
            &&& forall|i: int, j: int|
                0 <= i < j < run.forwarded.len() ==> run.forwarded[i].spec_id()
                    != run.forwarded[j].spec_id()
        }),
    decreases msgs.len(),
{
    broadcast use vstd::seq_lib::lemma_seq_contains_after_push;

    if msgs.len() != 0 {
        let m = msgs[0];
        let oc = spec_outcome(s, m, migrating);
        let s1 = spec_session_after(s, m, migrating);
        let rest = msgs.drop_first();
        match oc {
            SpecOutcome::Duplicate => {
                lemma_run_forwards_distinct(s1, rest, migrating);
            },
            SpecOutcome::Deliver { finish, arm } => {
                assert(s1.handled == s.handled.push(m.spec_id()));
                if !finish {
                    lemma_run_forwards_distinct(s1, rest, migrating);
                    let rec = spec_run(s1, rest, migrating);
                    let run = spec_run(s, msgs, migrating);
                    assert(run.forwarded =~= seq![m] + rec.forwarded);
                    assert forall|i: int| 0 <= i < run.forwarded.len() implies !s.handled.contains(
                        #[trigger] run.forwarded[i].spec_id(),
                    ) by {
                        if i > 0 {
                            assert(run.forwarded[i] == rec.forwarded[i - 1]);
                            assert(!s1.handled.contains(rec.forwarded[i - 1].spec_id()));
                        }
                    }
                    assert forall|i: int, j: int|
                        0 <= i < j < run.forwarded.len() implies run.forwarded[i].spec_id()
                        != run.forwarded[j].spec_id() by {
                        if i == 0 {
                            assert(s1.handled.contains(m.spec_id()));
                            assert(run.forwarded[j] == rec.forwarded[j - 1]);
                            assert(!s1.handled.contains(rec.forwarded[j - 1].spec_id()));
                        } else {
                            assert(run.forwarded[i] == rec.forwarded[i - 1]);
                            assert(run.forwarded[j] == rec.forwarded[j - 1]);
                        }
                    }
                }
            },
            _ => {},
        }
    }
}

/// A welcome lacking a keepalive is fatal under normal operation, and an
/// expected, swallowed condition while migrating: the welcome is then
/// still delivered and ends the migrating leg.
pub proof fn lemma_welcome_no_keepalive_policy(s: SessionModel, m: TwitchMessage)
    requires
        m matches TwitchMessage::Welcome(w) && w.payload.session.keepalive_timeout_seconds
            is Absent,
        !s.handled.contains(m.spec_id()),
    ensures
        spec_outcome(s, m, false) is NoKeepalive,
        spec_outcome(s, m, true) == (SpecOutcome::Deliver { finish: true, arm: None::<u64> }),
{
}

/// Delivering a welcome that reports a keepalive interval of `k` seconds
/// succeeds and arms the read deadline to exactly `k + 1` seconds — the
/// interval plus the grace second; the session records the deadline, takes
/// the welcome's session id, records the message as handled, and keeps its
/// connection URL.
pub proof fn lemma_keepalive_arming(s: SessionModel, m: TwitchMessage, migrating: bool, k: u64)
    requires
        m matches TwitchMessage::Welcome(w) && w.payload.session.keepalive_timeout_seconds
            == KeepaliveSeconds::Seconds(k),
        k < u64::MAX,
        !s.handled.contains(m.spec_id()),
    ensures
        spec_outcome(s, m, migrating) == (SpecOutcome::Deliver {
            finish: migrating,
            arm: Some((k + 1) as u64),
        }),
        spec_session_after(s, m, migrating).read_timeout == Some((k + 1) as u64),
        m matches TwitchMessage::Welcome(w) ==> spec_session_after(s, m, migrating).id
            == w.payload.session.id@,
        spec_session_after(s, m, migrating).handled == s.handled.push(m.spec_id()),
        spec_session_after(s, m, migrating).url == s.url,
{
}

/// A processing leg that finished did so at a welcome: its forwarded
/// output is non-empty and ends with the welcome it observed.
proof fn lemma_finished_leg_ends_with_welcome(
    s: SessionModel,
    msgs: Seq<TwitchMessage>,
    migrating: bool,
)
    requires
        spec_run(s, msgs, migrating).end is Finished,
    ensures
        spec_run(s, msgs, migrating).forwarded.len() > 0,
        spec_run(s, msgs, migrating).forwarded.last() matches TwitchMessage::Welcome(_),
    decreases msgs.len(),
{
    if msgs.len() != 0 {
        let run = spec_run(s, msgs, migrating);
        let m = msgs[0];
        let s1 = spec_session_after(s, m, migrating);
        match spec_outcome(s, m, migrating) {
            SpecOutcome::Duplicate => {
                lemma_finished_leg_ends_with_welcome(s1, msgs.drop_first(), migrating);
            },
            SpecOutcome::Deliver { finish, arm } => {
                if finish {
                    assert(run.forwarded.last() == m);
                } else {
                    lemma_finished_leg_ends_with_welcome(s1, msgs.drop_first(), migrating);
                    let rec = spec_run(s1, msgs.drop_first(), migrating);
                    assert(run.forwarded.last() == rec.forwarded.last());
                }
            },
            _ => {},
        }
    }
}

/// A leg processed outside a migration never ends by the migrating exit:
/// only exhaustion, a handoff request or a failure can end it.
proof fn lemma_drain_never_finishes(s: SessionModel, msgs: Seq<TwitchMessage>)
    ensures
        !(spec_run(s, msgs, false).end is Finished),
    decreases msgs.len(),
{
    if msgs.len() != 0 {
        let m = msgs[0];
        let s1 = spec_session_after(s, m, false);
        match spec_outcome(s, m, false) {
            SpecOutcome::Duplicate => {
                lemma_drain_never_finishes(s1, msgs.drop_first());
            },
            SpecOutcome::Deliver { finish, arm } => {
                assert(!finish);
                lemma_drain_never_finishes(s1, msgs.drop_first());
            },
            _ => {},
        }
    }
}

/// During the two-phase handoff that a reconnect message directs, the
/// consumer's view stays coherent: the combined forwarded output is the
/// new leg's forwards followed by the old leg's drained forwards, each in
/// its own order, so all new-leg traffic precedes all old-leg drained
/// traffic; a new leg that finished did so at a welcome, which is the last
/// new-leg envelope forwarded — the proof that the new connection was live
/// before the old one was retired; and the drain itself can only end by
/// exhaustion, a failure or a nested handoff request, never by the
/// migrating exit.  The two phases here are exactly those of
/// [`Reconnect::handle`]'s contract.
pub proof fn lemma_handoff_ordering(
    s: SessionModel,
    rc: crate::types::Reconnect,
    new_leg: Seq<TwitchMessage>,
    old_leg: Seq<TwitchMessage>,
)
    ensures
        ({
            let phase2 = spec_run(
                SessionModel::fresh(rc.payload.session.reconnect_url@),
                new_leg,
                true,
            );
            let phase3 = spec_run(s, old_leg, false);
            let all = phase2.forwarded + phase3.forwarded;
            &&& all.len() == phase2.forwarded.len() + phase3.forwarded.len()
            &&& forall|i: int|
                0 <= i < phase2.forwarded.len() ==> all[i] == phase2.forwarded[i]
            &&& forall|j: int|
                phase2.forwarded.len() <= j < all.len() ==> all[j] == phase3.forwarded[j
                    - phase2.forwarded.len()]
            &&& (phase2.end is Finished ==> phase2.forwarded.len() > 0 && (
            phase2.forwarded.last() matches TwitchMessage::Welcome(_)))
            &&& !(phase3.end is Finished)
        }),
{
    let start = SessionModel::fresh(rc.payload.session.reconnect_url@);
    if spec_run(start, new_leg, true).end is Finished {
        lemma_finished_leg_ends_with_welcome(start, new_leg, true);
    }
    lemma_drain_never_finishes(s, old_leg);
}

/// A transport-level event observed by the read loop, classified by the
/// embedding program from its socket library's failures.
#[derive(Debug, Clone, Copy, PartialEq, Eq)]
pub enum TransportEvent {
    /// A frame arrived.
    Frame,
    /// The peer closed the connection.
    Closed,
    /// A transport-level I/O failure that is not a clean close.
    IoFailure,
    /// Any other transport failure (a frame malformed beyond repair and
    /// the like).
    Broken,
}

/// What the processing loop does with a transport event.
#[derive(Debug, Clone, Copy, PartialEq, Eq)]
pub enum TransportAction {
    /// Decode and dispatch the frame.
    Process,
    /// Recoverable loss: reconnect in place with backoff, preserving all
    /// session state, and continue the loop.
    Reconnect,
    /// The superseded connection is already gone: the drain ends normally.
    FinishDrain,
    /// Terminal: the error propagates to the caller.
    Fail,
}

/// The transport policy: a frame is processed; a hard close or any failure
/// beyond repair is terminal; an I/O failure triggers the in-place backoff
/// reconnection, unless the loop is draining a superseded connection,
/// where it means the old connection is already gone and the drain ends
/// normally.
pub open spec fn spec_transport_action(event: TransportEvent, draining: bool) -> TransportAction {
    match event {
        TransportEvent::Frame => TransportAction::Process,
        TransportEvent::Closed => TransportAction::Fail,
        TransportEvent::IoFailure => if draining {
            TransportAction::FinishDrain
        } else {
            TransportAction::Reconnect
        },
        TransportEvent::Broken => TransportAction::Fail,
    }
}

/// Decides what the read loop does after one transport event, exactly per
/// [`spec_transport_action`].
pub fn transport_action(event: TransportEvent, draining: bool) -> (r: TransportAction)
    ensures
        r == spec_transport_action(event, draining),
{
    match event {
        TransportEvent::Frame => TransportAction::Process,
        TransportEvent::Closed => TransportAction::Fail,
        TransportEvent::IoFailure => {
            if draining {
                TransportAction::FinishDrain
            } else {
                TransportAction::Reconnect
            }
        },
        TransportEvent::Broken => TransportAction::Fail,
    }
}

/// Whether the loop, about to read, must first send the close frame that
/// retires a superseded connection: exactly once, on a draining loop that
/// has not sent it yet.
pub fn must_send_close(draining: bool, sent_close: bool) -> (r: bool)
    ensures
        r == (draining && !sent_close),
{
    draining && !sent_close
}

/// Whether a draining loop is complete: the superseded socket reports no
/// further data to read.
pub fn drain_complete(draining: bool, can_read: bool) -> (r: bool)
    ensures
        r == (draining && !can_read),
{
    draining && !can_read
}

} // verus!

