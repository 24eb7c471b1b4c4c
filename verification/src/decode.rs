//! Structural decoding of received text frames into envelope variants.
//!
//! Decoding is done in two steps, both with exact contracts.  First the
//! frame is parsed into a generic JSON document and the control-relevant
//! fields are extracted from it into a [`RawMessage`] of plain values.
//! Only the JSON library's own operations are trusted there, each behind a
//! thin wrapper: a parsed document is identified by its canonical text
//! ([`json_of`], deterministic because object members are kept sorted),
//! and parsing, member lookup and the value accessors are named as
//! functions over that plain identity ([`doc_of`], [`member_of`],
//! [`str_of`], [`u64_of`], [`null_of`]).  The extraction itself —
//! which keys are read, and how the keepalive field's absent / null /
//! not-a-number cases are told apart — is verified code whose contract
//! ([`spec_raw_fields_ok`]) fixes every extracted field over those names.
//! Second, [`RawMessage::classify`] inspects the extracted fields — the
//! `message_type` tag routes to a variant, whose required fields are then
//! checked strictly — and [`spec_classify`] says precisely which envelope
//! every combination of fields decodes to.  Together they pin the whole
//! decode: [`parse_message`] satisfies [`spec_decodes_to`], which fixes
//! the result for every frame text.  Decode failure (unknown or malformed
//! shape) yields `None` and is non-fatal to the processor: the frame is
//! discarded and processing continues, so the protocol tolerates message
//! types it does not understand.

use vstd::prelude::*;

use crate::types::{
    GenericMetadata, Keepalive, KeepaliveSeconds, Notification, NotificationPayload, Reconnect,
    ReconnectSessionData, ReconnectSessionPayload, Revocation, SubscriptionMetadata,
    SubscriptionPayload, TwitchMessage, Welcome, WelcomeSessionData, WelcomeSessionPayload,
};

verus! {

#[verifier::external_type_specification]
#[verifier::external_body]
pub struct ExValue(serde_json::Value);

/// Whether `url::Url::parse` accepts a piece of text; the outcome is a
/// function of the text alone.
pub uninterp spec fn is_valid_url(s: Seq<char>) -> bool;

/// Relies on `url::Url::parse`: validates a connection URL.
#[verifier::external_body]
pub(crate) fn url_parse_ok(s: &str) -> (r: bool)
    ensures
        r == is_valid_url(s@),
{
    url::Url::parse(s).is_ok()
}

/// The canonical JSON text of a document value — what `serde_json::to_string`
/// prints for it.  It is a plain identity for an otherwise opaque document:
/// printing is deterministic (object members are kept in a sorted map), and
/// the canonical text determines the document, so the other names below are
/// well-defined as functions of it.
pub uninterp spec fn json_of(v: serde_json::Value) -> Seq<char>;

/// What `serde_json::from_str::<Value>` yields for a piece of text, as the
/// canonical text of the parsed document; `None` when the text is not
/// well-formed JSON.  Parsing is deterministic, a function of the text
/// alone.
pub uninterp spec fn doc_of(s: Seq<char>) -> Option<Seq<char>>;

/// What `serde_json::Value::get` yields on the document with canonical
/// text `d` for the member `key`, as the member's canonical text; `None`
/// when the document is not an object or lacks the key.
pub uninterp spec fn member_of(d: Seq<char>, key: Seq<char>) -> Option<Seq<char>>;

/// What `serde_json::Value::as_str` yields on the document with canonical
/// text `d`: its text if it is a JSON string, `None` otherwise.
pub uninterp spec fn str_of(d: Seq<char>) -> Option<Seq<char>>;

/// What `serde_json::Value::as_u64` yields on the document with canonical
/// text `d`: its value if it is a JSON number representable as a `u64`,
/// `None` otherwise.
pub uninterp spec fn u64_of(d: Seq<char>) -> Option<u64>;

/// What `serde_json::Value::is_null` yields on the document with canonical
/// text `d`.
pub uninterp spec fn null_of(d: Seq<char>) -> bool;

/// The views of an optional piece of owned text.
pub open spec fn opt_text(o: Option<String>) -> Option<Seq<char>> {
    match o {
        Some(s) => Some(s@),
        None => None,
    }
}

/// Relies on `serde_json::from_str::<Value>`: parses a text frame into a
/// JSON document, `None` exactly when the text is not well-formed JSON.
#[verifier::external_body]
fn json_parse(s: &str) -> (r: Option<serde_json::Value>)
    ensures
        match r {
            Some(v) => doc_of(s@) == Some(json_of(v)),
            None => doc_of(s@) is None,
        },
{
    serde_json::from_str(s).ok()
}

/// Relies on `serde_json::Value::get`: member lookup by key, `None` when
/// the document is not an object or lacks the key.
#[verifier::external_body]
fn json_get<'a>(v: &'a serde_json::Value, key: &str) -> (r: Option<&'a serde_json::Value>)
    ensures
        match r {
            Some(m) => member_of(json_of(*v), key@) == Some(json_of(*m)),
            None => member_of(json_of(*v), key@) is None,
        },
{
    v.get(key)
}

/// Relies on `serde_json::Value::as_str`: the text of a JSON string,
/// `None` for any other kind of value.
#[verifier::external_body]
fn json_as_str(v: &serde_json::Value) -> (r: Option<String>)
    ensures
        opt_text(r) == str_of(json_of(*v)),
{
    match v.as_str() {
        Some(s) => Some(s.to_owned()),
        None => None,
    }
}

/// Relies on `serde_json::Value::as_u64`: the value of a JSON number that
/// is representable as a `u64`, `None` for anything else.
#[verifier::external_body]
fn json_as_u64(v: &serde_json::Value) -> (r: Option<u64>)
    ensures
        r == u64_of(json_of(*v)),
{
    v.as_u64()
}

/// Relies on `serde_json::Value::is_null`.
#[verifier::external_body]
fn json_is_null(v: &serde_json::Value) -> (r: bool)
    ensures
        r == null_of(json_of(*v)),
{
    v.is_null()
}

/// Relies on `serde_json::to_string`: the canonical JSON text of a
/// document, used to carry opaque payload subtrees through the engine as
/// plain text.  Printing a document value cannot fail — its numbers are
/// finite and its object keys are strings — so the result is always there.
#[verifier::external_body]
fn json_text(v: &serde_json::Value) -> (r: Option<String>)
    ensures
        opt_text(r) == Some(json_of(*v)),
{
    serde_json::to_string(v).ok()
}

/// The control-relevant fields of one parsed frame, as plain values.
/// A field is `None` where the document does not carry it in the expected
/// shape.  Classification into an envelope variant is decided by these
/// fields alone.
#[derive(Debug, Clone, PartialEq)]
pub struct RawMessage {
    pub message_id: Option<String>,
    pub message_type: Option<String>,
    pub message_timestamp: Option<String>,
    pub subscription_type: Option<String>,
    pub subscription_version: Option<String>,
    pub session_id: Option<String>,
    pub session_status: Option<String>,
    pub session_connected_at: Option<String>,
    pub keepalive: KeepaliveSeconds,
    pub reconnect_url: Option<String>,
    pub payload_text: Option<String>,
    pub sub_id: Option<String>,
    pub sub_status: Option<String>,
    pub sub_kind: Option<String>,
    pub sub_version: Option<String>,
    pub sub_cost: Option<u64>,
    pub sub_condition: Option<String>,
    pub sub_transport: Option<String>,
    pub sub_created_at: Option<String>,
    pub event_text: Option<String>,
}

/// The metadata member of the document with canonical text `d`.
pub open spec fn spec_metadata(d: Seq<char>) -> Option<Seq<char>> {
    member_of(d, "metadata"@)
}

/// The payload member of the document with canonical text `d`.
pub open spec fn spec_payload(d: Seq<char>) -> Option<Seq<char>> {
    member_of(d, "payload"@)
}

/// The payload's session member of the document with canonical text `d`.
pub open spec fn spec_session(d: Seq<char>) -> Option<Seq<char>> {
    match spec_payload(d) {
        Some(p) => member_of(p, "session"@),
        None => None,
    }
}

/// The payload's subscription member of the document with canonical text
/// `d`.
pub open spec fn spec_subscription(d: Seq<char>) -> Option<Seq<char>> {
    match spec_payload(d) {
        Some(p) => member_of(p, "subscription"@),
        None => None,
    }
}

/// The text of the string member `key` of the document with canonical text
/// `d`, if the member exists and is a string.
pub open spec fn spec_str_at(d: Seq<char>, key: Seq<char>) -> Option<Seq<char>> {
    match member_of(d, key) {
        Some(m) => str_of(m),
        None => None,
    }
}

/// `spec_str_at`, lifted over an optional part of the document.
pub open spec fn spec_str_in(part: Option<Seq<char>>, key: Seq<char>) -> Option<Seq<char>> {
    match part {
        Some(d) => spec_str_at(d, key),
        None => None,
    }
}

/// The `u64` value of the number member `key`, lifted over an optional
/// part of the document.
pub open spec fn spec_u64_in(part: Option<Seq<char>>, key: Seq<char>) -> Option<u64> {
    match part {
        Some(d) => match member_of(d, key) {
            Some(m) => u64_of(m),
            None => None,
        },
        None => None,
    }
}

/// The canonical text of the member `key`, lifted over an optional part of
/// the document.
pub open spec fn spec_text_in(part: Option<Seq<char>>, key: Seq<char>) -> Option<Seq<char>> {
    match part {
        Some(d) => member_of(d, key),
        None => None,
    }
}

/// The keepalive field of the document with canonical text `d`: absent
/// when the session (or the member) is missing or JSON null, invalid when
/// present but not a `u64` of seconds.
pub open spec fn spec_keepalive_field(d: Seq<char>) -> KeepaliveSeconds {
    match spec_session(d) {
        Some(s) => match member_of(s, "keepalive_timeout_seconds"@) {
            Some(kv) => if null_of(kv) {
                KeepaliveSeconds::Absent
            } else {
                match u64_of(kv) {
                    Some(k) => KeepaliveSeconds::Seconds(k),
                    None => KeepaliveSeconds::Invalid,
                }
            },
            None => KeepaliveSeconds::Absent,
        },
        None => KeepaliveSeconds::Absent,
    }
}

/// The wire grammar of the extraction: `raw` holds exactly the
/// control-relevant fields of the document with canonical text `d` — each
/// field the named outcome of the key lookups the format prescribes.
pub open spec fn spec_raw_fields_ok(raw: RawMessage, d: Seq<char>) -> bool {
    &&& opt_text(raw.message_id) == spec_str_in(spec_metadata(d), "message_id"@)
    &&& opt_text(raw.message_type) == spec_str_in(spec_metadata(d), "message_type"@)
    &&& opt_text(raw.message_timestamp) == spec_str_in(spec_metadata(d), "message_timestamp"@)
    &&& opt_text(raw.subscription_type) == spec_str_in(spec_metadata(d), "subscription_type"@)
    &&& opt_text(raw.subscription_version) == spec_str_in(
        spec_metadata(d),
        "subscription_version"@,
    )
    &&& opt_text(raw.session_id) == spec_str_in(spec_session(d), "id"@)
    &&& opt_text(raw.session_status) == spec_str_in(spec_session(d), "status"@)
    &&& opt_text(raw.session_connected_at) == spec_str_in(spec_session(d), "connected_at"@)
    &&& raw.keepalive == spec_keepalive_field(d)
    &&& opt_text(raw.reconnect_url) == spec_str_in(spec_session(d), "reconnect_url"@)
    &&& opt_text(raw.payload_text) == spec_payload(d)
    &&& opt_text(raw.sub_id) == spec_str_in(spec_subscription(d), "id"@)
    &&& opt_text(raw.sub_status) == spec_str_in(spec_subscription(d), "status"@)
    &&& opt_text(raw.sub_kind) == spec_str_in(spec_subscription(d), "type"@)
    &&& opt_text(raw.sub_version) == spec_str_in(spec_subscription(d), "version"@)
    &&& raw.sub_cost == spec_u64_in(spec_subscription(d), "cost"@)
    &&& opt_text(raw.sub_condition) == spec_text_in(spec_subscription(d), "condition"@)
    &&& opt_text(raw.sub_transport) == spec_text_in(spec_subscription(d), "transport"@)
    &&& opt_text(raw.sub_created_at) == spec_str_in(spec_subscription(d), "created_at"@)
    &&& opt_text(raw.event_text) == spec_text_in(spec_payload(d), "event"@)
}

/// The subscription descriptor built from extracted fields; `None` unless
/// every required field is present.
pub open spec fn spec_subscription_payload(raw: RawMessage) -> Option<SubscriptionPayload> {
    match (raw.sub_id, raw.sub_status, raw.sub_kind, raw.sub_version) {
        (Some(id), Some(status), Some(kind), Some(version)) => match (
            raw.sub_cost,
            raw.sub_condition,
            raw.sub_transport,
            raw.sub_created_at,
        ) {
            (Some(cost), Some(condition), Some(transport), Some(created_at)) => Some(
                SubscriptionPayload {
                    id,
                    status,
                    kind,
                    version,
                    cost,
                    condition,
                    transport,
                    created_at,
                },
            ),
            _ => None,
        },
        _ => None,
    }
}

/// The subscription-scoped metadata built from extracted fields; `None`
/// unless the subscription type and version are present.
pub open spec fn spec_subscription_metadata(
    raw: RawMessage,
    mid: String,
    mtype: String,
    mts: String,
) -> Option<SubscriptionMetadata> {
    match (raw.subscription_type, raw.subscription_version) {
        (Some(st), Some(sv)) => Some(
            SubscriptionMetadata {
                message_id: mid,
                message_type: mtype,
                message_timestamp: mts,
                subscription_type: st,
                subscription_version: sv,
            },
        ),
        _ => None,
    }
}

/// The welcome envelope built from extracted fields; `None` unless the
/// session descriptor's required fields are present.  The keepalive field
/// is taken as extracted — absent or invalid keepalives decode fine and are
/// judged by the welcome handler, not here.
pub open spec fn spec_classify_welcome(
    raw: RawMessage,
    mid: String,
    mtype: String,
    mts: String,
) -> Option<TwitchMessage> {
    match (raw.session_id, raw.session_status, raw.session_connected_at) {
        (Some(sid), Some(status), Some(connected_at)) => Some(
            TwitchMessage::Welcome(
                Welcome {
                    metadata: GenericMetadata {
                        message_id: mid,
                        message_type: mtype,
                        message_timestamp: mts,
                    },
                    payload: WelcomeSessionPayload {
                        session: WelcomeSessionData {
                            id: sid,
                            status,
                            connected_at,
                            keepalive_timeout_seconds: raw.keepalive,
                            reconnect_url: raw.reconnect_url,
                        },
                    },
                },
            ),
        ),
        _ => None,
    }
}

/// The reconnect envelope built from extracted fields; the replacement URL
/// is required, the keepalive is kept only where it is whole seconds.
pub open spec fn spec_classify_reconnect(
    raw: RawMessage,
    mid: String,
    mtype: String,
    mts: String,
) -> Option<TwitchMessage> {
    match (raw.session_id, raw.session_status, raw.session_connected_at, raw.reconnect_url) {
        (Some(sid), Some(status), Some(connected_at), Some(reconnect_url)) => Some(
            TwitchMessage::Reconnect(
                Reconnect {
                    metadata: GenericMetadata {
                        message_id: mid,
                        message_type: mtype,
                        message_timestamp: mts,
                    },
                    payload: ReconnectSessionPayload {
                        session: ReconnectSessionData {
                            id: sid,
                            status,
                            connected_at,
                            keepalive_timeout_seconds: match raw.keepalive {
                                KeepaliveSeconds::Seconds(k) => Some(k),
                                _ => None,
                            },
                            reconnect_url,
                        },
                    },
                },
            ),
        ),
        _ => None,
    }
}

/// The keepalive envelope built from extracted fields; the opaque payload
/// must be present and is carried as raw JSON text.
pub open spec fn spec_classify_keepalive(
    raw: RawMessage,
    mid: String,
    mtype: String,
    mts: String,
) -> Option<TwitchMessage> {
    match raw.payload_text {
        Some(payload) => Some(
            TwitchMessage::Keepalive(
                Keepalive {
                    metadata: GenericMetadata {
                        message_id: mid,
                        message_type: mtype,
                        message_timestamp: mts,
                    },
                    payload,
                },
            ),
        ),
        None => None,
    }
}

/// The notification envelope built from extracted fields: subscription
/// metadata, subscription descriptor and the opaque event body are all
/// required.
pub open spec fn spec_classify_notification(
    raw: RawMessage,
    mid: String,
    mtype: String,
    mts: String,
) -> Option<TwitchMessage> {
    match (spec_subscription_metadata(raw, mid, mtype, mts), spec_subscription_payload(raw)) {
        (Some(metadata), Some(subscription)) => match raw.event_text {
            Some(event) => Some(
                TwitchMessage::Notification(
                    Notification { metadata, payload: NotificationPayload { subscription, event } },
                ),
            ),
            None => None,
        },
        _ => None,
    }
}

/// The revocation envelope built from extracted fields: subscription
/// metadata and subscription descriptor, no event body.
pub open spec fn spec_classify_revocation(
    raw: RawMessage,
    mid: String,
    mtype: String,
    mts: String,
) -> Option<TwitchMessage> {
    match (spec_subscription_metadata(raw, mid, mtype, mts), spec_subscription_payload(raw)) {
        (Some(metadata), Some(payload)) => Some(
            TwitchMessage::Revocation(Revocation { metadata, payload }),
        ),
        _ => None,
    }
}

/// Which envelope, if any, a set of extracted fields decodes to: the
/// common metadata must be present, the `message_type` tag routes to a
/// variant, and the variant's required fields are checked strictly.  An
/// unknown tag decodes to nothing.
pub open spec fn spec_classify(raw: RawMessage) -> Option<TwitchMessage> {
    match (raw.message_id, raw.message_type, raw.message_timestamp) {
        (Some(mid), Some(mtype), Some(mts)) => {
            if mtype@ == "session_welcome"@ {
                spec_classify_welcome(raw, mid, mtype, mts)
            } else if mtype@ == "session_keepalive"@ {
                spec_classify_keepalive(raw, mid, mtype, mts)
            } else if mtype@ == "session_reconnect"@ {
                spec_classify_reconnect(raw, mid, mtype, mts)
            } else if mtype@ == "notification"@ {
                spec_classify_notification(raw, mid, mtype, mts)
            } else if mtype@ == "revocation"@ {
                spec_classify_revocation(raw, mid, mtype, mts)
            } else {
                None
            }
        },
        _ => None,
    }
}

impl RawMessage {
    /// Classifies extracted fields into an envelope variant, exactly as
    /// [`spec_classify`] says.
    pub fn classify(self) -> (r: Option<TwitchMessage>)
        ensures
            r == spec_classify(self),
    {
        let RawMessage {
            message_id,
            message_type,
            message_timestamp,
            subscription_type,
            subscription_version,
            session_id,
            session_status,
            session_connected_at,
            keepalive,
            reconnect_url,
            payload_text,
            sub_id,
            sub_status,
            sub_kind,
            sub_version,
            sub_cost,
            sub_condition,
            sub_transport,
            sub_created_at,
            event_text,
        } = self;
        let (mid, mtype, mts) = match (message_id, message_type, message_timestamp) {
            (Some(a), Some(b), Some(c)) => (a, b, c),
            _ => {
                return None;
            },
        };
        if mtype == "session_welcome".to_owned() {
            match (session_id, session_status, session_connected_at) {
                (Some(sid), Some(status), Some(connected_at)) => Some(
                    TwitchMessage::Welcome(
                        Welcome {
                            metadata: GenericMetadata {
                                message_id: mid,
                                message_type: mtype,
                                message_timestamp: mts,
                            },
                            payload: WelcomeSessionPayload {
                                session: WelcomeSessionData {
                                    id: sid,
                                    status,
                                    connected_at,
                                    keepalive_timeout_seconds: keepalive,
                                    reconnect_url,
                                },
                            },
                        },
                    ),
                ),
                _ => None,
            }
        } else if mtype == "session_keepalive".to_owned() {
            match payload_text {
                Some(payload) => Some(
                    TwitchMessage::Keepalive(
                        Keepalive {
                            metadata: GenericMetadata {
                                message_id: mid,
                                message_type: mtype,
                                message_timestamp: mts,
                            },
                            payload,
                        },
                    ),
                ),
                None => None,
            }
        } else if mtype == "session_reconnect".to_owned() {
            match (session_id, session_status, session_connected_at, reconnect_url) {
                (Some(sid), Some(status), Some(connected_at), Some(new_url)) => Some(
                    TwitchMessage::Reconnect(
                        Reconnect {
                            metadata: GenericMetadata {
                                message_id: mid,
                                message_type: mtype,
                                message_timestamp: mts,
                            },
                            payload: ReconnectSessionPayload {
                                session: ReconnectSessionData {
                                    id: sid,
                                    status,
                                    connected_at,
                                    keepalive_timeout_seconds: match keepalive {
                                        KeepaliveSeconds::Seconds(k) => Some(k),
                                        _ => None,
                                    },
                                    reconnect_url: new_url,
                                },
                            },
                        },
                    ),
                ),
                _ => None,
            }
        } else if mtype == "notification".to_owned() {
            let metadata = match (subscription_type, subscription_version) {
                (Some(st), Some(sv)) => SubscriptionMetadata {
                    message_id: mid,
                    message_type: mtype,
                    message_timestamp: mts,
                    subscription_type: st,
                    subscription_version: sv,
                },
                _ => {
                    return None;
                },
            };
            let subscription = match (sub_id, sub_status, sub_kind, sub_version) {
                (Some(id), Some(status), Some(kind), Some(version)) => match (
                    sub_cost,
                    sub_condition,
                    sub_transport,
                    sub_created_at,
                ) {
                    (Some(cost), Some(condition), Some(transport), Some(created_at)) => SubscriptionPayload {
                        id,
                        status,
                        kind,
                        version,
                        cost,
                        condition,
                        transport,
                        created_at,
                    },
                    _ => {
                        return None;
                    },
                },
                _ => {
                    return None;
                },
            };
            match event_text {
                Some(event) => Some(
                    TwitchMessage::Notification(
                        Notification { metadata, payload: NotificationPayload { subscription, event } },
                    ),
                ),
                None => None,
            }
        } else if mtype == "revocation".to_owned() {
            let metadata = match (subscription_type, subscription_version) {
                (Some(st), Some(sv)) => SubscriptionMetadata {
                    message_id: mid,
                    message_type: mtype,
                    message_timestamp: mts,
                    subscription_type: st,
                    subscription_version: sv,
                },
                _ => {
                    return None;
                },
            };
            let payload = match (sub_id, sub_status, sub_kind, sub_version) {
                (Some(id), Some(status), Some(kind), Some(version)) => match (
                    sub_cost,
                    sub_condition,
                    sub_transport,
                    sub_created_at,
                ) {
                    (Some(cost), Some(condition), Some(transport), Some(created_at)) => SubscriptionPayload {
                        id,
                        status,
                        kind,
                        version,
                        cost,
                        condition,
                        transport,
                        created_at,
                    },
                    _ => {
                        return None;
                    },
                },
                _ => {
                    return None;
                },
            };
            Some(TwitchMessage::Revocation(Revocation { metadata, payload }))
        } else {
            None
        }
    }
}

/// Extracts the control-relevant fields of a parsed document into plain
/// values, exactly as [`spec_raw_fields_ok`] prescribes over the
/// document's canonical text; every combination of extracted fields is
/// then handled exactly by [`RawMessage::classify`].
fn extract(doc: &serde_json::Value) -> (raw: RawMessage)
    ensures
        spec_raw_fields_ok(raw, json_of(*doc)),
{
    let mut raw = RawMessage {
        message_id: None,
        message_type: None,
        message_timestamp: None,
        subscription_type: None,
        subscription_version: None,
        session_id: None,
        session_status: None,
        session_connected_at: None,
        keepalive: KeepaliveSeconds::Absent,
        reconnect_url: None,
        payload_text: None,
        sub_id: None,
        sub_status: None,
        sub_kind: None,
        sub_version: None,
        sub_cost: None,
        sub_condition: None,
        sub_transport: None,
        sub_created_at: None,
        event_text: None,
    };
    if let Some(md) = json_get(doc, "metadata") {
        raw.message_id = get_str(md, "message_id");
        raw.message_type = get_str(md, "message_type");
        raw.message_timestamp = get_str(md, "message_timestamp");
        raw.subscription_type = get_str(md, "subscription_type");
        raw.subscription_version = get_str(md, "subscription_version");
    }
    if let Some(pl) = json_get(doc, "payload") {
        raw.payload_text = json_text(pl);
        if let Some(sess) = json_get(pl, "session") {
            raw.session_id = get_str(sess, "id");
            raw.session_status = get_str(sess, "status");
            raw.session_connected_at = get_str(sess, "connected_at");
            raw.reconnect_url = get_str(sess, "reconnect_url");
            raw.keepalive = match json_get(sess, "keepalive_timeout_seconds") {
                None => KeepaliveSeconds::Absent,
                Some(kv) => {
                    if json_is_null(kv) {
                        KeepaliveSeconds::Absent
                    } else {
                        match json_as_u64(kv) {
                            Some(k) => KeepaliveSeconds::Seconds(k),
                            None => KeepaliveSeconds::Invalid,
                        }
                    }
                },
            };
        }
        if let Some(sub) = json_get(pl, "subscription") {
            raw.sub_id = get_str(sub, "id");
            raw.sub_status = get_str(sub, "status");
            raw.sub_kind = get_str(sub, "type");
            raw.sub_version = get_str(sub, "version");
            raw.sub_cost = match json_get(sub, "cost") {
                Some(c) => json_as_u64(c),
                None => None,
            };
            raw.sub_condition = get_text(sub, "condition");
            raw.sub_transport = get_text(sub, "transport");
            raw.sub_created_at = get_str(sub, "created_at");
        }
        if let Some(ev) = json_get(pl, "event") {
            raw.event_text = json_text(ev);
        }
    }
    raw
}

/// The text of the string member `key`, if the member exists and is a
/// string.
fn get_str(v: &serde_json::Value, key: &str) -> (r: Option<String>)
    ensures
        opt_text(r) == spec_str_at(json_of(*v), key@),
{
    match json_get(v, key) {
        Some(f) => json_as_str(f),
        None => None,
    }
}

/// The canonical JSON text of the member `key`, if the member exists.
fn get_text(v: &serde_json::Value, key: &str) -> (r: Option<String>)
    ensures
        opt_text(r) == member_of(json_of(*v), key@),
{
    match json_get(v, key) {
        Some(f) => json_text(f),
        None => None,
    }
}

/// What decoding a text frame may yield: nothing when the text is not
/// well-formed JSON, else the classification of fields extracted from the
/// parsed document as [`spec_raw_fields_ok`] prescribes.  The fields'
/// views, and with them the shape and every field view of the result, are
/// functions of the text alone.
pub open spec fn spec_decodes_to(s: Seq<char>, r: Option<TwitchMessage>) -> bool {
    if doc_of(s) is None {
        r is None
    } else {
        exists|raw: RawMessage|
            (#[trigger] spec_raw_fields_ok(raw, doc_of(s)->Some_0)) && r == spec_classify(raw)
    }
}

/// Attempts the structural decode of a received text frame into the
/// envelope union: JSON parse, field extraction, classification.  `None`
/// means the frame is to be discarded (non-fatal).  The result satisfies
/// [`spec_decodes_to`]: the thin trusted wrappers pin parsing and member
/// access as functions of the text, and extraction and classification are
/// verified against them.
pub fn parse_message(text: &str) -> (r: Option<TwitchMessage>)
    ensures
        spec_decodes_to(text@, r),
{
    match json_parse(text) {
        Some(doc) => {
            let raw = extract(&doc);
            let ghost raw0 = raw;
            let ghost d = json_of(doc);
            let r = raw.classify();
            proof {
                assert(doc_of(text@) == Some(d));
                assert(spec_raw_fields_ok(raw0, doc_of(text@)->Some_0) && r == spec_classify(
                    raw0,
                ));
                assert(spec_decodes_to(text@, r));
            }
            r
        },
        None => None,
    }
}

} // verus!
