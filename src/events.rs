use crate::error::Error;
use crate::json::{
    field_int, field_is, field_str, get_field, int_in, is_str, lookup, parse_json, parsed_json, str_eq,
    str_of,
    Json,
};
use vstd::prelude::*;

verus! {

/// The channels that a session can subscribe to.
#[derive(Debug, Clone, Copy, PartialEq, Eq, Structural)]
pub enum ChannelKind {
    Ticker,
    Trades,
    Candles,
    Book,
    RawBook,
}

/// What an inbound frame is, judged by its outer shape and its `event` member.
#[derive(Debug, Clone, Copy, PartialEq, Eq, Structural)]
pub enum FrameKind {
    Info,
    Subscribed,
    AuthReply,
    Data,
}

/// The reply to an authentication command.
#[derive(Debug)]
pub struct AuthMessage {
    pub status: String,
    pub chan_id: u32,
    pub code: Option<u32>,
    pub msg: Option<String>,
    pub user_id: Option<u32>,
    pub auth_id: Option<String>,
}

/// The platform state announced in an informational notice.
#[derive(Debug)]
pub struct Platform {
    pub status: u16,
}

/// The informational notice that the server sends on connect.
#[derive(Debug)]
pub struct InfoMessage {
    pub version: u16,
    pub server_id: String,
    pub platform: Platform,
}

/// The acknowledgment of a subscription: the channel, the id that the server
/// gave it, and every member of the acknowledgment.
#[derive(Debug)]
pub struct SubscriptionMessage {
    pub channel: ChannelKind,
    pub chan_id: u32,
    pub params: Vec<(String, Json)>,
}

/// A control notification: it carries no channel data.
#[derive(Debug)]
pub enum NotificationEvent {
    Auth(AuthMessage),
    Info(InfoMessage),
    Subscribed(SubscriptionMessage),
}

/// A data frame `[chan_id, ...]`, by its positional shape. A snapshot holds
/// rows that are all arrays; an update holds one payload of any other shape.
/// Account channels put a label string before the payload.
#[derive(Debug)]
pub enum DataEvent {
    Heartbeat { chan_id: i32 },
    Snapshot { chan_id: i32, rows: Vec<Json> },
    Update { chan_id: i32, payload: Json },
    LabeledSnapshot { chan_id: i32, label: String, rows: Vec<Json> },
    LabeledUpdate { chan_id: i32, label: String, payload: Json },
}

/// A decoded inbound frame.
#[derive(Debug)]
pub enum Event {
    Notification(NotificationEvent),
    Data(DataEvent),
}

impl AuthMessage {
    /// Whether the server accepted the authentication.
    pub fn is_ok(&self) -> (r: bool)
        ensures
            r == (self.status@ == "OK"@),
    {
        str_eq(self.status.as_str(), "OK")
    }
}

/// Whether the `event` member of an object is the string `name`.
pub open spec fn event_is(entries: Seq<(String, Json)>, name: Seq<char>) -> bool {
    is_str(lookup(entries, "event"@), name)
}

/// The kind of an object frame, by its `event` member alone.
pub open spec fn object_kind(entries: Seq<(String, Json)>) -> Option<FrameKind> {
    if event_is(entries, "info"@) {
        Some(FrameKind::Info)
    } else if event_is(entries, "subscribed"@) {
        Some(FrameKind::Subscribed)
    } else if event_is(entries, "auth"@) {
        Some(FrameKind::AuthReply)
    } else {
        None
    }
}

/// The classification of a parsed frame: an object by its `event` member, an
/// array as data, and nothing else.
pub open spec fn spec_classify(j: Json) -> Option<FrameKind> {
    match j {
        Json::Object(entries) => object_kind(entries@),
        Json::Array(_) => Some(FrameKind::Data),
        _ => None,
    }
}

/// The channel that a subscription acknowledgment names. A book channel with
/// precision `R0` is the raw book.
pub open spec fn channel_of(entries: Seq<(String, Json)>) -> Option<ChannelKind> {
    let c = lookup(entries, "channel"@);
    if is_str(c, "ticker"@) {
        Some(ChannelKind::Ticker)
    } else if is_str(c, "trades"@) {
        Some(ChannelKind::Trades)
    } else if is_str(c, "candles"@) {
        Some(ChannelKind::Candles)
    } else if is_str(c, "book"@) {
        if is_str(lookup(entries, "prec"@), "R0"@) {
            Some(ChannelKind::RawBook)
        } else {
            Some(ChannelKind::Book)
        }
    } else {
        None
    }
}

/// An optional integer member: absent or `null` gives `Some(None)`, an
/// integer within `lo..=hi` gives `Some(Some(i))`, anything else `None`.
pub open spec fn opt_int_in(j: Option<Json>, lo: int, hi: int) -> Option<Option<int>> {
    match j {
        None => Some(None),
        Some(Json::Null) => Some(None),
        _ => match int_in(j, lo, hi) {
            Some(i) => Some(Some(i)),
            None => None,
        },
    }
}

/// An optional string member, in the manner of `opt_int_in`.
pub open spec fn opt_str(j: Option<Json>) -> Option<Option<String>> {
    match j {
        None => Some(None),
        Some(Json::Null) => Some(None),
        Some(Json::Str(s)) => Some(Some(s)),
        _ => None,
    }
}

/// An optional `u32` member, in the manner of `opt_int_in`.
pub open spec fn opt_u32(j: Option<Json>) -> Option<Option<u32>> {
    match opt_int_in(j, 0, u32_max()) {
        Some(Some(i)) => Some(Some(i as u32)),
        Some(None) => Some(None),
        None => None,
    }
}

/// The largest `u32`, as an integer.
pub open spec fn u32_max() -> int {
    u32::MAX as int
}

/// The authentication reply that an object's members decode to.
pub open spec fn spec_decode_auth(e: Seq<(String, Json)>) -> Option<AuthMessage> {
    let status = str_of(lookup(e, "status"@));
    let chan_id = int_in(lookup(e, "chanId"@), 0, u32_max());
    let code = opt_u32(lookup(e, "code"@));
    let msg = opt_str(lookup(e, "msg"@));
    let user_id = opt_u32(lookup(e, "userId"@));
    let auth_id = opt_str(lookup(e, "authId"@));
    if status is Some && chan_id is Some && code is Some && msg is Some && user_id is Some
        && auth_id is Some {
        Some(
            AuthMessage {
                status: status->0,
                chan_id: chan_id->0 as u32,
                code: code->0,
                msg: msg->0,
                user_id: user_id->0,
                auth_id: auth_id->0,
            },
        )
    } else {
        None
    }
}

/// The informational notice that an object's members decode to.
pub open spec fn spec_decode_info(e: Seq<(String, Json)>) -> Option<InfoMessage> {
    let version = int_in(lookup(e, "version"@), 0, u16::MAX as int);
    let server_id = str_of(lookup(e, "serverId"@));
    let status = match lookup(e, "platform"@) {
        Some(Json::Object(p)) => int_in(lookup(p@, "status"@), 0, u16::MAX as int),
        _ => None,
    };
    if version is Some && server_id is Some && status is Some {
        Some(
            InfoMessage {
                version: version->0 as u16,
                server_id: server_id->0,
                platform: Platform { status: status->0 as u16 },
            },
        )
    } else {
        None
    }
}

/// The notification that an object frame decodes to.
pub open spec fn spec_decode_object(entries: Vec<(String, Json)>) -> Option<NotificationEvent> {
    let e = entries@;
    match object_kind(e) {
        Some(FrameKind::Info) => match spec_decode_info(e) {
            Some(m) => Some(NotificationEvent::Info(m)),
            None => None,
        },
        Some(FrameKind::Subscribed) => match (
            channel_of(e),
            int_in(lookup(e, "chanId"@), 0, u32_max()),
        ) {
            (Some(k), Some(id)) => Some(
                NotificationEvent::Subscribed(
                    SubscriptionMessage { channel: k, chan_id: id as u32, params: entries },
                ),
            ),
            _ => None,
        },
        Some(FrameKind::AuthReply) => match spec_decode_auth(e) {
            Some(m) => Some(NotificationEvent::Auth(m)),
            None => None,
        },
        _ => None,
    }
}

/// The channel id at the head of a data frame.
pub open spec fn head_chan_id(items: Seq<Json>) -> Option<int> {
    if items.len() == 0 {
        None
    } else {
        int_in(Some(items[0]), i32::MIN as int, i32::MAX as int)
    }
}

/// Whether every element is an array: the rows of a snapshot.
pub open spec fn all_rows(rows: Seq<Json>) -> bool {
    forall|k: int| 0 <= k < rows.len() ==> rows[k] is Array
}

/// The data event that an array frame decodes to.
pub open spec fn spec_decode_array(items: Seq<Json>) -> Option<DataEvent> {
    match head_chan_id(items) {
        None => None,
        Some(c) => {
            let chan_id = c as i32;
            if items.len() == 2 {
                match items[1] {
                    Json::Str(s) => if s@ == "hb"@ {
                        Some(DataEvent::Heartbeat { chan_id })
                    } else {
                        Some(DataEvent::Update { chan_id, payload: items[1] })
                    },
                    Json::Array(rows) => if all_rows(rows@) {
                        Some(DataEvent::Snapshot { chan_id, rows })
                    } else {
                        Some(DataEvent::Update { chan_id, payload: items[1] })
                    },
                    _ => Some(DataEvent::Update { chan_id, payload: items[1] }),
                }
            } else if items.len() == 3 {
                match items[1] {
                    Json::Str(label) => match items[2] {
                        Json::Array(rows) => if all_rows(rows@) {
                            Some(DataEvent::LabeledSnapshot { chan_id, label, rows })
                        } else {
                            Some(DataEvent::LabeledUpdate { chan_id, label, payload: items[2] })
                        },
                        _ => Some(DataEvent::LabeledUpdate { chan_id, label, payload: items[2] }),
                    },
                    _ => None,
                }
            } else {
                None
            }
        },
    }
}

/// The event that a parsed frame decodes to, or `None` where it matches no
/// known shape.
pub open spec fn spec_decode(j: Json) -> Option<Event> {
    match j {
        Json::Object(entries) => match spec_decode_object(entries) {
            Some(n) => Some(Event::Notification(n)),
            None => None,
        },
        Json::Array(items) => match spec_decode_array(items@) {
            Some(d) => Some(Event::Data(d)),
            None => None,
        },
        _ => None,
    }
}

/// The event that a text frame decodes to.
pub open spec fn spec_decode_text(text: Seq<char>) -> Option<Event> {
    match parsed_json(text) {
        Some(j) => spec_decode(j),
        None => None,
    }
}

/// Classifies an object frame by its `event` member.
fn classify_object(entries: &Vec<(String, Json)>) -> (r: Option<FrameKind>)
    ensures
        r == object_kind(entries@),
{
    if field_is(entries, "event", "info") {
        Some(FrameKind::Info)
    } else if field_is(entries, "event", "subscribed") {
        Some(FrameKind::Subscribed)
    } else if field_is(entries, "event", "auth") {
        Some(FrameKind::AuthReply)
    } else {
        None
    }
}

/// Classifies a parsed frame by its outer shape and its `event` member.
pub fn classify(j: &Json) -> (r: Option<FrameKind>)
    ensures
        r == spec_classify(*j),
{
    match j {
        Json::Object(entries) => classify_object(entries),
        Json::Array(_) => Some(FrameKind::Data),
        _ => None,
    }
}

/// The optional `u32` member named `key`.
fn field_opt_u32(entries: &Vec<(String, Json)>, key: &str) -> (r: Option<Option<u32>>)
    ensures
        r == opt_u32(lookup(entries@, key@)),
{
    match get_field(entries, key) {
        None => Some(None),
        Some(Json::Null) => Some(None),
        Some(Json::Number(Some(i), _)) => if 0 <= *i && *i <= u32::MAX as i64 {
            Some(Some(*i as u32))
        } else {
            None
        },
        _ => None,
    }
}

/// The optional string member named `key`.
fn field_opt_str(entries: &Vec<(String, Json)>, key: &str) -> (r: Option<Option<String>>)
    ensures
        r == opt_str(lookup(entries@, key@)),
{
    match get_field(entries, key) {
        None => Some(None),
        Some(Json::Null) => Some(None),
        Some(Json::Str(s)) => Some(Some(s.clone())),
        _ => None,
    }
}

/// Decodes the members of an authentication reply.
fn decode_auth(e: &Vec<(String, Json)>) -> (r: Option<AuthMessage>)
    ensures
        r == spec_decode_auth(e@),
{
    let status = field_str(e, "status");
    let chan_id = field_int(e, "chanId", 0, u32::MAX as i64);
    let code = field_opt_u32(e, "code");
    let msg = field_opt_str(e, "msg");
    let user_id = field_opt_u32(e, "userId");
    let auth_id = field_opt_str(e, "authId");
    match (status, chan_id, code, msg, user_id, auth_id) {
        (Some(status), Some(chan_id), Some(code), Some(msg), Some(user_id), Some(auth_id)) => {
            Some(AuthMessage { status, chan_id: chan_id as u32, code, msg, user_id, auth_id })
        },
        _ => None,
    }
}

/// Decodes the members of an informational notice.
fn decode_info(e: &Vec<(String, Json)>) -> (r: Option<InfoMessage>)
    ensures
        r == spec_decode_info(e@),
{
    let version = field_int(e, "version", 0, u16::MAX as i64);
    let server_id = field_str(e, "serverId");
    let status = match get_field(e, "platform") {
        Some(Json::Object(p)) => field_int(p, "status", 0, u16::MAX as i64),
        _ => None,
    };
    match (version, server_id, status) {
        (Some(version), Some(server_id), Some(status)) => Some(
            InfoMessage {
                version: version as u16,
                server_id,
                platform: Platform { status: status as u16 },
            },
        ),
        _ => None,
    }
}

/// The channel kind that a subscription acknowledgment names.
fn subscribed_channel(e: &Vec<(String, Json)>) -> (r: Option<ChannelKind>)
    ensures
        r == channel_of(e@),
{
    if field_is(e, "channel", "ticker") {
        Some(ChannelKind::Ticker)
    } else if field_is(e, "channel", "trades") {
        Some(ChannelKind::Trades)
    } else if field_is(e, "channel", "candles") {
        Some(ChannelKind::Candles)
    } else if field_is(e, "channel", "book") {
        if field_is(e, "prec", "R0") {
            Some(ChannelKind::RawBook)
        } else {
            Some(ChannelKind::Book)
        }
    } else {
        None
    }
}

/// Decodes an object frame into a notification.
pub fn decode_object(entries: Vec<(String, Json)>) -> (r: Option<NotificationEvent>)
    ensures
        r == spec_decode_object(entries),
{
    match classify_object(&entries) {
        Some(FrameKind::Info) => match decode_info(&entries) {
            Some(m) => Some(NotificationEvent::Info(m)),
            None => None,
        },
        Some(FrameKind::Subscribed) => {
            let channel = subscribed_channel(&entries);
            let chan_id = field_int(&entries, "chanId", 0, u32::MAX as i64);
            match (channel, chan_id) {
                (Some(channel), Some(chan_id)) => Some(
                    NotificationEvent::Subscribed(
                        SubscriptionMessage { channel, chan_id: chan_id as u32, params: entries },
                    ),
                ),
                _ => None,
            }
        },
        Some(FrameKind::AuthReply) => match decode_auth(&entries) {
            Some(m) => Some(NotificationEvent::Auth(m)),
            None => None,
        },
        _ => None,
    }
}

/// Whether every element is an array.
fn all_arrays(rows: &Vec<Json>) -> (r: bool)
    ensures
        r == all_rows(rows@),
{
    let mut i: usize = 0;
    while i < rows.len()
        invariant
            i <= rows@.len(),
            forall|k: int| 0 <= k < i ==> rows@[k] is Array,
        decreases rows@.len() - i,
    {
        match &rows[i] {
            Json::Array(_) => {},
            _ => return false,
        }
        i += 1;
    }
    true
}

/// Whether a value is the heartbeat mark `"hb"`.
fn is_heartbeat_mark(j: &Json) -> (r: bool)
    ensures
        r == (*j matches Json::Str(s) && s@ == "hb"@),
{
    match j {
        Json::Str(s) => str_eq(s.as_str(), "hb"),
        _ => false,
    }
}

/// Decodes an array frame into a data event.
pub fn decode_array(items: Vec<Json>) -> (r: Option<DataEvent>)
    ensures
        r == spec_decode_array(items@),
{
    let ghost orig = items@;
    let mut items = items;
    if items.len() == 0 {
        return None;
    }
    let chan_id: i32 = match &items[0] {
        Json::Number(Some(i), _) => if i32::MIN as i64 <= *i && *i <= i32::MAX as i64 {
            *i as i32
        } else {
            return None;
        },
        _ => return None,
    };
    if items.len() == 2 {
        let second = items.pop().unwrap();
        assert(second == orig[1]);
        if is_heartbeat_mark(&second) {
            return Some(DataEvent::Heartbeat { chan_id });
        }
        match second {
            Json::Array(rows) => if all_arrays(&rows) {
                Some(DataEvent::Snapshot { chan_id, rows })
            } else {
                Some(DataEvent::Update { chan_id, payload: Json::Array(rows) })
            },
            payload => Some(DataEvent::Update { chan_id, payload }),
        }
    } else if items.len() == 3 {
        let third = items.pop().unwrap();
        let second = items.pop().unwrap();
        assert(second == orig[1] && third == orig[2]);
        match second {
            Json::Str(label) => match third {
                Json::Array(rows) => if all_arrays(&rows) {
                    Some(DataEvent::LabeledSnapshot { chan_id, label, rows })
                } else {
                    Some(DataEvent::LabeledUpdate { chan_id, label, payload: Json::Array(rows) })
                },
                payload => Some(DataEvent::LabeledUpdate { chan_id, label, payload }),
            },
            _ => None,
        }
    } else {
        None
    }
}

/// Decodes a parsed frame. A frame that matches no known shape is a decode
/// error, which the session reports and survives.
pub fn decode(j: Json) -> (r: Result<Event, Error>)
    ensures
        match r {
            Ok(e) => spec_decode(j) == Some(e),
            Err(e) => spec_decode(j) is None && e is Decode,
        },
{
    let kind = classify(&j);
    let decoded = match (kind, j) {
        (Some(FrameKind::Data), Json::Array(items)) => match decode_array(items) {
            Some(d) => Some(Event::Data(d)),
            None => None,
        },
        (Some(_), Json::Object(entries)) => match decode_object(entries) {
            Some(n) => Some(Event::Notification(n)),
            None => None,
        },
        _ => None,
    };
    match decoded {
        Some(e) => Ok(e),
        None => Err(Error::Decode),
    }
}

/// Parses and decodes a text frame.
pub fn decode_frame(text: &str) -> (r: Result<Event, Error>)
    ensures
        match r {
            Ok(e) => spec_decode_text(text@) == Some(e),
            Err(e) => spec_decode_text(text@) is None && e is Decode,
        },
{
    match parse_json(text) {
        Some(j) => decode(j),
        None => Err(Error::Decode),
    }
}

/// Parses and classifies a text frame; `None` where it is not JSON or not of
/// a known kind.
pub fn classify_frame(text: &str) -> (r: Option<FrameKind>)
    ensures
        r == match parsed_json(text@) {
            Some(j) => spec_classify(j),
            None => None,
        },
{
    match parse_json(text) {
        Some(j) => classify(&j),
        None => None,
    }
}

} // verus!
