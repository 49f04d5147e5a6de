//! The realtime subscription protocol: outbound message encoding, inbound
//! envelope decoding, and the round trip between the two for the
//! subscription identifier that every outbound message embeds.
//!
//! The wire format is JSON text. Outbound messages are built here character
//! by character, with their exact text stated in specification functions.
//! Inbound text is parsed through [`crate::json`] and then decoded by
//! verified code.

use vstd::prelude::*;
use vstd::string::StringExecFns;
use crate::json::{json_of, obj_get, parse_json, spec_lookup, Json};
use crate::text::{
    chars_to_string, dec_digits, digit_val, digits_val, is_dec_digit, json_escape,
    lemma_dec_digits_valid, lemma_digits_val_dec, lemma_digits_val_grows, push_dec, push_escaped,
    lemma_unescape_escape, push_str_chars, spec_unescape, str_eq, str_to_chars, valid_digits,
};

verus! {

/// An inbound envelope, dispatched on the wire message's `type` tag; a
/// message without a recognized tag is an untagged wallpaper-change event.
#[allow(inconsistent_fields)]
#[derive(Debug, PartialEq, Eq, Clone)]
pub enum Incoming {
    /// The connection is ready; the client re-subscribes to every persisted
    /// feed id.
    Welcome,
    /// Keepalive; ignored.
    Ping { message: u64 },
    /// Acknowledgment of a subscribe; log-only.
    ConfirmSubscription { identifier: String },
    /// The server asks the client to leave; fatal when `reconnect` is
    /// false.
    Disconnect { reason: String, reconnect: bool },
    /// A wallpaper-change event for one subscribed feed.
    Message { identifier: String, message: WallpaperUpdate },
}

/// The payload of a wallpaper-change event. An absent `post_url` is a valid
/// no-op event, not an error.
#[derive(Debug, PartialEq, Eq, Clone)]
pub struct WallpaperUpdate {
    pub id: u64,
    pub post_url: Option<String>,
    pub set_by: Option<String>,
}

/// An outbound protocol message, before encoding.
#[derive(Debug, PartialEq, Eq, Clone)]
pub enum Outgoing {
    Subscribe { identifier: String },
    Unsubscribe { identifier: String },
    Announce { data: String, identifier: String },
    Check { data: String, identifier: String, command: String },
}

/// The subscription identifier embedded, as stringified JSON, in every
/// outbound message.
#[derive(Debug, PartialEq, Eq, Clone)]
pub struct Identifier {
    pub channel: String,
    pub id: u64,
}

/// The mathematical value of an [`Incoming`] envelope.
#[allow(inconsistent_fields)]
pub enum IncomingM {
    Welcome,
    Ping { message: u64 },
    ConfirmSubscription { identifier: Seq<char> },
    Disconnect { reason: Seq<char>, reconnect: bool },
    Message { identifier: Seq<char>, message: WallpaperUpdateM },
}

/// The mathematical value of a [`WallpaperUpdate`].
pub struct WallpaperUpdateM {
    pub id: u64,
    pub post_url: Option<Seq<char>>,
    pub set_by: Option<Seq<char>>,
}

/// The mathematical value of an [`Outgoing`] message.
pub enum OutgoingM {
    Subscribe { identifier: Seq<char> },
    Unsubscribe { identifier: Seq<char> },
    Announce { data: Seq<char>, identifier: Seq<char> },
    Check { data: Seq<char>, identifier: Seq<char>, command: Seq<char> },
}

/// The mathematical value of an [`Identifier`].
pub struct IdentifierM {
    pub channel: Seq<char>,
    pub id: u64,
}

/// The text of an optional text field.
pub open spec fn opt_text(o: Option<String>) -> Option<Seq<char>> {
    match o {
        Some(s) => Some(s@),
        None => None,
    }
}

impl View for WallpaperUpdate {
    type V = WallpaperUpdateM;

    open spec fn view(&self) -> WallpaperUpdateM {
        WallpaperUpdateM {
            id: self.id,
            post_url: opt_text(self.post_url),
            set_by: opt_text(self.set_by),
        }
    }
}

impl View for Incoming {
    type V = IncomingM;

    open spec fn view(&self) -> IncomingM {
        match self {
            Incoming::Welcome => IncomingM::Welcome,
            Incoming::Ping { message } => IncomingM::Ping { message: *message },
            Incoming::ConfirmSubscription { identifier } => IncomingM::ConfirmSubscription {
                identifier: identifier@,
            },
            Incoming::Disconnect { reason, reconnect } => IncomingM::Disconnect {
                reason: reason@,
                reconnect: *reconnect,
            },
            Incoming::Message { identifier, message } => IncomingM::Message {
                identifier: identifier@,
                message: message@,
            },
        }
    }
}

impl View for Outgoing {
    type V = OutgoingM;

    open spec fn view(&self) -> OutgoingM {
        match self {
            Outgoing::Subscribe { identifier } => OutgoingM::Subscribe {
                identifier: identifier@,
            },
            Outgoing::Unsubscribe { identifier } => OutgoingM::Unsubscribe {
                identifier: identifier@,
            },
            Outgoing::Announce { data, identifier } => OutgoingM::Announce {
                data: data@,
                identifier: identifier@,
            },
            Outgoing::Check { data, identifier, command } => OutgoingM::Check {
                data: data@,
                identifier: identifier@,
                command: command@,
            },
        }
    }
}

impl View for Identifier {
    type V = IdentifierM;

    open spec fn view(&self) -> IdentifierM {
        IdentifierM { channel: self.channel@, id: self.id }
    }
}

/// A JSON string literal holding the text `s`.
pub open spec fn spec_quoted(s: Seq<char>) -> Seq<char> {
    seq!['"'] + json_escape(s) + seq!['"']
}

/// The stringified-JSON identifier for feed `id`:
/// `{"channel":"LinkChannel","id":<id>}`.
pub open spec fn spec_identifier_json(id: u64) -> Seq<char> {
    "{\"channel\":\"LinkChannel\",\"id\":"@ + dec_digits(id as nat) + seq!['}']
}

/// The exact wire text of an outbound message. Field names, field order and
/// the stringified nesting of `identifier` and `data` must be preserved for
/// server compatibility.
pub open spec fn spec_encode_outgoing(m: OutgoingM) -> Seq<char> {
    match m {
        OutgoingM::Subscribe { identifier } => "{\"command\":\"subscribe\",\"identifier\":"@
            + spec_quoted(identifier) + seq!['}'],
        OutgoingM::Unsubscribe { identifier } => "{\"command\":\"unsubscribe\",\"identifier\":"@
            + spec_quoted(identifier) + seq!['}'],
        OutgoingM::Announce { data, identifier } => "{\"command\":\"message\",\"data\":"@
            + spec_quoted(data) + ",\"identifier\":"@ + spec_quoted(identifier) + seq!['}'],
        OutgoingM::Check { data, identifier, command } => "{\"data\":"@ + spec_quoted(data)
            + ",\"identifier\":"@ + spec_quoted(identifier) + ",\"command\":"@ + spec_quoted(
            command,
        ) + seq!['}'],
    }
}

/// The wire text of a Subscribe for feed `id`.
pub open spec fn spec_subscribe_message(id: u64) -> Seq<char> {
    spec_encode_outgoing(OutgoingM::Subscribe { identifier: spec_identifier_json(id) })
}

/// The wire text of an Unsubscribe for feed `id`.
pub open spec fn spec_unsubscribe_message(id: u64) -> Seq<char> {
    spec_encode_outgoing(OutgoingM::Unsubscribe { identifier: spec_identifier_json(id) })
}

/// The inner data record of an Announce.
pub open spec fn spec_announce_data() -> Seq<char> {
    "{\"client\":\"WalltakerEngine/1.0\",\"action\":\"announce_client\"}"@
}

/// The wire text of the Announce sent immediately after every Subscribe.
pub open spec fn spec_announce_message(id: u64) -> Seq<char> {
    spec_encode_outgoing(
        OutgoingM::Announce {
            data: spec_announce_data(),
            identifier: spec_identifier_json(id),
        },
    )
}

/// The inner data record of a Check.
pub open spec fn spec_check_data() -> Seq<char> {
    "{\"action\":\"check\"}"@
}

/// The wire text of a Check for feed `id`: it asks the server to re-send
/// the feed's current state without waiting for a new event.
pub open spec fn spec_check_message(id: u64) -> Seq<char> {
    spec_encode_outgoing(
        OutgoingM::Check {
            data: spec_check_data(),
            identifier: spec_identifier_json(id),
            command: "message"@,
        },
    )
}

/// Appends `s` to `out` as a JSON string literal.
fn push_quoted(out: &mut Vec<char>, s: &str)
    ensures
        final(out)@ == old(out)@ + spec_quoted(s@),
{
    out.push('"');
    let chars = str_to_chars(s);
    push_escaped(out, &chars);
    out.push('"');
    proof {
        assert(out@ =~= old(out)@ + spec_quoted(s@));
    }
}

/// The stringified-JSON identifier for feed `id`.
pub fn identifier_json(id: u64) -> (s: String)
    ensures
        s@ == spec_identifier_json(id),
{
    let mut v: Vec<char> = Vec::new();
    push_str_chars(&mut v, "{\"channel\":\"LinkChannel\",\"id\":");
    push_dec(&mut v, id);
    v.push('}');
    proof {
        assert(v@ =~= spec_identifier_json(id));
    }
    chars_to_string(&v)
}

/// Encodes an outbound message into its exact wire text.
pub fn encode_outgoing(m: &Outgoing) -> (s: String)
    ensures
        s@ == spec_encode_outgoing(m@),
{
    let mut v: Vec<char> = Vec::new();
    match m {
        Outgoing::Subscribe { identifier } => {
            push_str_chars(&mut v, "{\"command\":\"subscribe\",\"identifier\":");
            push_quoted(&mut v, identifier.as_str());
            v.push('}');
        },
        Outgoing::Unsubscribe { identifier } => {
            push_str_chars(&mut v, "{\"command\":\"unsubscribe\",\"identifier\":");
            push_quoted(&mut v, identifier.as_str());
            v.push('}');
        },
        Outgoing::Announce { data, identifier } => {
            push_str_chars(&mut v, "{\"command\":\"message\",\"data\":");
            push_quoted(&mut v, data.as_str());
            push_str_chars(&mut v, ",\"identifier\":");
            push_quoted(&mut v, identifier.as_str());
            v.push('}');
        },
        Outgoing::Check { data, identifier, command } => {
            push_str_chars(&mut v, "{\"data\":");
            push_quoted(&mut v, data.as_str());
            push_str_chars(&mut v, ",\"identifier\":");
            push_quoted(&mut v, identifier.as_str());
            push_str_chars(&mut v, ",\"command\":");
            push_quoted(&mut v, command.as_str());
            v.push('}');
        },
    }
    proof {
        assert(v@ =~= spec_encode_outgoing(m@));
    }
    chars_to_string(&v)
}

/// The wire text of a Subscribe for feed `id`.
pub fn subscribe_message(id: u64) -> (s: String)
    ensures
        s@ == spec_subscribe_message(id),
{
    let m = Outgoing::Subscribe { identifier: identifier_json(id) };
    encode_outgoing(&m)
}

/// The wire text of an Unsubscribe for feed `id`.
pub fn unsubscribe_message(id: u64) -> (s: String)
    ensures
        s@ == spec_unsubscribe_message(id),
{
    let m = Outgoing::Unsubscribe { identifier: identifier_json(id) };
    encode_outgoing(&m)
}

/// The wire text of the Announce for feed `id`.
pub fn announce_message(id: u64) -> (s: String)
    ensures
        s@ == spec_announce_message(id),
{
    let data = String::from_str("{\"client\":\"WalltakerEngine/1.0\",\"action\":\"announce_client\"}");
    let m = Outgoing::Announce { data, identifier: identifier_json(id) };
    encode_outgoing(&m)
}

/// The wire text of a Check for feed `id`.
pub fn check_message(id: u64) -> (s: String)
    ensures
        s@ == spec_check_message(id),
{
    let data = String::from_str("{\"action\":\"check\"}");
    let command = String::from_str("message");
    let m = Outgoing::Check { data, identifier: identifier_json(id), command };
    encode_outgoing(&m)
}

/// The wire texts that subscribing to feed `id` sends, in order: one
/// Subscribe, then one Announce.
pub fn subscribe_to(id: u64) -> (msgs: Vec<String>)
    ensures
        msgs@.len() == 2,
        msgs@[0]@ == spec_subscribe_message(id),
        msgs@[1]@ == spec_announce_message(id),
{
    let mut msgs: Vec<String> = Vec::new();
    msgs.push(subscribe_message(id));
    msgs.push(announce_message(id));
    msgs
}

/// The wire text that unsubscribing from feed `id` sends.
pub fn unsubscribe_from(id: u64) -> (s: String)
    ensures
        s@ == spec_unsubscribe_message(id),
{
    unsubscribe_message(id)
}

/// The wire text that a Check of feed `id` sends.
pub fn check(id: u64) -> (s: String)
    ensures
        s@ == spec_check_message(id),
{
    check_message(id)
}

/// The value of an optional text field of a parsed object: absent or null
/// is a valid absence, a string is a value, and anything else is a type
/// mismatch that makes the whole envelope malformed.
pub open spec fn spec_opt_field(o: Option<Json>) -> Option<Option<Seq<char>>> {
    match o {
        None => Some(None),
        Some(Json::Null) => Some(None),
        Some(Json::Str(s)) => Some(Some(s@)),
        Some(_) => None,
    }
}

/// A keepalive envelope: `message` must be a non-negative integer.
pub open spec fn spec_decode_ping(fs: Seq<(String, Json)>) -> Option<IncomingM> {
    match spec_lookup(fs, "message"@) {
        Some(Json::UInt(n)) => Some(IncomingM::Ping { message: n }),
        _ => None,
    }
}

/// A subscription acknowledgment: `identifier` must be a string.
pub open spec fn spec_decode_confirm(fs: Seq<(String, Json)>) -> Option<IncomingM> {
    match spec_lookup(fs, "identifier"@) {
        Some(Json::Str(s)) => Some(IncomingM::ConfirmSubscription { identifier: s@ }),
        _ => None,
    }
}

/// A disconnect order: `reason` must be a string and `reconnect` a boolean.
pub open spec fn spec_decode_disconnect(fs: Seq<(String, Json)>) -> Option<IncomingM> {
    match (spec_lookup(fs, "reason"@), spec_lookup(fs, "reconnect"@)) {
        (Some(Json::Str(reason)), Some(Json::Bool(reconnect))) => Some(
            IncomingM::Disconnect { reason: reason@, reconnect },
        ),
        _ => None,
    }
}

/// An untagged wallpaper-change event: `identifier` must be a string and
/// `message` an object holding a numeric `id` and the optional `post_url`
/// and `set_by` texts.
pub open spec fn spec_decode_update(fs: Seq<(String, Json)>) -> Option<IncomingM> {
    match (spec_lookup(fs, "identifier"@), spec_lookup(fs, "message"@)) {
        (Some(Json::Str(identifier)), Some(Json::Obj(m))) => match spec_lookup(m@, "id"@) {
            Some(Json::UInt(id)) => match (
                spec_opt_field(spec_lookup(m@, "post_url"@)),
                spec_opt_field(spec_lookup(m@, "set_by"@)),
            ) {
                (Some(post_url), Some(set_by)) => Some(
                    IncomingM::Message {
                        identifier: identifier@,
                        message: WallpaperUpdateM { id, post_url, set_by },
                    },
                ),
                _ => None,
            },
            _ => None,
        },
        _ => None,
    }
}

/// What a parsed wire value decodes to, if anything. The envelope must be
/// an object; a string `type` field selects the tagged variants, and any
/// other object — no tag, or a tag this client does not know — is tried as
/// an untagged wallpaper-change event.
pub open spec fn spec_decode(j: Json) -> Option<IncomingM> {
    match j {
        Json::Obj(fields) => match spec_lookup(fields@, "type"@) {
            Some(Json::Str(t)) => if t@ == "welcome"@ {
                Some(IncomingM::Welcome)
            } else if t@ == "ping"@ {
                spec_decode_ping(fields@)
            } else if t@ == "confirm_subscription"@ {
                spec_decode_confirm(fields@)
            } else if t@ == "disconnect"@ {
                spec_decode_disconnect(fields@)
            } else {
                spec_decode_update(fields@)
            },
            Some(_) => None,
            None => spec_decode_update(fields@),
        },
        _ => None,
    }
}

/// The value of a decoded envelope, if one came out.
pub open spec fn incoming_opt_view(r: Option<Incoming>) -> Option<IncomingM> {
    match r {
        Some(i) => Some(i@),
        None => None,
    }
}

/// Reads an optional text field out of a parsed object.
fn get_opt_field(fields: &Vec<(String, Json)>, key: &str) -> (r: Option<Option<String>>)
    ensures
        match r {
            Some(o) => spec_opt_field(spec_lookup(fields@, key@)) == Some(opt_text(o)),
            None => spec_opt_field(spec_lookup(fields@, key@)) is None,
        },
{
    match obj_get(fields, key) {
        None => Some(None),
        Some(Json::Null) => Some(None),
        Some(Json::Str(s)) => Some(Some(s.clone())),
        Some(_) => None,
    }
}

fn decode_ping(fields: &Vec<(String, Json)>) -> (r: Option<Incoming>)
    ensures
        incoming_opt_view(r) == spec_decode_ping(fields@),
{
    match obj_get(fields, "message") {
        Some(Json::UInt(n)) => Some(Incoming::Ping { message: *n }),
        _ => None,
    }
}

fn decode_confirm(fields: &Vec<(String, Json)>) -> (r: Option<Incoming>)
    ensures
        incoming_opt_view(r) == spec_decode_confirm(fields@),
{
    match obj_get(fields, "identifier") {
        Some(Json::Str(s)) => Some(Incoming::ConfirmSubscription { identifier: s.clone() }),
        _ => None,
    }
}

fn decode_disconnect(fields: &Vec<(String, Json)>) -> (r: Option<Incoming>)
    ensures
        incoming_opt_view(r) == spec_decode_disconnect(fields@),
{
    match (obj_get(fields, "reason"), obj_get(fields, "reconnect")) {
        (Some(Json::Str(reason)), Some(Json::Bool(reconnect))) => Some(
            Incoming::Disconnect { reason: reason.clone(), reconnect: *reconnect },
        ),
        _ => None,
    }
}

fn decode_update(fields: &Vec<(String, Json)>) -> (r: Option<Incoming>)
    ensures
        incoming_opt_view(r) == spec_decode_update(fields@),
{
    let identifier = match obj_get(fields, "identifier") {
        Some(Json::Str(s)) => s.clone(),
        _ => {
            return None;
        },
    };
    let m = match obj_get(fields, "message") {
        Some(Json::Obj(m)) => m,
        _ => {
            return None;
        },
    };
    let id = match obj_get(m, "id") {
        Some(Json::UInt(id)) => *id,
        _ => {
            return None;
        },
    };
    let post_url = match get_opt_field(m, "post_url") {
        Some(o) => o,
        None => {
            return None;
        },
    };
    let set_by = match get_opt_field(m, "set_by") {
        Some(o) => o,
        None => {
            return None;
        },
    };
    Some(Incoming::Message { identifier, message: WallpaperUpdate { id, post_url, set_by } })
}

/// Decodes one parsed wire value into an envelope; `None` exactly on the
/// values no envelope shape fits, which the caller drops.
pub fn decode_envelope(j: &Json) -> (r: Option<Incoming>)
    ensures
        incoming_opt_view(r) == spec_decode(*j),
{
    match j {
        Json::Obj(fields) => match obj_get(fields, "type") {
            Some(Json::Str(t)) => {
                if str_eq(t.as_str(), "welcome") {
                    Some(Incoming::Welcome)
                } else if str_eq(t.as_str(), "ping") {
                    decode_ping(fields)
                } else if str_eq(t.as_str(), "confirm_subscription") {
                    decode_confirm(fields)
                } else if str_eq(t.as_str(), "disconnect") {
                    decode_disconnect(fields)
                } else {
                    decode_update(fields)
                }
            },
            Some(_) => None,
            None => decode_update(fields),
        },
        _ => None,
    }
}

/// What one inbound text decodes to: parsed as JSON, then decoded as an
/// envelope; `None` on malformed text, which the read loop drops.
pub open spec fn spec_parse_incoming(s: Seq<char>) -> Option<IncomingM> {
    match json_of(s) {
        Some(j) => spec_decode(j),
        None => None,
    }
}

/// Parses and decodes one inbound wire text.
pub fn parse_incoming(text: &str) -> (r: Option<Incoming>)
    ensures
        incoming_opt_view(r) == spec_parse_incoming(text@),
{
    match parse_json(text) {
        Some(j) => decode_envelope(&j),
        None => None,
    }
}

/// What a canonical identifier text parses to: the text must be exactly
/// `{"channel":"LinkChannel","id":<digits>}` with a canonical digit string
/// whose value fits in the id type.
pub open spec fn spec_parse_identifier(s: Seq<char>) -> Option<IdentifierM> {
    let p = "{\"channel\":\"LinkChannel\",\"id\":"@;
    let body = s.subrange(p.len() as int, s.len() - 1);
    if s.len() >= p.len() + 2 && s.take(p.len() as int) == p && s.last() == '}' && valid_digits(
        body,
    ) && digits_val(body) <= u64::MAX {
        Some(IdentifierM { channel: "LinkChannel"@, id: digits_val(body) as u64 })
    } else {
        None
    }
}

/// The value of a parsed identifier, if one came out.
pub open spec fn identifier_opt_view(r: Option<Identifier>) -> Option<IdentifierM> {
    match r {
        Some(i) => Some(i@),
        None => None,
    }
}

/// Parses an identifier of this client's own canonical form back into its
/// channel and feed id.
pub fn parse_identifier(s: &str) -> (r: Option<Identifier>)
    ensures
        identifier_opt_view(r) == spec_parse_identifier(s@),
{
    let v = str_to_chars(s);
    let p = str_to_chars("{\"channel\":\"LinkChannel\",\"id\":");
    let plen = p.len();
    if v.len() < plen || v.len() - plen < 2 {
        return None;
    }
    for i in 0..plen
        invariant
            plen == p@.len(),
            v@.len() >= plen + 2,
            v@ == s@,
            p@ == "{\"channel\":\"LinkChannel\",\"id\":"@,
            forall|j: int| 0 <= j < i ==> v@[j] == p@[j],
    {
        if v[i] != p[i] {
            proof {
                assert(s@.take(plen as int) != p@) by {
                    assert(s@.take(plen as int)[i as int] != p@[i as int]);
                }
            }
            return None;
        }
    }
    proof {
        assert(s@.take(plen as int) =~= p@);
    }
    let last = v.len() - 1;
    if v[last] != '}' {
        return None;
    }
    let ghost body = s@.subrange(plen as int, s@.len() - 1);
    // The digit run sits between the fixed prefix and the closing brace.
    if v[plen] == '0' && last > plen + 1 {
        proof {
            assert(!valid_digits(body)) by {
                assert(body[0] == '0' && body.len() > 1);
            }
        }
        return None;
    }
    let mut acc: u64 = 0;
    proof {
        assert(body.take(0) =~= Seq::<char>::empty());
    }
    for i in plen..last
        invariant
            plen == p@.len(),
            p@ == "{\"channel\":\"LinkChannel\",\"id\":"@,
            v@ == s@,
            plen < last < v@.len(),
            last == v@.len() - 1,
            body == s@.subrange(plen as int, s@.len() - 1),
            body.len() == last - plen,
            forall|j: int| 0 <= j < i - plen ==> is_dec_digit(body[j]),
            acc == digits_val(body.take(i - plen)),
    {
        let c = v[i];
        let cv = c as u32;
        if cv < 48 || cv > 57 {
            proof {
                assert(!valid_digits(body)) by {
                    assert(!is_dec_digit(body[i - plen]));
                }
            }
            return None;
        }
        let d = (cv - 48) as u64;
        proof {
            assert(body.take(i - plen + 1).drop_last() =~= body.take(i - plen));
            assert(body.take(i - plen + 1).last() == body[i - plen]);
            assert(digits_val(body.take(i - plen + 1)) == digits_val(body.take(i - plen)) * 10
                + digit_val(body[i - plen]));
        }
        if acc > u64::MAX / 10 || (acc == u64::MAX / 10 && d > u64::MAX % 10) {
            proof {
                lemma_digits_val_grows(body, i - plen + 1);
                assert(digits_val(body) > u64::MAX);
            }
            return None;
        }
        acc = acc * 10 + d;
    }
    proof {
        assert(body.take(last - plen) =~= body);
        assert(valid_digits(body));
    }
    let channel = String::from_str("LinkChannel");
    Some(Identifier { channel, id: acc })
}

/// Parsing the canonical identifier text for a feed id yields exactly the
/// channel name and that id: the identifier every outbound message embeds
/// survives the round trip to text and back.
pub proof fn lemma_identifier_round_trip(id: u64)
    ensures
        spec_parse_identifier(spec_identifier_json(id)) == Some(
            IdentifierM { channel: "LinkChannel"@, id },
        ),
{
    let p = "{\"channel\":\"LinkChannel\",\"id\":"@;
    let digits = dec_digits(id as nat);
    let s = spec_identifier_json(id);
    lemma_dec_digits_valid(id as nat);
    lemma_digits_val_dec(id as nat);
    assert(s.take(p.len() as int) =~= p);
    assert(s.last() == '}');
    assert(s.subrange(p.len() as int, s.len() - 1) =~= digits);
}

/// The identifier embedded in an outbound message survives its whole
/// journey: the message carries it as a JSON string literal; reading that
/// literal back yields the canonical identifier text, and parsing that
/// text yields exactly the channel name and the feed id it was encoded
/// for.
pub proof fn lemma_embedded_identifier_round_trip(id: u64)
    ensures
        spec_unescape(json_escape(spec_identifier_json(id))) == spec_identifier_json(id),
        spec_parse_identifier(spec_identifier_json(id)) == Some(
            IdentifierM { channel: "LinkChannel"@, id },
        ),
{
    lemma_unescape_escape(spec_identifier_json(id));
    lemma_identifier_round_trip(id);
}

} // verus!
