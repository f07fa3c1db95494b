//! The encode/decode contract of the wire message model. A frame is a JSON
//! object discriminated by a `type` field (matched without regard to ASCII
//! letter case); any field missing or mistyped for the resolved tag is a
//! decode error, and unknown tags are rejected rather than ignored. The
//! specification functions here say exactly which JSON documents decode to
//! which messages, and what the encoding of a message looks like.
use vstd::prelude::*;

verus! {

use crate::json::{
    elems_view,
    fields_view,
    obj_get,
    obj_lookup,
    JsonV,
    JsonValue,
};
use crate::messages::{
    spec_type_of_code,
    type_code,
    ChannelInfo,
    ChannelInfoV,
    ChatMessage,
    ChatMessageData,
    ChatMessageDataV,
    ChatMessageType,
    ChatMessageV,
    ChatSocketMessage,
    ChatToken,
    ChatTokenV,
    MsgV,
    PongMessageData,
};
use crate::text::{ascii_eq_nocase, eq_nocase, nocase_code};

broadcast use vstd::std_specs::vec::group_vec_axioms, vstd::seq::group_seq_axioms;

/// Why a frame failed to decode.
#[derive(Debug, PartialEq, Eq, Structural, Clone, Copy)]
pub enum DecodeError {
    /// The frame is not a JSON object.
    NotAnObject,
    /// The frame carries no string `type` field.
    MissingTag,
    /// The `type` field names no known message.
    UnknownTag,
    /// A field of the resolved message is missing or has the wrong shape.
    BadField,
}

/// The description a decode error is logged with.
pub open spec fn decode_error_text(e: DecodeError) -> Seq<char> {
    match e {
        DecodeError::NotAnObject => "frame is not a JSON object"@,
        DecodeError::MissingTag => "frame carries no string type field"@,
        DecodeError::UnknownTag => "frame type names no known message"@,
        DecodeError::BadField => "a frame field is missing or has the wrong shape"@,
    }
}

impl DecodeError {
    /// A short description of the rejection, for logging.
    pub fn describe(&self) -> (r: &'static str)
        ensures
            r@ == decode_error_text(*self),
    {
        match self {
            DecodeError::NotAnObject => "frame is not a JSON object",
            DecodeError::MissingTag => "frame carries no string type field",
            DecodeError::UnknownTag => "frame type names no known message",
            DecodeError::BadField => "a frame field is missing or has the wrong shape",
        }
    }
}

// ---------------------------------------------------------------------------
// Field shapes, at the specification level.
// ---------------------------------------------------------------------------
/// Whether `key` is present as a string field.
pub open spec fn str_field_ok(fs: Seq<(Seq<char>, JsonV)>, key: Seq<char>) -> bool {
    obj_lookup(fs, key) matches Some(JsonV::Str(_))
}

/// The string held by the field `key`.
pub open spec fn str_field(fs: Seq<(Seq<char>, JsonV)>, key: Seq<char>) -> Seq<char> {
    match obj_lookup(fs, key) {
        Some(JsonV::Str(s)) => s,
        _ => Seq::empty(),
    }
}

/// Whether `key` is absent, null, or a string: the shapes an optional
/// string field accepts.
pub open spec fn opt_str_field_ok(fs: Seq<(Seq<char>, JsonV)>, key: Seq<char>) -> bool {
    match obj_lookup(fs, key) {
        None => true,
        Some(JsonV::Null) => true,
        Some(JsonV::Str(_)) => true,
        Some(_) => false,
    }
}

/// The value of an optional string field; absent and null both mean none.
pub open spec fn opt_str_field(fs: Seq<(Seq<char>, JsonV)>, key: Seq<char>) -> Option<Seq<char>> {
    match obj_lookup(fs, key) {
        Some(JsonV::Str(s)) => Some(s),
        _ => None,
    }
}

/// Whether every element of a JSON array is a string.
pub open spec fn all_strs(xs: Seq<JsonV>) -> bool {
    forall|i: int| 0 <= i < xs.len() ==> (#[trigger] xs[i]) is Str
}

/// The strings of a JSON array of strings.
pub open spec fn strs_of(xs: Seq<JsonV>) -> Seq<Seq<char>> {
    Seq::new(
        xs.len(),
        |i: int|
            match xs[i] {
                JsonV::Str(s) => s,
                _ => Seq::empty(),
            },
    )
}

/// Whether `key` is absent or an array of strings: the shapes a string
/// list field accepts; an absent list means an empty one.
pub open spec fn list_str_field_ok(fs: Seq<(Seq<char>, JsonV)>, key: Seq<char>) -> bool {
    match obj_lookup(fs, key) {
        None => true,
        Some(JsonV::Arr(xs)) => all_strs(xs),
        Some(_) => false,
    }
}

/// The strings of a string list field, empty when the field is absent.
pub open spec fn list_str_field(fs: Seq<(Seq<char>, JsonV)>, key: Seq<char>) -> Seq<Seq<char>> {
    match obj_lookup(fs, key) {
        Some(JsonV::Arr(xs)) => strs_of(xs),
        _ => Seq::empty(),
    }
}

/// Whether `key` is present as an integer within `[lo, hi]`.
pub open spec fn int_field_ok(fs: Seq<(Seq<char>, JsonV)>, key: Seq<char>, lo: int, hi: int) -> bool {
    match obj_lookup(fs, key) {
        Some(JsonV::Int(i)) => lo <= i && i <= hi,
        _ => false,
    }
}

/// The integer held by the field `key`.
pub open spec fn int_field(fs: Seq<(Seq<char>, JsonV)>, key: Seq<char>) -> int {
    match obj_lookup(fs, key) {
        Some(JsonV::Int(i)) => i,
        _ => 0,
    }
}

/// Whether `key` is present as a JSON object.
pub open spec fn req_obj_field_ok(fs: Seq<(Seq<char>, JsonV)>, key: Seq<char>) -> bool {
    obj_lookup(fs, key) matches Some(JsonV::Obj(_))
}

/// The fields of the object held by `key`.
pub open spec fn req_obj_field(fs: Seq<(Seq<char>, JsonV)>, key: Seq<char>) -> Seq<
    (Seq<char>, JsonV),
> {
    match obj_lookup(fs, key) {
        Some(JsonV::Obj(f)) => f,
        _ => Seq::empty(),
    }
}

/// Whether `key` is absent or an object: the shapes the free-form
/// extension map accepts; an absent map means an empty one.
pub open spec fn opt_obj_field_ok(fs: Seq<(Seq<char>, JsonV)>, key: Seq<char>) -> bool {
    match obj_lookup(fs, key) {
        None => true,
        Some(JsonV::Obj(_)) => true,
        Some(_) => false,
    }
}

// ---------------------------------------------------------------------------
// Message decoding, at the specification level.
// ---------------------------------------------------------------------------
/// Decode an authentication request body.
pub open spec fn auth_of(fs: Seq<(Seq<char>, JsonV)>) -> Result<MsgV, DecodeError> {
    if str_field_ok(fs, "nonce"@) && req_obj_field_ok(fs, "data"@) && str_field_ok(
        req_obj_field(fs, "data"@),
        "token"@,
    ) {
        Ok(
            MsgV::Auth {
                nonce: str_field(fs, "nonce"@),
                data: ChatTokenV { token: str_field(req_obj_field(fs, "data"@), "token"@) },
            },
        )
    } else {
        Err(DecodeError::BadField)
    }
}

/// Decode a handshake acknowledgement body.
pub open spec fn response_of(fs: Seq<(Seq<char>, JsonV)>) -> Result<MsgV, DecodeError> {
    if str_field_ok(fs, "nonce"@) {
        Ok(MsgV::Response { nonce: str_field(fs, "nonce"@) })
    } else {
        Err(DecodeError::BadField)
    }
}

/// Decode a heartbeat request body.
pub open spec fn ping_of(fs: Seq<(Seq<char>, JsonV)>) -> Result<MsgV, DecodeError> {
    if str_field_ok(fs, "nonce"@) {
        Ok(MsgV::Ping { nonce: str_field(fs, "nonce"@) })
    } else {
        Err(DecodeError::BadField)
    }
}

/// Decode a heartbeat acknowledgement body.
pub open spec fn pong_of(fs: Seq<(Seq<char>, JsonV)>) -> Result<MsgV, DecodeError> {
    if str_field_ok(fs, "nonce"@) && req_obj_field_ok(fs, "data"@) && int_field_ok(
        req_obj_field(fs, "data"@),
        "gap"@,
        0,
        u64::MAX as int,
    ) {
        Ok(
            MsgV::Pong {
                nonce: str_field(fs, "nonce"@),
                data: PongMessageData {
                    gap: int_field(req_obj_field(fs, "data"@), "gap"@) as u64,
                },
            },
        )
    } else {
        Err(DecodeError::BadField)
    }
}

/// Whether the fields of a chat event have the required shapes.
pub open spec fn chat_msg_fields_ok(fs: Seq<(Seq<char>, JsonV)>) -> bool {
    &&& (obj_lookup(fs, "type"@) matches Some(JsonV::Int(c)) && spec_type_of_code(c) is Some)
    &&& str_field_ok(fs, "content"@)
    &&& str_field_ok(fs, "nick_name"@)
    &&& opt_str_field_ok(fs, "avatar"@)
    &&& opt_str_field_ok(fs, "sub_lv"@)
    &&& list_str_field_ok(fs, "medals"@)
    &&& list_str_field_ok(fs, "decos"@)
    &&& list_str_field_ok(fs, "roles"@)
    &&& str_field_ok(fs, "message_id"@)
    &&& int_field_ok(fs, "sender_id"@, i64::MIN as int, i64::MAX as int)
    &&& opt_obj_field_ok(fs, "content_data"@)
    &&& opt_str_field_ok(fs, "custom_role"@)
}

/// The chat event denoted by fields of the required shapes.
pub open spec fn chat_msg_view_of(fs: Seq<(Seq<char>, JsonV)>) -> ChatMessageV {
    ChatMessageV {
        type_: spec_type_of_code(int_field(fs, "type"@)).unwrap(),
        content: str_field(fs, "content"@),
        nick_name: str_field(fs, "nick_name"@),
        avatar: opt_str_field(fs, "avatar"@),
        sub_lv: opt_str_field(fs, "sub_lv"@),
        medals: list_str_field(fs, "medals"@),
        decos: list_str_field(fs, "decos"@),
        roles: list_str_field(fs, "roles"@),
        message_id: str_field(fs, "message_id"@),
        sender_id: int_field(fs, "sender_id"@) as i64,
        content_data: req_obj_field(fs, "content_data"@),
        custom_role: opt_str_field(fs, "custom_role"@),
    }
}

/// Decode a single chat event.
pub open spec fn chat_msg_of_json(j: JsonV) -> Result<ChatMessageV, DecodeError> {
    match j {
        JsonV::Obj(fs) => if chat_msg_fields_ok(fs) {
            Ok(chat_msg_view_of(fs))
        } else {
            Err(DecodeError::BadField)
        },
        _ => Err(DecodeError::BadField),
    }
}

/// Whether every element of the batch decodes as a chat event.
pub open spec fn chats_ok(xs: Seq<JsonV>) -> bool {
    forall|i: int| 0 <= i < xs.len() ==> (#[trigger] chat_msg_of_json(xs[i])) is Ok
}

/// The chat events of a batch, in order.
pub open spec fn chats_of(xs: Seq<JsonV>) -> Seq<ChatMessageV> {
    Seq::new(
        xs.len(),
        |i: int|
            match chat_msg_of_json(xs[i]) {
                Ok(c) => c,
                Err(_) => arbitrary(),
            },
    )
}

/// Whether the `chats` field of a batch body has the required shape; an
/// absent list means an empty batch.
pub open spec fn chats_field_ok(dfs: Seq<(Seq<char>, JsonV)>) -> bool {
    match obj_lookup(dfs, "chats"@) {
        None => true,
        Some(JsonV::Arr(xs)) => chats_ok(xs),
        Some(_) => false,
    }
}

/// The chat events of the `chats` field.
pub open spec fn chats_field(dfs: Seq<(Seq<char>, JsonV)>) -> Seq<ChatMessageV> {
    match obj_lookup(dfs, "chats"@) {
        Some(JsonV::Arr(xs)) => chats_of(xs),
        _ => Seq::empty(),
    }
}

/// Whether the `channel_info` field has one of its accepted shapes:
/// absent, null, or an object carrying a string `channel_id`.
pub open spec fn channel_field_ok(fs: Seq<(Seq<char>, JsonV)>) -> bool {
    match obj_lookup(fs, "channel_info"@) {
        None => true,
        Some(JsonV::Null) => true,
        Some(JsonV::Obj(cfs)) => str_field_ok(cfs, "channel_id"@),
        Some(_) => false,
    }
}

/// The channel information of a batch, when present.
pub open spec fn channel_field(fs: Seq<(Seq<char>, JsonV)>) -> Option<ChannelInfoV> {
    match obj_lookup(fs, "channel_info"@) {
        Some(JsonV::Obj(cfs)) => Some(ChannelInfoV { channel_id: str_field(cfs, "channel_id"@) }),
        _ => None,
    }
}

/// Decode a chat event batch body.
pub open spec fn chat_of(fs: Seq<(Seq<char>, JsonV)>) -> Result<MsgV, DecodeError> {
    if channel_field_ok(fs) && req_obj_field_ok(fs, "data"@) && str_field_ok(
        req_obj_field(fs, "data"@),
        "eid"@,
    ) && chats_field_ok(req_obj_field(fs, "data"@)) {
        Ok(
            MsgV::Chat {
                channel_info: channel_field(fs),
                data: ChatMessageDataV {
                    eid: str_field(req_obj_field(fs, "data"@), "eid"@),
                    chats: chats_field(req_obj_field(fs, "data"@)),
                },
            },
        )
    } else {
        Err(DecodeError::BadField)
    }
}

/// What a JSON document decodes to: the message it denotes, or the error
/// it is rejected with. The tag is matched without regard to ASCII letter
/// case.
pub open spec fn frame_decode(j: JsonV) -> Result<MsgV, DecodeError> {
    match j {
        JsonV::Obj(fs) => match obj_lookup(fs, "type"@) {
            Some(JsonV::Str(t)) => if ascii_eq_nocase(t, "AUTH"@) {
                auth_of(fs)
            } else if ascii_eq_nocase(t, "RESPONSE"@) {
                response_of(fs)
            } else if ascii_eq_nocase(t, "PING"@) {
                ping_of(fs)
            } else if ascii_eq_nocase(t, "PONG"@) {
                pong_of(fs)
            } else if ascii_eq_nocase(t, "CHAT"@) {
                chat_of(fs)
            } else {
                Err(DecodeError::UnknownTag)
            },
            _ => Err(DecodeError::MissingTag),
        },
        _ => Err(DecodeError::NotAnObject),
    }
}

// ---------------------------------------------------------------------------
// Executable decoding.
// ---------------------------------------------------------------------------
/// A structural copy of a JSON value.
#[verifier::loop_isolation(false)]
pub fn clone_json(v: &JsonValue) -> (r: JsonValue)
    ensures
        r@ == v@,
    decreases v,
{
    match v {
        JsonValue::Null => JsonValue::Null,
        JsonValue::Bool(b) => JsonValue::Bool(*b),
        JsonValue::Int(i) => JsonValue::Int(*i),
        JsonValue::UInt(u) => JsonValue::UInt(*u),
        JsonValue::Num(s) => JsonValue::Num(s.clone()),
        JsonValue::Str(s) => JsonValue::Str(s.clone()),
        JsonValue::Arr(xs) => {
            let n = xs.len();
            let mut out: Vec<JsonValue> = Vec::new();
            let mut i: usize = 0;
            while i < n
                invariant
                    n == xs.len(),
                    0 <= i <= n,
                    out@.len() == i,
                    forall|k: int| 0 <= k < i ==> (#[trigger] out@[k])@ == elems_view(*xs)[k],
                decreases n - i,
            {
                let c = clone_json(&xs[i]);
                out.push(c);
                i += 1;
            }
            proof {
                assert(elems_view(out) =~= elems_view(*xs));
            }
            JsonValue::Arr(out)
        },
        JsonValue::Obj(fs) => {
            let n = fs.len();
            let mut out: Vec<(String, JsonValue)> = Vec::new();
            let mut i: usize = 0;
            while i < n
                invariant
                    n == fs.len(),
                    0 <= i <= n,
                    out@.len() == i,
                    forall|k: int|
                        0 <= k < i ==> ((#[trigger] out@[k]).0@, out@[k].1@) == fields_view(*fs)[k],
                decreases n - i,
            {
                let key = fs[i].0.clone();
                let c = clone_json(&fs[i].1);
                out.push((key, c));
                i += 1;
            }
            proof {
                assert(fields_view(out) =~= fields_view(*fs));
            }
            JsonValue::Obj(out)
        },
    }
}

/// A structural copy of the fields of a JSON object.
fn clone_fields(fs: &Vec<(String, JsonValue)>) -> (r: Vec<(String, JsonValue)>)
    ensures
        fields_view(r) == fields_view(*fs),
{
    let n = fs.len();
    let mut out: Vec<(String, JsonValue)> = Vec::new();
    let mut i: usize = 0;
    while i < n
        invariant
            n == fs.len(),
            0 <= i <= n,
            out@.len() == i,
            forall|k: int| 0 <= k < i ==> ((#[trigger] out@[k]).0@, out@[k].1@) == fields_view(*fs)[k],
        decreases n - i,
    {
        let key = fs[i].0.clone();
        let c = clone_json(&fs[i].1);
        out.push((key, c));
        i += 1;
    }
    proof {
        assert(fields_view(out) =~= fields_view(*fs));
    }
    out
}

/// Extract a required string field.
fn get_req_str(fs: &Vec<(String, JsonValue)>, key: &str) -> (r: Result<String, DecodeError>)
    ensures
        r matches Ok(s) ==> str_field_ok(fields_view(*fs), key@) && s@ == str_field(
            fields_view(*fs),
            key@,
        ),
        r matches Err(e) ==> !str_field_ok(fields_view(*fs), key@) && e == DecodeError::BadField,
{
    match obj_get(fs, key) {
        Some(v) => match v {
            JsonValue::Str(s) => Ok(s.clone()),
            _ => Err(DecodeError::BadField),
        },
        None => Err(DecodeError::BadField),
    }
}

/// Extract an optional string field; absent and null both mean none.
fn get_opt_str(fs: &Vec<(String, JsonValue)>, key: &str) -> (r: Result<
    Option<String>,
    DecodeError,
>)
    ensures
        r matches Ok(s) ==> opt_str_field_ok(fields_view(*fs), key@) && s.deep_view()
            == opt_str_field(fields_view(*fs), key@),
        r matches Err(e) ==> !opt_str_field_ok(fields_view(*fs), key@) && e
            == DecodeError::BadField,
{
    match obj_get(fs, key) {
        Some(v) => match v {
            JsonValue::Null => Ok(None),
            JsonValue::Str(s) => Ok(Some(s.clone())),
            _ => Err(DecodeError::BadField),
        },
        None => Ok(None),
    }
}

/// Extract a string list field; an absent list is empty.
#[verifier::loop_isolation(false)]
fn get_list_str(fs: &Vec<(String, JsonValue)>, key: &str) -> (r: Result<Vec<String>, DecodeError>)
    ensures
        r matches Ok(v) ==> list_str_field_ok(fields_view(*fs), key@) && v.deep_view()
            == list_str_field(fields_view(*fs), key@),
        r matches Err(e) ==> !list_str_field_ok(fields_view(*fs), key@) && e
            == DecodeError::BadField,
{
    match obj_get(fs, key) {
        Some(v) => match v {
            JsonValue::Arr(xs) => {
                let ghost ev = elems_view(*xs);
                let n = xs.len();
                let mut out: Vec<String> = Vec::new();
                let mut i: usize = 0;
                while i < n
                    invariant
                        n == xs.len(),
                        0 <= i <= n,
                        ev == elems_view(*xs),
                        out@.len() == i,
                        forall|k: int| 0 <= k < i ==> (#[trigger] ev[k]) is Str,
                        forall|k: int| 0 <= k < i ==> (#[trigger] out@[k])@ == strs_of(ev)[k],
                    decreases n - i,
                {
                    match &xs[i] {
                        JsonValue::Str(s) => {
                            out.push(s.clone());
                        },
                        _ => {
                            proof {
                                assert(ev[i as int] == xs@[i as int]@);
                                assert(!(ev[i as int] is Str));
                                assert(!all_strs(ev));
                            }
                            return Err(DecodeError::BadField);
                        },
                    }
                    i += 1;
                }
                proof {
                    assert(out.deep_view() =~= strs_of(ev));
                }
                Ok(out)
            },
            _ => Err(DecodeError::BadField),
        },
        None => {
            let out: Vec<String> = Vec::new();
            proof {
                assert(out.deep_view() =~= Seq::<Seq<char>>::empty());
            }
            Ok(out)
        },
    }
}

/// Extract a required `u64` field.
fn get_u64(fs: &Vec<(String, JsonValue)>, key: &str) -> (r: Result<u64, DecodeError>)
    ensures
        r matches Ok(u) ==> int_field_ok(fields_view(*fs), key@, 0, u64::MAX as int) && u as int
            == int_field(fields_view(*fs), key@),
        r matches Err(e) ==> !int_field_ok(fields_view(*fs), key@, 0, u64::MAX as int) && e
            == DecodeError::BadField,
{
    match obj_get(fs, key) {
        Some(v) => match v {
            JsonValue::Int(i) => if *i >= 0 {
                Ok(*i as u64)
            } else {
                Err(DecodeError::BadField)
            },
            JsonValue::UInt(u) => Ok(*u),
            _ => Err(DecodeError::BadField),
        },
        None => Err(DecodeError::BadField),
    }
}

/// Extract a required `i64` field.
fn get_i64(fs: &Vec<(String, JsonValue)>, key: &str) -> (r: Result<i64, DecodeError>)
    ensures
        r matches Ok(u) ==> int_field_ok(fields_view(*fs), key@, i64::MIN as int, i64::MAX as int)
            && u as int == int_field(fields_view(*fs), key@),
        r matches Err(e) ==> !int_field_ok(
            fields_view(*fs),
            key@,
            i64::MIN as int,
            i64::MAX as int,
        ) && e == DecodeError::BadField,
{
    match obj_get(fs, key) {
        Some(v) => match v {
            JsonValue::Int(i) => Ok(*i),
            JsonValue::UInt(u) => if *u <= i64::MAX as u64 {
                Ok(*u as i64)
            } else {
                Err(DecodeError::BadField)
            },
            _ => Err(DecodeError::BadField),
        },
        None => Err(DecodeError::BadField),
    }
}

/// Extract the chat event kind from its numeric `type` code.
fn get_type(fs: &Vec<(String, JsonValue)>) -> (r: Result<ChatMessageType, DecodeError>)
    ensures
        r matches Ok(t) ==> (obj_lookup(fields_view(*fs), "type"@) matches Some(JsonV::Int(c))
            && spec_type_of_code(c) == Some(t)),
        r matches Err(e) ==> !(obj_lookup(fields_view(*fs), "type"@) matches Some(JsonV::Int(c))
            && spec_type_of_code(c) is Some) && e == DecodeError::BadField,
{
    match obj_get(fs, "type") {
        Some(v) => match v {
            JsonValue::Int(i) => if 0 <= *i && *i <= 65535 {
                match ChatMessageType::of_code(*i as u16) {
                    Some(t) => Ok(t),
                    None => Err(DecodeError::BadField),
                }
            } else {
                Err(DecodeError::BadField)
            },
            JsonValue::UInt(u) => if *u <= 65535 {
                match ChatMessageType::of_code(*u as u16) {
                    Some(t) => Ok(t),
                    None => Err(DecodeError::BadField),
                }
            } else {
                Err(DecodeError::BadField)
            },
            _ => Err(DecodeError::BadField),
        },
        None => Err(DecodeError::BadField),
    }
}

/// Extract the fields of a required object field.
fn get_req_obj<'a>(fs: &'a Vec<(String, JsonValue)>, key: &str) -> (r: Result<
    &'a Vec<(String, JsonValue)>,
    DecodeError,
>)
    ensures
        r matches Ok(f) ==> req_obj_field_ok(fields_view(*fs), key@) && fields_view(*f)
            == req_obj_field(fields_view(*fs), key@),
        r matches Err(e) ==> !req_obj_field_ok(fields_view(*fs), key@) && e
            == DecodeError::BadField,
{
    match obj_get(fs, key) {
        Some(v) => match v {
            JsonValue::Obj(f) => Ok(f),
            _ => Err(DecodeError::BadField),
        },
        None => Err(DecodeError::BadField),
    }
}

/// Decode a single chat event of a batch.
fn decode_chat_msg(j: &JsonValue) -> (r: Result<ChatMessage, DecodeError>)
    ensures
        r matches Ok(m) ==> chat_msg_of_json(j@) == Ok::<ChatMessageV, DecodeError>(m@),
        r matches Err(e) ==> chat_msg_of_json(j@) == Err::<ChatMessageV, DecodeError>(e),
{
    let fs = match j {
        JsonValue::Obj(fs) => fs,
        _ => {
            return Err(DecodeError::BadField);
        },
    };
    let type_ = match get_type(fs) {
        Ok(t) => t,
        Err(e) => {
            return Err(e);
        },
    };
    let content = match get_req_str(fs, "content") {
        Ok(s) => s,
        Err(e) => {
            return Err(e);
        },
    };
    let nick_name = match get_req_str(fs, "nick_name") {
        Ok(s) => s,
        Err(e) => {
            return Err(e);
        },
    };
    let avatar = match get_opt_str(fs, "avatar") {
        Ok(s) => s,
        Err(e) => {
            return Err(e);
        },
    };
    let sub_lv = match get_opt_str(fs, "sub_lv") {
        Ok(s) => s,
        Err(e) => {
            return Err(e);
        },
    };
    let medals = match get_list_str(fs, "medals") {
        Ok(s) => s,
        Err(e) => {
            return Err(e);
        },
    };
    let decos = match get_list_str(fs, "decos") {
        Ok(s) => s,
        Err(e) => {
            return Err(e);
        },
    };
    let roles = match get_list_str(fs, "roles") {
        Ok(s) => s,
        Err(e) => {
            return Err(e);
        },
    };
    let message_id = match get_req_str(fs, "message_id") {
        Ok(s) => s,
        Err(e) => {
            return Err(e);
        },
    };
    let sender_id = match get_i64(fs, "sender_id") {
        Ok(s) => s,
        Err(e) => {
            return Err(e);
        },
    };
    let content_data = match obj_get(fs, "content_data") {
        Some(v) => match v {
            JsonValue::Obj(f) => clone_fields(f),
            _ => {
                return Err(DecodeError::BadField);
            },
        },
        None => Vec::new(),
    };
    let custom_role = match get_opt_str(fs, "custom_role") {
        Ok(s) => s,
        Err(e) => {
            return Err(e);
        },
    };
    let m = ChatMessage {
        type_,
        content,
        nick_name,
        avatar,
        sub_lv,
        medals,
        decos,
        roles,
        message_id,
        sender_id,
        content_data,
        custom_role,
    };
    proof {
        assert(fields_view(m.content_data) =~= req_obj_field(fields_view(*fs), "content_data"@));
        assert(m@ =~= chat_msg_view_of(fields_view(*fs)));
    }
    Ok(m)
}

/// Why a received frame was rejected.
#[derive(Debug)]
pub enum FrameError {
    /// The frame is not JSON at all; the JSON layer's diagnostic is
    /// preserved as the cause.
    Json(serde_json::Error),
    /// The frame is JSON but no well-formed protocol message.
    Frame(DecodeError),
}

/// Decode one text frame: parse it as JSON, then decode the document as
/// a protocol message.
pub fn decode_text_frame(s: &str) -> (r: Result<ChatSocketMessage, FrameError>)
    ensures
        crate::json::parsed_json(s@) is None ==> r matches Err(FrameError::Json(_)),
        crate::json::parsed_json(s@) matches Some(j) ==> (match frame_decode(j) {
            Ok(mv) => r matches Ok(m) && m@ == mv,
            Err(de) => r matches Err(FrameError::Frame(e)) && e == de,
        }),
{
    match crate::json::parse_json_text(s) {
        Err(e) => Err(FrameError::Json(e)),
        Ok(j) => match decode_frame(&j) {
            Ok(m) => Ok(m),
            Err(de) => Err(FrameError::Frame(de)),
        },
    }
}

/// Decode one binary frame; both frame encodings are decoded through the
/// same JSON grammar and the same structural decode.
pub fn decode_binary_frame(b: &[u8]) -> (r: Result<ChatSocketMessage, FrameError>)
    ensures
        crate::json::parsed_json_bytes(b@) is None ==> r matches Err(FrameError::Json(_)),
        crate::json::parsed_json_bytes(b@) matches Some(j) ==> (match frame_decode(j) {
            Ok(mv) => r matches Ok(m) && m@ == mv,
            Err(de) => r matches Err(FrameError::Frame(e)) && e == de,
        }),
{
    match crate::json::parse_json_bytes(b) {
        Err(e) => Err(FrameError::Json(e)),
        Ok(j) => match decode_frame(&j) {
            Ok(m) => Ok(m),
            Err(de) => Err(FrameError::Frame(de)),
        },
    }
}

/// Decode a JSON document as a protocol message. Exactly the documents
/// that `frame_decode` accepts are accepted, with the same result.
#[verifier::loop_isolation(false)]
#[verifier::rlimit(60)]
pub fn decode_frame(v: &JsonValue) -> (r: Result<ChatSocketMessage, DecodeError>)
    ensures
        r matches Ok(m) ==> frame_decode(v@) == Ok::<MsgV, DecodeError>(m@),
        r matches Err(e) ==> frame_decode(v@) == Err::<MsgV, DecodeError>(e),
{
    let fs = match v {
        JsonValue::Obj(fs) => fs,
        _ => {
            return Err(DecodeError::NotAnObject);
        },
    };
    let tag = match obj_get(fs, "type") {
        Some(t) => match t {
            JsonValue::Str(t) => t,
            _ => {
                return Err(DecodeError::MissingTag);
            },
        },
        None => {
            return Err(DecodeError::MissingTag);
        },
    };
    if eq_nocase(tag.as_str(), "AUTH") {
        let nonce = match get_req_str(fs, "nonce") {
            Ok(s) => s,
            Err(e) => {
                return Err(e);
            },
        };
        let dfs = match get_req_obj(fs, "data") {
            Ok(f) => f,
            Err(e) => {
                return Err(e);
            },
        };
        let token = match get_req_str(dfs, "token") {
            Ok(s) => s,
            Err(e) => {
                return Err(e);
            },
        };
        Ok(ChatSocketMessage::Auth { nonce, data: ChatToken { token } })
    } else if eq_nocase(tag.as_str(), "RESPONSE") {
        let nonce = match get_req_str(fs, "nonce") {
            Ok(s) => s,
            Err(e) => {
                return Err(e);
            },
        };
        Ok(ChatSocketMessage::Response { nonce })
    } else if eq_nocase(tag.as_str(), "PING") {
        let nonce = match get_req_str(fs, "nonce") {
            Ok(s) => s,
            Err(e) => {
                return Err(e);
            },
        };
        Ok(ChatSocketMessage::Ping { nonce })
    } else if eq_nocase(tag.as_str(), "PONG") {
        let nonce = match get_req_str(fs, "nonce") {
            Ok(s) => s,
            Err(e) => {
                return Err(e);
            },
        };
        let dfs = match get_req_obj(fs, "data") {
            Ok(f) => f,
            Err(e) => {
                return Err(e);
            },
        };
        let gap = match get_u64(dfs, "gap") {
            Ok(g) => g,
            Err(e) => {
                return Err(e);
            },
        };
        Ok(ChatSocketMessage::Pong { nonce, data: PongMessageData { gap } })
    } else if eq_nocase(tag.as_str(), "CHAT") {
        let channel_info: Option<ChannelInfo> = match obj_get(fs, "channel_info") {
            Some(civ) => match civ {
                JsonValue::Null => None,
                JsonValue::Obj(cfs) => match get_req_str(cfs, "channel_id") {
                    Ok(cid) => Some(ChannelInfo { channel_id: cid }),
                    Err(e) => {
                        return Err(e);
                    },
                },
                _ => {
                    return Err(DecodeError::BadField);
                },
            },
            None => None,
        };
        let dfs = match get_req_obj(fs, "data") {
            Ok(f) => f,
            Err(e) => {
                return Err(e);
            },
        };
        let eid = match get_req_str(dfs, "eid") {
            Ok(s) => s,
            Err(e) => {
                return Err(e);
            },
        };
        let chats: Vec<ChatMessage> = match obj_get(dfs, "chats") {
            Some(cv) => match cv {
                JsonValue::Arr(xs) => {
                    let ghost ev = elems_view(*xs);
                    let n = xs.len();
                    let mut out: Vec<ChatMessage> = Vec::new();
                    let mut i: usize = 0;
                    while i < n
                        invariant
                            n == xs.len(),
                            0 <= i <= n,
                            ev == elems_view(*xs),
                            out@.len() == i,
                            forall|k: int|
                                0 <= k < i ==> (#[trigger] chat_msg_of_json(ev[k])) is Ok,
                            forall|k: int|
                                0 <= k < i ==> (#[trigger] out@[k])@ == chats_of(ev)[k],
                        decreases n - i,
                    {
                        match decode_chat_msg(&xs[i]) {
                            Ok(m) => {
                                out.push(m);
                            },
                            Err(e) => {
                                proof {
                                    assert(ev[i as int] == xs@[i as int]@);
                                    assert(!(chat_msg_of_json(ev[i as int]) is Ok));
                                    assert(!chats_ok(ev));
                                }
                                return Err(e);
                            },
                        }
                        i += 1;
                    }
                    proof {
                        assert(chats_ok(ev));
                        assert(out.deep_view() =~= chats_of(ev));
                        assert(out.deep_view() =~= chats_field(fields_view(*dfs)));
                    }
                    out
                },
                _ => {
                    return Err(DecodeError::BadField);
                },
            },
            None => {
                let out: Vec<ChatMessage> = Vec::new();
                proof {
                    assert(out.deep_view() =~= chats_field(fields_view(*dfs)));
                }
                out
            },
        };
        proof {
            assert(chats.deep_view() == chats_field(req_obj_field(fields_view(*fs), "data"@)));
            assert(channel_info.deep_view() == channel_field(fields_view(*fs)));
        }
        let m = ChatSocketMessage::Chat {
            channel_info,
            data: ChatMessageData { eid, chats },
        };
        proof {
            assert(chat_of(fields_view(*fs)) matches Ok(mv) && m@ =~~= mv);
        }
        Ok(m)
    } else {
        Err(DecodeError::UnknownTag)
    }
}

// ---------------------------------------------------------------------------
// Message encoding, at the specification level.
// ---------------------------------------------------------------------------
/// The JSON value of an optional string: the string, or null.
pub open spec fn opt_str_json(o: Option<Seq<char>>) -> JsonV {
    match o {
        Some(s) => JsonV::Str(s),
        None => JsonV::Null,
    }
}

/// The JSON array of a list of strings.
pub open spec fn strs_json(xs: Seq<Seq<char>>) -> JsonV {
    JsonV::Arr(Seq::new(xs.len(), |i: int| JsonV::Str(xs[i])))
}

/// The JSON object of a single chat event.
pub open spec fn chat_msg_json(c: ChatMessageV) -> JsonV {
    JsonV::Obj(
        seq![
            ("type"@, JsonV::Int(type_code(c.type_))),
            ("content"@, JsonV::Str(c.content)),
            ("nick_name"@, JsonV::Str(c.nick_name)),
            ("avatar"@, opt_str_json(c.avatar)),
            ("sub_lv"@, opt_str_json(c.sub_lv)),
            ("medals"@, strs_json(c.medals)),
            ("decos"@, strs_json(c.decos)),
            ("roles"@, strs_json(c.roles)),
            ("message_id"@, JsonV::Str(c.message_id)),
            ("sender_id"@, JsonV::Int(c.sender_id as int)),
            ("content_data"@, JsonV::Obj(c.content_data)),
            ("custom_role"@, opt_str_json(c.custom_role)),
        ],
    )
}

/// The JSON array of a batch of chat events.
pub open spec fn chats_json(cs: Seq<ChatMessageV>) -> JsonV {
    JsonV::Arr(Seq::new(cs.len(), |i: int| chat_msg_json(cs[i])))
}

/// The JSON value of optional channel information: an object, or null.
pub open spec fn channel_json(c: Option<ChannelInfoV>) -> JsonV {
    match c {
        Some(ci) => JsonV::Obj(seq![("channel_id"@, JsonV::Str(ci.channel_id))]),
        None => JsonV::Null,
    }
}

/// The JSON document a protocol message is encoded as: a tagged object
/// whose fields follow the message's shape.
pub open spec fn frame_json(m: MsgV) -> JsonV {
    match m {
        MsgV::Auth { nonce, data } => JsonV::Obj(
            seq![
                ("type"@, JsonV::Str("AUTH"@)),
                ("nonce"@, JsonV::Str(nonce)),
                ("data"@, JsonV::Obj(seq![("token"@, JsonV::Str(data.token))])),
            ],
        ),
        MsgV::Response { nonce } => JsonV::Obj(
            seq![("type"@, JsonV::Str("RESPONSE"@)), ("nonce"@, JsonV::Str(nonce))],
        ),
        MsgV::Ping { nonce } => JsonV::Obj(
            seq![("type"@, JsonV::Str("PING"@)), ("nonce"@, JsonV::Str(nonce))],
        ),
        MsgV::Pong { nonce, data } => JsonV::Obj(
            seq![
                ("type"@, JsonV::Str("PONG"@)),
                ("nonce"@, JsonV::Str(nonce)),
                ("data"@, JsonV::Obj(seq![("gap"@, JsonV::Int(data.gap as int))])),
            ],
        ),
        MsgV::Chat { channel_info, data } => JsonV::Obj(
            seq![
                ("type"@, JsonV::Str("CHAT"@)),
                ("channel_info"@, channel_json(channel_info)),
                (
                    "data"@,
                    JsonV::Obj(
                        seq![("eid"@, JsonV::Str(data.eid)), ("chats"@, chats_json(data.chats))],
                    ),
                ),
            ],
        ),
    }
}

// ---------------------------------------------------------------------------
// Executable encoding.
// ---------------------------------------------------------------------------
/// The JSON value of an optional string field.
fn opt_str_value(o: &Option<String>) -> (j: JsonValue)
    ensures
        j@ == opt_str_json(o.deep_view()),
{
    match o {
        Some(s) => JsonValue::Str(s.clone()),
        None => JsonValue::Null,
    }
}

/// The JSON array of a list of strings.
fn strs_value(xs: &Vec<String>) -> (j: JsonValue)
    ensures
        j@ == strs_json(xs.deep_view()),
{
    let n = xs.len();
    let mut out: Vec<JsonValue> = Vec::new();
    let mut i: usize = 0;
    while i < n
        invariant
            n == xs.len(),
            0 <= i <= n,
            out@.len() == i,
            forall|k: int| 0 <= k < i ==> (#[trigger] out@[k])@ == JsonV::Str(xs.deep_view()[k]),
        decreases n - i,
    {
        out.push(JsonValue::Str(xs[i].clone()));
        i += 1;
    }
    proof {
        assert(elems_view(out) =~= Seq::new(xs.deep_view().len(), |i: int| JsonV::Str(xs.deep_view()[i])));
    }
    JsonValue::Arr(out)
}

/// The JSON object of a single chat event.
fn chat_msg_value(c: &ChatMessage) -> (j: JsonValue)
    ensures
        j@ == chat_msg_json(c@),
{
    let mut fields: Vec<(String, JsonValue)> = Vec::new();
    fields.push(("type".to_owned(), JsonValue::UInt(c.type_.code() as u64)));
    fields.push(("content".to_owned(), JsonValue::Str(c.content.clone())));
    fields.push(("nick_name".to_owned(), JsonValue::Str(c.nick_name.clone())));
    fields.push(("avatar".to_owned(), opt_str_value(&c.avatar)));
    fields.push(("sub_lv".to_owned(), opt_str_value(&c.sub_lv)));
    fields.push(("medals".to_owned(), strs_value(&c.medals)));
    fields.push(("decos".to_owned(), strs_value(&c.decos)));
    fields.push(("roles".to_owned(), strs_value(&c.roles)));
    fields.push(("message_id".to_owned(), JsonValue::Str(c.message_id.clone())));
    fields.push(("sender_id".to_owned(), JsonValue::Int(c.sender_id)));
    fields.push(("content_data".to_owned(), JsonValue::Obj(clone_fields(&c.content_data))));
    fields.push(("custom_role".to_owned(), opt_str_value(&c.custom_role)));
    let j = JsonValue::Obj(fields);
    proof {
        let t = chat_msg_json(c@)->Obj_0;
        assert(fields_view(fields)[0] == t[0]);
        assert(fields_view(fields)[1] == t[1]);
        assert(fields_view(fields)[2] == t[2]);
        assert(fields_view(fields)[3] == t[3]);
        assert(fields_view(fields)[4] == t[4]);
        assert(fields_view(fields)[5] == t[5]);
        assert(fields_view(fields)[6] == t[6]);
        assert(fields_view(fields)[7] == t[7]);
        assert(fields_view(fields)[8] == t[8]);
        assert(fields_view(fields)[9] == t[9]);
        assert(fields_view(fields)[10] == t[10]);
        assert(fields_view(fields)[11] == t[11]);
        assert(fields_view(fields) =~= t);
        assert(j@ =~~= chat_msg_json(c@));
    }
    j
}

/// The JSON array of a batch of chat events.
fn chats_value(cs: &Vec<ChatMessage>) -> (j: JsonValue)
    ensures
        j@ == chats_json(cs.deep_view()),
{
    let n = cs.len();
    let mut out: Vec<JsonValue> = Vec::new();
    let mut i: usize = 0;
    while i < n
        invariant
            n == cs.len(),
            0 <= i <= n,
            out@.len() == i,
            forall|k: int| 0 <= k < i ==> (#[trigger] out@[k])@ == chat_msg_json(cs.deep_view()[k]),
        decreases n - i,
    {
        let cj = chat_msg_value(&cs[i]);
        out.push(cj);
        i += 1;
    }
    proof {
        assert(elems_view(out) =~= Seq::new(cs.deep_view().len(), |i: int| chat_msg_json(cs.deep_view()[i])));
    }
    JsonValue::Arr(out)
}

/// Encode a protocol message as a JSON document. Encoding is total: every
/// message has exactly the document `frame_json` describes.
pub fn encode_frame(m: &ChatSocketMessage) -> (j: JsonValue)
    ensures
        j@ == frame_json(m@),
{
    match m {
        ChatSocketMessage::Auth { nonce, data } => {
            let mut dfields: Vec<(String, JsonValue)> = Vec::new();
            dfields.push(("token".to_owned(), JsonValue::Str(data.token.clone())));
            let dv = JsonValue::Obj(dfields);
            proof {
                assert(fields_view(dfields)[0] == ("token"@, JsonV::Str(data.token@)));
                assert(dv@->Obj_0 =~= seq![("token"@, JsonV::Str(data.token@))]);
            }
            let mut fields: Vec<(String, JsonValue)> = Vec::new();
            fields.push(("type".to_owned(), JsonValue::Str("AUTH".to_owned())));
            fields.push(("nonce".to_owned(), JsonValue::Str(nonce.clone())));
            fields.push(("data".to_owned(), dv));
            let j = JsonValue::Obj(fields);
            proof {
                let t = frame_json(m@)->Obj_0;
                assert(fields_view(fields)[0] == t[0]);
                assert(fields_view(fields)[1] == t[1]);
                assert(fields_view(fields)[2] == t[2]);
                assert(fields_view(fields) =~= t);
                assert(j@ =~~= frame_json(m@));
            }
            j
        },
        ChatSocketMessage::Response { nonce } => {
            let mut fields: Vec<(String, JsonValue)> = Vec::new();
            fields.push(("type".to_owned(), JsonValue::Str("RESPONSE".to_owned())));
            fields.push(("nonce".to_owned(), JsonValue::Str(nonce.clone())));
            let j = JsonValue::Obj(fields);
            proof {
                let t = frame_json(m@)->Obj_0;
                assert(fields_view(fields)[0] == t[0]);
                assert(fields_view(fields)[1] == t[1]);
                assert(fields_view(fields) =~= t);
                assert(j@ =~~= frame_json(m@));
            }
            j
        },
        ChatSocketMessage::Ping { nonce } => {
            let mut fields: Vec<(String, JsonValue)> = Vec::new();
            fields.push(("type".to_owned(), JsonValue::Str("PING".to_owned())));
            fields.push(("nonce".to_owned(), JsonValue::Str(nonce.clone())));
            let j = JsonValue::Obj(fields);
            proof {
                let t = frame_json(m@)->Obj_0;
                assert(fields_view(fields)[0] == t[0]);
                assert(fields_view(fields)[1] == t[1]);
                assert(fields_view(fields) =~= t);
                assert(j@ =~~= frame_json(m@));
            }
            j
        },
        ChatSocketMessage::Pong { nonce, data } => {
            let mut dfields: Vec<(String, JsonValue)> = Vec::new();
            dfields.push(("gap".to_owned(), JsonValue::UInt(data.gap)));
            let dv = JsonValue::Obj(dfields);
            proof {
                assert(fields_view(dfields)[0] == ("gap"@, JsonV::Int(data.gap as int)));
                assert(dv@->Obj_0 =~= seq![("gap"@, JsonV::Int(data.gap as int))]);
            }
            let mut fields: Vec<(String, JsonValue)> = Vec::new();
            fields.push(("type".to_owned(), JsonValue::Str("PONG".to_owned())));
            fields.push(("nonce".to_owned(), JsonValue::Str(nonce.clone())));
            fields.push(("data".to_owned(), dv));
            let j = JsonValue::Obj(fields);
            proof {
                let t = frame_json(m@)->Obj_0;
                assert(fields_view(fields)[0] == t[0]);
                assert(fields_view(fields)[1] == t[1]);
                assert(fields_view(fields)[2] == t[2]);
                assert(fields_view(fields) =~= t);
                assert(j@ =~~= frame_json(m@));
            }
            j
        },
        ChatSocketMessage::Chat { channel_info, data } => {
            let civ: JsonValue = match channel_info {
                Some(ci) => {
                    let mut cfields: Vec<(String, JsonValue)> = Vec::new();
                    cfields.push(("channel_id".to_owned(), JsonValue::Str(ci.channel_id.clone())));
                    let cj = JsonValue::Obj(cfields);
                    proof {
                        assert(fields_view(cfields)[0] == ("channel_id"@, JsonV::Str(ci.channel_id@)));
                        assert(cj@->Obj_0 =~= seq![("channel_id"@, JsonV::Str(ci.channel_id@))]);
                        assert(cj@ == channel_json(channel_info.deep_view()));
                    }
                    cj
                },
                None => JsonValue::Null,
            };
            let cj = chats_value(&data.chats);
            let mut dfields: Vec<(String, JsonValue)> = Vec::new();
            dfields.push(("eid".to_owned(), JsonValue::Str(data.eid.clone())));
            dfields.push(("chats".to_owned(), cj));
            let dv = JsonValue::Obj(dfields);
            proof {
                assert(fields_view(dfields)[0] == ("eid"@, JsonV::Str(data.eid@)));
                assert(fields_view(dfields)[1] == ("chats"@, chats_json(data.chats.deep_view())));
                assert(dv@->Obj_0 =~= seq![
                    ("eid"@, JsonV::Str(data.eid@)),
                    ("chats"@, chats_json(data.chats.deep_view())),
                ]);
            }
            let mut fields: Vec<(String, JsonValue)> = Vec::new();
            fields.push(("type".to_owned(), JsonValue::Str("CHAT".to_owned())));
            fields.push(("channel_info".to_owned(), civ));
            fields.push(("data".to_owned(), dv));
            let j = JsonValue::Obj(fields);
            proof {
                let t = frame_json(m@)->Obj_0;
                assert(fields_view(fields)[0] == t[0]);
                assert(fields_view(fields)[1] == t[1]);
                assert(fields_view(fields)[2] == t[2]);
                assert(fields_view(fields) =~= t);
                assert(j@ =~~= frame_json(m@));
            }
            j
        },
    }
}

/// Encode a protocol message as frame text. Encoding never fails for a
/// well-formed message: one whose encoding carries no raw-number node.
pub fn encode_frame_text(m: &ChatSocketMessage) -> (r: String)
    requires
        crate::json::renderable(frame_json(m@)),
    ensures
        r@ == crate::json::json_text(frame_json(m@)),
{
    let j = encode_frame(m);
    crate::json::render_json(&j)
}

/// A chat event decodes back from its own encoding, unchanged.
#[verifier::rlimit(60)]
proof fn lemma_chat_msg_round_trip(c: ChatMessageV)
    ensures
        chat_msg_of_json(chat_msg_json(c)) == Ok::<ChatMessageV, DecodeError>(c),
{
    reveal_strlit("type");
    reveal_strlit("content");
    reveal_strlit("nick_name");
    reveal_strlit("avatar");
    reveal_strlit("sub_lv");
    reveal_strlit("medals");
    reveal_strlit("decos");
    reveal_strlit("roles");
    reveal_strlit("message_id");
    reveal_strlit("sender_id");
    reveal_strlit("content_data");
    reveal_strlit("custom_role");
    let fs = chat_msg_json(c)->Obj_0;
    // Keys of equal length are told apart by their first character.
    assert("avatar"@[0] != "sub_lv"@[0]);
    assert("avatar"@ != "sub_lv"@);
    assert("avatar"@[0] != "medals"@[0]);
    assert("avatar"@ != "medals"@);
    assert("sub_lv"@[0] != "medals"@[0]);
    assert("sub_lv"@ != "medals"@);
    assert("decos"@[0] != "roles"@[0]);
    assert("decos"@ != "roles"@);
    assert("nick_name"@[0] != "sender_id"@[0]);
    assert("nick_name"@ != "sender_id"@);
    // Pin down the encoded object, field by field, then walk each
    // lookup past the earlier keys to the field it finds.
    assert(fs.len() == 12);
    assert(fs[0].0 == "type"@);
    assert(fs[1].0 == "content"@);
    assert(fs[2].0 == "nick_name"@);
    assert(fs[3].0 == "avatar"@);
    assert(fs[4].0 == "sub_lv"@);
    assert(fs[5].0 == "medals"@);
    assert(fs[6].0 == "decos"@);
    assert(fs[7].0 == "roles"@);
    assert(fs[8].0 == "message_id"@);
    assert(fs[9].0 == "sender_id"@);
    assert(fs[10].0 == "content_data"@);
    assert(fs[11].0 == "custom_role"@);
    crate::json::lemma_obj_lookup_found(fs, "type"@, 0);
    assert(obj_lookup(fs, "type"@) == Some(JsonV::Int(type_code(c.type_))));
    crate::json::lemma_obj_lookup_step(fs, "content"@, 0);
    crate::json::lemma_obj_lookup_found(fs, "content"@, 1);
    assert(obj_lookup(fs, "content"@) == Some(JsonV::Str(c.content)));
    crate::json::lemma_obj_lookup_step(fs, "nick_name"@, 0);
    crate::json::lemma_obj_lookup_step(fs, "nick_name"@, 1);
    crate::json::lemma_obj_lookup_found(fs, "nick_name"@, 2);
    assert(obj_lookup(fs, "nick_name"@) == Some(JsonV::Str(c.nick_name)));
    crate::json::lemma_obj_lookup_step(fs, "avatar"@, 0);
    crate::json::lemma_obj_lookup_step(fs, "avatar"@, 1);
    crate::json::lemma_obj_lookup_step(fs, "avatar"@, 2);
    crate::json::lemma_obj_lookup_found(fs, "avatar"@, 3);
    assert(obj_lookup(fs, "avatar"@) == Some(opt_str_json(c.avatar)));
    crate::json::lemma_obj_lookup_step(fs, "sub_lv"@, 0);
    crate::json::lemma_obj_lookup_step(fs, "sub_lv"@, 1);
    crate::json::lemma_obj_lookup_step(fs, "sub_lv"@, 2);
    crate::json::lemma_obj_lookup_step(fs, "sub_lv"@, 3);
    crate::json::lemma_obj_lookup_found(fs, "sub_lv"@, 4);
    assert(obj_lookup(fs, "sub_lv"@) == Some(opt_str_json(c.sub_lv)));
    crate::json::lemma_obj_lookup_step(fs, "medals"@, 0);
    crate::json::lemma_obj_lookup_step(fs, "medals"@, 1);
    crate::json::lemma_obj_lookup_step(fs, "medals"@, 2);
    crate::json::lemma_obj_lookup_step(fs, "medals"@, 3);
    crate::json::lemma_obj_lookup_step(fs, "medals"@, 4);
    crate::json::lemma_obj_lookup_found(fs, "medals"@, 5);
    assert(obj_lookup(fs, "medals"@) == Some(strs_json(c.medals)));
    crate::json::lemma_obj_lookup_step(fs, "decos"@, 0);
    crate::json::lemma_obj_lookup_step(fs, "decos"@, 1);
    crate::json::lemma_obj_lookup_step(fs, "decos"@, 2);
    crate::json::lemma_obj_lookup_step(fs, "decos"@, 3);
    crate::json::lemma_obj_lookup_step(fs, "decos"@, 4);
    crate::json::lemma_obj_lookup_step(fs, "decos"@, 5);
    crate::json::lemma_obj_lookup_found(fs, "decos"@, 6);
    assert(obj_lookup(fs, "decos"@) == Some(strs_json(c.decos)));
    crate::json::lemma_obj_lookup_step(fs, "roles"@, 0);
    crate::json::lemma_obj_lookup_step(fs, "roles"@, 1);
    crate::json::lemma_obj_lookup_step(fs, "roles"@, 2);
    crate::json::lemma_obj_lookup_step(fs, "roles"@, 3);
    crate::json::lemma_obj_lookup_step(fs, "roles"@, 4);
    crate::json::lemma_obj_lookup_step(fs, "roles"@, 5);
    crate::json::lemma_obj_lookup_step(fs, "roles"@, 6);
    crate::json::lemma_obj_lookup_found(fs, "roles"@, 7);
    assert(obj_lookup(fs, "roles"@) == Some(strs_json(c.roles)));
    crate::json::lemma_obj_lookup_step(fs, "message_id"@, 0);
    crate::json::lemma_obj_lookup_step(fs, "message_id"@, 1);
    crate::json::lemma_obj_lookup_step(fs, "message_id"@, 2);
    crate::json::lemma_obj_lookup_step(fs, "message_id"@, 3);
    crate::json::lemma_obj_lookup_step(fs, "message_id"@, 4);
    crate::json::lemma_obj_lookup_step(fs, "message_id"@, 5);
    crate::json::lemma_obj_lookup_step(fs, "message_id"@, 6);
    crate::json::lemma_obj_lookup_step(fs, "message_id"@, 7);
    crate::json::lemma_obj_lookup_found(fs, "message_id"@, 8);
    assert(obj_lookup(fs, "message_id"@) == Some(JsonV::Str(c.message_id)));
    crate::json::lemma_obj_lookup_step(fs, "sender_id"@, 0);
    crate::json::lemma_obj_lookup_step(fs, "sender_id"@, 1);
    crate::json::lemma_obj_lookup_step(fs, "sender_id"@, 2);
    crate::json::lemma_obj_lookup_step(fs, "sender_id"@, 3);
    crate::json::lemma_obj_lookup_step(fs, "sender_id"@, 4);
    crate::json::lemma_obj_lookup_step(fs, "sender_id"@, 5);
    crate::json::lemma_obj_lookup_step(fs, "sender_id"@, 6);
    crate::json::lemma_obj_lookup_step(fs, "sender_id"@, 7);
    crate::json::lemma_obj_lookup_step(fs, "sender_id"@, 8);
    crate::json::lemma_obj_lookup_found(fs, "sender_id"@, 9);
    assert(obj_lookup(fs, "sender_id"@) == Some(JsonV::Int(c.sender_id as int)));
    crate::json::lemma_obj_lookup_step(fs, "content_data"@, 0);
    crate::json::lemma_obj_lookup_step(fs, "content_data"@, 1);
    crate::json::lemma_obj_lookup_step(fs, "content_data"@, 2);
    crate::json::lemma_obj_lookup_step(fs, "content_data"@, 3);
    crate::json::lemma_obj_lookup_step(fs, "content_data"@, 4);
    crate::json::lemma_obj_lookup_step(fs, "content_data"@, 5);
    crate::json::lemma_obj_lookup_step(fs, "content_data"@, 6);
    crate::json::lemma_obj_lookup_step(fs, "content_data"@, 7);
    crate::json::lemma_obj_lookup_step(fs, "content_data"@, 8);
    crate::json::lemma_obj_lookup_step(fs, "content_data"@, 9);
    crate::json::lemma_obj_lookup_found(fs, "content_data"@, 10);
    assert(obj_lookup(fs, "content_data"@) == Some(JsonV::Obj(c.content_data)));
    crate::json::lemma_obj_lookup_step(fs, "custom_role"@, 0);
    crate::json::lemma_obj_lookup_step(fs, "custom_role"@, 1);
    crate::json::lemma_obj_lookup_step(fs, "custom_role"@, 2);
    crate::json::lemma_obj_lookup_step(fs, "custom_role"@, 3);
    crate::json::lemma_obj_lookup_step(fs, "custom_role"@, 4);
    crate::json::lemma_obj_lookup_step(fs, "custom_role"@, 5);
    crate::json::lemma_obj_lookup_step(fs, "custom_role"@, 6);
    crate::json::lemma_obj_lookup_step(fs, "custom_role"@, 7);
    crate::json::lemma_obj_lookup_step(fs, "custom_role"@, 8);
    crate::json::lemma_obj_lookup_step(fs, "custom_role"@, 9);
    crate::json::lemma_obj_lookup_step(fs, "custom_role"@, 10);
    crate::json::lemma_obj_lookup_found(fs, "custom_role"@, 11);
    assert(obj_lookup(fs, "custom_role"@) == Some(opt_str_json(c.custom_role)));
    crate::messages::lemma_type_code_round_trip(c.type_);
    assert(strs_of(strs_json(c.medals)->Arr_0) =~= c.medals);
    assert(strs_of(strs_json(c.decos)->Arr_0) =~= c.decos);
    assert(strs_of(strs_json(c.roles)->Arr_0) =~= c.roles);
    assert(chat_msg_fields_ok(fs));
    assert(chat_msg_view_of(fs) =~= c);
}

/// Decoding is the inverse of encoding: every protocol message decodes
/// back from its own encoded frame, unchanged. The tagged-object frame
/// grammar loses nothing a message can carry.
#[verifier::rlimit(60)]
pub proof fn lemma_frame_round_trip(m: MsgV)
    ensures
        frame_decode(frame_json(m)) == Ok::<MsgV, DecodeError>(m),
{
    reveal_strlit("type");
    reveal_strlit("nonce");
    reveal_strlit("data");
    reveal_strlit("token");
    reveal_strlit("gap");
    reveal_strlit("channel_info");
    reveal_strlit("channel_id");
    reveal_strlit("eid");
    reveal_strlit("chats");
    reveal_strlit("AUTH");
    reveal_strlit("RESPONSE");
    reveal_strlit("PING");
    reveal_strlit("PONG");
    reveal_strlit("CHAT");
    // Keys and tags of equal length are told apart by one character;
    // the tag comparisons are case-insensitive, so they go through the
    // case-folded character codes.
    assert("type"@[0] != "data"@[0]);
    assert("type"@ != "data"@);
    assert(nocase_code("PING"@[0]) != nocase_code("AUTH"@[0]));
    assert(!ascii_eq_nocase("PING"@, "AUTH"@));
    assert(nocase_code("PONG"@[0]) != nocase_code("AUTH"@[0]));
    assert(!ascii_eq_nocase("PONG"@, "AUTH"@));
    assert(nocase_code("CHAT"@[0]) != nocase_code("AUTH"@[0]));
    assert(!ascii_eq_nocase("CHAT"@, "AUTH"@));
    assert(nocase_code("CHAT"@[0]) != nocase_code("PING"@[0]));
    assert(!ascii_eq_nocase("CHAT"@, "PING"@));
    assert(nocase_code("CHAT"@[0]) != nocase_code("PONG"@[0]));
    assert(!ascii_eq_nocase("CHAT"@, "PONG"@));
    assert(nocase_code("PING"@[1]) != nocase_code("PONG"@[1]));
    assert(!ascii_eq_nocase("PING"@, "PONG"@));
    assert(!ascii_eq_nocase("PONG"@, "PING"@));
    let fs = frame_json(m)->Obj_0;
    match m {
        MsgV::Auth { nonce, data } => {
            crate::json::lemma_obj_lookup_found(fs, "type"@, 0);
            assert(obj_lookup(fs, "type"@) == Some(JsonV::Str("AUTH"@)));
            crate::json::lemma_obj_lookup_step(fs, "nonce"@, 0);
            crate::json::lemma_obj_lookup_found(fs, "nonce"@, 1);
            assert(obj_lookup(fs, "nonce"@) == Some(JsonV::Str(nonce)));
            assert(ascii_eq_nocase("AUTH"@, "AUTH"@));
            let dfs = JsonV::Obj(seq![("token"@, JsonV::Str(data.token))])->Obj_0;
            crate::json::lemma_obj_lookup_step(fs, "data"@, 0);
            crate::json::lemma_obj_lookup_step(fs, "data"@, 1);
            crate::json::lemma_obj_lookup_found(fs, "data"@, 2);
            assert(obj_lookup(fs, "data"@) == Some(JsonV::Obj(dfs)));
            crate::json::lemma_obj_lookup_found(dfs, "token"@, 0);
            assert(obj_lookup(dfs, "token"@) == Some(JsonV::Str(data.token)));
            assert(auth_of(fs) == Ok::<MsgV, DecodeError>(m));
        },
        MsgV::Response { nonce } => {
            crate::json::lemma_obj_lookup_found(fs, "type"@, 0);
            assert(obj_lookup(fs, "type"@) == Some(JsonV::Str("RESPONSE"@)));
            crate::json::lemma_obj_lookup_step(fs, "nonce"@, 0);
            crate::json::lemma_obj_lookup_found(fs, "nonce"@, 1);
            assert(obj_lookup(fs, "nonce"@) == Some(JsonV::Str(nonce)));
            assert(!ascii_eq_nocase("RESPONSE"@, "AUTH"@));
            assert(ascii_eq_nocase("RESPONSE"@, "RESPONSE"@));
            assert(response_of(fs) == Ok::<MsgV, DecodeError>(m));
        },
        MsgV::Ping { nonce } => {
            crate::json::lemma_obj_lookup_found(fs, "type"@, 0);
            assert(obj_lookup(fs, "type"@) == Some(JsonV::Str("PING"@)));
            crate::json::lemma_obj_lookup_step(fs, "nonce"@, 0);
            crate::json::lemma_obj_lookup_found(fs, "nonce"@, 1);
            assert(obj_lookup(fs, "nonce"@) == Some(JsonV::Str(nonce)));
            assert(!ascii_eq_nocase("PING"@, "AUTH"@));
            assert(!ascii_eq_nocase("PING"@, "RESPONSE"@));
            assert(ascii_eq_nocase("PING"@, "PING"@));
            assert(ping_of(fs) == Ok::<MsgV, DecodeError>(m));
        },
        MsgV::Pong { nonce, data } => {
            crate::json::lemma_obj_lookup_found(fs, "type"@, 0);
            assert(obj_lookup(fs, "type"@) == Some(JsonV::Str("PONG"@)));
            crate::json::lemma_obj_lookup_step(fs, "nonce"@, 0);
            crate::json::lemma_obj_lookup_found(fs, "nonce"@, 1);
            assert(obj_lookup(fs, "nonce"@) == Some(JsonV::Str(nonce)));
            assert(!ascii_eq_nocase("PONG"@, "AUTH"@));
            assert(!ascii_eq_nocase("PONG"@, "RESPONSE"@));
            assert(ascii_eq_nocase("PONG"@, "PONG"@));
            let dfs = JsonV::Obj(seq![("gap"@, JsonV::Int(data.gap as int))])->Obj_0;
            crate::json::lemma_obj_lookup_step(fs, "data"@, 0);
            crate::json::lemma_obj_lookup_step(fs, "data"@, 1);
            crate::json::lemma_obj_lookup_found(fs, "data"@, 2);
            assert(obj_lookup(fs, "data"@) == Some(JsonV::Obj(dfs)));
            crate::json::lemma_obj_lookup_found(dfs, "gap"@, 0);
            assert(obj_lookup(dfs, "gap"@) == Some(JsonV::Int(data.gap as int)));
            assert(pong_of(fs) == Ok::<MsgV, DecodeError>(m));
        },
        MsgV::Chat { channel_info, data } => {
            crate::json::lemma_obj_lookup_found(fs, "type"@, 0);
            assert(obj_lookup(fs, "type"@) == Some(JsonV::Str("CHAT"@)));
            crate::json::lemma_obj_lookup_step(fs, "channel_info"@, 0);
            crate::json::lemma_obj_lookup_found(fs, "channel_info"@, 1);
            assert(obj_lookup(fs, "channel_info"@) == Some(channel_json(channel_info)));
            assert(!ascii_eq_nocase("CHAT"@, "AUTH"@));
            assert(!ascii_eq_nocase("CHAT"@, "RESPONSE"@));
            assert(!ascii_eq_nocase("CHAT"@, "PING"@));
            assert(!ascii_eq_nocase("CHAT"@, "PONG"@));
            assert(ascii_eq_nocase("CHAT"@, "CHAT"@));
            match channel_info {
                Some(ci) => {
                    let cfs = channel_json(channel_info)->Obj_0;
                    crate::json::lemma_obj_lookup_found(cfs, "channel_id"@, 0);
                    assert(obj_lookup(cfs, "channel_id"@) == Some(JsonV::Str(ci.channel_id)));
                    assert(channel_field_ok(fs));
                    assert(channel_field(fs) == channel_info);
                },
                None => {
                    assert(channel_field_ok(fs));
                    assert(channel_field(fs) == channel_info);
                },
            }
            let dfs = frame_json(m)->Obj_0[2].1->Obj_0;
            assert(dfs.len() == 2);
            assert(dfs[0].0 == "eid"@);
            assert(dfs[1].0 == "chats"@);
            crate::json::lemma_obj_lookup_step(fs, "data"@, 0);
            crate::json::lemma_obj_lookup_step(fs, "data"@, 1);
            crate::json::lemma_obj_lookup_found(fs, "data"@, 2);
            assert(obj_lookup(fs, "data"@) == Some(JsonV::Obj(dfs)));
            crate::json::lemma_obj_lookup_found(dfs, "eid"@, 0);
            assert(obj_lookup(dfs, "eid"@) == Some(JsonV::Str(data.eid)));
            crate::json::lemma_obj_lookup_step(dfs, "chats"@, 0);
            crate::json::lemma_obj_lookup_found(dfs, "chats"@, 1);
            assert(obj_lookup(dfs, "chats"@) == Some(chats_json(data.chats)));
            let xs = chats_json(data.chats)->Arr_0;
            assert forall|i: int| 0 <= i < xs.len() implies (#[trigger] chat_msg_of_json(
                xs[i],
            )) == Ok::<ChatMessageV, DecodeError>(data.chats[i]) by {
                lemma_chat_msg_round_trip(data.chats[i]);
            }
            assert(chats_ok(xs));
            assert(chats_of(xs) =~= data.chats);
            assert(chats_field_ok(dfs));
            assert(chats_field(dfs) == data.chats);
            assert(chat_of(fs) matches Ok(mv) && mv =~~= m);
        },
    }
}

/// Every frame without a chat batch is well formed: its encoding carries
/// no raw-number node, so it can always be rendered.
pub proof fn lemma_simple_frames_renderable(m: MsgV)
    requires
        !(m is Chat),
    ensures
        crate::json::renderable(frame_json(m)),
{
    match m {
        MsgV::Auth { nonce, data } => {
            assert forall|i: int| 0 <= i < 3 implies crate::json::renderable(
                #[trigger] frame_json(m)->Obj_0[i].1,
            ) by {
                if i == 2 {
                    assert(forall|k: int|
                        0 <= k < 1 ==> crate::json::renderable(
                            #[trigger] frame_json(m)->Obj_0[2].1->Obj_0[k].1,
                        ));
                }
            }
        },
        MsgV::Pong { nonce, data } => {
            assert forall|i: int| 0 <= i < 3 implies crate::json::renderable(
                #[trigger] frame_json(m)->Obj_0[i].1,
            ) by {
                if i == 2 {
                    assert(forall|k: int|
                        0 <= k < 1 ==> crate::json::renderable(
                            #[trigger] frame_json(m)->Obj_0[2].1->Obj_0[k].1,
                        ));
                }
            }
        },
        _ => {
            assert(forall|i: int|
                0 <= i < frame_json(m)->Obj_0.len() ==> crate::json::renderable(
                    #[trigger] frame_json(m)->Obj_0[i].1,
                ));
        },
    }
}

} // verus!
