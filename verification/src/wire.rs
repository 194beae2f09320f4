//! The wire format of an envelope.
//!
//! An envelope is one JSON object on one line: `src` and `dest` are strings,
//! `body` is an object. In the body, `msg_id` and `in_reply_to` are the
//! correlation ids, each a non-negative integer, `null` or left out; every
//! other member belongs to the payload, which sits flattened beside them.

use crate::json::{
    duplicate_members, find, json_parse, json_text, lemma_object_view, lemma_position_from,
    lemma_position_is, lookup, members_view, position, take, without, Json, JsonModel, Members,
};
use crate::message::{Body, BodyModel, Message, MessageModel};
use vstd::prelude::*;
use vstd::string::StringExecFns;

verus! {

/// A payload as it stands on the wire: the members of the body other than the
/// correlation ids, in document order.
#[derive(Debug, PartialEq, Eq)]
pub struct Fields(pub Vec<(String, Json)>);

impl View for Fields {
    type V = Members;

    open spec fn view(&self) -> Members {
        members_view(self.0@)
    }
}

/// Why a line is not an envelope.
#[derive(Debug, Clone, Copy, PartialEq, Eq)]
pub enum DecodeError {
    /// The line is not JSON.
    Syntax,
    /// The document is not an object.
    NotAnObject,
    /// `src` is missing or not a string.
    Source,
    /// `dest` is missing or not a string.
    Destination,
    /// `body` is missing or not an object.
    Body,
    /// `msg_id` is neither absent, `null` nor an integer that fits.
    MessageId,
    /// `in_reply_to` is neither absent, `null` nor an integer that fits.
    InReplyTo,
}

/// How a correlation id is written.
pub open spec fn id_json(id: Option<usize>) -> JsonModel {
    match id {
        Some(k) => JsonModel::Unsigned(k as u64),
        None => JsonModel::Null,
    }
}

/// The members of an encoded body: the payload first, then the two ids.
pub open spec fn body_members(body: BodyModel<Members>) -> Members {
    body.payload.push(("msg_id"@, id_json(body.id))).push(
        ("in_reply_to"@, id_json(body.in_reply_to)),
    )
}

/// The document that stands for an envelope.
pub open spec fn message_json(message: MessageModel<Members>) -> JsonModel {
    JsonModel::Object(
        seq![
            ("src"@, JsonModel::String(message.src)),
            ("dest"@, JsonModel::String(message.dst)),
            ("body"@, JsonModel::Object(body_members(message.body))),
        ],
    )
}

/// The text of a member that must be a string.
pub open spec fn text_of(value: Option<JsonModel>) -> Option<Seq<char>> {
    match value {
        Some(JsonModel::String(text)) => Some(text),
        _ => None,
    }
}

/// The members of a member that must be an object.
pub open spec fn object_of(value: Option<JsonModel>) -> Option<Members> {
    match value {
        Some(JsonModel::Object(members)) => Some(members),
        _ => None,
    }
}

/// The correlation id that a member stands for; `None` where it stands for
/// none: it is not an integer, or does not fit.
pub open spec fn id_of(value: Option<JsonModel>) -> Option<Option<usize>> {
    match value {
        None => Some(None),
        Some(JsonModel::Null) => Some(None),
        Some(JsonModel::Unsigned(u)) => if u <= usize::MAX {
            Some(Some(u as usize))
        } else {
            None
        },
        _ => None,
    }
}

/// The number of a member that must be a non-negative integer that fits.
pub open spec fn number_of(value: Option<JsonModel>) -> Option<usize> {
    match value {
        Some(JsonModel::Unsigned(u)) => if u <= usize::MAX {
            Some(u as usize)
        } else {
            None
        },
        _ => None,
    }
}

/// The payload of a body: its members without the correlation ids.
pub open spec fn payload_of(body: Members) -> Members {
    without(without(body, "msg_id"@), "in_reply_to"@)
}

/// The body that an object's members stand for.
pub open spec fn body_of(body: Members) -> Result<BodyModel<Members>, DecodeError> {
    match id_of(lookup(body, "msg_id"@)) {
        None => Err(DecodeError::MessageId),
        Some(id) => match id_of(lookup(body, "in_reply_to"@)) {
            None => Err(DecodeError::InReplyTo),
            Some(in_reply_to) => Ok(BodyModel { id, in_reply_to, payload: payload_of(body) }),
        },
    }
}

/// The envelope that a document stands for, or the first thing wrong with it.
pub open spec fn message_of(document: JsonModel) -> Result<MessageModel<Members>, DecodeError> {
    match document {
        JsonModel::Object(members) => match text_of(lookup(members, "src"@)) {
            None => Err(DecodeError::Source),
            Some(src) => match text_of(lookup(members, "dest"@)) {
                None => Err(DecodeError::Destination),
                Some(dst) => match object_of(lookup(members, "body"@)) {
                    None => Err(DecodeError::Body),
                    Some(body) => match body_of(body) {
                        Err(error) => Err(error),
                        Ok(body) => Ok(MessageModel { src, dst, body }),
                    },
                },
            },
        },
        _ => Err(DecodeError::NotAnObject),
    }
}

/// The envelope that a line stands for.
pub open spec fn line_message(line: Seq<char>) -> Result<MessageModel<Members>, DecodeError> {
    match json_parse(line) {
        Ok(document) => message_of(document),
        Err(_) => Err(DecodeError::Syntax),
    }
}

/// The line that carries an envelope: its document as text, then a newline.
/// `None` where serde_json refuses the document.
pub open spec fn message_line(message: MessageModel<Members>) -> Option<Seq<char>> {
    match json_text(message_json(message)) {
        Ok(text) => Some(text + "\n"@),
        Err(_) => None,
    }
}

/// Whether a payload leaves the names of the correlation ids alone.
pub open spec fn keeps_clear_of_ids(payload: Members) -> bool {
    position(payload, "msg_id"@) is None && position(payload, "in_reply_to"@) is None
}

/// The names of the wire format differ from one another.
pub proof fn lemma_names_differ()
    ensures
        "src"@ != "dest"@,
        "src"@ != "body"@,
        "dest"@ != "body"@,
        "msg_id"@ != "in_reply_to"@,
{
    reveal_strlit("src");
    reveal_strlit("dest");
    reveal_strlit("body");
    reveal_strlit("msg_id");
    reveal_strlit("in_reply_to");
    assert("dest"@[0] != "body"@[0]);
    assert("msg_id"@.len() == 6);
    assert("in_reply_to"@.len() == 11);
}

/// Decoding the body that `body_members` writes gives the body back.
pub proof fn lemma_body_round_trip(body: BodyModel<Members>)
    requires
        keeps_clear_of_ids(body.payload),
    ensures
        body_of(body_members(body)) == Ok::<BodyModel<Members>, DecodeError>(body),
{
    lemma_names_differ();
    let n = body.payload.len() as int;
    let all = body_members(body);
    lemma_position_from(body.payload, "msg_id"@, 0);
    lemma_position_from(body.payload, "in_reply_to"@, 0);
    assert forall|j: int| 0 <= j < n implies (#[trigger] all[j]).0 != "msg_id"@ by {
        assert(all[j] == body.payload[j]);
    }
    lemma_position_is(all, "msg_id"@, n);
    assert forall|j: int| 0 <= j < n + 1 implies (#[trigger] all[j]).0 != "in_reply_to"@ by {
        if j < n {
            assert(all[j] == body.payload[j]);
        }
    }
    lemma_position_is(all, "in_reply_to"@, n + 1);
    let rest = without(all, "msg_id"@);
    assert(rest =~= body.payload.push(("in_reply_to"@, id_json(body.in_reply_to))));
    assert forall|j: int| 0 <= j < n implies (#[trigger] rest[j]).0 != "in_reply_to"@ by {
        assert(rest[j] == body.payload[j]);
    }
    lemma_position_is(rest, "in_reply_to"@, n);
    assert(without(rest, "in_reply_to"@) =~= body.payload);
}

/// Round trip: decoding the document that stands for an envelope gives the
/// envelope back, field for field, the flattened payload included. It holds
/// of every envelope whose payload has no member named `msg_id` or
/// `in_reply_to`.
pub proof fn lemma_message_round_trip(message: MessageModel<Members>)
    requires
        keeps_clear_of_ids(message.body.payload),
    ensures
        message_of(message_json(message)) == Ok::<MessageModel<Members>, DecodeError>(message),
{
    lemma_names_differ();
    lemma_body_round_trip(message.body);
    let members = message_json(message)->Object_0;
    lemma_position_is(members, "src"@, 0);
    lemma_position_is(members, "dest"@, 1);
    lemma_position_is(members, "body"@, 2);
}

/// Round trip through text: where serde_json reads the line of an envelope
/// back as the document that stands for it, the line decodes to that envelope.
pub proof fn lemma_line_round_trip(message: MessageModel<Members>, line: Seq<char>)
    requires
        keeps_clear_of_ids(message.body.payload),
    ensures
        json_parse(line) == Ok::<JsonModel, Seq<char>>(message_json(message)) ==> line_message(
            line,
        ) == Ok::<MessageModel<Members>, DecodeError>(message),
{
    lemma_message_round_trip(message);
}

/// The text of the first member under `key`, where that member is a string.
pub fn text_member(members: &Vec<(String, Json)>, key: &str) -> (text: Option<String>)
    ensures
        match text {
            Some(text) => text_of(lookup(members_view(members@), key@)) == Some(text@),
            None => text_of(lookup(members_view(members@), key@)) is None,
        },
{
    match find(members, key) {
        Some(i) => match &members[i].1 {
            Json::String(text) => Some(text.clone()),
            _ => None,
        },
        None => None,
    }
}

/// The number of the first member under `key`, where that member is a
/// non-negative integer that fits.
pub fn number_member(members: &Vec<(String, Json)>, key: &str) -> (number: Option<usize>)
    ensures
        number == number_of(lookup(members_view(members@), key@)),
{
    match find(members, key) {
        Some(i) => match &members[i].1 {
            Json::Unsigned(u) => if *u <= usize::MAX as u64 {
                Some(*u as usize)
            } else {
                None
            },
            _ => None,
        },
        None => None,
    }
}

/// The correlation id under `key`.
fn id_member(members: &Vec<(String, Json)>, key: &str) -> (id: Option<Option<usize>>)
    ensures
        id == id_of(lookup(members_view(members@), key@)),
{
    match find(members, key) {
        Some(i) => match &members[i].1 {
            Json::Null => Some(None),
            Json::Unsigned(u) => if *u <= usize::MAX as u64 {
                Some(Some(*u as usize))
            } else {
                None
            },
            _ => None,
        },
        None => Some(None),
    }
}

/// How a correlation id is written.
fn id_value(id: Option<usize>) -> (value: Json)
    ensures
        value@ == id_json(id),
{
    match id {
        Some(k) => Json::Unsigned(k as u64),
        None => Json::Null,
    }
}

/// Reads an envelope from a document.
pub fn decode_message(document: Json) -> (outcome: Result<Message<Fields>, DecodeError>)
    ensures
        match outcome {
            Ok(message) => message_of(document@) == Ok::<MessageModel<Members>, DecodeError>(
                message@,
            ),
            Err(error) => message_of(document@) == Err::<MessageModel<Members>, DecodeError>(
                error,
            ),
        },
{
    let mut members = match document {
        Json::Object(members) => members,
        _ => { return Err(DecodeError::NotAnObject); },
    };
    proof {
        lemma_object_view(members);
    }
    let src = match text_member(&members, "src") {
        Some(src) => src,
        None => { return Err(DecodeError::Source); },
    };
    let dst = match text_member(&members, "dest") {
        Some(dst) => dst,
        None => { return Err(DecodeError::Destination); },
    };
    let mut body = match take(&mut members, "body") {
        Some(Json::Object(body)) => {
            proof {
                lemma_object_view(body);
            }
            body
        },
        _ => { return Err(DecodeError::Body); },
    };
    let id = match id_member(&body, "msg_id") {
        Some(id) => id,
        None => { return Err(DecodeError::MessageId); },
    };
    let in_reply_to = match id_member(&body, "in_reply_to") {
        Some(in_reply_to) => in_reply_to,
        None => { return Err(DecodeError::InReplyTo); },
    };
    let _ = take(&mut body, "msg_id");
    let _ = take(&mut body, "in_reply_to");
    Ok(Message { src, dst, body: Body { id, in_reply_to, payload: Fields(body) } })
}

/// Writes an envelope as a document.
pub fn encode_message(message: &Message<Fields>) -> (document: Json)
    ensures
        document@ == message_json(message@),
{
    let mut body = duplicate_members(&message.body.payload.0);
    body.push((String::from_str("msg_id"), id_value(message.body.id)));
    body.push((String::from_str("in_reply_to"), id_value(message.body.in_reply_to)));
    assert(members_view(body@) =~= body_members(message@.body));
    let mut members: Vec<(String, Json)> = Vec::new();
    members.push((String::from_str("src"), Json::String(message.src.clone())));
    members.push((String::from_str("dest"), Json::String(message.dst.clone())));
    proof {
        lemma_object_view(body);
    }
    members.push((String::from_str("body"), Json::Object(body)));
    proof {
        lemma_object_view(members);
        assert(members_view(members@) =~= message_json(message@)->Object_0);
    }
    Json::Object(members)
}

/// Reads an envelope from one line of input.
pub fn decode_line(line: &str) -> (outcome: Result<Message<Fields>, DecodeError>)
    ensures
        match outcome {
            Ok(message) => line_message(line@) == Ok::<MessageModel<Members>, DecodeError>(
                message@,
            ),
            Err(error) => line_message(line@) == Err::<MessageModel<Members>, DecodeError>(error),
        },
{
    match Json::parse(line) {
        Ok(document) => decode_message(document),
        Err(_) => Err(DecodeError::Syntax),
    }
}

/// Writes an envelope as one line of output, newline included. `None` where
/// serde_json refuses the document.
pub fn encode_line(message: &Message<Fields>) -> (line: Option<String>)
    ensures
        match line {
            Some(line) => message_line(message@) == Some(line@),
            None => message_line(message@) is None,
        },
{
    match encode_message(message).print() {
        Ok(text) => {
            let mut line = text;
            line.append("\n");
            Some(line)
        },
        Err(_) => None,
    }
}

} // verus!
