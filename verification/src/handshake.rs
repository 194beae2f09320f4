//! The handshake: the one exchange that tells a node who it is.
//!
//! The first inbound line must be an `init` request that carries the node's
//! identity and the roster. It is answered by one `init_ok` envelope with
//! `msg_id` 0, in reply to the request.

use crate::json::{
    find, lemma_array_view, lemma_position_is, lookup, members_view, Json, JsonModel, Members,
};
use crate::message::{Body, BodyModel, Init, InitModel, Message, MessageModel};
use crate::wire::{
    decode_line, encode_line, line_message, message_line, text_member, text_of, DecodeError,
    Fields,
};
use vstd::prelude::*;
use vstd::string::StringExecFns;

verus! {

/// The payloads of the handshake.
#[derive(Debug, Clone, PartialEq, Eq)]
pub enum InitPayload {
    Init(Init),
    InitOk,
}

/// The mathematical value of an [`InitPayload`].
pub ghost enum InitPayloadModel {
    Init(InitModel),
    InitOk,
}

impl View for InitPayload {
    type V = InitPayloadModel;

    open spec fn view(&self) -> InitPayloadModel {
        match self {
            InitPayload::Init(init) => InitPayloadModel::Init(init@),
            InitPayload::InitOk => InitPayloadModel::InitOk,
        }
    }
}

/// Why the handshake failed.
#[derive(Debug, Clone, Copy, PartialEq, Eq)]
pub enum InitError {
    /// The first line is not an envelope.
    Decode(DecodeError),
    /// The payload of the first envelope is no payload of the handshake.
    Payload,
    /// The first envelope is not an `init` request.
    NotInit,
    /// The acknowledgment could not be written as text.
    Encode,
}

/// A list of strings as documents.
pub open spec fn texts_json(texts: Seq<Seq<char>>) -> Seq<JsonModel> {
    Seq::new(texts.len(), |i: int| JsonModel::String(texts[i]))
}

/// The strings of a member that must be an array of strings.
pub open spec fn texts_of(value: Option<JsonModel>) -> Option<Seq<Seq<char>>> {
    match value {
        Some(JsonModel::Array(items)) => if forall|i: int|
            0 <= i < items.len() ==> (#[trigger] items[i]) is String {
            Some(Seq::new(items.len(), |i: int| items[i]->String_0))
        } else {
            None
        },
        _ => None,
    }
}

/// The members that carry a payload of the handshake, tagged by `type`.
pub open spec fn init_fields(payload: InitPayloadModel) -> Members {
    match payload {
        InitPayloadModel::Init(init) => seq![
            ("type"@, JsonModel::String("init"@)),
            ("node_id"@, JsonModel::String(init.node_id)),
            ("node_ids"@, JsonModel::Array(texts_json(init.node_ids))),
        ],
        InitPayloadModel::InitOk => seq![("type"@, JsonModel::String("init_ok"@))],
    }
}

/// The payload of the handshake that members stand for, if they stand for
/// one. Members that the payload does not name are passed over.
pub open spec fn init_of(fields: Members) -> Option<InitPayloadModel> {
    match text_of(lookup(fields, "type"@)) {
        Some(tag) => if tag == "init"@ {
            match text_of(lookup(fields, "node_id"@)) {
                Some(node_id) => match texts_of(lookup(fields, "node_ids"@)) {
                    Some(node_ids) => Some(
                        InitPayloadModel::Init(InitModel { node_id, node_ids }),
                    ),
                    None => None,
                },
                None => None,
            }
        } else if tag == "init_ok"@ {
            Some(InitPayloadModel::InitOk)
        } else {
            None
        },
        None => None,
    }
}

/// The acknowledgment of a request: back to its sender, `msg_id` 0, in reply
/// to the request's id.
pub open spec fn acknowledgment<P>(request: MessageModel<P>) -> MessageModel<InitPayloadModel> {
    MessageModel {
        src: request.dst,
        dst: request.src,
        body: BodyModel {
            id: Some(0usize),
            in_reply_to: request.body.id,
            payload: InitPayloadModel::InitOk,
        },
    }
}

/// An envelope of the handshake with its payload as members.
pub open spec fn on_the_wire(message: MessageModel<InitPayloadModel>) -> MessageModel<Members> {
    MessageModel {
        src: message.src,
        dst: message.dst,
        body: BodyModel {
            id: message.body.id,
            in_reply_to: message.body.in_reply_to,
            payload: init_fields(message.body.payload),
        },
    }
}

/// What the handshake makes of the first line: what the node is told and the
/// line that acknowledges it, or the failure.
pub open spec fn init_outcome(line: Seq<char>) -> Result<(InitModel, Seq<char>), InitError> {
    match line_message(line) {
        Err(error) => Err(InitError::Decode(error)),
        Ok(request) => match init_of(request.body.payload) {
            None => Err(InitError::Payload),
            Some(InitPayloadModel::InitOk) => Err(InitError::NotInit),
            Some(InitPayloadModel::Init(init)) => match message_line(
                on_the_wire(acknowledgment(request)),
            ) {
                None => Err(InitError::Encode),
                Some(reply) => Ok((init, reply)),
            },
        },
    }
}

/// The names of the handshake differ from one another.
pub proof fn lemma_init_names_differ()
    ensures
        "type"@ != "node_id"@,
        "type"@ != "node_ids"@,
        "node_id"@ != "node_ids"@,
        "init"@ != "init_ok"@,
{
    reveal_strlit("type");
    reveal_strlit("node_id");
    reveal_strlit("node_ids");
    reveal_strlit("init");
    reveal_strlit("init_ok");
    assert("type"@.len() == 4);
    assert("node_id"@.len() == 7);
    assert("node_ids"@.len() == 8);
    assert("init"@.len() == 4);
    assert("init_ok"@.len() == 7);
}

/// Reading the members that carry a payload of the handshake gives the
/// payload back.
pub proof fn lemma_init_round_trip(payload: InitPayloadModel)
    ensures
        init_of(init_fields(payload)) == Some(payload),
{
    lemma_init_names_differ();
    let fields = init_fields(payload);
    lemma_position_is(fields, "type"@, 0);
    match payload {
        InitPayloadModel::Init(init) => {
            lemma_position_is(fields, "node_id"@, 1);
            lemma_position_is(fields, "node_ids"@, 2);
            let items = texts_json(init.node_ids);
            assert(texts_of(Some(JsonModel::Array(items)))->0 =~= init.node_ids);
        },
        InitPayloadModel::InitOk => {},
    }
}

/// The strings of the first member under `key`, where that member is an array
/// of strings.
fn texts_member(members: &Vec<(String, Json)>, key: &str) -> (texts: Option<Vec<String>>)
    ensures
        match texts {
            Some(texts) => texts_of(lookup(members_view(members@), key@)) == Some(
                Seq::new(texts@.len(), |i: int| texts@[i]@),
            ),
            None => texts_of(lookup(members_view(members@), key@)) is None,
        },
{
    let i = match find(members, key) {
        Some(i) => i,
        None => { return None; },
    };
    let items = match &members[i].1 {
        Json::Array(items) => items,
        _ => { return None; },
    };
    proof {
        lemma_array_view(*items);
    }
    let ghost model = members[i as int].1@->Array_0;
    let mut texts: Vec<String> = Vec::new();
    let mut j: usize = 0;
    while j < items.len()
        invariant
            j <= items.len(),
            texts@.len() == j,
            model.len() == items@.len(),
            lookup(members_view(members@), key@) == Some(JsonModel::Array(model)),
            forall|k: int| 0 <= k < items@.len() ==> (#[trigger] model[k]) == items@[k]@,
            forall|k: int| 0 <= k < j ==> (#[trigger] model[k]) == JsonModel::String(texts@[k]@),
        decreases items.len() - j,
    {
        match &items[j] {
            Json::String(text) => {
                texts.push(text.clone());
            },
            _ => {
                assert(!(model[j as int] is String));
                return None;
            },
        }
        j = j + 1;
    }
    assert(texts_of(Some(JsonModel::Array(model)))->0 =~= Seq::new(
        texts@.len(),
        |i: int| texts@[i]@,
    ));
    Some(texts)
}

impl InitPayload {
    /// Reads a payload of the handshake from the members of a body.
    pub fn from_fields(fields: &Fields) -> (payload: Option<InitPayload>)
        ensures
            match payload {
                Some(payload) => init_of(fields@) == Some(payload@),
                None => init_of(fields@) is None,
            },
    {
        let tag = match text_member(&fields.0, "type") {
            Some(tag) => tag,
            None => { return None; },
        };
        if tag == String::from_str("init") {
            let node_id = match text_member(&fields.0, "node_id") {
                Some(node_id) => node_id,
                None => { return None; },
            };
            let node_ids = match texts_member(&fields.0, "node_ids") {
                Some(node_ids) => node_ids,
                None => { return None; },
            };
            Some(InitPayload::Init(Init { node_id, node_ids }))
        } else if tag == String::from_str("init_ok") {
            Some(InitPayload::InitOk)
        } else {
            None
        }
    }

    /// Writes a payload of the handshake as the members of a body.
    pub fn to_fields(&self) -> (fields: Fields)
        ensures
            fields@ == init_fields(self@),
    {
        let mut members: Vec<(String, Json)> = Vec::new();
        match self {
            InitPayload::Init(init) => {
                let mut items: Vec<Json> = Vec::new();
                let mut i: usize = 0;
                while i < init.node_ids.len()
                    invariant
                        i <= init.node_ids.len(),
                        items@.len() == i,
                        forall|k: int|
                            0 <= k < i ==> (#[trigger] items@[k])@ == JsonModel::String(
                                init.node_ids@[k]@,
                            ),
                    decreases init.node_ids.len() - i,
                {
                    items.push(Json::String(init.node_ids[i].clone()));
                    i = i + 1;
                }
                proof {
                    lemma_array_view(items);
                    assert(Json::Array(items)@->Array_0 =~= texts_json(init@.node_ids));
                }
                members.push((String::from_str("type"), Json::String(String::from_str("init"))));
                members.push((String::from_str("node_id"), Json::String(init.node_id.clone())));
                members.push((String::from_str("node_ids"), Json::Array(items)));
            },
            InitPayload::InitOk => {
                members.push(
                    (String::from_str("type"), Json::String(String::from_str("init_ok"))),
                );
            },
        }
        assert(members_view(members@) =~= init_fields(self@));
        Fields(members)
    }
}

/// Answers an `init` request: what the node is told, and the acknowledgment
/// to send. Any other payload is refused.
pub fn acknowledge(request: Message<InitPayload>) -> (outcome: Result<
    (Init, Message<InitPayload>),
    InitError,
>)
    ensures
        match outcome {
            Ok((init, reply)) => request@.body.payload == InitPayloadModel::Init(init@) && reply@
                == acknowledgment(request@),
            Err(error) => error == InitError::NotInit && request@.body.payload
                == InitPayloadModel::InitOk,
        },
{
    match request.body.payload {
        InitPayload::Init(init) => {
            let reply = Message {
                src: request.dst,
                dst: request.src,
                body: Body {
                    id: Some(0),
                    in_reply_to: request.body.id,
                    payload: InitPayload::InitOk,
                },
            };
            Ok((init, reply))
        },
        InitPayload::InitOk => Err(InitError::NotInit),
    }
}

/// Performs the handshake on the first line of input: returns what the node
/// is told and the line to write back, newline included. Nothing is to be
/// written where it fails.
pub fn run_init(line: &str) -> (outcome: Result<(Init, String), InitError>)
    ensures
        match outcome {
            Ok((init, reply)) => init_outcome(line@) == Ok::<(InitModel, Seq<char>), InitError>(
                (init@, reply@),
            ),
            Err(error) => init_outcome(line@) == Err::<(InitModel, Seq<char>), InitError>(error),
        },
{
    let request = match decode_line(line) {
        Ok(request) => request,
        Err(error) => { return Err(InitError::Decode(error)); },
    };
    let payload = match InitPayload::from_fields(&request.body.payload) {
        Some(payload) => payload,
        None => { return Err(InitError::Payload); },
    };
    let typed = Message {
        src: request.src,
        dst: request.dst,
        body: Body { id: request.body.id, in_reply_to: request.body.in_reply_to, payload },
    };
    let (init, reply) = match acknowledge(typed) {
        Ok(answer) => answer,
        Err(error) => { return Err(error); },
    };
    let raw = Message {
        src: reply.src,
        dst: reply.dst,
        body: Body {
            id: reply.body.id,
            in_reply_to: reply.body.in_reply_to,
            payload: reply.body.payload.to_fields(),
        },
    };
    match encode_line(&raw) {
        Some(line) => Ok((init, line)),
        None => Err(InitError::Encode),
    }
}

} // verus!
