//! A grow-only counter: a node that keeps its count in the `seq-kv` store.
//!
//! The node answers `add` at once and saves to the store. To answer `read` it
//! first asks the store, and answers with what the store replies. This module
//! holds the vocabulary of the protocol and the node's decisions; the host
//! sends what is decided and waits for the store.

use crate::json::{lemma_position_is, lookup, members_view, Json, JsonModel, Members};
use crate::message::{Body, BodyModel, Event, Init, Message, MessageModel};
use crate::wire::{number_member, number_of, text_member, text_of, Fields};
use vstd::prelude::*;
use vstd::string::StringExecFns;

verus! {

/// The value that the node saves to the store.
pub const SAVED_VALUE: usize = 998877;

/// The messages of the counter protocol, and those of the store.
#[derive(Debug, Clone, PartialEq, Eq)]
pub enum Payload {
    Add { delta: usize },
    AddOk,
    Read,
    ReadOk { value: usize },
    ReadKV { key: String },
    Write { key: String, value: usize },
    WriteOk,
    Error { code: usize, text: String },
}

/// The mathematical value of a [`Payload`].
pub ghost enum PayloadModel {
    Add { delta: usize },
    AddOk,
    Read,
    ReadOk { value: usize },
    ReadKV { key: Seq<char> },
    Write { key: Seq<char>, value: usize },
    WriteOk,
    Error { code: usize, text: Seq<char> },
}

impl View for Payload {
    type V = PayloadModel;

    open spec fn view(&self) -> PayloadModel {
        match self {
            Payload::Add { delta } => PayloadModel::Add { delta: *delta },
            Payload::AddOk => PayloadModel::AddOk,
            Payload::Read => PayloadModel::Read,
            Payload::ReadOk { value } => PayloadModel::ReadOk { value: *value },
            Payload::ReadKV { key } => PayloadModel::ReadKV { key: key@ },
            Payload::Write { key, value } => PayloadModel::Write { key: key@, value: *value },
            Payload::WriteOk => PayloadModel::WriteOk,
            Payload::Error { code, text } => PayloadModel::Error { code: *code, text: text@ },
        }
    }
}

/// How a number is written.
pub open spec fn number_json(number: usize) -> JsonModel {
    JsonModel::Unsigned(number as u64)
}

/// The members that carry a payload, tagged by `type`. A request to the store
/// for a key is tagged `read`, as a request to the node for its count is.
pub open spec fn payload_fields(payload: PayloadModel) -> Members {
    match payload {
        PayloadModel::Add { delta } => seq![
            ("type"@, JsonModel::String("add"@)),
            ("delta"@, number_json(delta)),
        ],
        PayloadModel::AddOk => seq![("type"@, JsonModel::String("add_ok"@))],
        PayloadModel::Read => seq![("type"@, JsonModel::String("read"@))],
        PayloadModel::ReadOk { value } => seq![
            ("type"@, JsonModel::String("read_ok"@)),
            ("value"@, number_json(value)),
        ],
        PayloadModel::ReadKV { key } => seq![
            ("type"@, JsonModel::String("read"@)),
            ("key"@, JsonModel::String(key)),
        ],
        PayloadModel::Write { key, value } => seq![
            ("type"@, JsonModel::String("write"@)),
            ("key"@, JsonModel::String(key)),
            ("value"@, number_json(value)),
        ],
        PayloadModel::WriteOk => seq![("type"@, JsonModel::String("write_ok"@))],
        PayloadModel::Error { code, text } => seq![
            ("type"@, JsonModel::String("error"@)),
            ("code"@, number_json(code)),
            ("text"@, JsonModel::String(text)),
        ],
    }
}

/// The payload that members stand for, if they stand for one. Members that
/// the payload does not name are passed over, so `read` is always a request
/// for the count.
pub open spec fn fields_payload(fields: Members) -> Option<PayloadModel> {
    match text_of(lookup(fields, "type"@)) {
        None => None,
        Some(tag) => if tag == "add"@ {
            match number_of(lookup(fields, "delta"@)) {
                Some(delta) => Some(PayloadModel::Add { delta }),
                None => None,
            }
        } else if tag == "add_ok"@ {
            Some(PayloadModel::AddOk)
        } else if tag == "read"@ {
            Some(PayloadModel::Read)
        } else if tag == "read_ok"@ {
            match number_of(lookup(fields, "value"@)) {
                Some(value) => Some(PayloadModel::ReadOk { value }),
                None => None,
            }
        } else if tag == "write"@ {
            match text_of(lookup(fields, "key"@)) {
                Some(key) => match number_of(lookup(fields, "value"@)) {
                    Some(value) => Some(PayloadModel::Write { key, value }),
                    None => None,
                },
                None => None,
            }
        } else if tag == "write_ok"@ {
            Some(PayloadModel::WriteOk)
        } else if tag == "error"@ {
            match number_of(lookup(fields, "code"@)) {
                Some(code) => match text_of(lookup(fields, "text"@)) {
                    Some(text) => Some(PayloadModel::Error { code, text }),
                    None => None,
                },
                None => None,
            }
        } else {
            None
        },
    }
}

/// The names of the protocol are what they are spelled as.
pub proof fn lemma_spelling()
    ensures
        "type"@.len() == 4,
        "delta"@.len() == 5,
        "value"@.len() == 5,
        "key"@.len() == 3,
        "code"@.len() == 4,
        "text"@.len() == 4,
        "type"@[0] == 't',
        "type"@[1] == 'y',
        "text"@[0] == 't',
        "delta"@[0] == 'd',
        "value"@[0] == 'v',
        "code"@[0] == 'c',
        "text"@[1] == 'e',
        "add"@.len() == 3,
        "add_ok"@.len() == 6,
        "read"@.len() == 4,
        "read_ok"@.len() == 7,
        "write"@.len() == 5,
        "write_ok"@.len() == 8,
        "error"@.len() == 5,
        "write"@[0] == 'w',
        "error"@[0] == 'e',
{
    reveal_strlit("type");
    reveal_strlit("delta");
    reveal_strlit("value");
    reveal_strlit("key");
    reveal_strlit("code");
    reveal_strlit("text");
    reveal_strlit("add");
    reveal_strlit("add_ok");
    reveal_strlit("read");
    reveal_strlit("read_ok");
    reveal_strlit("write");
    reveal_strlit("write_ok");
    reveal_strlit("error");
}

/// Reading the members that carry a payload gives the payload back, but for
/// a request to the store for a key, which reads as a request for the count.
pub proof fn lemma_payload_round_trip(payload: PayloadModel)
    ensures
        fields_payload(payload_fields(payload)) == Some(
            match payload {
                PayloadModel::ReadKV { key } => PayloadModel::Read,
                other => other,
            },
        ),
{
    lemma_spelling();
    let fields = payload_fields(payload);
    lemma_position_is(fields, "type"@, 0);
    match payload {
        PayloadModel::Add { delta } => {
            lemma_position_is(fields, "delta"@, 1);
        },
        PayloadModel::ReadOk { value } => {
            lemma_position_is(fields, "value"@, 1);
        },
        PayloadModel::Write { key, value } => {
            lemma_position_is(fields, "key"@, 1);
            lemma_position_is(fields, "value"@, 2);
        },
        PayloadModel::Error { code, text } => {
            lemma_position_is(fields, "code"@, 1);
            lemma_position_is(fields, "text"@, 2);
        },
        _ => {},
    }
}

/// A member that holds a string.
fn text_entry(key: &str, text: &String) -> (entry: (String, Json))
    ensures
        entry.0@ == key@,
        entry.1@ == JsonModel::String(text@),
{
    (String::from_str(key), Json::String(text.clone()))
}

/// A member that holds the tag of a payload.
fn tag_entry(tag: &str) -> (entry: (String, Json))
    ensures
        entry.0@ == "type"@,
        entry.1@ == JsonModel::String(tag@),
{
    (String::from_str("type"), Json::String(String::from_str(tag)))
}

/// A member that holds a number.
fn number_entry(key: &str, number: usize) -> (entry: (String, Json))
    ensures
        entry.0@ == key@,
        entry.1@ == number_json(number),
{
    (String::from_str(key), Json::Unsigned(number as u64))
}

impl Payload {
    /// Writes the payload as the members of a body.
    pub fn to_fields(&self) -> (fields: Fields)
        ensures
            fields@ == payload_fields(self@),
    {
        let mut members: Vec<(String, Json)> = Vec::new();
        match self {
            Payload::Add { delta } => {
                members.push(tag_entry("add"));
                members.push(number_entry("delta", *delta));
            },
            Payload::AddOk => {
                members.push(tag_entry("add_ok"));
            },
            Payload::Read => {
                members.push(tag_entry("read"));
            },
            Payload::ReadOk { value } => {
                members.push(tag_entry("read_ok"));
                members.push(number_entry("value", *value));
            },
            Payload::ReadKV { key } => {
                members.push(tag_entry("read"));
                members.push(text_entry("key", key));
            },
            Payload::Write { key, value } => {
                members.push(tag_entry("write"));
                members.push(text_entry("key", key));
                members.push(number_entry("value", *value));
            },
            Payload::WriteOk => {
                members.push(tag_entry("write_ok"));
            },
            Payload::Error { code, text } => {
                members.push(tag_entry("error"));
                members.push(number_entry("code", *code));
                members.push(text_entry("text", text));
            },
        }
        assert(members_view(members@) =~= payload_fields(self@));
        Fields(members)
    }

    /// Reads a payload from the members of a body.
    pub fn from_fields(fields: &Fields) -> (payload: Option<Payload>)
        ensures
            match payload {
                Some(payload) => fields_payload(fields@) == Some(payload@),
                None => fields_payload(fields@) is None,
            },
    {
        let tag = match text_member(&fields.0, "type") {
            Some(tag) => tag,
            None => { return None; },
        };
        if tag == String::from_str("add") {
            match number_member(&fields.0, "delta") {
                Some(delta) => Some(Payload::Add { delta }),
                None => None,
            }
        } else if tag == String::from_str("add_ok") {
            Some(Payload::AddOk)
        } else if tag == String::from_str("read") {
            Some(Payload::Read)
        } else if tag == String::from_str("read_ok") {
            match number_member(&fields.0, "value") {
                Some(value) => Some(Payload::ReadOk { value }),
                None => None,
            }
        } else if tag == String::from_str("write") {
            let key = match text_member(&fields.0, "key") {
                Some(key) => key,
                None => { return None; },
            };
            match number_member(&fields.0, "value") {
                Some(value) => Some(Payload::Write { key, value }),
                None => None,
            }
        } else if tag == String::from_str("write_ok") {
            Some(Payload::WriteOk)
        } else if tag == String::from_str("error") {
            let code = match number_member(&fields.0, "code") {
                Some(code) => code,
                None => { return None; },
            };
            match text_member(&fields.0, "text") {
                Some(text) => Some(Payload::Error { code, text }),
                None => None,
            }
        } else {
            None
        }
    }
}

/// An envelope of the protocol with its payload as members.
pub open spec fn on_the_wire(message: MessageModel<PayloadModel>) -> MessageModel<Members> {
    MessageModel {
        src: message.src,
        dst: message.dst,
        body: BodyModel {
            id: message.body.id,
            in_reply_to: message.body.in_reply_to,
            payload: payload_fields(message.body.payload),
        },
    }
}

/// The envelope of the protocol that an envelope off the wire stands for.
pub open spec fn off_the_wire(message: MessageModel<Members>) -> Option<
    MessageModel<PayloadModel>,
> {
    match fields_payload(message.body.payload) {
        Some(payload) => Some(
            MessageModel {
                src: message.src,
                dst: message.dst,
                body: BodyModel {
                    id: message.body.id,
                    in_reply_to: message.body.in_reply_to,
                    payload,
                },
            },
        ),
        None => None,
    }
}

/// Gives an envelope of the protocol its wire payload.
pub fn to_wire(message: &Message<Payload>) -> (raw: Message<Fields>)
    ensures
        raw@ == on_the_wire(message@),
{
    Message {
        src: message.src.clone(),
        dst: message.dst.clone(),
        body: Body {
            id: message.body.id,
            in_reply_to: message.body.in_reply_to,
            payload: message.body.payload.to_fields(),
        },
    }
}

/// Reads the payload of an envelope off the wire. `None` where its members
/// stand for no payload of the protocol.
pub fn from_wire(message: Message<Fields>) -> (typed: Option<Message<Payload>>)
    ensures
        match typed {
            Some(typed) => off_the_wire(message@) == Some(typed@),
            None => off_the_wire(message@) is None,
        },
{
    match Payload::from_fields(&message.body.payload) {
        Some(payload) => Some(
            Message {
                src: message.src,
                dst: message.dst,
                body: Body {
                    id: message.body.id,
                    in_reply_to: message.body.in_reply_to,
                    payload,
                },
            },
        ),
        None => None,
    }
}

/// What the node decides on one message.
#[derive(Debug, Clone, PartialEq, Eq)]
pub enum Reaction {
    /// Nothing is sent.
    Nothing,
    /// An `add` is acknowledged with `reply`, then `save` goes to the store.
    Send { reply: Message<Payload>, save: Message<Payload> },
    /// A `read` asks the store with `request`, which awaits its reply. Once
    /// the store has replied, `answer` is completed and sent.
    Ask { request: Message<Payload>, answer: Message<Payload> },
}

/// The mathematical value of a [`Reaction`].
pub ghost enum ReactionModel {
    Nothing,
    Send { reply: MessageModel<PayloadModel>, save: MessageModel<PayloadModel> },
    Ask { request: MessageModel<PayloadModel>, answer: MessageModel<PayloadModel> },
}

impl View for Reaction {
    type V = ReactionModel;

    open spec fn view(&self) -> ReactionModel {
        match self {
            Reaction::Nothing => ReactionModel::Nothing,
            Reaction::Send { reply, save } => ReactionModel::Send { reply: reply@, save: save@ },
            Reaction::Ask { request, answer } => ReactionModel::Ask {
                request: request@,
                answer: answer@,
            },
        }
    }
}

/// A message from `node` to the store, numbered `id`.
pub open spec fn to_store(node: Seq<char>, id: usize, payload: PayloadModel) -> MessageModel<
    PayloadModel,
> {
    MessageModel {
        src: node,
        dst: "seq-kv"@,
        body: BodyModel { id: Some(id), in_reply_to: None, payload },
    }
}

/// The reply to `input`, numbered `id`, with `payload`.
pub open spec fn answer_to(
    input: MessageModel<PayloadModel>,
    id: usize,
    payload: PayloadModel,
) -> MessageModel<PayloadModel> {
    MessageModel {
        src: input.dst,
        dst: input.src,
        body: BodyModel { id: Some(id), in_reply_to: input.body.id, payload },
    }
}

/// What a node named `node`, whose next id is `id`, decides on `input`.
pub open spec fn reaction(node: Seq<char>, id: usize, input: MessageModel<PayloadModel>)
    -> ReactionModel {
    match input.body.payload {
        PayloadModel::Add { delta } => ReactionModel::Send {
            reply: answer_to(input, id, PayloadModel::AddOk),
            save: to_store(
                node,
                (id + 1) as usize,
                PayloadModel::Write { key: "counter"@, value: SAVED_VALUE },
            ),
        },
        PayloadModel::Read => ReactionModel::Ask {
            request: to_store(node, (id + 1) as usize, PayloadModel::ReadKV { key: "counter"@ }),
            answer: answer_to(input, id, PayloadModel::Read),
        },
        _ => ReactionModel::Nothing,
    }
}

/// The ids that a node uses up on `input`: one for the reply, and one more
/// for what it sends to the store.
pub open spec fn ids_used(input: MessageModel<PayloadModel>) -> int {
    match input.body.payload {
        PayloadModel::Add { delta } => 2,
        PayloadModel::Read => 2,
        _ => 1,
    }
}

/// The count that the store's reply reports: its value, or 0 where the reply
/// is anything but `read_ok`.
pub open spec fn count_in(result: PayloadModel) -> usize {
    match result {
        PayloadModel::ReadOk { value } => value,
        _ => 0,
    }
}

/// Why the node cannot react to an event.
#[derive(Debug, Clone, Copy, PartialEq, Eq)]
pub enum Violation {
    /// An injected event reached the node, which asks for none.
    Injected,
    /// The store's error reached the node as an event, not as a reply.
    StoreError,
    /// The node has no ids left.
    IdsExhausted,
}

/// The node: its name, and the id of the next message that it sends.
#[derive(Debug, Clone, PartialEq, Eq)]
pub struct GCounterNode {
    pub node: String,
    pub id: usize,
}

impl GCounterNode {
    /// The node as the handshake names it; its first message has id 1.
    pub fn from_init(init: Init) -> (node: Self)
        ensures
            node.node == init.node_id,
            node.id == 1,
    {
        GCounterNode { node: init.node_id, id: 1 }
    }

    /// Decides what to do on one message from a peer.
    pub fn react(&mut self, input: Message<Payload>) -> (decided: Reaction)
        requires
            !(input.body.payload is Error),
            old(self).id + ids_used(input@) <= usize::MAX,
        ensures
            decided@ == reaction(old(self).node@, old(self).id, input@),
            final(self).node == old(self).node,
            final(self).id == old(self).id + ids_used(input@),
    {
        let mut reply = input.into_reply(Some(&mut self.id));
        match reply.body.payload {
            Payload::Add { delta: _ } => {
                reply.body.payload = Payload::AddOk;
                let save = Message {
                    src: self.node.clone(),
                    dst: String::from_str("seq-kv"),
                    body: Body {
                        id: Some(self.id),
                        in_reply_to: None,
                        payload: Payload::Write {
                            key: String::from_str("counter"),
                            value: SAVED_VALUE,
                        },
                    },
                };
                self.id = self.id + 1;
                Reaction::Send { reply, save }
            },
            Payload::Read => {
                let request = Message {
                    src: self.node.clone(),
                    dst: String::from_str("seq-kv"),
                    body: Body {
                        id: Some(self.id),
                        in_reply_to: None,
                        payload: Payload::ReadKV { key: String::from_str("counter") },
                    },
                };
                self.id = self.id + 1;
                Reaction::Ask { request, answer: reply }
            },
            _ => Reaction::Nothing,
        }
    }

    /// Decides what to do on one event. A message from a peer is reacted to;
    /// the end of input asks for nothing. An injected event, an error of the
    /// store, or a message for which no ids are left is a violation, and
    /// leaves the node as it was.
    pub fn step(&mut self, input: Event<Payload>) -> (decided: Result<Reaction, Violation>)
        ensures
            final(self).node == old(self).node,
            match input {
                Event::Message(message) => if message.body.payload is Error {
                    &&& decided == Err::<Reaction, Violation>(Violation::StoreError)
                    &&& final(self).id == old(self).id
                } else if old(self).id + ids_used(message@) > usize::MAX {
                    &&& decided == Err::<Reaction, Violation>(Violation::IdsExhausted)
                    &&& final(self).id == old(self).id
                } else {
                    &&& decided matches Ok(chosen) && chosen@ == reaction(
                        old(self).node@,
                        old(self).id,
                        message@,
                    )
                    &&& final(self).id == old(self).id + ids_used(message@)
                },
                Event::Injected(_) => {
                    &&& decided == Err::<Reaction, Violation>(Violation::Injected)
                    &&& final(self).id == old(self).id
                },
                Event::EOF => {
                    &&& decided == Ok::<Reaction, Violation>(Reaction::Nothing)
                    &&& final(self).id == old(self).id
                },
            },
    {
        match input {
            Event::Message(message) => {
                let needed: usize = match &message.body.payload {
                    Payload::Error { code: _, text: _ } => {
                        return Err(Violation::StoreError);
                    },
                    Payload::Add { delta: _ } => 2,
                    Payload::Read => 2,
                    _ => 1,
                };
                if self.id > usize::MAX - needed {
                    return Err(Violation::IdsExhausted);
                }
                Ok(self.react(message))
            },
            Event::Injected(_) => Err(Violation::Injected),
            Event::EOF => Ok(Reaction::Nothing),
        }
    }

    /// Completes the answer to a `read` with the count that the store
    /// reported.
    pub fn answer_read(answer: Message<Payload>, result: &Message<Payload>) -> (reply: Message<
        Payload,
    >)
        ensures
            reply.src == answer.src,
            reply.dst == answer.dst,
            reply.body.id == answer.body.id,
            reply.body.in_reply_to == answer.body.in_reply_to,
            reply.body.payload == (Payload::ReadOk { value: count_in(result@.body.payload) }),
    {
        let value = match result.body.payload {
            Payload::ReadOk { value } => value,
            _ => 0,
        };
        let mut reply = answer;
        reply.body.payload = Payload::ReadOk { value };
        reply
    }
}

} // verus!
