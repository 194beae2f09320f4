use rustengan::gcounter::{
    from_wire, to_wire, GCounterNode, Payload, Reaction, Violation, SAVED_VALUE,
};
use rustengan::{decode_line, encode_line, Body, Event, Fields, Init, Json, Message};

fn text(s: &str) -> Json {
    Json::String(s.to_string())
}

fn member(key: &str, value: Json) -> (String, Json) {
    (key.to_string(), value)
}

fn from_client(id: Option<usize>, payload: Payload) -> Message<Payload> {
    Message {
        src: "c3".to_string(),
        dst: "n1".to_string(),
        body: Body { id, in_reply_to: None, payload },
    }
}

fn node(id: usize) -> GCounterNode {
    GCounterNode { node: "n1".to_string(), id }
}

fn all_payloads() -> Vec<Payload> {
    vec![
        Payload::Add { delta: 3 },
        Payload::AddOk,
        Payload::Read,
        Payload::ReadOk { value: 0 },
        Payload::ReadKV { key: "counter".to_string() },
        Payload::Write { key: "counter".to_string(), value: usize::MAX },
        Payload::WriteOk,
        Payload::Error { code: 20, text: "key does not exist".to_string() },
    ]
}

#[test]
fn payloads_are_written_with_their_tags() {
    let written: Vec<Fields> = all_payloads().iter().map(|p| p.to_fields()).collect();
    let expected = vec![
        Fields(vec![member("type", text("add")), member("delta", Json::Unsigned(3))]),
        Fields(vec![member("type", text("add_ok"))]),
        Fields(vec![member("type", text("read"))]),
        Fields(vec![member("type", text("read_ok")), member("value", Json::Unsigned(0))]),
        Fields(vec![member("type", text("read")), member("key", text("counter"))]),
        Fields(vec![
            member("type", text("write")),
            member("key", text("counter")),
            member("value", Json::Unsigned(u64::MAX)),
        ]),
        Fields(vec![member("type", text("write_ok"))]),
        Fields(vec![
            member("type", text("error")),
            member("code", Json::Unsigned(20)),
            member("text", text("key does not exist")),
        ]),
    ];
    assert_eq!(written, expected);
}

#[test]
fn payloads_survive_their_own_encoding_but_for_the_store_read() {
    for payload in all_payloads() {
        let expected = match &payload {
            Payload::ReadKV { .. } => Payload::Read,
            other => other.clone(),
        };
        assert_eq!(Payload::from_fields(&payload.to_fields()), Some(expected));
    }
}

#[test]
fn payloads_with_missing_or_wrong_members_are_refused() {
    let refused = vec![
        Fields(vec![]),
        Fields(vec![member("type", text("increment"))]),
        Fields(vec![member("type", Json::Unsigned(1))]),
        Fields(vec![member("type", text("add"))]),
        Fields(vec![member("type", text("add")), member("delta", text("3"))]),
        Fields(vec![member("type", text("add")), member("delta", Json::Null)]),
        Fields(vec![
            member("type", text("add")),
            member("delta", Json::Number(serde_json::Number::from(-1i64))),
        ]),
        Fields(vec![member("type", text("read_ok"))]),
        Fields(vec![member("type", text("write")), member("key", text("k"))]),
        Fields(vec![member("type", text("write")), member("value", Json::Unsigned(1))]),
        Fields(vec![member("type", text("error")), member("code", Json::Unsigned(1))]),
        Fields(vec![member("type", text("error")), member("text", text("t"))]),
    ];
    for fields in refused {
        assert_eq!(Payload::from_fields(&fields), None);
    }
}

#[test]
fn payloads_pass_over_members_they_do_not_name() {
    let fields = Fields(vec![
        member("value", Json::Unsigned(8)),
        member("note", text("x")),
        member("type", text("read_ok")),
    ]);
    assert_eq!(Payload::from_fields(&fields), Some(Payload::ReadOk { value: 8 }));
}

#[test]
fn envelopes_of_the_protocol_go_through_the_wire() {
    let message = Message {
        src: "n1".to_string(),
        dst: "seq-kv".to_string(),
        body: Body {
            id: Some(2),
            in_reply_to: None,
            payload: Payload::Write { key: "counter".to_string(), value: 12 },
        },
    };
    let line = encode_line(&to_wire(&message)).unwrap();
    assert_eq!(
        line,
        "{\"src\":\"n1\",\"dest\":\"seq-kv\",\"body\":{\"type\":\"write\",\"key\":\"counter\",\"value\":12,\"msg_id\":2,\"in_reply_to\":null}}\n"
    );
    assert_eq!(from_wire(decode_line(&line).unwrap()), Some(message));
}

#[test]
fn an_envelope_of_another_protocol_is_refused() {
    let raw = decode_line(r#"{"src":"c1","dest":"n1","body":{"type":"echo","echo":"x"}}"#).unwrap();
    assert_eq!(from_wire(raw), None);
}

#[test]
fn the_node_starts_with_id_one() {
    let init = Init { node_id: "n4".to_string(), node_ids: vec!["n4".to_string()] };
    assert_eq!(GCounterNode::from_init(init), GCounterNode { node: "n4".to_string(), id: 1 });
}

#[test]
fn add_is_acknowledged_and_saved() {
    let mut counter = node(1);
    let decided = counter.react(from_client(Some(10), Payload::Add { delta: 5 }));
    let reply = Message {
        src: "n1".to_string(),
        dst: "c3".to_string(),
        body: Body { id: Some(1), in_reply_to: Some(10), payload: Payload::AddOk },
    };
    let save = Message {
        src: "n1".to_string(),
        dst: "seq-kv".to_string(),
        body: Body {
            id: Some(2),
            in_reply_to: None,
            payload: Payload::Write { key: "counter".to_string(), value: 998877 },
        },
    };
    assert_eq!(SAVED_VALUE, 998877);
    assert_eq!(decided, Reaction::Send { reply, save });
    assert_eq!(counter, node(3));
}

#[test]
fn read_asks_the_store_first() {
    let mut counter = node(7);
    let decided = counter.react(from_client(Some(4), Payload::Read));
    let request = Message {
        src: "n1".to_string(),
        dst: "seq-kv".to_string(),
        body: Body {
            id: Some(8),
            in_reply_to: None,
            payload: Payload::ReadKV { key: "counter".to_string() },
        },
    };
    let answer = Message {
        src: "n1".to_string(),
        dst: "c3".to_string(),
        body: Body { id: Some(7), in_reply_to: Some(4), payload: Payload::Read },
    };
    assert_eq!(decided, Reaction::Ask { request, answer });
    assert_eq!(counter, node(9));
}

#[test]
fn other_messages_use_up_an_id_and_send_nothing() {
    let quiet = vec![
        Payload::AddOk,
        Payload::ReadOk { value: 1 },
        Payload::ReadKV { key: "k".to_string() },
        Payload::Write { key: "k".to_string(), value: 1 },
        Payload::WriteOk,
    ];
    let mut counter = node(1);
    let mut expected_id = 1;
    for payload in quiet {
        assert_eq!(counter.react(from_client(None, payload)), Reaction::Nothing);
        expected_id += 1;
        assert_eq!(counter, node(expected_id));
    }
}

#[test]
fn the_answer_to_read_reports_what_the_store_replied() {
    let answer = Message {
        src: "n1".to_string(),
        dst: "c3".to_string(),
        body: Body { id: Some(7), in_reply_to: Some(4), payload: Payload::Read },
    };
    let from_store = |payload: Payload| Message {
        src: "seq-kv".to_string(),
        dst: "n1".to_string(),
        body: Body { id: None, in_reply_to: Some(8), payload },
    };
    let with = |value: usize| Message {
        src: "n1".to_string(),
        dst: "c3".to_string(),
        body: Body { id: Some(7), in_reply_to: Some(4), payload: Payload::ReadOk { value } },
    };
    assert_eq!(
        GCounterNode::answer_read(answer.clone(), &from_store(Payload::ReadOk { value: 31 })),
        with(31)
    );
    assert_eq!(
        GCounterNode::answer_read(
            answer.clone(),
            &from_store(Payload::Error { code: 20, text: "key does not exist".to_string() })
        ),
        with(0)
    );
    assert_eq!(GCounterNode::answer_read(answer, &from_store(Payload::WriteOk)), with(0));
}

#[test]
fn step_reacts_to_a_message_as_react_does() {
    let mut stepped = node(3);
    let mut reacted = node(3);
    let message = from_client(Some(1), Payload::Add { delta: 1 });
    assert_eq!(stepped.step(Event::Message(message.clone())), Ok(reacted.react(message)));
    assert_eq!(stepped, reacted);
    assert_eq!(stepped, node(5));
}

#[test]
fn step_asks_for_nothing_at_the_end_of_input() {
    let mut counter = node(3);
    assert_eq!(counter.step(Event::EOF), Ok(Reaction::Nothing));
    assert_eq!(counter, node(3));
}

#[test]
fn step_refuses_an_injected_event() {
    let mut counter = node(3);
    assert_eq!(counter.step(Event::Injected(())), Err(Violation::Injected));
    assert_eq!(counter, node(3));
}

#[test]
fn step_refuses_an_error_of_the_store() {
    let mut counter = node(3);
    let error = from_client(None, Payload::Error { code: 20, text: "no".to_string() });
    assert_eq!(counter.step(Event::Message(error)), Err(Violation::StoreError));
    assert_eq!(counter, node(3));
}

#[test]
fn step_refuses_a_message_when_ids_run_out() {
    let mut counter = node(usize::MAX - 1);
    assert_eq!(
        counter.step(Event::Message(from_client(None, Payload::Read))),
        Err(Violation::IdsExhausted)
    );
    assert_eq!(counter, node(usize::MAX - 1));
    assert_eq!(
        counter.step(Event::Message(from_client(None, Payload::WriteOk))),
        Ok(Reaction::Nothing)
    );
    assert_eq!(counter, node(usize::MAX));
    assert_eq!(
        counter.step(Event::Message(from_client(None, Payload::WriteOk))),
        Err(Violation::IdsExhausted)
    );
    let mut roomy = node(usize::MAX - 2);
    assert!(roomy.step(Event::Message(from_client(None, Payload::Add { delta: 1 }))).is_ok());
    assert_eq!(roomy, node(usize::MAX));
}
