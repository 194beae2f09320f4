use rustengan::handshake::acknowledge;
use rustengan::{run_init, Body, DecodeError, Fields, Init, InitError, InitPayload, Json, Message};

fn text(s: &str) -> Json {
    Json::String(s.to_string())
}

fn member(key: &str, value: Json) -> (String, Json) {
    (key.to_string(), value)
}

#[test]
fn handshake_scenario() {
    let inbound =
        r#"{"src":"c1","dest":"n1","body":{"type":"init","msg_id":1,"node_id":"n1","node_ids":["n1"]}}"#;
    let (init, reply) = run_init(inbound).unwrap();
    assert_eq!(init, Init { node_id: "n1".to_string(), node_ids: vec!["n1".to_string()] });
    assert_eq!(
        reply,
        "{\"src\":\"n1\",\"dest\":\"c1\",\"body\":{\"type\":\"init_ok\",\"msg_id\":0,\"in_reply_to\":1}}\n"
    );
}

#[test]
fn handshake_reports_the_roster_in_order() {
    let inbound = r#"{"body":{"node_ids":["n3","n1","n2"],"node_id":"n2","type":"init"},"src":"c0","dest":"n2"}"#;
    let (init, reply) = run_init(inbound).unwrap();
    assert_eq!(init.node_id, "n2");
    assert_eq!(init.node_ids, vec!["n3".to_string(), "n1".to_string(), "n2".to_string()]);
    assert_eq!(
        reply,
        "{\"src\":\"n2\",\"dest\":\"c0\",\"body\":{\"type\":\"init_ok\",\"msg_id\":0,\"in_reply_to\":null}}\n"
    );
}

#[test]
fn handshake_accepts_an_empty_roster() {
    let inbound = r#"{"src":"c","dest":"n","body":{"type":"init","node_id":"n","node_ids":[]}}"#;
    let (init, _) = run_init(inbound).unwrap();
    assert_eq!(init, Init { node_id: "n".to_string(), node_ids: vec![] });
}

#[test]
fn handshake_fails_on_a_line_that_is_no_envelope() {
    assert_eq!(run_init("garbage"), Err(InitError::Decode(DecodeError::Syntax)));
    assert_eq!(run_init("[]"), Err(InitError::Decode(DecodeError::NotAnObject)));
    assert_eq!(
        run_init(r#"{"src":"c1","dest":"n1"}"#),
        Err(InitError::Decode(DecodeError::Body))
    );
}

#[test]
fn handshake_fails_on_another_first_message() {
    assert_eq!(
        run_init(r#"{"src":"c1","dest":"n1","body":{"type":"echo","msg_id":1,"echo":"x"}}"#),
        Err(InitError::Payload)
    );
    assert_eq!(run_init(r#"{"src":"c1","dest":"n1","body":{"msg_id":1}}"#), Err(InitError::Payload));
    assert_eq!(
        run_init(r#"{"src":"c1","dest":"n1","body":{"type":7,"msg_id":1}}"#),
        Err(InitError::Payload)
    );
}

#[test]
fn handshake_fails_on_an_incomplete_init() {
    assert_eq!(
        run_init(r#"{"src":"c1","dest":"n1","body":{"type":"init","node_ids":["n1"]}}"#),
        Err(InitError::Payload)
    );
    assert_eq!(
        run_init(r#"{"src":"c1","dest":"n1","body":{"type":"init","node_id":"n1"}}"#),
        Err(InitError::Payload)
    );
    assert_eq!(
        run_init(
            r#"{"src":"c1","dest":"n1","body":{"type":"init","node_id":"n1","node_ids":["n1",2]}}"#
        ),
        Err(InitError::Payload)
    );
    assert_eq!(
        run_init(
            r#"{"src":"c1","dest":"n1","body":{"type":"init","node_id":1,"node_ids":["n1"]}}"#
        ),
        Err(InitError::Payload)
    );
}

#[test]
fn handshake_fails_on_an_acknowledgment_as_first_message() {
    assert_eq!(
        run_init(r#"{"src":"c1","dest":"n1","body":{"type":"init_ok","in_reply_to":1}}"#),
        Err(InitError::NotInit)
    );
}

#[test]
fn acknowledge_answers_an_init_request() {
    let init = Init { node_id: "n1".to_string(), node_ids: vec!["n1".to_string(), "n2".to_string()] };
    let request = Message {
        src: "c1".to_string(),
        dst: "n1".to_string(),
        body: Body { id: Some(12), in_reply_to: None, payload: InitPayload::Init(init.clone()) },
    };
    let expected = Message {
        src: "n1".to_string(),
        dst: "c1".to_string(),
        body: Body { id: Some(0), in_reply_to: Some(12), payload: InitPayload::InitOk },
    };
    assert_eq!(acknowledge(request), Ok((init, expected)));
}

#[test]
fn acknowledge_refuses_an_acknowledgment() {
    let request = Message {
        src: "c1".to_string(),
        dst: "n1".to_string(),
        body: Body { id: Some(12), in_reply_to: None, payload: InitPayload::InitOk },
    };
    assert_eq!(acknowledge(request), Err(InitError::NotInit));
}

#[test]
fn init_payload_is_written_with_its_tag_first() {
    let init = Init { node_id: "n1".to_string(), node_ids: vec!["n1".to_string(), "n2".to_string()] };
    assert_eq!(
        InitPayload::Init(init).to_fields(),
        Fields(vec![
            member("type", text("init")),
            member("node_id", text("n1")),
            member("node_ids", Json::Array(vec![text("n1"), text("n2")])),
        ])
    );
    assert_eq!(InitPayload::InitOk.to_fields(), Fields(vec![member("type", text("init_ok"))]));
}

#[test]
fn init_payload_survives_its_own_encoding() {
    let payloads = vec![
        InitPayload::InitOk,
        InitPayload::Init(Init { node_id: "".to_string(), node_ids: vec![] }),
        InitPayload::Init(Init {
            node_id: "n9".to_string(),
            node_ids: vec!["a".to_string(), "b".to_string(), "a".to_string()],
        }),
    ];
    for payload in payloads {
        assert_eq!(InitPayload::from_fields(&payload.to_fields()), Some(payload));
    }
}

#[test]
fn init_payload_passes_over_members_it_does_not_name() {
    let fields = Fields(vec![member("extra", Json::Null), member("type", text("init_ok"))]);
    assert_eq!(InitPayload::from_fields(&fields), Some(InitPayload::InitOk));
    assert_eq!(InitPayload::from_fields(&Fields(vec![member("type", text("Init"))])), None);
    assert_eq!(InitPayload::from_fields(&Fields(vec![])), None);
}
