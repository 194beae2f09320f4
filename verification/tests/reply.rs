use rustengan::{Body, Message};

fn request() -> Message<u8> {
    Message {
        src: "c1".to_string(),
        dst: "n1".to_string(),
        body: Body { id: Some(7), in_reply_to: None, payload: 3 },
    }
}

#[test]
fn reply_swaps_ends_and_answers_the_request() {
    let reply = request().into_reply(None);
    assert_eq!(reply.src, "n1");
    assert_eq!(reply.dst, "c1");
    assert_eq!(reply.body.id, None);
    assert_eq!(reply.body.in_reply_to, Some(7));
    assert_eq!(reply.body.payload, 3);
}

#[test]
fn reply_takes_the_counter_and_moves_it_on() {
    let mut counter: usize = 41;
    let reply = request().into_reply(Some(&mut counter));
    assert_eq!(reply.body.id, Some(41));
    assert_eq!(counter, 42);
    assert_eq!(reply.body.in_reply_to, Some(7));
    assert_eq!(reply.src, "n1");
    assert_eq!(reply.dst, "c1");
}

#[test]
fn reply_to_a_request_without_id_answers_nothing() {
    let mut bare = request();
    bare.body.id = None;
    bare.body.in_reply_to = Some(2);
    let mut counter: usize = 0;
    let reply = bare.into_reply(Some(&mut counter));
    assert_eq!(reply.body.id, Some(0));
    assert_eq!(reply.body.in_reply_to, None);
    assert_eq!(counter, 1);
}

#[test]
fn counter_just_below_the_limit_still_moves() {
    let mut counter: usize = usize::MAX - 1;
    let reply = request().into_reply(Some(&mut counter));
    assert_eq!(reply.body.id, Some(usize::MAX - 1));
    assert_eq!(counter, usize::MAX);
}
