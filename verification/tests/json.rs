use rustengan::json::{duplicate_members, find, take};
use rustengan::Json;

fn text(s: &str) -> Json {
    Json::String(s.to_string())
}

fn member(key: &str, value: Json) -> (String, Json) {
    (key.to_string(), value)
}

#[test]
fn parse_reads_every_kind_of_value() {
    let parsed = Json::parse(r#"{"a":1,"b":[true,null,"x"],"c":-2,"d":1.5,"e":{}}"#).unwrap();
    let expected = Json::Object(vec![
        member("a", Json::Unsigned(1)),
        member("b", Json::Array(vec![Json::Bool(true), Json::Null, text("x")])),
        member("c", Json::Number(serde_json::Number::from(-2i64))),
        member("d", Json::Number(serde_json::Number::from_f64(1.5).unwrap())),
        member("e", Json::Object(vec![])),
    ]);
    assert_eq!(parsed, expected);
}

#[test]
fn parse_keeps_members_in_document_order() {
    let parsed = Json::parse(r#"{"z":1,"a":2,"m":3}"#).unwrap();
    let expected = Json::Object(vec![
        member("z", Json::Unsigned(1)),
        member("a", Json::Unsigned(2)),
        member("m", Json::Unsigned(3)),
    ]);
    assert_eq!(parsed, expected);
}

#[test]
fn parse_holds_the_largest_integer_as_unsigned() {
    assert_eq!(Json::parse("18446744073709551615"), Ok(Json::Unsigned(u64::MAX)));
    assert_eq!(Json::parse("0"), Ok(Json::Unsigned(0)));
}

#[test]
fn parse_refuses_what_is_not_json() {
    let complaint = Json::parse("{").unwrap_err();
    assert!(!complaint.is_empty());
    assert!(Json::parse("").is_err());
    assert!(Json::parse("{\"a\":1} x").is_err());
    assert!(Json::parse("nul").is_err());
}

#[test]
fn print_writes_compact_text_in_member_order() {
    let document = Json::Object(vec![
        member("z", Json::Unsigned(1)),
        member("a", text("q")),
        member("n", Json::Null),
        member("l", Json::Array(vec![Json::Bool(false), Json::Unsigned(2)])),
    ]);
    assert_eq!(document.print(), Ok(r#"{"z":1,"a":"q","n":null,"l":[false,2]}"#.to_string()));
}

#[test]
fn print_escapes_strings() {
    assert_eq!(text("a\"b\n").print(), Ok(r#""a\"b\n""#.to_string()));
}

#[test]
fn print_then_parse_gives_the_document_back() {
    let document = Json::Object(vec![
        member("type", text("echo")),
        member("n", Json::Number(serde_json::Number::from(-7i64))),
        member("nested", Json::Object(vec![member("k", Json::Array(vec![]))])),
    ]);
    let printed = document.print().unwrap();
    assert_eq!(Json::parse(&printed), Ok(document));
}

#[test]
fn find_gives_the_first_member_under_a_key() {
    let members = vec![
        member("a", Json::Unsigned(1)),
        member("b", Json::Unsigned(2)),
        member("a", Json::Unsigned(3)),
    ];
    assert_eq!(find(&members, "a"), Some(0));
    assert_eq!(find(&members, "b"), Some(1));
    assert_eq!(find(&members, "c"), None);
    assert_eq!(find(&vec![], "a"), None);
}

#[test]
fn take_removes_only_the_first_member_under_a_key() {
    let mut members = vec![
        member("a", Json::Unsigned(1)),
        member("b", Json::Unsigned(2)),
        member("a", Json::Unsigned(3)),
    ];
    assert_eq!(take(&mut members, "a"), Some(Json::Unsigned(1)));
    assert_eq!(members, vec![member("b", Json::Unsigned(2)), member("a", Json::Unsigned(3))]);
    assert_eq!(take(&mut members, "x"), None);
    assert_eq!(members.len(), 2);
}

#[test]
fn duplicate_copies_the_whole_tree() {
    let document = Json::Object(vec![
        member("l", Json::Array(vec![text("x"), Json::Object(vec![member("k", Json::Null)])])),
        member("n", Json::Number(serde_json::Number::from(-1i64))),
    ]);
    assert_eq!(document.duplicate(), document);
    let members = vec![member("a", Json::Bool(true)), member("b", text("t"))];
    assert_eq!(duplicate_members(&members), members);
}
