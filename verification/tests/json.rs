use data_service::json::{push_quoted, DecodeError, Json};

fn quoted(s: &str) -> String {
    let mut out = String::new();
    push_quoted(&mut out, s);
    out
}

fn text(s: &str) -> Json {
    Json::Text(s.to_string())
}

#[test]
fn push_quoted_escapes_as_json() {
    assert_eq!(quoted("abc"), "\"abc\"");
    assert_eq!(quoted(""), "\"\"");
    assert_eq!(quoted("a\"b"), "\"a\\\"b\"");
    assert_eq!(quoted("a\\b"), "\"a\\\\b\"");
    assert_eq!(quoted("a\nb\tc\rd"), "\"a\\nb\\tc\\rd\"");
    assert_eq!(quoted("\u{8}\u{c}"), "\"\\b\\f\"");
    assert_eq!(quoted("\u{0}\u{1f}\u{b}"), "\"\\u0000\\u001f\\u000b\"");
    assert_eq!(quoted("a/b"), "\"a/b\"");
    assert_eq!(quoted("\u{7f}é€"), "\"\u{7f}é€\"");
}

#[test]
fn push_quoted_appends() {
    let mut out = String::from("{\"urn\":");
    push_quoted(&mut out, "urn:li:tag:x");
    assert_eq!(out, "{\"urn\":\"urn:li:tag:x\"");
}

#[test]
fn push_quoted_is_read_back_by_the_parser() {
    let samples = ["", "plain", "q\"uote", "back\\slash", "\n\r\t\u{8}\u{c}\u{1}", "é€😀"];
    for s in samples {
        let q = quoted(s);
        match Json::parse(q.as_bytes()) {
            Ok(Json::Text(t)) => assert_eq!(t, s),
            _ => panic!("not a string: {}", q),
        }
    }
}

#[test]
fn parse_reads_scalars() {
    assert_eq!(Json::parse(b"null").unwrap(), Json::Null);
    assert_eq!(Json::parse(b"true").unwrap(), Json::Bool(true));
    assert_eq!(Json::parse(b"false").unwrap(), Json::Bool(false));
    assert_eq!(Json::parse(b"12").unwrap(), Json::Int(12));
    assert_eq!(Json::parse(b"-3").unwrap(), Json::Int(-3));
    assert_eq!(Json::parse(b" \"x\" ").unwrap(), text("x"));
}

#[test]
fn parse_keeps_only_integers_of_64_signed_bits() {
    assert_eq!(Json::parse(b"9223372036854775807").unwrap(), Json::Int(i64::MAX));
    assert_eq!(Json::parse(b"-9223372036854775808").unwrap(), Json::Int(i64::MIN));
    assert_eq!(Json::parse(b"9223372036854775808").unwrap(), Json::Number);
    assert_eq!(Json::parse(b"1.5").unwrap(), Json::Number);
    assert_eq!(Json::parse(b"1e3").unwrap(), Json::Number);
}

#[test]
fn parse_reads_lists_and_objects() {
    let j = Json::parse(b"{\"b\":[1,\"two\",null,{\"c\":false}],\"a\":{}}").unwrap();
    let b = j.member("b").unwrap();
    assert_eq!(
        *b,
        Json::List(vec![
            Json::Int(1),
            text("two"),
            Json::Null,
            Json::Object(vec![("c".to_string(), Json::Bool(false))]),
        ])
    );
    assert_eq!(*j.member("a").unwrap(), Json::Object(vec![]));
    assert!(j.member("c").is_none());
}

#[test]
fn parse_refuses_what_is_no_document() {
    let samples: [&[u8]; 7] = [b"", b"{", b"[1,]", b"{\"a\":}", b"nul", b"1 2", b"\xff"];
    for s in samples {
        match Json::parse(s) {
            Err(e) => assert_eq!(e, DecodeError::Malformed),
            Ok(_) => panic!("read {:?}", s),
        }
    }
}

#[test]
fn parse_keeps_the_last_of_two_members_of_one_name() {
    let j = Json::parse(b"{\"a\":1,\"a\":2}").unwrap();
    assert_eq!(*j.member("a").unwrap(), Json::Int(2));
}

#[test]
fn member_finds_the_first_of_that_name() {
    let j = Json::Object(vec![
        ("a".to_string(), Json::Int(1)),
        ("b".to_string(), Json::Int(2)),
        ("a".to_string(), Json::Int(3)),
    ]);
    assert_eq!(*j.member("a").unwrap(), Json::Int(1));
    assert_eq!(*j.member("b").unwrap(), Json::Int(2));
    assert!(j.member("").is_none());
    assert!(Json::List(vec![]).member("a").is_none());
    assert!(text("a").member("a").is_none());
}

#[test]
fn present_takes_null_for_absent() {
    let j = Json::parse(b"{\"a\":null,\"b\":0}").unwrap();
    assert!(j.member("a").is_some());
    assert!(j.present("a").is_none());
    assert!(j.present("b").is_some());
    assert!(j.present("c").is_none());
}

#[test]
fn required_members_say_why_they_fail() {
    let j = Json::parse(b"{\"s\":\"x\",\"n\":5,\"big\":2147483648,\"f\":true,\"l\":[],\"z\":null}")
        .unwrap();
    assert_eq!(j.text("s"), Ok("x"));
    assert_eq!(j.text("n"), Err(DecodeError::WrongShape));
    assert_eq!(j.text("z"), Err(DecodeError::WrongShape));
    assert_eq!(j.text("none"), Err(DecodeError::MissingField));
    assert_eq!(j.int32("n"), Ok(5));
    assert_eq!(j.int32("big"), Err(DecodeError::WrongShape));
    assert_eq!(j.int32("s"), Err(DecodeError::WrongShape));
    assert_eq!(j.int32("none"), Err(DecodeError::MissingField));
    assert_eq!(j.flag("f"), Ok(true));
    assert_eq!(j.flag("n"), Err(DecodeError::WrongShape));
    assert_eq!(j.flag("none"), Err(DecodeError::MissingField));
    assert_eq!(j.list("l").map(|l| l.len()), Ok(0));
    assert_eq!(j.list("s").map(|l| l.len()), Err(DecodeError::WrongShape));
    assert_eq!(Json::Int(1).text("s"), Err(DecodeError::WrongShape));
    assert_eq!(Json::List(vec![]).int32("n"), Err(DecodeError::WrongShape));
}
