use predict_agent::json;
use predict_agent::json::{Json, JsonNumber};

fn read(s: &str) -> Json {
    json::parse(s).unwrap()
}

#[test]
fn values_of_every_sort_are_read() {
    assert_eq!(json::parse("null"), Some(Json::Null));
    assert_eq!(json::parse(" true "), Some(Json::Bool(true)));
    assert_eq!(json::parse("\"a\\u00e4\\n\""), Some(Json::String("aä\n".to_string())));
    assert_eq!(json::parse("[]"), Some(Json::Array(vec![])));
    assert_eq!(json::parse("{}"), Some(Json::Object(vec![])));
    assert_eq!(
        json::parse("[1,[-2]]"),
        Some(Json::Array(vec![
            Json::Number(JsonNumber::Unsigned(1)),
            Json::Array(vec![Json::Number(JsonNumber::Negative(-2))]),
        ]))
    );
}

#[test]
fn numbers_keep_their_form() {
    assert_eq!(json::parse("18446744073709551615"), Some(Json::Number(JsonNumber::Unsigned(u64::MAX))));
    assert_eq!(json::parse("-9223372036854775808"), Some(Json::Number(JsonNumber::Negative(i64::MIN))));
    assert_eq!(json::parse("0.5"), Some(Json::Number(JsonNumber::Float(0.5f64.to_bits()))));
    assert_eq!(json::parse("-0"), Some(Json::Number(JsonNumber::Float((-0.0f64).to_bits()))));
    assert_eq!(json::parse("1e2"), Some(Json::Number(JsonNumber::Float(100f64.to_bits()))));
    assert_eq!(
        json::parse("18446744073709551616"),
        Some(Json::Number(JsonNumber::Float(18446744073709551616f64.to_bits())))
    );
}

#[test]
fn what_is_not_json_is_refused() {
    for s in ["", "{", "{'a':1}", "[1,]", "01", "1e999", "nul", "{} x", "\"\n\""] {
        assert_eq!(json::parse(s), None, "{}", s);
        assert!(!json::is_json(s));
        assert!(json::parse_bytes(s.as_bytes()).is_err());
    }
    assert!(json::parse_bytes(&[0xff]).is_err());
    assert!(json::is_json("[]"));
}

#[test]
fn of_two_members_with_one_key_the_last_counts() {
    let v = read("{\"a\":1,\"b\":2,\"a\":3}");
    assert_eq!(v.get("a").and_then(|x| x.as_u64()), Some(3));
    let w = Json::object().with("a", Json::unsigned(1)).with("a", Json::unsigned(2));
    assert_eq!(w.get("a").and_then(|x| x.as_u64()), Some(2));
}

#[test]
fn compact_text_has_sorted_keys_and_no_blanks() {
    let read = json::parse_bytes(b" { \"b\" : 1 , \"a\" : [ true, null, \"x\\ny\", -4, 0.25 ] } ").unwrap();
    assert_eq!(read.1, "{\"a\":[true,null,\"x\\ny\",-4,0.25],\"b\":1}");
    assert_eq!(read.0.get("b").and_then(|x| x.as_i64()), Some(1));
}

#[test]
fn values_are_written_and_read_back() {
    let v = Json::object()
        .with("z", Json::Array(vec![Json::signed(-3), Json::signed(4), Json::Bool(false), Json::Null]))
        .with("a", Json::text("quote \" and ä"))
        .with("z2", Json::object().with("n", Json::unsigned(u64::MAX)));
    let t = v.to_text();
    assert_eq!(
        t,
        "{\"a\":\"quote \\\" and ä\",\"z\":[-3,4,false,null],\"z2\":{\"n\":18446744073709551615}}"
    );
    let back = read(&t);
    assert_eq!(back.to_text(), t);
    assert_eq!(back.get("z2").and_then(|x| x.get("n")).and_then(|x| x.as_u64()), Some(u64::MAX));
}

#[test]
fn members_by_type() {
    let v = read("{\"s\":\"x\",\"n\":-2,\"u\":9223372036854775808,\"f\":1.5,\"t\":true,\"l\":[1]}");
    assert_eq!(v.str_at("s"), Some("x"));
    assert_eq!(v.str_at("n"), None);
    assert_eq!(v.str_or("q", "d"), "d");
    assert_eq!(v.i64_or("n", 0), -2);
    assert_eq!(v.i64_or("u", 5), 5);
    assert_eq!(v.i64_or("f", 6), 6);
    assert_eq!(v.get("u").unwrap().as_u64(), Some(9223372036854775808));
    assert_eq!(v.get("n").unwrap().as_u64(), None);
    assert!(v.flag("t"));
    assert!(!v.flag("s"));
    assert_eq!(v.array_at("l").map(|l| l.len()), Some(1));
    assert!(v.array_at("s").is_none());
    assert_eq!(v.number_at("f"), Some(JsonNumber::Float(1.5f64.to_bits())));
    assert_eq!(v.number_at("s"), None);
    assert!(Json::Null.get("s").is_none());
    assert_eq!(v.get("t").unwrap().as_bool(), Some(true));
}

#[test]
fn payload_of_an_answer() {
    assert_eq!(read("{\"data\":[1]}").data(), Json::Array(vec![Json::unsigned(1)]));
    assert_eq!(read("{}").data(), Json::object());
    assert_eq!(read("3").data(), Json::object());
}

#[test]
fn adding_to_what_is_no_object_changes_nothing() {
    assert_eq!(Json::Null.with("a", Json::Null), Json::Null);
}

#[test]
fn copies_are_equal() {
    let v = read("{\"a\":[1,{\"b\":null}],\"c\":\"d\"}");
    assert_eq!(v.clone(), v);
}

#[test]
fn what_is_wrong_with_a_text() {
    assert_eq!(json::read("oops"), Err("expected value at line 1 column 1".to_string()));
    assert_eq!(json::read("{} x"), Err("trailing characters at line 1 column 4".to_string()));
    assert_eq!(json::read("[]"), Ok(Json::Array(vec![])));
    assert_eq!(
        json::parse_bytes(b""),
        Err("EOF while parsing a value at line 1 column 0".to_string())
    );
}

#[test]
fn braces_tell_what_a_text_is() {
    assert!(matches!(json::parse("{\"a\":1}"), Some(Json::Object(_))));
    assert_eq!(json::parse("{\"a\":1} ]"), None);
    assert_eq!(json::parse(" \n{\"a\":1}"), json::parse("{\"a\":1}"));
    assert_eq!(json::parse("[{\"a\":1}"), None);
}
