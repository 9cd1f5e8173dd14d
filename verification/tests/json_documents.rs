use deepinfra_client_rs::codec::{lift, lower};
use deepinfra_client_rs::json::{Json, Number};

#[test]
fn parse_reads_an_object_with_a_string_member() {
    let doc = Json::parse(b"{\"text\": \"hello\"}").expect("valid JSON");
    match doc.get("text") {
        Some(Json::String(s)) => assert_eq!(s, "hello"),
        other => panic!("unexpected member: {:?}", other),
    }
    assert!(doc.get("detail").is_none());
}

#[test]
fn parse_rejects_text_that_is_not_json() {
    assert!(Json::parse(b"{\"text\": ").is_none());
    assert!(Json::parse(b"").is_none());
}

#[test]
fn get_takes_the_last_of_two_members_with_one_key() {
    let doc = Json::Object(vec![
        ("a".to_string(), Json::Bool(false)),
        ("a".to_string(), Json::Bool(true)),
    ]);
    assert!(matches!(doc.get("a"), Some(Json::Bool(true))));
}

#[test]
fn numbers_keep_their_kind_through_text() {
    let doc = Json::parse(b"[1, -2, 0.5]").expect("valid JSON");
    match doc {
        Json::Array(items) => {
            assert!(matches!(items[0], Json::Number(Number::Unsigned(1))));
            assert!(matches!(items[1], Json::Number(Number::Negative(-2))));
            match &items[2] {
                Json::Number(Number::Real(text)) => assert_eq!(text, "0.5"),
                other => panic!("unexpected number: {:?}", other),
            }
        }
        other => panic!("unexpected document: {:?}", other),
    }
}

#[test]
fn to_bytes_writes_text_that_parses_back() {
    let doc = Json::Object(vec![
        ("n".to_string(), Json::Number(Number::Real("1.0".to_string()))),
        ("s".to_string(), Json::String("a\"b".to_string())),
    ]);
    let text = doc.to_bytes().expect("writable");
    assert_eq!(String::from_utf8(text).unwrap(), "{\"n\":1.0,\"s\":\"a\\\"b\"}");
}

#[test]
fn to_bytes_refuses_a_real_number_that_is_no_literal() {
    let doc = Json::Number(Number::Real("abc".to_string()));
    assert!(doc.to_bytes().is_none());
}

fn written(doc: &Json) -> String {
    String::from_utf8(doc.to_bytes().expect("writable")).expect("JSON text is UTF-8")
}

#[test]
fn lift_and_lower_convert_between_values_and_documents() {
    let value: serde_json::Value =
        serde_json::from_str("{\"b\": [1, -1, 1.5, null, true, \"s\"], \"a\": {}}").unwrap();
    let doc = lift(&value);
    assert_eq!(
        doc,
        Json::Object(vec![
            ("a".to_string(), Json::Object(vec![])),
            (
                "b".to_string(),
                Json::Array(vec![
                    Json::Number(Number::Unsigned(1)),
                    Json::Number(Number::Negative(-1)),
                    Json::Number(Number::Real("1.5".to_string())),
                    Json::Null,
                    Json::Bool(true),
                    Json::String("s".to_string()),
                ])
            ),
        ])
    );
    assert_eq!(lower(&doc), Some(value));
    assert_eq!(lower(&Json::Array(vec![Json::Number(Number::Real("1e".to_string()))])), None);
    assert_eq!(
        lower(&Json::Object(vec![(
            "k".to_string(),
            Json::Number(Number::Real("-".to_string()))
        )])),
        None
    );
}

#[test]
fn the_last_of_two_members_with_one_key_is_written() {
    let doc = Json::Object(vec![
        ("k".to_string(), Json::Number(Number::Unsigned(1))),
        ("a".to_string(), Json::Null),
        ("k".to_string(), Json::Number(Number::Unsigned(2))),
    ]);
    assert_eq!(written(&doc), "{\"a\":null,\"k\":2}");
}

#[test]
fn integers_are_written_by_their_value() {
    assert_eq!(written(&Json::integer(-7)), "-7");
    assert_eq!(written(&Json::integer(18446744073709551615)), "18446744073709551615");
    assert_eq!(written(&Json::integer(-9223372036854775808)), "-9223372036854775808");
    assert_eq!(written(&Json::Number(Number::Negative(5))), "5");
    assert_eq!(Json::integer(0), Json::Number(Number::Unsigned(0)));
    assert_eq!(Json::integer(-1), Json::Number(Number::Negative(-1)));
    assert_eq!(Json::integer(3).as_integer(), Some(3));
    assert_eq!(Json::Number(Number::Real("3.0".to_string())).as_integer(), None);
}

#[test]
fn a_duplicate_is_equal_to_the_document() {
    let doc = Json::parse(b"{\"a\": [1, {\"b\": \"c\"}, 2.5, null], \"d\": false}").unwrap();
    assert_eq!(doc.duplicate(), doc);
}

#[test]
fn members_are_read_by_kind() {
    let doc = Json::parse(
        b"{\"s\": \"x\", \"n\": null, \"i\": 70000, \"l\": [\"a\", \"b\"], \"m\": [\"a\", 1]}",
    )
    .unwrap();
    assert_eq!(doc.text_field("s").map(|s| s.as_str()), Some("x"));
    assert_eq!(doc.text_field("i"), None);
    assert_eq!(doc.text_field("zz"), None);
    assert!(doc.present("n").is_none());
    assert!(doc.get("n").is_some());
    assert_eq!(doc.optional_text("s"), Some(Some("x".to_string())));
    assert_eq!(doc.optional_text("n"), Some(None));
    assert_eq!(doc.optional_text("zz"), Some(None));
    assert_eq!(doc.optional_text("i"), None);
    assert_eq!(doc.integer_field("i", 0, 70000), Some(70000));
    assert_eq!(doc.integer_field("i", 0, 69999), None);
    assert_eq!(doc.integer_field("s", 0, 10), None);
    assert_eq!(doc.optional_integer("i", -1, 70000), Some(Some(70000)));
    assert_eq!(doc.optional_integer("n", -1, 70000), Some(None));
    assert_eq!(doc.optional_integer("i", -1, 1), None);
    assert_eq!(
        doc.get("l").and_then(|l| l.as_texts()),
        Some(vec!["a".to_string(), "b".to_string()])
    );
    assert_eq!(doc.get("m").and_then(|l| l.as_texts()), None);
    assert_eq!(doc.get("l").and_then(|l| l.as_items()).map(|v| v.len()), Some(2));
    assert!(doc.get("s").and_then(|l| l.as_items()).is_none());
}

#[test]
fn strings_are_joined_with_the_separator_between_them() {
    let parts = vec!["a".to_string(), String::new(), "c".to_string()];
    assert_eq!(deepinfra_client_rs::text::join(&parts, ", "), "a, , c");
    assert_eq!(deepinfra_client_rs::text::join(&vec![], "."), "");
    assert_eq!(deepinfra_client_rs::text::join(&vec!["x".to_string()], "."), "x");
    assert_eq!(deepinfra_client_rs::text::decimal(0), "0");
    assert_eq!(deepinfra_client_rs::text::decimal(9), "9");
    assert_eq!(deepinfra_client_rs::text::decimal(10), "10");
    assert_eq!(deepinfra_client_rs::text::decimal(404), "404");
    assert_eq!(deepinfra_client_rs::text::decimal(1234), "1234");
    assert_eq!(deepinfra_client_rs::text::decimal(65535), "65535");
    assert!(deepinfra_client_rs::text::same_text("ab", "ab"));
    assert!(!deepinfra_client_rs::text::same_text("ab", "abc"));
}
