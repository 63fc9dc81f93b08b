use wtftw_config::json::find_member;
use wtftw_config::json::parse;
use wtftw_config::json::render;
use wtftw_config::json::ParseError;
use wtftw_config::JsonValue;

fn text(s: &str) -> JsonValue {
    JsonValue::String(s.to_string())
}

#[test]
fn parse_tells_the_kinds_of_value_apart() {
    assert_eq!(parse("null"), Ok(JsonValue::Null));
    assert_eq!(parse("true"), Ok(JsonValue::Boolean(true)));
    assert_eq!(parse("false"), Ok(JsonValue::Boolean(false)));
    assert_eq!(parse("0"), Ok(JsonValue::U64(0)));
    assert_eq!(parse("18446744073709551615"), Ok(JsonValue::U64(u64::MAX)));
    assert_eq!(parse("-7"), Ok(JsonValue::I64(-7)));
    assert_eq!(parse("1.5"), Ok(JsonValue::Fraction(1.5f64.to_bits())));
    assert_eq!(parse("1e2"), Ok(JsonValue::Fraction(100f64.to_bits())));
    assert_eq!(parse("\"a\\nb\\u00e9\""), Ok(text("a\nbé")));
    assert_eq!(parse("[]"), Ok(JsonValue::Array(vec![])));
    assert_eq!(parse("{}"), Ok(JsonValue::Object(vec![])));
}

#[test]
fn parse_keeps_the_nesting() {
    assert_eq!(
        parse(" [1, [\"x\", {\"k\": [null]}], {\"b\": -2, \"a\": true}] "),
        Ok(JsonValue::Array(vec![
            JsonValue::U64(1),
            JsonValue::Array(vec![
                text("x"),
                JsonValue::Object(vec![("k".to_string(), JsonValue::Array(vec![JsonValue::Null]))]),
            ]),
            JsonValue::Object(vec![
                ("a".to_string(), JsonValue::Boolean(true)),
                ("b".to_string(), JsonValue::I64(-2)),
            ]),
        ]))
    );
}

#[test]
fn parse_keeps_the_later_of_two_members_with_one_key() {
    assert_eq!(
        parse("{\"k\":1,\"k\":2}"),
        Ok(JsonValue::Object(vec![("k".to_string(), JsonValue::U64(2))]))
    );
}

#[test]
fn parse_rejects_what_is_not_json() {
    for bad in ["", " ", "{", "}", "[1,]", "{\"a\"}", "{\"a\":}", "tru", "01", "\"open", "1 2", "{a:1}"] {
        assert_eq!(parse(bad), Err(ParseError::Syntax), "{:?}", bad);
    }
}

#[test]
fn render_writes_compact_text() {
    assert_eq!(render(&JsonValue::Null).as_deref(), Some("null"));
    assert_eq!(render(&JsonValue::Boolean(false)).as_deref(), Some("false"));
    assert_eq!(render(&JsonValue::U64(u64::MAX)).as_deref(), Some("18446744073709551615"));
    assert_eq!(render(&JsonValue::I64(-7)).as_deref(), Some("-7"));
    assert_eq!(render(&text("a\"b\\c\nd\u{1}é")).as_deref(), Some("\"a\\\"b\\\\c\\nd\\u0001é\""));
    assert_eq!(render(&JsonValue::Array(vec![])).as_deref(), Some("[]"));
    assert_eq!(render(&JsonValue::Object(vec![])).as_deref(), Some("{}"));
    assert_eq!(
        render(&JsonValue::Array(vec![JsonValue::U64(1), text("x"), JsonValue::Null])).as_deref(),
        Some("[1,\"x\",null]")
    );
}

#[test]
fn render_writes_members_by_key_and_the_later_of_two_with_one_key() {
    let v = JsonValue::Object(vec![
        ("b".to_string(), JsonValue::U64(1)),
        ("a".to_string(), JsonValue::Array(vec![JsonValue::Boolean(true)])),
        ("b".to_string(), JsonValue::U64(3)),
    ]);
    assert_eq!(render(&v).as_deref(), Some("{\"a\":[true],\"b\":3}"));
}

#[test]
fn parse_reads_back_what_render_wrote() {
    let v = JsonValue::Object(vec![
        ("a".to_string(), JsonValue::Array(vec![JsonValue::I64(-1), JsonValue::U64(2), text("\t")])),
        ("b".to_string(), JsonValue::Object(vec![("c".to_string(), JsonValue::Null)])),
    ]);
    assert_eq!(parse(&render(&v).unwrap()), Ok(v));
}

#[test]
fn find_gives_the_last_member_with_the_key() {
    let pairs = vec![
        ("k".to_string(), JsonValue::U64(1)),
        ("other".to_string(), JsonValue::Null),
        ("k".to_string(), JsonValue::U64(2)),
    ];
    assert_eq!(find_member(&pairs, &"k".to_string()), Some(&JsonValue::U64(2)));
    assert_eq!(find_member(&pairs, &"other".to_string()), Some(&JsonValue::Null));
    assert_eq!(find_member(&pairs, &"K".to_string()), None);
    assert_eq!(find_member(&vec![], &"k".to_string()), None);
}

#[test]
fn render_writes_no_value_that_holds_a_fraction() {
    let half = || JsonValue::Fraction(0.5f64.to_bits());
    assert_eq!(render(&half()), None);
    assert_eq!(render(&JsonValue::Array(vec![JsonValue::U64(1), half()])), None);
    assert_eq!(render(&JsonValue::Array(vec![JsonValue::Array(vec![half()])])), None);
    assert_eq!(render(&JsonValue::Object(vec![("a".to_string(), half())])), None);
    let replaced = JsonValue::Object(vec![
        ("a".to_string(), half()),
        ("a".to_string(), JsonValue::U64(1)),
    ]);
    assert_eq!(render(&replaced), None);
    assert_eq!(parse("[0.5]").map(|v| render(&v)), Ok(None));
}
