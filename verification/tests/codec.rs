use heroku_rs::json::{parse_array_text, parse_object_text, render_array, render_object, JsonField, JsonObject};

fn field(key: &str, value: &str) -> JsonField {
    JsonField { key: String::from(key), value: String::from(value) }
}

fn object(fields: Vec<JsonField>) -> JsonObject {
    JsonObject { fields }
}

#[test]
fn render_simple_object() {
    let o = object(vec![field("id", "abc"), field("name", "t1")]);
    assert_eq!(render_object(&o), "{\"id\":\"abc\",\"name\":\"t1\"}");
}

#[test]
fn render_empty_object() {
    let o = object(vec![]);
    assert_eq!(render_object(&o), "{}");
}

#[test]
fn render_escapes_quotes_and_backslashes() {
    let o = object(vec![field("a\"b", "c\\d")]);
    assert_eq!(render_object(&o), "{\"a\\\"b\":\"c\\\\d\"}");
}

#[test]
fn round_trip_simple_object() {
    let o = object(vec![field("id", "abc"), field("name", "t1")]);
    let text = render_object(&o);
    assert_eq!(parse_object_text(&text), Some(o));
}

#[test]
fn round_trip_empty_object() {
    let o = object(vec![]);
    let text = render_object(&o);
    assert_eq!(parse_object_text(&text), Some(o));
}

#[test]
fn round_trip_escaped_object() {
    let o = object(vec![field("a\"b", "c\\d"), field("", "\"\\\"")]);
    let text = render_object(&o);
    assert_eq!(parse_object_text(&text), Some(o));
}

#[test]
fn round_trip_array() {
    let os = vec![
        object(vec![field("id", "1"), field("name", "a")]),
        object(vec![field("id", "2")]),
    ];
    let text = render_array(&os);
    assert_eq!(text, "[{\"id\":\"1\",\"name\":\"a\"},{\"id\":\"2\"}]");
    assert_eq!(parse_array_text(&text), Some(os));
}

#[test]
fn round_trip_empty_array() {
    let os: Vec<JsonObject> = vec![];
    let text = render_array(&os);
    assert_eq!(text, "[]");
    assert_eq!(parse_array_text(&text), Some(os));
}

#[test]
fn parse_object_accepts_exact_text() {
    let parsed = parse_object_text("{\"id\":\"abc\",\"name\":\"t1\"}").expect("should parse");
    assert_eq!(parsed.fields.len(), 2);
    assert_eq!(parsed.fields[0].key, "id");
    assert_eq!(parsed.fields[0].value, "abc");
    assert_eq!(parsed.fields[1].key, "name");
    assert_eq!(parsed.fields[1].value, "t1");
}

#[test]
fn parse_object_rejects_trailing_text() {
    assert_eq!(parse_object_text("{\"a\":\"b\"}x"), None);
}

#[test]
fn parse_object_rejects_unterminated_object() {
    assert_eq!(parse_object_text("{\"a\":\"b\""), None);
}

#[test]
fn parse_object_rejects_unterminated_string() {
    assert_eq!(parse_object_text("{\"a\":\"b"), None);
}

#[test]
fn parse_object_rejects_unquoted_key() {
    assert_eq!(parse_object_text("{a:\"b\"}"), None);
}

#[test]
fn parse_object_rejects_whitespace() {
    assert_eq!(parse_object_text("{ \"a\":\"b\" }"), None);
}

#[test]
fn parse_object_rejects_unknown_escape() {
    assert_eq!(parse_object_text("{\"a\":\"b\\nc\"}"), None);
}

#[test]
fn parse_object_rejects_empty_text() {
    assert_eq!(parse_object_text(""), None);
}

#[test]
fn parse_object_rejects_array_text() {
    assert_eq!(parse_object_text("[]"), None);
}

#[test]
fn parse_array_rejects_object_text() {
    assert_eq!(parse_array_text("{}"), None);
}

#[test]
fn parse_array_rejects_trailing_comma() {
    assert_eq!(parse_array_text("[{\"a\":\"b\"},]"), None);
}
