use json_str::{
    expand_json, parse_to_replacement, render, sanitise, Bindings, JsonError, JsonPart,
    ReplacementPart,
};
use serde_json::Value;

fn normalise(raw: &str) -> Result<String, JsonError> {
    let mut out = String::new();
    sanitise(raw, &mut out).map(|()| out)
}

fn segment(text: &str) -> Vec<JsonPart> {
    let mut parts = Vec::new();
    parse_to_replacement(text, &mut parts);
    parts
}

fn lit(s: &str) -> JsonPart {
    JsonPart::Literal(s.to_string())
}

fn slot(name: &str, kind: ReplacementPart) -> JsonPart {
    JsonPart::Replacement(name.to_string(), kind)
}

fn bind(pairs: Vec<(&str, Value)>) -> Bindings {
    let mut b = Bindings::new();
    for (name, value) in pairs {
        b.insert(name.to_string(), value);
    }
    b
}

#[test]
fn bare_key_is_quoted() {
    assert_eq!(normalise("{a: 1}"), Ok("{\"a\":1}".to_string()));
}

#[test]
fn single_quotes_become_double_and_keywords_stay() {
    assert_eq!(
        normalise("{name: 'bob', ok: true}"),
        Ok("{\"name\":\"bob\",\"ok\":true}".to_string())
    );
}

#[test]
fn false_and_null_stay_bare() {
    assert_eq!(
        normalise("[false, null, nil]"),
        Ok("[false,null,\"nil\"]".to_string())
    );
}

#[test]
fn sanitise_appends_to_current() {
    let mut out = String::from(">");
    assert_eq!(sanitise("{a: b}", &mut out), Ok(()));
    assert_eq!(out, ">{\"a\":\"b\"}");
}

#[test]
fn double_quoted_string_is_kept() {
    assert_eq!(normalise("\"already\""), Ok("\"already\"".to_string()));
    assert_eq!(
        normalise("{\"k y\": \"v 'w'\"}"),
        Ok("{\"k y\":\"v 'w'\"}".to_string())
    );
}

#[test]
fn whitespace_outside_strings_is_dropped() {
    assert_eq!(
        normalise(" {\r\n\t\"a\" :\t[ 1 , 2.5 , -3 ] }\n"),
        Ok("{\"a\":[1,2.5,-3]}".to_string())
    );
}

#[test]
fn strict_json_passes_through_unchanged() {
    let input = "{\"a\": [1, 2.5, -3], \"b\": null, \"c\": \"x y\", \"d\": {\"e\": true}}";
    let expected = "{\"a\":[1,2.5,-3],\"b\":null,\"c\":\"x y\",\"d\":{\"e\":true}}";
    assert_eq!(expand_json(input, &Bindings::new()), Ok(expected.to_string()));
    let normalised = normalise(input).unwrap();
    assert_eq!(normalised, expected);
    let parts = segment(&normalised);
    assert_eq!(parts, vec![lit(expected)]);
    assert_eq!(render(&parts, &Bindings::new()), Ok(expected.to_string()));
}

#[test]
fn bare_word_keeps_dots_and_underscores() {
    assert_eq!(normalise("{a.b_c: x}"), Ok("{\"a.b_c\":\"x\"}".to_string()));
}

#[test]
fn unterminated_string_fails() {
    assert_eq!(normalise("{a: 'x}"), Err(JsonError::UnterminatedString));
    assert_eq!(normalise("\"abc"), Err(JsonError::UnterminatedString));
    assert_eq!(normalise("{a: \"x'}"), Err(JsonError::UnterminatedString));
}

#[test]
fn empty_placeholder_name_fails() {
    assert_eq!(normalise("{a: $}"), Err(JsonError::EmptyPlaceholderName));
    assert_eq!(normalise("$"), Err(JsonError::EmptyPlaceholderName));
}

#[test]
fn failed_sanitise_leaves_current_alone() {
    let mut out = String::from("kept");
    assert_eq!(
        sanitise("{a: 1, b: 'open", &mut out),
        Err(JsonError::UnterminatedString)
    );
    assert_eq!(out, "kept");
}

#[test]
fn placeholder_token_is_kept() {
    assert_eq!(
        normalise("{name: $x, age: $y}"),
        Ok("{\"name\":$x,\"age\":$y}".to_string())
    );
    assert_eq!(normalise("[$a.b_c]"), Ok("[$a.b_c]".to_string()));
}

#[test]
fn empty_template() {
    assert_eq!(normalise(""), Ok(String::new()));
    assert_eq!(segment(""), vec![lit("")]);
    assert_eq!(expand_json("", &Bindings::new()), Ok(String::new()));
}

#[test]
fn values_render_in_value_slots() {
    let parts = segment(&normalise("{name: $x, age: $y}").unwrap());
    assert_eq!(
        parts,
        vec![
            lit("{\"name\":"),
            slot("x", ReplacementPart::Value),
            lit(",\"age\":"),
            slot("y", ReplacementPart::Value),
            lit("}"),
        ]
    );
    let b = bind(vec![("x", Value::from("bob")), ("y", Value::from(30))]);
    assert_eq!(
        expand_json("{name: $x, age: $y}", &b),
        Ok("{\"name\":\"bob\",\"age\":30}".to_string())
    );
    assert_eq!(render(&parts, &b), Ok("{\"name\":\"bob\",\"age\":30}".to_string()));
}

#[test]
fn key_slot_is_detected_and_quoted_again() {
    let parts = segment(&normalise("{$k: 1}").unwrap());
    assert_eq!(
        parts,
        vec![lit("{"), slot("k", ReplacementPart::Key), lit(":1}")]
    );
    let b = bind(vec![("k", Value::from("foo"))]);
    assert_eq!(expand_json("{$k: 1}", &b), Ok("{\"\"foo\"\":1}".to_string()));
}

#[test]
fn key_slot_with_a_number_value() {
    let b = bind(vec![("k", Value::from(7))]);
    assert_eq!(expand_json("{$k: 1}", &b), Ok("{\"7\":1}".to_string()));
}

#[test]
fn unbound_placeholder_fails() {
    let b = bind(vec![("x", Value::from(1))]);
    assert_eq!(
        expand_json("{a: $x, b: $z, c: $w}", &b),
        Err(JsonError::UnboundPlaceholder("z".to_string()))
    );
    assert_eq!(
        expand_json("[$x]", &Bindings::new()),
        Err(JsonError::UnboundPlaceholder("x".to_string()))
    );
}

#[test]
fn render_reports_unbound_name() {
    let parts = vec![lit("["), slot("q", ReplacementPart::Value), lit("]")];
    assert_eq!(
        render(&parts, &Bindings::new()),
        Err(JsonError::UnboundPlaceholder("q".to_string()))
    );
}

#[test]
fn template_without_placeholders_ignores_bindings() {
    let b = bind(vec![("x", Value::from(1))]);
    assert_eq!(expand_json("{a: [b, 2]}", &b), Ok("{\"a\":[\"b\",2]}".to_string()));
    assert_eq!(
        expand_json("{a: [b, 2]}", &Bindings::new()),
        Ok("{\"a\":[\"b\",2]}".to_string())
    );
}

#[test]
fn dotted_names_are_looked_up_whole() {
    let b = bind(vec![("a.b_c", Value::Bool(true))]);
    assert_eq!(expand_json("{v: $a.b_c}", &b), Ok("{\"v\":true}".to_string()));
}

#[test]
fn placeholder_alone() {
    assert_eq!(segment("$x"), vec![slot("x", ReplacementPart::Value), lit("")]);
    let b = bind(vec![("x", Value::Null)]);
    assert_eq!(expand_json("$x", &b), Ok("null".to_string()));
}

#[test]
fn adjacent_placeholders() {
    assert_eq!(
        segment("[$a,$b]"),
        vec![
            lit("["),
            slot("a", ReplacementPart::Value),
            lit(","),
            slot("b", ReplacementPart::Value),
            lit("]"),
        ]
    );
    let b = bind(vec![("a", Value::from("s")), ("b", Value::from(false))]);
    assert_eq!(expand_json("[$a, $b]", &b), Ok("[\"s\",false]".to_string()));
}

#[test]
fn classification_looks_past_closing_brackets() {
    assert_eq!(
        segment("[$a]:1"),
        vec![lit("["), slot("a", ReplacementPart::Key), lit("]:1")]
    );
    assert_eq!(
        segment("[$a]"),
        vec![lit("["), slot("a", ReplacementPart::Value), lit("]")]
    );
}

#[test]
fn nested_value_is_serialised_compactly() {
    let mut inner = serde_json::Map::new();
    inner.insert("z".to_string(), Value::from(vec![1, 2]));
    let b = bind(vec![("o", Value::Object(inner))]);
    assert_eq!(expand_json("{o: $o}", &b), Ok("{\"o\":{\"z\":[1,2]}}".to_string()));
}

#[test]
fn string_values_are_escaped_by_the_serialiser() {
    let b = bind(vec![("s", Value::from("a\"b"))]);
    assert_eq!(expand_json("[$s]", &b), Ok("[\"a\\\"b\"]".to_string()));
}

#[test]
fn render_value_by_slot() {
    assert_eq!(ReplacementPart::Key.render_value("\"foo\""), "\"\"foo\"\"");
    assert_eq!(ReplacementPart::Value.render_value("\"foo\""), "\"foo\"");
    assert_eq!(ReplacementPart::Key.render_value("12"), "\"12\"");
}

#[test]
fn part_text() {
    assert_eq!(lit("{\"a\":").to_string(), "{\"a\":");
    assert_eq!(slot("name", ReplacementPart::Key).to_string(), "name");
}

#[test]
fn bindings_replace_in_place() {
    let mut b = Bindings::new();
    assert_eq!(b.len(), 0);
    b.insert("x".to_string(), Value::from(1));
    b.insert("y".to_string(), Value::from(2));
    b.insert("x".to_string(), Value::from(3));
    assert_eq!(b.len(), 2);
    assert_eq!(b.get(&"x".to_string()), Some(&Value::from(3)));
    assert_eq!(b.get(&"y".to_string()), Some(&Value::from(2)));
    assert_eq!(b.get(&"z".to_string()), None);
    assert_eq!(expand_json("[$x, $y]", &b), Ok("[3,2]".to_string()));
}

#[test]
fn bare_word_of_other_scripts() {
    assert_eq!(normalise("{café: 1}"), Ok("{\"café\":1}".to_string()));
    assert_eq!(normalise("[ünï_x, 7]"), Ok("[\"ünï_x\",7]".to_string()));
    assert_eq!(normalise("[€]"), Ok("[€]".to_string()));
}

#[test]
fn dotted_name_with_a_number() {
    let b = bind(vec![("a.b_c", Value::from(1))]);
    assert_eq!(expand_json("{v: $a.b_c}", &b), Ok("{\"v\":1}".to_string()));
}
