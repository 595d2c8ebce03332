use herder::json::Json;

fn text(s: &str) -> Json {
    Json::Str(String::from(s))
}

fn number(s: &str) -> Json {
    Json::Number(String::from(s))
}

#[test]
fn parse_reads_the_plain_values() {
    assert_eq!(Json::parse("null"), Some(Json::Null));
    assert_eq!(Json::parse("true"), Some(Json::Bool(true)));
    assert_eq!(Json::parse(" false "), Some(Json::Bool(false)));
    assert_eq!(Json::parse("1234"), Some(number("1234")));
    assert_eq!(Json::parse("-5"), Some(number("-5")));
    assert_eq!(Json::parse("\"a b\""), Some(text("a b")));
}

#[test]
fn parse_keeps_a_fraction_as_its_numeral() {
    assert_eq!(Json::parse("1.5"), Some(number("1.5")));
}

#[test]
fn parse_undoes_the_escapes_of_a_string() {
    assert_eq!(Json::parse(r#""a\"b\\c\né""#), Some(text("a\"b\\c\né")));
}

#[test]
fn parse_descends_into_arrays_and_objects() {
    let parsed = Json::parse(r#"{"b": [1, {"c": null}], "a": "x"}"#).unwrap();
    let expected = Json::Object(vec![
        (String::from("a"), text("x")),
        (
            String::from("b"),
            Json::Array(vec![
                number("1"),
                Json::Object(vec![(String::from("c"), Json::Null)]),
            ]),
        ),
    ]);
    assert_eq!(parsed, expected);
}

#[test]
fn parse_refuses_what_is_no_json() {
    assert_eq!(Json::parse(""), None);
    assert_eq!(Json::parse("{"), None);
    assert_eq!(Json::parse("[1,]"), None);
    assert_eq!(Json::parse("{\"a\": tru}"), None);
    assert_eq!(Json::parse("[1] 2"), None);
    assert_eq!(Json::parse("nul"), None);
}

#[test]
fn parse_refuses_a_fault_deep_inside() {
    assert_eq!(Json::parse(r#"{"a": {"b": [1, 2, {"c": fals}]}}"#), None);
}

#[test]
fn parse_within_counts_the_levels() {
    assert_eq!(Json::parse_within("7", 0), Some(number("7")));
    assert_eq!(Json::parse_within("[7]", 0), None);
    assert_eq!(Json::parse_within("[7]", 1), Some(Json::Array(vec![number("7")])));
    assert_eq!(Json::parse_within("[[7]]", 1), None);
    assert_eq!(
        Json::parse_within("[[7]]", 2),
        Some(Json::Array(vec![Json::Array(vec![number("7")])]))
    );
    assert_eq!(Json::parse_within("{\"a\":{}}", 1), None);
    assert_eq!(Json::parse_within("{}", 1), Some(Json::Object(Vec::new())));
}

#[test]
fn get_finds_a_member_by_its_name() {
    let j = Json::parse(r#"{"id": 1, "name": "n"}"#).unwrap();
    assert_eq!(j.get("id"), Some(&number("1")));
    assert_eq!(j.get("name"), Some(&text("n")));
    assert_eq!(j.get("none"), None);
    assert_eq!(j.get(""), None);
    assert_eq!(Json::Null.get("id"), None);
    assert_eq!(Json::Array(vec![Json::Null]).get("0"), None);
}

#[test]
fn get_takes_the_last_of_two_members_with_one_name() {
    let j = Json::Object(vec![
        (String::from("a"), number("1")),
        (String::from("b"), number("2")),
        (String::from("a"), number("3")),
    ]);
    assert_eq!(j.get("a"), Some(&number("3")));
    assert_eq!(j.get("b"), Some(&number("2")));
}

#[test]
fn to_text_writes_without_spaces() {
    let j = Json::Object(vec![
        (String::from("a"), Json::Null),
        (String::from("b"), Json::Array(vec![Json::Bool(true), Json::Bool(false), number("-12")])),
        (String::from("c"), Json::Object(Vec::new())),
        (String::from("d"), Json::Array(Vec::new())),
        (String::from("e"), text("x")),
    ]);
    assert_eq!(j.to_text(), r#"{"a":null,"b":[true,false,-12],"c":{},"d":[],"e":"x"}"#);
}

#[test]
fn to_text_escapes_strings_and_names() {
    let j = Json::Object(vec![(String::from("a\"b"), text("line\nbreak \\ \"q\" é"))]);
    assert_eq!(j.to_text(), "{\"a\\\"b\":\"line\\nbreak \\\\ \\\"q\\\" é\"}");
    assert_eq!(text("").to_text(), "\"\"");
}

#[test]
fn reading_back_what_was_written_gives_the_same_tree() {
    let j = Json::Object(vec![
        (String::from("a"), Json::Array(vec![number("1"), text("two"), Json::Null])),
        (String::from("b"), Json::Object(vec![(String::from("c"), Json::Bool(false))])),
        (String::from("z"), text("tab\there")),
    ]);
    assert_eq!(Json::parse(&j.to_text()), Some(j));
}
