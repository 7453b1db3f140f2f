use obscur_native::json::Json;

#[test]
fn parse_builds_the_tree() {
    let json = Json::parse(r#"{"b":[1,2.5,"x",null,true],"a":{"k":"v"}}"#).unwrap();
    match &json {
        Json::Object(entries) => {
            assert_eq!(entries.len(), 2);
            assert_eq!(entries[0].0, "a");
            assert_eq!(entries[1].0, "b");
        }
        other => panic!("unexpected {:?}", other),
    }
    let items = json.get("b").unwrap().as_array().unwrap();
    assert_eq!(items.len(), 5);
    assert!(matches!(&items[0], Json::Number(n) if n == "1"));
    assert!(matches!(&items[1], Json::Number(n) if n == "2.5"));
    assert_eq!(items[2].as_str(), Some("x"));
    assert!(matches!(&items[3], Json::Null));
    assert!(matches!(&items[4], Json::Bool(true)));
    assert_eq!(json.get("a").unwrap().get_str("k"), Some("v"));
}

#[test]
fn parse_reports_the_parsers_message() {
    assert_eq!(Json::parse("").unwrap_err(), "EOF while parsing a value at line 1 column 0");
    assert_eq!(Json::parse("nope").unwrap_err(), "expected ident at line 1 column 2");
    assert!(Json::parse("{} {}").is_err());
}

#[test]
fn lookups_on_values_that_are_no_objects() {
    let array = Json::parse(r#"["a"]"#).unwrap();
    assert!(array.get("0").is_none());
    assert!(array.get_str("a").is_none());
    assert!(array.as_str().is_none());
    let text = Json::parse(r#""a""#).unwrap();
    assert!(text.as_array().is_none());
    assert_eq!(text.as_str(), Some("a"));
    assert!(text.into_field("a").is_none());
}

#[test]
fn into_field_takes_the_member() {
    let json = Json::parse(r#"{"x":1,"y":{"z":"w"},"x2":2}"#).unwrap();
    let y = json.into_field("y").unwrap();
    assert_eq!(y.get_str("z"), Some("w"));
    let json = Json::parse(r#"{"x":1}"#).unwrap();
    assert!(json.into_field("y").is_none());
}

#[test]
fn lookup_takes_the_first_entry_of_a_hand_made_object() {
    let json = Json::Object(vec![
        ("k".to_string(), Json::Text("first".to_string())),
        ("k".to_string(), Json::Text("second".to_string())),
    ]);
    assert_eq!(json.get_str("k"), Some("first"));
    assert!(json.get("K").is_none());
}
