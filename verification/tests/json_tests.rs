use dyndnsd::json::Json;

fn text(value: &str) -> Json {
    Json::String(value.to_string())
}

#[test]
fn parses_every_kind_of_value() {
    assert_eq!(Json::parse("null"), Some(Json::Null));
    assert_eq!(Json::parse("true"), Some(Json::Bool(true)));
    assert_eq!(Json::parse(" false "), Some(Json::Bool(false)));
    assert_eq!(Json::parse("12"), Some(Json::Number(serde_json::Number::from(12u64))));
    assert_eq!(Json::parse("-3"), Some(Json::Number(serde_json::Number::from(-3i64))));
    assert_eq!(Json::parse("\"a\\nb\""), Some(text("a\nb")));
    assert_eq!(Json::parse("[]"), Some(Json::Array(vec![])));
    assert_eq!(
        Json::parse("[1, \"x\", [null]]"),
        Some(Json::Array(vec![
            Json::Number(serde_json::Number::from(1u64)),
            text("x"),
            Json::Array(vec![Json::Null]),
        ]))
    );
    assert_eq!(
        Json::parse("{\"a\": {\"b\": [true]}}"),
        Some(Json::Object(vec![(
            "a".to_string(),
            Json::Object(vec![("b".to_string(), Json::Array(vec![Json::Bool(true)]))])
        )]))
    );
}

#[test]
fn rejects_what_is_not_one_document() {
    for bad in ["", " ", "{", "}", "[1,]", "{\"a\"}", "{\"a\":1,}", "nul", "'a'", "1 2", "{} x"] {
        assert_eq!(Json::parse(bad), None, "{:?}", bad);
    }
}

#[test]
fn writes_compact_text() {
    assert_eq!(Json::Null.to_text().unwrap(), "null");
    assert_eq!(Json::Bool(true).to_text().unwrap(), "true");
    assert_eq!(Json::number(60).to_text().unwrap(), "60");
    assert_eq!(text("a\"b").to_text().unwrap(), "\"a\\\"b\"");
    assert_eq!(
        Json::array(vec![Json::number(1), text("x")]).to_text().unwrap(),
        "[1,\"x\"]"
    );
    assert_eq!(
        Json::object(vec![("k".to_string(), Json::array(vec![]))]).to_text().unwrap(),
        "{\"k\":[]}"
    );
    assert_eq!(Json::object(vec![]).to_text().unwrap(), "{}");
}

#[test]
fn text_round_trips() {
    let doc = Json::Object(vec![
        ("a".to_string(), Json::Array(vec![Json::Null, Json::Bool(false), Json::number(7)])),
        ("b".to_string(), text("é✓")),
        ("c".to_string(), Json::Object(vec![("d".to_string(), text(""))])),
    ]);
    assert_eq!(Json::parse(&doc.to_text().unwrap()), Some(doc));
}

#[test]
fn document_with_a_repeated_key_has_no_text() {
    let twice = Json::Object(vec![
        ("k".to_string(), text("first")),
        ("other".to_string(), Json::Null),
        ("k".to_string(), text("second")),
    ]);
    assert!(!twice.is_well_formed());
    assert_eq!(twice.to_text(), None);
    let nested = Json::Array(vec![
        Json::Null,
        Json::Object(vec![("outer".to_string(), twice.clone())]),
    ]);
    assert!(!nested.is_well_formed());
    assert_eq!(nested.to_text(), None);
    let same_key_at_two_depths = Json::Object(vec![(
        "k".to_string(),
        Json::Object(vec![("k".to_string(), Json::Array(vec![]))]),
    )]);
    assert!(same_key_at_two_depths.is_well_formed());
    assert_eq!(same_key_at_two_depths.to_text().unwrap(), "{\"k\":{\"k\":[]}}");
    let case_differs =
        Json::Object(vec![("k".to_string(), Json::Null), ("K".to_string(), Json::Null)]);
    assert!(case_differs.is_well_formed());
}

#[test]
fn parsed_documents_are_well_formed() {
    for source in [
        "null",
        "[1,[2,[3]]]",
        "{\"a\":1,\"b\":{\"a\":2}}",
        "{\"a\":1,\"a\":2}",
        "[{\"k\":1,\"k\":{\"k\":2,\"k\":3}}]",
    ] {
        let doc = Json::parse(source).unwrap();
        assert!(doc.is_well_formed(), "{}", source);
        assert_eq!(Json::parse(&doc.to_text().unwrap()), Some(doc), "{}", source);
    }
    assert_eq!(
        Json::parse("{\"a\":1,\"a\":2}"),
        Some(Json::Object(vec![("a".to_string(), Json::number(2))]))
    );
}

#[test]
fn lookups_read_members_and_items() {
    let doc = Json::parse("{\"name\":\"www\",\"ttl\":60,\"tags\":[\"a\",\"b\"],\"inner\":{\"name\":\"x\"}}")
        .unwrap();
    assert_eq!(doc.get_str("name"), Some("www"));
    assert_eq!(doc.get_str("ttl"), None);
    assert_eq!(doc.get_str("missing"), None);
    assert_eq!(doc.get("ttl"), Some(&Json::number(60)));
    assert_eq!(doc.get("Name"), None);
    assert_eq!(doc.get_array("tags"), Some(&vec![text("a"), text("b")]));
    assert_eq!(doc.get_array("name"), None);
    assert_eq!(doc.get("inner").unwrap().get_str("name"), Some("x"));
    assert_eq!(doc.as_str(), None);
    assert_eq!(doc.as_array(), None);
    assert_eq!(text("t").as_str(), Some("t"));
    assert_eq!(text("t").get("t"), None);
    assert_eq!(Json::Array(vec![Json::Null]).as_array(), Some(&vec![Json::Null]));
}

#[test]
fn lookup_takes_the_first_member_of_a_name() {
    let doc = Json::Object(vec![
        ("k".to_string(), text("first")),
        ("other".to_string(), Json::Null),
        ("k".to_string(), text("second")),
    ]);
    assert_eq!(doc.get_str("k"), Some("first"));
}

#[test]
fn copies_are_deep_and_equal() {
    let doc = Json::parse("{\"a\":[1,{\"b\":null}],\"c\":\"d\"}").unwrap();
    assert_eq!(doc.clone(), doc);
    assert_eq!(doc.duplicate(), doc);
    assert_eq!(Json::string("x"), text("x"));
}
