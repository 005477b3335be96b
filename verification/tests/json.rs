use groupify::json::Json;

fn text(s: &str) -> Json {
    Json::Text(s.to_string())
}

fn object(members: Vec<(&str, Json)>) -> Json {
    Json::Object(members.into_iter().map(|(name, value)| (name.to_string(), value)).collect())
}

#[test]
fn members_are_found_by_name() {
    let document = object(vec![("a", Json::Int(1)), ("b", text("x")), ("a", Json::Int(2))]);
    assert_eq!(document.int_at("a"), Some(1));
    assert_eq!(document.text_at("b"), Some("x".to_string()));
    assert_eq!(document.int_at("b"), None);
    assert_eq!(document.text_at("a"), None);
    assert!(document.get("c").is_none());
}

#[test]
fn only_objects_have_members() {
    for value in [Json::Null, Json::Bool(true), Json::Int(1), Json::OtherNumber, text("a")] {
        assert!(value.get("a").is_none());
        assert!(value.as_array().is_none());
    }
}

#[test]
fn values_are_read_by_kind() {
    assert_eq!(text("a").as_text(), Some(&"a".to_string()));
    assert_eq!(Json::Null.as_text(), None);
    assert_eq!(Json::Int(-5).as_i64(), Some(-5));
    assert_eq!(Json::OtherNumber.as_i64(), None);
    assert_eq!(Json::Array(vec![Json::Null, Json::Null]).as_array().map(|v| v.len()), Some(2));
}
