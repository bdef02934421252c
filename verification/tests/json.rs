use notion_cli::json::Json;

fn text(s: &str) -> Json {
    Json::Text(s.to_string())
}

fn member(k: &str, v: Json) -> (String, Json) {
    (k.to_string(), v)
}

fn sample() -> Json {
    Json::Object(vec![
        member("name", text("first")),
        member("flag", Json::Bool(true)),
        member("items", Json::Array(vec![Json::Integer(1), Json::Null])),
        member("name", text("second")),
        member("price", Json::Number("1.5".to_string())),
        member("inner", Json::Object(vec![member("deep", text("down"))])),
    ])
}

#[test]
fn get_finds_the_first_member_of_that_name() {
    let j = sample();
    assert_eq!(j.get("name"), Some(&text("first")));
    assert_eq!(j.get("flag"), Some(&Json::Bool(true)));
    assert_eq!(j.get("missing"), None);
    assert_eq!(j.get(""), None);
    assert_eq!(j.get("Name"), None);
}

#[test]
fn get_on_what_is_no_object() {
    assert_eq!(Json::Null.get("a"), None);
    assert_eq!(text("a").get("a"), None);
    assert_eq!(Json::Array(vec![text("a")]).get("a"), None);
}

#[test]
fn typed_accessors() {
    let j = sample();
    assert_eq!(j.text_at("name"), Some("first"));
    assert_eq!(j.text_at("flag"), None);
    assert_eq!(j.bool_at("flag"), Some(true));
    assert_eq!(j.bool_at("name"), None);
    assert_eq!(j.array_at("items"), Some(&vec![Json::Integer(1), Json::Null]));
    assert_eq!(j.array_at("name"), None);
    assert_eq!(j.get("inner").unwrap().text_at("deep"), Some("down"));
    assert_eq!(text("x").as_str(), Some("x"));
    assert_eq!(Json::Null.as_str(), None);
    assert_eq!(Json::Bool(false).as_bool(), Some(false));
    assert_eq!(text("true").as_bool(), None);
    assert_eq!(Json::Array(vec![]).as_array(), Some(&vec![]));
    assert_eq!(Json::Null.as_array(), None);
    assert_eq!(Json::Object(vec![]).as_object(), Some(&vec![]));
    assert_eq!(Json::Array(vec![]).as_object(), None);
}

#[test]
fn numbers_as_text() {
    assert_eq!(Json::Number("1.5".to_string()).as_number(), Some("1.5".to_string()));
    assert_eq!(Json::Integer(100).as_number(), Some("100".to_string()));
    assert_eq!(Json::Integer(0).as_number(), Some("0".to_string()));
    assert_eq!(text("1.5").as_number(), None);
    assert_eq!(Json::Null.as_number(), None);
}

#[test]
fn duplicate_and_clone_copy_the_whole_document() {
    let j = sample();
    assert_eq!(j.duplicate(), j);
    assert_eq!(j.clone(), j);
    assert_eq!(Json::Null.duplicate(), Json::Null);
}

#[test]
fn constructors() {
    assert_eq!(Json::text("a"), text("a"));
    assert_eq!(Json::array1(text("a")), Json::Array(vec![text("a")]));
    assert_eq!(Json::array(vec![text("a"), Json::Null]), Json::Array(vec![text("a"), Json::Null]));
    assert_eq!(Json::object0(), Json::Object(vec![]));
    assert_eq!(Json::object1("a", Json::Null), Json::Object(vec![member("a", Json::Null)]));
    assert_eq!(
        Json::object2("a", Json::Null, "b", Json::Bool(true)),
        Json::Object(vec![member("a", Json::Null), member("b", Json::Bool(true))])
    );
    assert_eq!(
        Json::object3("a", Json::Null, "b", Json::Bool(true), "c", Json::Integer(2)),
        Json::Object(vec![
            member("a", Json::Null),
            member("b", Json::Bool(true)),
            member("c", Json::Integer(2)),
        ])
    );
}

#[test]
fn with_member_appends_to_objects_only() {
    assert_eq!(
        Json::object1("a", Json::Null).with_member("b", text("x")),
        Json::Object(vec![member("a", Json::Null), member("b", text("x"))])
    );
    assert_eq!(Json::Null.with_member("b", text("x")), Json::Null);
    assert_eq!(text("t").with_member("b", text("x")), text("t"));
}
