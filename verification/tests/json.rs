use kannaka_tui::json::{parse_json, Json};

#[test]
fn a_document_is_read_and_written() {
    let j = parse_json(r#" {"b":[1,-2,2.5,"t",null,true],"a":{"x":"y"}} "#).unwrap();
    assert_eq!(j.compact_text(), r#"{"a":{"x":"y"},"b":[1,-2,2.5,"t",null,true]}"#);
    match j.get("b") {
        Some(Json::List(v)) => assert_eq!(v.len(), 6),
        _ => panic!("expected a list"),
    }
    assert_eq!(j.get("a").unwrap().text("x"), Some("y".to_string()));
    assert!(j.get("c").is_none());
}

#[test]
fn the_later_of_two_members_counts() {
    let j = parse_json(r#"{"k":"first","k":"second"}"#).unwrap();
    assert_eq!(j.text_or("k", ""), "second");
    let made = Json::Object(vec![
        ("k".to_string(), Json::Text("first".to_string())),
        ("k".to_string(), Json::Text("second".to_string())),
    ]);
    assert_eq!(made.text_or("k", ""), "second");
    assert_eq!(made.compact_text(), r#"{"k":"second"}"#);
}

#[test]
fn fields_go_by_their_kind() {
    let j = parse_json(r#"{"u":18446744073709551615,"i":-3,"f":0.0005,"t":"x","b":true}"#).unwrap();
    assert_eq!(j.unsigned("u"), u64::MAX);
    assert_eq!(j.signed("u"), 0);
    assert_eq!(j.unsigned("i"), 0);
    assert_eq!(j.signed("i"), -3);
    assert_eq!(j.unsigned("t"), 0);
    assert!(j.truth("b") && !j.truth("t"));
    assert_eq!(j.fixed("f", 3), Some("0.001".to_string()));
    assert_eq!(j.fixed("i", 2), Some("-3.00".to_string()));
    assert_eq!(j.fixed("t", 2), None);
    assert!(j.number("f").is_some() && j.number("t").is_none());
    assert_eq!(j.text("u"), None);
    assert_eq!(j.text_or("b", "d"), "d");
}

#[test]
fn what_is_no_document_is_refused_with_a_word() {
    let e = parse_json("{\"a\":}").err().unwrap();
    assert!(e.contains("line 1"), "got: {e}");
    assert!(parse_json("").is_err());
}
