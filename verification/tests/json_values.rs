use vincents_llm::json::{json_from_value, parse, render, value_from_json, Json, JsonObject, Real};

#[test]
fn reads_and_writes_values() {
    let j = parse("{\"b\": [1, -2, 0.5, true, null, \"x\"], \"a\": {}}").unwrap();
    assert_eq!(render(&j).unwrap(), "{\"a\":{},\"b\":[1,-2,0.5,true,null,\"x\"]}");
    assert!(parse("{\"b\": ").is_none());
    assert!(parse("").is_none());
}

#[test]
fn members_and_items() {
    let j = parse("{\"a\": {\"b\": [7, 8]}, \"t\": \"text\", \"f\": true, \"n\": -1}").unwrap();
    assert_eq!(j.at("a").at("b").head().as_count(), Some(7));
    assert_eq!(j.at("missing").at("deeper").as_text(), None);
    assert_eq!(j.at("t").text_or("other"), "text");
    assert_eq!(j.at("f").text_or("other"), "other");
    assert_eq!(j.at("f").as_flag(), Some(true));
    assert_eq!(j.at("n").as_count(), None);
    assert_eq!(j.at("n").count_or_zero(), 0);
    assert!(j.get("missing").is_none());
    assert_eq!(j.at("a").at("b").as_items().unwrap().len(), 2);
    assert!(j.at("t").as_items().is_none());
}

#[test]
fn later_members_replace_earlier_ones() {
    let mut o = JsonObject::new();
    o.set("k", Json::of_count(1));
    o.set("l", Json::of_text("x"));
    o.set("k", Json::of_count(2));
    let mut more = JsonObject::new();
    more.set("l", Json::Bool(false));
    more.set("m", Json::Null);
    o.set_all(&more);
    o.set_optional("n", None);
    o.set_optional("o", Some(Json::of_texts(&vec!["p".to_string()])));
    assert_eq!(
        render(&Json::Object(o)).unwrap(),
        "{\"k\":2,\"l\":false,\"m\":null,\"o\":[\"p\"]}"
    );
}

#[test]
fn values_of_the_json_crate_are_converted_one_for_one() {
    let text = "{\"a\":[1,2.5,\"x\",null],\"b\":{\"c\":false}}";
    let value: serde_json::Value = serde_json::from_str(text).unwrap();
    let j = json_from_value(value.clone());
    assert_eq!(j.at("a").head().as_count(), Some(1));
    assert_eq!(value_from_json(&j), value);
    assert_eq!(render(&j.duplicate()).unwrap(), text);
}

#[test]
fn real_numbers_without_json_form_are_null() {
    let half = Real { number: serde_json::Number::from_f64(0.5) };
    assert_eq!(render(&half.to_json()).unwrap(), "0.5");
    let none = Real { number: serde_json::Number::from_f64(f64::NAN) };
    assert_eq!(render(&none.to_json()).unwrap(), "null");
}

#[test]
fn repeated_members_are_written_once() {
    let object = JsonObject {
        entries: vec![
            ("a".to_string(), Json::of_count(1)),
            ("b".to_string(), Json::of_count(2)),
            ("a".to_string(), Json::of_count(3)),
        ],
    };
    assert_eq!(object.get("a").and_then(|j| j.as_count()), Some(3));
    assert_eq!(render(&Json::Object(object)), Some("{\"a\":3,\"b\":2}".to_string()));
}
