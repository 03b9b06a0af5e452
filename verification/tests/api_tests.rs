use speech_core::api::{
    chat_completion_text, chat_completions_endpoint, extract_model_list, models_endpoint,
    parse_model_value,
};
use speech_core::json::JsonValue;

fn s(text: &str) -> JsonValue {
    JsonValue::Str(String::from(text))
}

fn obj(entries: Vec<(&str, JsonValue)>) -> JsonValue {
    JsonValue::Obj(entries.into_iter().map(|(k, v)| (String::from(k), v)).collect())
}

#[test]
fn a_bare_string_is_both_identifier_and_label() {
    let mi = parse_model_value(&s("gpt-test")).unwrap();
    assert_eq!(mi.id, "gpt-test");
    assert_eq!(mi.label, "gpt-test");
}

#[test]
fn an_object_with_id_and_owner_gets_a_composite_label() {
    let v = obj(vec![("id", s("m1")), ("owned_by", s("acme"))]);
    let mi = parse_model_value(&v).unwrap();
    assert_eq!(mi.id, "m1");
    assert_eq!(mi.label, "m1 (acme)");
}

#[test]
fn identifier_falls_back_through_model_name_and_slug() {
    let v = obj(vec![("model", s("m2"))]);
    assert_eq!(parse_model_value(&v).unwrap().id, "m2");
    let v = obj(vec![("name", s("m3"))]);
    assert_eq!(parse_model_value(&v).unwrap().id, "m3");
    let v = obj(vec![("slug", s("m4"))]);
    assert_eq!(parse_model_value(&v).unwrap().id, "m4");
    let v = obj(vec![("slug", s("low")), ("id", s("high"))]);
    assert_eq!(parse_model_value(&v).unwrap().id, "high");
}

#[test]
fn owner_falls_back_through_organization_and_provider() {
    let v = obj(vec![("id", s("m")), ("organization", s("org"))]);
    assert_eq!(parse_model_value(&v).unwrap().label, "m (org)");
    let v = obj(vec![("id", s("m")), ("provider", s("prov"))]);
    assert_eq!(parse_model_value(&v).unwrap().label, "m (prov)");
}

#[test]
fn an_object_without_identifier_is_skipped() {
    let v = obj(vec![("owned_by", s("acme"))]);
    assert!(parse_model_value(&v).is_none());
}

#[test]
fn non_string_non_object_values_are_skipped() {
    assert!(parse_model_value(&JsonValue::Null).is_none());
    assert!(parse_model_value(&JsonValue::Bool(true)).is_none());
    assert!(parse_model_value(&JsonValue::Number).is_none());
    let v = obj(vec![("id", JsonValue::Number)]);
    assert!(parse_model_value(&v).is_none());
}

#[test]
fn extract_reads_a_plain_array() {
    let payload = JsonValue::Arr(vec![s("a"), JsonValue::Null, s("b")]);
    let infos = extract_model_list(&payload);
    let ids: Vec<&str> = infos.iter().map(|m| m.id.as_str()).collect();
    assert_eq!(ids, vec!["a", "b"]);
}

#[test]
fn extract_prefers_the_data_array() {
    let payload = obj(vec![
        ("object", s("list")),
        ("data", JsonValue::Arr(vec![s("a"), s("b")])),
        ("models", JsonValue::Arr(vec![s("ignored")])),
    ]);
    let infos = extract_model_list(&payload);
    let ids: Vec<&str> = infos.iter().map(|m| m.id.as_str()).collect();
    assert_eq!(ids, vec!["a", "b"]);
}

#[test]
fn extract_falls_back_to_the_models_array() {
    let payload = obj(vec![("models", JsonValue::Arr(vec![s("x")]))]);
    let infos = extract_model_list(&payload);
    assert_eq!(infos.len(), 1);
    assert_eq!(infos[0].id, "x");
}

#[test]
fn extract_reads_a_data_object_by_values() {
    let nested = obj(vec![("first", s("a")), ("second", s("b"))]);
    let payload = obj(vec![("data", nested)]);
    let infos = extract_model_list(&payload);
    let ids: Vec<&str> = infos.iter().map(|m| m.id.as_str()).collect();
    assert_eq!(ids, vec!["a", "b"]);
}

#[test]
fn extract_scans_an_unshaped_object() {
    let payload = obj(vec![
        ("group", JsonValue::Arr(vec![s("a"), s("b")])),
        ("single", s("c")),
        ("noise", JsonValue::Number),
    ]);
    let infos = extract_model_list(&payload);
    let ids: Vec<&str> = infos.iter().map(|m| m.id.as_str()).collect();
    assert_eq!(ids, vec!["a", "b", "c"]);
}

#[test]
fn extract_of_a_scalar_payload_is_at_most_itself() {
    let infos = extract_model_list(&s("solo"));
    assert_eq!(infos.len(), 1);
    assert_eq!(infos[0].id, "solo");
    assert!(extract_model_list(&JsonValue::Null).is_empty());
}

fn chat_response(content: JsonValue) -> JsonValue {
    obj(vec![(
        "choices",
        JsonValue::Arr(vec![obj(vec![(
            "message",
            obj(vec![("role", s("assistant")), ("content", content)]),
        )])]),
    )])
}

#[test]
fn chat_text_is_extracted_and_trimmed() {
    let v = chat_response(s("  Bonjour le monde \n"));
    assert_eq!(chat_completion_text(&v), Some(String::from("Bonjour le monde")));
}

#[test]
fn empty_chat_content_yields_none() {
    assert!(chat_completion_text(&chat_response(s(""))).is_none());
    assert!(chat_completion_text(&chat_response(s("   "))).is_none());
    assert!(chat_completion_text(&chat_response(JsonValue::Null)).is_none());
}

#[test]
fn missing_chat_path_yields_none() {
    assert!(chat_completion_text(&obj(vec![])).is_none());
    assert!(chat_completion_text(&obj(vec![("choices", JsonValue::Arr(vec![]))])).is_none());
    assert!(chat_completion_text(&JsonValue::Null).is_none());
}

#[test]
fn models_endpoint_normalizes_the_base_url() {
    assert_eq!(models_endpoint("https://api.example.com/v1"), "https://api.example.com/v1/models");
    assert_eq!(models_endpoint(" https://api.example.com/v1/ "), "https://api.example.com/v1/models");
    assert_eq!(models_endpoint("https://api.example.com/v1///"), "https://api.example.com/v1/models");
}

#[test]
fn chat_completions_endpoint_strips_trailing_slashes() {
    assert_eq!(
        chat_completions_endpoint("https://api.example.com/v1/"),
        "https://api.example.com/v1/chat/completions"
    );
    assert_eq!(
        chat_completions_endpoint("https://api.example.com/v1"),
        "https://api.example.com/v1/chat/completions"
    );
}
