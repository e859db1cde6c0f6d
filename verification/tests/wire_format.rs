//! The wire payloads: sparse serialization, field values, escaping
//! and number formatting.

use aleph_alpha_api::CompletionRequest;
use aleph_alpha_api::DetokenizationRequest;
use aleph_alpha_api::EmbeddingRequest;
use aleph_alpha_api::EvaluationRequest;
use aleph_alpha_api::Json;
use aleph_alpha_api::JsonNumber;
use aleph_alpha_api::Prompt;
use aleph_alpha_api::TokenizationRequest;
use aleph_alpha_api::LUMINOUS_BASE;

fn keys_of(text: &str) -> Vec<String> {
    let v: serde_json::Value = serde_json::from_str(text).expect("payload must be valid JSON");
    let obj = v.as_object().expect("payload must be an object");
    obj.keys().cloned().collect()
}

#[test]
fn minimal_completion_request_has_only_required_keys() {
    let req = CompletionRequest::new(
        LUMINOUS_BASE.to_owned(),
        Prompt::from_text("An apple a day"),
        10,
    );
    let text = req.to_json().to_text();
    let mut keys = keys_of(&text);
    keys.sort();
    assert_eq!(keys, vec!["maximum_tokens", "model", "prompt"]);
}

#[test]
fn set_fields_appear_with_their_values() {
    let req = CompletionRequest::new(
        LUMINOUS_BASE.to_owned(),
        Prompt::from_text("An apple a day"),
        10,
    )
    .temperature(JsonNumber::from_decimal(false, 8, 1))
    .top_k(50)
    .top_p(JsonNumber::from_decimal(false, 95, 2))
    .best_of(2)
    .minimum_tokens(2);
    let text = req.to_json().to_text();
    let v: serde_json::Value = serde_json::from_str(&text).unwrap();
    assert_eq!(v["model"], serde_json::Value::String("luminous-base".to_owned()));
    assert_eq!(v["maximum_tokens"].as_u64(), Some(10));
    assert_eq!(v["temperature"].as_f64(), Some(0.8));
    assert_eq!(v["top_k"].as_u64(), Some(50));
    assert_eq!(v["top_p"].as_f64(), Some(0.95));
    assert_eq!(v["best_of"].as_i64(), Some(2));
    assert_eq!(v["minimum_tokens"].as_u64(), Some(2));
    // a field that was never set is absent, not null
    assert!(v.get("echo").is_none());
    assert!(v.get("logit_bias").is_none());
}

#[test]
fn builder_round_trip_reproduces_exactly_the_set_fields() {
    let req = CompletionRequest::new(
        LUMINOUS_BASE.to_owned(),
        Prompt::from_text("Hallo wie geht es dir? "),
        20,
    )
    .temperature(JsonNumber::from_decimal(false, 8, 1))
    .echo(true)
    .stop_sequences(vec!["Question:".to_owned()]);
    let text = req.to_json().to_text();
    let mut keys = keys_of(&text);
    keys.sort();
    assert_eq!(
        keys,
        vec!["echo", "maximum_tokens", "model", "prompt", "stop_sequences", "temperature"]
    );
}

#[test]
fn text_prompt_serializes_as_tagged_item() {
    let req = TokenizationRequest {
        model: LUMINOUS_BASE.to_owned(),
        prompt: "Hello, World!".to_owned(),
        tokens: true,
        token_ids: true,
    };
    let text = req.to_json().to_text();
    assert_eq!(
        text,
        "{\"model\":\"luminous-base\",\"prompt\":\"Hello, World!\",\"tokens\":true,\"token_ids\":true}"
    );
}

#[test]
fn prompt_items_serialize_in_order_with_type_tags() {
    let req = CompletionRequest::new(
        LUMINOUS_BASE.to_owned(),
        Prompt::from_token_ids(vec![49222, 15, 5390, 4], None),
        20,
    );
    let text = req.to_json().to_text();
    let v: serde_json::Value = serde_json::from_str(&text).unwrap();
    let items = v["prompt"].as_array().unwrap();
    assert_eq!(items.len(), 1);
    assert_eq!(items[0]["type"], serde_json::Value::String("token_ids".to_owned()));
    let ids: Vec<u64> = items[0]["data"]
        .as_array()
        .unwrap()
        .iter()
        .map(|x| x.as_u64().unwrap())
        .collect();
    assert_eq!(ids, vec![49222, 15, 5390, 4]);
}

#[test]
fn string_escaping_round_trips_through_other_parsers() {
    let req = TokenizationRequest {
        model: LUMINOUS_BASE.to_owned(),
        prompt: "line\nbreak \"quoted\" back\\slash\ttab \u{1F600} control\u{0001}end".to_owned(),
        tokens: false,
        token_ids: true,
    };
    let text = req.to_json().to_text();
    let v: serde_json::Value = serde_json::from_str(&text).unwrap();
    assert_eq!(
        v["prompt"].as_str().unwrap(),
        "line\nbreak \"quoted\" back\\slash\ttab \u{1F600} control\u{0001}end"
    );
}

#[test]
fn decimal_lexemes_are_plain_positional_notation() {
    assert_eq!(JsonNumber::from_decimal(false, 8, 1).as_str(), "0.8");
    assert_eq!(JsonNumber::from_decimal(false, 95, 2).as_str(), "0.95");
    assert_eq!(JsonNumber::from_decimal(true, 125, 1).as_str(), "-12.5");
    assert_eq!(JsonNumber::from_decimal(false, 42, 0).as_str(), "42");
    assert_eq!(JsonNumber::from_decimal(false, 5, 4).as_str(), "0.0005");
    assert_eq!(JsonNumber::from_u64(0).as_str(), "0");
    assert_eq!(JsonNumber::from_u64(18446744073709551615).as_str(), "18446744073709551615");
    assert_eq!(JsonNumber::from_i64(-9223372036854775808).as_str(), "-9223372036854775808");
}

#[test]
fn evaluation_request_carries_prompt_and_expected_completion() {
    let req = EvaluationRequest::from_text(LUMINOUS_BASE, "An apple a day keeps the", " doctor away");
    let text = req.to_json().to_text();
    let v: serde_json::Value = serde_json::from_str(&text).unwrap();
    assert_eq!(v["model"].as_str().unwrap(), "luminous-base");
    assert_eq!(v["completion_expected"].as_str().unwrap(), " doctor away");
    assert_eq!(v["prompt"][0]["data"].as_str().unwrap(), "An apple a day keeps the");
    assert!(v.get("hosting").is_none());
}

#[test]
fn embedding_request_from_text_sets_layers_and_pooling() {
    let req = EmbeddingRequest::from_text(LUMINOUS_BASE, "An apple a day", 1, "max", true);
    let text = req.to_json().to_text();
    let v: serde_json::Value = serde_json::from_str(&text).unwrap();
    assert_eq!(v["layers"].as_array().unwrap()[0].as_i64(), Some(1));
    assert_eq!(v["pooling"].as_array().unwrap()[0].as_str(), Some("max"));
    assert_eq!(v["normalize"].as_bool(), Some(true));
    assert!(v.get("type").is_none());
}

#[test]
fn detokenization_request_holds_the_token_ids() {
    let req = DetokenizationRequest {
        model: LUMINOUS_BASE.to_owned(),
        token_ids: vec![49222, 15, 5390],
    };
    let text = req.to_json().to_text();
    assert_eq!(text, "{\"model\":\"luminous-base\",\"token_ids\":[49222,15,5390]}");
}

#[test]
fn image_items_carry_base64_data() {
    let item = aleph_alpha_api::Modality::from_image_bytes(b"abc");
    let mut items: Vec<aleph_alpha_api::Modality> = Vec::new();
    items.push(item);
    let req = CompletionRequest::new(
        LUMINOUS_BASE.to_owned(),
        Prompt::from_vec(items),
        20,
    );
    let text = req.to_json().to_text();
    let v: serde_json::Value = serde_json::from_str(&text).unwrap();
    assert_eq!(v["prompt"][0]["type"].as_str(), Some("image"));
    // standard base64 of the bytes, not the bytes themselves
    assert_eq!(v["prompt"][0]["data"].as_str(), Some("YWJj"));
}

#[test]
fn negative_zero_and_nested_documents_serialize() {
    let n = JsonNumber::from_i64(-1);
    let mut members: Vec<(String, Json)> = Vec::new();
    members.push(("a".to_owned(), Json::Num(n)));
    members.push(("b".to_owned(), Json::Arr(vec![Json::Null, Json::Bool(false)])));
    let doc = Json::Obj(members);
    assert_eq!(doc.to_text(), "{\"a\":-1,\"b\":[null,false]}");
}
