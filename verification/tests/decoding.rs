//! Reading responses: the JSON parser, the typed decoders, and the
//! error classification of the transport.

use aleph_alpha_api::client::decode_batch_semantic_embedding_response;
use aleph_alpha_api::client::decode_completion_response;
use aleph_alpha_api::client::decode_detokenization_response;
use aleph_alpha_api::client::decode_embedding_response;
use aleph_alpha_api::client::decode_evaluation_response;
use aleph_alpha_api::client::decode_explanation_response;
use aleph_alpha_api::client::decode_list_api_tokens_response;
use aleph_alpha_api::client::decode_semantic_embedding_response;
use aleph_alpha_api::client::decode_tokenization_response;
use aleph_alpha_api::client::decode_version_response;
use aleph_alpha_api::error::ApiError;
use aleph_alpha_api::explanation::ItemImportance;
use aleph_alpha_api::parse::parse_json;
use aleph_alpha_api::users::UserDetail;
use aleph_alpha_api::Json;

#[test]
fn http_429_maps_to_too_many_requests() {
    let r = decode_completion_response(429, "slow down".to_owned());
    assert_eq!(r.unwrap_err(), ApiError::TooManyRequests);
    let r2 = decode_tokenization_response(429, "slow down".to_owned());
    assert_eq!(r2.unwrap_err(), ApiError::TooManyRequests);
    let r3 = decode_version_response(429, "slow down".to_owned());
    assert_eq!(r3.unwrap_err(), ApiError::TooManyRequests);
}

#[test]
fn http_503_maps_to_busy() {
    let r = decode_completion_response(503, "overloaded".to_owned());
    assert_eq!(r.unwrap_err(), ApiError::Busy);
    let r2 = decode_embedding_response(503, "overloaded".to_owned());
    assert_eq!(r2.unwrap_err(), ApiError::Busy);
}

#[test]
fn other_statuses_keep_the_raw_body() {
    let r = decode_completion_response(404, "not found".to_owned());
    assert_eq!(
        r.unwrap_err(),
        ApiError::Http { status: 404, body: "not found".to_owned() }
    );
    let r2 = decode_evaluation_response(500, "<html>proxy error</html>".to_owned());
    assert_eq!(
        r2.unwrap_err(),
        ApiError::Http { status: 500, body: "<html>proxy error</html>".to_owned() }
    );
}

#[test]
fn malformed_bodies_are_deserialize_errors() {
    let r = decode_completion_response(200, "not json at all".to_owned());
    assert!(matches!(r, Err(ApiError::Deserialize(_))));
    let r2 = decode_completion_response(200, "{\"model_version\":\"x\"}".to_owned());
    assert!(matches!(r2, Err(ApiError::Deserialize(_))));
    let r3 = decode_detokenization_response(200, "{\"result\":17}".to_owned());
    assert!(matches!(r3, Err(ApiError::Deserialize(_))));
}

#[test]
fn best_text_is_the_first_completion() {
    let body = "{\"model_version\":\"luminous-base.v1\",\"completions\":[{\"completion\":\" keeps the doctor away\",\"finish_reason\":\"maximum_tokens\"},{\"completion\":\" is healthy\",\"finish_reason\":\"stop\"}]}";
    let resp = decode_completion_response(200, body.to_owned()).unwrap();
    assert_eq!(resp.model_version, "luminous-base.v1");
    assert_eq!(resp.completions.len(), 2);
    assert_eq!(resp.best_text(), " keeps the doctor away");
    assert_eq!(resp.best().finish_reason, "maximum_tokens");
}

#[test]
fn tokenization_round_trip_scenario() {
    // the service tokenizes "Hello, World!" into three ids ...
    let tok_body = "{\"tokens\":[\"\u{0120}Hello\",\",\",\"\u{0120}World!\"],\"token_ids\":[49222,15,5390]}";
    let tok = decode_tokenization_response(200, tok_body.to_owned()).unwrap();
    assert_eq!(tok.token_ids.as_ref().unwrap(), &vec![49222, 15, 5390]);
    assert_eq!(tok.tokens.as_ref().unwrap().len(), 3);
    // ... and detokenizing those ids reproduces the text
    let detok_body = "{\"result\":\" Hello, World!\"}";
    let detok = decode_detokenization_response(200, detok_body.to_owned()).unwrap();
    assert!(detok.result.contains("Hello, World!"));
}

#[test]
fn tokenization_fields_may_be_absent_or_null() {
    let resp = decode_tokenization_response(200, "{\"token_ids\":null}".to_owned()).unwrap();
    assert!(resp.tokens.is_none());
    assert!(resp.token_ids.is_none());
}

#[test]
fn embedding_vector_is_reachable_by_layer_and_pooling() {
    let body = "{\"model_version\":\"luminous-base.v1\",\"embeddings\":{\"layer_1\":{\"max\":[0.1,-0.25,3.5e-2]}},\"tokens\":null}";
    let resp = decode_embedding_response(200, body.to_owned()).unwrap();
    let v = resp.get_embedding("layer_1", "max").expect("the vector must be there");
    assert!(v.len() > 0);
    assert_eq!(v[0].as_str(), "0.1");
    assert_eq!(v[1].as_str(), "-0.25");
    let missing = resp.get_embedding("layer_2", "max");
    assert!(missing.is_none());
}

#[test]
fn semantic_embedding_holds_the_vector() {
    let body = "{\"model_version\":\"v1\",\"embedding\":[1,2.5,-3]}";
    let resp = decode_semantic_embedding_response(200, body.to_owned()).unwrap();
    assert_eq!(resp.embedding.len(), 3);
    assert_eq!(resp.embedding[1].as_str(), "2.5");
}

#[test]
fn batch_semantic_embedding_holds_one_vector_per_prompt() {
    let body = "{\"model_version\":\"v1\",\"embeddings\":[[1,2],[3,4],[5,6]]}";
    let resp = decode_batch_semantic_embedding_response(200, body.to_owned()).unwrap();
    assert_eq!(resp.embeddings.len(), 3);
    assert_eq!(resp.embeddings[2][1].as_str(), "6");
}

#[test]
fn evaluation_metrics_decode_with_absent_members() {
    let body = "{\"model_version\":\"v1\",\"result\":{\"log_probability\":-0.25,\"correct_greedy\":true,\"token_count\":3}}";
    let resp = decode_evaluation_response(200, body.to_owned()).unwrap();
    assert_eq!(resp.result.correct_greedy, Some(true));
    assert_eq!(resp.result.token_count, Some(3));
    assert!(resp.result.log_perplexity.is_none());
    assert_eq!(resp.result.log_probability.unwrap().as_str(), "-0.25");
}

#[test]
fn explanation_items_decode_by_their_type_tags() {
    let body = "{\"model_version\":\"v1\",\"explanations\":[{\"target\":\" pizza\",\"items\":[{\"type\":\"text\",\"scores\":[{\"start\":0,\"length\":4,\"score\":0.5}]},{\"type\":\"token_ids\",\"scores\":[0.25,0.75]},{\"type\":\"target\",\"scores\":[]}]}]}";
    let resp = decode_explanation_response(200, body.to_owned()).unwrap();
    assert_eq!(resp.explanations.len(), 1);
    let item = &resp.explanations[0];
    assert_eq!(item.target, " pizza");
    assert_eq!(item.items.len(), 3);
    match &item.items[0] {
        ItemImportance::Text { scores } => {
            assert_eq!(scores.len(), 1);
            assert_eq!(scores[0].start, 0);
            assert_eq!(scores[0].length, 4);
            assert_eq!(scores[0].score.as_str(), "0.5");
        },
        _ => panic!("the first item explains text"),
    }
    match &item.items[1] {
        ItemImportance::TokenIds { scores } => assert_eq!(scores.len(), 2),
        _ => panic!("the second item explains token ids"),
    }
}

#[test]
fn api_token_list_and_user_settings_decode() {
    let list_body = "[{\"description\":\"ci token\",\"token_id\":7},{\"description\":null,\"token_id\":9}]";
    let tokens = decode_list_api_tokens_response(200, list_body.to_owned()).unwrap();
    assert_eq!(tokens.len(), 2);
    assert_eq!(tokens[0].description.as_deref(), Some("ci token"));
    assert_eq!(tokens[0].token_id, 7);
    assert!(tokens[1].description.is_none());

    let user_body = "{\"id\":42,\"email\":\"a@b.c\",\"role\":\"worker\",\"credits_remaining\":\"100.5\",\"invoice_allowed\":false,\"out_of_credits_threshold\":\"5\",\"terms_of_service_version\":\"1.0\"}";
    let j = parse_json(user_body).unwrap();
    let user = UserDetail::from_json(&j).unwrap();
    assert_eq!(user.id, 42);
    assert_eq!(user.email, "a@b.c");
    assert_eq!(user.credits_remaining, "100.5");
    assert!(!user.invoice_allowed);
}

#[test]
fn version_response_returns_the_raw_body() {
    let r = decode_version_response(200, "1.13.0".to_owned());
    assert_eq!(r.unwrap(), "1.13.0");
}

#[test]
fn parser_handles_whitespace_escapes_and_rejects_junk() {
    let ok = parse_json(" { \"a\" : [ 1 , \"\\u0041\\n\" , true ] } ");
    assert!(ok.is_some());
    let text = ok.unwrap().to_text();
    assert_eq!(text, "{\"a\":[1,\"A\\n\",true]}");

    // surrogate pairs combine into one character
    let emoji = parse_json("\"\\uD83D\\uDE00\"").unwrap();
    assert_eq!(emoji.to_text(), "\"\u{1F600}\"");

    assert!(parse_json("{\"a\":1,}").is_none());
    assert!(parse_json("[1 2]").is_none());
    assert!(parse_json("01").is_none());
    assert!(parse_json("\"unterminated").is_none());
    assert!(parse_json("nul").is_none());
    assert!(parse_json("{\"a\":1} trailing").is_none());
    assert!(parse_json("\"\\uD83D\"").is_none());
}

#[test]
fn serializer_and_parser_round_trip_a_request_payload() {
    let req = aleph_alpha_api::CompletionRequest::new(
        aleph_alpha_api::LUMINOUS_BASE.to_owned(),
        aleph_alpha_api::Prompt::from_text("round trip"),
        7,
    )
    .top_k(16)
    .raw_completion(true);
    let text = req.to_json().to_text();
    let reparsed: Json = parse_json(&text).expect("own output must parse");
    assert_eq!(reparsed.to_text(), text);
}
