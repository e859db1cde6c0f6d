//! The planned HTTP exchanges of the client facade.

use aleph_alpha_api::client::HttpMethod;
use aleph_alpha_api::Client;
use aleph_alpha_api::CompletionRequest;
use aleph_alpha_api::Prompt;
use aleph_alpha_api::TokenizationRequest;
use aleph_alpha_api::ALEPH_ALPHA_API_BASE_URL;
use aleph_alpha_api::LUMINOUS_BASE;

#[test]
fn new_client_points_at_the_production_endpoint() {
    let client = Client::new("token-123".to_owned()).unwrap();
    assert_eq!(client.base_url, ALEPH_ALPHA_API_BASE_URL);
    assert_eq!(client.api_token, "token-123");
    assert_eq!(client.auth_header_value(), "Bearer token-123");
}

#[test]
fn completion_plan_posts_to_complete_with_nice_flag() {
    let client =
        Client::new_with_base_url("http://localhost:8080".to_owned(), "t".to_owned()).unwrap();
    let req = CompletionRequest::new(
        LUMINOUS_BASE.to_owned(),
        Prompt::from_text("An apple a day"),
        10,
    );
    let plan = client.completion_request(&req, Some(true));
    assert!(matches!(plan.method, HttpMethod::Post));
    assert_eq!(plan.url, "http://localhost:8080/complete");
    assert_eq!(plan.query.len(), 1);
    assert_eq!(plan.query[0].0, "nice");
    assert_eq!(plan.query[0].1, "true");
    let body = plan.body.expect("a POST carries a payload");
    assert_eq!(body, req.to_json().to_text());
}

#[test]
fn absent_nice_flag_means_no_query_entries() {
    let client = Client::new("t".to_owned()).unwrap();
    let req = CompletionRequest::new(
        LUMINOUS_BASE.to_owned(),
        Prompt::from_text("x"),
        1,
    );
    let plan = client.completion_request(&req, None);
    assert!(plan.query.is_empty());
}

#[test]
fn tokenization_plan_has_no_query() {
    let client = Client::new("t".to_owned()).unwrap();
    let req = TokenizationRequest {
        model: LUMINOUS_BASE.to_owned(),
        prompt: "Hello, World!".to_owned(),
        tokens: true,
        token_ids: true,
    };
    let plan = client.tokenization_request(&req);
    assert_eq!(plan.url, "https://api.aleph-alpha.com/tokenize");
    assert!(plan.query.is_empty());
}

#[test]
fn admin_plans_use_their_paths_and_verbs() {
    let client = Client::new("t".to_owned()).unwrap();
    let list = client.list_api_tokens_request();
    assert!(matches!(list.method, HttpMethod::Get));
    assert_eq!(list.url, "https://api.aleph-alpha.com/users/me/tokens");
    assert!(list.body.is_none());

    let del = client.delete_api_token_request(17);
    assert!(matches!(del.method, HttpMethod::Delete));
    assert_eq!(del.url, "https://api.aleph-alpha.com/users/me/tokens/17");

    let settings = client.get_user_settings_request();
    assert_eq!(settings.url, "https://api.aleph-alpha.com/users/me");

    let version = client.version_request();
    assert_eq!(version.url, "https://api.aleph-alpha.com/version");

    let tokenizer = client.tokenizer_binary_request("luminous-base");
    assert_eq!(tokenizer.url, "https://api.aleph-alpha.com/models/luminous-base/tokenizer");
}
