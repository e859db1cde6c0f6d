//! The client facade: one request plan and one response reading per
//! remote endpoint. The embedding application performs the actual
//! network exchange; everything on either side of it is verified.

use vstd::prelude::*;
use vstd::string::StrSliceExecFns;
use vstd::string::StringExecFns;
use crate::api_tokens::spec_token_id_field;
use crate::api_tokens::ApiTokenMetadata;
use crate::api_tokens::CreateApiTokenRequest;
use crate::api_tokens::CreateApiTokenResponse;
use crate::completion::CompletionRequest;
use crate::completion::CompletionResponse;
use crate::completion::spec_completion_outputs;
use crate::decode::matches_opt_string_val;
use crate::decode::spec_opt_string_field;
use crate::decode::spec_num_array;
use crate::decode::spec_string_field;
use crate::embedding::layers_match;
use crate::embedding::num_vec_matches;
use crate::embedding::spec_layer_map;
use crate::embedding::spec_num_matrix;
use crate::embedding::BatchSemanticEmbeddingRequest;
use crate::embedding::BatchSemanticEmbeddingResponse;
use crate::embedding::EmbeddingRequest;
use crate::embedding::EmbeddingResponse;
use crate::embedding::SemanticEmbeddingRequest;
use crate::embedding::SemanticEmbeddingResponse;
use crate::error::ApiError;
use crate::evaluate::eval_result_matches;
use crate::evaluate::spec_eval_result_ok;
use crate::evaluate::EvaluationRequest;
use crate::evaluate::EvaluationResponse;
use crate::explanation::explanation_item_matches;
use crate::explanation::spec_explanation_item;
use crate::explanation::ExplanationRequest;
use crate::explanation::ExplanationResponse;
use crate::http::classify_http_failure;
use crate::http::endpoint_url;
use crate::http::is_success_status;
use crate::http::nice_query;
use crate::http::nice_query_entries;
use crate::json::obj_lookup;
use crate::json::ser_json;
use crate::json::Json;
use crate::json::JsonVal;
use crate::num::int_lexeme;
use crate::parse::parse_json;
use crate::parse::spec_parse_json;
use crate::ser::push_char;
use crate::tokenization::spec_token_ids_field;
use crate::tokenization::spec_tokens_field;
use crate::tokenization::DetokenizationRequest;
use crate::tokenization::DetokenizationResponse;
use crate::tokenization::TokenizationRequest;
use crate::tokenization::TokenizationResponse;
use crate::users::spec_invoice_allowed_field;
use crate::users::spec_user_id_field;
use crate::users::UserChange;
use crate::users::UserDetail;

verus! {

/// The production endpoint of the service.
pub const ALEPH_ALPHA_API_BASE_URL: &'static str = "https://api.aleph-alpha.com";

/// The HTTP verb of a planned request.
#[derive(Debug)]
pub enum HttpMethod {
    Get,
    Post,
    Delete,
}

/// One planned HTTP exchange: everything the transport needs besides
/// the bearer token, which every request carries in its
/// `Authorization` header.
#[derive(Debug)]
pub struct ApiRequest {
    pub method: HttpMethod,
    /// The absolute URL.
    pub url: String,
    /// Query string entries.
    pub query: Vec<(String, String)>,
    /// The JSON payload, for POST requests.
    pub body: Option<String>,
}

/// The error for a response body that does not hold the expected
/// JSON.
fn deserialize_error() -> (e: ApiError)
    ensures
        e matches ApiError::Deserialize(_),
{
    ApiError::Deserialize(String::from_str("the response body is not the JSON the endpoint promises"))
}

/// The configured client: where to call and as whom. The embedding
/// application pairs it with an HTTP connection pool.
#[derive(Debug)]
pub struct Client {
    /// Base URL of the service.
    pub base_url: String,
    /// The bearer token; sensitive, never to be logged.
    pub api_token: String,
}

impl Client {
    /// A client against the production endpoint.
    pub fn new(api_token: String) -> (r: Result<Client, ApiError>)
        ensures
            (r matches Ok(c) && c.base_url@ == ALEPH_ALPHA_API_BASE_URL@ && c.api_token
                == api_token),
    {
        Client::new_with_base_url(ALEPH_ALPHA_API_BASE_URL.to_owned(), api_token)
    }

    /// A client against a chosen endpoint, for testing.
    pub fn new_with_base_url(base_url: String, api_token: String) -> (r: Result<
        Client,
        ApiError,
    >)
        ensures
            (r matches Ok(c) && c.base_url == base_url && c.api_token == api_token),
    {
        Ok(Client { base_url, api_token })
    }

    /// The value of the `Authorization` header this client sends.
    pub fn auth_header_value(&self) -> (r: String)
        ensures
            r@ == "Bearer "@ + self.api_token@,
    {
        crate::http::auth_header_value(self.api_token.as_str())
    }

    /// Plans a POST with a JSON payload and the politeness flag.
    fn post_plan(&self, path: &str, body_json: &Json, nice: Option<bool>) -> (r: ApiRequest)
        ensures
            r.method == HttpMethod::Post,
            r.url@ == self.base_url@ + path@,
            r.query@.len() == nice_query(nice).len(),
            forall|i: int|
                0 <= i < r.query@.len() ==> (#[trigger] r.query@[i].0@, r.query@[i].1@)
                    == nice_query(nice)[i],
            (r.body matches Some(b) && b@ == ser_json(body_json@)),
    {
        ApiRequest {
            method: HttpMethod::Post,
            url: endpoint_url(self.base_url.as_str(), path),
            query: nice_query_entries(nice),
            body: Some(body_json.to_text()),
        }
    }

    /// Plans a GET without query entries or payload.
    fn get_plan(&self, path: &str) -> (r: ApiRequest)
        ensures
            r.method == HttpMethod::Get,
            r.url@ == self.base_url@ + path@,
            r.query@.len() == 0,
            r.body is None,
    {
        ApiRequest {
            method: HttpMethod::Get,
            url: endpoint_url(self.base_url.as_str(), path),
            query: Vec::new(),
            body: None,
        }
    }

    /// Plans the completion call.
    pub fn completion_request(&self, req: &CompletionRequest, nice: Option<bool>) -> (r:
        ApiRequest)
        ensures
            r.method == HttpMethod::Post,
            r.url@ == self.base_url@ + "/complete"@,
            r.query@.len() == nice_query(nice).len(),
            forall|i: int|
                0 <= i < r.query@.len() ==> (#[trigger] r.query@[i].0@, r.query@[i].1@)
                    == nice_query(nice)[i],
            (r.body matches Some(b) && b@ == ser_json(req.spec_json())),
    {
        self.post_plan("/complete", &req.to_json(), nice)
    }

    /// Plans the evaluation call.
    pub fn evaluation_request(&self, req: &EvaluationRequest, nice: Option<bool>) -> (r:
        ApiRequest)
        ensures
            r.method == HttpMethod::Post,
            r.url@ == self.base_url@ + "/evaluate"@,
            r.query@.len() == nice_query(nice).len(),
            forall|i: int|
                0 <= i < r.query@.len() ==> (#[trigger] r.query@[i].0@, r.query@[i].1@)
                    == nice_query(nice)[i],
            (r.body matches Some(b) && b@ == ser_json(req.spec_json())),
    {
        self.post_plan("/evaluate", &req.to_json(), nice)
    }

    /// Plans the explanation call.
    pub fn explanation_request(&self, req: &ExplanationRequest, nice: Option<bool>) -> (r:
        ApiRequest)
        ensures
            r.method == HttpMethod::Post,
            r.url@ == self.base_url@ + "/explain"@,
            r.query@.len() == nice_query(nice).len(),
            forall|i: int|
                0 <= i < r.query@.len() ==> (#[trigger] r.query@[i].0@, r.query@[i].1@)
                    == nice_query(nice)[i],
            (r.body matches Some(b) && b@ == ser_json(req.spec_json())),
    {
        self.post_plan("/explain", &req.to_json(), nice)
    }

    /// Plans the embedding call.
    pub fn embedding_request(&self, req: &EmbeddingRequest, nice: Option<bool>) -> (r:
        ApiRequest)
        ensures
            r.method == HttpMethod::Post,
            r.url@ == self.base_url@ + "/embed"@,
            r.query@.len() == nice_query(nice).len(),
            forall|i: int|
                0 <= i < r.query@.len() ==> (#[trigger] r.query@[i].0@, r.query@[i].1@)
                    == nice_query(nice)[i],
            (r.body matches Some(b) && b@ == ser_json(req.spec_json())),
    {
        self.post_plan("/embed", &req.to_json(), nice)
    }

    /// Plans the semantic embedding call.
    pub fn semantic_embedding_request(
        &self,
        req: &SemanticEmbeddingRequest,
        nice: Option<bool>,
    ) -> (r: ApiRequest)
        ensures
            r.method == HttpMethod::Post,
            r.url@ == self.base_url@ + "/semantic_embed"@,
            r.query@.len() == nice_query(nice).len(),
            forall|i: int|
                0 <= i < r.query@.len() ==> (#[trigger] r.query@[i].0@, r.query@[i].1@)
                    == nice_query(nice)[i],
            (r.body matches Some(b) && b@ == ser_json(req.spec_json())),
    {
        self.post_plan("/semantic_embed", &req.to_json(), nice)
    }

    /// Plans the batched semantic embedding call.
    pub fn batch_semantic_embedding_request(
        &self,
        req: &BatchSemanticEmbeddingRequest,
        nice: Option<bool>,
    ) -> (r: ApiRequest)
        ensures
            r.method == HttpMethod::Post,
            r.url@ == self.base_url@ + "/batch_semantic_embed"@,
            r.query@.len() == nice_query(nice).len(),
            forall|i: int|
                0 <= i < r.query@.len() ==> (#[trigger] r.query@[i].0@, r.query@[i].1@)
                    == nice_query(nice)[i],
            (r.body matches Some(b) && b@ == ser_json(req.spec_json())),
    {
        self.post_plan("/batch_semantic_embed", &req.to_json(), nice)
    }

    /// Plans the tokenization call.
    pub fn tokenization_request(&self, req: &TokenizationRequest) -> (r: ApiRequest)
        ensures
            r.method == HttpMethod::Post,
            r.url@ == self.base_url@ + "/tokenize"@,
            r.query@.len() == 0,
            (r.body matches Some(b) && b@ == ser_json(req.spec_json())),
    {
        self.post_plan("/tokenize", &req.to_json(), None)
    }

    /// Plans the detokenization call.
    pub fn detokenization_request(&self, req: &DetokenizationRequest) -> (r: ApiRequest)
        ensures
            r.method == HttpMethod::Post,
            r.url@ == self.base_url@ + "/detokenize"@,
            r.query@.len() == 0,
            (r.body matches Some(b) && b@ == ser_json(req.spec_json())),
    {
        self.post_plan("/detokenize", &req.to_json(), None)
    }

    /// Plans the version call.
    pub fn version_request(&self) -> (r: ApiRequest)
        ensures
            r.method == HttpMethod::Get,
            r.url@ == self.base_url@ + "/version"@,
            r.query@.len() == 0,
            r.body is None,
    {
        self.get_plan("/version")
    }

    /// Plans listing the caller\u{2019}s API tokens.
    pub fn list_api_tokens_request(&self) -> (r: ApiRequest)
        ensures
            r.method == HttpMethod::Get,
            r.url@ == self.base_url@ + "/users/me/tokens"@,
            r.query@.len() == 0,
            r.body is None,
    {
        self.get_plan("/users/me/tokens")
    }

    /// Plans creating an API token.
    pub fn create_api_token_request(&self, req: &CreateApiTokenRequest) -> (r: ApiRequest)
        ensures
            r.method == HttpMethod::Post,
            r.url@ == self.base_url@ + "/users/me/tokens"@,
            r.query@.len() == 0,
            (r.body matches Some(b) && b@ == ser_json(req.spec_json())),
    {
        self.post_plan("/users/me/tokens", &req.to_json(), None)
    }

    /// Plans deleting an API token.
    pub fn delete_api_token_request(&self, token_id: i32) -> (r: ApiRequest)
        ensures
            r.method == HttpMethod::Delete,
            r.url@ == self.base_url@ + "/users/me/tokens/"@ + int_lexeme(token_id as int),
            r.query@.len() == 0,
            r.body is None,
    {
        let mut url = endpoint_url(self.base_url.as_str(), "/users/me/tokens/");
        let id_num = crate::json::JsonNumber::from_i64(token_id as i64);
        url.append(id_num.as_str());
        ApiRequest { method: HttpMethod::Delete, url, query: Vec::new(), body: None }
    }

    /// Plans reading the caller\u{2019}s settings.
    pub fn get_user_settings_request(&self) -> (r: ApiRequest)
        ensures
            r.method == HttpMethod::Get,
            r.url@ == self.base_url@ + "/users/me"@,
            r.query@.len() == 0,
            r.body is None,
    {
        self.get_plan("/users/me")
    }

    /// Plans changing the caller\u{2019}s settings.
    pub fn change_user_settings_request(&self, req: &UserChange) -> (r: ApiRequest)
        ensures
            r.method == HttpMethod::Post,
            r.url@ == self.base_url@ + "/users/me"@,
            r.query@.len() == 0,
            (r.body matches Some(b) && b@ == ser_json(req.spec_json())),
    {
        self.post_plan("/users/me", &req.to_json(), None)
    }

    /// Plans downloading the tokenizer model of `model`.
    pub fn tokenizer_binary_request(&self, model: &str) -> (r: ApiRequest)
        ensures
            r.method == HttpMethod::Get,
            r.url@ == self.base_url@ + "/models/"@ + model@ + "/tokenizer"@,
            r.query@.len() == 0,
            r.body is None,
    {
        let mut url = endpoint_url(self.base_url.as_str(), "/models/");
        url.append(model);
        url.append("/tokenizer");
        ApiRequest { method: HttpMethod::Get, url, query: Vec::new(), body: None }
    }
}

/// Reads the version response: the raw body on success.
pub fn decode_version_response(status: u16, body: String) -> (r: Result<String, ApiError>)
    ensures
        r is Ok <==> is_success_status(status),
        is_success_status(status) ==> r == Ok::<String, ApiError>(body),
        status == 429 ==> r == Err::<String, ApiError>(ApiError::TooManyRequests),
        status == 503 ==> r == Err::<String, ApiError>(ApiError::Busy),
        (!is_success_status(status) && status != 429 && status != 503) ==> r == Err::<
            String,
            ApiError,
        >(ApiError::Http { status, body }),
{
    if 200 <= status && status < 300 {
        Ok(body)
    } else {
        Err(classify_http_failure(status, body))
    }
}

/// Reads the completion response: classifies the status, parses the
/// body, and decodes the typed value.
pub fn decode_completion_response(status: u16, body: String) -> (r: Result<CompletionResponse, ApiError>)
    ensures
        status == 429 ==> r == Err::<CompletionResponse, ApiError>(ApiError::TooManyRequests),
        status == 503 ==> r == Err::<CompletionResponse, ApiError>(ApiError::Busy),
        (!is_success_status(status) && status != 429 && status != 503) ==> r == Err::<
            CompletionResponse,
            ApiError,
        >(ApiError::Http { status, body }),
        is_success_status(status) ==> match spec_parse_json(body@) {
            Option::Some(v) => match r {
                Ok(resp) => {
                    &&& spec_string_field(v, "model_version"@) == Option::Some(
                        resp.model_version@,
                    )
                    &&& match obj_lookup(v, "completions"@) {
                        Option::Some(w) => {
                            &&& spec_completion_outputs(w) is Some
                            &&& resp.completions@.len() == spec_completion_outputs(
                                w,
                            )->Some_0.len()
                            &&& forall|i: int|
                                0 <= i < resp.completions@.len() ==> (
                                #[trigger] resp.completions@[i].completion@,
                                resp.completions@[i].finish_reason@,
                                ) == spec_completion_outputs(w)->Some_0[i]
                        },
                        Option::None => false,
                    }
                },
                Err(e) => (e matches ApiError::Deserialize(_)) && (spec_string_field(v, "model_version"@) is None || match obj_lookup(
                    v,
                    "completions"@,
                ) {
                    Option::Some(w) => spec_completion_outputs(w) is None,
                    Option::None => true,
                }),
            },
            Option::None => (r matches Err(e) && e matches ApiError::Deserialize(_)),
        },
{
    if !(200 <= status && status < 300) {
        return Err(classify_http_failure(status, body));
    }
    let j = match parse_json(body.as_str()) {
        Some(j) => j,
        None => {
            return Err(deserialize_error());
        },
    };
    match CompletionResponse::from_json(&j) {
        Some(resp) => Ok(resp),
        None => Err(deserialize_error()),
    }
}

/// Reads the evaluation response: classifies the status, parses the
/// body, and decodes the typed value.
pub fn decode_evaluation_response(status: u16, body: String) -> (r: Result<EvaluationResponse, ApiError>)
    ensures
        status == 429 ==> r == Err::<EvaluationResponse, ApiError>(ApiError::TooManyRequests),
        status == 503 ==> r == Err::<EvaluationResponse, ApiError>(ApiError::Busy),
        (!is_success_status(status) && status != 429 && status != 503) ==> r == Err::<
            EvaluationResponse,
            ApiError,
        >(ApiError::Http { status, body }),
        is_success_status(status) ==> match spec_parse_json(body@) {
            Option::Some(v) => match r {
                Ok(resp) => {
                    &&& spec_string_field(v, "model_version"@) == Option::Some(
                        resp.model_version@,
                    )
                    &&& match obj_lookup(v, "result"@) {
                        Option::Some(w) => eval_result_matches(resp.result, w),
                        Option::None => false,
                    }
                },
                Err(e) => (e matches ApiError::Deserialize(_)) && (spec_string_field(v, "model_version"@) is None || match obj_lookup(
                    v,
                    "result"@,
                ) {
                    Option::Some(w) => !spec_eval_result_ok(w),
                    Option::None => true,
                }),
            },
            Option::None => (r matches Err(e) && e matches ApiError::Deserialize(_)),
        },
{
    if !(200 <= status && status < 300) {
        return Err(classify_http_failure(status, body));
    }
    let j = match parse_json(body.as_str()) {
        Some(j) => j,
        None => {
            return Err(deserialize_error());
        },
    };
    match EvaluationResponse::from_json(&j) {
        Some(resp) => Ok(resp),
        None => Err(deserialize_error()),
    }
}

/// Reads the tokenization response: classifies the status, parses the
/// body, and decodes the typed value.
pub fn decode_tokenization_response(status: u16, body: String) -> (r: Result<TokenizationResponse, ApiError>)
    ensures
        status == 429 ==> r == Err::<TokenizationResponse, ApiError>(ApiError::TooManyRequests),
        status == 503 ==> r == Err::<TokenizationResponse, ApiError>(ApiError::Busy),
        (!is_success_status(status) && status != 429 && status != 503) ==> r == Err::<
            TokenizationResponse,
            ApiError,
        >(ApiError::Http { status, body }),
        is_success_status(status) ==> match spec_parse_json(body@) {
            Option::Some(v) => match r {
                Ok(resp) => {
                    &&& v is Obj
                    &&& spec_tokens_field(v) == Option::Some(
                        match resp.tokens {
                            Option::Some(ts) => Option::Some(ts.deep_view()),
                            Option::None => Option::<Seq<Seq<char>>>::None,
                        },
                    )
                    &&& spec_token_ids_field(v) == Option::Some(
                        match resp.token_ids {
                            Option::Some(ids) => Option::Some(ids@),
                            Option::None => Option::<Seq<u32>>::None,
                        },
                    )
                },
                Err(e) => (e matches ApiError::Deserialize(_)) && (!(v is Obj) || spec_tokens_field(v) is None || spec_token_ids_field(
                    v,
                ) is None),
            },
            Option::None => (r matches Err(e) && e matches ApiError::Deserialize(_)),
        },
{
    if !(200 <= status && status < 300) {
        return Err(classify_http_failure(status, body));
    }
    let j = match parse_json(body.as_str()) {
        Some(j) => j,
        None => {
            return Err(deserialize_error());
        },
    };
    match TokenizationResponse::from_json(&j) {
        Some(resp) => Ok(resp),
        None => Err(deserialize_error()),
    }
}

/// Reads the detokenization response: classifies the status, parses the
/// body, and decodes the typed value.
pub fn decode_detokenization_response(status: u16, body: String) -> (r: Result<DetokenizationResponse, ApiError>)
    ensures
        status == 429 ==> r == Err::<DetokenizationResponse, ApiError>(ApiError::TooManyRequests),
        status == 503 ==> r == Err::<DetokenizationResponse, ApiError>(ApiError::Busy),
        (!is_success_status(status) && status != 429 && status != 503) ==> r == Err::<
            DetokenizationResponse,
            ApiError,
        >(ApiError::Http { status, body }),
        is_success_status(status) ==> match spec_parse_json(body@) {
            Option::Some(v) => match r {
                Ok(resp) => {
                    obj_lookup(v, "result"@) == Option::Some(JsonVal::Str(resp.result@))
                },
                Err(e) => (e matches ApiError::Deserialize(_)) && (match obj_lookup(v, "result"@) {
                    Option::Some(w) => !(w is Str),
                    Option::None => true,
                }),
            },
            Option::None => (r matches Err(e) && e matches ApiError::Deserialize(_)),
        },
{
    if !(200 <= status && status < 300) {
        return Err(classify_http_failure(status, body));
    }
    let j = match parse_json(body.as_str()) {
        Some(j) => j,
        None => {
            return Err(deserialize_error());
        },
    };
    match DetokenizationResponse::from_json(&j) {
        Some(resp) => Ok(resp),
        None => Err(deserialize_error()),
    }
}

/// Reads the embedding response: classifies the status, parses the
/// body, and decodes the typed value.
pub fn decode_embedding_response(status: u16, body: String) -> (r: Result<EmbeddingResponse, ApiError>)
    ensures
        status == 429 ==> r == Err::<EmbeddingResponse, ApiError>(ApiError::TooManyRequests),
        status == 503 ==> r == Err::<EmbeddingResponse, ApiError>(ApiError::Busy),
        (!is_success_status(status) && status != 429 && status != 503) ==> r == Err::<
            EmbeddingResponse,
            ApiError,
        >(ApiError::Http { status, body }),
        is_success_status(status) ==> match spec_parse_json(body@) {
            Option::Some(v) => match r {
                Ok(resp) => {
                    &&& spec_string_field(v, "model_version"@) == Option::Some(
                        resp.model_version@,
                    )
                    &&& match obj_lookup(v, "embeddings"@) {
                        Option::Some(w) => spec_layer_map(w) is Some && layers_match(
                            resp.embeddings@,
                            spec_layer_map(w)->Some_0,
                        ),
                        Option::None => false,
                    }
                    &&& spec_tokens_field(v) == Option::Some(
                        match resp.tokens {
                            Option::Some(ts) => Option::Some(ts.deep_view()),
                            Option::None => Option::<Seq<Seq<char>>>::None,
                        },
                    )
                },
                Err(e) => (e matches ApiError::Deserialize(_)) && (spec_string_field(v, "model_version"@) is None || match obj_lookup(
                    v,
                    "embeddings"@,
                ) {
                    Option::Some(w) => spec_layer_map(w) is None,
                    Option::None => true,
                } || spec_tokens_field(v) is None),
            },
            Option::None => (r matches Err(e) && e matches ApiError::Deserialize(_)),
        },
{
    if !(200 <= status && status < 300) {
        return Err(classify_http_failure(status, body));
    }
    let j = match parse_json(body.as_str()) {
        Some(j) => j,
        None => {
            return Err(deserialize_error());
        },
    };
    match EmbeddingResponse::from_json(&j) {
        Some(resp) => Ok(resp),
        None => Err(deserialize_error()),
    }
}

/// Reads the semantic embedding response: classifies the status, parses the
/// body, and decodes the typed value.
pub fn decode_semantic_embedding_response(status: u16, body: String) -> (r: Result<SemanticEmbeddingResponse, ApiError>)
    ensures
        status == 429 ==> r == Err::<SemanticEmbeddingResponse, ApiError>(ApiError::TooManyRequests),
        status == 503 ==> r == Err::<SemanticEmbeddingResponse, ApiError>(ApiError::Busy),
        (!is_success_status(status) && status != 429 && status != 503) ==> r == Err::<
            SemanticEmbeddingResponse,
            ApiError,
        >(ApiError::Http { status, body }),
        is_success_status(status) ==> match spec_parse_json(body@) {
            Option::Some(v) => match r {
                Ok(resp) => {
                    &&& spec_string_field(v, "model_version"@) == Option::Some(
                        resp.model_version@,
                    )
                    &&& match obj_lookup(v, "embedding"@) {
                        Option::Some(w) => spec_num_array(w) is Some && num_vec_matches(
                            resp.embedding,
                            spec_num_array(w)->Some_0,
                        ),
                        Option::None => false,
                    }
                },
                Err(e) => (e matches ApiError::Deserialize(_)) && (spec_string_field(v, "model_version"@) is None || match obj_lookup(
                    v,
                    "embedding"@,
                ) {
                    Option::Some(w) => spec_num_array(w) is None,
                    Option::None => true,
                }),
            },
            Option::None => (r matches Err(e) && e matches ApiError::Deserialize(_)),
        },
{
    if !(200 <= status && status < 300) {
        return Err(classify_http_failure(status, body));
    }
    let j = match parse_json(body.as_str()) {
        Some(j) => j,
        None => {
            return Err(deserialize_error());
        },
    };
    match SemanticEmbeddingResponse::from_json(&j) {
        Some(resp) => Ok(resp),
        None => Err(deserialize_error()),
    }
}

/// Reads the batched semantic embedding response: classifies the status, parses the
/// body, and decodes the typed value.
pub fn decode_batch_semantic_embedding_response(status: u16, body: String) -> (r: Result<BatchSemanticEmbeddingResponse, ApiError>)
    ensures
        status == 429 ==> r == Err::<BatchSemanticEmbeddingResponse, ApiError>(ApiError::TooManyRequests),
        status == 503 ==> r == Err::<BatchSemanticEmbeddingResponse, ApiError>(ApiError::Busy),
        (!is_success_status(status) && status != 429 && status != 503) ==> r == Err::<
            BatchSemanticEmbeddingResponse,
            ApiError,
        >(ApiError::Http { status, body }),
        is_success_status(status) ==> match spec_parse_json(body@) {
            Option::Some(v) => match r {
                Ok(resp) => {
                    &&& spec_string_field(v, "model_version"@) == Option::Some(
                        resp.model_version@,
                    )
                    &&& match obj_lookup(v, "embeddings"@) {
                        Option::Some(w) => {
                            &&& spec_num_matrix(w) is Some
                            &&& resp.embeddings@.len() == spec_num_matrix(w)->Some_0.len()
                            &&& forall|i: int|
                                0 <= i < resp.embeddings@.len() ==> num_vec_matches(
                                    #[trigger] resp.embeddings@[i],
                                    spec_num_matrix(w)->Some_0[i],
                                )
                        },
                        Option::None => false,
                    }
                },
                Err(e) => (e matches ApiError::Deserialize(_)) && (spec_string_field(v, "model_version"@) is None || match obj_lookup(
                    v,
                    "embeddings"@,
                ) {
                    Option::Some(w) => spec_num_matrix(w) is None,
                    Option::None => true,
                }),
            },
            Option::None => (r matches Err(e) && e matches ApiError::Deserialize(_)),
        },
{
    if !(200 <= status && status < 300) {
        return Err(classify_http_failure(status, body));
    }
    let j = match parse_json(body.as_str()) {
        Some(j) => j,
        None => {
            return Err(deserialize_error());
        },
    };
    match BatchSemanticEmbeddingResponse::from_json(&j) {
        Some(resp) => Ok(resp),
        None => Err(deserialize_error()),
    }
}

/// Reads the explanation response: classifies the status, parses the
/// body, and decodes the typed value.
pub fn decode_explanation_response(status: u16, body: String) -> (r: Result<ExplanationResponse, ApiError>)
    ensures
        status == 429 ==> r == Err::<ExplanationResponse, ApiError>(ApiError::TooManyRequests),
        status == 503 ==> r == Err::<ExplanationResponse, ApiError>(ApiError::Busy),
        (!is_success_status(status) && status != 429 && status != 503) ==> r == Err::<
            ExplanationResponse,
            ApiError,
        >(ApiError::Http { status, body }),
        is_success_status(status) ==> match spec_parse_json(body@) {
            Option::Some(v) => match r {
                Ok(resp) => {
                    &&& spec_string_field(v, "model_version"@) == Option::Some(
                        resp.model_version@,
                    )
                    &&& match obj_lookup(v, "explanations"@) {
                        Option::Some(w) => match w {
                            JsonVal::Arr(items) => {
                                &&& forall|i: int|
                                    0 <= i < items.len() ==> (#[trigger] spec_explanation_item(
                                        items[i],
                                    )) is Some
                                &&& resp.explanations@.len() == items.len()
                                &&& forall|i: int|
                                    0 <= i < items.len() ==> explanation_item_matches(
                                        #[trigger] resp.explanations@[i],
                                        spec_explanation_item(items[i])->Some_0,
                                    )
                            },
                            _ => false,
                        },
                        Option::None => false,
                    }
                },
                Err(e) => (e matches ApiError::Deserialize(_)) && (spec_string_field(v, "model_version"@) is None || match obj_lookup(
                    v,
                    "explanations"@,
                ) {
                    Option::Some(w) => match w {
                        JsonVal::Arr(items) => exists|i: int|
                            0 <= i < items.len() && (#[trigger] spec_explanation_item(
                                items[i],
                            )) is None,
                        _ => true,
                    },
                    Option::None => true,
                }),
            },
            Option::None => (r matches Err(e) && e matches ApiError::Deserialize(_)),
        },
{
    if !(200 <= status && status < 300) {
        return Err(classify_http_failure(status, body));
    }
    let j = match parse_json(body.as_str()) {
        Some(j) => j,
        None => {
            return Err(deserialize_error());
        },
    };
    match ExplanationResponse::from_json(&j) {
        Some(resp) => Ok(resp),
        None => Err(deserialize_error()),
    }
}

/// Reads the token creation response: classifies the status, parses the
/// body, and decodes the typed value.
pub fn decode_create_api_token_response(status: u16, body: String) -> (r: Result<CreateApiTokenResponse, ApiError>)
    ensures
        status == 429 ==> r == Err::<CreateApiTokenResponse, ApiError>(ApiError::TooManyRequests),
        status == 503 ==> r == Err::<CreateApiTokenResponse, ApiError>(ApiError::Busy),
        (!is_success_status(status) && status != 429 && status != 503) ==> r == Err::<
            CreateApiTokenResponse,
            ApiError,
        >(ApiError::Http { status, body }),
        is_success_status(status) ==> match spec_parse_json(body@) {
            Option::Some(v) => match r {
                Ok(resp) => {
                    &&& match obj_lookup(v, "metadata"@) {
                        Option::Some(w) => {
                            &&& matches_opt_string_val(
                                resp.metadata.description,
                                spec_opt_string_field(w, "description"@),
                            )
                            &&& spec_token_id_field(w) == Option::Some(resp.metadata.token_id)
                        },
                        Option::None => false,
                    }
                    &&& spec_string_field(v, "token"@) == Option::Some(resp.token@)
                },
                Err(e) => (e matches ApiError::Deserialize(_)) && (spec_string_field(v, "token"@) is None || match obj_lookup(
                    v,
                    "metadata"@,
                ) {
                    Option::Some(w) => spec_opt_string_field(w, "description"@) is None
                        || spec_token_id_field(w) is None,
                    Option::None => true,
                }),
            },
            Option::None => (r matches Err(e) && e matches ApiError::Deserialize(_)),
        },
{
    if !(200 <= status && status < 300) {
        return Err(classify_http_failure(status, body));
    }
    let j = match parse_json(body.as_str()) {
        Some(j) => j,
        None => {
            return Err(deserialize_error());
        },
    };
    match CreateApiTokenResponse::from_json(&j) {
        Some(resp) => Ok(resp),
        None => Err(deserialize_error()),
    }
}

/// Reads the user settings response: classifies the status, parses the
/// body, and decodes the typed value.
pub fn decode_user_settings_response(status: u16, body: String) -> (r: Result<UserDetail, ApiError>)
    ensures
        status == 429 ==> r == Err::<UserDetail, ApiError>(ApiError::TooManyRequests),
        status == 503 ==> r == Err::<UserDetail, ApiError>(ApiError::Busy),
        (!is_success_status(status) && status != 429 && status != 503) ==> r == Err::<
            UserDetail,
            ApiError,
        >(ApiError::Http { status, body }),
        is_success_status(status) ==> match spec_parse_json(body@) {
            Option::Some(v) => match r {
                Ok(resp) => {
                    &&& spec_user_id_field(v) == Option::Some(resp.id)
                    &&& spec_string_field(v, "email"@) == Option::Some(resp.email@)
                    &&& spec_string_field(v, "role"@) == Option::Some(resp.role@)
                    &&& spec_string_field(v, "credits_remaining"@) == Option::Some(
                        resp.credits_remaining@,
                    )
                    &&& spec_invoice_allowed_field(v) == Option::Some(resp.invoice_allowed)
                    &&& spec_string_field(v, "out_of_credits_threshold"@) == Option::Some(
                        resp.out_of_credits_threshold@,
                    )
                    &&& spec_string_field(v, "terms_of_service_version"@) == Option::Some(
                        resp.terms_of_service_version@,
                    )
                },
                Err(e) => (e matches ApiError::Deserialize(_)) && (spec_user_id_field(v) is None || spec_string_field(v, "email"@) is None
                    || spec_string_field(v, "role"@) is None || spec_string_field(
                    v,
                    "credits_remaining"@,
                ) is None || spec_invoice_allowed_field(v) is None || spec_string_field(
                    v,
                    "out_of_credits_threshold"@,
                ) is None || spec_string_field(v, "terms_of_service_version"@) is None),
            },
            Option::None => (r matches Err(e) && e matches ApiError::Deserialize(_)),
        },
{
    if !(200 <= status && status < 300) {
        return Err(classify_http_failure(status, body));
    }
    let j = match parse_json(body.as_str()) {
        Some(j) => j,
        None => {
            return Err(deserialize_error());
        },
    };
    match UserDetail::from_json(&j) {
        Some(resp) => Ok(resp),
        None => Err(deserialize_error()),
    }
}

/// Every entry of a token-list body decodes.
pub open spec fn spec_token_list_ok(v: JsonVal) -> bool {
    match v {
        JsonVal::Arr(items) => forall|i: int|
            0 <= i < items.len() ==> (#[trigger] spec_opt_string_field(
                items[i],
                "description"@,
            )) is Some && spec_token_id_field(items[i]) is Some,
        _ => false,
    }
}

/// Reads the token-list response: classifies the status, parses the
/// body, and decodes each entry.
pub fn decode_list_api_tokens_response(status: u16, body: String) -> (r: Result<
    Vec<ApiTokenMetadata>,
    ApiError,
>)
    ensures
        status == 429 ==> r == Err::<Vec<ApiTokenMetadata>, ApiError>(
            ApiError::TooManyRequests,
        ),
        status == 503 ==> r == Err::<Vec<ApiTokenMetadata>, ApiError>(ApiError::Busy),
        (!is_success_status(status) && status != 429 && status != 503) ==> r == Err::<
            Vec<ApiTokenMetadata>,
            ApiError,
        >(ApiError::Http { status, body }),
        is_success_status(status) ==> match spec_parse_json(body@) {
            Option::Some(v) => match r {
                Ok(resp) => match v {
                    JsonVal::Arr(items) => {
                        &&& spec_token_list_ok(v)
                        &&& resp@.len() == items.len()
                        &&& forall|i: int|
                            0 <= i < items.len() ==> matches_opt_string_val(
                                (#[trigger] resp@[i]).description,
                                spec_opt_string_field(items[i], "description"@),
                            ) && spec_token_id_field(items[i]) == Option::Some(
                                resp@[i].token_id,
                            )
                    },
                    _ => false,
                },
                Err(e) => (e matches ApiError::Deserialize(_)) && !spec_token_list_ok(v),
            },
            Option::None => (r matches Err(e) && e matches ApiError::Deserialize(_)),
        },
{
    if !(200 <= status && status < 300) {
        return Err(classify_http_failure(status, body));
    }
    let j = match parse_json(body.as_str()) {
        Some(j) => j,
        None => {
            return Err(deserialize_error());
        },
    };
    match &j {
        Json::Arr(items) => {
            proof {
                crate::json::lemma_json_view_seq(items@);
            }
            let ghost view_items = crate::json::json_view_seq(items@);
            let mut out: Vec<ApiTokenMetadata> = Vec::new();
            let mut i: usize = 0;
            while i < items.len()
                invariant
                    200 <= status < 300,
                    spec_parse_json(body@) == Option::Some(j@),
                    j@ == JsonVal::Arr(view_items),
                    i <= items.len(),
                    view_items == crate::json::json_view_seq(items@),
                    view_items.len() == items@.len(),
                    forall|k: int|
                        0 <= k < items@.len() ==> view_items[k] == crate::json::json_view(
                            #[trigger] items@[k],
                        ),
                    out@.len() == i,
                    forall|k: int|
                        0 <= k < i ==> (#[trigger] spec_opt_string_field(
                            view_items[k],
                            "description"@,
                        )) is Some && spec_token_id_field(view_items[k]) is Some,
                    forall|k: int|
                        0 <= k < i ==> matches_opt_string_val(
                            (#[trigger] out@[k]).description,
                            spec_opt_string_field(view_items[k], "description"@),
                        ) && spec_token_id_field(view_items[k]) == Option::Some(
                            out@[k].token_id,
                        ),
                decreases items.len() - i,
            {
                match ApiTokenMetadata::from_json(&items[i]) {
                    Some(m) => {
                        out.push(m);
                    },
                    None => {
                        proof {
                            assert(spec_opt_string_field(
                                view_items[i as int],
                                "description"@,
                            ) is None || spec_token_id_field(view_items[i as int]) is None);
                        }
                        return Err(deserialize_error());
                    },
                }
                i = i + 1;
            }
            Ok(out)
        },
        _ => Err(deserialize_error()),
    }
}

} // verus!
