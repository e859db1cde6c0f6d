//! The evaluation endpoint: how likely a model is to produce a given
//! completion for a given prompt.

use vstd::prelude::*;
use vstd::string::StringExecFns;
use crate::completion::opt_hosting_json;
use crate::completion::push_opt_hosting;
use crate::completion::Hosting;
use crate::completion::Modality;
use crate::completion::Prompt;
use crate::decode::get_opt_bool;
use crate::decode::get_opt_i32;
use crate::decode::get_opt_number;
use crate::decode::get_opt_string;
use crate::decode::get_string;
use crate::decode::opt_bool_json;
use crate::decode::opt_num_json;
use crate::decode::push_opt_bool;
use crate::decode::push_opt_num;
use crate::decode::matches_opt_num_val;
use crate::decode::matches_opt_string_val;
use crate::decode::spec_opt_bool_field;
use crate::decode::spec_opt_i32_field;
use crate::decode::spec_opt_num_field;
use crate::decode::spec_opt_string_field;
use crate::decode::spec_string_field;
use crate::json::json_view_members;
use crate::json::obj_lookup;
use crate::json::opt_member;
use crate::json::push_member;
use crate::json::Json;
use crate::json::JsonNumber;
use crate::json::JsonVal;

verus! {

/// Asks the service how likely `model` is to continue `prompt` with
/// `completion_expected`.
#[derive(Debug)]
pub struct EvaluationRequest {
    /// Name of the model asked for the evaluation.
    pub model: String,
    /// Base prompt for the evaluation.
    pub prompt: Prompt,
    /// Determines in which datacenters the request may be processed.
    pub hosting: Option<Hosting>,
    /// The completion to grade; the empty string evaluates the
    /// unconditional completion.
    pub completion_expected: String,
    /// Apply attention controls to tokens at least this similar to
    /// the controlled ones.
    pub contextual_control_threshold: Option<JsonNumber>,
    /// Apply controls additively on the attention scores rather than
    /// by scaling.
    pub control_log_additive: Option<bool>,
}

impl EvaluationRequest {
    /// The wire payload, in the declared field order, with unset
    /// optional fields off the wire.
    pub open spec fn spec_json(self) -> JsonVal {
        JsonVal::Obj(
            seq![("model"@, JsonVal::Str(self.model@)), ("prompt"@, self.prompt.spec_json())]
                + opt_member("hosting"@, opt_hosting_json(self.hosting)) + seq![
                ("completion_expected"@, JsonVal::Str(self.completion_expected@)),
            ] + opt_member(
                "contextual_control_threshold"@,
                opt_num_json(self.contextual_control_threshold),
            ) + opt_member("control_log_additive"@, opt_bool_json(self.control_log_additive)),
        )
    }

    /// Builds the wire payload.
    pub fn to_json(&self) -> (r: Json)
        ensures
            r@ == self.spec_json(),
    {
        let mut members: Vec<(String, Json)> = Vec::new();
        push_member(&mut members, "model", Json::Str(self.model.clone()));
        push_member(&mut members, "prompt", self.prompt.to_json());
        push_opt_hosting(&mut members, "hosting", &self.hosting);
        push_member(
            &mut members,
            "completion_expected",
            Json::Str(self.completion_expected.clone()),
        );
        push_opt_num(
            &mut members,
            "contextual_control_threshold",
            &self.contextual_control_threshold,
        );
        push_opt_bool(&mut members, "control_log_additive", &self.control_log_additive);
        let r = Json::Obj(members);
        proof {
            assert(json_view_members(members@) =~~= self.spec_json()->Obj_0);
        }
        r
    }

    /// A request grading `completion_expected` as the continuation of
    /// the plain text `prompt`.
    pub fn from_text(model: &str, prompt: &str, completion_expected: &str) -> (r: Self)
        ensures
            r.model@ == model@,
            r.prompt.0@.len() == 1,
            (r.prompt.0@[0] matches Modality::Text { data, controls } && data@ == prompt@
                && controls is None),
            r.completion_expected@ == completion_expected@,
            r.hosting is None,
            r.contextual_control_threshold is None,
            r.control_log_additive is None,
    {
        EvaluationRequest {
            model: model.to_owned(),
            prompt: Prompt::from_text(prompt),
            hosting: None,
            completion_expected: completion_expected.to_owned(),
            contextual_control_threshold: None,
            control_log_additive: None,
        }
    }
}

/// The metrics of one evaluation.
#[derive(Debug)]
pub struct EvaluationResult {
    /// Log probability of the expected completion given the prompt.
    pub log_probability: Option<JsonNumber>,
    /// Log perplexity of the expected completion given the prompt.
    pub log_perplexity: Option<JsonNumber>,
    /// Log perplexity normalized for the number of tokens.
    pub log_perplexity_per_token: Option<JsonNumber>,
    /// Log perplexity normalized for the number of characters.
    pub log_perplexity_per_character: Option<JsonNumber>,
    /// Whether a greedy completion would have produced the expected
    /// completion.
    pub correct_greedy: Option<bool>,
    /// Number of tokens in the expected completion.
    pub token_count: Option<i32>,
    /// Number of characters in the expected completion.
    pub character_count: Option<i32>,
    /// The argmax completion given prompt and expected completion.
    pub completion: Option<String>,
}

/// Every member of a result object that is present has the expected
/// type.
pub open spec fn spec_eval_result_ok(v: JsonVal) -> bool {
    &&& spec_opt_num_field(v, "log_probability"@) is Some
    &&& spec_opt_num_field(v, "log_perplexity"@) is Some
    &&& spec_opt_num_field(v, "log_perplexity_per_token"@) is Some
    &&& spec_opt_num_field(v, "log_perplexity_per_character"@) is Some
    &&& spec_opt_bool_field(v, "correct_greedy"@) is Some
    &&& spec_opt_i32_field(v, "token_count"@) is Some
    &&& spec_opt_i32_field(v, "character_count"@) is Some
    &&& spec_opt_string_field(v, "completion"@) is Some
}

/// `res` holds exactly the values of the result object `v`.
pub open spec fn eval_result_matches(res: EvaluationResult, v: JsonVal) -> bool {
    &&& matches_opt_num_val(res.log_probability, spec_opt_num_field(v, "log_probability"@))
    &&& matches_opt_num_val(res.log_perplexity, spec_opt_num_field(v, "log_perplexity"@))
    &&& matches_opt_num_val(
        res.log_perplexity_per_token,
        spec_opt_num_field(v, "log_perplexity_per_token"@),
    )
    &&& matches_opt_num_val(
        res.log_perplexity_per_character,
        spec_opt_num_field(v, "log_perplexity_per_character"@),
    )
    &&& Option::Some(res.correct_greedy) == spec_opt_bool_field(v, "correct_greedy"@)
    &&& Option::Some(res.token_count) == spec_opt_i32_field(v, "token_count"@)
    &&& Option::Some(res.character_count) == spec_opt_i32_field(v, "character_count"@)
    &&& matches_opt_string_val(res.completion, spec_opt_string_field(v, "completion"@))
}

impl EvaluationResult {
    /// Reads the `result` object. Succeeds exactly when every present
    /// member has the expected type.
    pub fn from_json(j: &Json) -> (r: Option<EvaluationResult>)
        ensures
            match r {
                Option::Some(res) => eval_result_matches(res, j@),
                Option::None => !spec_eval_result_ok(j@),
            },
    {
        let log_probability = match get_opt_number(j, "log_probability") {
            Some(v) => v,
            None => {
                return None;
            },
        };
        let log_perplexity = match get_opt_number(j, "log_perplexity") {
            Some(v) => v,
            None => {
                return None;
            },
        };
        let log_perplexity_per_token = match get_opt_number(j, "log_perplexity_per_token") {
            Some(v) => v,
            None => {
                return None;
            },
        };
        let log_perplexity_per_character = match get_opt_number(
            j,
            "log_perplexity_per_character",
        ) {
            Some(v) => v,
            None => {
                return None;
            },
        };
        let correct_greedy = match get_opt_bool(j, "correct_greedy") {
            Some(v) => v,
            None => {
                return None;
            },
        };
        let token_count = match get_opt_i32(j, "token_count") {
            Some(v) => v,
            None => {
                return None;
            },
        };
        let character_count = match get_opt_i32(j, "character_count") {
            Some(v) => v,
            None => {
                return None;
            },
        };
        let completion = match get_opt_string(j, "completion") {
            Some(v) => v,
            None => {
                return None;
            },
        };
        Some(
            EvaluationResult {
                log_probability,
                log_perplexity,
                log_perplexity_per_token,
                log_perplexity_per_character,
                correct_greedy,
                token_count,
                character_count,
                completion,
            },
        )
    }
}

/// What the service answered to an evaluation request.
#[derive(Debug)]
pub struct EvaluationResponse {
    /// Name and version of the model that did the inference.
    pub model_version: String,
    /// The metrics of the evaluation.
    pub result: EvaluationResult,
}

impl EvaluationResponse {
    /// Reads a response body. Succeeds exactly when `model_version`
    /// is a string and `result` decodes as an evaluation result.
    pub fn from_json(j: &Json) -> (r: Option<EvaluationResponse>)
        ensures
            match r {
                Option::Some(resp) => {
                    &&& spec_string_field(j@, "model_version"@) == Option::Some(
                        resp.model_version@,
                    )
                    &&& match obj_lookup(j@, "result"@) {
                        Option::Some(w) => eval_result_matches(resp.result, w),
                        Option::None => false,
                    }
                },
                Option::None => spec_string_field(j@, "model_version"@) is None || match
                    obj_lookup(j@, "result"@) {
                    Option::Some(w) => !spec_eval_result_ok(w),
                    Option::None => true,
                },
            },
    {
        let model_version = match get_string(j, "model_version") {
            Some(s) => s,
            None => {
                return None;
            },
        };
        let result_json = match j.get("result") {
            Some(w) => w,
            None => {
                return None;
            },
        };
        match EvaluationResult::from_json(result_json) {
            Some(result) => Some(EvaluationResponse { model_version, result }),
            None => None,
        }
    }
}

} // verus!
