//! Requests and responses of the tokenization endpoints.

use vstd::prelude::*;
use crate::decode::decode_str_array;
use crate::decode::decode_string;
use crate::decode::decode_u32_array;
use crate::decode::json_u32_array;
use crate::decode::spec_json_u32_array;
use crate::decode::spec_str_array;
use crate::decode::spec_string;
use crate::decode::spec_u32_array;
use crate::json::json_view_members;
use crate::json::lemma_json_view_members;
use crate::json::obj_lookup;
use crate::json::Json;
use crate::json::JsonVal;
use vstd::string::StringExecFns;

verus! {

/// Asks the service to tokenize `prompt` with the tokenizer of
/// `model`.
#[derive(Debug)]
pub struct TokenizationRequest {
    /// Name of the model whose tokenizer does the work.
    pub model: String,
    /// Text to tokenize.
    pub prompt: String,
    /// Ask for the textual tokens.
    pub tokens: bool,
    /// Ask for the numeric token ids.
    pub token_ids: bool,
}

impl TokenizationRequest {
    /// The wire payload: all four fields, always present.
    pub open spec fn spec_json(self) -> JsonVal {
        JsonVal::Obj(
            seq![
                ("model"@, JsonVal::Str(self.model@)),
                ("prompt"@, JsonVal::Str(self.prompt@)),
                ("tokens"@, JsonVal::Bool(self.tokens)),
                ("token_ids"@, JsonVal::Bool(self.token_ids)),
            ],
        )
    }

    /// Builds the wire payload.
    pub fn to_json(&self) -> (r: Json)
        ensures
            r@ == self.spec_json(),
    {
        let mut members: Vec<(String, Json)> = Vec::new();
        members.push((String::from_str("model"), Json::Str(self.model.clone())));
        members.push((String::from_str("prompt"), Json::Str(self.prompt.clone())));
        members.push((String::from_str("tokens"), Json::Bool(self.tokens)));
        members.push((String::from_str("token_ids"), Json::Bool(self.token_ids)));
        let r = Json::Obj(members);
        proof {
            lemma_json_view_members(members@);
            assert(json_view_members(members@) =~= self.spec_json()->Obj_0);
        }
        r
    }
}

/// What the service answered: the textual tokens and the token ids,
/// each present when asked for.
#[derive(Debug)]
pub struct TokenizationResponse {
    pub tokens: Option<Vec<String>>,
    pub token_ids: Option<Vec<u32>>,
}

/// Meaning of the `tokens` member of a tokenization response body.
pub open spec fn spec_tokens_field(v: JsonVal) -> Option<Option<Seq<Seq<char>>>> {
    match obj_lookup(v, "tokens"@) {
        Option::None => Option::Some(Option::None),
        Option::Some(JsonVal::Null) => Option::Some(Option::None),
        Option::Some(w) => match spec_str_array(w) {
            Option::Some(s) => Option::Some(Option::Some(s)),
            Option::None => Option::None,
        },
    }
}

/// Meaning of the `token_ids` member of a tokenization response body.
pub open spec fn spec_token_ids_field(v: JsonVal) -> Option<Option<Seq<u32>>> {
    match obj_lookup(v, "token_ids"@) {
        Option::None => Option::Some(Option::None),
        Option::Some(JsonVal::Null) => Option::Some(Option::None),
        Option::Some(w) => match spec_u32_array(w) {
            Option::Some(s) => Option::Some(Option::Some(s)),
            Option::None => Option::None,
        },
    }
}

impl TokenizationResponse {
    /// Reads a response body. Succeeds exactly when `j` is an object
    /// whose `tokens` member, if present and not null, is an array of
    /// strings, and whose `token_ids` member, if present and not
    /// null, is an array of token ids.
    pub fn from_json(j: &Json) -> (r: Option<TokenizationResponse>)
        ensures
            match r {
                Option::Some(resp) => {
                    &&& j@ is Obj
                    &&& spec_tokens_field(j@) == Option::Some(
                        match resp.tokens {
                            Option::Some(v) => Option::Some(v.deep_view()),
                            Option::None => Option::<Seq<Seq<char>>>::None,
                        },
                    )
                    &&& spec_token_ids_field(j@) == Option::Some(
                        match resp.token_ids {
                            Option::Some(v) => Option::Some(v@),
                            Option::None => Option::<Seq<u32>>::None,
                        },
                    )
                },
                Option::None => !(j@ is Obj) || spec_tokens_field(j@) is None
                    || spec_token_ids_field(j@) is None,
            },
    {
        match j {
            Json::Obj(_) => {},
            _ => {
                return None;
            },
        }
        let tokens: Option<Vec<String>> = match j.get("tokens") {
            None => None,
            Some(w) => match w {
                Json::Null => None,
                _ => match decode_str_array(w) {
                    Some(v) => Some(v),
                    None => {
                        return None;
                    },
                },
            },
        };
        let token_ids: Option<Vec<u32>> = match j.get("token_ids") {
            None => None,
            Some(w) => match w {
                Json::Null => None,
                _ => match decode_u32_array(w) {
                    Some(v) => Some(v),
                    None => {
                        return None;
                    },
                },
            },
        };
        Some(TokenizationResponse { tokens, token_ids })
    }
}

/// Asks the service to turn `token_ids` back into text.
#[derive(Debug)]
pub struct DetokenizationRequest {
    /// Name of the model whose tokenizer does the work.
    pub model: String,
    /// The ids to detokenize.
    pub token_ids: Vec<u32>,
}

impl DetokenizationRequest {
    /// The wire payload: the model and the id array.
    pub open spec fn spec_json(self) -> JsonVal {
        JsonVal::Obj(
            seq![
                ("model"@, JsonVal::Str(self.model@)),
                ("token_ids"@, spec_json_u32_array(self.token_ids@)),
            ],
        )
    }

    /// Builds the wire payload.
    pub fn to_json(&self) -> (r: Json)
        ensures
            r@ == self.spec_json(),
    {
        let mut members: Vec<(String, Json)> = Vec::new();
        members.push((String::from_str("model"), Json::Str(self.model.clone())));
        members.push((String::from_str("token_ids"), json_u32_array(&self.token_ids)));
        let r = Json::Obj(members);
        proof {
            lemma_json_view_members(members@);
            assert(json_view_members(members@) =~= self.spec_json()->Obj_0);
        }
        r
    }
}

/// The text that a list of token ids denotes.
#[derive(Debug)]
pub struct DetokenizationResponse {
    pub result: String,
}

impl DetokenizationResponse {
    /// Reads a response body. Succeeds exactly when `j` is an object
    /// whose `result` member is a string.
    pub fn from_json(j: &Json) -> (r: Option<DetokenizationResponse>)
        ensures
            match r {
                Option::Some(resp) => obj_lookup(j@, "result"@) == Option::Some(
                    JsonVal::Str(resp.result@),
                ),
                Option::None => match obj_lookup(j@, "result"@) {
                    Option::Some(w) => !(w is Str),
                    Option::None => true,
                },
            },
    {
        match j.get("result") {
            Some(w) => match decode_string(w) {
                Some(s) => Some(DetokenizationResponse { result: s }),
                None => None,
            },
            None => None,
        }
    }
}

} // verus!
