//! Management of API tokens: listing, creating and describing them.

use vstd::prelude::*;
use vstd::string::StringExecFns;
use crate::decode::get_opt_string;
use crate::decode::get_string;
use crate::decode::spec_opt_string_field;
use crate::decode::spec_string_field;
use crate::decode::matches_opt_string_val;
use crate::json::json_view_members;
use crate::json::obj_lookup;
use crate::json::push_member;
use crate::json::Json;
use crate::json::JsonVal;
use crate::num::spec_i32_lexeme;
use crate::num::i32_from_lexeme;

verus! {

/// What the service records about one API token.
#[derive(Debug)]
pub struct ApiTokenMetadata {
    /// The description given when the token was created.
    pub description: Option<String>,
    /// The token id used when calling the other token endpoints.
    pub token_id: i32,
}

/// The `token_id` member read as an `i32`.
pub open spec fn spec_token_id_field(v: JsonVal) -> Option<i32> {
    match obj_lookup(v, "token_id"@) {
        Option::Some(JsonVal::Num(lex)) => spec_i32_lexeme(lex),
        _ => Option::None,
    }
}

impl ApiTokenMetadata {
    /// Reads one token description. Succeeds exactly when `token_id`
    /// is a number in range and `description`, when present and not
    /// null, is a string.
    pub fn from_json(j: &Json) -> (r: Option<ApiTokenMetadata>)
        ensures
            match r {
                Option::Some(m) => {
                    &&& matches_opt_string_val(
                        m.description,
                        spec_opt_string_field(j@, "description"@),
                    )
                    &&& spec_token_id_field(j@) == Option::Some(m.token_id)
                },
                Option::None => spec_opt_string_field(j@, "description"@) is None
                    || spec_token_id_field(j@) is None,
            },
    {
        let description = match get_opt_string(j, "description") {
            Some(v) => v,
            None => {
                return None;
            },
        };
        let token_id = match j.get("token_id") {
            Some(w) => match w {
                Json::Num(n) => match i32_from_lexeme(n.as_str()) {
                    Some(v) => v,
                    None => {
                        return None;
                    },
                },
                _ => {
                    return None;
                },
            },
            None => {
                return None;
            },
        };
        Some(ApiTokenMetadata { description, token_id })
    }
}

/// The answer to listing the caller's API tokens.
pub type ListApiTokensResponse = Vec<ApiTokenMetadata>;

/// Asks the service to create a fresh API token.
#[derive(Debug)]
pub struct CreateApiTokenRequest {
    /// A short description to remember the token by.
    pub description: String,
}

impl CreateApiTokenRequest {
    /// The wire payload: the description alone.
    pub open spec fn spec_json(self) -> JsonVal {
        JsonVal::Obj(seq![("description"@, JsonVal::Str(self.description@))])
    }

    /// Builds the wire payload.
    pub fn to_json(&self) -> (r: Json)
        ensures
            r@ == self.spec_json(),
    {
        let mut members: Vec<(String, Json)> = Vec::new();
        push_member(&mut members, "description", Json::Str(self.description.clone()));
        let r = Json::Obj(members);
        proof {
            assert(json_view_members(members@) =~= self.spec_json()->Obj_0);
        }
        r
    }
}

/// The freshly created token with its metadata.
#[derive(Debug)]
pub struct CreateApiTokenResponse {
    pub metadata: ApiTokenMetadata,
    /// The secret to put in the `Authorization` header.
    pub token: String,
}

impl CreateApiTokenResponse {
    /// Reads a response body. Succeeds exactly when `metadata`
    /// decodes and `token` is a string.
    pub fn from_json(j: &Json) -> (r: Option<CreateApiTokenResponse>)
        ensures
            match r {
                Option::Some(resp) => {
                    &&& match obj_lookup(j@, "metadata"@) {
                        Option::Some(w) => {
                            &&& matches_opt_string_val(
                                resp.metadata.description,
                                spec_opt_string_field(w, "description"@),
                            )
                            &&& spec_token_id_field(w) == Option::Some(resp.metadata.token_id)
                        },
                        Option::None => false,
                    }
                    &&& spec_string_field(j@, "token"@) == Option::Some(resp.token@)
                },
                Option::None => spec_string_field(j@, "token"@) is None || match obj_lookup(
                    j@,
                    "metadata"@,
                ) {
                    Option::Some(w) => spec_opt_string_field(w, "description"@) is None
                        || spec_token_id_field(w) is None,
                    Option::None => true,
                },
            },
    {
        let metadata_json = match j.get("metadata") {
            Some(w) => w,
            None => {
                return None;
            },
        };
        let metadata = match ApiTokenMetadata::from_json(metadata_json) {
            Some(m) => m,
            None => {
                return None;
            },
        };
        match get_string(j, "token") {
            Some(token) => Some(CreateApiTokenResponse { metadata, token }),
            None => None,
        }
    }
}

} // verus!
