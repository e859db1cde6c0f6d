//! The caller's own user settings.

use vstd::prelude::*;
use vstd::string::StringExecFns;
use crate::decode::get_string;
use crate::decode::spec_string_field;
use crate::json::json_view_members;
use crate::json::obj_lookup;
use crate::json::push_member;
use crate::json::Json;
use crate::json::JsonNumber;
use crate::json::JsonVal;
use crate::num::int_lexeme;
use crate::num::spec_i64_lexeme;
use crate::num::i64_from_lexeme;

verus! {

/// What the service reports about the calling user.
#[derive(Debug)]
pub struct UserDetail {
    /// User id.
    pub id: i64,
    /// Email address of the user.
    pub email: String,
    /// Role of the user.
    pub role: String,
    /// Remaining credits, reported as a string on the wire.
    pub credits_remaining: String,
    /// Whether this user is post-paid.
    pub invoice_allowed: bool,
    /// Credit threshold below which the service sends a notification,
    /// reported as a string on the wire.
    pub out_of_credits_threshold: String,
    /// Version of the terms of service the user accepted.
    pub terms_of_service_version: String,
}

/// The `id` member read as an `i64`.
pub open spec fn spec_user_id_field(v: JsonVal) -> Option<i64> {
    match obj_lookup(v, "id"@) {
        Option::Some(JsonVal::Num(lex)) => spec_i64_lexeme(lex),
        _ => Option::None,
    }
}

/// The `invoice_allowed` member read as a boolean.
pub open spec fn spec_invoice_allowed_field(v: JsonVal) -> Option<bool> {
    match obj_lookup(v, "invoice_allowed"@) {
        Option::Some(JsonVal::Bool(b)) => Option::Some(b),
        _ => Option::None,
    }
}

impl UserDetail {
    /// Reads a response body. Succeeds exactly when every field is
    /// present with its expected type.
    pub fn from_json(j: &Json) -> (r: Option<UserDetail>)
        ensures
            match r {
                Option::Some(u) => {
                    &&& spec_user_id_field(j@) == Option::Some(u.id)
                    &&& spec_string_field(j@, "email"@) == Option::Some(u.email@)
                    &&& spec_string_field(j@, "role"@) == Option::Some(u.role@)
                    &&& spec_string_field(j@, "credits_remaining"@) == Option::Some(
                        u.credits_remaining@,
                    )
                    &&& spec_invoice_allowed_field(j@) == Option::Some(u.invoice_allowed)
                    &&& spec_string_field(j@, "out_of_credits_threshold"@) == Option::Some(
                        u.out_of_credits_threshold@,
                    )
                    &&& spec_string_field(j@, "terms_of_service_version"@) == Option::Some(
                        u.terms_of_service_version@,
                    )
                },
                Option::None => spec_user_id_field(j@) is None || spec_string_field(
                    j@,
                    "email"@,
                ) is None || spec_string_field(j@, "role"@) is None || spec_string_field(
                    j@,
                    "credits_remaining"@,
                ) is None || spec_invoice_allowed_field(j@) is None || spec_string_field(
                    j@,
                    "out_of_credits_threshold"@,
                ) is None || spec_string_field(j@, "terms_of_service_version"@) is None,
            },
    {
        let id = match j.get("id") {
            Some(w) => match w {
                Json::Num(n) => match i64_from_lexeme(n.as_str()) {
                    Some(v) => v,
                    None => {
                        return None;
                    },
                },
                _ => {
                    return None;
                },
            },
            None => {
                return None;
            },
        };
        let email = match get_string(j, "email") {
            Some(s) => s,
            None => {
                return None;
            },
        };
        let role = match get_string(j, "role") {
            Some(s) => s,
            None => {
                return None;
            },
        };
        let credits_remaining = match get_string(j, "credits_remaining") {
            Some(s) => s,
            None => {
                return None;
            },
        };
        let invoice_allowed = match j.get("invoice_allowed") {
            Some(w) => match w {
                Json::Bool(b) => *b,
                _ => {
                    return None;
                },
            },
            None => {
                return None;
            },
        };
        let out_of_credits_threshold = match get_string(j, "out_of_credits_threshold") {
            Some(s) => s,
            None => {
                return None;
            },
        };
        match get_string(j, "terms_of_service_version") {
            Some(terms_of_service_version) => Some(
                UserDetail {
                    id,
                    email,
                    role,
                    credits_remaining,
                    invoice_allowed,
                    out_of_credits_threshold,
                    terms_of_service_version,
                },
            ),
            None => None,
        }
    }
}

/// Asks the service to change the caller's settings.
#[derive(Debug)]
pub struct UserChange {
    /// New credit threshold for the out-of-credits notification.
    pub out_of_credits_threshold: i32,
}

impl UserChange {
    /// The wire payload: the threshold alone.
    pub open spec fn spec_json(self) -> JsonVal {
        JsonVal::Obj(
            seq![
                ("out_of_credits_threshold"@, JsonVal::Num(
                    int_lexeme(self.out_of_credits_threshold as int),
                )),
            ],
        )
    }

    /// Builds the wire payload.
    pub fn to_json(&self) -> (r: Json)
        ensures
            r@ == self.spec_json(),
    {
        let mut members: Vec<(String, Json)> = Vec::new();
        push_member(
            &mut members,
            "out_of_credits_threshold",
            Json::Num(JsonNumber::from_i64(self.out_of_credits_threshold as i64)),
        );
        let r = Json::Obj(members);
        proof {
            assert(json_view_members(members@) =~= self.spec_json()->Obj_0);
        }
        r
    }
}

} // verus!
