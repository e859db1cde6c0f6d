//! Classification of HTTP exchanges: status codes to the error
//! taxonomy, and the fixed pieces of every request the client sends.

use vstd::prelude::*;
use vstd::string::StringExecFns;
use crate::error::ApiError;

verus! {

/// HTTP statuses that count as success.
pub open spec fn is_success_status(status: u16) -> bool {
    200 <= status < 300
}

/// Maps a response status to the error taxonomy: 2xx is no error at
/// all, 429 is `TooManyRequests`, 503 is `Busy`, and every other
/// status becomes `Http` carrying the raw body.
pub fn translate_http_error(status: u16, body: String) -> (r: Result<(), ApiError>)
    ensures
        r is Ok <==> is_success_status(status),
        status == 429 ==> r == Err::<(), ApiError>(ApiError::TooManyRequests),
        status == 503 ==> r == Err::<(), ApiError>(ApiError::Busy),
        (!is_success_status(status) && status != 429 && status != 503) ==> r == Err::<
            (),
            ApiError,
        >(ApiError::Http { status, body }),
{
    if 200 <= status && status < 300 {
        Ok(())
    } else if status == 429 {
        Err(ApiError::TooManyRequests)
    } else if status == 503 {
        Err(ApiError::Busy)
    } else {
        Err(ApiError::Http { status, body })
    }
}

/// Maps a non-success status to its error: 429 is `TooManyRequests`,
/// 503 is `Busy`, every other status becomes `Http` carrying the raw
/// body.
pub fn classify_http_failure(status: u16, body: String) -> (e: ApiError)
    requires
        !is_success_status(status),
    ensures
        status == 429 ==> e == ApiError::TooManyRequests,
        status == 503 ==> e == ApiError::Busy,
        (status != 429 && status != 503) ==> e == (ApiError::Http { status, body }),
{
    if status == 429 {
        ApiError::TooManyRequests
    } else if status == 503 {
        ApiError::Busy
    } else {
        ApiError::Http { status, body }
    }
}

/// The value of the `Authorization` header: the bearer token.
pub fn auth_header_value(api_token: &str) -> (r: String)
    ensures
        r@ == "Bearer "@ + api_token@,
{
    let mut out = String::new();
    out.append("Bearer ");
    out.append(api_token);
    proof {
        assert(Seq::<char>::empty() + "Bearer "@ + api_token@ =~= "Bearer "@ + api_token@);
    }
    out
}

/// The absolute URL of an endpoint: the base with the path appended.
pub fn endpoint_url(base_url: &str, path: &str) -> (r: String)
    ensures
        r@ == base_url@ + path@,
{
    let mut out = String::new();
    out.append(base_url);
    out.append(path);
    proof {
        assert(Seq::<char>::empty() + base_url@ + path@ =~= base_url@ + path@);
    }
    out
}

/// The query string entries for the politeness flag: empty when the
/// flag is absent, one `nice` entry otherwise.
pub open spec fn nice_query(nice: Option<bool>) -> Seq<(Seq<char>, Seq<char>)> {
    match nice {
        Option::None => Seq::empty(),
        Option::Some(b) => seq![
            ("nice"@, if b {
                "true"@
            } else {
                "false"@
            }),
        ],
    }
}

/// Builds the query entries carrying the politeness flag.
pub fn nice_query_entries(nice: Option<bool>) -> (r: Vec<(String, String)>)
    ensures
        r@.len() == nice_query(nice).len(),
        forall|i: int|
            0 <= i < r@.len() ==> (#[trigger] r@[i].0@, r@[i].1@) == nice_query(nice)[i],
{
    let mut out: Vec<(String, String)> = Vec::new();
    match nice {
        Option::None => {},
        Option::Some(b) => {
            let v = if b {
                String::from_str("true")
            } else {
                String::from_str("false")
            };
            out.push((String::from_str("nice"), v));
        },
    }
    out
}

} // verus!
