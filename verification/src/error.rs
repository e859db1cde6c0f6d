//! The closed error taxonomy that callers branch on.

use vstd::prelude::*;

verus! {

/// Everything that can go wrong with a call against the remote API.
///
/// `TooManyRequests` and `Busy` signal rate limiting and server
/// overload: a caller may back off and retry. `Http` carries any other
/// non-success status together with the raw response body, so that
/// error pages from intermediate proxies are not swallowed. `Client`
/// stands for transport-level failures (connection, TLS, I/O), which
/// the embedding application reports as text. `Tokenizer` covers a
/// malformed tokenizer model blob, and `Deserialize` a response body
/// that does not hold the expected JSON.
#[derive(Debug, Clone, PartialEq, Eq)]
pub enum ApiError {
    /// The caller exceeded its task quota; slow down and retry later.
    TooManyRequests,
    /// The requested model is overloaded right now; retry any time.
    Busy,
    /// Any other non-success HTTP status, with the raw response body.
    Http { status: u16, body: String },
    /// A transport-level failure, reported by the HTTP layer as text.
    Client(String),
    /// A tokenizer model that could not be loaded.
    Tokenizer(String),
    /// A response body that is not the JSON the endpoint promises.
    Deserialize(String),
}

} // verus!
