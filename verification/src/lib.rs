//! Client-side data model for a remote text-generation inference API.
//!
//! The crate builds the JSON wire payloads for each endpoint,
//! classifies HTTP failures into a closed error taxonomy, and decodes
//! response bodies into typed values. All of that logic is verified;
//! the actual network exchange is left to the embedding application.

use vstd::prelude::*;

pub mod api_tokens;
pub mod client;
pub mod completion;
pub mod decode;
pub mod embedding;
pub mod error;
pub mod evaluate;
pub mod explanation;
pub mod http;
pub mod json;
mod num;
pub mod parse;
mod ser;
pub mod tokenization;
pub mod users;

pub use client::Client;
pub use client::ALEPH_ALPHA_API_BASE_URL;
pub use completion::CompletionOutput;
pub use completion::CompletionRequest;
pub use completion::CompletionResponse;
pub use completion::Hosting;
pub use completion::Modality;
pub use completion::Prompt;
pub use completion::TextControl;
pub use completion::TokenControl;
pub use embedding::BatchSemanticEmbeddingRequest;
pub use embedding::BatchSemanticEmbeddingResponse;
pub use embedding::EmbeddingRepresentation;
pub use embedding::EmbeddingRequest;
pub use embedding::EmbeddingResponse;
pub use embedding::SemanticEmbeddingRequest;
pub use embedding::SemanticEmbeddingResponse;
pub use evaluate::EvaluationRequest;
pub use evaluate::EvaluationResponse;
pub use evaluate::EvaluationResult;
pub use explanation::ExplanationRequest;
pub use explanation::ExplanationResponse;
pub use explanation::TargetGranularity;
pub use json::Json;
pub use json::JsonNumber;
pub use tokenization::DetokenizationRequest;
pub use tokenization::DetokenizationResponse;
pub use tokenization::TokenizationRequest;
pub use tokenization::TokenizationResponse;

verus! {

/// The models of the Luminous family, by name.
pub const LUMINOUS_BASE: &'static str = "luminous-base";

pub const LUMINOUS_BASE_CONTROL: &'static str = "luminous-base-control";

pub const LUMINOUS_EXTENDED: &'static str = "luminous-extended";

pub const LUMINOUS_EXTENDED_CONTROL: &'static str = "luminous-extended-control";

pub const LUMINOUS_SUPREME: &'static str = "luminous-supreme";

pub const LUMINOUS_SUPREME_CONTROL: &'static str = "luminous-supreme-control";

} // verus!
