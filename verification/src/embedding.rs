//! The embedding endpoints: raw layer embeddings, semantic embeddings
//! and their batched form.

use vstd::prelude::*;
use vstd::string::StringExecFns;
use crate::completion::opt_hosting_json;
use crate::completion::push_opt_hosting;
use crate::completion::spec_prompt_json;
use crate::completion::Hosting;
use crate::completion::Modality;
use crate::completion::Prompt;
use crate::decode::assoc_get;
use crate::decode::decode_num_array;
use crate::decode::get_opt_str_array;
use crate::decode::get_string;
use crate::decode::json_i32_array;
use crate::decode::json_str_array;
use crate::decode::opt_bool_json;
use crate::decode::opt_i32_json;
use crate::decode::opt_num_json;
use crate::decode::opt_string_json;
use crate::decode::push_opt_bool;
use crate::decode::push_opt_i32;
use crate::decode::push_opt_num;
use crate::decode::push_opt_string;
use crate::decode::spec_assoc;
use crate::decode::spec_json_i32_array;
use crate::decode::spec_json_str_array;
use crate::decode::spec_num_array;
use crate::decode::spec_opt_str_array_field;
use crate::decode::spec_string_field;
use crate::json::json_view;
use crate::json::json_view_members;
use crate::json::json_view_seq;
use crate::json::lemma_json_view_members;
use crate::json::lemma_json_view_seq;
use crate::json::obj_lookup;
use crate::json::opt_member;
use crate::json::push_member;
use crate::json::Json;
use crate::json::JsonNumber;
use crate::json::JsonVal;

verus! {

// ---------------------------------------------------------------------------
// The embedding request
// ---------------------------------------------------------------------------

/// Asks the service for the embedding vectors of a prompt at chosen
/// layers, collapsed with chosen pooling operations.
#[derive(Debug)]
pub struct EmbeddingRequest {
    /// Name of the model to use.
    pub model: String,
    /// Determines in which datacenters the request may be processed.
    pub hosting: Option<Hosting>,
    /// The prompt to embed.
    pub prompt: Prompt,
    /// Layer indices to return embeddings from; negative indices
    /// count from the last layer.
    pub layers: Vec<i32>,
    /// Return the tokenized prompt too.
    pub tokens: Option<bool>,
    /// Pooling operations to apply across the sequence dimension:
    /// `mean`, `weighted_mean`, `max`, `last_token` or `abs_max`.
    pub pooling: Vec<String>,
    /// Explicit embedding type handed to the model; superseded by the
    /// semantic embedding endpoint.
    pub embedding_type: Option<String>,
    /// Return normalized embeddings.
    pub normalize: Option<bool>,
    /// Apply attention controls to tokens at least this similar to
    /// the controlled ones.
    pub contextual_control_threshold: Option<JsonNumber>,
    /// Apply controls additively on the attention scores rather than
    /// by scaling.
    pub control_log_additive: Option<bool>,
}

impl EmbeddingRequest {
    /// The wire payload, in the declared field order; the embedding
    /// type travels under the key `type`.
    pub open spec fn spec_json(self) -> JsonVal {
        JsonVal::Obj(
            seq![("model"@, JsonVal::Str(self.model@))] + opt_member(
                "hosting"@,
                opt_hosting_json(self.hosting),
            ) + seq![
                ("prompt"@, self.prompt.spec_json()),
                ("layers"@, spec_json_i32_array(self.layers@)),
            ] + opt_member("tokens"@, opt_bool_json(self.tokens)) + seq![
                ("pooling"@, spec_json_str_array(self.pooling.deep_view())),
            ] + opt_member("type"@, opt_string_json(self.embedding_type)) + opt_member(
                "normalize"@,
                opt_bool_json(self.normalize),
            ) + opt_member(
                "contextual_control_threshold"@,
                opt_num_json(self.contextual_control_threshold),
            ) + opt_member("control_log_additive"@, opt_bool_json(self.control_log_additive)),
        )
    }

    /// Builds the wire payload.
    pub fn to_json(&self) -> (r: Json)
        ensures
            r@ == self.spec_json(),
    {
        let mut members: Vec<(String, Json)> = Vec::new();
        push_member(&mut members, "model", Json::Str(self.model.clone()));
        push_opt_hosting(&mut members, "hosting", &self.hosting);
        push_member(&mut members, "prompt", self.prompt.to_json());
        push_member(&mut members, "layers", json_i32_array(&self.layers));
        push_opt_bool(&mut members, "tokens", &self.tokens);
        push_member(&mut members, "pooling", json_str_array(&self.pooling));
        push_opt_string(&mut members, "type", &self.embedding_type);
        push_opt_bool(&mut members, "normalize", &self.normalize);
        push_opt_num(
            &mut members,
            "contextual_control_threshold",
            &self.contextual_control_threshold,
        );
        push_opt_bool(&mut members, "control_log_additive", &self.control_log_additive);
        let r = Json::Obj(members);
        proof {
            assert(json_view_members(members@) =~~= self.spec_json()->Obj_0);
        }
        r
    }

    /// A request embedding the plain text `prompt` at one layer with
    /// one pooling operation.
    pub fn from_text(model: &str, prompt: &str, layer: i32, pooling: &str, normalize: bool) -> (r:
        Self)
        ensures
            r.model@ == model@,
            r.prompt.0@.len() == 1,
            (r.prompt.0@[0] matches Modality::Text { data, controls } && data@ == prompt@
                && controls is None),
            r.layers@ == seq![layer],
            r.pooling.deep_view() == seq![pooling@],
            r.normalize == Option::Some(normalize),
            r.hosting is None,
            r.tokens is None,
            r.embedding_type is None,
            r.contextual_control_threshold is None,
            r.control_log_additive is None,
    {
        let mut layers: Vec<i32> = Vec::new();
        layers.push(layer);
        let mut pooling_v: Vec<String> = Vec::new();
        pooling_v.push(pooling.to_owned());
        proof {
            assert(layers@ =~= seq![layer]);
        }
        let r = EmbeddingRequest {
            model: model.to_owned(),
            hosting: None,
            prompt: Prompt::from_text(prompt),
            layers,
            tokens: None,
            pooling: pooling_v,
            embedding_type: None,
            normalize: Some(normalize),
            contextual_control_threshold: None,
            control_log_additive: None,
        };
        proof {
            assert(r.pooling.deep_view() =~= seq![pooling@]);
        }
        r
    }
}

// ---------------------------------------------------------------------------
// The embedding response
// ---------------------------------------------------------------------------

/// Meaning of one pooling map: pooling operation to embedding vector,
/// each vector an array of numbers kept as lexemes.
pub open spec fn spec_pooling_map(v: JsonVal) -> Option<Seq<(Seq<char>, Seq<Seq<char>>)>> {
    match v {
        JsonVal::Obj(ms) => if forall|i: int|
            0 <= i < ms.len() ==> (#[trigger] spec_num_array(ms[i].1)) is Some {
            Option::Some(
                Seq::new(ms.len(), |i: int| (ms[i].0, spec_num_array(ms[i].1)->Some_0)),
            )
        } else {
            Option::None
        },
        _ => Option::None,
    }
}

/// Meaning of the `embeddings` member: layer name to pooling map.
pub open spec fn spec_layer_map(v: JsonVal) -> Option<
    Seq<(Seq<char>, Seq<(Seq<char>, Seq<Seq<char>>)>)>,
> {
    match v {
        JsonVal::Obj(ms) => if forall|i: int|
            0 <= i < ms.len() ==> (#[trigger] spec_pooling_map(ms[i].1)) is Some {
            Option::Some(
                Seq::new(ms.len(), |i: int| (ms[i].0, spec_pooling_map(ms[i].1)->Some_0)),
            )
        } else {
            Option::None
        },
        _ => Option::None,
    }
}

/// A vector of numbers holds exactly the lexemes `s`.
pub open spec fn num_vec_matches(v: Vec<JsonNumber>, s: Seq<Seq<char>>) -> bool {
    v@.len() == s.len() && forall|i: int| 0 <= i < s.len() ==> (#[trigger] v@[i])@ == s[i]
}

/// A decoded pooling map holds exactly the entries `s`, in order.
pub open spec fn pooling_matches(
    out: Seq<(String, Vec<JsonNumber>)>,
    s: Seq<(Seq<char>, Seq<Seq<char>>)>,
) -> bool {
    out.len() == s.len() && forall|i: int|
        0 <= i < s.len() ==> (#[trigger] out[i]).0@ == s[i].0 && num_vec_matches(
            out[i].1,
            s[i].1,
        )
}

/// A decoded layer map holds exactly the entries `s`, in order.
pub open spec fn layers_match(
    out: Seq<(String, Vec<(String, Vec<JsonNumber>)>)>,
    s: Seq<(Seq<char>, Seq<(Seq<char>, Seq<Seq<char>>)>)>,
) -> bool {
    out.len() == s.len() && forall|i: int|
        0 <= i < s.len() ==> (#[trigger] out[i]).0@ == s[i].0 && pooling_matches(
            out[i].1@,
            s[i].1,
        )
}

/// Reads one pooling map.
fn decode_pooling_map(j: &Json) -> (r: Option<Vec<(String, Vec<JsonNumber>)>>)
    ensures
        match (r, spec_pooling_map(j@)) {
            (Option::Some(out), Option::Some(s)) => pooling_matches(out@, s),
            (Option::None, Option::None) => true,
            _ => false,
        },
{
    match j {
        Json::Obj(ms) => {
            proof {
                lemma_json_view_members(ms@);
            }
            let ghost view_ms = json_view_members(ms@);
            let mut out: Vec<(String, Vec<JsonNumber>)> = Vec::new();
            let mut i: usize = 0;
            while i < ms.len()
                invariant
                    j@ == JsonVal::Obj(view_ms),
                    i <= ms.len(),
                    view_ms == json_view_members(ms@),
                    view_ms.len() == ms@.len(),
                    forall|k: int|
                        0 <= k < ms@.len() ==> #[trigger] view_ms[k] == (
                        ms@[k].0@,
                        json_view(ms@[k].1),
                        ),
                    out@.len() == i,
                    forall|k: int|
                        0 <= k < i ==> (#[trigger] spec_num_array(view_ms[k].1)) is Some,
                    forall|k: int|
                        0 <= k < i ==> (#[trigger] out@[k]).0@ == view_ms[k].0
                            && num_vec_matches(out@[k].1, spec_num_array(view_ms[k].1)->Some_0),
                decreases ms.len() - i,
            {
                match decode_num_array(&ms[i].1) {
                    Some(vec) => {
                        out.push((ms[i].0.clone(), vec));
                    },
                    None => {
                        proof {
                            assert(spec_num_array(view_ms[i as int].1) is None);
                        }
                        return None;
                    },
                }
                i = i + 1;
            }
            Some(out)
        },
        _ => None,
    }
}

/// What the service answered to an embedding request.
#[derive(Debug)]
pub struct EmbeddingResponse {
    /// Name and version of the model that did the inference.
    pub model_version: String,
    /// Layer name to pooling operation to embedding vector, in
    /// document order.
    pub embeddings: Vec<(String, Vec<(String, Vec<JsonNumber>)>)>,
    /// The tokenized prompt, when asked for.
    pub tokens: Option<Vec<String>>,
}

impl EmbeddingResponse {
    /// Reads a response body. Succeeds exactly when `model_version`
    /// is a string, `embeddings` is a map of maps of number arrays,
    /// and `tokens`, when present and not null, is an array of
    /// strings.
    pub fn from_json(j: &Json) -> (r: Option<EmbeddingResponse>)
        ensures
            match r {
                Option::Some(resp) => {
                    &&& spec_string_field(j@, "model_version"@) == Option::Some(
                        resp.model_version@,
                    )
                    &&& match obj_lookup(j@, "embeddings"@) {
                        Option::Some(w) => {
                            &&& spec_layer_map(w) is Some
                            &&& layers_match(resp.embeddings@, spec_layer_map(w)->Some_0)
                        },
                        Option::None => false,
                    }
                    &&& crate::tokenization::spec_tokens_field(j@) == Option::Some(
                        match resp.tokens {
                            Option::Some(v) => Option::Some(v.deep_view()),
                            Option::None => Option::<Seq<Seq<char>>>::None,
                        },
                    )
                },
                Option::None => spec_string_field(j@, "model_version"@) is None || match
                    obj_lookup(j@, "embeddings"@) {
                    Option::Some(w) => spec_layer_map(w) is None,
                    Option::None => true,
                } || crate::tokenization::spec_tokens_field(j@) is None,
            },
    {
        let model_version = match get_string(j, "model_version") {
            Some(s) => s,
            None => {
                return None;
            },
        };
        let emb_json = match j.get("embeddings") {
            Some(w) => w,
            None => {
                return None;
            },
        };
        let embeddings = match emb_json {
            Json::Obj(ms) => {
                proof {
                    lemma_json_view_members(ms@);
                }
                let ghost view_ms = json_view_members(ms@);
                let mut out: Vec<(String, Vec<(String, Vec<JsonNumber>)>)> = Vec::new();
                let mut i: usize = 0;
                while i < ms.len()
                    invariant
                        obj_lookup(j@, "embeddings"@) == Option::Some(emb_json@),
                        emb_json@ == JsonVal::Obj(view_ms),
                        i <= ms.len(),
                        view_ms == json_view_members(ms@),
                        view_ms.len() == ms@.len(),
                        forall|k: int|
                            0 <= k < ms@.len() ==> #[trigger] view_ms[k] == (
                            ms@[k].0@,
                            json_view(ms@[k].1),
                            ),
                        out@.len() == i,
                        forall|k: int|
                            0 <= k < i ==> (#[trigger] spec_pooling_map(view_ms[k].1)) is Some,
                        forall|k: int|
                            0 <= k < i ==> (#[trigger] out@[k]).0@ == view_ms[k].0
                                && pooling_matches(
                                out@[k].1@,
                                spec_pooling_map(view_ms[k].1)->Some_0,
                            ),
                    decreases ms.len() - i,
                {
                    match decode_pooling_map(&ms[i].1) {
                        Some(pm) => {
                            out.push((ms[i].0.clone(), pm));
                        },
                        None => {
                            proof {
                                assert(spec_pooling_map(view_ms[i as int].1) is None);
                            }
                            return None;
                        },
                    }
                    i = i + 1;
                }
                out
            },
            _ => {
                return None;
            },
        };
        let tokens: Option<Vec<String>> = match get_opt_str_array(j, "tokens") {
            Some(v) => v,
            None => {
                return None;
            },
        };
        Some(EmbeddingResponse { model_version, embeddings, tokens })
    }

    /// The embedding vector for one layer name and one pooling
    /// operation, when the response holds it.
    pub fn get_embedding<'a>(&'a self, layer: &str, pooling: &str) -> (r: Option<
        &'a Vec<JsonNumber>,
    >)
        ensures
            match r {
                Option::Some(v) => match spec_assoc(self.embeddings@, layer@) {
                    Option::Some(pm) => spec_assoc(pm@, pooling@) == Option::Some(*v),
                    Option::None => false,
                },
                Option::None => match spec_assoc(self.embeddings@, layer@) {
                    Option::Some(pm) => spec_assoc(pm@, pooling@) is None,
                    Option::None => true,
                },
            },
    {
        match assoc_get(&self.embeddings, layer) {
            Some(pm) => assoc_get(pm, pooling),
            None => None,
        }
    }
}

// ---------------------------------------------------------------------------
// Semantic embeddings
// ---------------------------------------------------------------------------

/// How a prompt is embedded for comparison tasks: symmetrically, or
/// asymmetrically as a document or as a query.
#[derive(Debug)]
pub enum EmbeddingRepresentation {
    Symmetric,
    Document,
    Query,
}

/// The wire form of a representation choice.
pub open spec fn spec_representation_json(r: EmbeddingRepresentation) -> JsonVal {
    match r {
        EmbeddingRepresentation::Symmetric => JsonVal::Str("symmetric"@),
        EmbeddingRepresentation::Document => JsonVal::Str("document"@),
        EmbeddingRepresentation::Query => JsonVal::Str("query"@),
    }
}

impl EmbeddingRepresentation {
    /// Builds the wire form.
    pub fn to_json(&self) -> (r: Json)
        ensures
            r@ == spec_representation_json(*self),
    {
        match self {
            EmbeddingRepresentation::Symmetric => Json::Str(String::from_str("symmetric")),
            EmbeddingRepresentation::Document => Json::Str(String::from_str("document")),
            EmbeddingRepresentation::Query => Json::Str(String::from_str("query")),
        }
    }
}

impl Default for EmbeddingRepresentation {
    /// Symmetric, the representation for interchangeable texts.
    fn default() -> (r: Self)
        ensures
            r == EmbeddingRepresentation::Symmetric,
    {
        EmbeddingRepresentation::Symmetric
    }
}

/// Asks the service for a semantic embedding of one prompt.
#[derive(Debug)]
pub struct SemanticEmbeddingRequest {
    /// Name of the model to use.
    pub model: String,
    /// Determines in which datacenters the request may be processed.
    pub hosting: Option<Hosting>,
    /// The prompt to embed.
    pub prompt: Prompt,
    /// How to embed the prompt.
    pub representation: EmbeddingRepresentation,
    /// Compress the embedding to this many dimensions.
    pub compress_to_size: Option<i32>,
    /// Return normalized embeddings.
    pub normalize: Option<bool>,
    /// Apply attention controls to tokens at least this similar to
    /// the controlled ones.
    pub contextual_control_threshold: Option<JsonNumber>,
    /// Apply controls additively on the attention scores rather than
    /// by scaling.
    pub control_log_additive: Option<bool>,
}

impl SemanticEmbeddingRequest {
    /// The wire payload, in the declared field order.
    pub open spec fn spec_json(self) -> JsonVal {
        JsonVal::Obj(
            seq![("model"@, JsonVal::Str(self.model@))] + opt_member(
                "hosting"@,
                opt_hosting_json(self.hosting),
            ) + seq![
                ("prompt"@, self.prompt.spec_json()),
                ("representation"@, spec_representation_json(self.representation)),
            ] + opt_member("compress_to_size"@, opt_i32_json(self.compress_to_size))
                + opt_member("normalize"@, opt_bool_json(self.normalize)) + opt_member(
                "contextual_control_threshold"@,
                opt_num_json(self.contextual_control_threshold),
            ) + opt_member("control_log_additive"@, opt_bool_json(self.control_log_additive)),
        )
    }

    /// Builds the wire payload.
    pub fn to_json(&self) -> (r: Json)
        ensures
            r@ == self.spec_json(),
    {
        let mut members: Vec<(String, Json)> = Vec::new();
        push_member(&mut members, "model", Json::Str(self.model.clone()));
        push_opt_hosting(&mut members, "hosting", &self.hosting);
        push_member(&mut members, "prompt", self.prompt.to_json());
        push_member(&mut members, "representation", self.representation.to_json());
        push_opt_i32(&mut members, "compress_to_size", &self.compress_to_size);
        push_opt_bool(&mut members, "normalize", &self.normalize);
        push_opt_num(
            &mut members,
            "contextual_control_threshold",
            &self.contextual_control_threshold,
        );
        push_opt_bool(&mut members, "control_log_additive", &self.control_log_additive);
        let r = Json::Obj(members);
        proof {
            assert(json_view_members(members@) =~~= self.spec_json()->Obj_0);
        }
        r
    }
}

/// What the service answered to a semantic embedding request.
#[derive(Debug)]
pub struct SemanticEmbeddingResponse {
    /// Name and version of the model that did the inference.
    pub model_version: String,
    /// The embedding vector, its numbers kept as lexemes.
    pub embedding: Vec<JsonNumber>,
}

impl SemanticEmbeddingResponse {
    /// Reads a response body. Succeeds exactly when `model_version`
    /// is a string and `embedding` is an array of numbers.
    pub fn from_json(j: &Json) -> (r: Option<SemanticEmbeddingResponse>)
        ensures
            match r {
                Option::Some(resp) => {
                    &&& spec_string_field(j@, "model_version"@) == Option::Some(
                        resp.model_version@,
                    )
                    &&& match obj_lookup(j@, "embedding"@) {
                        Option::Some(w) => spec_num_array(w) is Some && num_vec_matches(
                            resp.embedding,
                            spec_num_array(w)->Some_0,
                        ),
                        Option::None => false,
                    }
                },
                Option::None => spec_string_field(j@, "model_version"@) is None || match
                    obj_lookup(j@, "embedding"@) {
                    Option::Some(w) => spec_num_array(w) is None,
                    Option::None => true,
                },
            },
    {
        let model_version = match get_string(j, "model_version") {
            Some(s) => s,
            None => {
                return None;
            },
        };
        let emb_json = match j.get("embedding") {
            Some(w) => w,
            None => {
                return None;
            },
        };
        match decode_num_array(emb_json) {
            Some(embedding) => Some(SemanticEmbeddingResponse { model_version, embedding }),
            None => None,
        }
    }
}

// ---------------------------------------------------------------------------
// Batched semantic embeddings
// ---------------------------------------------------------------------------

/// Asks the service for semantic embeddings of several prompts at
/// once.
#[derive(Debug)]
pub struct BatchSemanticEmbeddingRequest {
    /// Name of the model to use.
    pub model: String,
    /// Determines in which datacenters the request may be processed.
    pub hosting: Option<Hosting>,
    /// The prompts to embed.
    pub prompts: Vec<Prompt>,
    /// How to embed the prompts.
    pub representation: EmbeddingRepresentation,
    /// Compress each embedding to this many dimensions.
    pub compress_to_size: Option<i32>,
    /// Return normalized embeddings.
    pub normalize: Option<bool>,
    /// Apply attention controls to tokens at least this similar to
    /// the controlled ones.
    pub contextual_control_threshold: Option<JsonNumber>,
    /// Apply controls additively on the attention scores rather than
    /// by scaling.
    pub control_log_additive: Option<bool>,
}

/// The wire form of the prompt list.
pub open spec fn spec_prompts_json(ps: Seq<Prompt>) -> JsonVal {
    JsonVal::Arr(Seq::new(ps.len(), |i: int| spec_prompt_json(ps[i])))
}

/// Builds the wire form of the prompt list.
pub fn prompts_json(ps: &Vec<Prompt>) -> (r: Json)
    ensures
        r@ == spec_prompts_json(ps@),
{
    let mut items: Vec<Json> = Vec::new();
    let mut i: usize = 0;
    while i < ps.len()
        invariant
            i <= ps.len(),
            items@.len() == i,
            forall|k: int|
                0 <= k < i ==> json_view(#[trigger] items@[k]) == spec_prompt_json(ps@[k]),
        decreases ps.len() - i,
    {
        items.push(ps[i].to_json());
        i = i + 1;
    }
    let r = Json::Arr(items);
    proof {
        lemma_json_view_seq(items@);
        assert(json_view_seq(items@) =~= Seq::new(ps@.len(), |i: int| spec_prompt_json(ps@[i])));
    }
    r
}

impl BatchSemanticEmbeddingRequest {
    /// The wire payload, in the declared field order.
    pub open spec fn spec_json(self) -> JsonVal {
        JsonVal::Obj(
            seq![("model"@, JsonVal::Str(self.model@))] + opt_member(
                "hosting"@,
                opt_hosting_json(self.hosting),
            ) + seq![
                ("prompts"@, spec_prompts_json(self.prompts@)),
                ("representation"@, spec_representation_json(self.representation)),
            ] + opt_member("compress_to_size"@, opt_i32_json(self.compress_to_size))
                + opt_member("normalize"@, opt_bool_json(self.normalize)) + opt_member(
                "contextual_control_threshold"@,
                opt_num_json(self.contextual_control_threshold),
            ) + opt_member("control_log_additive"@, opt_bool_json(self.control_log_additive)),
        )
    }

    /// Builds the wire payload.
    pub fn to_json(&self) -> (r: Json)
        ensures
            r@ == self.spec_json(),
    {
        let mut members: Vec<(String, Json)> = Vec::new();
        push_member(&mut members, "model", Json::Str(self.model.clone()));
        push_opt_hosting(&mut members, "hosting", &self.hosting);
        push_member(&mut members, "prompts", prompts_json(&self.prompts));
        push_member(&mut members, "representation", self.representation.to_json());
        push_opt_i32(&mut members, "compress_to_size", &self.compress_to_size);
        push_opt_bool(&mut members, "normalize", &self.normalize);
        push_opt_num(
            &mut members,
            "contextual_control_threshold",
            &self.contextual_control_threshold,
        );
        push_opt_bool(&mut members, "control_log_additive", &self.control_log_additive);
        let r = Json::Obj(members);
        proof {
            assert(json_view_members(members@) =~~= self.spec_json()->Obj_0);
        }
        r
    }
}

/// Meaning of the batched `embeddings` member: an array of number
/// arrays.
pub open spec fn spec_num_matrix(v: JsonVal) -> Option<Seq<Seq<Seq<char>>>> {
    match v {
        JsonVal::Arr(items) => if forall|i: int|
            0 <= i < items.len() ==> (#[trigger] spec_num_array(items[i])) is Some {
            Option::Some(Seq::new(items.len(), |i: int| spec_num_array(items[i])->Some_0))
        } else {
            Option::None
        },
        _ => Option::None,
    }
}

/// What the service answered to a batched semantic embedding request.
#[derive(Debug)]
pub struct BatchSemanticEmbeddingResponse {
    /// Name and version of the model that did the inference.
    pub model_version: String,
    /// One embedding vector per prompt, in order.
    pub embeddings: Vec<Vec<JsonNumber>>,
}

impl BatchSemanticEmbeddingResponse {
    /// Reads a response body. Succeeds exactly when `model_version`
    /// is a string and `embeddings` is an array of number arrays.
    pub fn from_json(j: &Json) -> (r: Option<BatchSemanticEmbeddingResponse>)
        ensures
            match r {
                Option::Some(resp) => {
                    &&& spec_string_field(j@, "model_version"@) == Option::Some(
                        resp.model_version@,
                    )
                    &&& match obj_lookup(j@, "embeddings"@) {
                        Option::Some(w) => {
                            &&& spec_num_matrix(w) is Some
                            &&& resp.embeddings@.len() == spec_num_matrix(w)->Some_0.len()
                            &&& forall|i: int|
                                0 <= i < resp.embeddings@.len() ==> num_vec_matches(
                                    #[trigger] resp.embeddings@[i],
                                    spec_num_matrix(w)->Some_0[i],
                                )
                        },
                        Option::None => false,
                    }
                },
                Option::None => spec_string_field(j@, "model_version"@) is None || match
                    obj_lookup(j@, "embeddings"@) {
                    Option::Some(w) => spec_num_matrix(w) is None,
                    Option::None => true,
                },
            },
    {
        let model_version = match get_string(j, "model_version") {
            Some(s) => s,
            None => {
                return None;
            },
        };
        let emb_json = match j.get("embeddings") {
            Some(w) => w,
            None => {
                return None;
            },
        };
        match emb_json {
            Json::Arr(items) => {
                proof {
                    lemma_json_view_seq(items@);
                }
                let ghost view_items = json_view_seq(items@);
                let mut out: Vec<Vec<JsonNumber>> = Vec::new();
                let mut i: usize = 0;
                while i < items.len()
                    invariant
                        obj_lookup(j@, "embeddings"@) == Option::Some(emb_json@),
                        emb_json@ == JsonVal::Arr(view_items),
                        i <= items.len(),
                        view_items == json_view_seq(items@),
                        view_items.len() == items@.len(),
                        forall|k: int|
                            0 <= k < items@.len() ==> view_items[k] == json_view(
                                #[trigger] items@[k],
                            ),
                        out@.len() == i,
                        forall|k: int|
                            0 <= k < i ==> (#[trigger] spec_num_array(view_items[k])) is Some,
                        forall|k: int|
                            0 <= k < i ==> num_vec_matches(
                                #[trigger] out@[k],
                                spec_num_array(view_items[k])->Some_0,
                            ),
                    decreases items.len() - i,
                {
                    match decode_num_array(&items[i]) {
                        Some(vec) => {
                            out.push(vec);
                        },
                        None => {
                            proof {
                                assert(spec_num_array(view_items[i as int]) is None);
                            }
                            return None;
                        },
                    }
                    i = i + 1;
                }
                Some(BatchSemanticEmbeddingResponse { model_version, embeddings: out })
            },
            _ => None,
        }
    }
}

} // verus!
