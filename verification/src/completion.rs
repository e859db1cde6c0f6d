//! The completion endpoint: prompts, their modalities and attention
//! controls, the request with its fluent builder, and the response.

use vstd::prelude::*;
use vstd::string::StringExecFns;
use crate::decode::opt_bool_json;
use crate::decode::opt_i32_json;
use crate::decode::opt_num_json;
use crate::decode::opt_string_json;
use crate::decode::opt_str_array_json;
use crate::decode::opt_u32_json;
use crate::decode::push_opt_bool;
use crate::decode::push_opt_i32;
use crate::decode::push_opt_num;
use crate::decode::push_opt_string;
use crate::decode::push_opt_str_array;
use crate::decode::push_opt_u32;
use crate::decode::json_u32_array;
use crate::decode::spec_json_u32_array;
use crate::json::json_view;
use crate::json::json_view_members;
use crate::json::json_view_seq;
use crate::json::lemma_json_view_members;
use crate::json::lemma_json_view_seq;
use crate::json::obj_lookup;
use crate::json::opt_member;
use crate::json::push_member;
use crate::json::sparse_members;
use crate::json::lemma_sparse_lookup;
use crate::json::lemma_sparse_members_push;
use crate::json::Json;
use crate::json::JsonNumber;
use crate::json::JsonVal;
use crate::num::int_lexeme;

verus! {

// ---------------------------------------------------------------------------
// Hosting
// ---------------------------------------------------------------------------

/// Which datacenters may process a request. Omitting the field keeps
/// all options open; `AlephAlpha` restricts processing to the
/// vendor's own datacenters.
#[derive(Debug)]
pub enum Hosting {
    AlephAlpha,
}

/// The wire form of a hosting choice.
pub open spec fn spec_hosting_json(h: Hosting) -> JsonVal {
    JsonVal::Str("aleph-alpha"@)
}

/// JSON for an optional hosting field.
pub open spec fn opt_hosting_json(o: Option<Hosting>) -> Option<JsonVal> {
    match o {
        Option::Some(h) => Option::Some(spec_hosting_json(h)),
        Option::None => Option::None,
    }
}

/// Appends the member for an optional hosting field, when it is set.
pub fn push_opt_hosting(members: &mut Vec<(String, Json)>, key: &str, v: &Option<Hosting>)
    ensures
        json_view_members(final(members)@) == json_view_members(old(members)@) + opt_member(
            key@,
            opt_hosting_json(*v),
        ),
{
    match v {
        Some(Hosting::AlephAlpha) => {
            push_member(members, key, Json::Str(String::from_str("aleph-alpha")));
        },
        None => {
            proof {
                assert(json_view_members(members@) + opt_member(key@, opt_hosting_json(*v))
                    =~= json_view_members(members@));
            }
        },
    }
}

// ---------------------------------------------------------------------------
// Attention controls
// ---------------------------------------------------------------------------

/// Scales the attention the model pays to one token of a token-id
/// prompt item.
#[derive(Debug)]
pub struct TokenControl {
    /// Index of the token, relative to the list of token ids in the
    /// current prompt item.
    pub index: u32,
    /// Factor to apply to the given token in the attention matrix:
    /// below one suppresses it, one leaves it alone, above one
    /// amplifies it.
    pub factor: JsonNumber,
}

impl TokenControl {
    pub open spec fn spec_json(self) -> JsonVal {
        JsonVal::Obj(
            seq![
                ("index"@, JsonVal::Num(int_lexeme(self.index as int))),
                ("factor"@, JsonVal::Num(self.factor@)),
            ],
        )
    }

    pub fn to_json(&self) -> (r: Json)
        ensures
            r@ == self.spec_json(),
    {
        let mut members: Vec<(String, Json)> = Vec::new();
        push_member(&mut members, "index", Json::Num(JsonNumber::from_u64(self.index as u64)));
        push_member(&mut members, "factor", Json::Num(self.factor.duplicate()));
        let r = Json::Obj(members);
        proof {
            assert(json_view_members(members@) =~= self.spec_json()->Obj_0);
        }
        r
    }
}

/// Scales the attention the model pays to a span of characters of a
/// text prompt item.
#[derive(Debug)]
pub struct TextControl {
    /// First character the factor applies to.
    pub start: i32,
    /// How many characters the factor applies to.
    pub length: i32,
    /// Factor to apply in the attention matrix: below one suppresses,
    /// one leaves alone, above one amplifies.
    pub factor: JsonNumber,
    /// What to do when the span covers a token only partly: `partial`
    /// scales the factor with the covered share, `complete` applies
    /// it whole.
    pub token_overlap: Option<String>,
}

impl TextControl {
    pub open spec fn spec_json(self) -> JsonVal {
        JsonVal::Obj(
            seq![
                ("start"@, JsonVal::Num(int_lexeme(self.start as int))),
                ("length"@, JsonVal::Num(int_lexeme(self.length as int))),
                ("factor"@, JsonVal::Num(self.factor@)),
            ] + opt_member("token_overlap"@, opt_string_json(self.token_overlap)),
        )
    }

    pub fn to_json(&self) -> (r: Json)
        ensures
            r@ == self.spec_json(),
    {
        let mut members: Vec<(String, Json)> = Vec::new();
        push_member(&mut members, "start", Json::Num(JsonNumber::from_i64(self.start as i64)));
        push_member(&mut members, "length", Json::Num(JsonNumber::from_i64(self.length as i64)));
        push_member(&mut members, "factor", Json::Num(self.factor.duplicate()));
        push_opt_string(&mut members, "token_overlap", &self.token_overlap);
        let r = Json::Obj(members);
        proof {
            assert(json_view_members(members@) =~~= self.spec_json()->Obj_0);
        }
        r
    }
}

/// A rectangle in logical image coordinates, each value between zero
/// and one, relative to the whole image.
#[derive(Debug)]
pub struct BoundingBox {
    /// x-coordinate of the top left corner.
    pub left: JsonNumber,
    /// y-coordinate of the top left corner.
    pub top: JsonNumber,
    /// Width of the box.
    pub width: JsonNumber,
    /// Height of the box. The wire key keeps the service's own
    /// spelling.
    pub heigh: JsonNumber,
}

impl BoundingBox {
    pub open spec fn spec_json(self) -> JsonVal {
        JsonVal::Obj(
            seq![
                ("left"@, JsonVal::Num(self.left@)),
                ("top"@, JsonVal::Num(self.top@)),
                ("width"@, JsonVal::Num(self.width@)),
                ("heigh"@, JsonVal::Num(self.heigh@)),
            ],
        )
    }

    pub fn to_json(&self) -> (r: Json)
        ensures
            r@ == self.spec_json(),
    {
        let mut members: Vec<(String, Json)> = Vec::new();
        push_member(&mut members, "left", Json::Num(self.left.duplicate()));
        push_member(&mut members, "top", Json::Num(self.top.duplicate()));
        push_member(&mut members, "width", Json::Num(self.width.duplicate()));
        push_member(&mut members, "heigh", Json::Num(self.heigh.duplicate()));
        let r = Json::Obj(members);
        proof {
            assert(json_view_members(members@) =~= self.spec_json()->Obj_0);
        }
        r
    }
}

/// Scales the attention the model pays to a region of an image prompt
/// item.
#[derive(Debug)]
pub struct ImageControl {
    /// The region the factor applies to.
    pub rect: BoundingBox,
    /// Factor to apply in the attention matrix: below one suppresses,
    /// one leaves alone, above one amplifies.
    pub factor: JsonNumber,
    /// What to do when the region covers an image token only partly:
    /// `partial` scales the factor with the covered share, `complete`
    /// applies it whole.
    pub token_overlap: Option<String>,
}

impl ImageControl {
    pub open spec fn spec_json(self) -> JsonVal {
        JsonVal::Obj(
            seq![("rect"@, self.rect.spec_json()), ("factor"@, JsonVal::Num(self.factor@))]
                + opt_member("token_overlap"@, opt_string_json(self.token_overlap)),
        )
    }

    pub fn to_json(&self) -> (r: Json)
        ensures
            r@ == self.spec_json(),
    {
        let mut members: Vec<(String, Json)> = Vec::new();
        push_member(&mut members, "rect", self.rect.to_json());
        push_member(&mut members, "factor", Json::Num(self.factor.duplicate()));
        push_opt_string(&mut members, "token_overlap", &self.token_overlap);
        let r = Json::Obj(members);
        proof {
            assert(json_view_members(members@) =~~= self.spec_json()->Obj_0);
        }
        r
    }
}

/// The array of token controls for a prompt item.
pub open spec fn spec_token_controls_json(cs: Seq<TokenControl>) -> JsonVal {
    JsonVal::Arr(Seq::new(cs.len(), |i: int| cs[i].spec_json()))
}

pub fn token_controls_json(cs: &Vec<TokenControl>) -> (r: Json)
    ensures
        r@ == spec_token_controls_json(cs@),
{
    let mut items: Vec<Json> = Vec::new();
    let mut i: usize = 0;
    while i < cs.len()
        invariant
            i <= cs.len(),
            items@.len() == i,
            forall|k: int|
                0 <= k < i ==> json_view(#[trigger] items@[k]) == cs@[k].spec_json(),
        decreases cs.len() - i,
    {
        items.push(cs[i].to_json());
        i = i + 1;
    }
    let r = Json::Arr(items);
    proof {
        lemma_json_view_seq(items@);
        assert(json_view_seq(items@) =~= Seq::new(cs@.len(), |i: int| cs@[i].spec_json()));
    }
    r
}

/// The array of text controls for a prompt item.
pub open spec fn spec_text_controls_json(cs: Seq<TextControl>) -> JsonVal {
    JsonVal::Arr(Seq::new(cs.len(), |i: int| cs[i].spec_json()))
}

pub fn text_controls_json(cs: &Vec<TextControl>) -> (r: Json)
    ensures
        r@ == spec_text_controls_json(cs@),
{
    let mut items: Vec<Json> = Vec::new();
    let mut i: usize = 0;
    while i < cs.len()
        invariant
            i <= cs.len(),
            items@.len() == i,
            forall|k: int|
                0 <= k < i ==> json_view(#[trigger] items@[k]) == cs@[k].spec_json(),
        decreases cs.len() - i,
    {
        items.push(cs[i].to_json());
        i = i + 1;
    }
    let r = Json::Arr(items);
    proof {
        lemma_json_view_seq(items@);
        assert(json_view_seq(items@) =~= Seq::new(cs@.len(), |i: int| cs@[i].spec_json()));
    }
    r
}

/// The array of image controls for a prompt item.
pub open spec fn spec_image_controls_json(cs: Seq<ImageControl>) -> JsonVal {
    JsonVal::Arr(Seq::new(cs.len(), |i: int| cs[i].spec_json()))
}

pub fn image_controls_json(cs: &Vec<ImageControl>) -> (r: Json)
    ensures
        r@ == spec_image_controls_json(cs@),
{
    let mut items: Vec<Json> = Vec::new();
    let mut i: usize = 0;
    while i < cs.len()
        invariant
            i <= cs.len(),
            items@.len() == i,
            forall|k: int|
                0 <= k < i ==> json_view(#[trigger] items@[k]) == cs@[k].spec_json(),
        decreases cs.len() - i,
    {
        items.push(cs[i].to_json());
        i = i + 1;
    }
    let r = Json::Arr(items);
    proof {
        lemma_json_view_seq(items@);
        assert(json_view_seq(items@) =~= Seq::new(cs@.len(), |i: int| cs@[i].spec_json()));
    }
    r
}

// ---------------------------------------------------------------------------
// Modalities and prompts
// ---------------------------------------------------------------------------

/// One item of a prompt. Which modalities a model accepts depends on
/// the model.
#[derive(Debug)]
pub enum Modality {
    /// Plain text, the one modality every language model accepts.
    Text { data: String, controls: Option<Vec<TextControl>> },
    /// An image, base64-encoded. Models see square images; anything
    /// else is center-cropped unless a cropping box is given.
    Image {
        data: String,
        /// x-coordinate of the top left corner of the cropping box,
        /// in pixels.
        x: Option<i32>,
        /// y-coordinate of the top left corner of the cropping box,
        /// in pixels.
        y: Option<i32>,
        /// Side length of the cropping square, in pixels.
        size: Option<i32>,
        controls: Option<Vec<ImageControl>>,
    },
    /// Token ids, used as they are.
    TokenIds { data: Vec<u32>, controls: Option<Vec<TokenControl>> },
}

/// JSON for the optional controls of a text item.
pub open spec fn opt_text_controls_json(o: Option<Vec<TextControl>>) -> Option<JsonVal> {
    match o {
        Option::Some(cs) => Option::Some(spec_text_controls_json(cs@)),
        Option::None => Option::None,
    }
}

/// JSON for the optional controls of an image item.
pub open spec fn opt_image_controls_json(o: Option<Vec<ImageControl>>) -> Option<JsonVal> {
    match o {
        Option::Some(cs) => Option::Some(spec_image_controls_json(cs@)),
        Option::None => Option::None,
    }
}

/// JSON for the optional controls of a token-id item.
pub open spec fn opt_token_controls_json(o: Option<Vec<TokenControl>>) -> Option<JsonVal> {
    match o {
        Option::Some(cs) => Option::Some(spec_token_controls_json(cs@)),
        Option::None => Option::None,
    }
}

impl Modality {
    /// The wire form of a prompt item: an object tagged with its
    /// `type`, holding only the fields that are set.
    pub open spec fn spec_json(self) -> JsonVal {
        match self {
            Modality::Text { data, controls } => JsonVal::Obj(
                seq![("type"@, JsonVal::Str("text"@)), ("data"@, JsonVal::Str(data@))]
                    + opt_member("controls"@, opt_text_controls_json(controls)),
            ),
            Modality::Image { data, x, y, size, controls } => JsonVal::Obj(
                seq![("type"@, JsonVal::Str("image"@)), ("data"@, JsonVal::Str(data@))]
                    + opt_member("x"@, opt_i32_json(x)) + opt_member("y"@, opt_i32_json(y))
                    + opt_member("size"@, opt_i32_json(size)) + opt_member(
                    "controls"@,
                    opt_image_controls_json(controls),
                ),
            ),
            Modality::TokenIds { data, controls } => JsonVal::Obj(
                seq![("type"@, JsonVal::Str("token_ids"@)), ("data"@, spec_json_u32_array(data@))]
                    + opt_member("controls"@, opt_token_controls_json(controls)),
            ),
        }
    }

    /// Builds the wire form of this prompt item.
    pub fn to_json(&self) -> (r: Json)
        ensures
            r@ == self.spec_json(),
    {
        match self {
            Modality::Text { data, controls } => {
                let mut members: Vec<(String, Json)> = Vec::new();
                push_member(&mut members, "type", Json::Str(String::from_str("text")));
                push_member(&mut members, "data", Json::Str(data.clone()));
                match controls {
                    Some(cs) => {
                        push_member(&mut members, "controls", text_controls_json(cs));
                    },
                    None => {},
                }
                let r = Json::Obj(members);
                proof {
                    assert(json_view_members(members@) =~~= self.spec_json()->Obj_0);
                }
                r
            },
            Modality::Image { data, x, y, size, controls } => {
                let mut members: Vec<(String, Json)> = Vec::new();
                push_member(&mut members, "type", Json::Str(String::from_str("image")));
                push_member(&mut members, "data", Json::Str(data.clone()));
                push_opt_i32(&mut members, "x", x);
                push_opt_i32(&mut members, "y", y);
                push_opt_i32(&mut members, "size", size);
                match controls {
                    Some(cs) => {
                        push_member(&mut members, "controls", image_controls_json(cs));
                    },
                    None => {},
                }
                let r = Json::Obj(members);
                proof {
                    assert(json_view_members(members@) =~~= self.spec_json()->Obj_0);
                }
                r
            },
            Modality::TokenIds { data, controls } => {
                let mut members: Vec<(String, Json)> = Vec::new();
                push_member(&mut members, "type", Json::Str(String::from_str("token_ids")));
                push_member(&mut members, "data", json_u32_array(data));
                match controls {
                    Some(cs) => {
                        push_member(&mut members, "controls", token_controls_json(cs));
                    },
                    None => {},
                }
                let r = Json::Obj(members);
                proof {
                    assert(json_view_members(members@) =~~= self.spec_json()->Obj_0);
                }
                r
            },
        }
    }

    /// A text prompt item.
    pub fn from_text(text: &str, controls: Option<Vec<TextControl>>) -> (r: Modality)
        ensures
            (r matches Modality::Text { data, controls: c } && data@ == text@ && c
                == controls),
    {
        Modality::Text { data: text.to_owned(), controls }
    }

    /// A token-id prompt item.
    pub fn from_token_ids(ids: Vec<u32>, controls: Option<Vec<TokenControl>>) -> (r: Modality)
        ensures
            r == (Modality::TokenIds { data: ids, controls }),
    {
        Modality::TokenIds { data: ids, controls }
    }
}

/// An ordered sequence of prompt items; the service concatenates
/// them. Order is significant.
#[derive(Debug)]
pub struct Prompt(pub Vec<Modality>);

/// The wire form of a prompt: the array of its items.
pub open spec fn spec_prompt_json(p: Prompt) -> JsonVal {
    JsonVal::Arr(Seq::new(p.0@.len(), |i: int| p.0@[i].spec_json()))
}

impl Prompt {
    /// The wire form of this prompt.
    pub open spec fn spec_json(self) -> JsonVal {
        spec_prompt_json(self)
    }

    /// Builds the wire form of this prompt.
    pub fn to_json(&self) -> (r: Json)
        ensures
            r@ == self.spec_json(),
    {
        let mut items: Vec<Json> = Vec::new();
        let mut i: usize = 0;
        while i < self.0.len()
            invariant
                i <= self.0.len(),
                items@.len() == i,
                forall|k: int|
                    0 <= k < i ==> json_view(#[trigger] items@[k]) == self.0@[k].spec_json(),
            decreases self.0.len() - i,
        {
            items.push(self.0[i].to_json());
            i = i + 1;
        }
        let r = Json::Arr(items);
        proof {
            lemma_json_view_seq(items@);
            assert(json_view_seq(items@) =~= Seq::new(
                self.0@.len(),
                |i: int| self.0@[i].spec_json(),
            ));
        }
        r
    }

    /// The empty prompt.
    pub fn empty() -> (r: Prompt)
        ensures
            r.0@.len() == 0,
    {
        Prompt(Vec::new())
    }

    /// A prompt of one text item.
    pub fn from_text(text: &str) -> (r: Prompt)
        ensures
            r.0@.len() == 1,
            (r.0@[0] matches Modality::Text { data, controls } && data@ == text@ && controls
                is None),
    {
        let mut items: Vec<Modality> = Vec::new();
        items.push(Modality::from_text(text, None));
        Prompt(items)
    }

    /// A prompt of one text item with attention controls.
    pub fn from_text_with_controls(text: &str, controls: Vec<TextControl>) -> (r: Prompt)
        ensures
            r.0@.len() == 1,
            (r.0@[0] matches Modality::Text { data, controls: c } && data@ == text@ && c
                == Option::Some(controls)),
    {
        let mut items: Vec<Modality> = Vec::new();
        items.push(Modality::from_text(text, Some(controls)));
        Prompt(items)
    }

    /// A prompt of one token-id item.
    pub fn from_token_ids(ids: Vec<u32>, controls: Option<Vec<TokenControl>>) -> (r: Prompt)
        ensures
            r.0@.len() == 1,
            r.0@[0] == (Modality::TokenIds { data: ids, controls }),
    {
        let mut items: Vec<Modality> = Vec::new();
        items.push(Modality::from_token_ids(ids, controls));
        Prompt(items)
    }

    /// A multimodal prompt from a list of items of any modality.
    pub fn from_vec(items: Vec<Modality>) -> (r: Prompt)
        ensures
            r.0 == items,
    {
        Prompt(items)
    }
}

impl Default for Prompt {
    /// The empty prompt.
    fn default() -> (r: Prompt)
        ensures
            r.0@.len() == 0,
    {
        Prompt::empty()
    }
}



/// What base64 encoding produces for a byte sequence: standard
/// alphabet, with padding. The result depends on the bytes alone.
pub uninterp spec fn base64_of(b: Seq<u8>) -> Seq<char>;

/// Relies on base64's Engine::encode with the standard engine: the
/// base64 text of the bytes, a function of the bytes alone; empty
/// input gives empty output.
#[verifier::external_body]
fn base64_encode(image: &[u8]) -> (r: String)
    ensures
        r@ == base64_of(image@),
        image@.len() == 0 ==> r@.len() == 0,
{
    base64::Engine::encode(&base64::prelude::BASE64_STANDARD, image)
}

impl Modality {
    /// An image prompt item from the binary representation of the
    /// image, base64-encoded for the wire. The bytes must already be
    /// in a format the service accepts; PNG always is.
    pub fn from_image_bytes(image: &[u8]) -> (r: Modality)
        ensures
            (r matches Modality::Image { data, x, y, size, controls } && data@ == base64_of(
                image@,
            ) && x is None && y is None && size is None && controls is None),
    {
        Modality::Image {
            data: base64_encode(image),
            x: None,
            y: None,
            size: None,
            controls: None,
        }
    }
}

// ---------------------------------------------------------------------------
// The completion request
// ---------------------------------------------------------------------------

/// The logit-bias map: token id to additive bias, in insertion order.
pub open spec fn spec_logit_bias_json(entries: Seq<(i32, JsonNumber)>) -> JsonVal {
    JsonVal::Obj(
        Seq::new(
            entries.len(),
            |i: int| (int_lexeme(entries[i].0 as int), JsonVal::Num(entries[i].1@)),
        ),
    )
}

/// JSON for an optional logit-bias field.
pub open spec fn opt_logit_bias_json(o: Option<Vec<(i32, JsonNumber)>>) -> Option<JsonVal> {
    match o {
        Option::Some(entries) => Option::Some(spec_logit_bias_json(entries@)),
        Option::None => Option::None,
    }
}

/// Builds the logit-bias object.
pub fn logit_bias_json(entries: &Vec<(i32, JsonNumber)>) -> (r: Json)
    ensures
        r@ == spec_logit_bias_json(entries@),
{
    let mut members: Vec<(String, Json)> = Vec::new();
    let mut i: usize = 0;
    while i < entries.len()
        invariant
            i <= entries.len(),
            members@.len() == i,
            forall|k: int|
                0 <= k < i ==> (#[trigger] members@[k].0@, json_view(members@[k].1)) == (
                    int_lexeme(entries@[k].0 as int),
                    JsonVal::Num(entries@[k].1@),
                ),
        decreases entries.len() - i,
    {
        let key_num = JsonNumber::from_i64(entries[i].0 as i64);
        let key = key_num.as_str().to_owned();
        members.push((key, Json::Num(entries[i].1.duplicate())));
        i = i + 1;
    }
    let r = Json::Obj(members);
    proof {
        lemma_json_view_members(members@);
        assert(json_view_members(members@) =~= spec_logit_bias_json(entries@)->Obj_0);
    }
    r
}

/// Appends the member for an optional logit-bias field, when it is
/// set.
pub fn push_opt_logit_bias(
    members: &mut Vec<(String, Json)>,
    key: &str,
    v: &Option<Vec<(i32, JsonNumber)>>,
)
    ensures
        json_view_members(final(members)@) == json_view_members(old(members)@) + opt_member(
            key@,
            opt_logit_bias_json(*v),
        ),
{
    match v {
        Some(entries) => {
            push_member(members, key, logit_bias_json(entries));
        },
        None => {
            proof {
                assert(json_view_members(members@) + opt_member(key@, opt_logit_bias_json(*v))
                    =~= json_view_members(members@));
            }
        },
    }
}

/// Asks the service to complete a prompt with a given model. Every
/// optional field that is left unset stays off the wire; the server
/// distinguishes "not provided" from an explicit default.
#[derive(Debug)]
pub struct CompletionRequest {
    /// Name of the model tasked with completing the prompt.
    pub model: String,
    /// Determines in which datacenters the request may be processed.
    pub hosting: Option<Hosting>,
    /// Prompt to complete. The supported modalities depend on the
    /// model.
    pub prompt: Prompt,
    /// Limit for the number of generated tokens.
    pub maximum_tokens: u32,
    /// Generate at least this many tokens before an end-of-text token.
    pub minimum_tokens: Option<u32>,
    /// Echo the prompt in the completion.
    pub echo: Option<bool>,
    /// Sampling temperature; higher values make the output less
    /// probable ("more creative").
    pub temperature: Option<JsonNumber>,
    /// Sample from the k most likely next tokens.
    pub top_k: Option<u32>,
    /// Sample from the smallest token set whose cumulative probability
    /// exceeds this value.
    pub top_p: Option<JsonNumber>,
    /// Penalty on tokens that are already present, independent of
    /// their count.
    pub presence_penalty: Option<JsonNumber>,
    /// Penalty on tokens that are already present, scaled with their
    /// count.
    pub frequency_penalty: Option<JsonNumber>,
    /// Penalty on reproducing token sequences that already appear.
    pub sequence_penalty: Option<JsonNumber>,
    /// Minimal number of tokens counted as a sequence.
    pub sequence_penalty_min_length: Option<i32>,
    /// Update the penalties from the tokens of the prompt too.
    pub repetition_penalties_include_prompt: Option<bool>,
    /// Update the penalties from the tokens of the completion too.
    pub repetition_penalties_include_completion: Option<bool>,
    /// Apply the presence penalty multiplicatively instead of
    /// additively.
    pub use_multiplicative_presence_penalty: Option<bool>,
    /// Apply the frequency penalty multiplicatively instead of
    /// additively.
    pub use_multiplicative_frequency_penalty: Option<bool>,
    /// Apply the sequence penalty multiplicatively instead of
    /// additively.
    pub use_multiplicative_sequence_penalty: Option<bool>,
    /// Strings that may be generated without penalty.
    pub penalty_exceptions: Option<Vec<String>>,
    /// All tokens of this text are penalized as if already generated.
    pub penalty_bias: Option<String>,
    /// Keep the stop sequences inside the penalty exceptions.
    pub penalty_exceptions_include_stop_sequences: Option<bool>,
    /// Generate this many completions server-side and return the best.
    pub best_of: Option<i32>,
    /// The number of completions to return.
    pub n: Option<i32>,
    /// Number of top log probabilities returned for each generated
    /// token.
    pub log_probs: Option<i32>,
    /// Strings that stop generation when they are generated.
    pub stop_sequences: Option<Vec<String>>,
    /// Return the individual tokens of the completion.
    pub tokens: Option<bool>,
    /// Force the raw, unoptimized completion to be returned too.
    pub raw_completion: Option<bool>,
    /// Leave prompt and completion exactly as given.
    pub disable_optimizations: Option<bool>,
    /// Only tokens from this list are considered at sampling.
    pub completion_bias_inclusion: Option<Vec<String>>,
    /// Only consider the first token of each inclusion entry.
    pub completion_bias_inclusion_first_token_only: Option<bool>,
    /// Tokens from this list are never generated.
    pub completion_bias_exclusion: Option<Vec<String>>,
    /// Only consider the first token of each exclusion entry.
    pub completion_bias_exclusion_first_token_only: Option<bool>,
    /// Apply attention controls to tokens at least this similar to the
    /// controlled ones.
    pub contextual_control_threshold: Option<JsonNumber>,
    /// Apply controls additively on the attention scores rather than
    /// by scaling.
    pub control_log_additive: Option<bool>,
    /// Additive bias per token id.
    pub logit_bias: Option<Vec<(i32, JsonNumber)>>,
}

impl CompletionRequest {
    /// The fields of the wire payload, in order: each key with the
    /// JSON its field contributes when set.
    pub open spec fn spec_fields(self) -> Seq<(Seq<char>, Option<JsonVal>)> {
        seq![
            ("model"@, Option::Some(JsonVal::Str(self.model@))),
            ("hosting"@, opt_hosting_json(self.hosting)),
            ("prompt"@, Option::Some(self.prompt.spec_json())),
            ("maximum_tokens"@, Option::Some(JsonVal::Num(int_lexeme(self.maximum_tokens as int)))),
            ("minimum_tokens"@, opt_u32_json(self.minimum_tokens)),
            ("echo"@, opt_bool_json(self.echo)),
            ("temperature"@, opt_num_json(self.temperature)),
            ("top_k"@, opt_u32_json(self.top_k)),
            ("top_p"@, opt_num_json(self.top_p)),
            ("presence_penalty"@, opt_num_json(self.presence_penalty)),
            ("frequency_penalty"@, opt_num_json(self.frequency_penalty)),
            ("sequence_penalty"@, opt_num_json(self.sequence_penalty)),
            ("sequence_penalty_min_length"@, opt_i32_json(self.sequence_penalty_min_length)),
            ("repetition_penalties_include_prompt"@, opt_bool_json(self.repetition_penalties_include_prompt)),
            ("repetition_penalties_include_completion"@, opt_bool_json(self.repetition_penalties_include_completion)),
            ("use_multiplicative_presence_penalty"@, opt_bool_json(self.use_multiplicative_presence_penalty)),
            ("use_multiplicative_frequency_penalty"@, opt_bool_json(self.use_multiplicative_frequency_penalty)),
            ("use_multiplicative_sequence_penalty"@, opt_bool_json(self.use_multiplicative_sequence_penalty)),
            ("penalty_exceptions"@, opt_str_array_json(self.penalty_exceptions)),
            ("penalty_bias"@, opt_string_json(self.penalty_bias)),
            ("penalty_exceptions_include_stop_sequences"@, opt_bool_json(self.penalty_exceptions_include_stop_sequences)),
            ("best_of"@, opt_i32_json(self.best_of)),
            ("n"@, opt_i32_json(self.n)),
            ("log_probs"@, opt_i32_json(self.log_probs)),
            ("stop_sequences"@, opt_str_array_json(self.stop_sequences)),
            ("tokens"@, opt_bool_json(self.tokens)),
            ("raw_completion"@, opt_bool_json(self.raw_completion)),
            ("disable_optimizations"@, opt_bool_json(self.disable_optimizations)),
            ("completion_bias_inclusion"@, opt_str_array_json(self.completion_bias_inclusion)),
            ("completion_bias_inclusion_first_token_only"@, opt_bool_json(self.completion_bias_inclusion_first_token_only)),
            ("completion_bias_exclusion"@, opt_str_array_json(self.completion_bias_exclusion)),
            ("completion_bias_exclusion_first_token_only"@, opt_bool_json(self.completion_bias_exclusion_first_token_only)),
            ("contextual_control_threshold"@, opt_num_json(self.contextual_control_threshold)),
            ("control_log_additive"@, opt_bool_json(self.control_log_additive)),
            ("logit_bias"@, opt_logit_bias_json(self.logit_bias)),
        ]
    }

    /// The wire payload: the three required fields and exactly the
    /// optional fields that are set, in this order.
    pub open spec fn spec_json(self) -> JsonVal {
        JsonVal::Obj(sparse_members(self.spec_fields()))
    }

    /// Builds the wire payload.
    #[verifier::rlimit(100)]
    pub fn to_json(&self) -> (r: Json)
        ensures
            r@ == self.spec_json(),
    {
        let mut members: Vec<(String, Json)> = Vec::new();
        push_member(&mut members, "model", Json::Str(self.model.clone()));
        push_opt_hosting(&mut members, "hosting", &self.hosting);
        push_member(&mut members, "prompt", self.prompt.to_json());
        push_member(
            &mut members,
            "maximum_tokens",
            Json::Num(JsonNumber::from_u64(self.maximum_tokens as u64)),
        );
        push_opt_u32(&mut members, "minimum_tokens", &self.minimum_tokens);
        push_opt_bool(&mut members, "echo", &self.echo);
        push_opt_num(&mut members, "temperature", &self.temperature);
        push_opt_u32(&mut members, "top_k", &self.top_k);
        push_opt_num(&mut members, "top_p", &self.top_p);
        push_opt_num(&mut members, "presence_penalty", &self.presence_penalty);
        push_opt_num(&mut members, "frequency_penalty", &self.frequency_penalty);
        push_opt_num(&mut members, "sequence_penalty", &self.sequence_penalty);
        push_opt_i32(&mut members, "sequence_penalty_min_length", &self.sequence_penalty_min_length);
        push_opt_bool(
            &mut members,
            "repetition_penalties_include_prompt",
            &self.repetition_penalties_include_prompt,
        );
        push_opt_bool(
            &mut members,
            "repetition_penalties_include_completion",
            &self.repetition_penalties_include_completion,
        );
        push_opt_bool(
            &mut members,
            "use_multiplicative_presence_penalty",
            &self.use_multiplicative_presence_penalty,
        );
        push_opt_bool(
            &mut members,
            "use_multiplicative_frequency_penalty",
            &self.use_multiplicative_frequency_penalty,
        );
        push_opt_bool(
            &mut members,
            "use_multiplicative_sequence_penalty",
            &self.use_multiplicative_sequence_penalty,
        );
        push_opt_str_array(&mut members, "penalty_exceptions", &self.penalty_exceptions);
        push_opt_string(&mut members, "penalty_bias", &self.penalty_bias);
        push_opt_bool(
            &mut members,
            "penalty_exceptions_include_stop_sequences",
            &self.penalty_exceptions_include_stop_sequences,
        );
        push_opt_i32(&mut members, "best_of", &self.best_of);
        push_opt_i32(&mut members, "n", &self.n);
        push_opt_i32(&mut members, "log_probs", &self.log_probs);
        push_opt_str_array(&mut members, "stop_sequences", &self.stop_sequences);
        push_opt_bool(&mut members, "tokens", &self.tokens);
        push_opt_bool(&mut members, "raw_completion", &self.raw_completion);
        push_opt_bool(&mut members, "disable_optimizations", &self.disable_optimizations);
        push_opt_str_array(
            &mut members,
            "completion_bias_inclusion",
            &self.completion_bias_inclusion,
        );
        push_opt_bool(
            &mut members,
            "completion_bias_inclusion_first_token_only",
            &self.completion_bias_inclusion_first_token_only,
        );
        push_opt_str_array(
            &mut members,
            "completion_bias_exclusion",
            &self.completion_bias_exclusion,
        );
        push_opt_bool(
            &mut members,
            "completion_bias_exclusion_first_token_only",
            &self.completion_bias_exclusion_first_token_only,
        );
        push_opt_num(
            &mut members,
            "contextual_control_threshold",
            &self.contextual_control_threshold,
        );
        push_opt_bool(&mut members, "control_log_additive", &self.control_log_additive);
        push_opt_logit_bias(&mut members, "logit_bias", &self.logit_bias);
        let r = Json::Obj(members);
        proof {
            self.lemma_members_shape();
            assert(json_view_members(members@) =~~= opt_member("model"@, Option::Some(JsonVal::Str(self.model@))) + opt_member("hosting"@, opt_hosting_json(self.hosting)) + opt_member("prompt"@, Option::Some(self.prompt.spec_json())) + opt_member("maximum_tokens"@, Option::Some(JsonVal::Num(int_lexeme(self.maximum_tokens as int)))) + opt_member("minimum_tokens"@, opt_u32_json(self.minimum_tokens)) + opt_member("echo"@, opt_bool_json(self.echo)) + opt_member("temperature"@, opt_num_json(self.temperature)) + opt_member("top_k"@, opt_u32_json(self.top_k)) + opt_member("top_p"@, opt_num_json(self.top_p)) + opt_member("presence_penalty"@, opt_num_json(self.presence_penalty)) + opt_member("frequency_penalty"@, opt_num_json(self.frequency_penalty)) + opt_member("sequence_penalty"@, opt_num_json(self.sequence_penalty)) + opt_member("sequence_penalty_min_length"@, opt_i32_json(self.sequence_penalty_min_length)) + opt_member("repetition_penalties_include_prompt"@, opt_bool_json(self.repetition_penalties_include_prompt)) + opt_member("repetition_penalties_include_completion"@, opt_bool_json(self.repetition_penalties_include_completion)) + opt_member("use_multiplicative_presence_penalty"@, opt_bool_json(self.use_multiplicative_presence_penalty)) + opt_member("use_multiplicative_frequency_penalty"@, opt_bool_json(self.use_multiplicative_frequency_penalty)) + opt_member("use_multiplicative_sequence_penalty"@, opt_bool_json(self.use_multiplicative_sequence_penalty)) + opt_member("penalty_exceptions"@, opt_str_array_json(self.penalty_exceptions)) + opt_member("penalty_bias"@, opt_string_json(self.penalty_bias)) + opt_member("penalty_exceptions_include_stop_sequences"@, opt_bool_json(self.penalty_exceptions_include_stop_sequences)) + opt_member("best_of"@, opt_i32_json(self.best_of)) + opt_member("n"@, opt_i32_json(self.n)) + opt_member("log_probs"@, opt_i32_json(self.log_probs)) + opt_member("stop_sequences"@, opt_str_array_json(self.stop_sequences)) + opt_member("tokens"@, opt_bool_json(self.tokens)) + opt_member("raw_completion"@, opt_bool_json(self.raw_completion)) + opt_member("disable_optimizations"@, opt_bool_json(self.disable_optimizations)) + opt_member("completion_bias_inclusion"@, opt_str_array_json(self.completion_bias_inclusion)) + opt_member("completion_bias_inclusion_first_token_only"@, opt_bool_json(self.completion_bias_inclusion_first_token_only)) + opt_member("completion_bias_exclusion"@, opt_str_array_json(self.completion_bias_exclusion)) + opt_member("completion_bias_exclusion_first_token_only"@, opt_bool_json(self.completion_bias_exclusion_first_token_only)) + opt_member("contextual_control_threshold"@, opt_num_json(self.contextual_control_threshold)) + opt_member("control_log_additive"@, opt_bool_json(self.control_log_additive)) + opt_member("logit_bias"@, opt_logit_bias_json(self.logit_bias)));
        }
        r
    }

/// The member list of the payload, segment by segment.
#[verifier::rlimit(100)]
proof fn lemma_members_shape(self)
    ensures
        sparse_members(self.spec_fields()) == opt_member("model"@, Option::Some(JsonVal::Str(self.model@))) + opt_member("hosting"@, opt_hosting_json(self.hosting)) + opt_member("prompt"@, Option::Some(self.prompt.spec_json())) + opt_member("maximum_tokens"@, Option::Some(JsonVal::Num(int_lexeme(self.maximum_tokens as int)))) + opt_member("minimum_tokens"@, opt_u32_json(self.minimum_tokens)) + opt_member("echo"@, opt_bool_json(self.echo)) + opt_member("temperature"@, opt_num_json(self.temperature)) + opt_member("top_k"@, opt_u32_json(self.top_k)) + opt_member("top_p"@, opt_num_json(self.top_p)) + opt_member("presence_penalty"@, opt_num_json(self.presence_penalty)) + opt_member("frequency_penalty"@, opt_num_json(self.frequency_penalty)) + opt_member("sequence_penalty"@, opt_num_json(self.sequence_penalty)) + opt_member("sequence_penalty_min_length"@, opt_i32_json(self.sequence_penalty_min_length)) + opt_member("repetition_penalties_include_prompt"@, opt_bool_json(self.repetition_penalties_include_prompt)) + opt_member("repetition_penalties_include_completion"@, opt_bool_json(self.repetition_penalties_include_completion)) + opt_member("use_multiplicative_presence_penalty"@, opt_bool_json(self.use_multiplicative_presence_penalty)) + opt_member("use_multiplicative_frequency_penalty"@, opt_bool_json(self.use_multiplicative_frequency_penalty)) + opt_member("use_multiplicative_sequence_penalty"@, opt_bool_json(self.use_multiplicative_sequence_penalty)) + opt_member("penalty_exceptions"@, opt_str_array_json(self.penalty_exceptions)) + opt_member("penalty_bias"@, opt_string_json(self.penalty_bias)) + opt_member("penalty_exceptions_include_stop_sequences"@, opt_bool_json(self.penalty_exceptions_include_stop_sequences)) + opt_member("best_of"@, opt_i32_json(self.best_of)) + opt_member("n"@, opt_i32_json(self.n)) + opt_member("log_probs"@, opt_i32_json(self.log_probs)) + opt_member("stop_sequences"@, opt_str_array_json(self.stop_sequences)) + opt_member("tokens"@, opt_bool_json(self.tokens)) + opt_member("raw_completion"@, opt_bool_json(self.raw_completion)) + opt_member("disable_optimizations"@, opt_bool_json(self.disable_optimizations)) + opt_member("completion_bias_inclusion"@, opt_str_array_json(self.completion_bias_inclusion)) + opt_member("completion_bias_inclusion_first_token_only"@, opt_bool_json(self.completion_bias_inclusion_first_token_only)) + opt_member("completion_bias_exclusion"@, opt_str_array_json(self.completion_bias_exclusion)) + opt_member("completion_bias_exclusion_first_token_only"@, opt_bool_json(self.completion_bias_exclusion_first_token_only)) + opt_member("contextual_control_threshold"@, opt_num_json(self.contextual_control_threshold)) + opt_member("control_log_additive"@, opt_bool_json(self.control_log_additive)) + opt_member("logit_bias"@, opt_logit_bias_json(self.logit_bias)),
{
    assert(seq![("model"@, Option::Some(JsonVal::Str(self.model@)))] =~= Seq::<(Seq<char>, Option<JsonVal>)>::empty().push(("model"@, Option::Some(JsonVal::Str(self.model@)))));
    lemma_sparse_members_push(Seq::<(Seq<char>, Option<JsonVal>)>::empty(), ("model"@, Option::Some(JsonVal::Str(self.model@))));
    assert(sparse_members(Seq::<(Seq<char>, Option<JsonVal>)>::empty()) + opt_member("model"@, Option::Some(JsonVal::Str(self.model@))) =~= opt_member("model"@, Option::Some(JsonVal::Str(self.model@))));
    assert(seq![("model"@, Option::Some(JsonVal::Str(self.model@))), ("hosting"@, opt_hosting_json(self.hosting))] =~= seq![("model"@, Option::Some(JsonVal::Str(self.model@)))].push(("hosting"@, opt_hosting_json(self.hosting))));
    lemma_sparse_members_push(seq![("model"@, Option::Some(JsonVal::Str(self.model@)))], ("hosting"@, opt_hosting_json(self.hosting)));
    assert(seq![("model"@, Option::Some(JsonVal::Str(self.model@))), ("hosting"@, opt_hosting_json(self.hosting)), ("prompt"@, Option::Some(self.prompt.spec_json()))] =~= seq![("model"@, Option::Some(JsonVal::Str(self.model@))), ("hosting"@, opt_hosting_json(self.hosting))].push(("prompt"@, Option::Some(self.prompt.spec_json()))));
    lemma_sparse_members_push(seq![("model"@, Option::Some(JsonVal::Str(self.model@))), ("hosting"@, opt_hosting_json(self.hosting))], ("prompt"@, Option::Some(self.prompt.spec_json())));
    assert(seq![("model"@, Option::Some(JsonVal::Str(self.model@))), ("hosting"@, opt_hosting_json(self.hosting)), ("prompt"@, Option::Some(self.prompt.spec_json())), ("maximum_tokens"@, Option::Some(JsonVal::Num(int_lexeme(self.maximum_tokens as int))))] =~= seq![("model"@, Option::Some(JsonVal::Str(self.model@))), ("hosting"@, opt_hosting_json(self.hosting)), ("prompt"@, Option::Some(self.prompt.spec_json()))].push(("maximum_tokens"@, Option::Some(JsonVal::Num(int_lexeme(self.maximum_tokens as int))))));
    lemma_sparse_members_push(seq![("model"@, Option::Some(JsonVal::Str(self.model@))), ("hosting"@, opt_hosting_json(self.hosting)), ("prompt"@, Option::Some(self.prompt.spec_json()))], ("maximum_tokens"@, Option::Some(JsonVal::Num(int_lexeme(self.maximum_tokens as int)))));
    assert(seq![("model"@, Option::Some(JsonVal::Str(self.model@))), ("hosting"@, opt_hosting_json(self.hosting)), ("prompt"@, Option::Some(self.prompt.spec_json())), ("maximum_tokens"@, Option::Some(JsonVal::Num(int_lexeme(self.maximum_tokens as int)))), ("minimum_tokens"@, opt_u32_json(self.minimum_tokens))] =~= seq![("model"@, Option::Some(JsonVal::Str(self.model@))), ("hosting"@, opt_hosting_json(self.hosting)), ("prompt"@, Option::Some(self.prompt.spec_json())), ("maximum_tokens"@, Option::Some(JsonVal::Num(int_lexeme(self.maximum_tokens as int))))].push(("minimum_tokens"@, opt_u32_json(self.minimum_tokens))));
    lemma_sparse_members_push(seq![("model"@, Option::Some(JsonVal::Str(self.model@))), ("hosting"@, opt_hosting_json(self.hosting)), ("prompt"@, Option::Some(self.prompt.spec_json())), ("maximum_tokens"@, Option::Some(JsonVal::Num(int_lexeme(self.maximum_tokens as int))))], ("minimum_tokens"@, opt_u32_json(self.minimum_tokens)));
    assert(seq![("model"@, Option::Some(JsonVal::Str(self.model@))), ("hosting"@, opt_hosting_json(self.hosting)), ("prompt"@, Option::Some(self.prompt.spec_json())), ("maximum_tokens"@, Option::Some(JsonVal::Num(int_lexeme(self.maximum_tokens as int)))), ("minimum_tokens"@, opt_u32_json(self.minimum_tokens)), ("echo"@, opt_bool_json(self.echo))] =~= seq![("model"@, Option::Some(JsonVal::Str(self.model@))), ("hosting"@, opt_hosting_json(self.hosting)), ("prompt"@, Option::Some(self.prompt.spec_json())), ("maximum_tokens"@, Option::Some(JsonVal::Num(int_lexeme(self.maximum_tokens as int)))), ("minimum_tokens"@, opt_u32_json(self.minimum_tokens))].push(("echo"@, opt_bool_json(self.echo))));
    lemma_sparse_members_push(seq![("model"@, Option::Some(JsonVal::Str(self.model@))), ("hosting"@, opt_hosting_json(self.hosting)), ("prompt"@, Option::Some(self.prompt.spec_json())), ("maximum_tokens"@, Option::Some(JsonVal::Num(int_lexeme(self.maximum_tokens as int)))), ("minimum_tokens"@, opt_u32_json(self.minimum_tokens))], ("echo"@, opt_bool_json(self.echo)));
    assert(seq![("model"@, Option::Some(JsonVal::Str(self.model@))), ("hosting"@, opt_hosting_json(self.hosting)), ("prompt"@, Option::Some(self.prompt.spec_json())), ("maximum_tokens"@, Option::Some(JsonVal::Num(int_lexeme(self.maximum_tokens as int)))), ("minimum_tokens"@, opt_u32_json(self.minimum_tokens)), ("echo"@, opt_bool_json(self.echo)), ("temperature"@, opt_num_json(self.temperature))] =~= seq![("model"@, Option::Some(JsonVal::Str(self.model@))), ("hosting"@, opt_hosting_json(self.hosting)), ("prompt"@, Option::Some(self.prompt.spec_json())), ("maximum_tokens"@, Option::Some(JsonVal::Num(int_lexeme(self.maximum_tokens as int)))), ("minimum_tokens"@, opt_u32_json(self.minimum_tokens)), ("echo"@, opt_bool_json(self.echo))].push(("temperature"@, opt_num_json(self.temperature))));
    lemma_sparse_members_push(seq![("model"@, Option::Some(JsonVal::Str(self.model@))), ("hosting"@, opt_hosting_json(self.hosting)), ("prompt"@, Option::Some(self.prompt.spec_json())), ("maximum_tokens"@, Option::Some(JsonVal::Num(int_lexeme(self.maximum_tokens as int)))), ("minimum_tokens"@, opt_u32_json(self.minimum_tokens)), ("echo"@, opt_bool_json(self.echo))], ("temperature"@, opt_num_json(self.temperature)));
    assert(seq![("model"@, Option::Some(JsonVal::Str(self.model@))), ("hosting"@, opt_hosting_json(self.hosting)), ("prompt"@, Option::Some(self.prompt.spec_json())), ("maximum_tokens"@, Option::Some(JsonVal::Num(int_lexeme(self.maximum_tokens as int)))), ("minimum_tokens"@, opt_u32_json(self.minimum_tokens)), ("echo"@, opt_bool_json(self.echo)), ("temperature"@, opt_num_json(self.temperature)), ("top_k"@, opt_u32_json(self.top_k))] =~= seq![("model"@, Option::Some(JsonVal::Str(self.model@))), ("hosting"@, opt_hosting_json(self.hosting)), ("prompt"@, Option::Some(self.prompt.spec_json())), ("maximum_tokens"@, Option::Some(JsonVal::Num(int_lexeme(self.maximum_tokens as int)))), ("minimum_tokens"@, opt_u32_json(self.minimum_tokens)), ("echo"@, opt_bool_json(self.echo)), ("temperature"@, opt_num_json(self.temperature))].push(("top_k"@, opt_u32_json(self.top_k))));
    lemma_sparse_members_push(seq![("model"@, Option::Some(JsonVal::Str(self.model@))), ("hosting"@, opt_hosting_json(self.hosting)), ("prompt"@, Option::Some(self.prompt.spec_json())), ("maximum_tokens"@, Option::Some(JsonVal::Num(int_lexeme(self.maximum_tokens as int)))), ("minimum_tokens"@, opt_u32_json(self.minimum_tokens)), ("echo"@, opt_bool_json(self.echo)), ("temperature"@, opt_num_json(self.temperature))], ("top_k"@, opt_u32_json(self.top_k)));
    assert(seq![("model"@, Option::Some(JsonVal::Str(self.model@))), ("hosting"@, opt_hosting_json(self.hosting)), ("prompt"@, Option::Some(self.prompt.spec_json())), ("maximum_tokens"@, Option::Some(JsonVal::Num(int_lexeme(self.maximum_tokens as int)))), ("minimum_tokens"@, opt_u32_json(self.minimum_tokens)), ("echo"@, opt_bool_json(self.echo)), ("temperature"@, opt_num_json(self.temperature)), ("top_k"@, opt_u32_json(self.top_k)), ("top_p"@, opt_num_json(self.top_p))] =~= seq![("model"@, Option::Some(JsonVal::Str(self.model@))), ("hosting"@, opt_hosting_json(self.hosting)), ("prompt"@, Option::Some(self.prompt.spec_json())), ("maximum_tokens"@, Option::Some(JsonVal::Num(int_lexeme(self.maximum_tokens as int)))), ("minimum_tokens"@, opt_u32_json(self.minimum_tokens)), ("echo"@, opt_bool_json(self.echo)), ("temperature"@, opt_num_json(self.temperature)), ("top_k"@, opt_u32_json(self.top_k))].push(("top_p"@, opt_num_json(self.top_p))));
    lemma_sparse_members_push(seq![("model"@, Option::Some(JsonVal::Str(self.model@))), ("hosting"@, opt_hosting_json(self.hosting)), ("prompt"@, Option::Some(self.prompt.spec_json())), ("maximum_tokens"@, Option::Some(JsonVal::Num(int_lexeme(self.maximum_tokens as int)))), ("minimum_tokens"@, opt_u32_json(self.minimum_tokens)), ("echo"@, opt_bool_json(self.echo)), ("temperature"@, opt_num_json(self.temperature)), ("top_k"@, opt_u32_json(self.top_k))], ("top_p"@, opt_num_json(self.top_p)));
    assert(seq![("model"@, Option::Some(JsonVal::Str(self.model@))), ("hosting"@, opt_hosting_json(self.hosting)), ("prompt"@, Option::Some(self.prompt.spec_json())), ("maximum_tokens"@, Option::Some(JsonVal::Num(int_lexeme(self.maximum_tokens as int)))), ("minimum_tokens"@, opt_u32_json(self.minimum_tokens)), ("echo"@, opt_bool_json(self.echo)), ("temperature"@, opt_num_json(self.temperature)), ("top_k"@, opt_u32_json(self.top_k)), ("top_p"@, opt_num_json(self.top_p)), ("presence_penalty"@, opt_num_json(self.presence_penalty))] =~= seq![("model"@, Option::Some(JsonVal::Str(self.model@))), ("hosting"@, opt_hosting_json(self.hosting)), ("prompt"@, Option::Some(self.prompt.spec_json())), ("maximum_tokens"@, Option::Some(JsonVal::Num(int_lexeme(self.maximum_tokens as int)))), ("minimum_tokens"@, opt_u32_json(self.minimum_tokens)), ("echo"@, opt_bool_json(self.echo)), ("temperature"@, opt_num_json(self.temperature)), ("top_k"@, opt_u32_json(self.top_k)), ("top_p"@, opt_num_json(self.top_p))].push(("presence_penalty"@, opt_num_json(self.presence_penalty))));
    lemma_sparse_members_push(seq![("model"@, Option::Some(JsonVal::Str(self.model@))), ("hosting"@, opt_hosting_json(self.hosting)), ("prompt"@, Option::Some(self.prompt.spec_json())), ("maximum_tokens"@, Option::Some(JsonVal::Num(int_lexeme(self.maximum_tokens as int)))), ("minimum_tokens"@, opt_u32_json(self.minimum_tokens)), ("echo"@, opt_bool_json(self.echo)), ("temperature"@, opt_num_json(self.temperature)), ("top_k"@, opt_u32_json(self.top_k)), ("top_p"@, opt_num_json(self.top_p))], ("presence_penalty"@, opt_num_json(self.presence_penalty)));
    assert(seq![("model"@, Option::Some(JsonVal::Str(self.model@))), ("hosting"@, opt_hosting_json(self.hosting)), ("prompt"@, Option::Some(self.prompt.spec_json())), ("maximum_tokens"@, Option::Some(JsonVal::Num(int_lexeme(self.maximum_tokens as int)))), ("minimum_tokens"@, opt_u32_json(self.minimum_tokens)), ("echo"@, opt_bool_json(self.echo)), ("temperature"@, opt_num_json(self.temperature)), ("top_k"@, opt_u32_json(self.top_k)), ("top_p"@, opt_num_json(self.top_p)), ("presence_penalty"@, opt_num_json(self.presence_penalty)), ("frequency_penalty"@, opt_num_json(self.frequency_penalty))] =~= seq![("model"@, Option::Some(JsonVal::Str(self.model@))), ("hosting"@, opt_hosting_json(self.hosting)), ("prompt"@, Option::Some(self.prompt.spec_json())), ("maximum_tokens"@, Option::Some(JsonVal::Num(int_lexeme(self.maximum_tokens as int)))), ("minimum_tokens"@, opt_u32_json(self.minimum_tokens)), ("echo"@, opt_bool_json(self.echo)), ("temperature"@, opt_num_json(self.temperature)), ("top_k"@, opt_u32_json(self.top_k)), ("top_p"@, opt_num_json(self.top_p)), ("presence_penalty"@, opt_num_json(self.presence_penalty))].push(("frequency_penalty"@, opt_num_json(self.frequency_penalty))));
    lemma_sparse_members_push(seq![("model"@, Option::Some(JsonVal::Str(self.model@))), ("hosting"@, opt_hosting_json(self.hosting)), ("prompt"@, Option::Some(self.prompt.spec_json())), ("maximum_tokens"@, Option::Some(JsonVal::Num(int_lexeme(self.maximum_tokens as int)))), ("minimum_tokens"@, opt_u32_json(self.minimum_tokens)), ("echo"@, opt_bool_json(self.echo)), ("temperature"@, opt_num_json(self.temperature)), ("top_k"@, opt_u32_json(self.top_k)), ("top_p"@, opt_num_json(self.top_p)), ("presence_penalty"@, opt_num_json(self.presence_penalty))], ("frequency_penalty"@, opt_num_json(self.frequency_penalty)));
    assert(seq![("model"@, Option::Some(JsonVal::Str(self.model@))), ("hosting"@, opt_hosting_json(self.hosting)), ("prompt"@, Option::Some(self.prompt.spec_json())), ("maximum_tokens"@, Option::Some(JsonVal::Num(int_lexeme(self.maximum_tokens as int)))), ("minimum_tokens"@, opt_u32_json(self.minimum_tokens)), ("echo"@, opt_bool_json(self.echo)), ("temperature"@, opt_num_json(self.temperature)), ("top_k"@, opt_u32_json(self.top_k)), ("top_p"@, opt_num_json(self.top_p)), ("presence_penalty"@, opt_num_json(self.presence_penalty)), ("frequency_penalty"@, opt_num_json(self.frequency_penalty)), ("sequence_penalty"@, opt_num_json(self.sequence_penalty))] =~= seq![("model"@, Option::Some(JsonVal::Str(self.model@))), ("hosting"@, opt_hosting_json(self.hosting)), ("prompt"@, Option::Some(self.prompt.spec_json())), ("maximum_tokens"@, Option::Some(JsonVal::Num(int_lexeme(self.maximum_tokens as int)))), ("minimum_tokens"@, opt_u32_json(self.minimum_tokens)), ("echo"@, opt_bool_json(self.echo)), ("temperature"@, opt_num_json(self.temperature)), ("top_k"@, opt_u32_json(self.top_k)), ("top_p"@, opt_num_json(self.top_p)), ("presence_penalty"@, opt_num_json(self.presence_penalty)), ("frequency_penalty"@, opt_num_json(self.frequency_penalty))].push(("sequence_penalty"@, opt_num_json(self.sequence_penalty))));
    lemma_sparse_members_push(seq![("model"@, Option::Some(JsonVal::Str(self.model@))), ("hosting"@, opt_hosting_json(self.hosting)), ("prompt"@, Option::Some(self.prompt.spec_json())), ("maximum_tokens"@, Option::Some(JsonVal::Num(int_lexeme(self.maximum_tokens as int)))), ("minimum_tokens"@, opt_u32_json(self.minimum_tokens)), ("echo"@, opt_bool_json(self.echo)), ("temperature"@, opt_num_json(self.temperature)), ("top_k"@, opt_u32_json(self.top_k)), ("top_p"@, opt_num_json(self.top_p)), ("presence_penalty"@, opt_num_json(self.presence_penalty)), ("frequency_penalty"@, opt_num_json(self.frequency_penalty))], ("sequence_penalty"@, opt_num_json(self.sequence_penalty)));
    assert(seq![("model"@, Option::Some(JsonVal::Str(self.model@))), ("hosting"@, opt_hosting_json(self.hosting)), ("prompt"@, Option::Some(self.prompt.spec_json())), ("maximum_tokens"@, Option::Some(JsonVal::Num(int_lexeme(self.maximum_tokens as int)))), ("minimum_tokens"@, opt_u32_json(self.minimum_tokens)), ("echo"@, opt_bool_json(self.echo)), ("temperature"@, opt_num_json(self.temperature)), ("top_k"@, opt_u32_json(self.top_k)), ("top_p"@, opt_num_json(self.top_p)), ("presence_penalty"@, opt_num_json(self.presence_penalty)), ("frequency_penalty"@, opt_num_json(self.frequency_penalty)), ("sequence_penalty"@, opt_num_json(self.sequence_penalty)), ("sequence_penalty_min_length"@, opt_i32_json(self.sequence_penalty_min_length))] =~= seq![("model"@, Option::Some(JsonVal::Str(self.model@))), ("hosting"@, opt_hosting_json(self.hosting)), ("prompt"@, Option::Some(self.prompt.spec_json())), ("maximum_tokens"@, Option::Some(JsonVal::Num(int_lexeme(self.maximum_tokens as int)))), ("minimum_tokens"@, opt_u32_json(self.minimum_tokens)), ("echo"@, opt_bool_json(self.echo)), ("temperature"@, opt_num_json(self.temperature)), ("top_k"@, opt_u32_json(self.top_k)), ("top_p"@, opt_num_json(self.top_p)), ("presence_penalty"@, opt_num_json(self.presence_penalty)), ("frequency_penalty"@, opt_num_json(self.frequency_penalty)), ("sequence_penalty"@, opt_num_json(self.sequence_penalty))].push(("sequence_penalty_min_length"@, opt_i32_json(self.sequence_penalty_min_length))));
    lemma_sparse_members_push(seq![("model"@, Option::Some(JsonVal::Str(self.model@))), ("hosting"@, opt_hosting_json(self.hosting)), ("prompt"@, Option::Some(self.prompt.spec_json())), ("maximum_tokens"@, Option::Some(JsonVal::Num(int_lexeme(self.maximum_tokens as int)))), ("minimum_tokens"@, opt_u32_json(self.minimum_tokens)), ("echo"@, opt_bool_json(self.echo)), ("temperature"@, opt_num_json(self.temperature)), ("top_k"@, opt_u32_json(self.top_k)), ("top_p"@, opt_num_json(self.top_p)), ("presence_penalty"@, opt_num_json(self.presence_penalty)), ("frequency_penalty"@, opt_num_json(self.frequency_penalty)), ("sequence_penalty"@, opt_num_json(self.sequence_penalty))], ("sequence_penalty_min_length"@, opt_i32_json(self.sequence_penalty_min_length)));
    assert(seq![("model"@, Option::Some(JsonVal::Str(self.model@))), ("hosting"@, opt_hosting_json(self.hosting)), ("prompt"@, Option::Some(self.prompt.spec_json())), ("maximum_tokens"@, Option::Some(JsonVal::Num(int_lexeme(self.maximum_tokens as int)))), ("minimum_tokens"@, opt_u32_json(self.minimum_tokens)), ("echo"@, opt_bool_json(self.echo)), ("temperature"@, opt_num_json(self.temperature)), ("top_k"@, opt_u32_json(self.top_k)), ("top_p"@, opt_num_json(self.top_p)), ("presence_penalty"@, opt_num_json(self.presence_penalty)), ("frequency_penalty"@, opt_num_json(self.frequency_penalty)), ("sequence_penalty"@, opt_num_json(self.sequence_penalty)), ("sequence_penalty_min_length"@, opt_i32_json(self.sequence_penalty_min_length)), ("repetition_penalties_include_prompt"@, opt_bool_json(self.repetition_penalties_include_prompt))] =~= seq![("model"@, Option::Some(JsonVal::Str(self.model@))), ("hosting"@, opt_hosting_json(self.hosting)), ("prompt"@, Option::Some(self.prompt.spec_json())), ("maximum_tokens"@, Option::Some(JsonVal::Num(int_lexeme(self.maximum_tokens as int)))), ("minimum_tokens"@, opt_u32_json(self.minimum_tokens)), ("echo"@, opt_bool_json(self.echo)), ("temperature"@, opt_num_json(self.temperature)), ("top_k"@, opt_u32_json(self.top_k)), ("top_p"@, opt_num_json(self.top_p)), ("presence_penalty"@, opt_num_json(self.presence_penalty)), ("frequency_penalty"@, opt_num_json(self.frequency_penalty)), ("sequence_penalty"@, opt_num_json(self.sequence_penalty)), ("sequence_penalty_min_length"@, opt_i32_json(self.sequence_penalty_min_length))].push(("repetition_penalties_include_prompt"@, opt_bool_json(self.repetition_penalties_include_prompt))));
    lemma_sparse_members_push(seq![("model"@, Option::Some(JsonVal::Str(self.model@))), ("hosting"@, opt_hosting_json(self.hosting)), ("prompt"@, Option::Some(self.prompt.spec_json())), ("maximum_tokens"@, Option::Some(JsonVal::Num(int_lexeme(self.maximum_tokens as int)))), ("minimum_tokens"@, opt_u32_json(self.minimum_tokens)), ("echo"@, opt_bool_json(self.echo)), ("temperature"@, opt_num_json(self.temperature)), ("top_k"@, opt_u32_json(self.top_k)), ("top_p"@, opt_num_json(self.top_p)), ("presence_penalty"@, opt_num_json(self.presence_penalty)), ("frequency_penalty"@, opt_num_json(self.frequency_penalty)), ("sequence_penalty"@, opt_num_json(self.sequence_penalty)), ("sequence_penalty_min_length"@, opt_i32_json(self.sequence_penalty_min_length))], ("repetition_penalties_include_prompt"@, opt_bool_json(self.repetition_penalties_include_prompt)));
    assert(seq![("model"@, Option::Some(JsonVal::Str(self.model@))), ("hosting"@, opt_hosting_json(self.hosting)), ("prompt"@, Option::Some(self.prompt.spec_json())), ("maximum_tokens"@, Option::Some(JsonVal::Num(int_lexeme(self.maximum_tokens as int)))), ("minimum_tokens"@, opt_u32_json(self.minimum_tokens)), ("echo"@, opt_bool_json(self.echo)), ("temperature"@, opt_num_json(self.temperature)), ("top_k"@, opt_u32_json(self.top_k)), ("top_p"@, opt_num_json(self.top_p)), ("presence_penalty"@, opt_num_json(self.presence_penalty)), ("frequency_penalty"@, opt_num_json(self.frequency_penalty)), ("sequence_penalty"@, opt_num_json(self.sequence_penalty)), ("sequence_penalty_min_length"@, opt_i32_json(self.sequence_penalty_min_length)), ("repetition_penalties_include_prompt"@, opt_bool_json(self.repetition_penalties_include_prompt)), ("repetition_penalties_include_completion"@, opt_bool_json(self.repetition_penalties_include_completion))] =~= seq![("model"@, Option::Some(JsonVal::Str(self.model@))), ("hosting"@, opt_hosting_json(self.hosting)), ("prompt"@, Option::Some(self.prompt.spec_json())), ("maximum_tokens"@, Option::Some(JsonVal::Num(int_lexeme(self.maximum_tokens as int)))), ("minimum_tokens"@, opt_u32_json(self.minimum_tokens)), ("echo"@, opt_bool_json(self.echo)), ("temperature"@, opt_num_json(self.temperature)), ("top_k"@, opt_u32_json(self.top_k)), ("top_p"@, opt_num_json(self.top_p)), ("presence_penalty"@, opt_num_json(self.presence_penalty)), ("frequency_penalty"@, opt_num_json(self.frequency_penalty)), ("sequence_penalty"@, opt_num_json(self.sequence_penalty)), ("sequence_penalty_min_length"@, opt_i32_json(self.sequence_penalty_min_length)), ("repetition_penalties_include_prompt"@, opt_bool_json(self.repetition_penalties_include_prompt))].push(("repetition_penalties_include_completion"@, opt_bool_json(self.repetition_penalties_include_completion))));
    lemma_sparse_members_push(seq![("model"@, Option::Some(JsonVal::Str(self.model@))), ("hosting"@, opt_hosting_json(self.hosting)), ("prompt"@, Option::Some(self.prompt.spec_json())), ("maximum_tokens"@, Option::Some(JsonVal::Num(int_lexeme(self.maximum_tokens as int)))), ("minimum_tokens"@, opt_u32_json(self.minimum_tokens)), ("echo"@, opt_bool_json(self.echo)), ("temperature"@, opt_num_json(self.temperature)), ("top_k"@, opt_u32_json(self.top_k)), ("top_p"@, opt_num_json(self.top_p)), ("presence_penalty"@, opt_num_json(self.presence_penalty)), ("frequency_penalty"@, opt_num_json(self.frequency_penalty)), ("sequence_penalty"@, opt_num_json(self.sequence_penalty)), ("sequence_penalty_min_length"@, opt_i32_json(self.sequence_penalty_min_length)), ("repetition_penalties_include_prompt"@, opt_bool_json(self.repetition_penalties_include_prompt))], ("repetition_penalties_include_completion"@, opt_bool_json(self.repetition_penalties_include_completion)));
    assert(seq![("model"@, Option::Some(JsonVal::Str(self.model@))), ("hosting"@, opt_hosting_json(self.hosting)), ("prompt"@, Option::Some(self.prompt.spec_json())), ("maximum_tokens"@, Option::Some(JsonVal::Num(int_lexeme(self.maximum_tokens as int)))), ("minimum_tokens"@, opt_u32_json(self.minimum_tokens)), ("echo"@, opt_bool_json(self.echo)), ("temperature"@, opt_num_json(self.temperature)), ("top_k"@, opt_u32_json(self.top_k)), ("top_p"@, opt_num_json(self.top_p)), ("presence_penalty"@, opt_num_json(self.presence_penalty)), ("frequency_penalty"@, opt_num_json(self.frequency_penalty)), ("sequence_penalty"@, opt_num_json(self.sequence_penalty)), ("sequence_penalty_min_length"@, opt_i32_json(self.sequence_penalty_min_length)), ("repetition_penalties_include_prompt"@, opt_bool_json(self.repetition_penalties_include_prompt)), ("repetition_penalties_include_completion"@, opt_bool_json(self.repetition_penalties_include_completion)), ("use_multiplicative_presence_penalty"@, opt_bool_json(self.use_multiplicative_presence_penalty))] =~= seq![("model"@, Option::Some(JsonVal::Str(self.model@))), ("hosting"@, opt_hosting_json(self.hosting)), ("prompt"@, Option::Some(self.prompt.spec_json())), ("maximum_tokens"@, Option::Some(JsonVal::Num(int_lexeme(self.maximum_tokens as int)))), ("minimum_tokens"@, opt_u32_json(self.minimum_tokens)), ("echo"@, opt_bool_json(self.echo)), ("temperature"@, opt_num_json(self.temperature)), ("top_k"@, opt_u32_json(self.top_k)), ("top_p"@, opt_num_json(self.top_p)), ("presence_penalty"@, opt_num_json(self.presence_penalty)), ("frequency_penalty"@, opt_num_json(self.frequency_penalty)), ("sequence_penalty"@, opt_num_json(self.sequence_penalty)), ("sequence_penalty_min_length"@, opt_i32_json(self.sequence_penalty_min_length)), ("repetition_penalties_include_prompt"@, opt_bool_json(self.repetition_penalties_include_prompt)), ("repetition_penalties_include_completion"@, opt_bool_json(self.repetition_penalties_include_completion))].push(("use_multiplicative_presence_penalty"@, opt_bool_json(self.use_multiplicative_presence_penalty))));
    lemma_sparse_members_push(seq![("model"@, Option::Some(JsonVal::Str(self.model@))), ("hosting"@, opt_hosting_json(self.hosting)), ("prompt"@, Option::Some(self.prompt.spec_json())), ("maximum_tokens"@, Option::Some(JsonVal::Num(int_lexeme(self.maximum_tokens as int)))), ("minimum_tokens"@, opt_u32_json(self.minimum_tokens)), ("echo"@, opt_bool_json(self.echo)), ("temperature"@, opt_num_json(self.temperature)), ("top_k"@, opt_u32_json(self.top_k)), ("top_p"@, opt_num_json(self.top_p)), ("presence_penalty"@, opt_num_json(self.presence_penalty)), ("frequency_penalty"@, opt_num_json(self.frequency_penalty)), ("sequence_penalty"@, opt_num_json(self.sequence_penalty)), ("sequence_penalty_min_length"@, opt_i32_json(self.sequence_penalty_min_length)), ("repetition_penalties_include_prompt"@, opt_bool_json(self.repetition_penalties_include_prompt)), ("repetition_penalties_include_completion"@, opt_bool_json(self.repetition_penalties_include_completion))], ("use_multiplicative_presence_penalty"@, opt_bool_json(self.use_multiplicative_presence_penalty)));
    assert(seq![("model"@, Option::Some(JsonVal::Str(self.model@))), ("hosting"@, opt_hosting_json(self.hosting)), ("prompt"@, Option::Some(self.prompt.spec_json())), ("maximum_tokens"@, Option::Some(JsonVal::Num(int_lexeme(self.maximum_tokens as int)))), ("minimum_tokens"@, opt_u32_json(self.minimum_tokens)), ("echo"@, opt_bool_json(self.echo)), ("temperature"@, opt_num_json(self.temperature)), ("top_k"@, opt_u32_json(self.top_k)), ("top_p"@, opt_num_json(self.top_p)), ("presence_penalty"@, opt_num_json(self.presence_penalty)), ("frequency_penalty"@, opt_num_json(self.frequency_penalty)), ("sequence_penalty"@, opt_num_json(self.sequence_penalty)), ("sequence_penalty_min_length"@, opt_i32_json(self.sequence_penalty_min_length)), ("repetition_penalties_include_prompt"@, opt_bool_json(self.repetition_penalties_include_prompt)), ("repetition_penalties_include_completion"@, opt_bool_json(self.repetition_penalties_include_completion)), ("use_multiplicative_presence_penalty"@, opt_bool_json(self.use_multiplicative_presence_penalty)), ("use_multiplicative_frequency_penalty"@, opt_bool_json(self.use_multiplicative_frequency_penalty))] =~= seq![("model"@, Option::Some(JsonVal::Str(self.model@))), ("hosting"@, opt_hosting_json(self.hosting)), ("prompt"@, Option::Some(self.prompt.spec_json())), ("maximum_tokens"@, Option::Some(JsonVal::Num(int_lexeme(self.maximum_tokens as int)))), ("minimum_tokens"@, opt_u32_json(self.minimum_tokens)), ("echo"@, opt_bool_json(self.echo)), ("temperature"@, opt_num_json(self.temperature)), ("top_k"@, opt_u32_json(self.top_k)), ("top_p"@, opt_num_json(self.top_p)), ("presence_penalty"@, opt_num_json(self.presence_penalty)), ("frequency_penalty"@, opt_num_json(self.frequency_penalty)), ("sequence_penalty"@, opt_num_json(self.sequence_penalty)), ("sequence_penalty_min_length"@, opt_i32_json(self.sequence_penalty_min_length)), ("repetition_penalties_include_prompt"@, opt_bool_json(self.repetition_penalties_include_prompt)), ("repetition_penalties_include_completion"@, opt_bool_json(self.repetition_penalties_include_completion)), ("use_multiplicative_presence_penalty"@, opt_bool_json(self.use_multiplicative_presence_penalty))].push(("use_multiplicative_frequency_penalty"@, opt_bool_json(self.use_multiplicative_frequency_penalty))));
    lemma_sparse_members_push(seq![("model"@, Option::Some(JsonVal::Str(self.model@))), ("hosting"@, opt_hosting_json(self.hosting)), ("prompt"@, Option::Some(self.prompt.spec_json())), ("maximum_tokens"@, Option::Some(JsonVal::Num(int_lexeme(self.maximum_tokens as int)))), ("minimum_tokens"@, opt_u32_json(self.minimum_tokens)), ("echo"@, opt_bool_json(self.echo)), ("temperature"@, opt_num_json(self.temperature)), ("top_k"@, opt_u32_json(self.top_k)), ("top_p"@, opt_num_json(self.top_p)), ("presence_penalty"@, opt_num_json(self.presence_penalty)), ("frequency_penalty"@, opt_num_json(self.frequency_penalty)), ("sequence_penalty"@, opt_num_json(self.sequence_penalty)), ("sequence_penalty_min_length"@, opt_i32_json(self.sequence_penalty_min_length)), ("repetition_penalties_include_prompt"@, opt_bool_json(self.repetition_penalties_include_prompt)), ("repetition_penalties_include_completion"@, opt_bool_json(self.repetition_penalties_include_completion)), ("use_multiplicative_presence_penalty"@, opt_bool_json(self.use_multiplicative_presence_penalty))], ("use_multiplicative_frequency_penalty"@, opt_bool_json(self.use_multiplicative_frequency_penalty)));
    assert(seq![("model"@, Option::Some(JsonVal::Str(self.model@))), ("hosting"@, opt_hosting_json(self.hosting)), ("prompt"@, Option::Some(self.prompt.spec_json())), ("maximum_tokens"@, Option::Some(JsonVal::Num(int_lexeme(self.maximum_tokens as int)))), ("minimum_tokens"@, opt_u32_json(self.minimum_tokens)), ("echo"@, opt_bool_json(self.echo)), ("temperature"@, opt_num_json(self.temperature)), ("top_k"@, opt_u32_json(self.top_k)), ("top_p"@, opt_num_json(self.top_p)), ("presence_penalty"@, opt_num_json(self.presence_penalty)), ("frequency_penalty"@, opt_num_json(self.frequency_penalty)), ("sequence_penalty"@, opt_num_json(self.sequence_penalty)), ("sequence_penalty_min_length"@, opt_i32_json(self.sequence_penalty_min_length)), ("repetition_penalties_include_prompt"@, opt_bool_json(self.repetition_penalties_include_prompt)), ("repetition_penalties_include_completion"@, opt_bool_json(self.repetition_penalties_include_completion)), ("use_multiplicative_presence_penalty"@, opt_bool_json(self.use_multiplicative_presence_penalty)), ("use_multiplicative_frequency_penalty"@, opt_bool_json(self.use_multiplicative_frequency_penalty)), ("use_multiplicative_sequence_penalty"@, opt_bool_json(self.use_multiplicative_sequence_penalty))] =~= seq![("model"@, Option::Some(JsonVal::Str(self.model@))), ("hosting"@, opt_hosting_json(self.hosting)), ("prompt"@, Option::Some(self.prompt.spec_json())), ("maximum_tokens"@, Option::Some(JsonVal::Num(int_lexeme(self.maximum_tokens as int)))), ("minimum_tokens"@, opt_u32_json(self.minimum_tokens)), ("echo"@, opt_bool_json(self.echo)), ("temperature"@, opt_num_json(self.temperature)), ("top_k"@, opt_u32_json(self.top_k)), ("top_p"@, opt_num_json(self.top_p)), ("presence_penalty"@, opt_num_json(self.presence_penalty)), ("frequency_penalty"@, opt_num_json(self.frequency_penalty)), ("sequence_penalty"@, opt_num_json(self.sequence_penalty)), ("sequence_penalty_min_length"@, opt_i32_json(self.sequence_penalty_min_length)), ("repetition_penalties_include_prompt"@, opt_bool_json(self.repetition_penalties_include_prompt)), ("repetition_penalties_include_completion"@, opt_bool_json(self.repetition_penalties_include_completion)), ("use_multiplicative_presence_penalty"@, opt_bool_json(self.use_multiplicative_presence_penalty)), ("use_multiplicative_frequency_penalty"@, opt_bool_json(self.use_multiplicative_frequency_penalty))].push(("use_multiplicative_sequence_penalty"@, opt_bool_json(self.use_multiplicative_sequence_penalty))));
    lemma_sparse_members_push(seq![("model"@, Option::Some(JsonVal::Str(self.model@))), ("hosting"@, opt_hosting_json(self.hosting)), ("prompt"@, Option::Some(self.prompt.spec_json())), ("maximum_tokens"@, Option::Some(JsonVal::Num(int_lexeme(self.maximum_tokens as int)))), ("minimum_tokens"@, opt_u32_json(self.minimum_tokens)), ("echo"@, opt_bool_json(self.echo)), ("temperature"@, opt_num_json(self.temperature)), ("top_k"@, opt_u32_json(self.top_k)), ("top_p"@, opt_num_json(self.top_p)), ("presence_penalty"@, opt_num_json(self.presence_penalty)), ("frequency_penalty"@, opt_num_json(self.frequency_penalty)), ("sequence_penalty"@, opt_num_json(self.sequence_penalty)), ("sequence_penalty_min_length"@, opt_i32_json(self.sequence_penalty_min_length)), ("repetition_penalties_include_prompt"@, opt_bool_json(self.repetition_penalties_include_prompt)), ("repetition_penalties_include_completion"@, opt_bool_json(self.repetition_penalties_include_completion)), ("use_multiplicative_presence_penalty"@, opt_bool_json(self.use_multiplicative_presence_penalty)), ("use_multiplicative_frequency_penalty"@, opt_bool_json(self.use_multiplicative_frequency_penalty))], ("use_multiplicative_sequence_penalty"@, opt_bool_json(self.use_multiplicative_sequence_penalty)));
    assert(seq![("model"@, Option::Some(JsonVal::Str(self.model@))), ("hosting"@, opt_hosting_json(self.hosting)), ("prompt"@, Option::Some(self.prompt.spec_json())), ("maximum_tokens"@, Option::Some(JsonVal::Num(int_lexeme(self.maximum_tokens as int)))), ("minimum_tokens"@, opt_u32_json(self.minimum_tokens)), ("echo"@, opt_bool_json(self.echo)), ("temperature"@, opt_num_json(self.temperature)), ("top_k"@, opt_u32_json(self.top_k)), ("top_p"@, opt_num_json(self.top_p)), ("presence_penalty"@, opt_num_json(self.presence_penalty)), ("frequency_penalty"@, opt_num_json(self.frequency_penalty)), ("sequence_penalty"@, opt_num_json(self.sequence_penalty)), ("sequence_penalty_min_length"@, opt_i32_json(self.sequence_penalty_min_length)), ("repetition_penalties_include_prompt"@, opt_bool_json(self.repetition_penalties_include_prompt)), ("repetition_penalties_include_completion"@, opt_bool_json(self.repetition_penalties_include_completion)), ("use_multiplicative_presence_penalty"@, opt_bool_json(self.use_multiplicative_presence_penalty)), ("use_multiplicative_frequency_penalty"@, opt_bool_json(self.use_multiplicative_frequency_penalty)), ("use_multiplicative_sequence_penalty"@, opt_bool_json(self.use_multiplicative_sequence_penalty)), ("penalty_exceptions"@, opt_str_array_json(self.penalty_exceptions))] =~= seq![("model"@, Option::Some(JsonVal::Str(self.model@))), ("hosting"@, opt_hosting_json(self.hosting)), ("prompt"@, Option::Some(self.prompt.spec_json())), ("maximum_tokens"@, Option::Some(JsonVal::Num(int_lexeme(self.maximum_tokens as int)))), ("minimum_tokens"@, opt_u32_json(self.minimum_tokens)), ("echo"@, opt_bool_json(self.echo)), ("temperature"@, opt_num_json(self.temperature)), ("top_k"@, opt_u32_json(self.top_k)), ("top_p"@, opt_num_json(self.top_p)), ("presence_penalty"@, opt_num_json(self.presence_penalty)), ("frequency_penalty"@, opt_num_json(self.frequency_penalty)), ("sequence_penalty"@, opt_num_json(self.sequence_penalty)), ("sequence_penalty_min_length"@, opt_i32_json(self.sequence_penalty_min_length)), ("repetition_penalties_include_prompt"@, opt_bool_json(self.repetition_penalties_include_prompt)), ("repetition_penalties_include_completion"@, opt_bool_json(self.repetition_penalties_include_completion)), ("use_multiplicative_presence_penalty"@, opt_bool_json(self.use_multiplicative_presence_penalty)), ("use_multiplicative_frequency_penalty"@, opt_bool_json(self.use_multiplicative_frequency_penalty)), ("use_multiplicative_sequence_penalty"@, opt_bool_json(self.use_multiplicative_sequence_penalty))].push(("penalty_exceptions"@, opt_str_array_json(self.penalty_exceptions))));
    lemma_sparse_members_push(seq![("model"@, Option::Some(JsonVal::Str(self.model@))), ("hosting"@, opt_hosting_json(self.hosting)), ("prompt"@, Option::Some(self.prompt.spec_json())), ("maximum_tokens"@, Option::Some(JsonVal::Num(int_lexeme(self.maximum_tokens as int)))), ("minimum_tokens"@, opt_u32_json(self.minimum_tokens)), ("echo"@, opt_bool_json(self.echo)), ("temperature"@, opt_num_json(self.temperature)), ("top_k"@, opt_u32_json(self.top_k)), ("top_p"@, opt_num_json(self.top_p)), ("presence_penalty"@, opt_num_json(self.presence_penalty)), ("frequency_penalty"@, opt_num_json(self.frequency_penalty)), ("sequence_penalty"@, opt_num_json(self.sequence_penalty)), ("sequence_penalty_min_length"@, opt_i32_json(self.sequence_penalty_min_length)), ("repetition_penalties_include_prompt"@, opt_bool_json(self.repetition_penalties_include_prompt)), ("repetition_penalties_include_completion"@, opt_bool_json(self.repetition_penalties_include_completion)), ("use_multiplicative_presence_penalty"@, opt_bool_json(self.use_multiplicative_presence_penalty)), ("use_multiplicative_frequency_penalty"@, opt_bool_json(self.use_multiplicative_frequency_penalty)), ("use_multiplicative_sequence_penalty"@, opt_bool_json(self.use_multiplicative_sequence_penalty))], ("penalty_exceptions"@, opt_str_array_json(self.penalty_exceptions)));
    assert(seq![("model"@, Option::Some(JsonVal::Str(self.model@))), ("hosting"@, opt_hosting_json(self.hosting)), ("prompt"@, Option::Some(self.prompt.spec_json())), ("maximum_tokens"@, Option::Some(JsonVal::Num(int_lexeme(self.maximum_tokens as int)))), ("minimum_tokens"@, opt_u32_json(self.minimum_tokens)), ("echo"@, opt_bool_json(self.echo)), ("temperature"@, opt_num_json(self.temperature)), ("top_k"@, opt_u32_json(self.top_k)), ("top_p"@, opt_num_json(self.top_p)), ("presence_penalty"@, opt_num_json(self.presence_penalty)), ("frequency_penalty"@, opt_num_json(self.frequency_penalty)), ("sequence_penalty"@, opt_num_json(self.sequence_penalty)), ("sequence_penalty_min_length"@, opt_i32_json(self.sequence_penalty_min_length)), ("repetition_penalties_include_prompt"@, opt_bool_json(self.repetition_penalties_include_prompt)), ("repetition_penalties_include_completion"@, opt_bool_json(self.repetition_penalties_include_completion)), ("use_multiplicative_presence_penalty"@, opt_bool_json(self.use_multiplicative_presence_penalty)), ("use_multiplicative_frequency_penalty"@, opt_bool_json(self.use_multiplicative_frequency_penalty)), ("use_multiplicative_sequence_penalty"@, opt_bool_json(self.use_multiplicative_sequence_penalty)), ("penalty_exceptions"@, opt_str_array_json(self.penalty_exceptions)), ("penalty_bias"@, opt_string_json(self.penalty_bias))] =~= seq![("model"@, Option::Some(JsonVal::Str(self.model@))), ("hosting"@, opt_hosting_json(self.hosting)), ("prompt"@, Option::Some(self.prompt.spec_json())), ("maximum_tokens"@, Option::Some(JsonVal::Num(int_lexeme(self.maximum_tokens as int)))), ("minimum_tokens"@, opt_u32_json(self.minimum_tokens)), ("echo"@, opt_bool_json(self.echo)), ("temperature"@, opt_num_json(self.temperature)), ("top_k"@, opt_u32_json(self.top_k)), ("top_p"@, opt_num_json(self.top_p)), ("presence_penalty"@, opt_num_json(self.presence_penalty)), ("frequency_penalty"@, opt_num_json(self.frequency_penalty)), ("sequence_penalty"@, opt_num_json(self.sequence_penalty)), ("sequence_penalty_min_length"@, opt_i32_json(self.sequence_penalty_min_length)), ("repetition_penalties_include_prompt"@, opt_bool_json(self.repetition_penalties_include_prompt)), ("repetition_penalties_include_completion"@, opt_bool_json(self.repetition_penalties_include_completion)), ("use_multiplicative_presence_penalty"@, opt_bool_json(self.use_multiplicative_presence_penalty)), ("use_multiplicative_frequency_penalty"@, opt_bool_json(self.use_multiplicative_frequency_penalty)), ("use_multiplicative_sequence_penalty"@, opt_bool_json(self.use_multiplicative_sequence_penalty)), ("penalty_exceptions"@, opt_str_array_json(self.penalty_exceptions))].push(("penalty_bias"@, opt_string_json(self.penalty_bias))));
    lemma_sparse_members_push(seq![("model"@, Option::Some(JsonVal::Str(self.model@))), ("hosting"@, opt_hosting_json(self.hosting)), ("prompt"@, Option::Some(self.prompt.spec_json())), ("maximum_tokens"@, Option::Some(JsonVal::Num(int_lexeme(self.maximum_tokens as int)))), ("minimum_tokens"@, opt_u32_json(self.minimum_tokens)), ("echo"@, opt_bool_json(self.echo)), ("temperature"@, opt_num_json(self.temperature)), ("top_k"@, opt_u32_json(self.top_k)), ("top_p"@, opt_num_json(self.top_p)), ("presence_penalty"@, opt_num_json(self.presence_penalty)), ("frequency_penalty"@, opt_num_json(self.frequency_penalty)), ("sequence_penalty"@, opt_num_json(self.sequence_penalty)), ("sequence_penalty_min_length"@, opt_i32_json(self.sequence_penalty_min_length)), ("repetition_penalties_include_prompt"@, opt_bool_json(self.repetition_penalties_include_prompt)), ("repetition_penalties_include_completion"@, opt_bool_json(self.repetition_penalties_include_completion)), ("use_multiplicative_presence_penalty"@, opt_bool_json(self.use_multiplicative_presence_penalty)), ("use_multiplicative_frequency_penalty"@, opt_bool_json(self.use_multiplicative_frequency_penalty)), ("use_multiplicative_sequence_penalty"@, opt_bool_json(self.use_multiplicative_sequence_penalty)), ("penalty_exceptions"@, opt_str_array_json(self.penalty_exceptions))], ("penalty_bias"@, opt_string_json(self.penalty_bias)));
    assert(seq![("model"@, Option::Some(JsonVal::Str(self.model@))), ("hosting"@, opt_hosting_json(self.hosting)), ("prompt"@, Option::Some(self.prompt.spec_json())), ("maximum_tokens"@, Option::Some(JsonVal::Num(int_lexeme(self.maximum_tokens as int)))), ("minimum_tokens"@, opt_u32_json(self.minimum_tokens)), ("echo"@, opt_bool_json(self.echo)), ("temperature"@, opt_num_json(self.temperature)), ("top_k"@, opt_u32_json(self.top_k)), ("top_p"@, opt_num_json(self.top_p)), ("presence_penalty"@, opt_num_json(self.presence_penalty)), ("frequency_penalty"@, opt_num_json(self.frequency_penalty)), ("sequence_penalty"@, opt_num_json(self.sequence_penalty)), ("sequence_penalty_min_length"@, opt_i32_json(self.sequence_penalty_min_length)), ("repetition_penalties_include_prompt"@, opt_bool_json(self.repetition_penalties_include_prompt)), ("repetition_penalties_include_completion"@, opt_bool_json(self.repetition_penalties_include_completion)), ("use_multiplicative_presence_penalty"@, opt_bool_json(self.use_multiplicative_presence_penalty)), ("use_multiplicative_frequency_penalty"@, opt_bool_json(self.use_multiplicative_frequency_penalty)), ("use_multiplicative_sequence_penalty"@, opt_bool_json(self.use_multiplicative_sequence_penalty)), ("penalty_exceptions"@, opt_str_array_json(self.penalty_exceptions)), ("penalty_bias"@, opt_string_json(self.penalty_bias)), ("penalty_exceptions_include_stop_sequences"@, opt_bool_json(self.penalty_exceptions_include_stop_sequences))] =~= seq![("model"@, Option::Some(JsonVal::Str(self.model@))), ("hosting"@, opt_hosting_json(self.hosting)), ("prompt"@, Option::Some(self.prompt.spec_json())), ("maximum_tokens"@, Option::Some(JsonVal::Num(int_lexeme(self.maximum_tokens as int)))), ("minimum_tokens"@, opt_u32_json(self.minimum_tokens)), ("echo"@, opt_bool_json(self.echo)), ("temperature"@, opt_num_json(self.temperature)), ("top_k"@, opt_u32_json(self.top_k)), ("top_p"@, opt_num_json(self.top_p)), ("presence_penalty"@, opt_num_json(self.presence_penalty)), ("frequency_penalty"@, opt_num_json(self.frequency_penalty)), ("sequence_penalty"@, opt_num_json(self.sequence_penalty)), ("sequence_penalty_min_length"@, opt_i32_json(self.sequence_penalty_min_length)), ("repetition_penalties_include_prompt"@, opt_bool_json(self.repetition_penalties_include_prompt)), ("repetition_penalties_include_completion"@, opt_bool_json(self.repetition_penalties_include_completion)), ("use_multiplicative_presence_penalty"@, opt_bool_json(self.use_multiplicative_presence_penalty)), ("use_multiplicative_frequency_penalty"@, opt_bool_json(self.use_multiplicative_frequency_penalty)), ("use_multiplicative_sequence_penalty"@, opt_bool_json(self.use_multiplicative_sequence_penalty)), ("penalty_exceptions"@, opt_str_array_json(self.penalty_exceptions)), ("penalty_bias"@, opt_string_json(self.penalty_bias))].push(("penalty_exceptions_include_stop_sequences"@, opt_bool_json(self.penalty_exceptions_include_stop_sequences))));
    lemma_sparse_members_push(seq![("model"@, Option::Some(JsonVal::Str(self.model@))), ("hosting"@, opt_hosting_json(self.hosting)), ("prompt"@, Option::Some(self.prompt.spec_json())), ("maximum_tokens"@, Option::Some(JsonVal::Num(int_lexeme(self.maximum_tokens as int)))), ("minimum_tokens"@, opt_u32_json(self.minimum_tokens)), ("echo"@, opt_bool_json(self.echo)), ("temperature"@, opt_num_json(self.temperature)), ("top_k"@, opt_u32_json(self.top_k)), ("top_p"@, opt_num_json(self.top_p)), ("presence_penalty"@, opt_num_json(self.presence_penalty)), ("frequency_penalty"@, opt_num_json(self.frequency_penalty)), ("sequence_penalty"@, opt_num_json(self.sequence_penalty)), ("sequence_penalty_min_length"@, opt_i32_json(self.sequence_penalty_min_length)), ("repetition_penalties_include_prompt"@, opt_bool_json(self.repetition_penalties_include_prompt)), ("repetition_penalties_include_completion"@, opt_bool_json(self.repetition_penalties_include_completion)), ("use_multiplicative_presence_penalty"@, opt_bool_json(self.use_multiplicative_presence_penalty)), ("use_multiplicative_frequency_penalty"@, opt_bool_json(self.use_multiplicative_frequency_penalty)), ("use_multiplicative_sequence_penalty"@, opt_bool_json(self.use_multiplicative_sequence_penalty)), ("penalty_exceptions"@, opt_str_array_json(self.penalty_exceptions)), ("penalty_bias"@, opt_string_json(self.penalty_bias))], ("penalty_exceptions_include_stop_sequences"@, opt_bool_json(self.penalty_exceptions_include_stop_sequences)));
    assert(seq![("model"@, Option::Some(JsonVal::Str(self.model@))), ("hosting"@, opt_hosting_json(self.hosting)), ("prompt"@, Option::Some(self.prompt.spec_json())), ("maximum_tokens"@, Option::Some(JsonVal::Num(int_lexeme(self.maximum_tokens as int)))), ("minimum_tokens"@, opt_u32_json(self.minimum_tokens)), ("echo"@, opt_bool_json(self.echo)), ("temperature"@, opt_num_json(self.temperature)), ("top_k"@, opt_u32_json(self.top_k)), ("top_p"@, opt_num_json(self.top_p)), ("presence_penalty"@, opt_num_json(self.presence_penalty)), ("frequency_penalty"@, opt_num_json(self.frequency_penalty)), ("sequence_penalty"@, opt_num_json(self.sequence_penalty)), ("sequence_penalty_min_length"@, opt_i32_json(self.sequence_penalty_min_length)), ("repetition_penalties_include_prompt"@, opt_bool_json(self.repetition_penalties_include_prompt)), ("repetition_penalties_include_completion"@, opt_bool_json(self.repetition_penalties_include_completion)), ("use_multiplicative_presence_penalty"@, opt_bool_json(self.use_multiplicative_presence_penalty)), ("use_multiplicative_frequency_penalty"@, opt_bool_json(self.use_multiplicative_frequency_penalty)), ("use_multiplicative_sequence_penalty"@, opt_bool_json(self.use_multiplicative_sequence_penalty)), ("penalty_exceptions"@, opt_str_array_json(self.penalty_exceptions)), ("penalty_bias"@, opt_string_json(self.penalty_bias)), ("penalty_exceptions_include_stop_sequences"@, opt_bool_json(self.penalty_exceptions_include_stop_sequences)), ("best_of"@, opt_i32_json(self.best_of))] =~= seq![("model"@, Option::Some(JsonVal::Str(self.model@))), ("hosting"@, opt_hosting_json(self.hosting)), ("prompt"@, Option::Some(self.prompt.spec_json())), ("maximum_tokens"@, Option::Some(JsonVal::Num(int_lexeme(self.maximum_tokens as int)))), ("minimum_tokens"@, opt_u32_json(self.minimum_tokens)), ("echo"@, opt_bool_json(self.echo)), ("temperature"@, opt_num_json(self.temperature)), ("top_k"@, opt_u32_json(self.top_k)), ("top_p"@, opt_num_json(self.top_p)), ("presence_penalty"@, opt_num_json(self.presence_penalty)), ("frequency_penalty"@, opt_num_json(self.frequency_penalty)), ("sequence_penalty"@, opt_num_json(self.sequence_penalty)), ("sequence_penalty_min_length"@, opt_i32_json(self.sequence_penalty_min_length)), ("repetition_penalties_include_prompt"@, opt_bool_json(self.repetition_penalties_include_prompt)), ("repetition_penalties_include_completion"@, opt_bool_json(self.repetition_penalties_include_completion)), ("use_multiplicative_presence_penalty"@, opt_bool_json(self.use_multiplicative_presence_penalty)), ("use_multiplicative_frequency_penalty"@, opt_bool_json(self.use_multiplicative_frequency_penalty)), ("use_multiplicative_sequence_penalty"@, opt_bool_json(self.use_multiplicative_sequence_penalty)), ("penalty_exceptions"@, opt_str_array_json(self.penalty_exceptions)), ("penalty_bias"@, opt_string_json(self.penalty_bias)), ("penalty_exceptions_include_stop_sequences"@, opt_bool_json(self.penalty_exceptions_include_stop_sequences))].push(("best_of"@, opt_i32_json(self.best_of))));
    lemma_sparse_members_push(seq![("model"@, Option::Some(JsonVal::Str(self.model@))), ("hosting"@, opt_hosting_json(self.hosting)), ("prompt"@, Option::Some(self.prompt.spec_json())), ("maximum_tokens"@, Option::Some(JsonVal::Num(int_lexeme(self.maximum_tokens as int)))), ("minimum_tokens"@, opt_u32_json(self.minimum_tokens)), ("echo"@, opt_bool_json(self.echo)), ("temperature"@, opt_num_json(self.temperature)), ("top_k"@, opt_u32_json(self.top_k)), ("top_p"@, opt_num_json(self.top_p)), ("presence_penalty"@, opt_num_json(self.presence_penalty)), ("frequency_penalty"@, opt_num_json(self.frequency_penalty)), ("sequence_penalty"@, opt_num_json(self.sequence_penalty)), ("sequence_penalty_min_length"@, opt_i32_json(self.sequence_penalty_min_length)), ("repetition_penalties_include_prompt"@, opt_bool_json(self.repetition_penalties_include_prompt)), ("repetition_penalties_include_completion"@, opt_bool_json(self.repetition_penalties_include_completion)), ("use_multiplicative_presence_penalty"@, opt_bool_json(self.use_multiplicative_presence_penalty)), ("use_multiplicative_frequency_penalty"@, opt_bool_json(self.use_multiplicative_frequency_penalty)), ("use_multiplicative_sequence_penalty"@, opt_bool_json(self.use_multiplicative_sequence_penalty)), ("penalty_exceptions"@, opt_str_array_json(self.penalty_exceptions)), ("penalty_bias"@, opt_string_json(self.penalty_bias)), ("penalty_exceptions_include_stop_sequences"@, opt_bool_json(self.penalty_exceptions_include_stop_sequences))], ("best_of"@, opt_i32_json(self.best_of)));
    assert(seq![("model"@, Option::Some(JsonVal::Str(self.model@))), ("hosting"@, opt_hosting_json(self.hosting)), ("prompt"@, Option::Some(self.prompt.spec_json())), ("maximum_tokens"@, Option::Some(JsonVal::Num(int_lexeme(self.maximum_tokens as int)))), ("minimum_tokens"@, opt_u32_json(self.minimum_tokens)), ("echo"@, opt_bool_json(self.echo)), ("temperature"@, opt_num_json(self.temperature)), ("top_k"@, opt_u32_json(self.top_k)), ("top_p"@, opt_num_json(self.top_p)), ("presence_penalty"@, opt_num_json(self.presence_penalty)), ("frequency_penalty"@, opt_num_json(self.frequency_penalty)), ("sequence_penalty"@, opt_num_json(self.sequence_penalty)), ("sequence_penalty_min_length"@, opt_i32_json(self.sequence_penalty_min_length)), ("repetition_penalties_include_prompt"@, opt_bool_json(self.repetition_penalties_include_prompt)), ("repetition_penalties_include_completion"@, opt_bool_json(self.repetition_penalties_include_completion)), ("use_multiplicative_presence_penalty"@, opt_bool_json(self.use_multiplicative_presence_penalty)), ("use_multiplicative_frequency_penalty"@, opt_bool_json(self.use_multiplicative_frequency_penalty)), ("use_multiplicative_sequence_penalty"@, opt_bool_json(self.use_multiplicative_sequence_penalty)), ("penalty_exceptions"@, opt_str_array_json(self.penalty_exceptions)), ("penalty_bias"@, opt_string_json(self.penalty_bias)), ("penalty_exceptions_include_stop_sequences"@, opt_bool_json(self.penalty_exceptions_include_stop_sequences)), ("best_of"@, opt_i32_json(self.best_of)), ("n"@, opt_i32_json(self.n))] =~= seq![("model"@, Option::Some(JsonVal::Str(self.model@))), ("hosting"@, opt_hosting_json(self.hosting)), ("prompt"@, Option::Some(self.prompt.spec_json())), ("maximum_tokens"@, Option::Some(JsonVal::Num(int_lexeme(self.maximum_tokens as int)))), ("minimum_tokens"@, opt_u32_json(self.minimum_tokens)), ("echo"@, opt_bool_json(self.echo)), ("temperature"@, opt_num_json(self.temperature)), ("top_k"@, opt_u32_json(self.top_k)), ("top_p"@, opt_num_json(self.top_p)), ("presence_penalty"@, opt_num_json(self.presence_penalty)), ("frequency_penalty"@, opt_num_json(self.frequency_penalty)), ("sequence_penalty"@, opt_num_json(self.sequence_penalty)), ("sequence_penalty_min_length"@, opt_i32_json(self.sequence_penalty_min_length)), ("repetition_penalties_include_prompt"@, opt_bool_json(self.repetition_penalties_include_prompt)), ("repetition_penalties_include_completion"@, opt_bool_json(self.repetition_penalties_include_completion)), ("use_multiplicative_presence_penalty"@, opt_bool_json(self.use_multiplicative_presence_penalty)), ("use_multiplicative_frequency_penalty"@, opt_bool_json(self.use_multiplicative_frequency_penalty)), ("use_multiplicative_sequence_penalty"@, opt_bool_json(self.use_multiplicative_sequence_penalty)), ("penalty_exceptions"@, opt_str_array_json(self.penalty_exceptions)), ("penalty_bias"@, opt_string_json(self.penalty_bias)), ("penalty_exceptions_include_stop_sequences"@, opt_bool_json(self.penalty_exceptions_include_stop_sequences)), ("best_of"@, opt_i32_json(self.best_of))].push(("n"@, opt_i32_json(self.n))));
    lemma_sparse_members_push(seq![("model"@, Option::Some(JsonVal::Str(self.model@))), ("hosting"@, opt_hosting_json(self.hosting)), ("prompt"@, Option::Some(self.prompt.spec_json())), ("maximum_tokens"@, Option::Some(JsonVal::Num(int_lexeme(self.maximum_tokens as int)))), ("minimum_tokens"@, opt_u32_json(self.minimum_tokens)), ("echo"@, opt_bool_json(self.echo)), ("temperature"@, opt_num_json(self.temperature)), ("top_k"@, opt_u32_json(self.top_k)), ("top_p"@, opt_num_json(self.top_p)), ("presence_penalty"@, opt_num_json(self.presence_penalty)), ("frequency_penalty"@, opt_num_json(self.frequency_penalty)), ("sequence_penalty"@, opt_num_json(self.sequence_penalty)), ("sequence_penalty_min_length"@, opt_i32_json(self.sequence_penalty_min_length)), ("repetition_penalties_include_prompt"@, opt_bool_json(self.repetition_penalties_include_prompt)), ("repetition_penalties_include_completion"@, opt_bool_json(self.repetition_penalties_include_completion)), ("use_multiplicative_presence_penalty"@, opt_bool_json(self.use_multiplicative_presence_penalty)), ("use_multiplicative_frequency_penalty"@, opt_bool_json(self.use_multiplicative_frequency_penalty)), ("use_multiplicative_sequence_penalty"@, opt_bool_json(self.use_multiplicative_sequence_penalty)), ("penalty_exceptions"@, opt_str_array_json(self.penalty_exceptions)), ("penalty_bias"@, opt_string_json(self.penalty_bias)), ("penalty_exceptions_include_stop_sequences"@, opt_bool_json(self.penalty_exceptions_include_stop_sequences)), ("best_of"@, opt_i32_json(self.best_of))], ("n"@, opt_i32_json(self.n)));
    assert(seq![("model"@, Option::Some(JsonVal::Str(self.model@))), ("hosting"@, opt_hosting_json(self.hosting)), ("prompt"@, Option::Some(self.prompt.spec_json())), ("maximum_tokens"@, Option::Some(JsonVal::Num(int_lexeme(self.maximum_tokens as int)))), ("minimum_tokens"@, opt_u32_json(self.minimum_tokens)), ("echo"@, opt_bool_json(self.echo)), ("temperature"@, opt_num_json(self.temperature)), ("top_k"@, opt_u32_json(self.top_k)), ("top_p"@, opt_num_json(self.top_p)), ("presence_penalty"@, opt_num_json(self.presence_penalty)), ("frequency_penalty"@, opt_num_json(self.frequency_penalty)), ("sequence_penalty"@, opt_num_json(self.sequence_penalty)), ("sequence_penalty_min_length"@, opt_i32_json(self.sequence_penalty_min_length)), ("repetition_penalties_include_prompt"@, opt_bool_json(self.repetition_penalties_include_prompt)), ("repetition_penalties_include_completion"@, opt_bool_json(self.repetition_penalties_include_completion)), ("use_multiplicative_presence_penalty"@, opt_bool_json(self.use_multiplicative_presence_penalty)), ("use_multiplicative_frequency_penalty"@, opt_bool_json(self.use_multiplicative_frequency_penalty)), ("use_multiplicative_sequence_penalty"@, opt_bool_json(self.use_multiplicative_sequence_penalty)), ("penalty_exceptions"@, opt_str_array_json(self.penalty_exceptions)), ("penalty_bias"@, opt_string_json(self.penalty_bias)), ("penalty_exceptions_include_stop_sequences"@, opt_bool_json(self.penalty_exceptions_include_stop_sequences)), ("best_of"@, opt_i32_json(self.best_of)), ("n"@, opt_i32_json(self.n)), ("log_probs"@, opt_i32_json(self.log_probs))] =~= seq![("model"@, Option::Some(JsonVal::Str(self.model@))), ("hosting"@, opt_hosting_json(self.hosting)), ("prompt"@, Option::Some(self.prompt.spec_json())), ("maximum_tokens"@, Option::Some(JsonVal::Num(int_lexeme(self.maximum_tokens as int)))), ("minimum_tokens"@, opt_u32_json(self.minimum_tokens)), ("echo"@, opt_bool_json(self.echo)), ("temperature"@, opt_num_json(self.temperature)), ("top_k"@, opt_u32_json(self.top_k)), ("top_p"@, opt_num_json(self.top_p)), ("presence_penalty"@, opt_num_json(self.presence_penalty)), ("frequency_penalty"@, opt_num_json(self.frequency_penalty)), ("sequence_penalty"@, opt_num_json(self.sequence_penalty)), ("sequence_penalty_min_length"@, opt_i32_json(self.sequence_penalty_min_length)), ("repetition_penalties_include_prompt"@, opt_bool_json(self.repetition_penalties_include_prompt)), ("repetition_penalties_include_completion"@, opt_bool_json(self.repetition_penalties_include_completion)), ("use_multiplicative_presence_penalty"@, opt_bool_json(self.use_multiplicative_presence_penalty)), ("use_multiplicative_frequency_penalty"@, opt_bool_json(self.use_multiplicative_frequency_penalty)), ("use_multiplicative_sequence_penalty"@, opt_bool_json(self.use_multiplicative_sequence_penalty)), ("penalty_exceptions"@, opt_str_array_json(self.penalty_exceptions)), ("penalty_bias"@, opt_string_json(self.penalty_bias)), ("penalty_exceptions_include_stop_sequences"@, opt_bool_json(self.penalty_exceptions_include_stop_sequences)), ("best_of"@, opt_i32_json(self.best_of)), ("n"@, opt_i32_json(self.n))].push(("log_probs"@, opt_i32_json(self.log_probs))));
    lemma_sparse_members_push(seq![("model"@, Option::Some(JsonVal::Str(self.model@))), ("hosting"@, opt_hosting_json(self.hosting)), ("prompt"@, Option::Some(self.prompt.spec_json())), ("maximum_tokens"@, Option::Some(JsonVal::Num(int_lexeme(self.maximum_tokens as int)))), ("minimum_tokens"@, opt_u32_json(self.minimum_tokens)), ("echo"@, opt_bool_json(self.echo)), ("temperature"@, opt_num_json(self.temperature)), ("top_k"@, opt_u32_json(self.top_k)), ("top_p"@, opt_num_json(self.top_p)), ("presence_penalty"@, opt_num_json(self.presence_penalty)), ("frequency_penalty"@, opt_num_json(self.frequency_penalty)), ("sequence_penalty"@, opt_num_json(self.sequence_penalty)), ("sequence_penalty_min_length"@, opt_i32_json(self.sequence_penalty_min_length)), ("repetition_penalties_include_prompt"@, opt_bool_json(self.repetition_penalties_include_prompt)), ("repetition_penalties_include_completion"@, opt_bool_json(self.repetition_penalties_include_completion)), ("use_multiplicative_presence_penalty"@, opt_bool_json(self.use_multiplicative_presence_penalty)), ("use_multiplicative_frequency_penalty"@, opt_bool_json(self.use_multiplicative_frequency_penalty)), ("use_multiplicative_sequence_penalty"@, opt_bool_json(self.use_multiplicative_sequence_penalty)), ("penalty_exceptions"@, opt_str_array_json(self.penalty_exceptions)), ("penalty_bias"@, opt_string_json(self.penalty_bias)), ("penalty_exceptions_include_stop_sequences"@, opt_bool_json(self.penalty_exceptions_include_stop_sequences)), ("best_of"@, opt_i32_json(self.best_of)), ("n"@, opt_i32_json(self.n))], ("log_probs"@, opt_i32_json(self.log_probs)));
    assert(seq![("model"@, Option::Some(JsonVal::Str(self.model@))), ("hosting"@, opt_hosting_json(self.hosting)), ("prompt"@, Option::Some(self.prompt.spec_json())), ("maximum_tokens"@, Option::Some(JsonVal::Num(int_lexeme(self.maximum_tokens as int)))), ("minimum_tokens"@, opt_u32_json(self.minimum_tokens)), ("echo"@, opt_bool_json(self.echo)), ("temperature"@, opt_num_json(self.temperature)), ("top_k"@, opt_u32_json(self.top_k)), ("top_p"@, opt_num_json(self.top_p)), ("presence_penalty"@, opt_num_json(self.presence_penalty)), ("frequency_penalty"@, opt_num_json(self.frequency_penalty)), ("sequence_penalty"@, opt_num_json(self.sequence_penalty)), ("sequence_penalty_min_length"@, opt_i32_json(self.sequence_penalty_min_length)), ("repetition_penalties_include_prompt"@, opt_bool_json(self.repetition_penalties_include_prompt)), ("repetition_penalties_include_completion"@, opt_bool_json(self.repetition_penalties_include_completion)), ("use_multiplicative_presence_penalty"@, opt_bool_json(self.use_multiplicative_presence_penalty)), ("use_multiplicative_frequency_penalty"@, opt_bool_json(self.use_multiplicative_frequency_penalty)), ("use_multiplicative_sequence_penalty"@, opt_bool_json(self.use_multiplicative_sequence_penalty)), ("penalty_exceptions"@, opt_str_array_json(self.penalty_exceptions)), ("penalty_bias"@, opt_string_json(self.penalty_bias)), ("penalty_exceptions_include_stop_sequences"@, opt_bool_json(self.penalty_exceptions_include_stop_sequences)), ("best_of"@, opt_i32_json(self.best_of)), ("n"@, opt_i32_json(self.n)), ("log_probs"@, opt_i32_json(self.log_probs)), ("stop_sequences"@, opt_str_array_json(self.stop_sequences))] =~= seq![("model"@, Option::Some(JsonVal::Str(self.model@))), ("hosting"@, opt_hosting_json(self.hosting)), ("prompt"@, Option::Some(self.prompt.spec_json())), ("maximum_tokens"@, Option::Some(JsonVal::Num(int_lexeme(self.maximum_tokens as int)))), ("minimum_tokens"@, opt_u32_json(self.minimum_tokens)), ("echo"@, opt_bool_json(self.echo)), ("temperature"@, opt_num_json(self.temperature)), ("top_k"@, opt_u32_json(self.top_k)), ("top_p"@, opt_num_json(self.top_p)), ("presence_penalty"@, opt_num_json(self.presence_penalty)), ("frequency_penalty"@, opt_num_json(self.frequency_penalty)), ("sequence_penalty"@, opt_num_json(self.sequence_penalty)), ("sequence_penalty_min_length"@, opt_i32_json(self.sequence_penalty_min_length)), ("repetition_penalties_include_prompt"@, opt_bool_json(self.repetition_penalties_include_prompt)), ("repetition_penalties_include_completion"@, opt_bool_json(self.repetition_penalties_include_completion)), ("use_multiplicative_presence_penalty"@, opt_bool_json(self.use_multiplicative_presence_penalty)), ("use_multiplicative_frequency_penalty"@, opt_bool_json(self.use_multiplicative_frequency_penalty)), ("use_multiplicative_sequence_penalty"@, opt_bool_json(self.use_multiplicative_sequence_penalty)), ("penalty_exceptions"@, opt_str_array_json(self.penalty_exceptions)), ("penalty_bias"@, opt_string_json(self.penalty_bias)), ("penalty_exceptions_include_stop_sequences"@, opt_bool_json(self.penalty_exceptions_include_stop_sequences)), ("best_of"@, opt_i32_json(self.best_of)), ("n"@, opt_i32_json(self.n)), ("log_probs"@, opt_i32_json(self.log_probs))].push(("stop_sequences"@, opt_str_array_json(self.stop_sequences))));
    lemma_sparse_members_push(seq![("model"@, Option::Some(JsonVal::Str(self.model@))), ("hosting"@, opt_hosting_json(self.hosting)), ("prompt"@, Option::Some(self.prompt.spec_json())), ("maximum_tokens"@, Option::Some(JsonVal::Num(int_lexeme(self.maximum_tokens as int)))), ("minimum_tokens"@, opt_u32_json(self.minimum_tokens)), ("echo"@, opt_bool_json(self.echo)), ("temperature"@, opt_num_json(self.temperature)), ("top_k"@, opt_u32_json(self.top_k)), ("top_p"@, opt_num_json(self.top_p)), ("presence_penalty"@, opt_num_json(self.presence_penalty)), ("frequency_penalty"@, opt_num_json(self.frequency_penalty)), ("sequence_penalty"@, opt_num_json(self.sequence_penalty)), ("sequence_penalty_min_length"@, opt_i32_json(self.sequence_penalty_min_length)), ("repetition_penalties_include_prompt"@, opt_bool_json(self.repetition_penalties_include_prompt)), ("repetition_penalties_include_completion"@, opt_bool_json(self.repetition_penalties_include_completion)), ("use_multiplicative_presence_penalty"@, opt_bool_json(self.use_multiplicative_presence_penalty)), ("use_multiplicative_frequency_penalty"@, opt_bool_json(self.use_multiplicative_frequency_penalty)), ("use_multiplicative_sequence_penalty"@, opt_bool_json(self.use_multiplicative_sequence_penalty)), ("penalty_exceptions"@, opt_str_array_json(self.penalty_exceptions)), ("penalty_bias"@, opt_string_json(self.penalty_bias)), ("penalty_exceptions_include_stop_sequences"@, opt_bool_json(self.penalty_exceptions_include_stop_sequences)), ("best_of"@, opt_i32_json(self.best_of)), ("n"@, opt_i32_json(self.n)), ("log_probs"@, opt_i32_json(self.log_probs))], ("stop_sequences"@, opt_str_array_json(self.stop_sequences)));
    assert(seq![("model"@, Option::Some(JsonVal::Str(self.model@))), ("hosting"@, opt_hosting_json(self.hosting)), ("prompt"@, Option::Some(self.prompt.spec_json())), ("maximum_tokens"@, Option::Some(JsonVal::Num(int_lexeme(self.maximum_tokens as int)))), ("minimum_tokens"@, opt_u32_json(self.minimum_tokens)), ("echo"@, opt_bool_json(self.echo)), ("temperature"@, opt_num_json(self.temperature)), ("top_k"@, opt_u32_json(self.top_k)), ("top_p"@, opt_num_json(self.top_p)), ("presence_penalty"@, opt_num_json(self.presence_penalty)), ("frequency_penalty"@, opt_num_json(self.frequency_penalty)), ("sequence_penalty"@, opt_num_json(self.sequence_penalty)), ("sequence_penalty_min_length"@, opt_i32_json(self.sequence_penalty_min_length)), ("repetition_penalties_include_prompt"@, opt_bool_json(self.repetition_penalties_include_prompt)), ("repetition_penalties_include_completion"@, opt_bool_json(self.repetition_penalties_include_completion)), ("use_multiplicative_presence_penalty"@, opt_bool_json(self.use_multiplicative_presence_penalty)), ("use_multiplicative_frequency_penalty"@, opt_bool_json(self.use_multiplicative_frequency_penalty)), ("use_multiplicative_sequence_penalty"@, opt_bool_json(self.use_multiplicative_sequence_penalty)), ("penalty_exceptions"@, opt_str_array_json(self.penalty_exceptions)), ("penalty_bias"@, opt_string_json(self.penalty_bias)), ("penalty_exceptions_include_stop_sequences"@, opt_bool_json(self.penalty_exceptions_include_stop_sequences)), ("best_of"@, opt_i32_json(self.best_of)), ("n"@, opt_i32_json(self.n)), ("log_probs"@, opt_i32_json(self.log_probs)), ("stop_sequences"@, opt_str_array_json(self.stop_sequences)), ("tokens"@, opt_bool_json(self.tokens))] =~= seq![("model"@, Option::Some(JsonVal::Str(self.model@))), ("hosting"@, opt_hosting_json(self.hosting)), ("prompt"@, Option::Some(self.prompt.spec_json())), ("maximum_tokens"@, Option::Some(JsonVal::Num(int_lexeme(self.maximum_tokens as int)))), ("minimum_tokens"@, opt_u32_json(self.minimum_tokens)), ("echo"@, opt_bool_json(self.echo)), ("temperature"@, opt_num_json(self.temperature)), ("top_k"@, opt_u32_json(self.top_k)), ("top_p"@, opt_num_json(self.top_p)), ("presence_penalty"@, opt_num_json(self.presence_penalty)), ("frequency_penalty"@, opt_num_json(self.frequency_penalty)), ("sequence_penalty"@, opt_num_json(self.sequence_penalty)), ("sequence_penalty_min_length"@, opt_i32_json(self.sequence_penalty_min_length)), ("repetition_penalties_include_prompt"@, opt_bool_json(self.repetition_penalties_include_prompt)), ("repetition_penalties_include_completion"@, opt_bool_json(self.repetition_penalties_include_completion)), ("use_multiplicative_presence_penalty"@, opt_bool_json(self.use_multiplicative_presence_penalty)), ("use_multiplicative_frequency_penalty"@, opt_bool_json(self.use_multiplicative_frequency_penalty)), ("use_multiplicative_sequence_penalty"@, opt_bool_json(self.use_multiplicative_sequence_penalty)), ("penalty_exceptions"@, opt_str_array_json(self.penalty_exceptions)), ("penalty_bias"@, opt_string_json(self.penalty_bias)), ("penalty_exceptions_include_stop_sequences"@, opt_bool_json(self.penalty_exceptions_include_stop_sequences)), ("best_of"@, opt_i32_json(self.best_of)), ("n"@, opt_i32_json(self.n)), ("log_probs"@, opt_i32_json(self.log_probs)), ("stop_sequences"@, opt_str_array_json(self.stop_sequences))].push(("tokens"@, opt_bool_json(self.tokens))));
    lemma_sparse_members_push(seq![("model"@, Option::Some(JsonVal::Str(self.model@))), ("hosting"@, opt_hosting_json(self.hosting)), ("prompt"@, Option::Some(self.prompt.spec_json())), ("maximum_tokens"@, Option::Some(JsonVal::Num(int_lexeme(self.maximum_tokens as int)))), ("minimum_tokens"@, opt_u32_json(self.minimum_tokens)), ("echo"@, opt_bool_json(self.echo)), ("temperature"@, opt_num_json(self.temperature)), ("top_k"@, opt_u32_json(self.top_k)), ("top_p"@, opt_num_json(self.top_p)), ("presence_penalty"@, opt_num_json(self.presence_penalty)), ("frequency_penalty"@, opt_num_json(self.frequency_penalty)), ("sequence_penalty"@, opt_num_json(self.sequence_penalty)), ("sequence_penalty_min_length"@, opt_i32_json(self.sequence_penalty_min_length)), ("repetition_penalties_include_prompt"@, opt_bool_json(self.repetition_penalties_include_prompt)), ("repetition_penalties_include_completion"@, opt_bool_json(self.repetition_penalties_include_completion)), ("use_multiplicative_presence_penalty"@, opt_bool_json(self.use_multiplicative_presence_penalty)), ("use_multiplicative_frequency_penalty"@, opt_bool_json(self.use_multiplicative_frequency_penalty)), ("use_multiplicative_sequence_penalty"@, opt_bool_json(self.use_multiplicative_sequence_penalty)), ("penalty_exceptions"@, opt_str_array_json(self.penalty_exceptions)), ("penalty_bias"@, opt_string_json(self.penalty_bias)), ("penalty_exceptions_include_stop_sequences"@, opt_bool_json(self.penalty_exceptions_include_stop_sequences)), ("best_of"@, opt_i32_json(self.best_of)), ("n"@, opt_i32_json(self.n)), ("log_probs"@, opt_i32_json(self.log_probs)), ("stop_sequences"@, opt_str_array_json(self.stop_sequences))], ("tokens"@, opt_bool_json(self.tokens)));
    assert(seq![("model"@, Option::Some(JsonVal::Str(self.model@))), ("hosting"@, opt_hosting_json(self.hosting)), ("prompt"@, Option::Some(self.prompt.spec_json())), ("maximum_tokens"@, Option::Some(JsonVal::Num(int_lexeme(self.maximum_tokens as int)))), ("minimum_tokens"@, opt_u32_json(self.minimum_tokens)), ("echo"@, opt_bool_json(self.echo)), ("temperature"@, opt_num_json(self.temperature)), ("top_k"@, opt_u32_json(self.top_k)), ("top_p"@, opt_num_json(self.top_p)), ("presence_penalty"@, opt_num_json(self.presence_penalty)), ("frequency_penalty"@, opt_num_json(self.frequency_penalty)), ("sequence_penalty"@, opt_num_json(self.sequence_penalty)), ("sequence_penalty_min_length"@, opt_i32_json(self.sequence_penalty_min_length)), ("repetition_penalties_include_prompt"@, opt_bool_json(self.repetition_penalties_include_prompt)), ("repetition_penalties_include_completion"@, opt_bool_json(self.repetition_penalties_include_completion)), ("use_multiplicative_presence_penalty"@, opt_bool_json(self.use_multiplicative_presence_penalty)), ("use_multiplicative_frequency_penalty"@, opt_bool_json(self.use_multiplicative_frequency_penalty)), ("use_multiplicative_sequence_penalty"@, opt_bool_json(self.use_multiplicative_sequence_penalty)), ("penalty_exceptions"@, opt_str_array_json(self.penalty_exceptions)), ("penalty_bias"@, opt_string_json(self.penalty_bias)), ("penalty_exceptions_include_stop_sequences"@, opt_bool_json(self.penalty_exceptions_include_stop_sequences)), ("best_of"@, opt_i32_json(self.best_of)), ("n"@, opt_i32_json(self.n)), ("log_probs"@, opt_i32_json(self.log_probs)), ("stop_sequences"@, opt_str_array_json(self.stop_sequences)), ("tokens"@, opt_bool_json(self.tokens)), ("raw_completion"@, opt_bool_json(self.raw_completion))] =~= seq![("model"@, Option::Some(JsonVal::Str(self.model@))), ("hosting"@, opt_hosting_json(self.hosting)), ("prompt"@, Option::Some(self.prompt.spec_json())), ("maximum_tokens"@, Option::Some(JsonVal::Num(int_lexeme(self.maximum_tokens as int)))), ("minimum_tokens"@, opt_u32_json(self.minimum_tokens)), ("echo"@, opt_bool_json(self.echo)), ("temperature"@, opt_num_json(self.temperature)), ("top_k"@, opt_u32_json(self.top_k)), ("top_p"@, opt_num_json(self.top_p)), ("presence_penalty"@, opt_num_json(self.presence_penalty)), ("frequency_penalty"@, opt_num_json(self.frequency_penalty)), ("sequence_penalty"@, opt_num_json(self.sequence_penalty)), ("sequence_penalty_min_length"@, opt_i32_json(self.sequence_penalty_min_length)), ("repetition_penalties_include_prompt"@, opt_bool_json(self.repetition_penalties_include_prompt)), ("repetition_penalties_include_completion"@, opt_bool_json(self.repetition_penalties_include_completion)), ("use_multiplicative_presence_penalty"@, opt_bool_json(self.use_multiplicative_presence_penalty)), ("use_multiplicative_frequency_penalty"@, opt_bool_json(self.use_multiplicative_frequency_penalty)), ("use_multiplicative_sequence_penalty"@, opt_bool_json(self.use_multiplicative_sequence_penalty)), ("penalty_exceptions"@, opt_str_array_json(self.penalty_exceptions)), ("penalty_bias"@, opt_string_json(self.penalty_bias)), ("penalty_exceptions_include_stop_sequences"@, opt_bool_json(self.penalty_exceptions_include_stop_sequences)), ("best_of"@, opt_i32_json(self.best_of)), ("n"@, opt_i32_json(self.n)), ("log_probs"@, opt_i32_json(self.log_probs)), ("stop_sequences"@, opt_str_array_json(self.stop_sequences)), ("tokens"@, opt_bool_json(self.tokens))].push(("raw_completion"@, opt_bool_json(self.raw_completion))));
    lemma_sparse_members_push(seq![("model"@, Option::Some(JsonVal::Str(self.model@))), ("hosting"@, opt_hosting_json(self.hosting)), ("prompt"@, Option::Some(self.prompt.spec_json())), ("maximum_tokens"@, Option::Some(JsonVal::Num(int_lexeme(self.maximum_tokens as int)))), ("minimum_tokens"@, opt_u32_json(self.minimum_tokens)), ("echo"@, opt_bool_json(self.echo)), ("temperature"@, opt_num_json(self.temperature)), ("top_k"@, opt_u32_json(self.top_k)), ("top_p"@, opt_num_json(self.top_p)), ("presence_penalty"@, opt_num_json(self.presence_penalty)), ("frequency_penalty"@, opt_num_json(self.frequency_penalty)), ("sequence_penalty"@, opt_num_json(self.sequence_penalty)), ("sequence_penalty_min_length"@, opt_i32_json(self.sequence_penalty_min_length)), ("repetition_penalties_include_prompt"@, opt_bool_json(self.repetition_penalties_include_prompt)), ("repetition_penalties_include_completion"@, opt_bool_json(self.repetition_penalties_include_completion)), ("use_multiplicative_presence_penalty"@, opt_bool_json(self.use_multiplicative_presence_penalty)), ("use_multiplicative_frequency_penalty"@, opt_bool_json(self.use_multiplicative_frequency_penalty)), ("use_multiplicative_sequence_penalty"@, opt_bool_json(self.use_multiplicative_sequence_penalty)), ("penalty_exceptions"@, opt_str_array_json(self.penalty_exceptions)), ("penalty_bias"@, opt_string_json(self.penalty_bias)), ("penalty_exceptions_include_stop_sequences"@, opt_bool_json(self.penalty_exceptions_include_stop_sequences)), ("best_of"@, opt_i32_json(self.best_of)), ("n"@, opt_i32_json(self.n)), ("log_probs"@, opt_i32_json(self.log_probs)), ("stop_sequences"@, opt_str_array_json(self.stop_sequences)), ("tokens"@, opt_bool_json(self.tokens))], ("raw_completion"@, opt_bool_json(self.raw_completion)));
    assert(seq![("model"@, Option::Some(JsonVal::Str(self.model@))), ("hosting"@, opt_hosting_json(self.hosting)), ("prompt"@, Option::Some(self.prompt.spec_json())), ("maximum_tokens"@, Option::Some(JsonVal::Num(int_lexeme(self.maximum_tokens as int)))), ("minimum_tokens"@, opt_u32_json(self.minimum_tokens)), ("echo"@, opt_bool_json(self.echo)), ("temperature"@, opt_num_json(self.temperature)), ("top_k"@, opt_u32_json(self.top_k)), ("top_p"@, opt_num_json(self.top_p)), ("presence_penalty"@, opt_num_json(self.presence_penalty)), ("frequency_penalty"@, opt_num_json(self.frequency_penalty)), ("sequence_penalty"@, opt_num_json(self.sequence_penalty)), ("sequence_penalty_min_length"@, opt_i32_json(self.sequence_penalty_min_length)), ("repetition_penalties_include_prompt"@, opt_bool_json(self.repetition_penalties_include_prompt)), ("repetition_penalties_include_completion"@, opt_bool_json(self.repetition_penalties_include_completion)), ("use_multiplicative_presence_penalty"@, opt_bool_json(self.use_multiplicative_presence_penalty)), ("use_multiplicative_frequency_penalty"@, opt_bool_json(self.use_multiplicative_frequency_penalty)), ("use_multiplicative_sequence_penalty"@, opt_bool_json(self.use_multiplicative_sequence_penalty)), ("penalty_exceptions"@, opt_str_array_json(self.penalty_exceptions)), ("penalty_bias"@, opt_string_json(self.penalty_bias)), ("penalty_exceptions_include_stop_sequences"@, opt_bool_json(self.penalty_exceptions_include_stop_sequences)), ("best_of"@, opt_i32_json(self.best_of)), ("n"@, opt_i32_json(self.n)), ("log_probs"@, opt_i32_json(self.log_probs)), ("stop_sequences"@, opt_str_array_json(self.stop_sequences)), ("tokens"@, opt_bool_json(self.tokens)), ("raw_completion"@, opt_bool_json(self.raw_completion)), ("disable_optimizations"@, opt_bool_json(self.disable_optimizations))] =~= seq![("model"@, Option::Some(JsonVal::Str(self.model@))), ("hosting"@, opt_hosting_json(self.hosting)), ("prompt"@, Option::Some(self.prompt.spec_json())), ("maximum_tokens"@, Option::Some(JsonVal::Num(int_lexeme(self.maximum_tokens as int)))), ("minimum_tokens"@, opt_u32_json(self.minimum_tokens)), ("echo"@, opt_bool_json(self.echo)), ("temperature"@, opt_num_json(self.temperature)), ("top_k"@, opt_u32_json(self.top_k)), ("top_p"@, opt_num_json(self.top_p)), ("presence_penalty"@, opt_num_json(self.presence_penalty)), ("frequency_penalty"@, opt_num_json(self.frequency_penalty)), ("sequence_penalty"@, opt_num_json(self.sequence_penalty)), ("sequence_penalty_min_length"@, opt_i32_json(self.sequence_penalty_min_length)), ("repetition_penalties_include_prompt"@, opt_bool_json(self.repetition_penalties_include_prompt)), ("repetition_penalties_include_completion"@, opt_bool_json(self.repetition_penalties_include_completion)), ("use_multiplicative_presence_penalty"@, opt_bool_json(self.use_multiplicative_presence_penalty)), ("use_multiplicative_frequency_penalty"@, opt_bool_json(self.use_multiplicative_frequency_penalty)), ("use_multiplicative_sequence_penalty"@, opt_bool_json(self.use_multiplicative_sequence_penalty)), ("penalty_exceptions"@, opt_str_array_json(self.penalty_exceptions)), ("penalty_bias"@, opt_string_json(self.penalty_bias)), ("penalty_exceptions_include_stop_sequences"@, opt_bool_json(self.penalty_exceptions_include_stop_sequences)), ("best_of"@, opt_i32_json(self.best_of)), ("n"@, opt_i32_json(self.n)), ("log_probs"@, opt_i32_json(self.log_probs)), ("stop_sequences"@, opt_str_array_json(self.stop_sequences)), ("tokens"@, opt_bool_json(self.tokens)), ("raw_completion"@, opt_bool_json(self.raw_completion))].push(("disable_optimizations"@, opt_bool_json(self.disable_optimizations))));
    lemma_sparse_members_push(seq![("model"@, Option::Some(JsonVal::Str(self.model@))), ("hosting"@, opt_hosting_json(self.hosting)), ("prompt"@, Option::Some(self.prompt.spec_json())), ("maximum_tokens"@, Option::Some(JsonVal::Num(int_lexeme(self.maximum_tokens as int)))), ("minimum_tokens"@, opt_u32_json(self.minimum_tokens)), ("echo"@, opt_bool_json(self.echo)), ("temperature"@, opt_num_json(self.temperature)), ("top_k"@, opt_u32_json(self.top_k)), ("top_p"@, opt_num_json(self.top_p)), ("presence_penalty"@, opt_num_json(self.presence_penalty)), ("frequency_penalty"@, opt_num_json(self.frequency_penalty)), ("sequence_penalty"@, opt_num_json(self.sequence_penalty)), ("sequence_penalty_min_length"@, opt_i32_json(self.sequence_penalty_min_length)), ("repetition_penalties_include_prompt"@, opt_bool_json(self.repetition_penalties_include_prompt)), ("repetition_penalties_include_completion"@, opt_bool_json(self.repetition_penalties_include_completion)), ("use_multiplicative_presence_penalty"@, opt_bool_json(self.use_multiplicative_presence_penalty)), ("use_multiplicative_frequency_penalty"@, opt_bool_json(self.use_multiplicative_frequency_penalty)), ("use_multiplicative_sequence_penalty"@, opt_bool_json(self.use_multiplicative_sequence_penalty)), ("penalty_exceptions"@, opt_str_array_json(self.penalty_exceptions)), ("penalty_bias"@, opt_string_json(self.penalty_bias)), ("penalty_exceptions_include_stop_sequences"@, opt_bool_json(self.penalty_exceptions_include_stop_sequences)), ("best_of"@, opt_i32_json(self.best_of)), ("n"@, opt_i32_json(self.n)), ("log_probs"@, opt_i32_json(self.log_probs)), ("stop_sequences"@, opt_str_array_json(self.stop_sequences)), ("tokens"@, opt_bool_json(self.tokens)), ("raw_completion"@, opt_bool_json(self.raw_completion))], ("disable_optimizations"@, opt_bool_json(self.disable_optimizations)));
    assert(seq![("model"@, Option::Some(JsonVal::Str(self.model@))), ("hosting"@, opt_hosting_json(self.hosting)), ("prompt"@, Option::Some(self.prompt.spec_json())), ("maximum_tokens"@, Option::Some(JsonVal::Num(int_lexeme(self.maximum_tokens as int)))), ("minimum_tokens"@, opt_u32_json(self.minimum_tokens)), ("echo"@, opt_bool_json(self.echo)), ("temperature"@, opt_num_json(self.temperature)), ("top_k"@, opt_u32_json(self.top_k)), ("top_p"@, opt_num_json(self.top_p)), ("presence_penalty"@, opt_num_json(self.presence_penalty)), ("frequency_penalty"@, opt_num_json(self.frequency_penalty)), ("sequence_penalty"@, opt_num_json(self.sequence_penalty)), ("sequence_penalty_min_length"@, opt_i32_json(self.sequence_penalty_min_length)), ("repetition_penalties_include_prompt"@, opt_bool_json(self.repetition_penalties_include_prompt)), ("repetition_penalties_include_completion"@, opt_bool_json(self.repetition_penalties_include_completion)), ("use_multiplicative_presence_penalty"@, opt_bool_json(self.use_multiplicative_presence_penalty)), ("use_multiplicative_frequency_penalty"@, opt_bool_json(self.use_multiplicative_frequency_penalty)), ("use_multiplicative_sequence_penalty"@, opt_bool_json(self.use_multiplicative_sequence_penalty)), ("penalty_exceptions"@, opt_str_array_json(self.penalty_exceptions)), ("penalty_bias"@, opt_string_json(self.penalty_bias)), ("penalty_exceptions_include_stop_sequences"@, opt_bool_json(self.penalty_exceptions_include_stop_sequences)), ("best_of"@, opt_i32_json(self.best_of)), ("n"@, opt_i32_json(self.n)), ("log_probs"@, opt_i32_json(self.log_probs)), ("stop_sequences"@, opt_str_array_json(self.stop_sequences)), ("tokens"@, opt_bool_json(self.tokens)), ("raw_completion"@, opt_bool_json(self.raw_completion)), ("disable_optimizations"@, opt_bool_json(self.disable_optimizations)), ("completion_bias_inclusion"@, opt_str_array_json(self.completion_bias_inclusion))] =~= seq![("model"@, Option::Some(JsonVal::Str(self.model@))), ("hosting"@, opt_hosting_json(self.hosting)), ("prompt"@, Option::Some(self.prompt.spec_json())), ("maximum_tokens"@, Option::Some(JsonVal::Num(int_lexeme(self.maximum_tokens as int)))), ("minimum_tokens"@, opt_u32_json(self.minimum_tokens)), ("echo"@, opt_bool_json(self.echo)), ("temperature"@, opt_num_json(self.temperature)), ("top_k"@, opt_u32_json(self.top_k)), ("top_p"@, opt_num_json(self.top_p)), ("presence_penalty"@, opt_num_json(self.presence_penalty)), ("frequency_penalty"@, opt_num_json(self.frequency_penalty)), ("sequence_penalty"@, opt_num_json(self.sequence_penalty)), ("sequence_penalty_min_length"@, opt_i32_json(self.sequence_penalty_min_length)), ("repetition_penalties_include_prompt"@, opt_bool_json(self.repetition_penalties_include_prompt)), ("repetition_penalties_include_completion"@, opt_bool_json(self.repetition_penalties_include_completion)), ("use_multiplicative_presence_penalty"@, opt_bool_json(self.use_multiplicative_presence_penalty)), ("use_multiplicative_frequency_penalty"@, opt_bool_json(self.use_multiplicative_frequency_penalty)), ("use_multiplicative_sequence_penalty"@, opt_bool_json(self.use_multiplicative_sequence_penalty)), ("penalty_exceptions"@, opt_str_array_json(self.penalty_exceptions)), ("penalty_bias"@, opt_string_json(self.penalty_bias)), ("penalty_exceptions_include_stop_sequences"@, opt_bool_json(self.penalty_exceptions_include_stop_sequences)), ("best_of"@, opt_i32_json(self.best_of)), ("n"@, opt_i32_json(self.n)), ("log_probs"@, opt_i32_json(self.log_probs)), ("stop_sequences"@, opt_str_array_json(self.stop_sequences)), ("tokens"@, opt_bool_json(self.tokens)), ("raw_completion"@, opt_bool_json(self.raw_completion)), ("disable_optimizations"@, opt_bool_json(self.disable_optimizations))].push(("completion_bias_inclusion"@, opt_str_array_json(self.completion_bias_inclusion))));
    lemma_sparse_members_push(seq![("model"@, Option::Some(JsonVal::Str(self.model@))), ("hosting"@, opt_hosting_json(self.hosting)), ("prompt"@, Option::Some(self.prompt.spec_json())), ("maximum_tokens"@, Option::Some(JsonVal::Num(int_lexeme(self.maximum_tokens as int)))), ("minimum_tokens"@, opt_u32_json(self.minimum_tokens)), ("echo"@, opt_bool_json(self.echo)), ("temperature"@, opt_num_json(self.temperature)), ("top_k"@, opt_u32_json(self.top_k)), ("top_p"@, opt_num_json(self.top_p)), ("presence_penalty"@, opt_num_json(self.presence_penalty)), ("frequency_penalty"@, opt_num_json(self.frequency_penalty)), ("sequence_penalty"@, opt_num_json(self.sequence_penalty)), ("sequence_penalty_min_length"@, opt_i32_json(self.sequence_penalty_min_length)), ("repetition_penalties_include_prompt"@, opt_bool_json(self.repetition_penalties_include_prompt)), ("repetition_penalties_include_completion"@, opt_bool_json(self.repetition_penalties_include_completion)), ("use_multiplicative_presence_penalty"@, opt_bool_json(self.use_multiplicative_presence_penalty)), ("use_multiplicative_frequency_penalty"@, opt_bool_json(self.use_multiplicative_frequency_penalty)), ("use_multiplicative_sequence_penalty"@, opt_bool_json(self.use_multiplicative_sequence_penalty)), ("penalty_exceptions"@, opt_str_array_json(self.penalty_exceptions)), ("penalty_bias"@, opt_string_json(self.penalty_bias)), ("penalty_exceptions_include_stop_sequences"@, opt_bool_json(self.penalty_exceptions_include_stop_sequences)), ("best_of"@, opt_i32_json(self.best_of)), ("n"@, opt_i32_json(self.n)), ("log_probs"@, opt_i32_json(self.log_probs)), ("stop_sequences"@, opt_str_array_json(self.stop_sequences)), ("tokens"@, opt_bool_json(self.tokens)), ("raw_completion"@, opt_bool_json(self.raw_completion)), ("disable_optimizations"@, opt_bool_json(self.disable_optimizations))], ("completion_bias_inclusion"@, opt_str_array_json(self.completion_bias_inclusion)));
    assert(seq![("model"@, Option::Some(JsonVal::Str(self.model@))), ("hosting"@, opt_hosting_json(self.hosting)), ("prompt"@, Option::Some(self.prompt.spec_json())), ("maximum_tokens"@, Option::Some(JsonVal::Num(int_lexeme(self.maximum_tokens as int)))), ("minimum_tokens"@, opt_u32_json(self.minimum_tokens)), ("echo"@, opt_bool_json(self.echo)), ("temperature"@, opt_num_json(self.temperature)), ("top_k"@, opt_u32_json(self.top_k)), ("top_p"@, opt_num_json(self.top_p)), ("presence_penalty"@, opt_num_json(self.presence_penalty)), ("frequency_penalty"@, opt_num_json(self.frequency_penalty)), ("sequence_penalty"@, opt_num_json(self.sequence_penalty)), ("sequence_penalty_min_length"@, opt_i32_json(self.sequence_penalty_min_length)), ("repetition_penalties_include_prompt"@, opt_bool_json(self.repetition_penalties_include_prompt)), ("repetition_penalties_include_completion"@, opt_bool_json(self.repetition_penalties_include_completion)), ("use_multiplicative_presence_penalty"@, opt_bool_json(self.use_multiplicative_presence_penalty)), ("use_multiplicative_frequency_penalty"@, opt_bool_json(self.use_multiplicative_frequency_penalty)), ("use_multiplicative_sequence_penalty"@, opt_bool_json(self.use_multiplicative_sequence_penalty)), ("penalty_exceptions"@, opt_str_array_json(self.penalty_exceptions)), ("penalty_bias"@, opt_string_json(self.penalty_bias)), ("penalty_exceptions_include_stop_sequences"@, opt_bool_json(self.penalty_exceptions_include_stop_sequences)), ("best_of"@, opt_i32_json(self.best_of)), ("n"@, opt_i32_json(self.n)), ("log_probs"@, opt_i32_json(self.log_probs)), ("stop_sequences"@, opt_str_array_json(self.stop_sequences)), ("tokens"@, opt_bool_json(self.tokens)), ("raw_completion"@, opt_bool_json(self.raw_completion)), ("disable_optimizations"@, opt_bool_json(self.disable_optimizations)), ("completion_bias_inclusion"@, opt_str_array_json(self.completion_bias_inclusion)), ("completion_bias_inclusion_first_token_only"@, opt_bool_json(self.completion_bias_inclusion_first_token_only))] =~= seq![("model"@, Option::Some(JsonVal::Str(self.model@))), ("hosting"@, opt_hosting_json(self.hosting)), ("prompt"@, Option::Some(self.prompt.spec_json())), ("maximum_tokens"@, Option::Some(JsonVal::Num(int_lexeme(self.maximum_tokens as int)))), ("minimum_tokens"@, opt_u32_json(self.minimum_tokens)), ("echo"@, opt_bool_json(self.echo)), ("temperature"@, opt_num_json(self.temperature)), ("top_k"@, opt_u32_json(self.top_k)), ("top_p"@, opt_num_json(self.top_p)), ("presence_penalty"@, opt_num_json(self.presence_penalty)), ("frequency_penalty"@, opt_num_json(self.frequency_penalty)), ("sequence_penalty"@, opt_num_json(self.sequence_penalty)), ("sequence_penalty_min_length"@, opt_i32_json(self.sequence_penalty_min_length)), ("repetition_penalties_include_prompt"@, opt_bool_json(self.repetition_penalties_include_prompt)), ("repetition_penalties_include_completion"@, opt_bool_json(self.repetition_penalties_include_completion)), ("use_multiplicative_presence_penalty"@, opt_bool_json(self.use_multiplicative_presence_penalty)), ("use_multiplicative_frequency_penalty"@, opt_bool_json(self.use_multiplicative_frequency_penalty)), ("use_multiplicative_sequence_penalty"@, opt_bool_json(self.use_multiplicative_sequence_penalty)), ("penalty_exceptions"@, opt_str_array_json(self.penalty_exceptions)), ("penalty_bias"@, opt_string_json(self.penalty_bias)), ("penalty_exceptions_include_stop_sequences"@, opt_bool_json(self.penalty_exceptions_include_stop_sequences)), ("best_of"@, opt_i32_json(self.best_of)), ("n"@, opt_i32_json(self.n)), ("log_probs"@, opt_i32_json(self.log_probs)), ("stop_sequences"@, opt_str_array_json(self.stop_sequences)), ("tokens"@, opt_bool_json(self.tokens)), ("raw_completion"@, opt_bool_json(self.raw_completion)), ("disable_optimizations"@, opt_bool_json(self.disable_optimizations)), ("completion_bias_inclusion"@, opt_str_array_json(self.completion_bias_inclusion))].push(("completion_bias_inclusion_first_token_only"@, opt_bool_json(self.completion_bias_inclusion_first_token_only))));
    lemma_sparse_members_push(seq![("model"@, Option::Some(JsonVal::Str(self.model@))), ("hosting"@, opt_hosting_json(self.hosting)), ("prompt"@, Option::Some(self.prompt.spec_json())), ("maximum_tokens"@, Option::Some(JsonVal::Num(int_lexeme(self.maximum_tokens as int)))), ("minimum_tokens"@, opt_u32_json(self.minimum_tokens)), ("echo"@, opt_bool_json(self.echo)), ("temperature"@, opt_num_json(self.temperature)), ("top_k"@, opt_u32_json(self.top_k)), ("top_p"@, opt_num_json(self.top_p)), ("presence_penalty"@, opt_num_json(self.presence_penalty)), ("frequency_penalty"@, opt_num_json(self.frequency_penalty)), ("sequence_penalty"@, opt_num_json(self.sequence_penalty)), ("sequence_penalty_min_length"@, opt_i32_json(self.sequence_penalty_min_length)), ("repetition_penalties_include_prompt"@, opt_bool_json(self.repetition_penalties_include_prompt)), ("repetition_penalties_include_completion"@, opt_bool_json(self.repetition_penalties_include_completion)), ("use_multiplicative_presence_penalty"@, opt_bool_json(self.use_multiplicative_presence_penalty)), ("use_multiplicative_frequency_penalty"@, opt_bool_json(self.use_multiplicative_frequency_penalty)), ("use_multiplicative_sequence_penalty"@, opt_bool_json(self.use_multiplicative_sequence_penalty)), ("penalty_exceptions"@, opt_str_array_json(self.penalty_exceptions)), ("penalty_bias"@, opt_string_json(self.penalty_bias)), ("penalty_exceptions_include_stop_sequences"@, opt_bool_json(self.penalty_exceptions_include_stop_sequences)), ("best_of"@, opt_i32_json(self.best_of)), ("n"@, opt_i32_json(self.n)), ("log_probs"@, opt_i32_json(self.log_probs)), ("stop_sequences"@, opt_str_array_json(self.stop_sequences)), ("tokens"@, opt_bool_json(self.tokens)), ("raw_completion"@, opt_bool_json(self.raw_completion)), ("disable_optimizations"@, opt_bool_json(self.disable_optimizations)), ("completion_bias_inclusion"@, opt_str_array_json(self.completion_bias_inclusion))], ("completion_bias_inclusion_first_token_only"@, opt_bool_json(self.completion_bias_inclusion_first_token_only)));
    assert(seq![("model"@, Option::Some(JsonVal::Str(self.model@))), ("hosting"@, opt_hosting_json(self.hosting)), ("prompt"@, Option::Some(self.prompt.spec_json())), ("maximum_tokens"@, Option::Some(JsonVal::Num(int_lexeme(self.maximum_tokens as int)))), ("minimum_tokens"@, opt_u32_json(self.minimum_tokens)), ("echo"@, opt_bool_json(self.echo)), ("temperature"@, opt_num_json(self.temperature)), ("top_k"@, opt_u32_json(self.top_k)), ("top_p"@, opt_num_json(self.top_p)), ("presence_penalty"@, opt_num_json(self.presence_penalty)), ("frequency_penalty"@, opt_num_json(self.frequency_penalty)), ("sequence_penalty"@, opt_num_json(self.sequence_penalty)), ("sequence_penalty_min_length"@, opt_i32_json(self.sequence_penalty_min_length)), ("repetition_penalties_include_prompt"@, opt_bool_json(self.repetition_penalties_include_prompt)), ("repetition_penalties_include_completion"@, opt_bool_json(self.repetition_penalties_include_completion)), ("use_multiplicative_presence_penalty"@, opt_bool_json(self.use_multiplicative_presence_penalty)), ("use_multiplicative_frequency_penalty"@, opt_bool_json(self.use_multiplicative_frequency_penalty)), ("use_multiplicative_sequence_penalty"@, opt_bool_json(self.use_multiplicative_sequence_penalty)), ("penalty_exceptions"@, opt_str_array_json(self.penalty_exceptions)), ("penalty_bias"@, opt_string_json(self.penalty_bias)), ("penalty_exceptions_include_stop_sequences"@, opt_bool_json(self.penalty_exceptions_include_stop_sequences)), ("best_of"@, opt_i32_json(self.best_of)), ("n"@, opt_i32_json(self.n)), ("log_probs"@, opt_i32_json(self.log_probs)), ("stop_sequences"@, opt_str_array_json(self.stop_sequences)), ("tokens"@, opt_bool_json(self.tokens)), ("raw_completion"@, opt_bool_json(self.raw_completion)), ("disable_optimizations"@, opt_bool_json(self.disable_optimizations)), ("completion_bias_inclusion"@, opt_str_array_json(self.completion_bias_inclusion)), ("completion_bias_inclusion_first_token_only"@, opt_bool_json(self.completion_bias_inclusion_first_token_only)), ("completion_bias_exclusion"@, opt_str_array_json(self.completion_bias_exclusion))] =~= seq![("model"@, Option::Some(JsonVal::Str(self.model@))), ("hosting"@, opt_hosting_json(self.hosting)), ("prompt"@, Option::Some(self.prompt.spec_json())), ("maximum_tokens"@, Option::Some(JsonVal::Num(int_lexeme(self.maximum_tokens as int)))), ("minimum_tokens"@, opt_u32_json(self.minimum_tokens)), ("echo"@, opt_bool_json(self.echo)), ("temperature"@, opt_num_json(self.temperature)), ("top_k"@, opt_u32_json(self.top_k)), ("top_p"@, opt_num_json(self.top_p)), ("presence_penalty"@, opt_num_json(self.presence_penalty)), ("frequency_penalty"@, opt_num_json(self.frequency_penalty)), ("sequence_penalty"@, opt_num_json(self.sequence_penalty)), ("sequence_penalty_min_length"@, opt_i32_json(self.sequence_penalty_min_length)), ("repetition_penalties_include_prompt"@, opt_bool_json(self.repetition_penalties_include_prompt)), ("repetition_penalties_include_completion"@, opt_bool_json(self.repetition_penalties_include_completion)), ("use_multiplicative_presence_penalty"@, opt_bool_json(self.use_multiplicative_presence_penalty)), ("use_multiplicative_frequency_penalty"@, opt_bool_json(self.use_multiplicative_frequency_penalty)), ("use_multiplicative_sequence_penalty"@, opt_bool_json(self.use_multiplicative_sequence_penalty)), ("penalty_exceptions"@, opt_str_array_json(self.penalty_exceptions)), ("penalty_bias"@, opt_string_json(self.penalty_bias)), ("penalty_exceptions_include_stop_sequences"@, opt_bool_json(self.penalty_exceptions_include_stop_sequences)), ("best_of"@, opt_i32_json(self.best_of)), ("n"@, opt_i32_json(self.n)), ("log_probs"@, opt_i32_json(self.log_probs)), ("stop_sequences"@, opt_str_array_json(self.stop_sequences)), ("tokens"@, opt_bool_json(self.tokens)), ("raw_completion"@, opt_bool_json(self.raw_completion)), ("disable_optimizations"@, opt_bool_json(self.disable_optimizations)), ("completion_bias_inclusion"@, opt_str_array_json(self.completion_bias_inclusion)), ("completion_bias_inclusion_first_token_only"@, opt_bool_json(self.completion_bias_inclusion_first_token_only))].push(("completion_bias_exclusion"@, opt_str_array_json(self.completion_bias_exclusion))));
    lemma_sparse_members_push(seq![("model"@, Option::Some(JsonVal::Str(self.model@))), ("hosting"@, opt_hosting_json(self.hosting)), ("prompt"@, Option::Some(self.prompt.spec_json())), ("maximum_tokens"@, Option::Some(JsonVal::Num(int_lexeme(self.maximum_tokens as int)))), ("minimum_tokens"@, opt_u32_json(self.minimum_tokens)), ("echo"@, opt_bool_json(self.echo)), ("temperature"@, opt_num_json(self.temperature)), ("top_k"@, opt_u32_json(self.top_k)), ("top_p"@, opt_num_json(self.top_p)), ("presence_penalty"@, opt_num_json(self.presence_penalty)), ("frequency_penalty"@, opt_num_json(self.frequency_penalty)), ("sequence_penalty"@, opt_num_json(self.sequence_penalty)), ("sequence_penalty_min_length"@, opt_i32_json(self.sequence_penalty_min_length)), ("repetition_penalties_include_prompt"@, opt_bool_json(self.repetition_penalties_include_prompt)), ("repetition_penalties_include_completion"@, opt_bool_json(self.repetition_penalties_include_completion)), ("use_multiplicative_presence_penalty"@, opt_bool_json(self.use_multiplicative_presence_penalty)), ("use_multiplicative_frequency_penalty"@, opt_bool_json(self.use_multiplicative_frequency_penalty)), ("use_multiplicative_sequence_penalty"@, opt_bool_json(self.use_multiplicative_sequence_penalty)), ("penalty_exceptions"@, opt_str_array_json(self.penalty_exceptions)), ("penalty_bias"@, opt_string_json(self.penalty_bias)), ("penalty_exceptions_include_stop_sequences"@, opt_bool_json(self.penalty_exceptions_include_stop_sequences)), ("best_of"@, opt_i32_json(self.best_of)), ("n"@, opt_i32_json(self.n)), ("log_probs"@, opt_i32_json(self.log_probs)), ("stop_sequences"@, opt_str_array_json(self.stop_sequences)), ("tokens"@, opt_bool_json(self.tokens)), ("raw_completion"@, opt_bool_json(self.raw_completion)), ("disable_optimizations"@, opt_bool_json(self.disable_optimizations)), ("completion_bias_inclusion"@, opt_str_array_json(self.completion_bias_inclusion)), ("completion_bias_inclusion_first_token_only"@, opt_bool_json(self.completion_bias_inclusion_first_token_only))], ("completion_bias_exclusion"@, opt_str_array_json(self.completion_bias_exclusion)));
    assert(seq![("model"@, Option::Some(JsonVal::Str(self.model@))), ("hosting"@, opt_hosting_json(self.hosting)), ("prompt"@, Option::Some(self.prompt.spec_json())), ("maximum_tokens"@, Option::Some(JsonVal::Num(int_lexeme(self.maximum_tokens as int)))), ("minimum_tokens"@, opt_u32_json(self.minimum_tokens)), ("echo"@, opt_bool_json(self.echo)), ("temperature"@, opt_num_json(self.temperature)), ("top_k"@, opt_u32_json(self.top_k)), ("top_p"@, opt_num_json(self.top_p)), ("presence_penalty"@, opt_num_json(self.presence_penalty)), ("frequency_penalty"@, opt_num_json(self.frequency_penalty)), ("sequence_penalty"@, opt_num_json(self.sequence_penalty)), ("sequence_penalty_min_length"@, opt_i32_json(self.sequence_penalty_min_length)), ("repetition_penalties_include_prompt"@, opt_bool_json(self.repetition_penalties_include_prompt)), ("repetition_penalties_include_completion"@, opt_bool_json(self.repetition_penalties_include_completion)), ("use_multiplicative_presence_penalty"@, opt_bool_json(self.use_multiplicative_presence_penalty)), ("use_multiplicative_frequency_penalty"@, opt_bool_json(self.use_multiplicative_frequency_penalty)), ("use_multiplicative_sequence_penalty"@, opt_bool_json(self.use_multiplicative_sequence_penalty)), ("penalty_exceptions"@, opt_str_array_json(self.penalty_exceptions)), ("penalty_bias"@, opt_string_json(self.penalty_bias)), ("penalty_exceptions_include_stop_sequences"@, opt_bool_json(self.penalty_exceptions_include_stop_sequences)), ("best_of"@, opt_i32_json(self.best_of)), ("n"@, opt_i32_json(self.n)), ("log_probs"@, opt_i32_json(self.log_probs)), ("stop_sequences"@, opt_str_array_json(self.stop_sequences)), ("tokens"@, opt_bool_json(self.tokens)), ("raw_completion"@, opt_bool_json(self.raw_completion)), ("disable_optimizations"@, opt_bool_json(self.disable_optimizations)), ("completion_bias_inclusion"@, opt_str_array_json(self.completion_bias_inclusion)), ("completion_bias_inclusion_first_token_only"@, opt_bool_json(self.completion_bias_inclusion_first_token_only)), ("completion_bias_exclusion"@, opt_str_array_json(self.completion_bias_exclusion)), ("completion_bias_exclusion_first_token_only"@, opt_bool_json(self.completion_bias_exclusion_first_token_only))] =~= seq![("model"@, Option::Some(JsonVal::Str(self.model@))), ("hosting"@, opt_hosting_json(self.hosting)), ("prompt"@, Option::Some(self.prompt.spec_json())), ("maximum_tokens"@, Option::Some(JsonVal::Num(int_lexeme(self.maximum_tokens as int)))), ("minimum_tokens"@, opt_u32_json(self.minimum_tokens)), ("echo"@, opt_bool_json(self.echo)), ("temperature"@, opt_num_json(self.temperature)), ("top_k"@, opt_u32_json(self.top_k)), ("top_p"@, opt_num_json(self.top_p)), ("presence_penalty"@, opt_num_json(self.presence_penalty)), ("frequency_penalty"@, opt_num_json(self.frequency_penalty)), ("sequence_penalty"@, opt_num_json(self.sequence_penalty)), ("sequence_penalty_min_length"@, opt_i32_json(self.sequence_penalty_min_length)), ("repetition_penalties_include_prompt"@, opt_bool_json(self.repetition_penalties_include_prompt)), ("repetition_penalties_include_completion"@, opt_bool_json(self.repetition_penalties_include_completion)), ("use_multiplicative_presence_penalty"@, opt_bool_json(self.use_multiplicative_presence_penalty)), ("use_multiplicative_frequency_penalty"@, opt_bool_json(self.use_multiplicative_frequency_penalty)), ("use_multiplicative_sequence_penalty"@, opt_bool_json(self.use_multiplicative_sequence_penalty)), ("penalty_exceptions"@, opt_str_array_json(self.penalty_exceptions)), ("penalty_bias"@, opt_string_json(self.penalty_bias)), ("penalty_exceptions_include_stop_sequences"@, opt_bool_json(self.penalty_exceptions_include_stop_sequences)), ("best_of"@, opt_i32_json(self.best_of)), ("n"@, opt_i32_json(self.n)), ("log_probs"@, opt_i32_json(self.log_probs)), ("stop_sequences"@, opt_str_array_json(self.stop_sequences)), ("tokens"@, opt_bool_json(self.tokens)), ("raw_completion"@, opt_bool_json(self.raw_completion)), ("disable_optimizations"@, opt_bool_json(self.disable_optimizations)), ("completion_bias_inclusion"@, opt_str_array_json(self.completion_bias_inclusion)), ("completion_bias_inclusion_first_token_only"@, opt_bool_json(self.completion_bias_inclusion_first_token_only)), ("completion_bias_exclusion"@, opt_str_array_json(self.completion_bias_exclusion))].push(("completion_bias_exclusion_first_token_only"@, opt_bool_json(self.completion_bias_exclusion_first_token_only))));
    lemma_sparse_members_push(seq![("model"@, Option::Some(JsonVal::Str(self.model@))), ("hosting"@, opt_hosting_json(self.hosting)), ("prompt"@, Option::Some(self.prompt.spec_json())), ("maximum_tokens"@, Option::Some(JsonVal::Num(int_lexeme(self.maximum_tokens as int)))), ("minimum_tokens"@, opt_u32_json(self.minimum_tokens)), ("echo"@, opt_bool_json(self.echo)), ("temperature"@, opt_num_json(self.temperature)), ("top_k"@, opt_u32_json(self.top_k)), ("top_p"@, opt_num_json(self.top_p)), ("presence_penalty"@, opt_num_json(self.presence_penalty)), ("frequency_penalty"@, opt_num_json(self.frequency_penalty)), ("sequence_penalty"@, opt_num_json(self.sequence_penalty)), ("sequence_penalty_min_length"@, opt_i32_json(self.sequence_penalty_min_length)), ("repetition_penalties_include_prompt"@, opt_bool_json(self.repetition_penalties_include_prompt)), ("repetition_penalties_include_completion"@, opt_bool_json(self.repetition_penalties_include_completion)), ("use_multiplicative_presence_penalty"@, opt_bool_json(self.use_multiplicative_presence_penalty)), ("use_multiplicative_frequency_penalty"@, opt_bool_json(self.use_multiplicative_frequency_penalty)), ("use_multiplicative_sequence_penalty"@, opt_bool_json(self.use_multiplicative_sequence_penalty)), ("penalty_exceptions"@, opt_str_array_json(self.penalty_exceptions)), ("penalty_bias"@, opt_string_json(self.penalty_bias)), ("penalty_exceptions_include_stop_sequences"@, opt_bool_json(self.penalty_exceptions_include_stop_sequences)), ("best_of"@, opt_i32_json(self.best_of)), ("n"@, opt_i32_json(self.n)), ("log_probs"@, opt_i32_json(self.log_probs)), ("stop_sequences"@, opt_str_array_json(self.stop_sequences)), ("tokens"@, opt_bool_json(self.tokens)), ("raw_completion"@, opt_bool_json(self.raw_completion)), ("disable_optimizations"@, opt_bool_json(self.disable_optimizations)), ("completion_bias_inclusion"@, opt_str_array_json(self.completion_bias_inclusion)), ("completion_bias_inclusion_first_token_only"@, opt_bool_json(self.completion_bias_inclusion_first_token_only)), ("completion_bias_exclusion"@, opt_str_array_json(self.completion_bias_exclusion))], ("completion_bias_exclusion_first_token_only"@, opt_bool_json(self.completion_bias_exclusion_first_token_only)));
    assert(seq![("model"@, Option::Some(JsonVal::Str(self.model@))), ("hosting"@, opt_hosting_json(self.hosting)), ("prompt"@, Option::Some(self.prompt.spec_json())), ("maximum_tokens"@, Option::Some(JsonVal::Num(int_lexeme(self.maximum_tokens as int)))), ("minimum_tokens"@, opt_u32_json(self.minimum_tokens)), ("echo"@, opt_bool_json(self.echo)), ("temperature"@, opt_num_json(self.temperature)), ("top_k"@, opt_u32_json(self.top_k)), ("top_p"@, opt_num_json(self.top_p)), ("presence_penalty"@, opt_num_json(self.presence_penalty)), ("frequency_penalty"@, opt_num_json(self.frequency_penalty)), ("sequence_penalty"@, opt_num_json(self.sequence_penalty)), ("sequence_penalty_min_length"@, opt_i32_json(self.sequence_penalty_min_length)), ("repetition_penalties_include_prompt"@, opt_bool_json(self.repetition_penalties_include_prompt)), ("repetition_penalties_include_completion"@, opt_bool_json(self.repetition_penalties_include_completion)), ("use_multiplicative_presence_penalty"@, opt_bool_json(self.use_multiplicative_presence_penalty)), ("use_multiplicative_frequency_penalty"@, opt_bool_json(self.use_multiplicative_frequency_penalty)), ("use_multiplicative_sequence_penalty"@, opt_bool_json(self.use_multiplicative_sequence_penalty)), ("penalty_exceptions"@, opt_str_array_json(self.penalty_exceptions)), ("penalty_bias"@, opt_string_json(self.penalty_bias)), ("penalty_exceptions_include_stop_sequences"@, opt_bool_json(self.penalty_exceptions_include_stop_sequences)), ("best_of"@, opt_i32_json(self.best_of)), ("n"@, opt_i32_json(self.n)), ("log_probs"@, opt_i32_json(self.log_probs)), ("stop_sequences"@, opt_str_array_json(self.stop_sequences)), ("tokens"@, opt_bool_json(self.tokens)), ("raw_completion"@, opt_bool_json(self.raw_completion)), ("disable_optimizations"@, opt_bool_json(self.disable_optimizations)), ("completion_bias_inclusion"@, opt_str_array_json(self.completion_bias_inclusion)), ("completion_bias_inclusion_first_token_only"@, opt_bool_json(self.completion_bias_inclusion_first_token_only)), ("completion_bias_exclusion"@, opt_str_array_json(self.completion_bias_exclusion)), ("completion_bias_exclusion_first_token_only"@, opt_bool_json(self.completion_bias_exclusion_first_token_only)), ("contextual_control_threshold"@, opt_num_json(self.contextual_control_threshold))] =~= seq![("model"@, Option::Some(JsonVal::Str(self.model@))), ("hosting"@, opt_hosting_json(self.hosting)), ("prompt"@, Option::Some(self.prompt.spec_json())), ("maximum_tokens"@, Option::Some(JsonVal::Num(int_lexeme(self.maximum_tokens as int)))), ("minimum_tokens"@, opt_u32_json(self.minimum_tokens)), ("echo"@, opt_bool_json(self.echo)), ("temperature"@, opt_num_json(self.temperature)), ("top_k"@, opt_u32_json(self.top_k)), ("top_p"@, opt_num_json(self.top_p)), ("presence_penalty"@, opt_num_json(self.presence_penalty)), ("frequency_penalty"@, opt_num_json(self.frequency_penalty)), ("sequence_penalty"@, opt_num_json(self.sequence_penalty)), ("sequence_penalty_min_length"@, opt_i32_json(self.sequence_penalty_min_length)), ("repetition_penalties_include_prompt"@, opt_bool_json(self.repetition_penalties_include_prompt)), ("repetition_penalties_include_completion"@, opt_bool_json(self.repetition_penalties_include_completion)), ("use_multiplicative_presence_penalty"@, opt_bool_json(self.use_multiplicative_presence_penalty)), ("use_multiplicative_frequency_penalty"@, opt_bool_json(self.use_multiplicative_frequency_penalty)), ("use_multiplicative_sequence_penalty"@, opt_bool_json(self.use_multiplicative_sequence_penalty)), ("penalty_exceptions"@, opt_str_array_json(self.penalty_exceptions)), ("penalty_bias"@, opt_string_json(self.penalty_bias)), ("penalty_exceptions_include_stop_sequences"@, opt_bool_json(self.penalty_exceptions_include_stop_sequences)), ("best_of"@, opt_i32_json(self.best_of)), ("n"@, opt_i32_json(self.n)), ("log_probs"@, opt_i32_json(self.log_probs)), ("stop_sequences"@, opt_str_array_json(self.stop_sequences)), ("tokens"@, opt_bool_json(self.tokens)), ("raw_completion"@, opt_bool_json(self.raw_completion)), ("disable_optimizations"@, opt_bool_json(self.disable_optimizations)), ("completion_bias_inclusion"@, opt_str_array_json(self.completion_bias_inclusion)), ("completion_bias_inclusion_first_token_only"@, opt_bool_json(self.completion_bias_inclusion_first_token_only)), ("completion_bias_exclusion"@, opt_str_array_json(self.completion_bias_exclusion)), ("completion_bias_exclusion_first_token_only"@, opt_bool_json(self.completion_bias_exclusion_first_token_only))].push(("contextual_control_threshold"@, opt_num_json(self.contextual_control_threshold))));
    lemma_sparse_members_push(seq![("model"@, Option::Some(JsonVal::Str(self.model@))), ("hosting"@, opt_hosting_json(self.hosting)), ("prompt"@, Option::Some(self.prompt.spec_json())), ("maximum_tokens"@, Option::Some(JsonVal::Num(int_lexeme(self.maximum_tokens as int)))), ("minimum_tokens"@, opt_u32_json(self.minimum_tokens)), ("echo"@, opt_bool_json(self.echo)), ("temperature"@, opt_num_json(self.temperature)), ("top_k"@, opt_u32_json(self.top_k)), ("top_p"@, opt_num_json(self.top_p)), ("presence_penalty"@, opt_num_json(self.presence_penalty)), ("frequency_penalty"@, opt_num_json(self.frequency_penalty)), ("sequence_penalty"@, opt_num_json(self.sequence_penalty)), ("sequence_penalty_min_length"@, opt_i32_json(self.sequence_penalty_min_length)), ("repetition_penalties_include_prompt"@, opt_bool_json(self.repetition_penalties_include_prompt)), ("repetition_penalties_include_completion"@, opt_bool_json(self.repetition_penalties_include_completion)), ("use_multiplicative_presence_penalty"@, opt_bool_json(self.use_multiplicative_presence_penalty)), ("use_multiplicative_frequency_penalty"@, opt_bool_json(self.use_multiplicative_frequency_penalty)), ("use_multiplicative_sequence_penalty"@, opt_bool_json(self.use_multiplicative_sequence_penalty)), ("penalty_exceptions"@, opt_str_array_json(self.penalty_exceptions)), ("penalty_bias"@, opt_string_json(self.penalty_bias)), ("penalty_exceptions_include_stop_sequences"@, opt_bool_json(self.penalty_exceptions_include_stop_sequences)), ("best_of"@, opt_i32_json(self.best_of)), ("n"@, opt_i32_json(self.n)), ("log_probs"@, opt_i32_json(self.log_probs)), ("stop_sequences"@, opt_str_array_json(self.stop_sequences)), ("tokens"@, opt_bool_json(self.tokens)), ("raw_completion"@, opt_bool_json(self.raw_completion)), ("disable_optimizations"@, opt_bool_json(self.disable_optimizations)), ("completion_bias_inclusion"@, opt_str_array_json(self.completion_bias_inclusion)), ("completion_bias_inclusion_first_token_only"@, opt_bool_json(self.completion_bias_inclusion_first_token_only)), ("completion_bias_exclusion"@, opt_str_array_json(self.completion_bias_exclusion)), ("completion_bias_exclusion_first_token_only"@, opt_bool_json(self.completion_bias_exclusion_first_token_only))], ("contextual_control_threshold"@, opt_num_json(self.contextual_control_threshold)));
    assert(seq![("model"@, Option::Some(JsonVal::Str(self.model@))), ("hosting"@, opt_hosting_json(self.hosting)), ("prompt"@, Option::Some(self.prompt.spec_json())), ("maximum_tokens"@, Option::Some(JsonVal::Num(int_lexeme(self.maximum_tokens as int)))), ("minimum_tokens"@, opt_u32_json(self.minimum_tokens)), ("echo"@, opt_bool_json(self.echo)), ("temperature"@, opt_num_json(self.temperature)), ("top_k"@, opt_u32_json(self.top_k)), ("top_p"@, opt_num_json(self.top_p)), ("presence_penalty"@, opt_num_json(self.presence_penalty)), ("frequency_penalty"@, opt_num_json(self.frequency_penalty)), ("sequence_penalty"@, opt_num_json(self.sequence_penalty)), ("sequence_penalty_min_length"@, opt_i32_json(self.sequence_penalty_min_length)), ("repetition_penalties_include_prompt"@, opt_bool_json(self.repetition_penalties_include_prompt)), ("repetition_penalties_include_completion"@, opt_bool_json(self.repetition_penalties_include_completion)), ("use_multiplicative_presence_penalty"@, opt_bool_json(self.use_multiplicative_presence_penalty)), ("use_multiplicative_frequency_penalty"@, opt_bool_json(self.use_multiplicative_frequency_penalty)), ("use_multiplicative_sequence_penalty"@, opt_bool_json(self.use_multiplicative_sequence_penalty)), ("penalty_exceptions"@, opt_str_array_json(self.penalty_exceptions)), ("penalty_bias"@, opt_string_json(self.penalty_bias)), ("penalty_exceptions_include_stop_sequences"@, opt_bool_json(self.penalty_exceptions_include_stop_sequences)), ("best_of"@, opt_i32_json(self.best_of)), ("n"@, opt_i32_json(self.n)), ("log_probs"@, opt_i32_json(self.log_probs)), ("stop_sequences"@, opt_str_array_json(self.stop_sequences)), ("tokens"@, opt_bool_json(self.tokens)), ("raw_completion"@, opt_bool_json(self.raw_completion)), ("disable_optimizations"@, opt_bool_json(self.disable_optimizations)), ("completion_bias_inclusion"@, opt_str_array_json(self.completion_bias_inclusion)), ("completion_bias_inclusion_first_token_only"@, opt_bool_json(self.completion_bias_inclusion_first_token_only)), ("completion_bias_exclusion"@, opt_str_array_json(self.completion_bias_exclusion)), ("completion_bias_exclusion_first_token_only"@, opt_bool_json(self.completion_bias_exclusion_first_token_only)), ("contextual_control_threshold"@, opt_num_json(self.contextual_control_threshold)), ("control_log_additive"@, opt_bool_json(self.control_log_additive))] =~= seq![("model"@, Option::Some(JsonVal::Str(self.model@))), ("hosting"@, opt_hosting_json(self.hosting)), ("prompt"@, Option::Some(self.prompt.spec_json())), ("maximum_tokens"@, Option::Some(JsonVal::Num(int_lexeme(self.maximum_tokens as int)))), ("minimum_tokens"@, opt_u32_json(self.minimum_tokens)), ("echo"@, opt_bool_json(self.echo)), ("temperature"@, opt_num_json(self.temperature)), ("top_k"@, opt_u32_json(self.top_k)), ("top_p"@, opt_num_json(self.top_p)), ("presence_penalty"@, opt_num_json(self.presence_penalty)), ("frequency_penalty"@, opt_num_json(self.frequency_penalty)), ("sequence_penalty"@, opt_num_json(self.sequence_penalty)), ("sequence_penalty_min_length"@, opt_i32_json(self.sequence_penalty_min_length)), ("repetition_penalties_include_prompt"@, opt_bool_json(self.repetition_penalties_include_prompt)), ("repetition_penalties_include_completion"@, opt_bool_json(self.repetition_penalties_include_completion)), ("use_multiplicative_presence_penalty"@, opt_bool_json(self.use_multiplicative_presence_penalty)), ("use_multiplicative_frequency_penalty"@, opt_bool_json(self.use_multiplicative_frequency_penalty)), ("use_multiplicative_sequence_penalty"@, opt_bool_json(self.use_multiplicative_sequence_penalty)), ("penalty_exceptions"@, opt_str_array_json(self.penalty_exceptions)), ("penalty_bias"@, opt_string_json(self.penalty_bias)), ("penalty_exceptions_include_stop_sequences"@, opt_bool_json(self.penalty_exceptions_include_stop_sequences)), ("best_of"@, opt_i32_json(self.best_of)), ("n"@, opt_i32_json(self.n)), ("log_probs"@, opt_i32_json(self.log_probs)), ("stop_sequences"@, opt_str_array_json(self.stop_sequences)), ("tokens"@, opt_bool_json(self.tokens)), ("raw_completion"@, opt_bool_json(self.raw_completion)), ("disable_optimizations"@, opt_bool_json(self.disable_optimizations)), ("completion_bias_inclusion"@, opt_str_array_json(self.completion_bias_inclusion)), ("completion_bias_inclusion_first_token_only"@, opt_bool_json(self.completion_bias_inclusion_first_token_only)), ("completion_bias_exclusion"@, opt_str_array_json(self.completion_bias_exclusion)), ("completion_bias_exclusion_first_token_only"@, opt_bool_json(self.completion_bias_exclusion_first_token_only)), ("contextual_control_threshold"@, opt_num_json(self.contextual_control_threshold))].push(("control_log_additive"@, opt_bool_json(self.control_log_additive))));
    lemma_sparse_members_push(seq![("model"@, Option::Some(JsonVal::Str(self.model@))), ("hosting"@, opt_hosting_json(self.hosting)), ("prompt"@, Option::Some(self.prompt.spec_json())), ("maximum_tokens"@, Option::Some(JsonVal::Num(int_lexeme(self.maximum_tokens as int)))), ("minimum_tokens"@, opt_u32_json(self.minimum_tokens)), ("echo"@, opt_bool_json(self.echo)), ("temperature"@, opt_num_json(self.temperature)), ("top_k"@, opt_u32_json(self.top_k)), ("top_p"@, opt_num_json(self.top_p)), ("presence_penalty"@, opt_num_json(self.presence_penalty)), ("frequency_penalty"@, opt_num_json(self.frequency_penalty)), ("sequence_penalty"@, opt_num_json(self.sequence_penalty)), ("sequence_penalty_min_length"@, opt_i32_json(self.sequence_penalty_min_length)), ("repetition_penalties_include_prompt"@, opt_bool_json(self.repetition_penalties_include_prompt)), ("repetition_penalties_include_completion"@, opt_bool_json(self.repetition_penalties_include_completion)), ("use_multiplicative_presence_penalty"@, opt_bool_json(self.use_multiplicative_presence_penalty)), ("use_multiplicative_frequency_penalty"@, opt_bool_json(self.use_multiplicative_frequency_penalty)), ("use_multiplicative_sequence_penalty"@, opt_bool_json(self.use_multiplicative_sequence_penalty)), ("penalty_exceptions"@, opt_str_array_json(self.penalty_exceptions)), ("penalty_bias"@, opt_string_json(self.penalty_bias)), ("penalty_exceptions_include_stop_sequences"@, opt_bool_json(self.penalty_exceptions_include_stop_sequences)), ("best_of"@, opt_i32_json(self.best_of)), ("n"@, opt_i32_json(self.n)), ("log_probs"@, opt_i32_json(self.log_probs)), ("stop_sequences"@, opt_str_array_json(self.stop_sequences)), ("tokens"@, opt_bool_json(self.tokens)), ("raw_completion"@, opt_bool_json(self.raw_completion)), ("disable_optimizations"@, opt_bool_json(self.disable_optimizations)), ("completion_bias_inclusion"@, opt_str_array_json(self.completion_bias_inclusion)), ("completion_bias_inclusion_first_token_only"@, opt_bool_json(self.completion_bias_inclusion_first_token_only)), ("completion_bias_exclusion"@, opt_str_array_json(self.completion_bias_exclusion)), ("completion_bias_exclusion_first_token_only"@, opt_bool_json(self.completion_bias_exclusion_first_token_only)), ("contextual_control_threshold"@, opt_num_json(self.contextual_control_threshold))], ("control_log_additive"@, opt_bool_json(self.control_log_additive)));
    assert(seq![("model"@, Option::Some(JsonVal::Str(self.model@))), ("hosting"@, opt_hosting_json(self.hosting)), ("prompt"@, Option::Some(self.prompt.spec_json())), ("maximum_tokens"@, Option::Some(JsonVal::Num(int_lexeme(self.maximum_tokens as int)))), ("minimum_tokens"@, opt_u32_json(self.minimum_tokens)), ("echo"@, opt_bool_json(self.echo)), ("temperature"@, opt_num_json(self.temperature)), ("top_k"@, opt_u32_json(self.top_k)), ("top_p"@, opt_num_json(self.top_p)), ("presence_penalty"@, opt_num_json(self.presence_penalty)), ("frequency_penalty"@, opt_num_json(self.frequency_penalty)), ("sequence_penalty"@, opt_num_json(self.sequence_penalty)), ("sequence_penalty_min_length"@, opt_i32_json(self.sequence_penalty_min_length)), ("repetition_penalties_include_prompt"@, opt_bool_json(self.repetition_penalties_include_prompt)), ("repetition_penalties_include_completion"@, opt_bool_json(self.repetition_penalties_include_completion)), ("use_multiplicative_presence_penalty"@, opt_bool_json(self.use_multiplicative_presence_penalty)), ("use_multiplicative_frequency_penalty"@, opt_bool_json(self.use_multiplicative_frequency_penalty)), ("use_multiplicative_sequence_penalty"@, opt_bool_json(self.use_multiplicative_sequence_penalty)), ("penalty_exceptions"@, opt_str_array_json(self.penalty_exceptions)), ("penalty_bias"@, opt_string_json(self.penalty_bias)), ("penalty_exceptions_include_stop_sequences"@, opt_bool_json(self.penalty_exceptions_include_stop_sequences)), ("best_of"@, opt_i32_json(self.best_of)), ("n"@, opt_i32_json(self.n)), ("log_probs"@, opt_i32_json(self.log_probs)), ("stop_sequences"@, opt_str_array_json(self.stop_sequences)), ("tokens"@, opt_bool_json(self.tokens)), ("raw_completion"@, opt_bool_json(self.raw_completion)), ("disable_optimizations"@, opt_bool_json(self.disable_optimizations)), ("completion_bias_inclusion"@, opt_str_array_json(self.completion_bias_inclusion)), ("completion_bias_inclusion_first_token_only"@, opt_bool_json(self.completion_bias_inclusion_first_token_only)), ("completion_bias_exclusion"@, opt_str_array_json(self.completion_bias_exclusion)), ("completion_bias_exclusion_first_token_only"@, opt_bool_json(self.completion_bias_exclusion_first_token_only)), ("contextual_control_threshold"@, opt_num_json(self.contextual_control_threshold)), ("control_log_additive"@, opt_bool_json(self.control_log_additive)), ("logit_bias"@, opt_logit_bias_json(self.logit_bias))] =~= seq![("model"@, Option::Some(JsonVal::Str(self.model@))), ("hosting"@, opt_hosting_json(self.hosting)), ("prompt"@, Option::Some(self.prompt.spec_json())), ("maximum_tokens"@, Option::Some(JsonVal::Num(int_lexeme(self.maximum_tokens as int)))), ("minimum_tokens"@, opt_u32_json(self.minimum_tokens)), ("echo"@, opt_bool_json(self.echo)), ("temperature"@, opt_num_json(self.temperature)), ("top_k"@, opt_u32_json(self.top_k)), ("top_p"@, opt_num_json(self.top_p)), ("presence_penalty"@, opt_num_json(self.presence_penalty)), ("frequency_penalty"@, opt_num_json(self.frequency_penalty)), ("sequence_penalty"@, opt_num_json(self.sequence_penalty)), ("sequence_penalty_min_length"@, opt_i32_json(self.sequence_penalty_min_length)), ("repetition_penalties_include_prompt"@, opt_bool_json(self.repetition_penalties_include_prompt)), ("repetition_penalties_include_completion"@, opt_bool_json(self.repetition_penalties_include_completion)), ("use_multiplicative_presence_penalty"@, opt_bool_json(self.use_multiplicative_presence_penalty)), ("use_multiplicative_frequency_penalty"@, opt_bool_json(self.use_multiplicative_frequency_penalty)), ("use_multiplicative_sequence_penalty"@, opt_bool_json(self.use_multiplicative_sequence_penalty)), ("penalty_exceptions"@, opt_str_array_json(self.penalty_exceptions)), ("penalty_bias"@, opt_string_json(self.penalty_bias)), ("penalty_exceptions_include_stop_sequences"@, opt_bool_json(self.penalty_exceptions_include_stop_sequences)), ("best_of"@, opt_i32_json(self.best_of)), ("n"@, opt_i32_json(self.n)), ("log_probs"@, opt_i32_json(self.log_probs)), ("stop_sequences"@, opt_str_array_json(self.stop_sequences)), ("tokens"@, opt_bool_json(self.tokens)), ("raw_completion"@, opt_bool_json(self.raw_completion)), ("disable_optimizations"@, opt_bool_json(self.disable_optimizations)), ("completion_bias_inclusion"@, opt_str_array_json(self.completion_bias_inclusion)), ("completion_bias_inclusion_first_token_only"@, opt_bool_json(self.completion_bias_inclusion_first_token_only)), ("completion_bias_exclusion"@, opt_str_array_json(self.completion_bias_exclusion)), ("completion_bias_exclusion_first_token_only"@, opt_bool_json(self.completion_bias_exclusion_first_token_only)), ("contextual_control_threshold"@, opt_num_json(self.contextual_control_threshold)), ("control_log_additive"@, opt_bool_json(self.control_log_additive))].push(("logit_bias"@, opt_logit_bias_json(self.logit_bias))));
    lemma_sparse_members_push(seq![("model"@, Option::Some(JsonVal::Str(self.model@))), ("hosting"@, opt_hosting_json(self.hosting)), ("prompt"@, Option::Some(self.prompt.spec_json())), ("maximum_tokens"@, Option::Some(JsonVal::Num(int_lexeme(self.maximum_tokens as int)))), ("minimum_tokens"@, opt_u32_json(self.minimum_tokens)), ("echo"@, opt_bool_json(self.echo)), ("temperature"@, opt_num_json(self.temperature)), ("top_k"@, opt_u32_json(self.top_k)), ("top_p"@, opt_num_json(self.top_p)), ("presence_penalty"@, opt_num_json(self.presence_penalty)), ("frequency_penalty"@, opt_num_json(self.frequency_penalty)), ("sequence_penalty"@, opt_num_json(self.sequence_penalty)), ("sequence_penalty_min_length"@, opt_i32_json(self.sequence_penalty_min_length)), ("repetition_penalties_include_prompt"@, opt_bool_json(self.repetition_penalties_include_prompt)), ("repetition_penalties_include_completion"@, opt_bool_json(self.repetition_penalties_include_completion)), ("use_multiplicative_presence_penalty"@, opt_bool_json(self.use_multiplicative_presence_penalty)), ("use_multiplicative_frequency_penalty"@, opt_bool_json(self.use_multiplicative_frequency_penalty)), ("use_multiplicative_sequence_penalty"@, opt_bool_json(self.use_multiplicative_sequence_penalty)), ("penalty_exceptions"@, opt_str_array_json(self.penalty_exceptions)), ("penalty_bias"@, opt_string_json(self.penalty_bias)), ("penalty_exceptions_include_stop_sequences"@, opt_bool_json(self.penalty_exceptions_include_stop_sequences)), ("best_of"@, opt_i32_json(self.best_of)), ("n"@, opt_i32_json(self.n)), ("log_probs"@, opt_i32_json(self.log_probs)), ("stop_sequences"@, opt_str_array_json(self.stop_sequences)), ("tokens"@, opt_bool_json(self.tokens)), ("raw_completion"@, opt_bool_json(self.raw_completion)), ("disable_optimizations"@, opt_bool_json(self.disable_optimizations)), ("completion_bias_inclusion"@, opt_str_array_json(self.completion_bias_inclusion)), ("completion_bias_inclusion_first_token_only"@, opt_bool_json(self.completion_bias_inclusion_first_token_only)), ("completion_bias_exclusion"@, opt_str_array_json(self.completion_bias_exclusion)), ("completion_bias_exclusion_first_token_only"@, opt_bool_json(self.completion_bias_exclusion_first_token_only)), ("contextual_control_threshold"@, opt_num_json(self.contextual_control_threshold)), ("control_log_additive"@, opt_bool_json(self.control_log_additive))], ("logit_bias"@, opt_logit_bias_json(self.logit_bias)));
}

    /// A request with the three required fields; everything else is
    /// unset.
    pub fn new(model: String, prompt: Prompt, maximum_tokens: u32) -> (r: Self)
        ensures
            r == (CompletionRequest {
                model,
                hosting: Option::None,
                prompt,
                maximum_tokens,
                minimum_tokens: Option::None,
                echo: Option::None,
                temperature: Option::None,
                top_k: Option::None,
                top_p: Option::None,
                presence_penalty: Option::None,
                frequency_penalty: Option::None,
                sequence_penalty: Option::None,
                sequence_penalty_min_length: Option::None,
                repetition_penalties_include_prompt: Option::None,
                repetition_penalties_include_completion: Option::None,
                use_multiplicative_presence_penalty: Option::None,
                use_multiplicative_frequency_penalty: Option::None,
                use_multiplicative_sequence_penalty: Option::None,
                penalty_exceptions: Option::None,
                penalty_bias: Option::None,
                penalty_exceptions_include_stop_sequences: Option::None,
                best_of: Option::None,
                n: Option::None,
                log_probs: Option::None,
                stop_sequences: Option::None,
                tokens: Option::None,
                raw_completion: Option::None,
                disable_optimizations: Option::None,
                completion_bias_inclusion: Option::None,
                completion_bias_inclusion_first_token_only: Option::None,
                completion_bias_exclusion: Option::None,
                completion_bias_exclusion_first_token_only: Option::None,
                contextual_control_threshold: Option::None,
                control_log_additive: Option::None,
                logit_bias: Option::None,
            }),
    {
        CompletionRequest {
            model,
            hosting: None,
            prompt,
            maximum_tokens,
            minimum_tokens: None,
            echo: None,
            temperature: None,
            top_k: None,
            top_p: None,
            presence_penalty: None,
            frequency_penalty: None,
            sequence_penalty: None,
            sequence_penalty_min_length: None,
            repetition_penalties_include_prompt: None,
            repetition_penalties_include_completion: None,
            use_multiplicative_presence_penalty: None,
            use_multiplicative_frequency_penalty: None,
            use_multiplicative_sequence_penalty: None,
            penalty_exceptions: None,
            penalty_bias: None,
            penalty_exceptions_include_stop_sequences: None,
            best_of: None,
            n: None,
            log_probs: None,
            stop_sequences: None,
            tokens: None,
            raw_completion: None,
            disable_optimizations: None,
            completion_bias_inclusion: None,
            completion_bias_inclusion_first_token_only: None,
            completion_bias_exclusion: None,
            completion_bias_exclusion_first_token_only: None,
            contextual_control_threshold: None,
            control_log_additive: None,
            logit_bias: None,
        }
    }

    /// A request for completing a plain text prompt.
    pub fn from_text(model: String, text: &str, maximum_tokens: u32) -> (r: Self)
        ensures
            r.model == model,
            r.maximum_tokens == maximum_tokens,
            r.prompt.0@.len() == 1,
            (r.prompt.0@[0] matches Modality::Text { data, controls } && data@ == text@
                && controls is None),
            r.hosting is None,
            r.minimum_tokens is None,
            r.echo is None,
            r.temperature is None,
            r.top_k is None,
            r.top_p is None,
            r.presence_penalty is None,
            r.frequency_penalty is None,
            r.sequence_penalty is None,
            r.sequence_penalty_min_length is None,
            r.repetition_penalties_include_prompt is None,
            r.repetition_penalties_include_completion is None,
            r.use_multiplicative_presence_penalty is None,
            r.use_multiplicative_frequency_penalty is None,
            r.use_multiplicative_sequence_penalty is None,
            r.penalty_exceptions is None,
            r.penalty_bias is None,
            r.penalty_exceptions_include_stop_sequences is None,
            r.best_of is None,
            r.n is None,
            r.log_probs is None,
            r.stop_sequences is None,
            r.tokens is None,
            r.raw_completion is None,
            r.disable_optimizations is None,
            r.completion_bias_inclusion is None,
            r.completion_bias_inclusion_first_token_only is None,
            r.completion_bias_exclusion is None,
            r.completion_bias_exclusion_first_token_only is None,
            r.contextual_control_threshold is None,
            r.control_log_additive is None,
            r.logit_bias is None,
    {
        CompletionRequest::new(model, Prompt::from_text(text), maximum_tokens)
    }
}

/// Fluent setters: each wraps its value in \u{60}Some\u{60} and leaves every
/// other field alone.
impl CompletionRequest {
    pub fn minimum_tokens(self, minimum_tokens: u32) -> (r: Self)
        ensures
            r == (CompletionRequest { minimum_tokens: Option::Some(minimum_tokens), ..self }),
    {
        CompletionRequest { minimum_tokens: Some(minimum_tokens), ..self }
    }

    pub fn echo(self, echo: bool) -> (r: Self)
        ensures
            r == (CompletionRequest { echo: Option::Some(echo), ..self }),
    {
        CompletionRequest { echo: Some(echo), ..self }
    }

    pub fn temperature(self, temperature: JsonNumber) -> (r: Self)
        ensures
            r == (CompletionRequest { temperature: Option::Some(temperature), ..self }),
    {
        CompletionRequest { temperature: Some(temperature), ..self }
    }

    pub fn top_k(self, top_k: u32) -> (r: Self)
        ensures
            r == (CompletionRequest { top_k: Option::Some(top_k), ..self }),
    {
        CompletionRequest { top_k: Some(top_k), ..self }
    }

    pub fn top_p(self, top_p: JsonNumber) -> (r: Self)
        ensures
            r == (CompletionRequest { top_p: Option::Some(top_p), ..self }),
    {
        CompletionRequest { top_p: Some(top_p), ..self }
    }

    pub fn presence_penalty(self, presence_penalty: JsonNumber) -> (r: Self)
        ensures
            r == (CompletionRequest { presence_penalty: Option::Some(presence_penalty), ..self }),
    {
        CompletionRequest { presence_penalty: Some(presence_penalty), ..self }
    }

    pub fn frequency_penalty(self, frequency_penalty: JsonNumber) -> (r: Self)
        ensures
            r == (CompletionRequest { frequency_penalty: Option::Some(frequency_penalty), ..self }),
    {
        CompletionRequest { frequency_penalty: Some(frequency_penalty), ..self }
    }

    pub fn sequence_penalty(self, sequence_penalty: JsonNumber) -> (r: Self)
        ensures
            r == (CompletionRequest { sequence_penalty: Option::Some(sequence_penalty), ..self }),
    {
        CompletionRequest { sequence_penalty: Some(sequence_penalty), ..self }
    }

    pub fn sequence_penalty_min_length(self, sequence_penalty_min_length: i32) -> (r: Self)
        ensures
            r == (CompletionRequest { sequence_penalty_min_length: Option::Some(sequence_penalty_min_length), ..self }),
    {
        CompletionRequest { sequence_penalty_min_length: Some(sequence_penalty_min_length), ..self }
    }

    pub fn repetition_penalties_include_prompt(self, repetition_penalties_include_prompt: bool) -> (r: Self)
        ensures
            r == (CompletionRequest { repetition_penalties_include_prompt: Option::Some(repetition_penalties_include_prompt), ..self }),
    {
        CompletionRequest { repetition_penalties_include_prompt: Some(repetition_penalties_include_prompt), ..self }
    }

    pub fn repetition_penalties_include_completion(self, repetition_penalties_include_completion: bool) -> (r: Self)
        ensures
            r == (CompletionRequest { repetition_penalties_include_completion: Option::Some(repetition_penalties_include_completion), ..self }),
    {
        CompletionRequest { repetition_penalties_include_completion: Some(repetition_penalties_include_completion), ..self }
    }

    pub fn use_multiplicative_presence_penalty(self, use_multiplicative_presence_penalty: bool) -> (r: Self)
        ensures
            r == (CompletionRequest { use_multiplicative_presence_penalty: Option::Some(use_multiplicative_presence_penalty), ..self }),
    {
        CompletionRequest { use_multiplicative_presence_penalty: Some(use_multiplicative_presence_penalty), ..self }
    }

    pub fn use_multiplicative_frequency_penalty(self, use_multiplicative_frequency_penalty: bool) -> (r: Self)
        ensures
            r == (CompletionRequest { use_multiplicative_frequency_penalty: Option::Some(use_multiplicative_frequency_penalty), ..self }),
    {
        CompletionRequest { use_multiplicative_frequency_penalty: Some(use_multiplicative_frequency_penalty), ..self }
    }

    pub fn use_multiplicative_sequence_penalty(self, use_multiplicative_sequence_penalty: bool) -> (r: Self)
        ensures
            r == (CompletionRequest { use_multiplicative_sequence_penalty: Option::Some(use_multiplicative_sequence_penalty), ..self }),
    {
        CompletionRequest { use_multiplicative_sequence_penalty: Some(use_multiplicative_sequence_penalty), ..self }
    }

    pub fn penalty_exceptions(self, penalty_exceptions: Vec<String>) -> (r: Self)
        ensures
            r == (CompletionRequest { penalty_exceptions: Option::Some(penalty_exceptions), ..self }),
    {
        CompletionRequest { penalty_exceptions: Some(penalty_exceptions), ..self }
    }

    pub fn penalty_bias(self, penalty_bias: String) -> (r: Self)
        ensures
            r == (CompletionRequest { penalty_bias: Option::Some(penalty_bias), ..self }),
    {
        CompletionRequest { penalty_bias: Some(penalty_bias), ..self }
    }

    pub fn penalty_exceptions_include_stop_sequences(self, penalty_exceptions_include_stop_sequences: bool) -> (r: Self)
        ensures
            r == (CompletionRequest { penalty_exceptions_include_stop_sequences: Option::Some(penalty_exceptions_include_stop_sequences), ..self }),
    {
        CompletionRequest { penalty_exceptions_include_stop_sequences: Some(penalty_exceptions_include_stop_sequences), ..self }
    }

    pub fn best_of(self, best_of: i32) -> (r: Self)
        ensures
            r == (CompletionRequest { best_of: Option::Some(best_of), ..self }),
    {
        CompletionRequest { best_of: Some(best_of), ..self }
    }

    pub fn n(self, n: i32) -> (r: Self)
        ensures
            r == (CompletionRequest { n: Option::Some(n), ..self }),
    {
        CompletionRequest { n: Some(n), ..self }
    }

    pub fn log_probs(self, log_probs: i32) -> (r: Self)
        ensures
            r == (CompletionRequest { log_probs: Option::Some(log_probs), ..self }),
    {
        CompletionRequest { log_probs: Some(log_probs), ..self }
    }

    pub fn stop_sequences(self, stop_sequences: Vec<String>) -> (r: Self)
        ensures
            r == (CompletionRequest { stop_sequences: Option::Some(stop_sequences), ..self }),
    {
        CompletionRequest { stop_sequences: Some(stop_sequences), ..self }
    }

    pub fn tokens(self, tokens: bool) -> (r: Self)
        ensures
            r == (CompletionRequest { tokens: Option::Some(tokens), ..self }),
    {
        CompletionRequest { tokens: Some(tokens), ..self }
    }

    pub fn raw_completion(self, raw_completion: bool) -> (r: Self)
        ensures
            r == (CompletionRequest { raw_completion: Option::Some(raw_completion), ..self }),
    {
        CompletionRequest { raw_completion: Some(raw_completion), ..self }
    }

    pub fn disable_optimizations(self, disable_optimizations: bool) -> (r: Self)
        ensures
            r == (CompletionRequest { disable_optimizations: Option::Some(disable_optimizations), ..self }),
    {
        CompletionRequest { disable_optimizations: Some(disable_optimizations), ..self }
    }

    pub fn completion_bias_inclusion(self, completion_bias_inclusion: Vec<String>) -> (r: Self)
        ensures
            r == (CompletionRequest { completion_bias_inclusion: Option::Some(completion_bias_inclusion), ..self }),
    {
        CompletionRequest { completion_bias_inclusion: Some(completion_bias_inclusion), ..self }
    }

    pub fn completion_bias_inclusion_first_token_only(self, completion_bias_inclusion_first_token_only: bool) -> (r: Self)
        ensures
            r == (CompletionRequest { completion_bias_inclusion_first_token_only: Option::Some(completion_bias_inclusion_first_token_only), ..self }),
    {
        CompletionRequest { completion_bias_inclusion_first_token_only: Some(completion_bias_inclusion_first_token_only), ..self }
    }

    pub fn completion_bias_exclusion(self, completion_bias_exclusion: Vec<String>) -> (r: Self)
        ensures
            r == (CompletionRequest { completion_bias_exclusion: Option::Some(completion_bias_exclusion), ..self }),
    {
        CompletionRequest { completion_bias_exclusion: Some(completion_bias_exclusion), ..self }
    }

    pub fn completion_bias_exclusion_first_token_only(self, completion_bias_exclusion_first_token_only: bool) -> (r: Self)
        ensures
            r == (CompletionRequest { completion_bias_exclusion_first_token_only: Option::Some(completion_bias_exclusion_first_token_only), ..self }),
    {
        CompletionRequest { completion_bias_exclusion_first_token_only: Some(completion_bias_exclusion_first_token_only), ..self }
    }

    pub fn contextual_control_threshold(self, contextual_control_threshold: JsonNumber) -> (r: Self)
        ensures
            r == (CompletionRequest { contextual_control_threshold: Option::Some(contextual_control_threshold), ..self }),
    {
        CompletionRequest { contextual_control_threshold: Some(contextual_control_threshold), ..self }
    }

    pub fn control_log_additive(self, control_log_additive: bool) -> (r: Self)
        ensures
            r == (CompletionRequest { control_log_additive: Option::Some(control_log_additive), ..self }),
    {
        CompletionRequest { control_log_additive: Some(control_log_additive), ..self }
    }

    pub fn logit_bias(self, logit_bias: Vec<(i32, JsonNumber)>) -> (r: Self)
        ensures
            r == (CompletionRequest { logit_bias: Option::Some(logit_bias), ..self }),
    {
        CompletionRequest { logit_bias: Some(logit_bias), ..self }
    }

}


#[verifier::rlimit(100)]
proof fn lemma_field_model(r: CompletionRequest)
    ensures
        obj_lookup(r.spec_json(), "model"@) == Option::Some(JsonVal::Str(r.model@)),
{
    reveal_strlit("model");
    assert("model"@.len() == 5);
    reveal_strlit("hosting");
    assert("hosting"@.len() == 7);
    reveal_strlit("prompt");
    assert("prompt"@.len() == 6);
    reveal_strlit("maximum_tokens");
    assert("maximum_tokens"@.len() == 14);
    reveal_strlit("minimum_tokens");
    assert("minimum_tokens"@.len() == 14);
    reveal_strlit("echo");
    assert("echo"@.len() == 4);
    reveal_strlit("temperature");
    assert("temperature"@.len() == 11);
    reveal_strlit("top_k");
    assert("top_k"@.len() == 5);
    assert("model"@[0] != "top_k"@[0]);
    reveal_strlit("top_p");
    assert("top_p"@.len() == 5);
    assert("model"@[0] != "top_p"@[0]);
    reveal_strlit("presence_penalty");
    assert("presence_penalty"@.len() == 16);
    reveal_strlit("frequency_penalty");
    assert("frequency_penalty"@.len() == 17);
    reveal_strlit("sequence_penalty");
    assert("sequence_penalty"@.len() == 16);
    reveal_strlit("sequence_penalty_min_length");
    assert("sequence_penalty_min_length"@.len() == 27);
    reveal_strlit("repetition_penalties_include_prompt");
    assert("repetition_penalties_include_prompt"@.len() == 35);
    reveal_strlit("repetition_penalties_include_completion");
    assert("repetition_penalties_include_completion"@.len() == 39);
    reveal_strlit("use_multiplicative_presence_penalty");
    assert("use_multiplicative_presence_penalty"@.len() == 35);
    reveal_strlit("use_multiplicative_frequency_penalty");
    assert("use_multiplicative_frequency_penalty"@.len() == 36);
    reveal_strlit("use_multiplicative_sequence_penalty");
    assert("use_multiplicative_sequence_penalty"@.len() == 35);
    reveal_strlit("penalty_exceptions");
    assert("penalty_exceptions"@.len() == 18);
    reveal_strlit("penalty_bias");
    assert("penalty_bias"@.len() == 12);
    reveal_strlit("penalty_exceptions_include_stop_sequences");
    assert("penalty_exceptions_include_stop_sequences"@.len() == 41);
    reveal_strlit("best_of");
    assert("best_of"@.len() == 7);
    reveal_strlit("n");
    assert("n"@.len() == 1);
    reveal_strlit("log_probs");
    assert("log_probs"@.len() == 9);
    reveal_strlit("stop_sequences");
    assert("stop_sequences"@.len() == 14);
    reveal_strlit("tokens");
    assert("tokens"@.len() == 6);
    reveal_strlit("raw_completion");
    assert("raw_completion"@.len() == 14);
    reveal_strlit("disable_optimizations");
    assert("disable_optimizations"@.len() == 21);
    reveal_strlit("completion_bias_inclusion");
    assert("completion_bias_inclusion"@.len() == 25);
    reveal_strlit("completion_bias_inclusion_first_token_only");
    assert("completion_bias_inclusion_first_token_only"@.len() == 42);
    reveal_strlit("completion_bias_exclusion");
    assert("completion_bias_exclusion"@.len() == 25);
    reveal_strlit("completion_bias_exclusion_first_token_only");
    assert("completion_bias_exclusion_first_token_only"@.len() == 42);
    reveal_strlit("contextual_control_threshold");
    assert("contextual_control_threshold"@.len() == 28);
    reveal_strlit("control_log_additive");
    assert("control_log_additive"@.len() == 20);
    reveal_strlit("logit_bias");
    assert("logit_bias"@.len() == 10);
    let fields = r.spec_fields();
    assert(fields[0].0 == "model"@);
    assert forall|i: int| 0 <= i < fields.len() && i != 0 implies (#[trigger] fields[i]).0
        != fields[0].0 by {
        if i == 1 {
            assert(fields[1].0 == "hosting"@);
        } else if i == 2 {
            assert(fields[2].0 == "prompt"@);
        } else if i == 3 {
            assert(fields[3].0 == "maximum_tokens"@);
        } else if i == 4 {
            assert(fields[4].0 == "minimum_tokens"@);
        } else if i == 5 {
            assert(fields[5].0 == "echo"@);
        } else if i == 6 {
            assert(fields[6].0 == "temperature"@);
        } else if i == 7 {
            assert(fields[7].0 == "top_k"@);
        } else if i == 8 {
            assert(fields[8].0 == "top_p"@);
        } else if i == 9 {
            assert(fields[9].0 == "presence_penalty"@);
        } else if i == 10 {
            assert(fields[10].0 == "frequency_penalty"@);
        } else if i == 11 {
            assert(fields[11].0 == "sequence_penalty"@);
        } else if i == 12 {
            assert(fields[12].0 == "sequence_penalty_min_length"@);
        } else if i == 13 {
            assert(fields[13].0 == "repetition_penalties_include_prompt"@);
        } else if i == 14 {
            assert(fields[14].0 == "repetition_penalties_include_completion"@);
        } else if i == 15 {
            assert(fields[15].0 == "use_multiplicative_presence_penalty"@);
        } else if i == 16 {
            assert(fields[16].0 == "use_multiplicative_frequency_penalty"@);
        } else if i == 17 {
            assert(fields[17].0 == "use_multiplicative_sequence_penalty"@);
        } else if i == 18 {
            assert(fields[18].0 == "penalty_exceptions"@);
        } else if i == 19 {
            assert(fields[19].0 == "penalty_bias"@);
        } else if i == 20 {
            assert(fields[20].0 == "penalty_exceptions_include_stop_sequences"@);
        } else if i == 21 {
            assert(fields[21].0 == "best_of"@);
        } else if i == 22 {
            assert(fields[22].0 == "n"@);
        } else if i == 23 {
            assert(fields[23].0 == "log_probs"@);
        } else if i == 24 {
            assert(fields[24].0 == "stop_sequences"@);
        } else if i == 25 {
            assert(fields[25].0 == "tokens"@);
        } else if i == 26 {
            assert(fields[26].0 == "raw_completion"@);
        } else if i == 27 {
            assert(fields[27].0 == "disable_optimizations"@);
        } else if i == 28 {
            assert(fields[28].0 == "completion_bias_inclusion"@);
        } else if i == 29 {
            assert(fields[29].0 == "completion_bias_inclusion_first_token_only"@);
        } else if i == 30 {
            assert(fields[30].0 == "completion_bias_exclusion"@);
        } else if i == 31 {
            assert(fields[31].0 == "completion_bias_exclusion_first_token_only"@);
        } else if i == 32 {
            assert(fields[32].0 == "contextual_control_threshold"@);
        } else if i == 33 {
            assert(fields[33].0 == "control_log_additive"@);
        } else if i == 34 {
            assert(fields[34].0 == "logit_bias"@);
        } else {
        }
    }
    lemma_sparse_lookup(fields, 0);
}

#[verifier::rlimit(100)]
proof fn lemma_field_hosting(r: CompletionRequest)
    ensures
        obj_lookup(r.spec_json(), "hosting"@) == opt_hosting_json(r.hosting),
{
    reveal_strlit("hosting");
    assert("hosting"@.len() == 7);
    reveal_strlit("model");
    assert("model"@.len() == 5);
    reveal_strlit("prompt");
    assert("prompt"@.len() == 6);
    reveal_strlit("maximum_tokens");
    assert("maximum_tokens"@.len() == 14);
    reveal_strlit("minimum_tokens");
    assert("minimum_tokens"@.len() == 14);
    reveal_strlit("echo");
    assert("echo"@.len() == 4);
    reveal_strlit("temperature");
    assert("temperature"@.len() == 11);
    reveal_strlit("top_k");
    assert("top_k"@.len() == 5);
    reveal_strlit("top_p");
    assert("top_p"@.len() == 5);
    reveal_strlit("presence_penalty");
    assert("presence_penalty"@.len() == 16);
    reveal_strlit("frequency_penalty");
    assert("frequency_penalty"@.len() == 17);
    reveal_strlit("sequence_penalty");
    assert("sequence_penalty"@.len() == 16);
    reveal_strlit("sequence_penalty_min_length");
    assert("sequence_penalty_min_length"@.len() == 27);
    reveal_strlit("repetition_penalties_include_prompt");
    assert("repetition_penalties_include_prompt"@.len() == 35);
    reveal_strlit("repetition_penalties_include_completion");
    assert("repetition_penalties_include_completion"@.len() == 39);
    reveal_strlit("use_multiplicative_presence_penalty");
    assert("use_multiplicative_presence_penalty"@.len() == 35);
    reveal_strlit("use_multiplicative_frequency_penalty");
    assert("use_multiplicative_frequency_penalty"@.len() == 36);
    reveal_strlit("use_multiplicative_sequence_penalty");
    assert("use_multiplicative_sequence_penalty"@.len() == 35);
    reveal_strlit("penalty_exceptions");
    assert("penalty_exceptions"@.len() == 18);
    reveal_strlit("penalty_bias");
    assert("penalty_bias"@.len() == 12);
    reveal_strlit("penalty_exceptions_include_stop_sequences");
    assert("penalty_exceptions_include_stop_sequences"@.len() == 41);
    reveal_strlit("best_of");
    assert("best_of"@.len() == 7);
    assert("hosting"@[0] != "best_of"@[0]);
    reveal_strlit("n");
    assert("n"@.len() == 1);
    reveal_strlit("log_probs");
    assert("log_probs"@.len() == 9);
    reveal_strlit("stop_sequences");
    assert("stop_sequences"@.len() == 14);
    reveal_strlit("tokens");
    assert("tokens"@.len() == 6);
    reveal_strlit("raw_completion");
    assert("raw_completion"@.len() == 14);
    reveal_strlit("disable_optimizations");
    assert("disable_optimizations"@.len() == 21);
    reveal_strlit("completion_bias_inclusion");
    assert("completion_bias_inclusion"@.len() == 25);
    reveal_strlit("completion_bias_inclusion_first_token_only");
    assert("completion_bias_inclusion_first_token_only"@.len() == 42);
    reveal_strlit("completion_bias_exclusion");
    assert("completion_bias_exclusion"@.len() == 25);
    reveal_strlit("completion_bias_exclusion_first_token_only");
    assert("completion_bias_exclusion_first_token_only"@.len() == 42);
    reveal_strlit("contextual_control_threshold");
    assert("contextual_control_threshold"@.len() == 28);
    reveal_strlit("control_log_additive");
    assert("control_log_additive"@.len() == 20);
    reveal_strlit("logit_bias");
    assert("logit_bias"@.len() == 10);
    let fields = r.spec_fields();
    assert(fields[1].0 == "hosting"@);
    assert forall|i: int| 0 <= i < fields.len() && i != 1 implies (#[trigger] fields[i]).0
        != fields[1].0 by {
        if i == 0 {
            assert(fields[0].0 == "model"@);
        } else if i == 2 {
            assert(fields[2].0 == "prompt"@);
        } else if i == 3 {
            assert(fields[3].0 == "maximum_tokens"@);
        } else if i == 4 {
            assert(fields[4].0 == "minimum_tokens"@);
        } else if i == 5 {
            assert(fields[5].0 == "echo"@);
        } else if i == 6 {
            assert(fields[6].0 == "temperature"@);
        } else if i == 7 {
            assert(fields[7].0 == "top_k"@);
        } else if i == 8 {
            assert(fields[8].0 == "top_p"@);
        } else if i == 9 {
            assert(fields[9].0 == "presence_penalty"@);
        } else if i == 10 {
            assert(fields[10].0 == "frequency_penalty"@);
        } else if i == 11 {
            assert(fields[11].0 == "sequence_penalty"@);
        } else if i == 12 {
            assert(fields[12].0 == "sequence_penalty_min_length"@);
        } else if i == 13 {
            assert(fields[13].0 == "repetition_penalties_include_prompt"@);
        } else if i == 14 {
            assert(fields[14].0 == "repetition_penalties_include_completion"@);
        } else if i == 15 {
            assert(fields[15].0 == "use_multiplicative_presence_penalty"@);
        } else if i == 16 {
            assert(fields[16].0 == "use_multiplicative_frequency_penalty"@);
        } else if i == 17 {
            assert(fields[17].0 == "use_multiplicative_sequence_penalty"@);
        } else if i == 18 {
            assert(fields[18].0 == "penalty_exceptions"@);
        } else if i == 19 {
            assert(fields[19].0 == "penalty_bias"@);
        } else if i == 20 {
            assert(fields[20].0 == "penalty_exceptions_include_stop_sequences"@);
        } else if i == 21 {
            assert(fields[21].0 == "best_of"@);
        } else if i == 22 {
            assert(fields[22].0 == "n"@);
        } else if i == 23 {
            assert(fields[23].0 == "log_probs"@);
        } else if i == 24 {
            assert(fields[24].0 == "stop_sequences"@);
        } else if i == 25 {
            assert(fields[25].0 == "tokens"@);
        } else if i == 26 {
            assert(fields[26].0 == "raw_completion"@);
        } else if i == 27 {
            assert(fields[27].0 == "disable_optimizations"@);
        } else if i == 28 {
            assert(fields[28].0 == "completion_bias_inclusion"@);
        } else if i == 29 {
            assert(fields[29].0 == "completion_bias_inclusion_first_token_only"@);
        } else if i == 30 {
            assert(fields[30].0 == "completion_bias_exclusion"@);
        } else if i == 31 {
            assert(fields[31].0 == "completion_bias_exclusion_first_token_only"@);
        } else if i == 32 {
            assert(fields[32].0 == "contextual_control_threshold"@);
        } else if i == 33 {
            assert(fields[33].0 == "control_log_additive"@);
        } else if i == 34 {
            assert(fields[34].0 == "logit_bias"@);
        } else {
        }
    }
    lemma_sparse_lookup(fields, 1);
}

#[verifier::rlimit(100)]
proof fn lemma_field_prompt(r: CompletionRequest)
    ensures
        obj_lookup(r.spec_json(), "prompt"@) == Option::Some(r.prompt.spec_json()),
{
    reveal_strlit("prompt");
    assert("prompt"@.len() == 6);
    reveal_strlit("model");
    assert("model"@.len() == 5);
    reveal_strlit("hosting");
    assert("hosting"@.len() == 7);
    reveal_strlit("maximum_tokens");
    assert("maximum_tokens"@.len() == 14);
    reveal_strlit("minimum_tokens");
    assert("minimum_tokens"@.len() == 14);
    reveal_strlit("echo");
    assert("echo"@.len() == 4);
    reveal_strlit("temperature");
    assert("temperature"@.len() == 11);
    reveal_strlit("top_k");
    assert("top_k"@.len() == 5);
    reveal_strlit("top_p");
    assert("top_p"@.len() == 5);
    reveal_strlit("presence_penalty");
    assert("presence_penalty"@.len() == 16);
    reveal_strlit("frequency_penalty");
    assert("frequency_penalty"@.len() == 17);
    reveal_strlit("sequence_penalty");
    assert("sequence_penalty"@.len() == 16);
    reveal_strlit("sequence_penalty_min_length");
    assert("sequence_penalty_min_length"@.len() == 27);
    reveal_strlit("repetition_penalties_include_prompt");
    assert("repetition_penalties_include_prompt"@.len() == 35);
    reveal_strlit("repetition_penalties_include_completion");
    assert("repetition_penalties_include_completion"@.len() == 39);
    reveal_strlit("use_multiplicative_presence_penalty");
    assert("use_multiplicative_presence_penalty"@.len() == 35);
    reveal_strlit("use_multiplicative_frequency_penalty");
    assert("use_multiplicative_frequency_penalty"@.len() == 36);
    reveal_strlit("use_multiplicative_sequence_penalty");
    assert("use_multiplicative_sequence_penalty"@.len() == 35);
    reveal_strlit("penalty_exceptions");
    assert("penalty_exceptions"@.len() == 18);
    reveal_strlit("penalty_bias");
    assert("penalty_bias"@.len() == 12);
    reveal_strlit("penalty_exceptions_include_stop_sequences");
    assert("penalty_exceptions_include_stop_sequences"@.len() == 41);
    reveal_strlit("best_of");
    assert("best_of"@.len() == 7);
    reveal_strlit("n");
    assert("n"@.len() == 1);
    reveal_strlit("log_probs");
    assert("log_probs"@.len() == 9);
    reveal_strlit("stop_sequences");
    assert("stop_sequences"@.len() == 14);
    reveal_strlit("tokens");
    assert("tokens"@.len() == 6);
    assert("prompt"@[0] != "tokens"@[0]);
    reveal_strlit("raw_completion");
    assert("raw_completion"@.len() == 14);
    reveal_strlit("disable_optimizations");
    assert("disable_optimizations"@.len() == 21);
    reveal_strlit("completion_bias_inclusion");
    assert("completion_bias_inclusion"@.len() == 25);
    reveal_strlit("completion_bias_inclusion_first_token_only");
    assert("completion_bias_inclusion_first_token_only"@.len() == 42);
    reveal_strlit("completion_bias_exclusion");
    assert("completion_bias_exclusion"@.len() == 25);
    reveal_strlit("completion_bias_exclusion_first_token_only");
    assert("completion_bias_exclusion_first_token_only"@.len() == 42);
    reveal_strlit("contextual_control_threshold");
    assert("contextual_control_threshold"@.len() == 28);
    reveal_strlit("control_log_additive");
    assert("control_log_additive"@.len() == 20);
    reveal_strlit("logit_bias");
    assert("logit_bias"@.len() == 10);
    let fields = r.spec_fields();
    assert(fields[2].0 == "prompt"@);
    assert forall|i: int| 0 <= i < fields.len() && i != 2 implies (#[trigger] fields[i]).0
        != fields[2].0 by {
        if i == 0 {
            assert(fields[0].0 == "model"@);
        } else if i == 1 {
            assert(fields[1].0 == "hosting"@);
        } else if i == 3 {
            assert(fields[3].0 == "maximum_tokens"@);
        } else if i == 4 {
            assert(fields[4].0 == "minimum_tokens"@);
        } else if i == 5 {
            assert(fields[5].0 == "echo"@);
        } else if i == 6 {
            assert(fields[6].0 == "temperature"@);
        } else if i == 7 {
            assert(fields[7].0 == "top_k"@);
        } else if i == 8 {
            assert(fields[8].0 == "top_p"@);
        } else if i == 9 {
            assert(fields[9].0 == "presence_penalty"@);
        } else if i == 10 {
            assert(fields[10].0 == "frequency_penalty"@);
        } else if i == 11 {
            assert(fields[11].0 == "sequence_penalty"@);
        } else if i == 12 {
            assert(fields[12].0 == "sequence_penalty_min_length"@);
        } else if i == 13 {
            assert(fields[13].0 == "repetition_penalties_include_prompt"@);
        } else if i == 14 {
            assert(fields[14].0 == "repetition_penalties_include_completion"@);
        } else if i == 15 {
            assert(fields[15].0 == "use_multiplicative_presence_penalty"@);
        } else if i == 16 {
            assert(fields[16].0 == "use_multiplicative_frequency_penalty"@);
        } else if i == 17 {
            assert(fields[17].0 == "use_multiplicative_sequence_penalty"@);
        } else if i == 18 {
            assert(fields[18].0 == "penalty_exceptions"@);
        } else if i == 19 {
            assert(fields[19].0 == "penalty_bias"@);
        } else if i == 20 {
            assert(fields[20].0 == "penalty_exceptions_include_stop_sequences"@);
        } else if i == 21 {
            assert(fields[21].0 == "best_of"@);
        } else if i == 22 {
            assert(fields[22].0 == "n"@);
        } else if i == 23 {
            assert(fields[23].0 == "log_probs"@);
        } else if i == 24 {
            assert(fields[24].0 == "stop_sequences"@);
        } else if i == 25 {
            assert(fields[25].0 == "tokens"@);
        } else if i == 26 {
            assert(fields[26].0 == "raw_completion"@);
        } else if i == 27 {
            assert(fields[27].0 == "disable_optimizations"@);
        } else if i == 28 {
            assert(fields[28].0 == "completion_bias_inclusion"@);
        } else if i == 29 {
            assert(fields[29].0 == "completion_bias_inclusion_first_token_only"@);
        } else if i == 30 {
            assert(fields[30].0 == "completion_bias_exclusion"@);
        } else if i == 31 {
            assert(fields[31].0 == "completion_bias_exclusion_first_token_only"@);
        } else if i == 32 {
            assert(fields[32].0 == "contextual_control_threshold"@);
        } else if i == 33 {
            assert(fields[33].0 == "control_log_additive"@);
        } else if i == 34 {
            assert(fields[34].0 == "logit_bias"@);
        } else {
        }
    }
    lemma_sparse_lookup(fields, 2);
}

#[verifier::rlimit(100)]
proof fn lemma_field_maximum_tokens(r: CompletionRequest)
    ensures
        obj_lookup(r.spec_json(), "maximum_tokens"@) == Option::Some(JsonVal::Num(int_lexeme(r.maximum_tokens as int))),
{
    reveal_strlit("maximum_tokens");
    assert("maximum_tokens"@.len() == 14);
    reveal_strlit("model");
    assert("model"@.len() == 5);
    reveal_strlit("hosting");
    assert("hosting"@.len() == 7);
    reveal_strlit("prompt");
    assert("prompt"@.len() == 6);
    reveal_strlit("minimum_tokens");
    assert("minimum_tokens"@.len() == 14);
    assert("maximum_tokens"@[1] != "minimum_tokens"@[1]);
    reveal_strlit("echo");
    assert("echo"@.len() == 4);
    reveal_strlit("temperature");
    assert("temperature"@.len() == 11);
    reveal_strlit("top_k");
    assert("top_k"@.len() == 5);
    reveal_strlit("top_p");
    assert("top_p"@.len() == 5);
    reveal_strlit("presence_penalty");
    assert("presence_penalty"@.len() == 16);
    reveal_strlit("frequency_penalty");
    assert("frequency_penalty"@.len() == 17);
    reveal_strlit("sequence_penalty");
    assert("sequence_penalty"@.len() == 16);
    reveal_strlit("sequence_penalty_min_length");
    assert("sequence_penalty_min_length"@.len() == 27);
    reveal_strlit("repetition_penalties_include_prompt");
    assert("repetition_penalties_include_prompt"@.len() == 35);
    reveal_strlit("repetition_penalties_include_completion");
    assert("repetition_penalties_include_completion"@.len() == 39);
    reveal_strlit("use_multiplicative_presence_penalty");
    assert("use_multiplicative_presence_penalty"@.len() == 35);
    reveal_strlit("use_multiplicative_frequency_penalty");
    assert("use_multiplicative_frequency_penalty"@.len() == 36);
    reveal_strlit("use_multiplicative_sequence_penalty");
    assert("use_multiplicative_sequence_penalty"@.len() == 35);
    reveal_strlit("penalty_exceptions");
    assert("penalty_exceptions"@.len() == 18);
    reveal_strlit("penalty_bias");
    assert("penalty_bias"@.len() == 12);
    reveal_strlit("penalty_exceptions_include_stop_sequences");
    assert("penalty_exceptions_include_stop_sequences"@.len() == 41);
    reveal_strlit("best_of");
    assert("best_of"@.len() == 7);
    reveal_strlit("n");
    assert("n"@.len() == 1);
    reveal_strlit("log_probs");
    assert("log_probs"@.len() == 9);
    reveal_strlit("stop_sequences");
    assert("stop_sequences"@.len() == 14);
    assert("maximum_tokens"@[0] != "stop_sequences"@[0]);
    reveal_strlit("tokens");
    assert("tokens"@.len() == 6);
    reveal_strlit("raw_completion");
    assert("raw_completion"@.len() == 14);
    assert("maximum_tokens"@[0] != "raw_completion"@[0]);
    reveal_strlit("disable_optimizations");
    assert("disable_optimizations"@.len() == 21);
    reveal_strlit("completion_bias_inclusion");
    assert("completion_bias_inclusion"@.len() == 25);
    reveal_strlit("completion_bias_inclusion_first_token_only");
    assert("completion_bias_inclusion_first_token_only"@.len() == 42);
    reveal_strlit("completion_bias_exclusion");
    assert("completion_bias_exclusion"@.len() == 25);
    reveal_strlit("completion_bias_exclusion_first_token_only");
    assert("completion_bias_exclusion_first_token_only"@.len() == 42);
    reveal_strlit("contextual_control_threshold");
    assert("contextual_control_threshold"@.len() == 28);
    reveal_strlit("control_log_additive");
    assert("control_log_additive"@.len() == 20);
    reveal_strlit("logit_bias");
    assert("logit_bias"@.len() == 10);
    let fields = r.spec_fields();
    assert(fields[3].0 == "maximum_tokens"@);
    assert forall|i: int| 0 <= i < fields.len() && i != 3 implies (#[trigger] fields[i]).0
        != fields[3].0 by {
        if i == 0 {
            assert(fields[0].0 == "model"@);
        } else if i == 1 {
            assert(fields[1].0 == "hosting"@);
        } else if i == 2 {
            assert(fields[2].0 == "prompt"@);
        } else if i == 4 {
            assert(fields[4].0 == "minimum_tokens"@);
        } else if i == 5 {
            assert(fields[5].0 == "echo"@);
        } else if i == 6 {
            assert(fields[6].0 == "temperature"@);
        } else if i == 7 {
            assert(fields[7].0 == "top_k"@);
        } else if i == 8 {
            assert(fields[8].0 == "top_p"@);
        } else if i == 9 {
            assert(fields[9].0 == "presence_penalty"@);
        } else if i == 10 {
            assert(fields[10].0 == "frequency_penalty"@);
        } else if i == 11 {
            assert(fields[11].0 == "sequence_penalty"@);
        } else if i == 12 {
            assert(fields[12].0 == "sequence_penalty_min_length"@);
        } else if i == 13 {
            assert(fields[13].0 == "repetition_penalties_include_prompt"@);
        } else if i == 14 {
            assert(fields[14].0 == "repetition_penalties_include_completion"@);
        } else if i == 15 {
            assert(fields[15].0 == "use_multiplicative_presence_penalty"@);
        } else if i == 16 {
            assert(fields[16].0 == "use_multiplicative_frequency_penalty"@);
        } else if i == 17 {
            assert(fields[17].0 == "use_multiplicative_sequence_penalty"@);
        } else if i == 18 {
            assert(fields[18].0 == "penalty_exceptions"@);
        } else if i == 19 {
            assert(fields[19].0 == "penalty_bias"@);
        } else if i == 20 {
            assert(fields[20].0 == "penalty_exceptions_include_stop_sequences"@);
        } else if i == 21 {
            assert(fields[21].0 == "best_of"@);
        } else if i == 22 {
            assert(fields[22].0 == "n"@);
        } else if i == 23 {
            assert(fields[23].0 == "log_probs"@);
        } else if i == 24 {
            assert(fields[24].0 == "stop_sequences"@);
        } else if i == 25 {
            assert(fields[25].0 == "tokens"@);
        } else if i == 26 {
            assert(fields[26].0 == "raw_completion"@);
        } else if i == 27 {
            assert(fields[27].0 == "disable_optimizations"@);
        } else if i == 28 {
            assert(fields[28].0 == "completion_bias_inclusion"@);
        } else if i == 29 {
            assert(fields[29].0 == "completion_bias_inclusion_first_token_only"@);
        } else if i == 30 {
            assert(fields[30].0 == "completion_bias_exclusion"@);
        } else if i == 31 {
            assert(fields[31].0 == "completion_bias_exclusion_first_token_only"@);
        } else if i == 32 {
            assert(fields[32].0 == "contextual_control_threshold"@);
        } else if i == 33 {
            assert(fields[33].0 == "control_log_additive"@);
        } else if i == 34 {
            assert(fields[34].0 == "logit_bias"@);
        } else {
        }
    }
    lemma_sparse_lookup(fields, 3);
}

#[verifier::rlimit(100)]
proof fn lemma_field_minimum_tokens(r: CompletionRequest)
    ensures
        obj_lookup(r.spec_json(), "minimum_tokens"@) == opt_u32_json(r.minimum_tokens),
{
    reveal_strlit("minimum_tokens");
    assert("minimum_tokens"@.len() == 14);
    reveal_strlit("model");
    assert("model"@.len() == 5);
    reveal_strlit("hosting");
    assert("hosting"@.len() == 7);
    reveal_strlit("prompt");
    assert("prompt"@.len() == 6);
    reveal_strlit("maximum_tokens");
    assert("maximum_tokens"@.len() == 14);
    assert("minimum_tokens"@[1] != "maximum_tokens"@[1]);
    reveal_strlit("echo");
    assert("echo"@.len() == 4);
    reveal_strlit("temperature");
    assert("temperature"@.len() == 11);
    reveal_strlit("top_k");
    assert("top_k"@.len() == 5);
    reveal_strlit("top_p");
    assert("top_p"@.len() == 5);
    reveal_strlit("presence_penalty");
    assert("presence_penalty"@.len() == 16);
    reveal_strlit("frequency_penalty");
    assert("frequency_penalty"@.len() == 17);
    reveal_strlit("sequence_penalty");
    assert("sequence_penalty"@.len() == 16);
    reveal_strlit("sequence_penalty_min_length");
    assert("sequence_penalty_min_length"@.len() == 27);
    reveal_strlit("repetition_penalties_include_prompt");
    assert("repetition_penalties_include_prompt"@.len() == 35);
    reveal_strlit("repetition_penalties_include_completion");
    assert("repetition_penalties_include_completion"@.len() == 39);
    reveal_strlit("use_multiplicative_presence_penalty");
    assert("use_multiplicative_presence_penalty"@.len() == 35);
    reveal_strlit("use_multiplicative_frequency_penalty");
    assert("use_multiplicative_frequency_penalty"@.len() == 36);
    reveal_strlit("use_multiplicative_sequence_penalty");
    assert("use_multiplicative_sequence_penalty"@.len() == 35);
    reveal_strlit("penalty_exceptions");
    assert("penalty_exceptions"@.len() == 18);
    reveal_strlit("penalty_bias");
    assert("penalty_bias"@.len() == 12);
    reveal_strlit("penalty_exceptions_include_stop_sequences");
    assert("penalty_exceptions_include_stop_sequences"@.len() == 41);
    reveal_strlit("best_of");
    assert("best_of"@.len() == 7);
    reveal_strlit("n");
    assert("n"@.len() == 1);
    reveal_strlit("log_probs");
    assert("log_probs"@.len() == 9);
    reveal_strlit("stop_sequences");
    assert("stop_sequences"@.len() == 14);
    assert("minimum_tokens"@[0] != "stop_sequences"@[0]);
    reveal_strlit("tokens");
    assert("tokens"@.len() == 6);
    reveal_strlit("raw_completion");
    assert("raw_completion"@.len() == 14);
    assert("minimum_tokens"@[0] != "raw_completion"@[0]);
    reveal_strlit("disable_optimizations");
    assert("disable_optimizations"@.len() == 21);
    reveal_strlit("completion_bias_inclusion");
    assert("completion_bias_inclusion"@.len() == 25);
    reveal_strlit("completion_bias_inclusion_first_token_only");
    assert("completion_bias_inclusion_first_token_only"@.len() == 42);
    reveal_strlit("completion_bias_exclusion");
    assert("completion_bias_exclusion"@.len() == 25);
    reveal_strlit("completion_bias_exclusion_first_token_only");
    assert("completion_bias_exclusion_first_token_only"@.len() == 42);
    reveal_strlit("contextual_control_threshold");
    assert("contextual_control_threshold"@.len() == 28);
    reveal_strlit("control_log_additive");
    assert("control_log_additive"@.len() == 20);
    reveal_strlit("logit_bias");
    assert("logit_bias"@.len() == 10);
    let fields = r.spec_fields();
    assert(fields[4].0 == "minimum_tokens"@);
    assert forall|i: int| 0 <= i < fields.len() && i != 4 implies (#[trigger] fields[i]).0
        != fields[4].0 by {
        if i == 0 {
            assert(fields[0].0 == "model"@);
        } else if i == 1 {
            assert(fields[1].0 == "hosting"@);
        } else if i == 2 {
            assert(fields[2].0 == "prompt"@);
        } else if i == 3 {
            assert(fields[3].0 == "maximum_tokens"@);
        } else if i == 5 {
            assert(fields[5].0 == "echo"@);
        } else if i == 6 {
            assert(fields[6].0 == "temperature"@);
        } else if i == 7 {
            assert(fields[7].0 == "top_k"@);
        } else if i == 8 {
            assert(fields[8].0 == "top_p"@);
        } else if i == 9 {
            assert(fields[9].0 == "presence_penalty"@);
        } else if i == 10 {
            assert(fields[10].0 == "frequency_penalty"@);
        } else if i == 11 {
            assert(fields[11].0 == "sequence_penalty"@);
        } else if i == 12 {
            assert(fields[12].0 == "sequence_penalty_min_length"@);
        } else if i == 13 {
            assert(fields[13].0 == "repetition_penalties_include_prompt"@);
        } else if i == 14 {
            assert(fields[14].0 == "repetition_penalties_include_completion"@);
        } else if i == 15 {
            assert(fields[15].0 == "use_multiplicative_presence_penalty"@);
        } else if i == 16 {
            assert(fields[16].0 == "use_multiplicative_frequency_penalty"@);
        } else if i == 17 {
            assert(fields[17].0 == "use_multiplicative_sequence_penalty"@);
        } else if i == 18 {
            assert(fields[18].0 == "penalty_exceptions"@);
        } else if i == 19 {
            assert(fields[19].0 == "penalty_bias"@);
        } else if i == 20 {
            assert(fields[20].0 == "penalty_exceptions_include_stop_sequences"@);
        } else if i == 21 {
            assert(fields[21].0 == "best_of"@);
        } else if i == 22 {
            assert(fields[22].0 == "n"@);
        } else if i == 23 {
            assert(fields[23].0 == "log_probs"@);
        } else if i == 24 {
            assert(fields[24].0 == "stop_sequences"@);
        } else if i == 25 {
            assert(fields[25].0 == "tokens"@);
        } else if i == 26 {
            assert(fields[26].0 == "raw_completion"@);
        } else if i == 27 {
            assert(fields[27].0 == "disable_optimizations"@);
        } else if i == 28 {
            assert(fields[28].0 == "completion_bias_inclusion"@);
        } else if i == 29 {
            assert(fields[29].0 == "completion_bias_inclusion_first_token_only"@);
        } else if i == 30 {
            assert(fields[30].0 == "completion_bias_exclusion"@);
        } else if i == 31 {
            assert(fields[31].0 == "completion_bias_exclusion_first_token_only"@);
        } else if i == 32 {
            assert(fields[32].0 == "contextual_control_threshold"@);
        } else if i == 33 {
            assert(fields[33].0 == "control_log_additive"@);
        } else if i == 34 {
            assert(fields[34].0 == "logit_bias"@);
        } else {
        }
    }
    lemma_sparse_lookup(fields, 4);
}

#[verifier::rlimit(100)]
proof fn lemma_field_echo(r: CompletionRequest)
    ensures
        obj_lookup(r.spec_json(), "echo"@) == opt_bool_json(r.echo),
{
    reveal_strlit("echo");
    assert("echo"@.len() == 4);
    reveal_strlit("model");
    assert("model"@.len() == 5);
    reveal_strlit("hosting");
    assert("hosting"@.len() == 7);
    reveal_strlit("prompt");
    assert("prompt"@.len() == 6);
    reveal_strlit("maximum_tokens");
    assert("maximum_tokens"@.len() == 14);
    reveal_strlit("minimum_tokens");
    assert("minimum_tokens"@.len() == 14);
    reveal_strlit("temperature");
    assert("temperature"@.len() == 11);
    reveal_strlit("top_k");
    assert("top_k"@.len() == 5);
    reveal_strlit("top_p");
    assert("top_p"@.len() == 5);
    reveal_strlit("presence_penalty");
    assert("presence_penalty"@.len() == 16);
    reveal_strlit("frequency_penalty");
    assert("frequency_penalty"@.len() == 17);
    reveal_strlit("sequence_penalty");
    assert("sequence_penalty"@.len() == 16);
    reveal_strlit("sequence_penalty_min_length");
    assert("sequence_penalty_min_length"@.len() == 27);
    reveal_strlit("repetition_penalties_include_prompt");
    assert("repetition_penalties_include_prompt"@.len() == 35);
    reveal_strlit("repetition_penalties_include_completion");
    assert("repetition_penalties_include_completion"@.len() == 39);
    reveal_strlit("use_multiplicative_presence_penalty");
    assert("use_multiplicative_presence_penalty"@.len() == 35);
    reveal_strlit("use_multiplicative_frequency_penalty");
    assert("use_multiplicative_frequency_penalty"@.len() == 36);
    reveal_strlit("use_multiplicative_sequence_penalty");
    assert("use_multiplicative_sequence_penalty"@.len() == 35);
    reveal_strlit("penalty_exceptions");
    assert("penalty_exceptions"@.len() == 18);
    reveal_strlit("penalty_bias");
    assert("penalty_bias"@.len() == 12);
    reveal_strlit("penalty_exceptions_include_stop_sequences");
    assert("penalty_exceptions_include_stop_sequences"@.len() == 41);
    reveal_strlit("best_of");
    assert("best_of"@.len() == 7);
    reveal_strlit("n");
    assert("n"@.len() == 1);
    reveal_strlit("log_probs");
    assert("log_probs"@.len() == 9);
    reveal_strlit("stop_sequences");
    assert("stop_sequences"@.len() == 14);
    reveal_strlit("tokens");
    assert("tokens"@.len() == 6);
    reveal_strlit("raw_completion");
    assert("raw_completion"@.len() == 14);
    reveal_strlit("disable_optimizations");
    assert("disable_optimizations"@.len() == 21);
    reveal_strlit("completion_bias_inclusion");
    assert("completion_bias_inclusion"@.len() == 25);
    reveal_strlit("completion_bias_inclusion_first_token_only");
    assert("completion_bias_inclusion_first_token_only"@.len() == 42);
    reveal_strlit("completion_bias_exclusion");
    assert("completion_bias_exclusion"@.len() == 25);
    reveal_strlit("completion_bias_exclusion_first_token_only");
    assert("completion_bias_exclusion_first_token_only"@.len() == 42);
    reveal_strlit("contextual_control_threshold");
    assert("contextual_control_threshold"@.len() == 28);
    reveal_strlit("control_log_additive");
    assert("control_log_additive"@.len() == 20);
    reveal_strlit("logit_bias");
    assert("logit_bias"@.len() == 10);
    let fields = r.spec_fields();
    assert(fields[5].0 == "echo"@);
    assert forall|i: int| 0 <= i < fields.len() && i != 5 implies (#[trigger] fields[i]).0
        != fields[5].0 by {
        if i == 0 {
            assert(fields[0].0 == "model"@);
        } else if i == 1 {
            assert(fields[1].0 == "hosting"@);
        } else if i == 2 {
            assert(fields[2].0 == "prompt"@);
        } else if i == 3 {
            assert(fields[3].0 == "maximum_tokens"@);
        } else if i == 4 {
            assert(fields[4].0 == "minimum_tokens"@);
        } else if i == 6 {
            assert(fields[6].0 == "temperature"@);
        } else if i == 7 {
            assert(fields[7].0 == "top_k"@);
        } else if i == 8 {
            assert(fields[8].0 == "top_p"@);
        } else if i == 9 {
            assert(fields[9].0 == "presence_penalty"@);
        } else if i == 10 {
            assert(fields[10].0 == "frequency_penalty"@);
        } else if i == 11 {
            assert(fields[11].0 == "sequence_penalty"@);
        } else if i == 12 {
            assert(fields[12].0 == "sequence_penalty_min_length"@);
        } else if i == 13 {
            assert(fields[13].0 == "repetition_penalties_include_prompt"@);
        } else if i == 14 {
            assert(fields[14].0 == "repetition_penalties_include_completion"@);
        } else if i == 15 {
            assert(fields[15].0 == "use_multiplicative_presence_penalty"@);
        } else if i == 16 {
            assert(fields[16].0 == "use_multiplicative_frequency_penalty"@);
        } else if i == 17 {
            assert(fields[17].0 == "use_multiplicative_sequence_penalty"@);
        } else if i == 18 {
            assert(fields[18].0 == "penalty_exceptions"@);
        } else if i == 19 {
            assert(fields[19].0 == "penalty_bias"@);
        } else if i == 20 {
            assert(fields[20].0 == "penalty_exceptions_include_stop_sequences"@);
        } else if i == 21 {
            assert(fields[21].0 == "best_of"@);
        } else if i == 22 {
            assert(fields[22].0 == "n"@);
        } else if i == 23 {
            assert(fields[23].0 == "log_probs"@);
        } else if i == 24 {
            assert(fields[24].0 == "stop_sequences"@);
        } else if i == 25 {
            assert(fields[25].0 == "tokens"@);
        } else if i == 26 {
            assert(fields[26].0 == "raw_completion"@);
        } else if i == 27 {
            assert(fields[27].0 == "disable_optimizations"@);
        } else if i == 28 {
            assert(fields[28].0 == "completion_bias_inclusion"@);
        } else if i == 29 {
            assert(fields[29].0 == "completion_bias_inclusion_first_token_only"@);
        } else if i == 30 {
            assert(fields[30].0 == "completion_bias_exclusion"@);
        } else if i == 31 {
            assert(fields[31].0 == "completion_bias_exclusion_first_token_only"@);
        } else if i == 32 {
            assert(fields[32].0 == "contextual_control_threshold"@);
        } else if i == 33 {
            assert(fields[33].0 == "control_log_additive"@);
        } else if i == 34 {
            assert(fields[34].0 == "logit_bias"@);
        } else {
        }
    }
    lemma_sparse_lookup(fields, 5);
}

#[verifier::rlimit(100)]
proof fn lemma_field_temperature(r: CompletionRequest)
    ensures
        obj_lookup(r.spec_json(), "temperature"@) == opt_num_json(r.temperature),
{
    reveal_strlit("temperature");
    assert("temperature"@.len() == 11);
    reveal_strlit("model");
    assert("model"@.len() == 5);
    reveal_strlit("hosting");
    assert("hosting"@.len() == 7);
    reveal_strlit("prompt");
    assert("prompt"@.len() == 6);
    reveal_strlit("maximum_tokens");
    assert("maximum_tokens"@.len() == 14);
    reveal_strlit("minimum_tokens");
    assert("minimum_tokens"@.len() == 14);
    reveal_strlit("echo");
    assert("echo"@.len() == 4);
    reveal_strlit("top_k");
    assert("top_k"@.len() == 5);
    reveal_strlit("top_p");
    assert("top_p"@.len() == 5);
    reveal_strlit("presence_penalty");
    assert("presence_penalty"@.len() == 16);
    reveal_strlit("frequency_penalty");
    assert("frequency_penalty"@.len() == 17);
    reveal_strlit("sequence_penalty");
    assert("sequence_penalty"@.len() == 16);
    reveal_strlit("sequence_penalty_min_length");
    assert("sequence_penalty_min_length"@.len() == 27);
    reveal_strlit("repetition_penalties_include_prompt");
    assert("repetition_penalties_include_prompt"@.len() == 35);
    reveal_strlit("repetition_penalties_include_completion");
    assert("repetition_penalties_include_completion"@.len() == 39);
    reveal_strlit("use_multiplicative_presence_penalty");
    assert("use_multiplicative_presence_penalty"@.len() == 35);
    reveal_strlit("use_multiplicative_frequency_penalty");
    assert("use_multiplicative_frequency_penalty"@.len() == 36);
    reveal_strlit("use_multiplicative_sequence_penalty");
    assert("use_multiplicative_sequence_penalty"@.len() == 35);
    reveal_strlit("penalty_exceptions");
    assert("penalty_exceptions"@.len() == 18);
    reveal_strlit("penalty_bias");
    assert("penalty_bias"@.len() == 12);
    reveal_strlit("penalty_exceptions_include_stop_sequences");
    assert("penalty_exceptions_include_stop_sequences"@.len() == 41);
    reveal_strlit("best_of");
    assert("best_of"@.len() == 7);
    reveal_strlit("n");
    assert("n"@.len() == 1);
    reveal_strlit("log_probs");
    assert("log_probs"@.len() == 9);
    reveal_strlit("stop_sequences");
    assert("stop_sequences"@.len() == 14);
    reveal_strlit("tokens");
    assert("tokens"@.len() == 6);
    reveal_strlit("raw_completion");
    assert("raw_completion"@.len() == 14);
    reveal_strlit("disable_optimizations");
    assert("disable_optimizations"@.len() == 21);
    reveal_strlit("completion_bias_inclusion");
    assert("completion_bias_inclusion"@.len() == 25);
    reveal_strlit("completion_bias_inclusion_first_token_only");
    assert("completion_bias_inclusion_first_token_only"@.len() == 42);
    reveal_strlit("completion_bias_exclusion");
    assert("completion_bias_exclusion"@.len() == 25);
    reveal_strlit("completion_bias_exclusion_first_token_only");
    assert("completion_bias_exclusion_first_token_only"@.len() == 42);
    reveal_strlit("contextual_control_threshold");
    assert("contextual_control_threshold"@.len() == 28);
    reveal_strlit("control_log_additive");
    assert("control_log_additive"@.len() == 20);
    reveal_strlit("logit_bias");
    assert("logit_bias"@.len() == 10);
    let fields = r.spec_fields();
    assert(fields[6].0 == "temperature"@);
    assert forall|i: int| 0 <= i < fields.len() && i != 6 implies (#[trigger] fields[i]).0
        != fields[6].0 by {
        if i == 0 {
            assert(fields[0].0 == "model"@);
        } else if i == 1 {
            assert(fields[1].0 == "hosting"@);
        } else if i == 2 {
            assert(fields[2].0 == "prompt"@);
        } else if i == 3 {
            assert(fields[3].0 == "maximum_tokens"@);
        } else if i == 4 {
            assert(fields[4].0 == "minimum_tokens"@);
        } else if i == 5 {
            assert(fields[5].0 == "echo"@);
        } else if i == 7 {
            assert(fields[7].0 == "top_k"@);
        } else if i == 8 {
            assert(fields[8].0 == "top_p"@);
        } else if i == 9 {
            assert(fields[9].0 == "presence_penalty"@);
        } else if i == 10 {
            assert(fields[10].0 == "frequency_penalty"@);
        } else if i == 11 {
            assert(fields[11].0 == "sequence_penalty"@);
        } else if i == 12 {
            assert(fields[12].0 == "sequence_penalty_min_length"@);
        } else if i == 13 {
            assert(fields[13].0 == "repetition_penalties_include_prompt"@);
        } else if i == 14 {
            assert(fields[14].0 == "repetition_penalties_include_completion"@);
        } else if i == 15 {
            assert(fields[15].0 == "use_multiplicative_presence_penalty"@);
        } else if i == 16 {
            assert(fields[16].0 == "use_multiplicative_frequency_penalty"@);
        } else if i == 17 {
            assert(fields[17].0 == "use_multiplicative_sequence_penalty"@);
        } else if i == 18 {
            assert(fields[18].0 == "penalty_exceptions"@);
        } else if i == 19 {
            assert(fields[19].0 == "penalty_bias"@);
        } else if i == 20 {
            assert(fields[20].0 == "penalty_exceptions_include_stop_sequences"@);
        } else if i == 21 {
            assert(fields[21].0 == "best_of"@);
        } else if i == 22 {
            assert(fields[22].0 == "n"@);
        } else if i == 23 {
            assert(fields[23].0 == "log_probs"@);
        } else if i == 24 {
            assert(fields[24].0 == "stop_sequences"@);
        } else if i == 25 {
            assert(fields[25].0 == "tokens"@);
        } else if i == 26 {
            assert(fields[26].0 == "raw_completion"@);
        } else if i == 27 {
            assert(fields[27].0 == "disable_optimizations"@);
        } else if i == 28 {
            assert(fields[28].0 == "completion_bias_inclusion"@);
        } else if i == 29 {
            assert(fields[29].0 == "completion_bias_inclusion_first_token_only"@);
        } else if i == 30 {
            assert(fields[30].0 == "completion_bias_exclusion"@);
        } else if i == 31 {
            assert(fields[31].0 == "completion_bias_exclusion_first_token_only"@);
        } else if i == 32 {
            assert(fields[32].0 == "contextual_control_threshold"@);
        } else if i == 33 {
            assert(fields[33].0 == "control_log_additive"@);
        } else if i == 34 {
            assert(fields[34].0 == "logit_bias"@);
        } else {
        }
    }
    lemma_sparse_lookup(fields, 6);
}

#[verifier::rlimit(100)]
proof fn lemma_field_top_k(r: CompletionRequest)
    ensures
        obj_lookup(r.spec_json(), "top_k"@) == opt_u32_json(r.top_k),
{
    reveal_strlit("top_k");
    assert("top_k"@.len() == 5);
    reveal_strlit("model");
    assert("model"@.len() == 5);
    assert("top_k"@[0] != "model"@[0]);
    reveal_strlit("hosting");
    assert("hosting"@.len() == 7);
    reveal_strlit("prompt");
    assert("prompt"@.len() == 6);
    reveal_strlit("maximum_tokens");
    assert("maximum_tokens"@.len() == 14);
    reveal_strlit("minimum_tokens");
    assert("minimum_tokens"@.len() == 14);
    reveal_strlit("echo");
    assert("echo"@.len() == 4);
    reveal_strlit("temperature");
    assert("temperature"@.len() == 11);
    reveal_strlit("top_p");
    assert("top_p"@.len() == 5);
    assert("top_k"@[4] != "top_p"@[4]);
    reveal_strlit("presence_penalty");
    assert("presence_penalty"@.len() == 16);
    reveal_strlit("frequency_penalty");
    assert("frequency_penalty"@.len() == 17);
    reveal_strlit("sequence_penalty");
    assert("sequence_penalty"@.len() == 16);
    reveal_strlit("sequence_penalty_min_length");
    assert("sequence_penalty_min_length"@.len() == 27);
    reveal_strlit("repetition_penalties_include_prompt");
    assert("repetition_penalties_include_prompt"@.len() == 35);
    reveal_strlit("repetition_penalties_include_completion");
    assert("repetition_penalties_include_completion"@.len() == 39);
    reveal_strlit("use_multiplicative_presence_penalty");
    assert("use_multiplicative_presence_penalty"@.len() == 35);
    reveal_strlit("use_multiplicative_frequency_penalty");
    assert("use_multiplicative_frequency_penalty"@.len() == 36);
    reveal_strlit("use_multiplicative_sequence_penalty");
    assert("use_multiplicative_sequence_penalty"@.len() == 35);
    reveal_strlit("penalty_exceptions");
    assert("penalty_exceptions"@.len() == 18);
    reveal_strlit("penalty_bias");
    assert("penalty_bias"@.len() == 12);
    reveal_strlit("penalty_exceptions_include_stop_sequences");
    assert("penalty_exceptions_include_stop_sequences"@.len() == 41);
    reveal_strlit("best_of");
    assert("best_of"@.len() == 7);
    reveal_strlit("n");
    assert("n"@.len() == 1);
    reveal_strlit("log_probs");
    assert("log_probs"@.len() == 9);
    reveal_strlit("stop_sequences");
    assert("stop_sequences"@.len() == 14);
    reveal_strlit("tokens");
    assert("tokens"@.len() == 6);
    reveal_strlit("raw_completion");
    assert("raw_completion"@.len() == 14);
    reveal_strlit("disable_optimizations");
    assert("disable_optimizations"@.len() == 21);
    reveal_strlit("completion_bias_inclusion");
    assert("completion_bias_inclusion"@.len() == 25);
    reveal_strlit("completion_bias_inclusion_first_token_only");
    assert("completion_bias_inclusion_first_token_only"@.len() == 42);
    reveal_strlit("completion_bias_exclusion");
    assert("completion_bias_exclusion"@.len() == 25);
    reveal_strlit("completion_bias_exclusion_first_token_only");
    assert("completion_bias_exclusion_first_token_only"@.len() == 42);
    reveal_strlit("contextual_control_threshold");
    assert("contextual_control_threshold"@.len() == 28);
    reveal_strlit("control_log_additive");
    assert("control_log_additive"@.len() == 20);
    reveal_strlit("logit_bias");
    assert("logit_bias"@.len() == 10);
    let fields = r.spec_fields();
    assert(fields[7].0 == "top_k"@);
    assert forall|i: int| 0 <= i < fields.len() && i != 7 implies (#[trigger] fields[i]).0
        != fields[7].0 by {
        if i == 0 {
            assert(fields[0].0 == "model"@);
        } else if i == 1 {
            assert(fields[1].0 == "hosting"@);
        } else if i == 2 {
            assert(fields[2].0 == "prompt"@);
        } else if i == 3 {
            assert(fields[3].0 == "maximum_tokens"@);
        } else if i == 4 {
            assert(fields[4].0 == "minimum_tokens"@);
        } else if i == 5 {
            assert(fields[5].0 == "echo"@);
        } else if i == 6 {
            assert(fields[6].0 == "temperature"@);
        } else if i == 8 {
            assert(fields[8].0 == "top_p"@);
        } else if i == 9 {
            assert(fields[9].0 == "presence_penalty"@);
        } else if i == 10 {
            assert(fields[10].0 == "frequency_penalty"@);
        } else if i == 11 {
            assert(fields[11].0 == "sequence_penalty"@);
        } else if i == 12 {
            assert(fields[12].0 == "sequence_penalty_min_length"@);
        } else if i == 13 {
            assert(fields[13].0 == "repetition_penalties_include_prompt"@);
        } else if i == 14 {
            assert(fields[14].0 == "repetition_penalties_include_completion"@);
        } else if i == 15 {
            assert(fields[15].0 == "use_multiplicative_presence_penalty"@);
        } else if i == 16 {
            assert(fields[16].0 == "use_multiplicative_frequency_penalty"@);
        } else if i == 17 {
            assert(fields[17].0 == "use_multiplicative_sequence_penalty"@);
        } else if i == 18 {
            assert(fields[18].0 == "penalty_exceptions"@);
        } else if i == 19 {
            assert(fields[19].0 == "penalty_bias"@);
        } else if i == 20 {
            assert(fields[20].0 == "penalty_exceptions_include_stop_sequences"@);
        } else if i == 21 {
            assert(fields[21].0 == "best_of"@);
        } else if i == 22 {
            assert(fields[22].0 == "n"@);
        } else if i == 23 {
            assert(fields[23].0 == "log_probs"@);
        } else if i == 24 {
            assert(fields[24].0 == "stop_sequences"@);
        } else if i == 25 {
            assert(fields[25].0 == "tokens"@);
        } else if i == 26 {
            assert(fields[26].0 == "raw_completion"@);
        } else if i == 27 {
            assert(fields[27].0 == "disable_optimizations"@);
        } else if i == 28 {
            assert(fields[28].0 == "completion_bias_inclusion"@);
        } else if i == 29 {
            assert(fields[29].0 == "completion_bias_inclusion_first_token_only"@);
        } else if i == 30 {
            assert(fields[30].0 == "completion_bias_exclusion"@);
        } else if i == 31 {
            assert(fields[31].0 == "completion_bias_exclusion_first_token_only"@);
        } else if i == 32 {
            assert(fields[32].0 == "contextual_control_threshold"@);
        } else if i == 33 {
            assert(fields[33].0 == "control_log_additive"@);
        } else if i == 34 {
            assert(fields[34].0 == "logit_bias"@);
        } else {
        }
    }
    lemma_sparse_lookup(fields, 7);
}

#[verifier::rlimit(100)]
proof fn lemma_field_top_p(r: CompletionRequest)
    ensures
        obj_lookup(r.spec_json(), "top_p"@) == opt_num_json(r.top_p),
{
    reveal_strlit("top_p");
    assert("top_p"@.len() == 5);
    reveal_strlit("model");
    assert("model"@.len() == 5);
    assert("top_p"@[0] != "model"@[0]);
    reveal_strlit("hosting");
    assert("hosting"@.len() == 7);
    reveal_strlit("prompt");
    assert("prompt"@.len() == 6);
    reveal_strlit("maximum_tokens");
    assert("maximum_tokens"@.len() == 14);
    reveal_strlit("minimum_tokens");
    assert("minimum_tokens"@.len() == 14);
    reveal_strlit("echo");
    assert("echo"@.len() == 4);
    reveal_strlit("temperature");
    assert("temperature"@.len() == 11);
    reveal_strlit("top_k");
    assert("top_k"@.len() == 5);
    assert("top_p"@[4] != "top_k"@[4]);
    reveal_strlit("presence_penalty");
    assert("presence_penalty"@.len() == 16);
    reveal_strlit("frequency_penalty");
    assert("frequency_penalty"@.len() == 17);
    reveal_strlit("sequence_penalty");
    assert("sequence_penalty"@.len() == 16);
    reveal_strlit("sequence_penalty_min_length");
    assert("sequence_penalty_min_length"@.len() == 27);
    reveal_strlit("repetition_penalties_include_prompt");
    assert("repetition_penalties_include_prompt"@.len() == 35);
    reveal_strlit("repetition_penalties_include_completion");
    assert("repetition_penalties_include_completion"@.len() == 39);
    reveal_strlit("use_multiplicative_presence_penalty");
    assert("use_multiplicative_presence_penalty"@.len() == 35);
    reveal_strlit("use_multiplicative_frequency_penalty");
    assert("use_multiplicative_frequency_penalty"@.len() == 36);
    reveal_strlit("use_multiplicative_sequence_penalty");
    assert("use_multiplicative_sequence_penalty"@.len() == 35);
    reveal_strlit("penalty_exceptions");
    assert("penalty_exceptions"@.len() == 18);
    reveal_strlit("penalty_bias");
    assert("penalty_bias"@.len() == 12);
    reveal_strlit("penalty_exceptions_include_stop_sequences");
    assert("penalty_exceptions_include_stop_sequences"@.len() == 41);
    reveal_strlit("best_of");
    assert("best_of"@.len() == 7);
    reveal_strlit("n");
    assert("n"@.len() == 1);
    reveal_strlit("log_probs");
    assert("log_probs"@.len() == 9);
    reveal_strlit("stop_sequences");
    assert("stop_sequences"@.len() == 14);
    reveal_strlit("tokens");
    assert("tokens"@.len() == 6);
    reveal_strlit("raw_completion");
    assert("raw_completion"@.len() == 14);
    reveal_strlit("disable_optimizations");
    assert("disable_optimizations"@.len() == 21);
    reveal_strlit("completion_bias_inclusion");
    assert("completion_bias_inclusion"@.len() == 25);
    reveal_strlit("completion_bias_inclusion_first_token_only");
    assert("completion_bias_inclusion_first_token_only"@.len() == 42);
    reveal_strlit("completion_bias_exclusion");
    assert("completion_bias_exclusion"@.len() == 25);
    reveal_strlit("completion_bias_exclusion_first_token_only");
    assert("completion_bias_exclusion_first_token_only"@.len() == 42);
    reveal_strlit("contextual_control_threshold");
    assert("contextual_control_threshold"@.len() == 28);
    reveal_strlit("control_log_additive");
    assert("control_log_additive"@.len() == 20);
    reveal_strlit("logit_bias");
    assert("logit_bias"@.len() == 10);
    let fields = r.spec_fields();
    assert(fields[8].0 == "top_p"@);
    assert forall|i: int| 0 <= i < fields.len() && i != 8 implies (#[trigger] fields[i]).0
        != fields[8].0 by {
        if i == 0 {
            assert(fields[0].0 == "model"@);
        } else if i == 1 {
            assert(fields[1].0 == "hosting"@);
        } else if i == 2 {
            assert(fields[2].0 == "prompt"@);
        } else if i == 3 {
            assert(fields[3].0 == "maximum_tokens"@);
        } else if i == 4 {
            assert(fields[4].0 == "minimum_tokens"@);
        } else if i == 5 {
            assert(fields[5].0 == "echo"@);
        } else if i == 6 {
            assert(fields[6].0 == "temperature"@);
        } else if i == 7 {
            assert(fields[7].0 == "top_k"@);
        } else if i == 9 {
            assert(fields[9].0 == "presence_penalty"@);
        } else if i == 10 {
            assert(fields[10].0 == "frequency_penalty"@);
        } else if i == 11 {
            assert(fields[11].0 == "sequence_penalty"@);
        } else if i == 12 {
            assert(fields[12].0 == "sequence_penalty_min_length"@);
        } else if i == 13 {
            assert(fields[13].0 == "repetition_penalties_include_prompt"@);
        } else if i == 14 {
            assert(fields[14].0 == "repetition_penalties_include_completion"@);
        } else if i == 15 {
            assert(fields[15].0 == "use_multiplicative_presence_penalty"@);
        } else if i == 16 {
            assert(fields[16].0 == "use_multiplicative_frequency_penalty"@);
        } else if i == 17 {
            assert(fields[17].0 == "use_multiplicative_sequence_penalty"@);
        } else if i == 18 {
            assert(fields[18].0 == "penalty_exceptions"@);
        } else if i == 19 {
            assert(fields[19].0 == "penalty_bias"@);
        } else if i == 20 {
            assert(fields[20].0 == "penalty_exceptions_include_stop_sequences"@);
        } else if i == 21 {
            assert(fields[21].0 == "best_of"@);
        } else if i == 22 {
            assert(fields[22].0 == "n"@);
        } else if i == 23 {
            assert(fields[23].0 == "log_probs"@);
        } else if i == 24 {
            assert(fields[24].0 == "stop_sequences"@);
        } else if i == 25 {
            assert(fields[25].0 == "tokens"@);
        } else if i == 26 {
            assert(fields[26].0 == "raw_completion"@);
        } else if i == 27 {
            assert(fields[27].0 == "disable_optimizations"@);
        } else if i == 28 {
            assert(fields[28].0 == "completion_bias_inclusion"@);
        } else if i == 29 {
            assert(fields[29].0 == "completion_bias_inclusion_first_token_only"@);
        } else if i == 30 {
            assert(fields[30].0 == "completion_bias_exclusion"@);
        } else if i == 31 {
            assert(fields[31].0 == "completion_bias_exclusion_first_token_only"@);
        } else if i == 32 {
            assert(fields[32].0 == "contextual_control_threshold"@);
        } else if i == 33 {
            assert(fields[33].0 == "control_log_additive"@);
        } else if i == 34 {
            assert(fields[34].0 == "logit_bias"@);
        } else {
        }
    }
    lemma_sparse_lookup(fields, 8);
}

#[verifier::rlimit(100)]
proof fn lemma_field_presence_penalty(r: CompletionRequest)
    ensures
        obj_lookup(r.spec_json(), "presence_penalty"@) == opt_num_json(r.presence_penalty),
{
    reveal_strlit("presence_penalty");
    assert("presence_penalty"@.len() == 16);
    reveal_strlit("model");
    assert("model"@.len() == 5);
    reveal_strlit("hosting");
    assert("hosting"@.len() == 7);
    reveal_strlit("prompt");
    assert("prompt"@.len() == 6);
    reveal_strlit("maximum_tokens");
    assert("maximum_tokens"@.len() == 14);
    reveal_strlit("minimum_tokens");
    assert("minimum_tokens"@.len() == 14);
    reveal_strlit("echo");
    assert("echo"@.len() == 4);
    reveal_strlit("temperature");
    assert("temperature"@.len() == 11);
    reveal_strlit("top_k");
    assert("top_k"@.len() == 5);
    reveal_strlit("top_p");
    assert("top_p"@.len() == 5);
    reveal_strlit("frequency_penalty");
    assert("frequency_penalty"@.len() == 17);
    reveal_strlit("sequence_penalty");
    assert("sequence_penalty"@.len() == 16);
    assert("presence_penalty"@[0] != "sequence_penalty"@[0]);
    reveal_strlit("sequence_penalty_min_length");
    assert("sequence_penalty_min_length"@.len() == 27);
    reveal_strlit("repetition_penalties_include_prompt");
    assert("repetition_penalties_include_prompt"@.len() == 35);
    reveal_strlit("repetition_penalties_include_completion");
    assert("repetition_penalties_include_completion"@.len() == 39);
    reveal_strlit("use_multiplicative_presence_penalty");
    assert("use_multiplicative_presence_penalty"@.len() == 35);
    reveal_strlit("use_multiplicative_frequency_penalty");
    assert("use_multiplicative_frequency_penalty"@.len() == 36);
    reveal_strlit("use_multiplicative_sequence_penalty");
    assert("use_multiplicative_sequence_penalty"@.len() == 35);
    reveal_strlit("penalty_exceptions");
    assert("penalty_exceptions"@.len() == 18);
    reveal_strlit("penalty_bias");
    assert("penalty_bias"@.len() == 12);
    reveal_strlit("penalty_exceptions_include_stop_sequences");
    assert("penalty_exceptions_include_stop_sequences"@.len() == 41);
    reveal_strlit("best_of");
    assert("best_of"@.len() == 7);
    reveal_strlit("n");
    assert("n"@.len() == 1);
    reveal_strlit("log_probs");
    assert("log_probs"@.len() == 9);
    reveal_strlit("stop_sequences");
    assert("stop_sequences"@.len() == 14);
    reveal_strlit("tokens");
    assert("tokens"@.len() == 6);
    reveal_strlit("raw_completion");
    assert("raw_completion"@.len() == 14);
    reveal_strlit("disable_optimizations");
    assert("disable_optimizations"@.len() == 21);
    reveal_strlit("completion_bias_inclusion");
    assert("completion_bias_inclusion"@.len() == 25);
    reveal_strlit("completion_bias_inclusion_first_token_only");
    assert("completion_bias_inclusion_first_token_only"@.len() == 42);
    reveal_strlit("completion_bias_exclusion");
    assert("completion_bias_exclusion"@.len() == 25);
    reveal_strlit("completion_bias_exclusion_first_token_only");
    assert("completion_bias_exclusion_first_token_only"@.len() == 42);
    reveal_strlit("contextual_control_threshold");
    assert("contextual_control_threshold"@.len() == 28);
    reveal_strlit("control_log_additive");
    assert("control_log_additive"@.len() == 20);
    reveal_strlit("logit_bias");
    assert("logit_bias"@.len() == 10);
    let fields = r.spec_fields();
    assert(fields[9].0 == "presence_penalty"@);
    assert forall|i: int| 0 <= i < fields.len() && i != 9 implies (#[trigger] fields[i]).0
        != fields[9].0 by {
        if i == 0 {
            assert(fields[0].0 == "model"@);
        } else if i == 1 {
            assert(fields[1].0 == "hosting"@);
        } else if i == 2 {
            assert(fields[2].0 == "prompt"@);
        } else if i == 3 {
            assert(fields[3].0 == "maximum_tokens"@);
        } else if i == 4 {
            assert(fields[4].0 == "minimum_tokens"@);
        } else if i == 5 {
            assert(fields[5].0 == "echo"@);
        } else if i == 6 {
            assert(fields[6].0 == "temperature"@);
        } else if i == 7 {
            assert(fields[7].0 == "top_k"@);
        } else if i == 8 {
            assert(fields[8].0 == "top_p"@);
        } else if i == 10 {
            assert(fields[10].0 == "frequency_penalty"@);
        } else if i == 11 {
            assert(fields[11].0 == "sequence_penalty"@);
        } else if i == 12 {
            assert(fields[12].0 == "sequence_penalty_min_length"@);
        } else if i == 13 {
            assert(fields[13].0 == "repetition_penalties_include_prompt"@);
        } else if i == 14 {
            assert(fields[14].0 == "repetition_penalties_include_completion"@);
        } else if i == 15 {
            assert(fields[15].0 == "use_multiplicative_presence_penalty"@);
        } else if i == 16 {
            assert(fields[16].0 == "use_multiplicative_frequency_penalty"@);
        } else if i == 17 {
            assert(fields[17].0 == "use_multiplicative_sequence_penalty"@);
        } else if i == 18 {
            assert(fields[18].0 == "penalty_exceptions"@);
        } else if i == 19 {
            assert(fields[19].0 == "penalty_bias"@);
        } else if i == 20 {
            assert(fields[20].0 == "penalty_exceptions_include_stop_sequences"@);
        } else if i == 21 {
            assert(fields[21].0 == "best_of"@);
        } else if i == 22 {
            assert(fields[22].0 == "n"@);
        } else if i == 23 {
            assert(fields[23].0 == "log_probs"@);
        } else if i == 24 {
            assert(fields[24].0 == "stop_sequences"@);
        } else if i == 25 {
            assert(fields[25].0 == "tokens"@);
        } else if i == 26 {
            assert(fields[26].0 == "raw_completion"@);
        } else if i == 27 {
            assert(fields[27].0 == "disable_optimizations"@);
        } else if i == 28 {
            assert(fields[28].0 == "completion_bias_inclusion"@);
        } else if i == 29 {
            assert(fields[29].0 == "completion_bias_inclusion_first_token_only"@);
        } else if i == 30 {
            assert(fields[30].0 == "completion_bias_exclusion"@);
        } else if i == 31 {
            assert(fields[31].0 == "completion_bias_exclusion_first_token_only"@);
        } else if i == 32 {
            assert(fields[32].0 == "contextual_control_threshold"@);
        } else if i == 33 {
            assert(fields[33].0 == "control_log_additive"@);
        } else if i == 34 {
            assert(fields[34].0 == "logit_bias"@);
        } else {
        }
    }
    lemma_sparse_lookup(fields, 9);
}

#[verifier::rlimit(100)]
proof fn lemma_field_frequency_penalty(r: CompletionRequest)
    ensures
        obj_lookup(r.spec_json(), "frequency_penalty"@) == opt_num_json(r.frequency_penalty),
{
    reveal_strlit("frequency_penalty");
    assert("frequency_penalty"@.len() == 17);
    reveal_strlit("model");
    assert("model"@.len() == 5);
    reveal_strlit("hosting");
    assert("hosting"@.len() == 7);
    reveal_strlit("prompt");
    assert("prompt"@.len() == 6);
    reveal_strlit("maximum_tokens");
    assert("maximum_tokens"@.len() == 14);
    reveal_strlit("minimum_tokens");
    assert("minimum_tokens"@.len() == 14);
    reveal_strlit("echo");
    assert("echo"@.len() == 4);
    reveal_strlit("temperature");
    assert("temperature"@.len() == 11);
    reveal_strlit("top_k");
    assert("top_k"@.len() == 5);
    reveal_strlit("top_p");
    assert("top_p"@.len() == 5);
    reveal_strlit("presence_penalty");
    assert("presence_penalty"@.len() == 16);
    reveal_strlit("sequence_penalty");
    assert("sequence_penalty"@.len() == 16);
    reveal_strlit("sequence_penalty_min_length");
    assert("sequence_penalty_min_length"@.len() == 27);
    reveal_strlit("repetition_penalties_include_prompt");
    assert("repetition_penalties_include_prompt"@.len() == 35);
    reveal_strlit("repetition_penalties_include_completion");
    assert("repetition_penalties_include_completion"@.len() == 39);
    reveal_strlit("use_multiplicative_presence_penalty");
    assert("use_multiplicative_presence_penalty"@.len() == 35);
    reveal_strlit("use_multiplicative_frequency_penalty");
    assert("use_multiplicative_frequency_penalty"@.len() == 36);
    reveal_strlit("use_multiplicative_sequence_penalty");
    assert("use_multiplicative_sequence_penalty"@.len() == 35);
    reveal_strlit("penalty_exceptions");
    assert("penalty_exceptions"@.len() == 18);
    reveal_strlit("penalty_bias");
    assert("penalty_bias"@.len() == 12);
    reveal_strlit("penalty_exceptions_include_stop_sequences");
    assert("penalty_exceptions_include_stop_sequences"@.len() == 41);
    reveal_strlit("best_of");
    assert("best_of"@.len() == 7);
    reveal_strlit("n");
    assert("n"@.len() == 1);
    reveal_strlit("log_probs");
    assert("log_probs"@.len() == 9);
    reveal_strlit("stop_sequences");
    assert("stop_sequences"@.len() == 14);
    reveal_strlit("tokens");
    assert("tokens"@.len() == 6);
    reveal_strlit("raw_completion");
    assert("raw_completion"@.len() == 14);
    reveal_strlit("disable_optimizations");
    assert("disable_optimizations"@.len() == 21);
    reveal_strlit("completion_bias_inclusion");
    assert("completion_bias_inclusion"@.len() == 25);
    reveal_strlit("completion_bias_inclusion_first_token_only");
    assert("completion_bias_inclusion_first_token_only"@.len() == 42);
    reveal_strlit("completion_bias_exclusion");
    assert("completion_bias_exclusion"@.len() == 25);
    reveal_strlit("completion_bias_exclusion_first_token_only");
    assert("completion_bias_exclusion_first_token_only"@.len() == 42);
    reveal_strlit("contextual_control_threshold");
    assert("contextual_control_threshold"@.len() == 28);
    reveal_strlit("control_log_additive");
    assert("control_log_additive"@.len() == 20);
    reveal_strlit("logit_bias");
    assert("logit_bias"@.len() == 10);
    let fields = r.spec_fields();
    assert(fields[10].0 == "frequency_penalty"@);
    assert forall|i: int| 0 <= i < fields.len() && i != 10 implies (#[trigger] fields[i]).0
        != fields[10].0 by {
        if i == 0 {
            assert(fields[0].0 == "model"@);
        } else if i == 1 {
            assert(fields[1].0 == "hosting"@);
        } else if i == 2 {
            assert(fields[2].0 == "prompt"@);
        } else if i == 3 {
            assert(fields[3].0 == "maximum_tokens"@);
        } else if i == 4 {
            assert(fields[4].0 == "minimum_tokens"@);
        } else if i == 5 {
            assert(fields[5].0 == "echo"@);
        } else if i == 6 {
            assert(fields[6].0 == "temperature"@);
        } else if i == 7 {
            assert(fields[7].0 == "top_k"@);
        } else if i == 8 {
            assert(fields[8].0 == "top_p"@);
        } else if i == 9 {
            assert(fields[9].0 == "presence_penalty"@);
        } else if i == 11 {
            assert(fields[11].0 == "sequence_penalty"@);
        } else if i == 12 {
            assert(fields[12].0 == "sequence_penalty_min_length"@);
        } else if i == 13 {
            assert(fields[13].0 == "repetition_penalties_include_prompt"@);
        } else if i == 14 {
            assert(fields[14].0 == "repetition_penalties_include_completion"@);
        } else if i == 15 {
            assert(fields[15].0 == "use_multiplicative_presence_penalty"@);
        } else if i == 16 {
            assert(fields[16].0 == "use_multiplicative_frequency_penalty"@);
        } else if i == 17 {
            assert(fields[17].0 == "use_multiplicative_sequence_penalty"@);
        } else if i == 18 {
            assert(fields[18].0 == "penalty_exceptions"@);
        } else if i == 19 {
            assert(fields[19].0 == "penalty_bias"@);
        } else if i == 20 {
            assert(fields[20].0 == "penalty_exceptions_include_stop_sequences"@);
        } else if i == 21 {
            assert(fields[21].0 == "best_of"@);
        } else if i == 22 {
            assert(fields[22].0 == "n"@);
        } else if i == 23 {
            assert(fields[23].0 == "log_probs"@);
        } else if i == 24 {
            assert(fields[24].0 == "stop_sequences"@);
        } else if i == 25 {
            assert(fields[25].0 == "tokens"@);
        } else if i == 26 {
            assert(fields[26].0 == "raw_completion"@);
        } else if i == 27 {
            assert(fields[27].0 == "disable_optimizations"@);
        } else if i == 28 {
            assert(fields[28].0 == "completion_bias_inclusion"@);
        } else if i == 29 {
            assert(fields[29].0 == "completion_bias_inclusion_first_token_only"@);
        } else if i == 30 {
            assert(fields[30].0 == "completion_bias_exclusion"@);
        } else if i == 31 {
            assert(fields[31].0 == "completion_bias_exclusion_first_token_only"@);
        } else if i == 32 {
            assert(fields[32].0 == "contextual_control_threshold"@);
        } else if i == 33 {
            assert(fields[33].0 == "control_log_additive"@);
        } else if i == 34 {
            assert(fields[34].0 == "logit_bias"@);
        } else {
        }
    }
    lemma_sparse_lookup(fields, 10);
}

#[verifier::rlimit(100)]
proof fn lemma_field_sequence_penalty(r: CompletionRequest)
    ensures
        obj_lookup(r.spec_json(), "sequence_penalty"@) == opt_num_json(r.sequence_penalty),
{
    reveal_strlit("sequence_penalty");
    assert("sequence_penalty"@.len() == 16);
    reveal_strlit("model");
    assert("model"@.len() == 5);
    reveal_strlit("hosting");
    assert("hosting"@.len() == 7);
    reveal_strlit("prompt");
    assert("prompt"@.len() == 6);
    reveal_strlit("maximum_tokens");
    assert("maximum_tokens"@.len() == 14);
    reveal_strlit("minimum_tokens");
    assert("minimum_tokens"@.len() == 14);
    reveal_strlit("echo");
    assert("echo"@.len() == 4);
    reveal_strlit("temperature");
    assert("temperature"@.len() == 11);
    reveal_strlit("top_k");
    assert("top_k"@.len() == 5);
    reveal_strlit("top_p");
    assert("top_p"@.len() == 5);
    reveal_strlit("presence_penalty");
    assert("presence_penalty"@.len() == 16);
    assert("sequence_penalty"@[0] != "presence_penalty"@[0]);
    reveal_strlit("frequency_penalty");
    assert("frequency_penalty"@.len() == 17);
    reveal_strlit("sequence_penalty_min_length");
    assert("sequence_penalty_min_length"@.len() == 27);
    reveal_strlit("repetition_penalties_include_prompt");
    assert("repetition_penalties_include_prompt"@.len() == 35);
    reveal_strlit("repetition_penalties_include_completion");
    assert("repetition_penalties_include_completion"@.len() == 39);
    reveal_strlit("use_multiplicative_presence_penalty");
    assert("use_multiplicative_presence_penalty"@.len() == 35);
    reveal_strlit("use_multiplicative_frequency_penalty");
    assert("use_multiplicative_frequency_penalty"@.len() == 36);
    reveal_strlit("use_multiplicative_sequence_penalty");
    assert("use_multiplicative_sequence_penalty"@.len() == 35);
    reveal_strlit("penalty_exceptions");
    assert("penalty_exceptions"@.len() == 18);
    reveal_strlit("penalty_bias");
    assert("penalty_bias"@.len() == 12);
    reveal_strlit("penalty_exceptions_include_stop_sequences");
    assert("penalty_exceptions_include_stop_sequences"@.len() == 41);
    reveal_strlit("best_of");
    assert("best_of"@.len() == 7);
    reveal_strlit("n");
    assert("n"@.len() == 1);
    reveal_strlit("log_probs");
    assert("log_probs"@.len() == 9);
    reveal_strlit("stop_sequences");
    assert("stop_sequences"@.len() == 14);
    reveal_strlit("tokens");
    assert("tokens"@.len() == 6);
    reveal_strlit("raw_completion");
    assert("raw_completion"@.len() == 14);
    reveal_strlit("disable_optimizations");
    assert("disable_optimizations"@.len() == 21);
    reveal_strlit("completion_bias_inclusion");
    assert("completion_bias_inclusion"@.len() == 25);
    reveal_strlit("completion_bias_inclusion_first_token_only");
    assert("completion_bias_inclusion_first_token_only"@.len() == 42);
    reveal_strlit("completion_bias_exclusion");
    assert("completion_bias_exclusion"@.len() == 25);
    reveal_strlit("completion_bias_exclusion_first_token_only");
    assert("completion_bias_exclusion_first_token_only"@.len() == 42);
    reveal_strlit("contextual_control_threshold");
    assert("contextual_control_threshold"@.len() == 28);
    reveal_strlit("control_log_additive");
    assert("control_log_additive"@.len() == 20);
    reveal_strlit("logit_bias");
    assert("logit_bias"@.len() == 10);
    let fields = r.spec_fields();
    assert(fields[11].0 == "sequence_penalty"@);
    assert forall|i: int| 0 <= i < fields.len() && i != 11 implies (#[trigger] fields[i]).0
        != fields[11].0 by {
        if i == 0 {
            assert(fields[0].0 == "model"@);
        } else if i == 1 {
            assert(fields[1].0 == "hosting"@);
        } else if i == 2 {
            assert(fields[2].0 == "prompt"@);
        } else if i == 3 {
            assert(fields[3].0 == "maximum_tokens"@);
        } else if i == 4 {
            assert(fields[4].0 == "minimum_tokens"@);
        } else if i == 5 {
            assert(fields[5].0 == "echo"@);
        } else if i == 6 {
            assert(fields[6].0 == "temperature"@);
        } else if i == 7 {
            assert(fields[7].0 == "top_k"@);
        } else if i == 8 {
            assert(fields[8].0 == "top_p"@);
        } else if i == 9 {
            assert(fields[9].0 == "presence_penalty"@);
        } else if i == 10 {
            assert(fields[10].0 == "frequency_penalty"@);
        } else if i == 12 {
            assert(fields[12].0 == "sequence_penalty_min_length"@);
        } else if i == 13 {
            assert(fields[13].0 == "repetition_penalties_include_prompt"@);
        } else if i == 14 {
            assert(fields[14].0 == "repetition_penalties_include_completion"@);
        } else if i == 15 {
            assert(fields[15].0 == "use_multiplicative_presence_penalty"@);
        } else if i == 16 {
            assert(fields[16].0 == "use_multiplicative_frequency_penalty"@);
        } else if i == 17 {
            assert(fields[17].0 == "use_multiplicative_sequence_penalty"@);
        } else if i == 18 {
            assert(fields[18].0 == "penalty_exceptions"@);
        } else if i == 19 {
            assert(fields[19].0 == "penalty_bias"@);
        } else if i == 20 {
            assert(fields[20].0 == "penalty_exceptions_include_stop_sequences"@);
        } else if i == 21 {
            assert(fields[21].0 == "best_of"@);
        } else if i == 22 {
            assert(fields[22].0 == "n"@);
        } else if i == 23 {
            assert(fields[23].0 == "log_probs"@);
        } else if i == 24 {
            assert(fields[24].0 == "stop_sequences"@);
        } else if i == 25 {
            assert(fields[25].0 == "tokens"@);
        } else if i == 26 {
            assert(fields[26].0 == "raw_completion"@);
        } else if i == 27 {
            assert(fields[27].0 == "disable_optimizations"@);
        } else if i == 28 {
            assert(fields[28].0 == "completion_bias_inclusion"@);
        } else if i == 29 {
            assert(fields[29].0 == "completion_bias_inclusion_first_token_only"@);
        } else if i == 30 {
            assert(fields[30].0 == "completion_bias_exclusion"@);
        } else if i == 31 {
            assert(fields[31].0 == "completion_bias_exclusion_first_token_only"@);
        } else if i == 32 {
            assert(fields[32].0 == "contextual_control_threshold"@);
        } else if i == 33 {
            assert(fields[33].0 == "control_log_additive"@);
        } else if i == 34 {
            assert(fields[34].0 == "logit_bias"@);
        } else {
        }
    }
    lemma_sparse_lookup(fields, 11);
}

#[verifier::rlimit(100)]
proof fn lemma_field_sequence_penalty_min_length(r: CompletionRequest)
    ensures
        obj_lookup(r.spec_json(), "sequence_penalty_min_length"@) == opt_i32_json(r.sequence_penalty_min_length),
{
    reveal_strlit("sequence_penalty_min_length");
    assert("sequence_penalty_min_length"@.len() == 27);
    reveal_strlit("model");
    assert("model"@.len() == 5);
    reveal_strlit("hosting");
    assert("hosting"@.len() == 7);
    reveal_strlit("prompt");
    assert("prompt"@.len() == 6);
    reveal_strlit("maximum_tokens");
    assert("maximum_tokens"@.len() == 14);
    reveal_strlit("minimum_tokens");
    assert("minimum_tokens"@.len() == 14);
    reveal_strlit("echo");
    assert("echo"@.len() == 4);
    reveal_strlit("temperature");
    assert("temperature"@.len() == 11);
    reveal_strlit("top_k");
    assert("top_k"@.len() == 5);
    reveal_strlit("top_p");
    assert("top_p"@.len() == 5);
    reveal_strlit("presence_penalty");
    assert("presence_penalty"@.len() == 16);
    reveal_strlit("frequency_penalty");
    assert("frequency_penalty"@.len() == 17);
    reveal_strlit("sequence_penalty");
    assert("sequence_penalty"@.len() == 16);
    reveal_strlit("repetition_penalties_include_prompt");
    assert("repetition_penalties_include_prompt"@.len() == 35);
    reveal_strlit("repetition_penalties_include_completion");
    assert("repetition_penalties_include_completion"@.len() == 39);
    reveal_strlit("use_multiplicative_presence_penalty");
    assert("use_multiplicative_presence_penalty"@.len() == 35);
    reveal_strlit("use_multiplicative_frequency_penalty");
    assert("use_multiplicative_frequency_penalty"@.len() == 36);
    reveal_strlit("use_multiplicative_sequence_penalty");
    assert("use_multiplicative_sequence_penalty"@.len() == 35);
    reveal_strlit("penalty_exceptions");
    assert("penalty_exceptions"@.len() == 18);
    reveal_strlit("penalty_bias");
    assert("penalty_bias"@.len() == 12);
    reveal_strlit("penalty_exceptions_include_stop_sequences");
    assert("penalty_exceptions_include_stop_sequences"@.len() == 41);
    reveal_strlit("best_of");
    assert("best_of"@.len() == 7);
    reveal_strlit("n");
    assert("n"@.len() == 1);
    reveal_strlit("log_probs");
    assert("log_probs"@.len() == 9);
    reveal_strlit("stop_sequences");
    assert("stop_sequences"@.len() == 14);
    reveal_strlit("tokens");
    assert("tokens"@.len() == 6);
    reveal_strlit("raw_completion");
    assert("raw_completion"@.len() == 14);
    reveal_strlit("disable_optimizations");
    assert("disable_optimizations"@.len() == 21);
    reveal_strlit("completion_bias_inclusion");
    assert("completion_bias_inclusion"@.len() == 25);
    reveal_strlit("completion_bias_inclusion_first_token_only");
    assert("completion_bias_inclusion_first_token_only"@.len() == 42);
    reveal_strlit("completion_bias_exclusion");
    assert("completion_bias_exclusion"@.len() == 25);
    reveal_strlit("completion_bias_exclusion_first_token_only");
    assert("completion_bias_exclusion_first_token_only"@.len() == 42);
    reveal_strlit("contextual_control_threshold");
    assert("contextual_control_threshold"@.len() == 28);
    reveal_strlit("control_log_additive");
    assert("control_log_additive"@.len() == 20);
    reveal_strlit("logit_bias");
    assert("logit_bias"@.len() == 10);
    let fields = r.spec_fields();
    assert(fields[12].0 == "sequence_penalty_min_length"@);
    assert forall|i: int| 0 <= i < fields.len() && i != 12 implies (#[trigger] fields[i]).0
        != fields[12].0 by {
        if i == 0 {
            assert(fields[0].0 == "model"@);
        } else if i == 1 {
            assert(fields[1].0 == "hosting"@);
        } else if i == 2 {
            assert(fields[2].0 == "prompt"@);
        } else if i == 3 {
            assert(fields[3].0 == "maximum_tokens"@);
        } else if i == 4 {
            assert(fields[4].0 == "minimum_tokens"@);
        } else if i == 5 {
            assert(fields[5].0 == "echo"@);
        } else if i == 6 {
            assert(fields[6].0 == "temperature"@);
        } else if i == 7 {
            assert(fields[7].0 == "top_k"@);
        } else if i == 8 {
            assert(fields[8].0 == "top_p"@);
        } else if i == 9 {
            assert(fields[9].0 == "presence_penalty"@);
        } else if i == 10 {
            assert(fields[10].0 == "frequency_penalty"@);
        } else if i == 11 {
            assert(fields[11].0 == "sequence_penalty"@);
        } else if i == 13 {
            assert(fields[13].0 == "repetition_penalties_include_prompt"@);
        } else if i == 14 {
            assert(fields[14].0 == "repetition_penalties_include_completion"@);
        } else if i == 15 {
            assert(fields[15].0 == "use_multiplicative_presence_penalty"@);
        } else if i == 16 {
            assert(fields[16].0 == "use_multiplicative_frequency_penalty"@);
        } else if i == 17 {
            assert(fields[17].0 == "use_multiplicative_sequence_penalty"@);
        } else if i == 18 {
            assert(fields[18].0 == "penalty_exceptions"@);
        } else if i == 19 {
            assert(fields[19].0 == "penalty_bias"@);
        } else if i == 20 {
            assert(fields[20].0 == "penalty_exceptions_include_stop_sequences"@);
        } else if i == 21 {
            assert(fields[21].0 == "best_of"@);
        } else if i == 22 {
            assert(fields[22].0 == "n"@);
        } else if i == 23 {
            assert(fields[23].0 == "log_probs"@);
        } else if i == 24 {
            assert(fields[24].0 == "stop_sequences"@);
        } else if i == 25 {
            assert(fields[25].0 == "tokens"@);
        } else if i == 26 {
            assert(fields[26].0 == "raw_completion"@);
        } else if i == 27 {
            assert(fields[27].0 == "disable_optimizations"@);
        } else if i == 28 {
            assert(fields[28].0 == "completion_bias_inclusion"@);
        } else if i == 29 {
            assert(fields[29].0 == "completion_bias_inclusion_first_token_only"@);
        } else if i == 30 {
            assert(fields[30].0 == "completion_bias_exclusion"@);
        } else if i == 31 {
            assert(fields[31].0 == "completion_bias_exclusion_first_token_only"@);
        } else if i == 32 {
            assert(fields[32].0 == "contextual_control_threshold"@);
        } else if i == 33 {
            assert(fields[33].0 == "control_log_additive"@);
        } else if i == 34 {
            assert(fields[34].0 == "logit_bias"@);
        } else {
        }
    }
    lemma_sparse_lookup(fields, 12);
}

#[verifier::rlimit(100)]
proof fn lemma_field_repetition_penalties_include_prompt(r: CompletionRequest)
    ensures
        obj_lookup(r.spec_json(), "repetition_penalties_include_prompt"@) == opt_bool_json(r.repetition_penalties_include_prompt),
{
    reveal_strlit("repetition_penalties_include_prompt");
    assert("repetition_penalties_include_prompt"@.len() == 35);
    reveal_strlit("model");
    assert("model"@.len() == 5);
    reveal_strlit("hosting");
    assert("hosting"@.len() == 7);
    reveal_strlit("prompt");
    assert("prompt"@.len() == 6);
    reveal_strlit("maximum_tokens");
    assert("maximum_tokens"@.len() == 14);
    reveal_strlit("minimum_tokens");
    assert("minimum_tokens"@.len() == 14);
    reveal_strlit("echo");
    assert("echo"@.len() == 4);
    reveal_strlit("temperature");
    assert("temperature"@.len() == 11);
    reveal_strlit("top_k");
    assert("top_k"@.len() == 5);
    reveal_strlit("top_p");
    assert("top_p"@.len() == 5);
    reveal_strlit("presence_penalty");
    assert("presence_penalty"@.len() == 16);
    reveal_strlit("frequency_penalty");
    assert("frequency_penalty"@.len() == 17);
    reveal_strlit("sequence_penalty");
    assert("sequence_penalty"@.len() == 16);
    reveal_strlit("sequence_penalty_min_length");
    assert("sequence_penalty_min_length"@.len() == 27);
    reveal_strlit("repetition_penalties_include_completion");
    assert("repetition_penalties_include_completion"@.len() == 39);
    reveal_strlit("use_multiplicative_presence_penalty");
    assert("use_multiplicative_presence_penalty"@.len() == 35);
    assert("repetition_penalties_include_prompt"@[0] != "use_multiplicative_presence_penalty"@[0]);
    reveal_strlit("use_multiplicative_frequency_penalty");
    assert("use_multiplicative_frequency_penalty"@.len() == 36);
    reveal_strlit("use_multiplicative_sequence_penalty");
    assert("use_multiplicative_sequence_penalty"@.len() == 35);
    assert("repetition_penalties_include_prompt"@[0] != "use_multiplicative_sequence_penalty"@[0]);
    reveal_strlit("penalty_exceptions");
    assert("penalty_exceptions"@.len() == 18);
    reveal_strlit("penalty_bias");
    assert("penalty_bias"@.len() == 12);
    reveal_strlit("penalty_exceptions_include_stop_sequences");
    assert("penalty_exceptions_include_stop_sequences"@.len() == 41);
    reveal_strlit("best_of");
    assert("best_of"@.len() == 7);
    reveal_strlit("n");
    assert("n"@.len() == 1);
    reveal_strlit("log_probs");
    assert("log_probs"@.len() == 9);
    reveal_strlit("stop_sequences");
    assert("stop_sequences"@.len() == 14);
    reveal_strlit("tokens");
    assert("tokens"@.len() == 6);
    reveal_strlit("raw_completion");
    assert("raw_completion"@.len() == 14);
    reveal_strlit("disable_optimizations");
    assert("disable_optimizations"@.len() == 21);
    reveal_strlit("completion_bias_inclusion");
    assert("completion_bias_inclusion"@.len() == 25);
    reveal_strlit("completion_bias_inclusion_first_token_only");
    assert("completion_bias_inclusion_first_token_only"@.len() == 42);
    reveal_strlit("completion_bias_exclusion");
    assert("completion_bias_exclusion"@.len() == 25);
    reveal_strlit("completion_bias_exclusion_first_token_only");
    assert("completion_bias_exclusion_first_token_only"@.len() == 42);
    reveal_strlit("contextual_control_threshold");
    assert("contextual_control_threshold"@.len() == 28);
    reveal_strlit("control_log_additive");
    assert("control_log_additive"@.len() == 20);
    reveal_strlit("logit_bias");
    assert("logit_bias"@.len() == 10);
    let fields = r.spec_fields();
    assert(fields[13].0 == "repetition_penalties_include_prompt"@);
    assert forall|i: int| 0 <= i < fields.len() && i != 13 implies (#[trigger] fields[i]).0
        != fields[13].0 by {
        if i == 0 {
            assert(fields[0].0 == "model"@);
        } else if i == 1 {
            assert(fields[1].0 == "hosting"@);
        } else if i == 2 {
            assert(fields[2].0 == "prompt"@);
        } else if i == 3 {
            assert(fields[3].0 == "maximum_tokens"@);
        } else if i == 4 {
            assert(fields[4].0 == "minimum_tokens"@);
        } else if i == 5 {
            assert(fields[5].0 == "echo"@);
        } else if i == 6 {
            assert(fields[6].0 == "temperature"@);
        } else if i == 7 {
            assert(fields[7].0 == "top_k"@);
        } else if i == 8 {
            assert(fields[8].0 == "top_p"@);
        } else if i == 9 {
            assert(fields[9].0 == "presence_penalty"@);
        } else if i == 10 {
            assert(fields[10].0 == "frequency_penalty"@);
        } else if i == 11 {
            assert(fields[11].0 == "sequence_penalty"@);
        } else if i == 12 {
            assert(fields[12].0 == "sequence_penalty_min_length"@);
        } else if i == 14 {
            assert(fields[14].0 == "repetition_penalties_include_completion"@);
        } else if i == 15 {
            assert(fields[15].0 == "use_multiplicative_presence_penalty"@);
        } else if i == 16 {
            assert(fields[16].0 == "use_multiplicative_frequency_penalty"@);
        } else if i == 17 {
            assert(fields[17].0 == "use_multiplicative_sequence_penalty"@);
        } else if i == 18 {
            assert(fields[18].0 == "penalty_exceptions"@);
        } else if i == 19 {
            assert(fields[19].0 == "penalty_bias"@);
        } else if i == 20 {
            assert(fields[20].0 == "penalty_exceptions_include_stop_sequences"@);
        } else if i == 21 {
            assert(fields[21].0 == "best_of"@);
        } else if i == 22 {
            assert(fields[22].0 == "n"@);
        } else if i == 23 {
            assert(fields[23].0 == "log_probs"@);
        } else if i == 24 {
            assert(fields[24].0 == "stop_sequences"@);
        } else if i == 25 {
            assert(fields[25].0 == "tokens"@);
        } else if i == 26 {
            assert(fields[26].0 == "raw_completion"@);
        } else if i == 27 {
            assert(fields[27].0 == "disable_optimizations"@);
        } else if i == 28 {
            assert(fields[28].0 == "completion_bias_inclusion"@);
        } else if i == 29 {
            assert(fields[29].0 == "completion_bias_inclusion_first_token_only"@);
        } else if i == 30 {
            assert(fields[30].0 == "completion_bias_exclusion"@);
        } else if i == 31 {
            assert(fields[31].0 == "completion_bias_exclusion_first_token_only"@);
        } else if i == 32 {
            assert(fields[32].0 == "contextual_control_threshold"@);
        } else if i == 33 {
            assert(fields[33].0 == "control_log_additive"@);
        } else if i == 34 {
            assert(fields[34].0 == "logit_bias"@);
        } else {
        }
    }
    lemma_sparse_lookup(fields, 13);
}

#[verifier::rlimit(100)]
proof fn lemma_field_repetition_penalties_include_completion(r: CompletionRequest)
    ensures
        obj_lookup(r.spec_json(), "repetition_penalties_include_completion"@) == opt_bool_json(r.repetition_penalties_include_completion),
{
    reveal_strlit("repetition_penalties_include_completion");
    assert("repetition_penalties_include_completion"@.len() == 39);
    reveal_strlit("model");
    assert("model"@.len() == 5);
    reveal_strlit("hosting");
    assert("hosting"@.len() == 7);
    reveal_strlit("prompt");
    assert("prompt"@.len() == 6);
    reveal_strlit("maximum_tokens");
    assert("maximum_tokens"@.len() == 14);
    reveal_strlit("minimum_tokens");
    assert("minimum_tokens"@.len() == 14);
    reveal_strlit("echo");
    assert("echo"@.len() == 4);
    reveal_strlit("temperature");
    assert("temperature"@.len() == 11);
    reveal_strlit("top_k");
    assert("top_k"@.len() == 5);
    reveal_strlit("top_p");
    assert("top_p"@.len() == 5);
    reveal_strlit("presence_penalty");
    assert("presence_penalty"@.len() == 16);
    reveal_strlit("frequency_penalty");
    assert("frequency_penalty"@.len() == 17);
    reveal_strlit("sequence_penalty");
    assert("sequence_penalty"@.len() == 16);
    reveal_strlit("sequence_penalty_min_length");
    assert("sequence_penalty_min_length"@.len() == 27);
    reveal_strlit("repetition_penalties_include_prompt");
    assert("repetition_penalties_include_prompt"@.len() == 35);
    reveal_strlit("use_multiplicative_presence_penalty");
    assert("use_multiplicative_presence_penalty"@.len() == 35);
    reveal_strlit("use_multiplicative_frequency_penalty");
    assert("use_multiplicative_frequency_penalty"@.len() == 36);
    reveal_strlit("use_multiplicative_sequence_penalty");
    assert("use_multiplicative_sequence_penalty"@.len() == 35);
    reveal_strlit("penalty_exceptions");
    assert("penalty_exceptions"@.len() == 18);
    reveal_strlit("penalty_bias");
    assert("penalty_bias"@.len() == 12);
    reveal_strlit("penalty_exceptions_include_stop_sequences");
    assert("penalty_exceptions_include_stop_sequences"@.len() == 41);
    reveal_strlit("best_of");
    assert("best_of"@.len() == 7);
    reveal_strlit("n");
    assert("n"@.len() == 1);
    reveal_strlit("log_probs");
    assert("log_probs"@.len() == 9);
    reveal_strlit("stop_sequences");
    assert("stop_sequences"@.len() == 14);
    reveal_strlit("tokens");
    assert("tokens"@.len() == 6);
    reveal_strlit("raw_completion");
    assert("raw_completion"@.len() == 14);
    reveal_strlit("disable_optimizations");
    assert("disable_optimizations"@.len() == 21);
    reveal_strlit("completion_bias_inclusion");
    assert("completion_bias_inclusion"@.len() == 25);
    reveal_strlit("completion_bias_inclusion_first_token_only");
    assert("completion_bias_inclusion_first_token_only"@.len() == 42);
    reveal_strlit("completion_bias_exclusion");
    assert("completion_bias_exclusion"@.len() == 25);
    reveal_strlit("completion_bias_exclusion_first_token_only");
    assert("completion_bias_exclusion_first_token_only"@.len() == 42);
    reveal_strlit("contextual_control_threshold");
    assert("contextual_control_threshold"@.len() == 28);
    reveal_strlit("control_log_additive");
    assert("control_log_additive"@.len() == 20);
    reveal_strlit("logit_bias");
    assert("logit_bias"@.len() == 10);
    let fields = r.spec_fields();
    assert(fields[14].0 == "repetition_penalties_include_completion"@);
    assert forall|i: int| 0 <= i < fields.len() && i != 14 implies (#[trigger] fields[i]).0
        != fields[14].0 by {
        if i == 0 {
            assert(fields[0].0 == "model"@);
        } else if i == 1 {
            assert(fields[1].0 == "hosting"@);
        } else if i == 2 {
            assert(fields[2].0 == "prompt"@);
        } else if i == 3 {
            assert(fields[3].0 == "maximum_tokens"@);
        } else if i == 4 {
            assert(fields[4].0 == "minimum_tokens"@);
        } else if i == 5 {
            assert(fields[5].0 == "echo"@);
        } else if i == 6 {
            assert(fields[6].0 == "temperature"@);
        } else if i == 7 {
            assert(fields[7].0 == "top_k"@);
        } else if i == 8 {
            assert(fields[8].0 == "top_p"@);
        } else if i == 9 {
            assert(fields[9].0 == "presence_penalty"@);
        } else if i == 10 {
            assert(fields[10].0 == "frequency_penalty"@);
        } else if i == 11 {
            assert(fields[11].0 == "sequence_penalty"@);
        } else if i == 12 {
            assert(fields[12].0 == "sequence_penalty_min_length"@);
        } else if i == 13 {
            assert(fields[13].0 == "repetition_penalties_include_prompt"@);
        } else if i == 15 {
            assert(fields[15].0 == "use_multiplicative_presence_penalty"@);
        } else if i == 16 {
            assert(fields[16].0 == "use_multiplicative_frequency_penalty"@);
        } else if i == 17 {
            assert(fields[17].0 == "use_multiplicative_sequence_penalty"@);
        } else if i == 18 {
            assert(fields[18].0 == "penalty_exceptions"@);
        } else if i == 19 {
            assert(fields[19].0 == "penalty_bias"@);
        } else if i == 20 {
            assert(fields[20].0 == "penalty_exceptions_include_stop_sequences"@);
        } else if i == 21 {
            assert(fields[21].0 == "best_of"@);
        } else if i == 22 {
            assert(fields[22].0 == "n"@);
        } else if i == 23 {
            assert(fields[23].0 == "log_probs"@);
        } else if i == 24 {
            assert(fields[24].0 == "stop_sequences"@);
        } else if i == 25 {
            assert(fields[25].0 == "tokens"@);
        } else if i == 26 {
            assert(fields[26].0 == "raw_completion"@);
        } else if i == 27 {
            assert(fields[27].0 == "disable_optimizations"@);
        } else if i == 28 {
            assert(fields[28].0 == "completion_bias_inclusion"@);
        } else if i == 29 {
            assert(fields[29].0 == "completion_bias_inclusion_first_token_only"@);
        } else if i == 30 {
            assert(fields[30].0 == "completion_bias_exclusion"@);
        } else if i == 31 {
            assert(fields[31].0 == "completion_bias_exclusion_first_token_only"@);
        } else if i == 32 {
            assert(fields[32].0 == "contextual_control_threshold"@);
        } else if i == 33 {
            assert(fields[33].0 == "control_log_additive"@);
        } else if i == 34 {
            assert(fields[34].0 == "logit_bias"@);
        } else {
        }
    }
    lemma_sparse_lookup(fields, 14);
}

#[verifier::rlimit(100)]
proof fn lemma_field_use_multiplicative_presence_penalty(r: CompletionRequest)
    ensures
        obj_lookup(r.spec_json(), "use_multiplicative_presence_penalty"@) == opt_bool_json(r.use_multiplicative_presence_penalty),
{
    reveal_strlit("use_multiplicative_presence_penalty");
    assert("use_multiplicative_presence_penalty"@.len() == 35);
    reveal_strlit("model");
    assert("model"@.len() == 5);
    reveal_strlit("hosting");
    assert("hosting"@.len() == 7);
    reveal_strlit("prompt");
    assert("prompt"@.len() == 6);
    reveal_strlit("maximum_tokens");
    assert("maximum_tokens"@.len() == 14);
    reveal_strlit("minimum_tokens");
    assert("minimum_tokens"@.len() == 14);
    reveal_strlit("echo");
    assert("echo"@.len() == 4);
    reveal_strlit("temperature");
    assert("temperature"@.len() == 11);
    reveal_strlit("top_k");
    assert("top_k"@.len() == 5);
    reveal_strlit("top_p");
    assert("top_p"@.len() == 5);
    reveal_strlit("presence_penalty");
    assert("presence_penalty"@.len() == 16);
    reveal_strlit("frequency_penalty");
    assert("frequency_penalty"@.len() == 17);
    reveal_strlit("sequence_penalty");
    assert("sequence_penalty"@.len() == 16);
    reveal_strlit("sequence_penalty_min_length");
    assert("sequence_penalty_min_length"@.len() == 27);
    reveal_strlit("repetition_penalties_include_prompt");
    assert("repetition_penalties_include_prompt"@.len() == 35);
    assert("use_multiplicative_presence_penalty"@[0] != "repetition_penalties_include_prompt"@[0]);
    reveal_strlit("repetition_penalties_include_completion");
    assert("repetition_penalties_include_completion"@.len() == 39);
    reveal_strlit("use_multiplicative_frequency_penalty");
    assert("use_multiplicative_frequency_penalty"@.len() == 36);
    reveal_strlit("use_multiplicative_sequence_penalty");
    assert("use_multiplicative_sequence_penalty"@.len() == 35);
    assert("use_multiplicative_presence_penalty"@[19] != "use_multiplicative_sequence_penalty"@[19]);
    reveal_strlit("penalty_exceptions");
    assert("penalty_exceptions"@.len() == 18);
    reveal_strlit("penalty_bias");
    assert("penalty_bias"@.len() == 12);
    reveal_strlit("penalty_exceptions_include_stop_sequences");
    assert("penalty_exceptions_include_stop_sequences"@.len() == 41);
    reveal_strlit("best_of");
    assert("best_of"@.len() == 7);
    reveal_strlit("n");
    assert("n"@.len() == 1);
    reveal_strlit("log_probs");
    assert("log_probs"@.len() == 9);
    reveal_strlit("stop_sequences");
    assert("stop_sequences"@.len() == 14);
    reveal_strlit("tokens");
    assert("tokens"@.len() == 6);
    reveal_strlit("raw_completion");
    assert("raw_completion"@.len() == 14);
    reveal_strlit("disable_optimizations");
    assert("disable_optimizations"@.len() == 21);
    reveal_strlit("completion_bias_inclusion");
    assert("completion_bias_inclusion"@.len() == 25);
    reveal_strlit("completion_bias_inclusion_first_token_only");
    assert("completion_bias_inclusion_first_token_only"@.len() == 42);
    reveal_strlit("completion_bias_exclusion");
    assert("completion_bias_exclusion"@.len() == 25);
    reveal_strlit("completion_bias_exclusion_first_token_only");
    assert("completion_bias_exclusion_first_token_only"@.len() == 42);
    reveal_strlit("contextual_control_threshold");
    assert("contextual_control_threshold"@.len() == 28);
    reveal_strlit("control_log_additive");
    assert("control_log_additive"@.len() == 20);
    reveal_strlit("logit_bias");
    assert("logit_bias"@.len() == 10);
    let fields = r.spec_fields();
    assert(fields[15].0 == "use_multiplicative_presence_penalty"@);
    assert forall|i: int| 0 <= i < fields.len() && i != 15 implies (#[trigger] fields[i]).0
        != fields[15].0 by {
        if i == 0 {
            assert(fields[0].0 == "model"@);
        } else if i == 1 {
            assert(fields[1].0 == "hosting"@);
        } else if i == 2 {
            assert(fields[2].0 == "prompt"@);
        } else if i == 3 {
            assert(fields[3].0 == "maximum_tokens"@);
        } else if i == 4 {
            assert(fields[4].0 == "minimum_tokens"@);
        } else if i == 5 {
            assert(fields[5].0 == "echo"@);
        } else if i == 6 {
            assert(fields[6].0 == "temperature"@);
        } else if i == 7 {
            assert(fields[7].0 == "top_k"@);
        } else if i == 8 {
            assert(fields[8].0 == "top_p"@);
        } else if i == 9 {
            assert(fields[9].0 == "presence_penalty"@);
        } else if i == 10 {
            assert(fields[10].0 == "frequency_penalty"@);
        } else if i == 11 {
            assert(fields[11].0 == "sequence_penalty"@);
        } else if i == 12 {
            assert(fields[12].0 == "sequence_penalty_min_length"@);
        } else if i == 13 {
            assert(fields[13].0 == "repetition_penalties_include_prompt"@);
        } else if i == 14 {
            assert(fields[14].0 == "repetition_penalties_include_completion"@);
        } else if i == 16 {
            assert(fields[16].0 == "use_multiplicative_frequency_penalty"@);
        } else if i == 17 {
            assert(fields[17].0 == "use_multiplicative_sequence_penalty"@);
        } else if i == 18 {
            assert(fields[18].0 == "penalty_exceptions"@);
        } else if i == 19 {
            assert(fields[19].0 == "penalty_bias"@);
        } else if i == 20 {
            assert(fields[20].0 == "penalty_exceptions_include_stop_sequences"@);
        } else if i == 21 {
            assert(fields[21].0 == "best_of"@);
        } else if i == 22 {
            assert(fields[22].0 == "n"@);
        } else if i == 23 {
            assert(fields[23].0 == "log_probs"@);
        } else if i == 24 {
            assert(fields[24].0 == "stop_sequences"@);
        } else if i == 25 {
            assert(fields[25].0 == "tokens"@);
        } else if i == 26 {
            assert(fields[26].0 == "raw_completion"@);
        } else if i == 27 {
            assert(fields[27].0 == "disable_optimizations"@);
        } else if i == 28 {
            assert(fields[28].0 == "completion_bias_inclusion"@);
        } else if i == 29 {
            assert(fields[29].0 == "completion_bias_inclusion_first_token_only"@);
        } else if i == 30 {
            assert(fields[30].0 == "completion_bias_exclusion"@);
        } else if i == 31 {
            assert(fields[31].0 == "completion_bias_exclusion_first_token_only"@);
        } else if i == 32 {
            assert(fields[32].0 == "contextual_control_threshold"@);
        } else if i == 33 {
            assert(fields[33].0 == "control_log_additive"@);
        } else if i == 34 {
            assert(fields[34].0 == "logit_bias"@);
        } else {
        }
    }
    lemma_sparse_lookup(fields, 15);
}

#[verifier::rlimit(100)]
proof fn lemma_field_use_multiplicative_frequency_penalty(r: CompletionRequest)
    ensures
        obj_lookup(r.spec_json(), "use_multiplicative_frequency_penalty"@) == opt_bool_json(r.use_multiplicative_frequency_penalty),
{
    reveal_strlit("use_multiplicative_frequency_penalty");
    assert("use_multiplicative_frequency_penalty"@.len() == 36);
    reveal_strlit("model");
    assert("model"@.len() == 5);
    reveal_strlit("hosting");
    assert("hosting"@.len() == 7);
    reveal_strlit("prompt");
    assert("prompt"@.len() == 6);
    reveal_strlit("maximum_tokens");
    assert("maximum_tokens"@.len() == 14);
    reveal_strlit("minimum_tokens");
    assert("minimum_tokens"@.len() == 14);
    reveal_strlit("echo");
    assert("echo"@.len() == 4);
    reveal_strlit("temperature");
    assert("temperature"@.len() == 11);
    reveal_strlit("top_k");
    assert("top_k"@.len() == 5);
    reveal_strlit("top_p");
    assert("top_p"@.len() == 5);
    reveal_strlit("presence_penalty");
    assert("presence_penalty"@.len() == 16);
    reveal_strlit("frequency_penalty");
    assert("frequency_penalty"@.len() == 17);
    reveal_strlit("sequence_penalty");
    assert("sequence_penalty"@.len() == 16);
    reveal_strlit("sequence_penalty_min_length");
    assert("sequence_penalty_min_length"@.len() == 27);
    reveal_strlit("repetition_penalties_include_prompt");
    assert("repetition_penalties_include_prompt"@.len() == 35);
    reveal_strlit("repetition_penalties_include_completion");
    assert("repetition_penalties_include_completion"@.len() == 39);
    reveal_strlit("use_multiplicative_presence_penalty");
    assert("use_multiplicative_presence_penalty"@.len() == 35);
    reveal_strlit("use_multiplicative_sequence_penalty");
    assert("use_multiplicative_sequence_penalty"@.len() == 35);
    reveal_strlit("penalty_exceptions");
    assert("penalty_exceptions"@.len() == 18);
    reveal_strlit("penalty_bias");
    assert("penalty_bias"@.len() == 12);
    reveal_strlit("penalty_exceptions_include_stop_sequences");
    assert("penalty_exceptions_include_stop_sequences"@.len() == 41);
    reveal_strlit("best_of");
    assert("best_of"@.len() == 7);
    reveal_strlit("n");
    assert("n"@.len() == 1);
    reveal_strlit("log_probs");
    assert("log_probs"@.len() == 9);
    reveal_strlit("stop_sequences");
    assert("stop_sequences"@.len() == 14);
    reveal_strlit("tokens");
    assert("tokens"@.len() == 6);
    reveal_strlit("raw_completion");
    assert("raw_completion"@.len() == 14);
    reveal_strlit("disable_optimizations");
    assert("disable_optimizations"@.len() == 21);
    reveal_strlit("completion_bias_inclusion");
    assert("completion_bias_inclusion"@.len() == 25);
    reveal_strlit("completion_bias_inclusion_first_token_only");
    assert("completion_bias_inclusion_first_token_only"@.len() == 42);
    reveal_strlit("completion_bias_exclusion");
    assert("completion_bias_exclusion"@.len() == 25);
    reveal_strlit("completion_bias_exclusion_first_token_only");
    assert("completion_bias_exclusion_first_token_only"@.len() == 42);
    reveal_strlit("contextual_control_threshold");
    assert("contextual_control_threshold"@.len() == 28);
    reveal_strlit("control_log_additive");
    assert("control_log_additive"@.len() == 20);
    reveal_strlit("logit_bias");
    assert("logit_bias"@.len() == 10);
    let fields = r.spec_fields();
    assert(fields[16].0 == "use_multiplicative_frequency_penalty"@);
    assert forall|i: int| 0 <= i < fields.len() && i != 16 implies (#[trigger] fields[i]).0
        != fields[16].0 by {
        if i == 0 {
            assert(fields[0].0 == "model"@);
        } else if i == 1 {
            assert(fields[1].0 == "hosting"@);
        } else if i == 2 {
            assert(fields[2].0 == "prompt"@);
        } else if i == 3 {
            assert(fields[3].0 == "maximum_tokens"@);
        } else if i == 4 {
            assert(fields[4].0 == "minimum_tokens"@);
        } else if i == 5 {
            assert(fields[5].0 == "echo"@);
        } else if i == 6 {
            assert(fields[6].0 == "temperature"@);
        } else if i == 7 {
            assert(fields[7].0 == "top_k"@);
        } else if i == 8 {
            assert(fields[8].0 == "top_p"@);
        } else if i == 9 {
            assert(fields[9].0 == "presence_penalty"@);
        } else if i == 10 {
            assert(fields[10].0 == "frequency_penalty"@);
        } else if i == 11 {
            assert(fields[11].0 == "sequence_penalty"@);
        } else if i == 12 {
            assert(fields[12].0 == "sequence_penalty_min_length"@);
        } else if i == 13 {
            assert(fields[13].0 == "repetition_penalties_include_prompt"@);
        } else if i == 14 {
            assert(fields[14].0 == "repetition_penalties_include_completion"@);
        } else if i == 15 {
            assert(fields[15].0 == "use_multiplicative_presence_penalty"@);
        } else if i == 17 {
            assert(fields[17].0 == "use_multiplicative_sequence_penalty"@);
        } else if i == 18 {
            assert(fields[18].0 == "penalty_exceptions"@);
        } else if i == 19 {
            assert(fields[19].0 == "penalty_bias"@);
        } else if i == 20 {
            assert(fields[20].0 == "penalty_exceptions_include_stop_sequences"@);
        } else if i == 21 {
            assert(fields[21].0 == "best_of"@);
        } else if i == 22 {
            assert(fields[22].0 == "n"@);
        } else if i == 23 {
            assert(fields[23].0 == "log_probs"@);
        } else if i == 24 {
            assert(fields[24].0 == "stop_sequences"@);
        } else if i == 25 {
            assert(fields[25].0 == "tokens"@);
        } else if i == 26 {
            assert(fields[26].0 == "raw_completion"@);
        } else if i == 27 {
            assert(fields[27].0 == "disable_optimizations"@);
        } else if i == 28 {
            assert(fields[28].0 == "completion_bias_inclusion"@);
        } else if i == 29 {
            assert(fields[29].0 == "completion_bias_inclusion_first_token_only"@);
        } else if i == 30 {
            assert(fields[30].0 == "completion_bias_exclusion"@);
        } else if i == 31 {
            assert(fields[31].0 == "completion_bias_exclusion_first_token_only"@);
        } else if i == 32 {
            assert(fields[32].0 == "contextual_control_threshold"@);
        } else if i == 33 {
            assert(fields[33].0 == "control_log_additive"@);
        } else if i == 34 {
            assert(fields[34].0 == "logit_bias"@);
        } else {
        }
    }
    lemma_sparse_lookup(fields, 16);
}

#[verifier::rlimit(100)]
proof fn lemma_field_use_multiplicative_sequence_penalty(r: CompletionRequest)
    ensures
        obj_lookup(r.spec_json(), "use_multiplicative_sequence_penalty"@) == opt_bool_json(r.use_multiplicative_sequence_penalty),
{
    reveal_strlit("use_multiplicative_sequence_penalty");
    assert("use_multiplicative_sequence_penalty"@.len() == 35);
    reveal_strlit("model");
    assert("model"@.len() == 5);
    reveal_strlit("hosting");
    assert("hosting"@.len() == 7);
    reveal_strlit("prompt");
    assert("prompt"@.len() == 6);
    reveal_strlit("maximum_tokens");
    assert("maximum_tokens"@.len() == 14);
    reveal_strlit("minimum_tokens");
    assert("minimum_tokens"@.len() == 14);
    reveal_strlit("echo");
    assert("echo"@.len() == 4);
    reveal_strlit("temperature");
    assert("temperature"@.len() == 11);
    reveal_strlit("top_k");
    assert("top_k"@.len() == 5);
    reveal_strlit("top_p");
    assert("top_p"@.len() == 5);
    reveal_strlit("presence_penalty");
    assert("presence_penalty"@.len() == 16);
    reveal_strlit("frequency_penalty");
    assert("frequency_penalty"@.len() == 17);
    reveal_strlit("sequence_penalty");
    assert("sequence_penalty"@.len() == 16);
    reveal_strlit("sequence_penalty_min_length");
    assert("sequence_penalty_min_length"@.len() == 27);
    reveal_strlit("repetition_penalties_include_prompt");
    assert("repetition_penalties_include_prompt"@.len() == 35);
    assert("use_multiplicative_sequence_penalty"@[0] != "repetition_penalties_include_prompt"@[0]);
    reveal_strlit("repetition_penalties_include_completion");
    assert("repetition_penalties_include_completion"@.len() == 39);
    reveal_strlit("use_multiplicative_presence_penalty");
    assert("use_multiplicative_presence_penalty"@.len() == 35);
    assert("use_multiplicative_sequence_penalty"@[19] != "use_multiplicative_presence_penalty"@[19]);
    reveal_strlit("use_multiplicative_frequency_penalty");
    assert("use_multiplicative_frequency_penalty"@.len() == 36);
    reveal_strlit("penalty_exceptions");
    assert("penalty_exceptions"@.len() == 18);
    reveal_strlit("penalty_bias");
    assert("penalty_bias"@.len() == 12);
    reveal_strlit("penalty_exceptions_include_stop_sequences");
    assert("penalty_exceptions_include_stop_sequences"@.len() == 41);
    reveal_strlit("best_of");
    assert("best_of"@.len() == 7);
    reveal_strlit("n");
    assert("n"@.len() == 1);
    reveal_strlit("log_probs");
    assert("log_probs"@.len() == 9);
    reveal_strlit("stop_sequences");
    assert("stop_sequences"@.len() == 14);
    reveal_strlit("tokens");
    assert("tokens"@.len() == 6);
    reveal_strlit("raw_completion");
    assert("raw_completion"@.len() == 14);
    reveal_strlit("disable_optimizations");
    assert("disable_optimizations"@.len() == 21);
    reveal_strlit("completion_bias_inclusion");
    assert("completion_bias_inclusion"@.len() == 25);
    reveal_strlit("completion_bias_inclusion_first_token_only");
    assert("completion_bias_inclusion_first_token_only"@.len() == 42);
    reveal_strlit("completion_bias_exclusion");
    assert("completion_bias_exclusion"@.len() == 25);
    reveal_strlit("completion_bias_exclusion_first_token_only");
    assert("completion_bias_exclusion_first_token_only"@.len() == 42);
    reveal_strlit("contextual_control_threshold");
    assert("contextual_control_threshold"@.len() == 28);
    reveal_strlit("control_log_additive");
    assert("control_log_additive"@.len() == 20);
    reveal_strlit("logit_bias");
    assert("logit_bias"@.len() == 10);
    let fields = r.spec_fields();
    assert(fields[17].0 == "use_multiplicative_sequence_penalty"@);
    assert forall|i: int| 0 <= i < fields.len() && i != 17 implies (#[trigger] fields[i]).0
        != fields[17].0 by {
        if i == 0 {
            assert(fields[0].0 == "model"@);
        } else if i == 1 {
            assert(fields[1].0 == "hosting"@);
        } else if i == 2 {
            assert(fields[2].0 == "prompt"@);
        } else if i == 3 {
            assert(fields[3].0 == "maximum_tokens"@);
        } else if i == 4 {
            assert(fields[4].0 == "minimum_tokens"@);
        } else if i == 5 {
            assert(fields[5].0 == "echo"@);
        } else if i == 6 {
            assert(fields[6].0 == "temperature"@);
        } else if i == 7 {
            assert(fields[7].0 == "top_k"@);
        } else if i == 8 {
            assert(fields[8].0 == "top_p"@);
        } else if i == 9 {
            assert(fields[9].0 == "presence_penalty"@);
        } else if i == 10 {
            assert(fields[10].0 == "frequency_penalty"@);
        } else if i == 11 {
            assert(fields[11].0 == "sequence_penalty"@);
        } else if i == 12 {
            assert(fields[12].0 == "sequence_penalty_min_length"@);
        } else if i == 13 {
            assert(fields[13].0 == "repetition_penalties_include_prompt"@);
        } else if i == 14 {
            assert(fields[14].0 == "repetition_penalties_include_completion"@);
        } else if i == 15 {
            assert(fields[15].0 == "use_multiplicative_presence_penalty"@);
        } else if i == 16 {
            assert(fields[16].0 == "use_multiplicative_frequency_penalty"@);
        } else if i == 18 {
            assert(fields[18].0 == "penalty_exceptions"@);
        } else if i == 19 {
            assert(fields[19].0 == "penalty_bias"@);
        } else if i == 20 {
            assert(fields[20].0 == "penalty_exceptions_include_stop_sequences"@);
        } else if i == 21 {
            assert(fields[21].0 == "best_of"@);
        } else if i == 22 {
            assert(fields[22].0 == "n"@);
        } else if i == 23 {
            assert(fields[23].0 == "log_probs"@);
        } else if i == 24 {
            assert(fields[24].0 == "stop_sequences"@);
        } else if i == 25 {
            assert(fields[25].0 == "tokens"@);
        } else if i == 26 {
            assert(fields[26].0 == "raw_completion"@);
        } else if i == 27 {
            assert(fields[27].0 == "disable_optimizations"@);
        } else if i == 28 {
            assert(fields[28].0 == "completion_bias_inclusion"@);
        } else if i == 29 {
            assert(fields[29].0 == "completion_bias_inclusion_first_token_only"@);
        } else if i == 30 {
            assert(fields[30].0 == "completion_bias_exclusion"@);
        } else if i == 31 {
            assert(fields[31].0 == "completion_bias_exclusion_first_token_only"@);
        } else if i == 32 {
            assert(fields[32].0 == "contextual_control_threshold"@);
        } else if i == 33 {
            assert(fields[33].0 == "control_log_additive"@);
        } else if i == 34 {
            assert(fields[34].0 == "logit_bias"@);
        } else {
        }
    }
    lemma_sparse_lookup(fields, 17);
}

#[verifier::rlimit(100)]
proof fn lemma_field_penalty_exceptions(r: CompletionRequest)
    ensures
        obj_lookup(r.spec_json(), "penalty_exceptions"@) == opt_str_array_json(r.penalty_exceptions),
{
    reveal_strlit("penalty_exceptions");
    assert("penalty_exceptions"@.len() == 18);
    reveal_strlit("model");
    assert("model"@.len() == 5);
    reveal_strlit("hosting");
    assert("hosting"@.len() == 7);
    reveal_strlit("prompt");
    assert("prompt"@.len() == 6);
    reveal_strlit("maximum_tokens");
    assert("maximum_tokens"@.len() == 14);
    reveal_strlit("minimum_tokens");
    assert("minimum_tokens"@.len() == 14);
    reveal_strlit("echo");
    assert("echo"@.len() == 4);
    reveal_strlit("temperature");
    assert("temperature"@.len() == 11);
    reveal_strlit("top_k");
    assert("top_k"@.len() == 5);
    reveal_strlit("top_p");
    assert("top_p"@.len() == 5);
    reveal_strlit("presence_penalty");
    assert("presence_penalty"@.len() == 16);
    reveal_strlit("frequency_penalty");
    assert("frequency_penalty"@.len() == 17);
    reveal_strlit("sequence_penalty");
    assert("sequence_penalty"@.len() == 16);
    reveal_strlit("sequence_penalty_min_length");
    assert("sequence_penalty_min_length"@.len() == 27);
    reveal_strlit("repetition_penalties_include_prompt");
    assert("repetition_penalties_include_prompt"@.len() == 35);
    reveal_strlit("repetition_penalties_include_completion");
    assert("repetition_penalties_include_completion"@.len() == 39);
    reveal_strlit("use_multiplicative_presence_penalty");
    assert("use_multiplicative_presence_penalty"@.len() == 35);
    reveal_strlit("use_multiplicative_frequency_penalty");
    assert("use_multiplicative_frequency_penalty"@.len() == 36);
    reveal_strlit("use_multiplicative_sequence_penalty");
    assert("use_multiplicative_sequence_penalty"@.len() == 35);
    reveal_strlit("penalty_bias");
    assert("penalty_bias"@.len() == 12);
    reveal_strlit("penalty_exceptions_include_stop_sequences");
    assert("penalty_exceptions_include_stop_sequences"@.len() == 41);
    reveal_strlit("best_of");
    assert("best_of"@.len() == 7);
    reveal_strlit("n");
    assert("n"@.len() == 1);
    reveal_strlit("log_probs");
    assert("log_probs"@.len() == 9);
    reveal_strlit("stop_sequences");
    assert("stop_sequences"@.len() == 14);
    reveal_strlit("tokens");
    assert("tokens"@.len() == 6);
    reveal_strlit("raw_completion");
    assert("raw_completion"@.len() == 14);
    reveal_strlit("disable_optimizations");
    assert("disable_optimizations"@.len() == 21);
    reveal_strlit("completion_bias_inclusion");
    assert("completion_bias_inclusion"@.len() == 25);
    reveal_strlit("completion_bias_inclusion_first_token_only");
    assert("completion_bias_inclusion_first_token_only"@.len() == 42);
    reveal_strlit("completion_bias_exclusion");
    assert("completion_bias_exclusion"@.len() == 25);
    reveal_strlit("completion_bias_exclusion_first_token_only");
    assert("completion_bias_exclusion_first_token_only"@.len() == 42);
    reveal_strlit("contextual_control_threshold");
    assert("contextual_control_threshold"@.len() == 28);
    reveal_strlit("control_log_additive");
    assert("control_log_additive"@.len() == 20);
    reveal_strlit("logit_bias");
    assert("logit_bias"@.len() == 10);
    let fields = r.spec_fields();
    assert(fields[18].0 == "penalty_exceptions"@);
    assert forall|i: int| 0 <= i < fields.len() && i != 18 implies (#[trigger] fields[i]).0
        != fields[18].0 by {
        if i == 0 {
            assert(fields[0].0 == "model"@);
        } else if i == 1 {
            assert(fields[1].0 == "hosting"@);
        } else if i == 2 {
            assert(fields[2].0 == "prompt"@);
        } else if i == 3 {
            assert(fields[3].0 == "maximum_tokens"@);
        } else if i == 4 {
            assert(fields[4].0 == "minimum_tokens"@);
        } else if i == 5 {
            assert(fields[5].0 == "echo"@);
        } else if i == 6 {
            assert(fields[6].0 == "temperature"@);
        } else if i == 7 {
            assert(fields[7].0 == "top_k"@);
        } else if i == 8 {
            assert(fields[8].0 == "top_p"@);
        } else if i == 9 {
            assert(fields[9].0 == "presence_penalty"@);
        } else if i == 10 {
            assert(fields[10].0 == "frequency_penalty"@);
        } else if i == 11 {
            assert(fields[11].0 == "sequence_penalty"@);
        } else if i == 12 {
            assert(fields[12].0 == "sequence_penalty_min_length"@);
        } else if i == 13 {
            assert(fields[13].0 == "repetition_penalties_include_prompt"@);
        } else if i == 14 {
            assert(fields[14].0 == "repetition_penalties_include_completion"@);
        } else if i == 15 {
            assert(fields[15].0 == "use_multiplicative_presence_penalty"@);
        } else if i == 16 {
            assert(fields[16].0 == "use_multiplicative_frequency_penalty"@);
        } else if i == 17 {
            assert(fields[17].0 == "use_multiplicative_sequence_penalty"@);
        } else if i == 19 {
            assert(fields[19].0 == "penalty_bias"@);
        } else if i == 20 {
            assert(fields[20].0 == "penalty_exceptions_include_stop_sequences"@);
        } else if i == 21 {
            assert(fields[21].0 == "best_of"@);
        } else if i == 22 {
            assert(fields[22].0 == "n"@);
        } else if i == 23 {
            assert(fields[23].0 == "log_probs"@);
        } else if i == 24 {
            assert(fields[24].0 == "stop_sequences"@);
        } else if i == 25 {
            assert(fields[25].0 == "tokens"@);
        } else if i == 26 {
            assert(fields[26].0 == "raw_completion"@);
        } else if i == 27 {
            assert(fields[27].0 == "disable_optimizations"@);
        } else if i == 28 {
            assert(fields[28].0 == "completion_bias_inclusion"@);
        } else if i == 29 {
            assert(fields[29].0 == "completion_bias_inclusion_first_token_only"@);
        } else if i == 30 {
            assert(fields[30].0 == "completion_bias_exclusion"@);
        } else if i == 31 {
            assert(fields[31].0 == "completion_bias_exclusion_first_token_only"@);
        } else if i == 32 {
            assert(fields[32].0 == "contextual_control_threshold"@);
        } else if i == 33 {
            assert(fields[33].0 == "control_log_additive"@);
        } else if i == 34 {
            assert(fields[34].0 == "logit_bias"@);
        } else {
        }
    }
    lemma_sparse_lookup(fields, 18);
}

#[verifier::rlimit(100)]
proof fn lemma_field_penalty_bias(r: CompletionRequest)
    ensures
        obj_lookup(r.spec_json(), "penalty_bias"@) == opt_string_json(r.penalty_bias),
{
    reveal_strlit("penalty_bias");
    assert("penalty_bias"@.len() == 12);
    reveal_strlit("model");
    assert("model"@.len() == 5);
    reveal_strlit("hosting");
    assert("hosting"@.len() == 7);
    reveal_strlit("prompt");
    assert("prompt"@.len() == 6);
    reveal_strlit("maximum_tokens");
    assert("maximum_tokens"@.len() == 14);
    reveal_strlit("minimum_tokens");
    assert("minimum_tokens"@.len() == 14);
    reveal_strlit("echo");
    assert("echo"@.len() == 4);
    reveal_strlit("temperature");
    assert("temperature"@.len() == 11);
    reveal_strlit("top_k");
    assert("top_k"@.len() == 5);
    reveal_strlit("top_p");
    assert("top_p"@.len() == 5);
    reveal_strlit("presence_penalty");
    assert("presence_penalty"@.len() == 16);
    reveal_strlit("frequency_penalty");
    assert("frequency_penalty"@.len() == 17);
    reveal_strlit("sequence_penalty");
    assert("sequence_penalty"@.len() == 16);
    reveal_strlit("sequence_penalty_min_length");
    assert("sequence_penalty_min_length"@.len() == 27);
    reveal_strlit("repetition_penalties_include_prompt");
    assert("repetition_penalties_include_prompt"@.len() == 35);
    reveal_strlit("repetition_penalties_include_completion");
    assert("repetition_penalties_include_completion"@.len() == 39);
    reveal_strlit("use_multiplicative_presence_penalty");
    assert("use_multiplicative_presence_penalty"@.len() == 35);
    reveal_strlit("use_multiplicative_frequency_penalty");
    assert("use_multiplicative_frequency_penalty"@.len() == 36);
    reveal_strlit("use_multiplicative_sequence_penalty");
    assert("use_multiplicative_sequence_penalty"@.len() == 35);
    reveal_strlit("penalty_exceptions");
    assert("penalty_exceptions"@.len() == 18);
    reveal_strlit("penalty_exceptions_include_stop_sequences");
    assert("penalty_exceptions_include_stop_sequences"@.len() == 41);
    reveal_strlit("best_of");
    assert("best_of"@.len() == 7);
    reveal_strlit("n");
    assert("n"@.len() == 1);
    reveal_strlit("log_probs");
    assert("log_probs"@.len() == 9);
    reveal_strlit("stop_sequences");
    assert("stop_sequences"@.len() == 14);
    reveal_strlit("tokens");
    assert("tokens"@.len() == 6);
    reveal_strlit("raw_completion");
    assert("raw_completion"@.len() == 14);
    reveal_strlit("disable_optimizations");
    assert("disable_optimizations"@.len() == 21);
    reveal_strlit("completion_bias_inclusion");
    assert("completion_bias_inclusion"@.len() == 25);
    reveal_strlit("completion_bias_inclusion_first_token_only");
    assert("completion_bias_inclusion_first_token_only"@.len() == 42);
    reveal_strlit("completion_bias_exclusion");
    assert("completion_bias_exclusion"@.len() == 25);
    reveal_strlit("completion_bias_exclusion_first_token_only");
    assert("completion_bias_exclusion_first_token_only"@.len() == 42);
    reveal_strlit("contextual_control_threshold");
    assert("contextual_control_threshold"@.len() == 28);
    reveal_strlit("control_log_additive");
    assert("control_log_additive"@.len() == 20);
    reveal_strlit("logit_bias");
    assert("logit_bias"@.len() == 10);
    let fields = r.spec_fields();
    assert(fields[19].0 == "penalty_bias"@);
    assert forall|i: int| 0 <= i < fields.len() && i != 19 implies (#[trigger] fields[i]).0
        != fields[19].0 by {
        if i == 0 {
            assert(fields[0].0 == "model"@);
        } else if i == 1 {
            assert(fields[1].0 == "hosting"@);
        } else if i == 2 {
            assert(fields[2].0 == "prompt"@);
        } else if i == 3 {
            assert(fields[3].0 == "maximum_tokens"@);
        } else if i == 4 {
            assert(fields[4].0 == "minimum_tokens"@);
        } else if i == 5 {
            assert(fields[5].0 == "echo"@);
        } else if i == 6 {
            assert(fields[6].0 == "temperature"@);
        } else if i == 7 {
            assert(fields[7].0 == "top_k"@);
        } else if i == 8 {
            assert(fields[8].0 == "top_p"@);
        } else if i == 9 {
            assert(fields[9].0 == "presence_penalty"@);
        } else if i == 10 {
            assert(fields[10].0 == "frequency_penalty"@);
        } else if i == 11 {
            assert(fields[11].0 == "sequence_penalty"@);
        } else if i == 12 {
            assert(fields[12].0 == "sequence_penalty_min_length"@);
        } else if i == 13 {
            assert(fields[13].0 == "repetition_penalties_include_prompt"@);
        } else if i == 14 {
            assert(fields[14].0 == "repetition_penalties_include_completion"@);
        } else if i == 15 {
            assert(fields[15].0 == "use_multiplicative_presence_penalty"@);
        } else if i == 16 {
            assert(fields[16].0 == "use_multiplicative_frequency_penalty"@);
        } else if i == 17 {
            assert(fields[17].0 == "use_multiplicative_sequence_penalty"@);
        } else if i == 18 {
            assert(fields[18].0 == "penalty_exceptions"@);
        } else if i == 20 {
            assert(fields[20].0 == "penalty_exceptions_include_stop_sequences"@);
        } else if i == 21 {
            assert(fields[21].0 == "best_of"@);
        } else if i == 22 {
            assert(fields[22].0 == "n"@);
        } else if i == 23 {
            assert(fields[23].0 == "log_probs"@);
        } else if i == 24 {
            assert(fields[24].0 == "stop_sequences"@);
        } else if i == 25 {
            assert(fields[25].0 == "tokens"@);
        } else if i == 26 {
            assert(fields[26].0 == "raw_completion"@);
        } else if i == 27 {
            assert(fields[27].0 == "disable_optimizations"@);
        } else if i == 28 {
            assert(fields[28].0 == "completion_bias_inclusion"@);
        } else if i == 29 {
            assert(fields[29].0 == "completion_bias_inclusion_first_token_only"@);
        } else if i == 30 {
            assert(fields[30].0 == "completion_bias_exclusion"@);
        } else if i == 31 {
            assert(fields[31].0 == "completion_bias_exclusion_first_token_only"@);
        } else if i == 32 {
            assert(fields[32].0 == "contextual_control_threshold"@);
        } else if i == 33 {
            assert(fields[33].0 == "control_log_additive"@);
        } else if i == 34 {
            assert(fields[34].0 == "logit_bias"@);
        } else {
        }
    }
    lemma_sparse_lookup(fields, 19);
}

#[verifier::rlimit(100)]
proof fn lemma_field_penalty_exceptions_include_stop_sequences(r: CompletionRequest)
    ensures
        obj_lookup(r.spec_json(), "penalty_exceptions_include_stop_sequences"@) == opt_bool_json(r.penalty_exceptions_include_stop_sequences),
{
    reveal_strlit("penalty_exceptions_include_stop_sequences");
    assert("penalty_exceptions_include_stop_sequences"@.len() == 41);
    reveal_strlit("model");
    assert("model"@.len() == 5);
    reveal_strlit("hosting");
    assert("hosting"@.len() == 7);
    reveal_strlit("prompt");
    assert("prompt"@.len() == 6);
    reveal_strlit("maximum_tokens");
    assert("maximum_tokens"@.len() == 14);
    reveal_strlit("minimum_tokens");
    assert("minimum_tokens"@.len() == 14);
    reveal_strlit("echo");
    assert("echo"@.len() == 4);
    reveal_strlit("temperature");
    assert("temperature"@.len() == 11);
    reveal_strlit("top_k");
    assert("top_k"@.len() == 5);
    reveal_strlit("top_p");
    assert("top_p"@.len() == 5);
    reveal_strlit("presence_penalty");
    assert("presence_penalty"@.len() == 16);
    reveal_strlit("frequency_penalty");
    assert("frequency_penalty"@.len() == 17);
    reveal_strlit("sequence_penalty");
    assert("sequence_penalty"@.len() == 16);
    reveal_strlit("sequence_penalty_min_length");
    assert("sequence_penalty_min_length"@.len() == 27);
    reveal_strlit("repetition_penalties_include_prompt");
    assert("repetition_penalties_include_prompt"@.len() == 35);
    reveal_strlit("repetition_penalties_include_completion");
    assert("repetition_penalties_include_completion"@.len() == 39);
    reveal_strlit("use_multiplicative_presence_penalty");
    assert("use_multiplicative_presence_penalty"@.len() == 35);
    reveal_strlit("use_multiplicative_frequency_penalty");
    assert("use_multiplicative_frequency_penalty"@.len() == 36);
    reveal_strlit("use_multiplicative_sequence_penalty");
    assert("use_multiplicative_sequence_penalty"@.len() == 35);
    reveal_strlit("penalty_exceptions");
    assert("penalty_exceptions"@.len() == 18);
    reveal_strlit("penalty_bias");
    assert("penalty_bias"@.len() == 12);
    reveal_strlit("best_of");
    assert("best_of"@.len() == 7);
    reveal_strlit("n");
    assert("n"@.len() == 1);
    reveal_strlit("log_probs");
    assert("log_probs"@.len() == 9);
    reveal_strlit("stop_sequences");
    assert("stop_sequences"@.len() == 14);
    reveal_strlit("tokens");
    assert("tokens"@.len() == 6);
    reveal_strlit("raw_completion");
    assert("raw_completion"@.len() == 14);
    reveal_strlit("disable_optimizations");
    assert("disable_optimizations"@.len() == 21);
    reveal_strlit("completion_bias_inclusion");
    assert("completion_bias_inclusion"@.len() == 25);
    reveal_strlit("completion_bias_inclusion_first_token_only");
    assert("completion_bias_inclusion_first_token_only"@.len() == 42);
    reveal_strlit("completion_bias_exclusion");
    assert("completion_bias_exclusion"@.len() == 25);
    reveal_strlit("completion_bias_exclusion_first_token_only");
    assert("completion_bias_exclusion_first_token_only"@.len() == 42);
    reveal_strlit("contextual_control_threshold");
    assert("contextual_control_threshold"@.len() == 28);
    reveal_strlit("control_log_additive");
    assert("control_log_additive"@.len() == 20);
    reveal_strlit("logit_bias");
    assert("logit_bias"@.len() == 10);
    let fields = r.spec_fields();
    assert(fields[20].0 == "penalty_exceptions_include_stop_sequences"@);
    assert forall|i: int| 0 <= i < fields.len() && i != 20 implies (#[trigger] fields[i]).0
        != fields[20].0 by {
        if i == 0 {
            assert(fields[0].0 == "model"@);
        } else if i == 1 {
            assert(fields[1].0 == "hosting"@);
        } else if i == 2 {
            assert(fields[2].0 == "prompt"@);
        } else if i == 3 {
            assert(fields[3].0 == "maximum_tokens"@);
        } else if i == 4 {
            assert(fields[4].0 == "minimum_tokens"@);
        } else if i == 5 {
            assert(fields[5].0 == "echo"@);
        } else if i == 6 {
            assert(fields[6].0 == "temperature"@);
        } else if i == 7 {
            assert(fields[7].0 == "top_k"@);
        } else if i == 8 {
            assert(fields[8].0 == "top_p"@);
        } else if i == 9 {
            assert(fields[9].0 == "presence_penalty"@);
        } else if i == 10 {
            assert(fields[10].0 == "frequency_penalty"@);
        } else if i == 11 {
            assert(fields[11].0 == "sequence_penalty"@);
        } else if i == 12 {
            assert(fields[12].0 == "sequence_penalty_min_length"@);
        } else if i == 13 {
            assert(fields[13].0 == "repetition_penalties_include_prompt"@);
        } else if i == 14 {
            assert(fields[14].0 == "repetition_penalties_include_completion"@);
        } else if i == 15 {
            assert(fields[15].0 == "use_multiplicative_presence_penalty"@);
        } else if i == 16 {
            assert(fields[16].0 == "use_multiplicative_frequency_penalty"@);
        } else if i == 17 {
            assert(fields[17].0 == "use_multiplicative_sequence_penalty"@);
        } else if i == 18 {
            assert(fields[18].0 == "penalty_exceptions"@);
        } else if i == 19 {
            assert(fields[19].0 == "penalty_bias"@);
        } else if i == 21 {
            assert(fields[21].0 == "best_of"@);
        } else if i == 22 {
            assert(fields[22].0 == "n"@);
        } else if i == 23 {
            assert(fields[23].0 == "log_probs"@);
        } else if i == 24 {
            assert(fields[24].0 == "stop_sequences"@);
        } else if i == 25 {
            assert(fields[25].0 == "tokens"@);
        } else if i == 26 {
            assert(fields[26].0 == "raw_completion"@);
        } else if i == 27 {
            assert(fields[27].0 == "disable_optimizations"@);
        } else if i == 28 {
            assert(fields[28].0 == "completion_bias_inclusion"@);
        } else if i == 29 {
            assert(fields[29].0 == "completion_bias_inclusion_first_token_only"@);
        } else if i == 30 {
            assert(fields[30].0 == "completion_bias_exclusion"@);
        } else if i == 31 {
            assert(fields[31].0 == "completion_bias_exclusion_first_token_only"@);
        } else if i == 32 {
            assert(fields[32].0 == "contextual_control_threshold"@);
        } else if i == 33 {
            assert(fields[33].0 == "control_log_additive"@);
        } else if i == 34 {
            assert(fields[34].0 == "logit_bias"@);
        } else {
        }
    }
    lemma_sparse_lookup(fields, 20);
}

#[verifier::rlimit(100)]
proof fn lemma_field_best_of(r: CompletionRequest)
    ensures
        obj_lookup(r.spec_json(), "best_of"@) == opt_i32_json(r.best_of),
{
    reveal_strlit("best_of");
    assert("best_of"@.len() == 7);
    reveal_strlit("model");
    assert("model"@.len() == 5);
    reveal_strlit("hosting");
    assert("hosting"@.len() == 7);
    assert("best_of"@[0] != "hosting"@[0]);
    reveal_strlit("prompt");
    assert("prompt"@.len() == 6);
    reveal_strlit("maximum_tokens");
    assert("maximum_tokens"@.len() == 14);
    reveal_strlit("minimum_tokens");
    assert("minimum_tokens"@.len() == 14);
    reveal_strlit("echo");
    assert("echo"@.len() == 4);
    reveal_strlit("temperature");
    assert("temperature"@.len() == 11);
    reveal_strlit("top_k");
    assert("top_k"@.len() == 5);
    reveal_strlit("top_p");
    assert("top_p"@.len() == 5);
    reveal_strlit("presence_penalty");
    assert("presence_penalty"@.len() == 16);
    reveal_strlit("frequency_penalty");
    assert("frequency_penalty"@.len() == 17);
    reveal_strlit("sequence_penalty");
    assert("sequence_penalty"@.len() == 16);
    reveal_strlit("sequence_penalty_min_length");
    assert("sequence_penalty_min_length"@.len() == 27);
    reveal_strlit("repetition_penalties_include_prompt");
    assert("repetition_penalties_include_prompt"@.len() == 35);
    reveal_strlit("repetition_penalties_include_completion");
    assert("repetition_penalties_include_completion"@.len() == 39);
    reveal_strlit("use_multiplicative_presence_penalty");
    assert("use_multiplicative_presence_penalty"@.len() == 35);
    reveal_strlit("use_multiplicative_frequency_penalty");
    assert("use_multiplicative_frequency_penalty"@.len() == 36);
    reveal_strlit("use_multiplicative_sequence_penalty");
    assert("use_multiplicative_sequence_penalty"@.len() == 35);
    reveal_strlit("penalty_exceptions");
    assert("penalty_exceptions"@.len() == 18);
    reveal_strlit("penalty_bias");
    assert("penalty_bias"@.len() == 12);
    reveal_strlit("penalty_exceptions_include_stop_sequences");
    assert("penalty_exceptions_include_stop_sequences"@.len() == 41);
    reveal_strlit("n");
    assert("n"@.len() == 1);
    reveal_strlit("log_probs");
    assert("log_probs"@.len() == 9);
    reveal_strlit("stop_sequences");
    assert("stop_sequences"@.len() == 14);
    reveal_strlit("tokens");
    assert("tokens"@.len() == 6);
    reveal_strlit("raw_completion");
    assert("raw_completion"@.len() == 14);
    reveal_strlit("disable_optimizations");
    assert("disable_optimizations"@.len() == 21);
    reveal_strlit("completion_bias_inclusion");
    assert("completion_bias_inclusion"@.len() == 25);
    reveal_strlit("completion_bias_inclusion_first_token_only");
    assert("completion_bias_inclusion_first_token_only"@.len() == 42);
    reveal_strlit("completion_bias_exclusion");
    assert("completion_bias_exclusion"@.len() == 25);
    reveal_strlit("completion_bias_exclusion_first_token_only");
    assert("completion_bias_exclusion_first_token_only"@.len() == 42);
    reveal_strlit("contextual_control_threshold");
    assert("contextual_control_threshold"@.len() == 28);
    reveal_strlit("control_log_additive");
    assert("control_log_additive"@.len() == 20);
    reveal_strlit("logit_bias");
    assert("logit_bias"@.len() == 10);
    let fields = r.spec_fields();
    assert(fields[21].0 == "best_of"@);
    assert forall|i: int| 0 <= i < fields.len() && i != 21 implies (#[trigger] fields[i]).0
        != fields[21].0 by {
        if i == 0 {
            assert(fields[0].0 == "model"@);
        } else if i == 1 {
            assert(fields[1].0 == "hosting"@);
        } else if i == 2 {
            assert(fields[2].0 == "prompt"@);
        } else if i == 3 {
            assert(fields[3].0 == "maximum_tokens"@);
        } else if i == 4 {
            assert(fields[4].0 == "minimum_tokens"@);
        } else if i == 5 {
            assert(fields[5].0 == "echo"@);
        } else if i == 6 {
            assert(fields[6].0 == "temperature"@);
        } else if i == 7 {
            assert(fields[7].0 == "top_k"@);
        } else if i == 8 {
            assert(fields[8].0 == "top_p"@);
        } else if i == 9 {
            assert(fields[9].0 == "presence_penalty"@);
        } else if i == 10 {
            assert(fields[10].0 == "frequency_penalty"@);
        } else if i == 11 {
            assert(fields[11].0 == "sequence_penalty"@);
        } else if i == 12 {
            assert(fields[12].0 == "sequence_penalty_min_length"@);
        } else if i == 13 {
            assert(fields[13].0 == "repetition_penalties_include_prompt"@);
        } else if i == 14 {
            assert(fields[14].0 == "repetition_penalties_include_completion"@);
        } else if i == 15 {
            assert(fields[15].0 == "use_multiplicative_presence_penalty"@);
        } else if i == 16 {
            assert(fields[16].0 == "use_multiplicative_frequency_penalty"@);
        } else if i == 17 {
            assert(fields[17].0 == "use_multiplicative_sequence_penalty"@);
        } else if i == 18 {
            assert(fields[18].0 == "penalty_exceptions"@);
        } else if i == 19 {
            assert(fields[19].0 == "penalty_bias"@);
        } else if i == 20 {
            assert(fields[20].0 == "penalty_exceptions_include_stop_sequences"@);
        } else if i == 22 {
            assert(fields[22].0 == "n"@);
        } else if i == 23 {
            assert(fields[23].0 == "log_probs"@);
        } else if i == 24 {
            assert(fields[24].0 == "stop_sequences"@);
        } else if i == 25 {
            assert(fields[25].0 == "tokens"@);
        } else if i == 26 {
            assert(fields[26].0 == "raw_completion"@);
        } else if i == 27 {
            assert(fields[27].0 == "disable_optimizations"@);
        } else if i == 28 {
            assert(fields[28].0 == "completion_bias_inclusion"@);
        } else if i == 29 {
            assert(fields[29].0 == "completion_bias_inclusion_first_token_only"@);
        } else if i == 30 {
            assert(fields[30].0 == "completion_bias_exclusion"@);
        } else if i == 31 {
            assert(fields[31].0 == "completion_bias_exclusion_first_token_only"@);
        } else if i == 32 {
            assert(fields[32].0 == "contextual_control_threshold"@);
        } else if i == 33 {
            assert(fields[33].0 == "control_log_additive"@);
        } else if i == 34 {
            assert(fields[34].0 == "logit_bias"@);
        } else {
        }
    }
    lemma_sparse_lookup(fields, 21);
}

#[verifier::rlimit(100)]
proof fn lemma_field_n(r: CompletionRequest)
    ensures
        obj_lookup(r.spec_json(), "n"@) == opt_i32_json(r.n),
{
    reveal_strlit("n");
    assert("n"@.len() == 1);
    reveal_strlit("model");
    assert("model"@.len() == 5);
    reveal_strlit("hosting");
    assert("hosting"@.len() == 7);
    reveal_strlit("prompt");
    assert("prompt"@.len() == 6);
    reveal_strlit("maximum_tokens");
    assert("maximum_tokens"@.len() == 14);
    reveal_strlit("minimum_tokens");
    assert("minimum_tokens"@.len() == 14);
    reveal_strlit("echo");
    assert("echo"@.len() == 4);
    reveal_strlit("temperature");
    assert("temperature"@.len() == 11);
    reveal_strlit("top_k");
    assert("top_k"@.len() == 5);
    reveal_strlit("top_p");
    assert("top_p"@.len() == 5);
    reveal_strlit("presence_penalty");
    assert("presence_penalty"@.len() == 16);
    reveal_strlit("frequency_penalty");
    assert("frequency_penalty"@.len() == 17);
    reveal_strlit("sequence_penalty");
    assert("sequence_penalty"@.len() == 16);
    reveal_strlit("sequence_penalty_min_length");
    assert("sequence_penalty_min_length"@.len() == 27);
    reveal_strlit("repetition_penalties_include_prompt");
    assert("repetition_penalties_include_prompt"@.len() == 35);
    reveal_strlit("repetition_penalties_include_completion");
    assert("repetition_penalties_include_completion"@.len() == 39);
    reveal_strlit("use_multiplicative_presence_penalty");
    assert("use_multiplicative_presence_penalty"@.len() == 35);
    reveal_strlit("use_multiplicative_frequency_penalty");
    assert("use_multiplicative_frequency_penalty"@.len() == 36);
    reveal_strlit("use_multiplicative_sequence_penalty");
    assert("use_multiplicative_sequence_penalty"@.len() == 35);
    reveal_strlit("penalty_exceptions");
    assert("penalty_exceptions"@.len() == 18);
    reveal_strlit("penalty_bias");
    assert("penalty_bias"@.len() == 12);
    reveal_strlit("penalty_exceptions_include_stop_sequences");
    assert("penalty_exceptions_include_stop_sequences"@.len() == 41);
    reveal_strlit("best_of");
    assert("best_of"@.len() == 7);
    reveal_strlit("log_probs");
    assert("log_probs"@.len() == 9);
    reveal_strlit("stop_sequences");
    assert("stop_sequences"@.len() == 14);
    reveal_strlit("tokens");
    assert("tokens"@.len() == 6);
    reveal_strlit("raw_completion");
    assert("raw_completion"@.len() == 14);
    reveal_strlit("disable_optimizations");
    assert("disable_optimizations"@.len() == 21);
    reveal_strlit("completion_bias_inclusion");
    assert("completion_bias_inclusion"@.len() == 25);
    reveal_strlit("completion_bias_inclusion_first_token_only");
    assert("completion_bias_inclusion_first_token_only"@.len() == 42);
    reveal_strlit("completion_bias_exclusion");
    assert("completion_bias_exclusion"@.len() == 25);
    reveal_strlit("completion_bias_exclusion_first_token_only");
    assert("completion_bias_exclusion_first_token_only"@.len() == 42);
    reveal_strlit("contextual_control_threshold");
    assert("contextual_control_threshold"@.len() == 28);
    reveal_strlit("control_log_additive");
    assert("control_log_additive"@.len() == 20);
    reveal_strlit("logit_bias");
    assert("logit_bias"@.len() == 10);
    let fields = r.spec_fields();
    assert(fields[22].0 == "n"@);
    assert forall|i: int| 0 <= i < fields.len() && i != 22 implies (#[trigger] fields[i]).0
        != fields[22].0 by {
        if i == 0 {
            assert(fields[0].0 == "model"@);
        } else if i == 1 {
            assert(fields[1].0 == "hosting"@);
        } else if i == 2 {
            assert(fields[2].0 == "prompt"@);
        } else if i == 3 {
            assert(fields[3].0 == "maximum_tokens"@);
        } else if i == 4 {
            assert(fields[4].0 == "minimum_tokens"@);
        } else if i == 5 {
            assert(fields[5].0 == "echo"@);
        } else if i == 6 {
            assert(fields[6].0 == "temperature"@);
        } else if i == 7 {
            assert(fields[7].0 == "top_k"@);
        } else if i == 8 {
            assert(fields[8].0 == "top_p"@);
        } else if i == 9 {
            assert(fields[9].0 == "presence_penalty"@);
        } else if i == 10 {
            assert(fields[10].0 == "frequency_penalty"@);
        } else if i == 11 {
            assert(fields[11].0 == "sequence_penalty"@);
        } else if i == 12 {
            assert(fields[12].0 == "sequence_penalty_min_length"@);
        } else if i == 13 {
            assert(fields[13].0 == "repetition_penalties_include_prompt"@);
        } else if i == 14 {
            assert(fields[14].0 == "repetition_penalties_include_completion"@);
        } else if i == 15 {
            assert(fields[15].0 == "use_multiplicative_presence_penalty"@);
        } else if i == 16 {
            assert(fields[16].0 == "use_multiplicative_frequency_penalty"@);
        } else if i == 17 {
            assert(fields[17].0 == "use_multiplicative_sequence_penalty"@);
        } else if i == 18 {
            assert(fields[18].0 == "penalty_exceptions"@);
        } else if i == 19 {
            assert(fields[19].0 == "penalty_bias"@);
        } else if i == 20 {
            assert(fields[20].0 == "penalty_exceptions_include_stop_sequences"@);
        } else if i == 21 {
            assert(fields[21].0 == "best_of"@);
        } else if i == 23 {
            assert(fields[23].0 == "log_probs"@);
        } else if i == 24 {
            assert(fields[24].0 == "stop_sequences"@);
        } else if i == 25 {
            assert(fields[25].0 == "tokens"@);
        } else if i == 26 {
            assert(fields[26].0 == "raw_completion"@);
        } else if i == 27 {
            assert(fields[27].0 == "disable_optimizations"@);
        } else if i == 28 {
            assert(fields[28].0 == "completion_bias_inclusion"@);
        } else if i == 29 {
            assert(fields[29].0 == "completion_bias_inclusion_first_token_only"@);
        } else if i == 30 {
            assert(fields[30].0 == "completion_bias_exclusion"@);
        } else if i == 31 {
            assert(fields[31].0 == "completion_bias_exclusion_first_token_only"@);
        } else if i == 32 {
            assert(fields[32].0 == "contextual_control_threshold"@);
        } else if i == 33 {
            assert(fields[33].0 == "control_log_additive"@);
        } else if i == 34 {
            assert(fields[34].0 == "logit_bias"@);
        } else {
        }
    }
    lemma_sparse_lookup(fields, 22);
}

#[verifier::rlimit(100)]
proof fn lemma_field_log_probs(r: CompletionRequest)
    ensures
        obj_lookup(r.spec_json(), "log_probs"@) == opt_i32_json(r.log_probs),
{
    reveal_strlit("log_probs");
    assert("log_probs"@.len() == 9);
    reveal_strlit("model");
    assert("model"@.len() == 5);
    reveal_strlit("hosting");
    assert("hosting"@.len() == 7);
    reveal_strlit("prompt");
    assert("prompt"@.len() == 6);
    reveal_strlit("maximum_tokens");
    assert("maximum_tokens"@.len() == 14);
    reveal_strlit("minimum_tokens");
    assert("minimum_tokens"@.len() == 14);
    reveal_strlit("echo");
    assert("echo"@.len() == 4);
    reveal_strlit("temperature");
    assert("temperature"@.len() == 11);
    reveal_strlit("top_k");
    assert("top_k"@.len() == 5);
    reveal_strlit("top_p");
    assert("top_p"@.len() == 5);
    reveal_strlit("presence_penalty");
    assert("presence_penalty"@.len() == 16);
    reveal_strlit("frequency_penalty");
    assert("frequency_penalty"@.len() == 17);
    reveal_strlit("sequence_penalty");
    assert("sequence_penalty"@.len() == 16);
    reveal_strlit("sequence_penalty_min_length");
    assert("sequence_penalty_min_length"@.len() == 27);
    reveal_strlit("repetition_penalties_include_prompt");
    assert("repetition_penalties_include_prompt"@.len() == 35);
    reveal_strlit("repetition_penalties_include_completion");
    assert("repetition_penalties_include_completion"@.len() == 39);
    reveal_strlit("use_multiplicative_presence_penalty");
    assert("use_multiplicative_presence_penalty"@.len() == 35);
    reveal_strlit("use_multiplicative_frequency_penalty");
    assert("use_multiplicative_frequency_penalty"@.len() == 36);
    reveal_strlit("use_multiplicative_sequence_penalty");
    assert("use_multiplicative_sequence_penalty"@.len() == 35);
    reveal_strlit("penalty_exceptions");
    assert("penalty_exceptions"@.len() == 18);
    reveal_strlit("penalty_bias");
    assert("penalty_bias"@.len() == 12);
    reveal_strlit("penalty_exceptions_include_stop_sequences");
    assert("penalty_exceptions_include_stop_sequences"@.len() == 41);
    reveal_strlit("best_of");
    assert("best_of"@.len() == 7);
    reveal_strlit("n");
    assert("n"@.len() == 1);
    reveal_strlit("stop_sequences");
    assert("stop_sequences"@.len() == 14);
    reveal_strlit("tokens");
    assert("tokens"@.len() == 6);
    reveal_strlit("raw_completion");
    assert("raw_completion"@.len() == 14);
    reveal_strlit("disable_optimizations");
    assert("disable_optimizations"@.len() == 21);
    reveal_strlit("completion_bias_inclusion");
    assert("completion_bias_inclusion"@.len() == 25);
    reveal_strlit("completion_bias_inclusion_first_token_only");
    assert("completion_bias_inclusion_first_token_only"@.len() == 42);
    reveal_strlit("completion_bias_exclusion");
    assert("completion_bias_exclusion"@.len() == 25);
    reveal_strlit("completion_bias_exclusion_first_token_only");
    assert("completion_bias_exclusion_first_token_only"@.len() == 42);
    reveal_strlit("contextual_control_threshold");
    assert("contextual_control_threshold"@.len() == 28);
    reveal_strlit("control_log_additive");
    assert("control_log_additive"@.len() == 20);
    reveal_strlit("logit_bias");
    assert("logit_bias"@.len() == 10);
    let fields = r.spec_fields();
    assert(fields[23].0 == "log_probs"@);
    assert forall|i: int| 0 <= i < fields.len() && i != 23 implies (#[trigger] fields[i]).0
        != fields[23].0 by {
        if i == 0 {
            assert(fields[0].0 == "model"@);
        } else if i == 1 {
            assert(fields[1].0 == "hosting"@);
        } else if i == 2 {
            assert(fields[2].0 == "prompt"@);
        } else if i == 3 {
            assert(fields[3].0 == "maximum_tokens"@);
        } else if i == 4 {
            assert(fields[4].0 == "minimum_tokens"@);
        } else if i == 5 {
            assert(fields[5].0 == "echo"@);
        } else if i == 6 {
            assert(fields[6].0 == "temperature"@);
        } else if i == 7 {
            assert(fields[7].0 == "top_k"@);
        } else if i == 8 {
            assert(fields[8].0 == "top_p"@);
        } else if i == 9 {
            assert(fields[9].0 == "presence_penalty"@);
        } else if i == 10 {
            assert(fields[10].0 == "frequency_penalty"@);
        } else if i == 11 {
            assert(fields[11].0 == "sequence_penalty"@);
        } else if i == 12 {
            assert(fields[12].0 == "sequence_penalty_min_length"@);
        } else if i == 13 {
            assert(fields[13].0 == "repetition_penalties_include_prompt"@);
        } else if i == 14 {
            assert(fields[14].0 == "repetition_penalties_include_completion"@);
        } else if i == 15 {
            assert(fields[15].0 == "use_multiplicative_presence_penalty"@);
        } else if i == 16 {
            assert(fields[16].0 == "use_multiplicative_frequency_penalty"@);
        } else if i == 17 {
            assert(fields[17].0 == "use_multiplicative_sequence_penalty"@);
        } else if i == 18 {
            assert(fields[18].0 == "penalty_exceptions"@);
        } else if i == 19 {
            assert(fields[19].0 == "penalty_bias"@);
        } else if i == 20 {
            assert(fields[20].0 == "penalty_exceptions_include_stop_sequences"@);
        } else if i == 21 {
            assert(fields[21].0 == "best_of"@);
        } else if i == 22 {
            assert(fields[22].0 == "n"@);
        } else if i == 24 {
            assert(fields[24].0 == "stop_sequences"@);
        } else if i == 25 {
            assert(fields[25].0 == "tokens"@);
        } else if i == 26 {
            assert(fields[26].0 == "raw_completion"@);
        } else if i == 27 {
            assert(fields[27].0 == "disable_optimizations"@);
        } else if i == 28 {
            assert(fields[28].0 == "completion_bias_inclusion"@);
        } else if i == 29 {
            assert(fields[29].0 == "completion_bias_inclusion_first_token_only"@);
        } else if i == 30 {
            assert(fields[30].0 == "completion_bias_exclusion"@);
        } else if i == 31 {
            assert(fields[31].0 == "completion_bias_exclusion_first_token_only"@);
        } else if i == 32 {
            assert(fields[32].0 == "contextual_control_threshold"@);
        } else if i == 33 {
            assert(fields[33].0 == "control_log_additive"@);
        } else if i == 34 {
            assert(fields[34].0 == "logit_bias"@);
        } else {
        }
    }
    lemma_sparse_lookup(fields, 23);
}

#[verifier::rlimit(100)]
proof fn lemma_field_stop_sequences(r: CompletionRequest)
    ensures
        obj_lookup(r.spec_json(), "stop_sequences"@) == opt_str_array_json(r.stop_sequences),
{
    reveal_strlit("stop_sequences");
    assert("stop_sequences"@.len() == 14);
    reveal_strlit("model");
    assert("model"@.len() == 5);
    reveal_strlit("hosting");
    assert("hosting"@.len() == 7);
    reveal_strlit("prompt");
    assert("prompt"@.len() == 6);
    reveal_strlit("maximum_tokens");
    assert("maximum_tokens"@.len() == 14);
    assert("stop_sequences"@[0] != "maximum_tokens"@[0]);
    reveal_strlit("minimum_tokens");
    assert("minimum_tokens"@.len() == 14);
    assert("stop_sequences"@[0] != "minimum_tokens"@[0]);
    reveal_strlit("echo");
    assert("echo"@.len() == 4);
    reveal_strlit("temperature");
    assert("temperature"@.len() == 11);
    reveal_strlit("top_k");
    assert("top_k"@.len() == 5);
    reveal_strlit("top_p");
    assert("top_p"@.len() == 5);
    reveal_strlit("presence_penalty");
    assert("presence_penalty"@.len() == 16);
    reveal_strlit("frequency_penalty");
    assert("frequency_penalty"@.len() == 17);
    reveal_strlit("sequence_penalty");
    assert("sequence_penalty"@.len() == 16);
    reveal_strlit("sequence_penalty_min_length");
    assert("sequence_penalty_min_length"@.len() == 27);
    reveal_strlit("repetition_penalties_include_prompt");
    assert("repetition_penalties_include_prompt"@.len() == 35);
    reveal_strlit("repetition_penalties_include_completion");
    assert("repetition_penalties_include_completion"@.len() == 39);
    reveal_strlit("use_multiplicative_presence_penalty");
    assert("use_multiplicative_presence_penalty"@.len() == 35);
    reveal_strlit("use_multiplicative_frequency_penalty");
    assert("use_multiplicative_frequency_penalty"@.len() == 36);
    reveal_strlit("use_multiplicative_sequence_penalty");
    assert("use_multiplicative_sequence_penalty"@.len() == 35);
    reveal_strlit("penalty_exceptions");
    assert("penalty_exceptions"@.len() == 18);
    reveal_strlit("penalty_bias");
    assert("penalty_bias"@.len() == 12);
    reveal_strlit("penalty_exceptions_include_stop_sequences");
    assert("penalty_exceptions_include_stop_sequences"@.len() == 41);
    reveal_strlit("best_of");
    assert("best_of"@.len() == 7);
    reveal_strlit("n");
    assert("n"@.len() == 1);
    reveal_strlit("log_probs");
    assert("log_probs"@.len() == 9);
    reveal_strlit("tokens");
    assert("tokens"@.len() == 6);
    reveal_strlit("raw_completion");
    assert("raw_completion"@.len() == 14);
    assert("stop_sequences"@[0] != "raw_completion"@[0]);
    reveal_strlit("disable_optimizations");
    assert("disable_optimizations"@.len() == 21);
    reveal_strlit("completion_bias_inclusion");
    assert("completion_bias_inclusion"@.len() == 25);
    reveal_strlit("completion_bias_inclusion_first_token_only");
    assert("completion_bias_inclusion_first_token_only"@.len() == 42);
    reveal_strlit("completion_bias_exclusion");
    assert("completion_bias_exclusion"@.len() == 25);
    reveal_strlit("completion_bias_exclusion_first_token_only");
    assert("completion_bias_exclusion_first_token_only"@.len() == 42);
    reveal_strlit("contextual_control_threshold");
    assert("contextual_control_threshold"@.len() == 28);
    reveal_strlit("control_log_additive");
    assert("control_log_additive"@.len() == 20);
    reveal_strlit("logit_bias");
    assert("logit_bias"@.len() == 10);
    let fields = r.spec_fields();
    assert(fields[24].0 == "stop_sequences"@);
    assert forall|i: int| 0 <= i < fields.len() && i != 24 implies (#[trigger] fields[i]).0
        != fields[24].0 by {
        if i == 0 {
            assert(fields[0].0 == "model"@);
        } else if i == 1 {
            assert(fields[1].0 == "hosting"@);
        } else if i == 2 {
            assert(fields[2].0 == "prompt"@);
        } else if i == 3 {
            assert(fields[3].0 == "maximum_tokens"@);
        } else if i == 4 {
            assert(fields[4].0 == "minimum_tokens"@);
        } else if i == 5 {
            assert(fields[5].0 == "echo"@);
        } else if i == 6 {
            assert(fields[6].0 == "temperature"@);
        } else if i == 7 {
            assert(fields[7].0 == "top_k"@);
        } else if i == 8 {
            assert(fields[8].0 == "top_p"@);
        } else if i == 9 {
            assert(fields[9].0 == "presence_penalty"@);
        } else if i == 10 {
            assert(fields[10].0 == "frequency_penalty"@);
        } else if i == 11 {
            assert(fields[11].0 == "sequence_penalty"@);
        } else if i == 12 {
            assert(fields[12].0 == "sequence_penalty_min_length"@);
        } else if i == 13 {
            assert(fields[13].0 == "repetition_penalties_include_prompt"@);
        } else if i == 14 {
            assert(fields[14].0 == "repetition_penalties_include_completion"@);
        } else if i == 15 {
            assert(fields[15].0 == "use_multiplicative_presence_penalty"@);
        } else if i == 16 {
            assert(fields[16].0 == "use_multiplicative_frequency_penalty"@);
        } else if i == 17 {
            assert(fields[17].0 == "use_multiplicative_sequence_penalty"@);
        } else if i == 18 {
            assert(fields[18].0 == "penalty_exceptions"@);
        } else if i == 19 {
            assert(fields[19].0 == "penalty_bias"@);
        } else if i == 20 {
            assert(fields[20].0 == "penalty_exceptions_include_stop_sequences"@);
        } else if i == 21 {
            assert(fields[21].0 == "best_of"@);
        } else if i == 22 {
            assert(fields[22].0 == "n"@);
        } else if i == 23 {
            assert(fields[23].0 == "log_probs"@);
        } else if i == 25 {
            assert(fields[25].0 == "tokens"@);
        } else if i == 26 {
            assert(fields[26].0 == "raw_completion"@);
        } else if i == 27 {
            assert(fields[27].0 == "disable_optimizations"@);
        } else if i == 28 {
            assert(fields[28].0 == "completion_bias_inclusion"@);
        } else if i == 29 {
            assert(fields[29].0 == "completion_bias_inclusion_first_token_only"@);
        } else if i == 30 {
            assert(fields[30].0 == "completion_bias_exclusion"@);
        } else if i == 31 {
            assert(fields[31].0 == "completion_bias_exclusion_first_token_only"@);
        } else if i == 32 {
            assert(fields[32].0 == "contextual_control_threshold"@);
        } else if i == 33 {
            assert(fields[33].0 == "control_log_additive"@);
        } else if i == 34 {
            assert(fields[34].0 == "logit_bias"@);
        } else {
        }
    }
    lemma_sparse_lookup(fields, 24);
}

#[verifier::rlimit(100)]
proof fn lemma_field_tokens(r: CompletionRequest)
    ensures
        obj_lookup(r.spec_json(), "tokens"@) == opt_bool_json(r.tokens),
{
    reveal_strlit("tokens");
    assert("tokens"@.len() == 6);
    reveal_strlit("model");
    assert("model"@.len() == 5);
    reveal_strlit("hosting");
    assert("hosting"@.len() == 7);
    reveal_strlit("prompt");
    assert("prompt"@.len() == 6);
    assert("tokens"@[0] != "prompt"@[0]);
    reveal_strlit("maximum_tokens");
    assert("maximum_tokens"@.len() == 14);
    reveal_strlit("minimum_tokens");
    assert("minimum_tokens"@.len() == 14);
    reveal_strlit("echo");
    assert("echo"@.len() == 4);
    reveal_strlit("temperature");
    assert("temperature"@.len() == 11);
    reveal_strlit("top_k");
    assert("top_k"@.len() == 5);
    reveal_strlit("top_p");
    assert("top_p"@.len() == 5);
    reveal_strlit("presence_penalty");
    assert("presence_penalty"@.len() == 16);
    reveal_strlit("frequency_penalty");
    assert("frequency_penalty"@.len() == 17);
    reveal_strlit("sequence_penalty");
    assert("sequence_penalty"@.len() == 16);
    reveal_strlit("sequence_penalty_min_length");
    assert("sequence_penalty_min_length"@.len() == 27);
    reveal_strlit("repetition_penalties_include_prompt");
    assert("repetition_penalties_include_prompt"@.len() == 35);
    reveal_strlit("repetition_penalties_include_completion");
    assert("repetition_penalties_include_completion"@.len() == 39);
    reveal_strlit("use_multiplicative_presence_penalty");
    assert("use_multiplicative_presence_penalty"@.len() == 35);
    reveal_strlit("use_multiplicative_frequency_penalty");
    assert("use_multiplicative_frequency_penalty"@.len() == 36);
    reveal_strlit("use_multiplicative_sequence_penalty");
    assert("use_multiplicative_sequence_penalty"@.len() == 35);
    reveal_strlit("penalty_exceptions");
    assert("penalty_exceptions"@.len() == 18);
    reveal_strlit("penalty_bias");
    assert("penalty_bias"@.len() == 12);
    reveal_strlit("penalty_exceptions_include_stop_sequences");
    assert("penalty_exceptions_include_stop_sequences"@.len() == 41);
    reveal_strlit("best_of");
    assert("best_of"@.len() == 7);
    reveal_strlit("n");
    assert("n"@.len() == 1);
    reveal_strlit("log_probs");
    assert("log_probs"@.len() == 9);
    reveal_strlit("stop_sequences");
    assert("stop_sequences"@.len() == 14);
    reveal_strlit("raw_completion");
    assert("raw_completion"@.len() == 14);
    reveal_strlit("disable_optimizations");
    assert("disable_optimizations"@.len() == 21);
    reveal_strlit("completion_bias_inclusion");
    assert("completion_bias_inclusion"@.len() == 25);
    reveal_strlit("completion_bias_inclusion_first_token_only");
    assert("completion_bias_inclusion_first_token_only"@.len() == 42);
    reveal_strlit("completion_bias_exclusion");
    assert("completion_bias_exclusion"@.len() == 25);
    reveal_strlit("completion_bias_exclusion_first_token_only");
    assert("completion_bias_exclusion_first_token_only"@.len() == 42);
    reveal_strlit("contextual_control_threshold");
    assert("contextual_control_threshold"@.len() == 28);
    reveal_strlit("control_log_additive");
    assert("control_log_additive"@.len() == 20);
    reveal_strlit("logit_bias");
    assert("logit_bias"@.len() == 10);
    let fields = r.spec_fields();
    assert(fields[25].0 == "tokens"@);
    assert forall|i: int| 0 <= i < fields.len() && i != 25 implies (#[trigger] fields[i]).0
        != fields[25].0 by {
        if i == 0 {
            assert(fields[0].0 == "model"@);
        } else if i == 1 {
            assert(fields[1].0 == "hosting"@);
        } else if i == 2 {
            assert(fields[2].0 == "prompt"@);
        } else if i == 3 {
            assert(fields[3].0 == "maximum_tokens"@);
        } else if i == 4 {
            assert(fields[4].0 == "minimum_tokens"@);
        } else if i == 5 {
            assert(fields[5].0 == "echo"@);
        } else if i == 6 {
            assert(fields[6].0 == "temperature"@);
        } else if i == 7 {
            assert(fields[7].0 == "top_k"@);
        } else if i == 8 {
            assert(fields[8].0 == "top_p"@);
        } else if i == 9 {
            assert(fields[9].0 == "presence_penalty"@);
        } else if i == 10 {
            assert(fields[10].0 == "frequency_penalty"@);
        } else if i == 11 {
            assert(fields[11].0 == "sequence_penalty"@);
        } else if i == 12 {
            assert(fields[12].0 == "sequence_penalty_min_length"@);
        } else if i == 13 {
            assert(fields[13].0 == "repetition_penalties_include_prompt"@);
        } else if i == 14 {
            assert(fields[14].0 == "repetition_penalties_include_completion"@);
        } else if i == 15 {
            assert(fields[15].0 == "use_multiplicative_presence_penalty"@);
        } else if i == 16 {
            assert(fields[16].0 == "use_multiplicative_frequency_penalty"@);
        } else if i == 17 {
            assert(fields[17].0 == "use_multiplicative_sequence_penalty"@);
        } else if i == 18 {
            assert(fields[18].0 == "penalty_exceptions"@);
        } else if i == 19 {
            assert(fields[19].0 == "penalty_bias"@);
        } else if i == 20 {
            assert(fields[20].0 == "penalty_exceptions_include_stop_sequences"@);
        } else if i == 21 {
            assert(fields[21].0 == "best_of"@);
        } else if i == 22 {
            assert(fields[22].0 == "n"@);
        } else if i == 23 {
            assert(fields[23].0 == "log_probs"@);
        } else if i == 24 {
            assert(fields[24].0 == "stop_sequences"@);
        } else if i == 26 {
            assert(fields[26].0 == "raw_completion"@);
        } else if i == 27 {
            assert(fields[27].0 == "disable_optimizations"@);
        } else if i == 28 {
            assert(fields[28].0 == "completion_bias_inclusion"@);
        } else if i == 29 {
            assert(fields[29].0 == "completion_bias_inclusion_first_token_only"@);
        } else if i == 30 {
            assert(fields[30].0 == "completion_bias_exclusion"@);
        } else if i == 31 {
            assert(fields[31].0 == "completion_bias_exclusion_first_token_only"@);
        } else if i == 32 {
            assert(fields[32].0 == "contextual_control_threshold"@);
        } else if i == 33 {
            assert(fields[33].0 == "control_log_additive"@);
        } else if i == 34 {
            assert(fields[34].0 == "logit_bias"@);
        } else {
        }
    }
    lemma_sparse_lookup(fields, 25);
}

#[verifier::rlimit(100)]
proof fn lemma_field_raw_completion(r: CompletionRequest)
    ensures
        obj_lookup(r.spec_json(), "raw_completion"@) == opt_bool_json(r.raw_completion),
{
    reveal_strlit("raw_completion");
    assert("raw_completion"@.len() == 14);
    reveal_strlit("model");
    assert("model"@.len() == 5);
    reveal_strlit("hosting");
    assert("hosting"@.len() == 7);
    reveal_strlit("prompt");
    assert("prompt"@.len() == 6);
    reveal_strlit("maximum_tokens");
    assert("maximum_tokens"@.len() == 14);
    assert("raw_completion"@[0] != "maximum_tokens"@[0]);
    reveal_strlit("minimum_tokens");
    assert("minimum_tokens"@.len() == 14);
    assert("raw_completion"@[0] != "minimum_tokens"@[0]);
    reveal_strlit("echo");
    assert("echo"@.len() == 4);
    reveal_strlit("temperature");
    assert("temperature"@.len() == 11);
    reveal_strlit("top_k");
    assert("top_k"@.len() == 5);
    reveal_strlit("top_p");
    assert("top_p"@.len() == 5);
    reveal_strlit("presence_penalty");
    assert("presence_penalty"@.len() == 16);
    reveal_strlit("frequency_penalty");
    assert("frequency_penalty"@.len() == 17);
    reveal_strlit("sequence_penalty");
    assert("sequence_penalty"@.len() == 16);
    reveal_strlit("sequence_penalty_min_length");
    assert("sequence_penalty_min_length"@.len() == 27);
    reveal_strlit("repetition_penalties_include_prompt");
    assert("repetition_penalties_include_prompt"@.len() == 35);
    reveal_strlit("repetition_penalties_include_completion");
    assert("repetition_penalties_include_completion"@.len() == 39);
    reveal_strlit("use_multiplicative_presence_penalty");
    assert("use_multiplicative_presence_penalty"@.len() == 35);
    reveal_strlit("use_multiplicative_frequency_penalty");
    assert("use_multiplicative_frequency_penalty"@.len() == 36);
    reveal_strlit("use_multiplicative_sequence_penalty");
    assert("use_multiplicative_sequence_penalty"@.len() == 35);
    reveal_strlit("penalty_exceptions");
    assert("penalty_exceptions"@.len() == 18);
    reveal_strlit("penalty_bias");
    assert("penalty_bias"@.len() == 12);
    reveal_strlit("penalty_exceptions_include_stop_sequences");
    assert("penalty_exceptions_include_stop_sequences"@.len() == 41);
    reveal_strlit("best_of");
    assert("best_of"@.len() == 7);
    reveal_strlit("n");
    assert("n"@.len() == 1);
    reveal_strlit("log_probs");
    assert("log_probs"@.len() == 9);
    reveal_strlit("stop_sequences");
    assert("stop_sequences"@.len() == 14);
    assert("raw_completion"@[0] != "stop_sequences"@[0]);
    reveal_strlit("tokens");
    assert("tokens"@.len() == 6);
    reveal_strlit("disable_optimizations");
    assert("disable_optimizations"@.len() == 21);
    reveal_strlit("completion_bias_inclusion");
    assert("completion_bias_inclusion"@.len() == 25);
    reveal_strlit("completion_bias_inclusion_first_token_only");
    assert("completion_bias_inclusion_first_token_only"@.len() == 42);
    reveal_strlit("completion_bias_exclusion");
    assert("completion_bias_exclusion"@.len() == 25);
    reveal_strlit("completion_bias_exclusion_first_token_only");
    assert("completion_bias_exclusion_first_token_only"@.len() == 42);
    reveal_strlit("contextual_control_threshold");
    assert("contextual_control_threshold"@.len() == 28);
    reveal_strlit("control_log_additive");
    assert("control_log_additive"@.len() == 20);
    reveal_strlit("logit_bias");
    assert("logit_bias"@.len() == 10);
    let fields = r.spec_fields();
    assert(fields[26].0 == "raw_completion"@);
    assert forall|i: int| 0 <= i < fields.len() && i != 26 implies (#[trigger] fields[i]).0
        != fields[26].0 by {
        if i == 0 {
            assert(fields[0].0 == "model"@);
        } else if i == 1 {
            assert(fields[1].0 == "hosting"@);
        } else if i == 2 {
            assert(fields[2].0 == "prompt"@);
        } else if i == 3 {
            assert(fields[3].0 == "maximum_tokens"@);
        } else if i == 4 {
            assert(fields[4].0 == "minimum_tokens"@);
        } else if i == 5 {
            assert(fields[5].0 == "echo"@);
        } else if i == 6 {
            assert(fields[6].0 == "temperature"@);
        } else if i == 7 {
            assert(fields[7].0 == "top_k"@);
        } else if i == 8 {
            assert(fields[8].0 == "top_p"@);
        } else if i == 9 {
            assert(fields[9].0 == "presence_penalty"@);
        } else if i == 10 {
            assert(fields[10].0 == "frequency_penalty"@);
        } else if i == 11 {
            assert(fields[11].0 == "sequence_penalty"@);
        } else if i == 12 {
            assert(fields[12].0 == "sequence_penalty_min_length"@);
        } else if i == 13 {
            assert(fields[13].0 == "repetition_penalties_include_prompt"@);
        } else if i == 14 {
            assert(fields[14].0 == "repetition_penalties_include_completion"@);
        } else if i == 15 {
            assert(fields[15].0 == "use_multiplicative_presence_penalty"@);
        } else if i == 16 {
            assert(fields[16].0 == "use_multiplicative_frequency_penalty"@);
        } else if i == 17 {
            assert(fields[17].0 == "use_multiplicative_sequence_penalty"@);
        } else if i == 18 {
            assert(fields[18].0 == "penalty_exceptions"@);
        } else if i == 19 {
            assert(fields[19].0 == "penalty_bias"@);
        } else if i == 20 {
            assert(fields[20].0 == "penalty_exceptions_include_stop_sequences"@);
        } else if i == 21 {
            assert(fields[21].0 == "best_of"@);
        } else if i == 22 {
            assert(fields[22].0 == "n"@);
        } else if i == 23 {
            assert(fields[23].0 == "log_probs"@);
        } else if i == 24 {
            assert(fields[24].0 == "stop_sequences"@);
        } else if i == 25 {
            assert(fields[25].0 == "tokens"@);
        } else if i == 27 {
            assert(fields[27].0 == "disable_optimizations"@);
        } else if i == 28 {
            assert(fields[28].0 == "completion_bias_inclusion"@);
        } else if i == 29 {
            assert(fields[29].0 == "completion_bias_inclusion_first_token_only"@);
        } else if i == 30 {
            assert(fields[30].0 == "completion_bias_exclusion"@);
        } else if i == 31 {
            assert(fields[31].0 == "completion_bias_exclusion_first_token_only"@);
        } else if i == 32 {
            assert(fields[32].0 == "contextual_control_threshold"@);
        } else if i == 33 {
            assert(fields[33].0 == "control_log_additive"@);
        } else if i == 34 {
            assert(fields[34].0 == "logit_bias"@);
        } else {
        }
    }
    lemma_sparse_lookup(fields, 26);
}

#[verifier::rlimit(100)]
proof fn lemma_field_disable_optimizations(r: CompletionRequest)
    ensures
        obj_lookup(r.spec_json(), "disable_optimizations"@) == opt_bool_json(r.disable_optimizations),
{
    reveal_strlit("disable_optimizations");
    assert("disable_optimizations"@.len() == 21);
    reveal_strlit("model");
    assert("model"@.len() == 5);
    reveal_strlit("hosting");
    assert("hosting"@.len() == 7);
    reveal_strlit("prompt");
    assert("prompt"@.len() == 6);
    reveal_strlit("maximum_tokens");
    assert("maximum_tokens"@.len() == 14);
    reveal_strlit("minimum_tokens");
    assert("minimum_tokens"@.len() == 14);
    reveal_strlit("echo");
    assert("echo"@.len() == 4);
    reveal_strlit("temperature");
    assert("temperature"@.len() == 11);
    reveal_strlit("top_k");
    assert("top_k"@.len() == 5);
    reveal_strlit("top_p");
    assert("top_p"@.len() == 5);
    reveal_strlit("presence_penalty");
    assert("presence_penalty"@.len() == 16);
    reveal_strlit("frequency_penalty");
    assert("frequency_penalty"@.len() == 17);
    reveal_strlit("sequence_penalty");
    assert("sequence_penalty"@.len() == 16);
    reveal_strlit("sequence_penalty_min_length");
    assert("sequence_penalty_min_length"@.len() == 27);
    reveal_strlit("repetition_penalties_include_prompt");
    assert("repetition_penalties_include_prompt"@.len() == 35);
    reveal_strlit("repetition_penalties_include_completion");
    assert("repetition_penalties_include_completion"@.len() == 39);
    reveal_strlit("use_multiplicative_presence_penalty");
    assert("use_multiplicative_presence_penalty"@.len() == 35);
    reveal_strlit("use_multiplicative_frequency_penalty");
    assert("use_multiplicative_frequency_penalty"@.len() == 36);
    reveal_strlit("use_multiplicative_sequence_penalty");
    assert("use_multiplicative_sequence_penalty"@.len() == 35);
    reveal_strlit("penalty_exceptions");
    assert("penalty_exceptions"@.len() == 18);
    reveal_strlit("penalty_bias");
    assert("penalty_bias"@.len() == 12);
    reveal_strlit("penalty_exceptions_include_stop_sequences");
    assert("penalty_exceptions_include_stop_sequences"@.len() == 41);
    reveal_strlit("best_of");
    assert("best_of"@.len() == 7);
    reveal_strlit("n");
    assert("n"@.len() == 1);
    reveal_strlit("log_probs");
    assert("log_probs"@.len() == 9);
    reveal_strlit("stop_sequences");
    assert("stop_sequences"@.len() == 14);
    reveal_strlit("tokens");
    assert("tokens"@.len() == 6);
    reveal_strlit("raw_completion");
    assert("raw_completion"@.len() == 14);
    reveal_strlit("completion_bias_inclusion");
    assert("completion_bias_inclusion"@.len() == 25);
    reveal_strlit("completion_bias_inclusion_first_token_only");
    assert("completion_bias_inclusion_first_token_only"@.len() == 42);
    reveal_strlit("completion_bias_exclusion");
    assert("completion_bias_exclusion"@.len() == 25);
    reveal_strlit("completion_bias_exclusion_first_token_only");
    assert("completion_bias_exclusion_first_token_only"@.len() == 42);
    reveal_strlit("contextual_control_threshold");
    assert("contextual_control_threshold"@.len() == 28);
    reveal_strlit("control_log_additive");
    assert("control_log_additive"@.len() == 20);
    reveal_strlit("logit_bias");
    assert("logit_bias"@.len() == 10);
    let fields = r.spec_fields();
    assert(fields[27].0 == "disable_optimizations"@);
    assert forall|i: int| 0 <= i < fields.len() && i != 27 implies (#[trigger] fields[i]).0
        != fields[27].0 by {
        if i == 0 {
            assert(fields[0].0 == "model"@);
        } else if i == 1 {
            assert(fields[1].0 == "hosting"@);
        } else if i == 2 {
            assert(fields[2].0 == "prompt"@);
        } else if i == 3 {
            assert(fields[3].0 == "maximum_tokens"@);
        } else if i == 4 {
            assert(fields[4].0 == "minimum_tokens"@);
        } else if i == 5 {
            assert(fields[5].0 == "echo"@);
        } else if i == 6 {
            assert(fields[6].0 == "temperature"@);
        } else if i == 7 {
            assert(fields[7].0 == "top_k"@);
        } else if i == 8 {
            assert(fields[8].0 == "top_p"@);
        } else if i == 9 {
            assert(fields[9].0 == "presence_penalty"@);
        } else if i == 10 {
            assert(fields[10].0 == "frequency_penalty"@);
        } else if i == 11 {
            assert(fields[11].0 == "sequence_penalty"@);
        } else if i == 12 {
            assert(fields[12].0 == "sequence_penalty_min_length"@);
        } else if i == 13 {
            assert(fields[13].0 == "repetition_penalties_include_prompt"@);
        } else if i == 14 {
            assert(fields[14].0 == "repetition_penalties_include_completion"@);
        } else if i == 15 {
            assert(fields[15].0 == "use_multiplicative_presence_penalty"@);
        } else if i == 16 {
            assert(fields[16].0 == "use_multiplicative_frequency_penalty"@);
        } else if i == 17 {
            assert(fields[17].0 == "use_multiplicative_sequence_penalty"@);
        } else if i == 18 {
            assert(fields[18].0 == "penalty_exceptions"@);
        } else if i == 19 {
            assert(fields[19].0 == "penalty_bias"@);
        } else if i == 20 {
            assert(fields[20].0 == "penalty_exceptions_include_stop_sequences"@);
        } else if i == 21 {
            assert(fields[21].0 == "best_of"@);
        } else if i == 22 {
            assert(fields[22].0 == "n"@);
        } else if i == 23 {
            assert(fields[23].0 == "log_probs"@);
        } else if i == 24 {
            assert(fields[24].0 == "stop_sequences"@);
        } else if i == 25 {
            assert(fields[25].0 == "tokens"@);
        } else if i == 26 {
            assert(fields[26].0 == "raw_completion"@);
        } else if i == 28 {
            assert(fields[28].0 == "completion_bias_inclusion"@);
        } else if i == 29 {
            assert(fields[29].0 == "completion_bias_inclusion_first_token_only"@);
        } else if i == 30 {
            assert(fields[30].0 == "completion_bias_exclusion"@);
        } else if i == 31 {
            assert(fields[31].0 == "completion_bias_exclusion_first_token_only"@);
        } else if i == 32 {
            assert(fields[32].0 == "contextual_control_threshold"@);
        } else if i == 33 {
            assert(fields[33].0 == "control_log_additive"@);
        } else if i == 34 {
            assert(fields[34].0 == "logit_bias"@);
        } else {
        }
    }
    lemma_sparse_lookup(fields, 27);
}

#[verifier::rlimit(100)]
proof fn lemma_field_completion_bias_inclusion(r: CompletionRequest)
    ensures
        obj_lookup(r.spec_json(), "completion_bias_inclusion"@) == opt_str_array_json(r.completion_bias_inclusion),
{
    reveal_strlit("completion_bias_inclusion");
    assert("completion_bias_inclusion"@.len() == 25);
    reveal_strlit("model");
    assert("model"@.len() == 5);
    reveal_strlit("hosting");
    assert("hosting"@.len() == 7);
    reveal_strlit("prompt");
    assert("prompt"@.len() == 6);
    reveal_strlit("maximum_tokens");
    assert("maximum_tokens"@.len() == 14);
    reveal_strlit("minimum_tokens");
    assert("minimum_tokens"@.len() == 14);
    reveal_strlit("echo");
    assert("echo"@.len() == 4);
    reveal_strlit("temperature");
    assert("temperature"@.len() == 11);
    reveal_strlit("top_k");
    assert("top_k"@.len() == 5);
    reveal_strlit("top_p");
    assert("top_p"@.len() == 5);
    reveal_strlit("presence_penalty");
    assert("presence_penalty"@.len() == 16);
    reveal_strlit("frequency_penalty");
    assert("frequency_penalty"@.len() == 17);
    reveal_strlit("sequence_penalty");
    assert("sequence_penalty"@.len() == 16);
    reveal_strlit("sequence_penalty_min_length");
    assert("sequence_penalty_min_length"@.len() == 27);
    reveal_strlit("repetition_penalties_include_prompt");
    assert("repetition_penalties_include_prompt"@.len() == 35);
    reveal_strlit("repetition_penalties_include_completion");
    assert("repetition_penalties_include_completion"@.len() == 39);
    reveal_strlit("use_multiplicative_presence_penalty");
    assert("use_multiplicative_presence_penalty"@.len() == 35);
    reveal_strlit("use_multiplicative_frequency_penalty");
    assert("use_multiplicative_frequency_penalty"@.len() == 36);
    reveal_strlit("use_multiplicative_sequence_penalty");
    assert("use_multiplicative_sequence_penalty"@.len() == 35);
    reveal_strlit("penalty_exceptions");
    assert("penalty_exceptions"@.len() == 18);
    reveal_strlit("penalty_bias");
    assert("penalty_bias"@.len() == 12);
    reveal_strlit("penalty_exceptions_include_stop_sequences");
    assert("penalty_exceptions_include_stop_sequences"@.len() == 41);
    reveal_strlit("best_of");
    assert("best_of"@.len() == 7);
    reveal_strlit("n");
    assert("n"@.len() == 1);
    reveal_strlit("log_probs");
    assert("log_probs"@.len() == 9);
    reveal_strlit("stop_sequences");
    assert("stop_sequences"@.len() == 14);
    reveal_strlit("tokens");
    assert("tokens"@.len() == 6);
    reveal_strlit("raw_completion");
    assert("raw_completion"@.len() == 14);
    reveal_strlit("disable_optimizations");
    assert("disable_optimizations"@.len() == 21);
    reveal_strlit("completion_bias_inclusion_first_token_only");
    assert("completion_bias_inclusion_first_token_only"@.len() == 42);
    reveal_strlit("completion_bias_exclusion");
    assert("completion_bias_exclusion"@.len() == 25);
    assert("completion_bias_inclusion"@[16] != "completion_bias_exclusion"@[16]);
    reveal_strlit("completion_bias_exclusion_first_token_only");
    assert("completion_bias_exclusion_first_token_only"@.len() == 42);
    reveal_strlit("contextual_control_threshold");
    assert("contextual_control_threshold"@.len() == 28);
    reveal_strlit("control_log_additive");
    assert("control_log_additive"@.len() == 20);
    reveal_strlit("logit_bias");
    assert("logit_bias"@.len() == 10);
    let fields = r.spec_fields();
    assert(fields[28].0 == "completion_bias_inclusion"@);
    assert forall|i: int| 0 <= i < fields.len() && i != 28 implies (#[trigger] fields[i]).0
        != fields[28].0 by {
        if i == 0 {
            assert(fields[0].0 == "model"@);
        } else if i == 1 {
            assert(fields[1].0 == "hosting"@);
        } else if i == 2 {
            assert(fields[2].0 == "prompt"@);
        } else if i == 3 {
            assert(fields[3].0 == "maximum_tokens"@);
        } else if i == 4 {
            assert(fields[4].0 == "minimum_tokens"@);
        } else if i == 5 {
            assert(fields[5].0 == "echo"@);
        } else if i == 6 {
            assert(fields[6].0 == "temperature"@);
        } else if i == 7 {
            assert(fields[7].0 == "top_k"@);
        } else if i == 8 {
            assert(fields[8].0 == "top_p"@);
        } else if i == 9 {
            assert(fields[9].0 == "presence_penalty"@);
        } else if i == 10 {
            assert(fields[10].0 == "frequency_penalty"@);
        } else if i == 11 {
            assert(fields[11].0 == "sequence_penalty"@);
        } else if i == 12 {
            assert(fields[12].0 == "sequence_penalty_min_length"@);
        } else if i == 13 {
            assert(fields[13].0 == "repetition_penalties_include_prompt"@);
        } else if i == 14 {
            assert(fields[14].0 == "repetition_penalties_include_completion"@);
        } else if i == 15 {
            assert(fields[15].0 == "use_multiplicative_presence_penalty"@);
        } else if i == 16 {
            assert(fields[16].0 == "use_multiplicative_frequency_penalty"@);
        } else if i == 17 {
            assert(fields[17].0 == "use_multiplicative_sequence_penalty"@);
        } else if i == 18 {
            assert(fields[18].0 == "penalty_exceptions"@);
        } else if i == 19 {
            assert(fields[19].0 == "penalty_bias"@);
        } else if i == 20 {
            assert(fields[20].0 == "penalty_exceptions_include_stop_sequences"@);
        } else if i == 21 {
            assert(fields[21].0 == "best_of"@);
        } else if i == 22 {
            assert(fields[22].0 == "n"@);
        } else if i == 23 {
            assert(fields[23].0 == "log_probs"@);
        } else if i == 24 {
            assert(fields[24].0 == "stop_sequences"@);
        } else if i == 25 {
            assert(fields[25].0 == "tokens"@);
        } else if i == 26 {
            assert(fields[26].0 == "raw_completion"@);
        } else if i == 27 {
            assert(fields[27].0 == "disable_optimizations"@);
        } else if i == 29 {
            assert(fields[29].0 == "completion_bias_inclusion_first_token_only"@);
        } else if i == 30 {
            assert(fields[30].0 == "completion_bias_exclusion"@);
        } else if i == 31 {
            assert(fields[31].0 == "completion_bias_exclusion_first_token_only"@);
        } else if i == 32 {
            assert(fields[32].0 == "contextual_control_threshold"@);
        } else if i == 33 {
            assert(fields[33].0 == "control_log_additive"@);
        } else if i == 34 {
            assert(fields[34].0 == "logit_bias"@);
        } else {
        }
    }
    lemma_sparse_lookup(fields, 28);
}

#[verifier::rlimit(100)]
proof fn lemma_field_completion_bias_inclusion_first_token_only(r: CompletionRequest)
    ensures
        obj_lookup(r.spec_json(), "completion_bias_inclusion_first_token_only"@) == opt_bool_json(r.completion_bias_inclusion_first_token_only),
{
    reveal_strlit("completion_bias_inclusion_first_token_only");
    assert("completion_bias_inclusion_first_token_only"@.len() == 42);
    reveal_strlit("model");
    assert("model"@.len() == 5);
    reveal_strlit("hosting");
    assert("hosting"@.len() == 7);
    reveal_strlit("prompt");
    assert("prompt"@.len() == 6);
    reveal_strlit("maximum_tokens");
    assert("maximum_tokens"@.len() == 14);
    reveal_strlit("minimum_tokens");
    assert("minimum_tokens"@.len() == 14);
    reveal_strlit("echo");
    assert("echo"@.len() == 4);
    reveal_strlit("temperature");
    assert("temperature"@.len() == 11);
    reveal_strlit("top_k");
    assert("top_k"@.len() == 5);
    reveal_strlit("top_p");
    assert("top_p"@.len() == 5);
    reveal_strlit("presence_penalty");
    assert("presence_penalty"@.len() == 16);
    reveal_strlit("frequency_penalty");
    assert("frequency_penalty"@.len() == 17);
    reveal_strlit("sequence_penalty");
    assert("sequence_penalty"@.len() == 16);
    reveal_strlit("sequence_penalty_min_length");
    assert("sequence_penalty_min_length"@.len() == 27);
    reveal_strlit("repetition_penalties_include_prompt");
    assert("repetition_penalties_include_prompt"@.len() == 35);
    reveal_strlit("repetition_penalties_include_completion");
    assert("repetition_penalties_include_completion"@.len() == 39);
    reveal_strlit("use_multiplicative_presence_penalty");
    assert("use_multiplicative_presence_penalty"@.len() == 35);
    reveal_strlit("use_multiplicative_frequency_penalty");
    assert("use_multiplicative_frequency_penalty"@.len() == 36);
    reveal_strlit("use_multiplicative_sequence_penalty");
    assert("use_multiplicative_sequence_penalty"@.len() == 35);
    reveal_strlit("penalty_exceptions");
    assert("penalty_exceptions"@.len() == 18);
    reveal_strlit("penalty_bias");
    assert("penalty_bias"@.len() == 12);
    reveal_strlit("penalty_exceptions_include_stop_sequences");
    assert("penalty_exceptions_include_stop_sequences"@.len() == 41);
    reveal_strlit("best_of");
    assert("best_of"@.len() == 7);
    reveal_strlit("n");
    assert("n"@.len() == 1);
    reveal_strlit("log_probs");
    assert("log_probs"@.len() == 9);
    reveal_strlit("stop_sequences");
    assert("stop_sequences"@.len() == 14);
    reveal_strlit("tokens");
    assert("tokens"@.len() == 6);
    reveal_strlit("raw_completion");
    assert("raw_completion"@.len() == 14);
    reveal_strlit("disable_optimizations");
    assert("disable_optimizations"@.len() == 21);
    reveal_strlit("completion_bias_inclusion");
    assert("completion_bias_inclusion"@.len() == 25);
    reveal_strlit("completion_bias_exclusion");
    assert("completion_bias_exclusion"@.len() == 25);
    reveal_strlit("completion_bias_exclusion_first_token_only");
    assert("completion_bias_exclusion_first_token_only"@.len() == 42);
    assert("completion_bias_inclusion_first_token_only"@[16] != "completion_bias_exclusion_first_token_only"@[16]);
    reveal_strlit("contextual_control_threshold");
    assert("contextual_control_threshold"@.len() == 28);
    reveal_strlit("control_log_additive");
    assert("control_log_additive"@.len() == 20);
    reveal_strlit("logit_bias");
    assert("logit_bias"@.len() == 10);
    let fields = r.spec_fields();
    assert(fields[29].0 == "completion_bias_inclusion_first_token_only"@);
    assert forall|i: int| 0 <= i < fields.len() && i != 29 implies (#[trigger] fields[i]).0
        != fields[29].0 by {
        if i == 0 {
            assert(fields[0].0 == "model"@);
        } else if i == 1 {
            assert(fields[1].0 == "hosting"@);
        } else if i == 2 {
            assert(fields[2].0 == "prompt"@);
        } else if i == 3 {
            assert(fields[3].0 == "maximum_tokens"@);
        } else if i == 4 {
            assert(fields[4].0 == "minimum_tokens"@);
        } else if i == 5 {
            assert(fields[5].0 == "echo"@);
        } else if i == 6 {
            assert(fields[6].0 == "temperature"@);
        } else if i == 7 {
            assert(fields[7].0 == "top_k"@);
        } else if i == 8 {
            assert(fields[8].0 == "top_p"@);
        } else if i == 9 {
            assert(fields[9].0 == "presence_penalty"@);
        } else if i == 10 {
            assert(fields[10].0 == "frequency_penalty"@);
        } else if i == 11 {
            assert(fields[11].0 == "sequence_penalty"@);
        } else if i == 12 {
            assert(fields[12].0 == "sequence_penalty_min_length"@);
        } else if i == 13 {
            assert(fields[13].0 == "repetition_penalties_include_prompt"@);
        } else if i == 14 {
            assert(fields[14].0 == "repetition_penalties_include_completion"@);
        } else if i == 15 {
            assert(fields[15].0 == "use_multiplicative_presence_penalty"@);
        } else if i == 16 {
            assert(fields[16].0 == "use_multiplicative_frequency_penalty"@);
        } else if i == 17 {
            assert(fields[17].0 == "use_multiplicative_sequence_penalty"@);
        } else if i == 18 {
            assert(fields[18].0 == "penalty_exceptions"@);
        } else if i == 19 {
            assert(fields[19].0 == "penalty_bias"@);
        } else if i == 20 {
            assert(fields[20].0 == "penalty_exceptions_include_stop_sequences"@);
        } else if i == 21 {
            assert(fields[21].0 == "best_of"@);
        } else if i == 22 {
            assert(fields[22].0 == "n"@);
        } else if i == 23 {
            assert(fields[23].0 == "log_probs"@);
        } else if i == 24 {
            assert(fields[24].0 == "stop_sequences"@);
        } else if i == 25 {
            assert(fields[25].0 == "tokens"@);
        } else if i == 26 {
            assert(fields[26].0 == "raw_completion"@);
        } else if i == 27 {
            assert(fields[27].0 == "disable_optimizations"@);
        } else if i == 28 {
            assert(fields[28].0 == "completion_bias_inclusion"@);
        } else if i == 30 {
            assert(fields[30].0 == "completion_bias_exclusion"@);
        } else if i == 31 {
            assert(fields[31].0 == "completion_bias_exclusion_first_token_only"@);
        } else if i == 32 {
            assert(fields[32].0 == "contextual_control_threshold"@);
        } else if i == 33 {
            assert(fields[33].0 == "control_log_additive"@);
        } else if i == 34 {
            assert(fields[34].0 == "logit_bias"@);
        } else {
        }
    }
    lemma_sparse_lookup(fields, 29);
}

#[verifier::rlimit(100)]
proof fn lemma_field_completion_bias_exclusion(r: CompletionRequest)
    ensures
        obj_lookup(r.spec_json(), "completion_bias_exclusion"@) == opt_str_array_json(r.completion_bias_exclusion),
{
    reveal_strlit("completion_bias_exclusion");
    assert("completion_bias_exclusion"@.len() == 25);
    reveal_strlit("model");
    assert("model"@.len() == 5);
    reveal_strlit("hosting");
    assert("hosting"@.len() == 7);
    reveal_strlit("prompt");
    assert("prompt"@.len() == 6);
    reveal_strlit("maximum_tokens");
    assert("maximum_tokens"@.len() == 14);
    reveal_strlit("minimum_tokens");
    assert("minimum_tokens"@.len() == 14);
    reveal_strlit("echo");
    assert("echo"@.len() == 4);
    reveal_strlit("temperature");
    assert("temperature"@.len() == 11);
    reveal_strlit("top_k");
    assert("top_k"@.len() == 5);
    reveal_strlit("top_p");
    assert("top_p"@.len() == 5);
    reveal_strlit("presence_penalty");
    assert("presence_penalty"@.len() == 16);
    reveal_strlit("frequency_penalty");
    assert("frequency_penalty"@.len() == 17);
    reveal_strlit("sequence_penalty");
    assert("sequence_penalty"@.len() == 16);
    reveal_strlit("sequence_penalty_min_length");
    assert("sequence_penalty_min_length"@.len() == 27);
    reveal_strlit("repetition_penalties_include_prompt");
    assert("repetition_penalties_include_prompt"@.len() == 35);
    reveal_strlit("repetition_penalties_include_completion");
    assert("repetition_penalties_include_completion"@.len() == 39);
    reveal_strlit("use_multiplicative_presence_penalty");
    assert("use_multiplicative_presence_penalty"@.len() == 35);
    reveal_strlit("use_multiplicative_frequency_penalty");
    assert("use_multiplicative_frequency_penalty"@.len() == 36);
    reveal_strlit("use_multiplicative_sequence_penalty");
    assert("use_multiplicative_sequence_penalty"@.len() == 35);
    reveal_strlit("penalty_exceptions");
    assert("penalty_exceptions"@.len() == 18);
    reveal_strlit("penalty_bias");
    assert("penalty_bias"@.len() == 12);
    reveal_strlit("penalty_exceptions_include_stop_sequences");
    assert("penalty_exceptions_include_stop_sequences"@.len() == 41);
    reveal_strlit("best_of");
    assert("best_of"@.len() == 7);
    reveal_strlit("n");
    assert("n"@.len() == 1);
    reveal_strlit("log_probs");
    assert("log_probs"@.len() == 9);
    reveal_strlit("stop_sequences");
    assert("stop_sequences"@.len() == 14);
    reveal_strlit("tokens");
    assert("tokens"@.len() == 6);
    reveal_strlit("raw_completion");
    assert("raw_completion"@.len() == 14);
    reveal_strlit("disable_optimizations");
    assert("disable_optimizations"@.len() == 21);
    reveal_strlit("completion_bias_inclusion");
    assert("completion_bias_inclusion"@.len() == 25);
    assert("completion_bias_exclusion"@[16] != "completion_bias_inclusion"@[16]);
    reveal_strlit("completion_bias_inclusion_first_token_only");
    assert("completion_bias_inclusion_first_token_only"@.len() == 42);
    reveal_strlit("completion_bias_exclusion_first_token_only");
    assert("completion_bias_exclusion_first_token_only"@.len() == 42);
    reveal_strlit("contextual_control_threshold");
    assert("contextual_control_threshold"@.len() == 28);
    reveal_strlit("control_log_additive");
    assert("control_log_additive"@.len() == 20);
    reveal_strlit("logit_bias");
    assert("logit_bias"@.len() == 10);
    let fields = r.spec_fields();
    assert(fields[30].0 == "completion_bias_exclusion"@);
    assert forall|i: int| 0 <= i < fields.len() && i != 30 implies (#[trigger] fields[i]).0
        != fields[30].0 by {
        if i == 0 {
            assert(fields[0].0 == "model"@);
        } else if i == 1 {
            assert(fields[1].0 == "hosting"@);
        } else if i == 2 {
            assert(fields[2].0 == "prompt"@);
        } else if i == 3 {
            assert(fields[3].0 == "maximum_tokens"@);
        } else if i == 4 {
            assert(fields[4].0 == "minimum_tokens"@);
        } else if i == 5 {
            assert(fields[5].0 == "echo"@);
        } else if i == 6 {
            assert(fields[6].0 == "temperature"@);
        } else if i == 7 {
            assert(fields[7].0 == "top_k"@);
        } else if i == 8 {
            assert(fields[8].0 == "top_p"@);
        } else if i == 9 {
            assert(fields[9].0 == "presence_penalty"@);
        } else if i == 10 {
            assert(fields[10].0 == "frequency_penalty"@);
        } else if i == 11 {
            assert(fields[11].0 == "sequence_penalty"@);
        } else if i == 12 {
            assert(fields[12].0 == "sequence_penalty_min_length"@);
        } else if i == 13 {
            assert(fields[13].0 == "repetition_penalties_include_prompt"@);
        } else if i == 14 {
            assert(fields[14].0 == "repetition_penalties_include_completion"@);
        } else if i == 15 {
            assert(fields[15].0 == "use_multiplicative_presence_penalty"@);
        } else if i == 16 {
            assert(fields[16].0 == "use_multiplicative_frequency_penalty"@);
        } else if i == 17 {
            assert(fields[17].0 == "use_multiplicative_sequence_penalty"@);
        } else if i == 18 {
            assert(fields[18].0 == "penalty_exceptions"@);
        } else if i == 19 {
            assert(fields[19].0 == "penalty_bias"@);
        } else if i == 20 {
            assert(fields[20].0 == "penalty_exceptions_include_stop_sequences"@);
        } else if i == 21 {
            assert(fields[21].0 == "best_of"@);
        } else if i == 22 {
            assert(fields[22].0 == "n"@);
        } else if i == 23 {
            assert(fields[23].0 == "log_probs"@);
        } else if i == 24 {
            assert(fields[24].0 == "stop_sequences"@);
        } else if i == 25 {
            assert(fields[25].0 == "tokens"@);
        } else if i == 26 {
            assert(fields[26].0 == "raw_completion"@);
        } else if i == 27 {
            assert(fields[27].0 == "disable_optimizations"@);
        } else if i == 28 {
            assert(fields[28].0 == "completion_bias_inclusion"@);
        } else if i == 29 {
            assert(fields[29].0 == "completion_bias_inclusion_first_token_only"@);
        } else if i == 31 {
            assert(fields[31].0 == "completion_bias_exclusion_first_token_only"@);
        } else if i == 32 {
            assert(fields[32].0 == "contextual_control_threshold"@);
        } else if i == 33 {
            assert(fields[33].0 == "control_log_additive"@);
        } else if i == 34 {
            assert(fields[34].0 == "logit_bias"@);
        } else {
        }
    }
    lemma_sparse_lookup(fields, 30);
}

#[verifier::rlimit(100)]
proof fn lemma_field_completion_bias_exclusion_first_token_only(r: CompletionRequest)
    ensures
        obj_lookup(r.spec_json(), "completion_bias_exclusion_first_token_only"@) == opt_bool_json(r.completion_bias_exclusion_first_token_only),
{
    reveal_strlit("completion_bias_exclusion_first_token_only");
    assert("completion_bias_exclusion_first_token_only"@.len() == 42);
    reveal_strlit("model");
    assert("model"@.len() == 5);
    reveal_strlit("hosting");
    assert("hosting"@.len() == 7);
    reveal_strlit("prompt");
    assert("prompt"@.len() == 6);
    reveal_strlit("maximum_tokens");
    assert("maximum_tokens"@.len() == 14);
    reveal_strlit("minimum_tokens");
    assert("minimum_tokens"@.len() == 14);
    reveal_strlit("echo");
    assert("echo"@.len() == 4);
    reveal_strlit("temperature");
    assert("temperature"@.len() == 11);
    reveal_strlit("top_k");
    assert("top_k"@.len() == 5);
    reveal_strlit("top_p");
    assert("top_p"@.len() == 5);
    reveal_strlit("presence_penalty");
    assert("presence_penalty"@.len() == 16);
    reveal_strlit("frequency_penalty");
    assert("frequency_penalty"@.len() == 17);
    reveal_strlit("sequence_penalty");
    assert("sequence_penalty"@.len() == 16);
    reveal_strlit("sequence_penalty_min_length");
    assert("sequence_penalty_min_length"@.len() == 27);
    reveal_strlit("repetition_penalties_include_prompt");
    assert("repetition_penalties_include_prompt"@.len() == 35);
    reveal_strlit("repetition_penalties_include_completion");
    assert("repetition_penalties_include_completion"@.len() == 39);
    reveal_strlit("use_multiplicative_presence_penalty");
    assert("use_multiplicative_presence_penalty"@.len() == 35);
    reveal_strlit("use_multiplicative_frequency_penalty");
    assert("use_multiplicative_frequency_penalty"@.len() == 36);
    reveal_strlit("use_multiplicative_sequence_penalty");
    assert("use_multiplicative_sequence_penalty"@.len() == 35);
    reveal_strlit("penalty_exceptions");
    assert("penalty_exceptions"@.len() == 18);
    reveal_strlit("penalty_bias");
    assert("penalty_bias"@.len() == 12);
    reveal_strlit("penalty_exceptions_include_stop_sequences");
    assert("penalty_exceptions_include_stop_sequences"@.len() == 41);
    reveal_strlit("best_of");
    assert("best_of"@.len() == 7);
    reveal_strlit("n");
    assert("n"@.len() == 1);
    reveal_strlit("log_probs");
    assert("log_probs"@.len() == 9);
    reveal_strlit("stop_sequences");
    assert("stop_sequences"@.len() == 14);
    reveal_strlit("tokens");
    assert("tokens"@.len() == 6);
    reveal_strlit("raw_completion");
    assert("raw_completion"@.len() == 14);
    reveal_strlit("disable_optimizations");
    assert("disable_optimizations"@.len() == 21);
    reveal_strlit("completion_bias_inclusion");
    assert("completion_bias_inclusion"@.len() == 25);
    reveal_strlit("completion_bias_inclusion_first_token_only");
    assert("completion_bias_inclusion_first_token_only"@.len() == 42);
    assert("completion_bias_exclusion_first_token_only"@[16] != "completion_bias_inclusion_first_token_only"@[16]);
    reveal_strlit("completion_bias_exclusion");
    assert("completion_bias_exclusion"@.len() == 25);
    reveal_strlit("contextual_control_threshold");
    assert("contextual_control_threshold"@.len() == 28);
    reveal_strlit("control_log_additive");
    assert("control_log_additive"@.len() == 20);
    reveal_strlit("logit_bias");
    assert("logit_bias"@.len() == 10);
    let fields = r.spec_fields();
    assert(fields[31].0 == "completion_bias_exclusion_first_token_only"@);
    assert forall|i: int| 0 <= i < fields.len() && i != 31 implies (#[trigger] fields[i]).0
        != fields[31].0 by {
        if i == 0 {
            assert(fields[0].0 == "model"@);
        } else if i == 1 {
            assert(fields[1].0 == "hosting"@);
        } else if i == 2 {
            assert(fields[2].0 == "prompt"@);
        } else if i == 3 {
            assert(fields[3].0 == "maximum_tokens"@);
        } else if i == 4 {
            assert(fields[4].0 == "minimum_tokens"@);
        } else if i == 5 {
            assert(fields[5].0 == "echo"@);
        } else if i == 6 {
            assert(fields[6].0 == "temperature"@);
        } else if i == 7 {
            assert(fields[7].0 == "top_k"@);
        } else if i == 8 {
            assert(fields[8].0 == "top_p"@);
        } else if i == 9 {
            assert(fields[9].0 == "presence_penalty"@);
        } else if i == 10 {
            assert(fields[10].0 == "frequency_penalty"@);
        } else if i == 11 {
            assert(fields[11].0 == "sequence_penalty"@);
        } else if i == 12 {
            assert(fields[12].0 == "sequence_penalty_min_length"@);
        } else if i == 13 {
            assert(fields[13].0 == "repetition_penalties_include_prompt"@);
        } else if i == 14 {
            assert(fields[14].0 == "repetition_penalties_include_completion"@);
        } else if i == 15 {
            assert(fields[15].0 == "use_multiplicative_presence_penalty"@);
        } else if i == 16 {
            assert(fields[16].0 == "use_multiplicative_frequency_penalty"@);
        } else if i == 17 {
            assert(fields[17].0 == "use_multiplicative_sequence_penalty"@);
        } else if i == 18 {
            assert(fields[18].0 == "penalty_exceptions"@);
        } else if i == 19 {
            assert(fields[19].0 == "penalty_bias"@);
        } else if i == 20 {
            assert(fields[20].0 == "penalty_exceptions_include_stop_sequences"@);
        } else if i == 21 {
            assert(fields[21].0 == "best_of"@);
        } else if i == 22 {
            assert(fields[22].0 == "n"@);
        } else if i == 23 {
            assert(fields[23].0 == "log_probs"@);
        } else if i == 24 {
            assert(fields[24].0 == "stop_sequences"@);
        } else if i == 25 {
            assert(fields[25].0 == "tokens"@);
        } else if i == 26 {
            assert(fields[26].0 == "raw_completion"@);
        } else if i == 27 {
            assert(fields[27].0 == "disable_optimizations"@);
        } else if i == 28 {
            assert(fields[28].0 == "completion_bias_inclusion"@);
        } else if i == 29 {
            assert(fields[29].0 == "completion_bias_inclusion_first_token_only"@);
        } else if i == 30 {
            assert(fields[30].0 == "completion_bias_exclusion"@);
        } else if i == 32 {
            assert(fields[32].0 == "contextual_control_threshold"@);
        } else if i == 33 {
            assert(fields[33].0 == "control_log_additive"@);
        } else if i == 34 {
            assert(fields[34].0 == "logit_bias"@);
        } else {
        }
    }
    lemma_sparse_lookup(fields, 31);
}

#[verifier::rlimit(100)]
proof fn lemma_field_contextual_control_threshold(r: CompletionRequest)
    ensures
        obj_lookup(r.spec_json(), "contextual_control_threshold"@) == opt_num_json(r.contextual_control_threshold),
{
    reveal_strlit("contextual_control_threshold");
    assert("contextual_control_threshold"@.len() == 28);
    reveal_strlit("model");
    assert("model"@.len() == 5);
    reveal_strlit("hosting");
    assert("hosting"@.len() == 7);
    reveal_strlit("prompt");
    assert("prompt"@.len() == 6);
    reveal_strlit("maximum_tokens");
    assert("maximum_tokens"@.len() == 14);
    reveal_strlit("minimum_tokens");
    assert("minimum_tokens"@.len() == 14);
    reveal_strlit("echo");
    assert("echo"@.len() == 4);
    reveal_strlit("temperature");
    assert("temperature"@.len() == 11);
    reveal_strlit("top_k");
    assert("top_k"@.len() == 5);
    reveal_strlit("top_p");
    assert("top_p"@.len() == 5);
    reveal_strlit("presence_penalty");
    assert("presence_penalty"@.len() == 16);
    reveal_strlit("frequency_penalty");
    assert("frequency_penalty"@.len() == 17);
    reveal_strlit("sequence_penalty");
    assert("sequence_penalty"@.len() == 16);
    reveal_strlit("sequence_penalty_min_length");
    assert("sequence_penalty_min_length"@.len() == 27);
    reveal_strlit("repetition_penalties_include_prompt");
    assert("repetition_penalties_include_prompt"@.len() == 35);
    reveal_strlit("repetition_penalties_include_completion");
    assert("repetition_penalties_include_completion"@.len() == 39);
    reveal_strlit("use_multiplicative_presence_penalty");
    assert("use_multiplicative_presence_penalty"@.len() == 35);
    reveal_strlit("use_multiplicative_frequency_penalty");
    assert("use_multiplicative_frequency_penalty"@.len() == 36);
    reveal_strlit("use_multiplicative_sequence_penalty");
    assert("use_multiplicative_sequence_penalty"@.len() == 35);
    reveal_strlit("penalty_exceptions");
    assert("penalty_exceptions"@.len() == 18);
    reveal_strlit("penalty_bias");
    assert("penalty_bias"@.len() == 12);
    reveal_strlit("penalty_exceptions_include_stop_sequences");
    assert("penalty_exceptions_include_stop_sequences"@.len() == 41);
    reveal_strlit("best_of");
    assert("best_of"@.len() == 7);
    reveal_strlit("n");
    assert("n"@.len() == 1);
    reveal_strlit("log_probs");
    assert("log_probs"@.len() == 9);
    reveal_strlit("stop_sequences");
    assert("stop_sequences"@.len() == 14);
    reveal_strlit("tokens");
    assert("tokens"@.len() == 6);
    reveal_strlit("raw_completion");
    assert("raw_completion"@.len() == 14);
    reveal_strlit("disable_optimizations");
    assert("disable_optimizations"@.len() == 21);
    reveal_strlit("completion_bias_inclusion");
    assert("completion_bias_inclusion"@.len() == 25);
    reveal_strlit("completion_bias_inclusion_first_token_only");
    assert("completion_bias_inclusion_first_token_only"@.len() == 42);
    reveal_strlit("completion_bias_exclusion");
    assert("completion_bias_exclusion"@.len() == 25);
    reveal_strlit("completion_bias_exclusion_first_token_only");
    assert("completion_bias_exclusion_first_token_only"@.len() == 42);
    reveal_strlit("control_log_additive");
    assert("control_log_additive"@.len() == 20);
    reveal_strlit("logit_bias");
    assert("logit_bias"@.len() == 10);
    let fields = r.spec_fields();
    assert(fields[32].0 == "contextual_control_threshold"@);
    assert forall|i: int| 0 <= i < fields.len() && i != 32 implies (#[trigger] fields[i]).0
        != fields[32].0 by {
        if i == 0 {
            assert(fields[0].0 == "model"@);
        } else if i == 1 {
            assert(fields[1].0 == "hosting"@);
        } else if i == 2 {
            assert(fields[2].0 == "prompt"@);
        } else if i == 3 {
            assert(fields[3].0 == "maximum_tokens"@);
        } else if i == 4 {
            assert(fields[4].0 == "minimum_tokens"@);
        } else if i == 5 {
            assert(fields[5].0 == "echo"@);
        } else if i == 6 {
            assert(fields[6].0 == "temperature"@);
        } else if i == 7 {
            assert(fields[7].0 == "top_k"@);
        } else if i == 8 {
            assert(fields[8].0 == "top_p"@);
        } else if i == 9 {
            assert(fields[9].0 == "presence_penalty"@);
        } else if i == 10 {
            assert(fields[10].0 == "frequency_penalty"@);
        } else if i == 11 {
            assert(fields[11].0 == "sequence_penalty"@);
        } else if i == 12 {
            assert(fields[12].0 == "sequence_penalty_min_length"@);
        } else if i == 13 {
            assert(fields[13].0 == "repetition_penalties_include_prompt"@);
        } else if i == 14 {
            assert(fields[14].0 == "repetition_penalties_include_completion"@);
        } else if i == 15 {
            assert(fields[15].0 == "use_multiplicative_presence_penalty"@);
        } else if i == 16 {
            assert(fields[16].0 == "use_multiplicative_frequency_penalty"@);
        } else if i == 17 {
            assert(fields[17].0 == "use_multiplicative_sequence_penalty"@);
        } else if i == 18 {
            assert(fields[18].0 == "penalty_exceptions"@);
        } else if i == 19 {
            assert(fields[19].0 == "penalty_bias"@);
        } else if i == 20 {
            assert(fields[20].0 == "penalty_exceptions_include_stop_sequences"@);
        } else if i == 21 {
            assert(fields[21].0 == "best_of"@);
        } else if i == 22 {
            assert(fields[22].0 == "n"@);
        } else if i == 23 {
            assert(fields[23].0 == "log_probs"@);
        } else if i == 24 {
            assert(fields[24].0 == "stop_sequences"@);
        } else if i == 25 {
            assert(fields[25].0 == "tokens"@);
        } else if i == 26 {
            assert(fields[26].0 == "raw_completion"@);
        } else if i == 27 {
            assert(fields[27].0 == "disable_optimizations"@);
        } else if i == 28 {
            assert(fields[28].0 == "completion_bias_inclusion"@);
        } else if i == 29 {
            assert(fields[29].0 == "completion_bias_inclusion_first_token_only"@);
        } else if i == 30 {
            assert(fields[30].0 == "completion_bias_exclusion"@);
        } else if i == 31 {
            assert(fields[31].0 == "completion_bias_exclusion_first_token_only"@);
        } else if i == 33 {
            assert(fields[33].0 == "control_log_additive"@);
        } else if i == 34 {
            assert(fields[34].0 == "logit_bias"@);
        } else {
        }
    }
    lemma_sparse_lookup(fields, 32);
}

#[verifier::rlimit(100)]
proof fn lemma_field_control_log_additive(r: CompletionRequest)
    ensures
        obj_lookup(r.spec_json(), "control_log_additive"@) == opt_bool_json(r.control_log_additive),
{
    reveal_strlit("control_log_additive");
    assert("control_log_additive"@.len() == 20);
    reveal_strlit("model");
    assert("model"@.len() == 5);
    reveal_strlit("hosting");
    assert("hosting"@.len() == 7);
    reveal_strlit("prompt");
    assert("prompt"@.len() == 6);
    reveal_strlit("maximum_tokens");
    assert("maximum_tokens"@.len() == 14);
    reveal_strlit("minimum_tokens");
    assert("minimum_tokens"@.len() == 14);
    reveal_strlit("echo");
    assert("echo"@.len() == 4);
    reveal_strlit("temperature");
    assert("temperature"@.len() == 11);
    reveal_strlit("top_k");
    assert("top_k"@.len() == 5);
    reveal_strlit("top_p");
    assert("top_p"@.len() == 5);
    reveal_strlit("presence_penalty");
    assert("presence_penalty"@.len() == 16);
    reveal_strlit("frequency_penalty");
    assert("frequency_penalty"@.len() == 17);
    reveal_strlit("sequence_penalty");
    assert("sequence_penalty"@.len() == 16);
    reveal_strlit("sequence_penalty_min_length");
    assert("sequence_penalty_min_length"@.len() == 27);
    reveal_strlit("repetition_penalties_include_prompt");
    assert("repetition_penalties_include_prompt"@.len() == 35);
    reveal_strlit("repetition_penalties_include_completion");
    assert("repetition_penalties_include_completion"@.len() == 39);
    reveal_strlit("use_multiplicative_presence_penalty");
    assert("use_multiplicative_presence_penalty"@.len() == 35);
    reveal_strlit("use_multiplicative_frequency_penalty");
    assert("use_multiplicative_frequency_penalty"@.len() == 36);
    reveal_strlit("use_multiplicative_sequence_penalty");
    assert("use_multiplicative_sequence_penalty"@.len() == 35);
    reveal_strlit("penalty_exceptions");
    assert("penalty_exceptions"@.len() == 18);
    reveal_strlit("penalty_bias");
    assert("penalty_bias"@.len() == 12);
    reveal_strlit("penalty_exceptions_include_stop_sequences");
    assert("penalty_exceptions_include_stop_sequences"@.len() == 41);
    reveal_strlit("best_of");
    assert("best_of"@.len() == 7);
    reveal_strlit("n");
    assert("n"@.len() == 1);
    reveal_strlit("log_probs");
    assert("log_probs"@.len() == 9);
    reveal_strlit("stop_sequences");
    assert("stop_sequences"@.len() == 14);
    reveal_strlit("tokens");
    assert("tokens"@.len() == 6);
    reveal_strlit("raw_completion");
    assert("raw_completion"@.len() == 14);
    reveal_strlit("disable_optimizations");
    assert("disable_optimizations"@.len() == 21);
    reveal_strlit("completion_bias_inclusion");
    assert("completion_bias_inclusion"@.len() == 25);
    reveal_strlit("completion_bias_inclusion_first_token_only");
    assert("completion_bias_inclusion_first_token_only"@.len() == 42);
    reveal_strlit("completion_bias_exclusion");
    assert("completion_bias_exclusion"@.len() == 25);
    reveal_strlit("completion_bias_exclusion_first_token_only");
    assert("completion_bias_exclusion_first_token_only"@.len() == 42);
    reveal_strlit("contextual_control_threshold");
    assert("contextual_control_threshold"@.len() == 28);
    reveal_strlit("logit_bias");
    assert("logit_bias"@.len() == 10);
    let fields = r.spec_fields();
    assert(fields[33].0 == "control_log_additive"@);
    assert forall|i: int| 0 <= i < fields.len() && i != 33 implies (#[trigger] fields[i]).0
        != fields[33].0 by {
        if i == 0 {
            assert(fields[0].0 == "model"@);
        } else if i == 1 {
            assert(fields[1].0 == "hosting"@);
        } else if i == 2 {
            assert(fields[2].0 == "prompt"@);
        } else if i == 3 {
            assert(fields[3].0 == "maximum_tokens"@);
        } else if i == 4 {
            assert(fields[4].0 == "minimum_tokens"@);
        } else if i == 5 {
            assert(fields[5].0 == "echo"@);
        } else if i == 6 {
            assert(fields[6].0 == "temperature"@);
        } else if i == 7 {
            assert(fields[7].0 == "top_k"@);
        } else if i == 8 {
            assert(fields[8].0 == "top_p"@);
        } else if i == 9 {
            assert(fields[9].0 == "presence_penalty"@);
        } else if i == 10 {
            assert(fields[10].0 == "frequency_penalty"@);
        } else if i == 11 {
            assert(fields[11].0 == "sequence_penalty"@);
        } else if i == 12 {
            assert(fields[12].0 == "sequence_penalty_min_length"@);
        } else if i == 13 {
            assert(fields[13].0 == "repetition_penalties_include_prompt"@);
        } else if i == 14 {
            assert(fields[14].0 == "repetition_penalties_include_completion"@);
        } else if i == 15 {
            assert(fields[15].0 == "use_multiplicative_presence_penalty"@);
        } else if i == 16 {
            assert(fields[16].0 == "use_multiplicative_frequency_penalty"@);
        } else if i == 17 {
            assert(fields[17].0 == "use_multiplicative_sequence_penalty"@);
        } else if i == 18 {
            assert(fields[18].0 == "penalty_exceptions"@);
        } else if i == 19 {
            assert(fields[19].0 == "penalty_bias"@);
        } else if i == 20 {
            assert(fields[20].0 == "penalty_exceptions_include_stop_sequences"@);
        } else if i == 21 {
            assert(fields[21].0 == "best_of"@);
        } else if i == 22 {
            assert(fields[22].0 == "n"@);
        } else if i == 23 {
            assert(fields[23].0 == "log_probs"@);
        } else if i == 24 {
            assert(fields[24].0 == "stop_sequences"@);
        } else if i == 25 {
            assert(fields[25].0 == "tokens"@);
        } else if i == 26 {
            assert(fields[26].0 == "raw_completion"@);
        } else if i == 27 {
            assert(fields[27].0 == "disable_optimizations"@);
        } else if i == 28 {
            assert(fields[28].0 == "completion_bias_inclusion"@);
        } else if i == 29 {
            assert(fields[29].0 == "completion_bias_inclusion_first_token_only"@);
        } else if i == 30 {
            assert(fields[30].0 == "completion_bias_exclusion"@);
        } else if i == 31 {
            assert(fields[31].0 == "completion_bias_exclusion_first_token_only"@);
        } else if i == 32 {
            assert(fields[32].0 == "contextual_control_threshold"@);
        } else if i == 34 {
            assert(fields[34].0 == "logit_bias"@);
        } else {
        }
    }
    lemma_sparse_lookup(fields, 33);
}

#[verifier::rlimit(100)]
proof fn lemma_field_logit_bias(r: CompletionRequest)
    ensures
        obj_lookup(r.spec_json(), "logit_bias"@) == opt_logit_bias_json(r.logit_bias),
{
    reveal_strlit("logit_bias");
    assert("logit_bias"@.len() == 10);
    reveal_strlit("model");
    assert("model"@.len() == 5);
    reveal_strlit("hosting");
    assert("hosting"@.len() == 7);
    reveal_strlit("prompt");
    assert("prompt"@.len() == 6);
    reveal_strlit("maximum_tokens");
    assert("maximum_tokens"@.len() == 14);
    reveal_strlit("minimum_tokens");
    assert("minimum_tokens"@.len() == 14);
    reveal_strlit("echo");
    assert("echo"@.len() == 4);
    reveal_strlit("temperature");
    assert("temperature"@.len() == 11);
    reveal_strlit("top_k");
    assert("top_k"@.len() == 5);
    reveal_strlit("top_p");
    assert("top_p"@.len() == 5);
    reveal_strlit("presence_penalty");
    assert("presence_penalty"@.len() == 16);
    reveal_strlit("frequency_penalty");
    assert("frequency_penalty"@.len() == 17);
    reveal_strlit("sequence_penalty");
    assert("sequence_penalty"@.len() == 16);
    reveal_strlit("sequence_penalty_min_length");
    assert("sequence_penalty_min_length"@.len() == 27);
    reveal_strlit("repetition_penalties_include_prompt");
    assert("repetition_penalties_include_prompt"@.len() == 35);
    reveal_strlit("repetition_penalties_include_completion");
    assert("repetition_penalties_include_completion"@.len() == 39);
    reveal_strlit("use_multiplicative_presence_penalty");
    assert("use_multiplicative_presence_penalty"@.len() == 35);
    reveal_strlit("use_multiplicative_frequency_penalty");
    assert("use_multiplicative_frequency_penalty"@.len() == 36);
    reveal_strlit("use_multiplicative_sequence_penalty");
    assert("use_multiplicative_sequence_penalty"@.len() == 35);
    reveal_strlit("penalty_exceptions");
    assert("penalty_exceptions"@.len() == 18);
    reveal_strlit("penalty_bias");
    assert("penalty_bias"@.len() == 12);
    reveal_strlit("penalty_exceptions_include_stop_sequences");
    assert("penalty_exceptions_include_stop_sequences"@.len() == 41);
    reveal_strlit("best_of");
    assert("best_of"@.len() == 7);
    reveal_strlit("n");
    assert("n"@.len() == 1);
    reveal_strlit("log_probs");
    assert("log_probs"@.len() == 9);
    reveal_strlit("stop_sequences");
    assert("stop_sequences"@.len() == 14);
    reveal_strlit("tokens");
    assert("tokens"@.len() == 6);
    reveal_strlit("raw_completion");
    assert("raw_completion"@.len() == 14);
    reveal_strlit("disable_optimizations");
    assert("disable_optimizations"@.len() == 21);
    reveal_strlit("completion_bias_inclusion");
    assert("completion_bias_inclusion"@.len() == 25);
    reveal_strlit("completion_bias_inclusion_first_token_only");
    assert("completion_bias_inclusion_first_token_only"@.len() == 42);
    reveal_strlit("completion_bias_exclusion");
    assert("completion_bias_exclusion"@.len() == 25);
    reveal_strlit("completion_bias_exclusion_first_token_only");
    assert("completion_bias_exclusion_first_token_only"@.len() == 42);
    reveal_strlit("contextual_control_threshold");
    assert("contextual_control_threshold"@.len() == 28);
    reveal_strlit("control_log_additive");
    assert("control_log_additive"@.len() == 20);
    let fields = r.spec_fields();
    assert(fields[34].0 == "logit_bias"@);
    assert forall|i: int| 0 <= i < fields.len() && i != 34 implies (#[trigger] fields[i]).0
        != fields[34].0 by {
        if i == 0 {
            assert(fields[0].0 == "model"@);
        } else if i == 1 {
            assert(fields[1].0 == "hosting"@);
        } else if i == 2 {
            assert(fields[2].0 == "prompt"@);
        } else if i == 3 {
            assert(fields[3].0 == "maximum_tokens"@);
        } else if i == 4 {
            assert(fields[4].0 == "minimum_tokens"@);
        } else if i == 5 {
            assert(fields[5].0 == "echo"@);
        } else if i == 6 {
            assert(fields[6].0 == "temperature"@);
        } else if i == 7 {
            assert(fields[7].0 == "top_k"@);
        } else if i == 8 {
            assert(fields[8].0 == "top_p"@);
        } else if i == 9 {
            assert(fields[9].0 == "presence_penalty"@);
        } else if i == 10 {
            assert(fields[10].0 == "frequency_penalty"@);
        } else if i == 11 {
            assert(fields[11].0 == "sequence_penalty"@);
        } else if i == 12 {
            assert(fields[12].0 == "sequence_penalty_min_length"@);
        } else if i == 13 {
            assert(fields[13].0 == "repetition_penalties_include_prompt"@);
        } else if i == 14 {
            assert(fields[14].0 == "repetition_penalties_include_completion"@);
        } else if i == 15 {
            assert(fields[15].0 == "use_multiplicative_presence_penalty"@);
        } else if i == 16 {
            assert(fields[16].0 == "use_multiplicative_frequency_penalty"@);
        } else if i == 17 {
            assert(fields[17].0 == "use_multiplicative_sequence_penalty"@);
        } else if i == 18 {
            assert(fields[18].0 == "penalty_exceptions"@);
        } else if i == 19 {
            assert(fields[19].0 == "penalty_bias"@);
        } else if i == 20 {
            assert(fields[20].0 == "penalty_exceptions_include_stop_sequences"@);
        } else if i == 21 {
            assert(fields[21].0 == "best_of"@);
        } else if i == 22 {
            assert(fields[22].0 == "n"@);
        } else if i == 23 {
            assert(fields[23].0 == "log_probs"@);
        } else if i == 24 {
            assert(fields[24].0 == "stop_sequences"@);
        } else if i == 25 {
            assert(fields[25].0 == "tokens"@);
        } else if i == 26 {
            assert(fields[26].0 == "raw_completion"@);
        } else if i == 27 {
            assert(fields[27].0 == "disable_optimizations"@);
        } else if i == 28 {
            assert(fields[28].0 == "completion_bias_inclusion"@);
        } else if i == 29 {
            assert(fields[29].0 == "completion_bias_inclusion_first_token_only"@);
        } else if i == 30 {
            assert(fields[30].0 == "completion_bias_exclusion"@);
        } else if i == 31 {
            assert(fields[31].0 == "completion_bias_exclusion_first_token_only"@);
        } else if i == 32 {
            assert(fields[32].0 == "contextual_control_threshold"@);
        } else if i == 33 {
            assert(fields[33].0 == "control_log_additive"@);
        } else {
        }
    }
    lemma_sparse_lookup(fields, 34);
}

/// The sparse-serialization law: a field that is left unset never
/// appears as a key of the wire payload, and a field that is set
/// appears with exactly the value that was provided.
pub proof fn lemma_sparse_serialization(r: CompletionRequest)
    ensures
        obj_lookup(r.spec_json(), "model"@) == Option::Some(JsonVal::Str(r.model@)),
        obj_lookup(r.spec_json(), "hosting"@) == opt_hosting_json(r.hosting),
        obj_lookup(r.spec_json(), "prompt"@) == Option::Some(r.prompt.spec_json()),
        obj_lookup(r.spec_json(), "maximum_tokens"@) == Option::Some(JsonVal::Num(int_lexeme(r.maximum_tokens as int))),
        obj_lookup(r.spec_json(), "minimum_tokens"@) == opt_u32_json(r.minimum_tokens),
        obj_lookup(r.spec_json(), "echo"@) == opt_bool_json(r.echo),
        obj_lookup(r.spec_json(), "temperature"@) == opt_num_json(r.temperature),
        obj_lookup(r.spec_json(), "top_k"@) == opt_u32_json(r.top_k),
        obj_lookup(r.spec_json(), "top_p"@) == opt_num_json(r.top_p),
        obj_lookup(r.spec_json(), "presence_penalty"@) == opt_num_json(r.presence_penalty),
        obj_lookup(r.spec_json(), "frequency_penalty"@) == opt_num_json(r.frequency_penalty),
        obj_lookup(r.spec_json(), "sequence_penalty"@) == opt_num_json(r.sequence_penalty),
        obj_lookup(r.spec_json(), "sequence_penalty_min_length"@) == opt_i32_json(r.sequence_penalty_min_length),
        obj_lookup(r.spec_json(), "repetition_penalties_include_prompt"@) == opt_bool_json(r.repetition_penalties_include_prompt),
        obj_lookup(r.spec_json(), "repetition_penalties_include_completion"@) == opt_bool_json(r.repetition_penalties_include_completion),
        obj_lookup(r.spec_json(), "use_multiplicative_presence_penalty"@) == opt_bool_json(r.use_multiplicative_presence_penalty),
        obj_lookup(r.spec_json(), "use_multiplicative_frequency_penalty"@) == opt_bool_json(r.use_multiplicative_frequency_penalty),
        obj_lookup(r.spec_json(), "use_multiplicative_sequence_penalty"@) == opt_bool_json(r.use_multiplicative_sequence_penalty),
        obj_lookup(r.spec_json(), "penalty_exceptions"@) == opt_str_array_json(r.penalty_exceptions),
        obj_lookup(r.spec_json(), "penalty_bias"@) == opt_string_json(r.penalty_bias),
        obj_lookup(r.spec_json(), "penalty_exceptions_include_stop_sequences"@) == opt_bool_json(r.penalty_exceptions_include_stop_sequences),
        obj_lookup(r.spec_json(), "best_of"@) == opt_i32_json(r.best_of),
        obj_lookup(r.spec_json(), "n"@) == opt_i32_json(r.n),
        obj_lookup(r.spec_json(), "log_probs"@) == opt_i32_json(r.log_probs),
        obj_lookup(r.spec_json(), "stop_sequences"@) == opt_str_array_json(r.stop_sequences),
        obj_lookup(r.spec_json(), "tokens"@) == opt_bool_json(r.tokens),
        obj_lookup(r.spec_json(), "raw_completion"@) == opt_bool_json(r.raw_completion),
        obj_lookup(r.spec_json(), "disable_optimizations"@) == opt_bool_json(r.disable_optimizations),
        obj_lookup(r.spec_json(), "completion_bias_inclusion"@) == opt_str_array_json(r.completion_bias_inclusion),
        obj_lookup(r.spec_json(), "completion_bias_inclusion_first_token_only"@) == opt_bool_json(r.completion_bias_inclusion_first_token_only),
        obj_lookup(r.spec_json(), "completion_bias_exclusion"@) == opt_str_array_json(r.completion_bias_exclusion),
        obj_lookup(r.spec_json(), "completion_bias_exclusion_first_token_only"@) == opt_bool_json(r.completion_bias_exclusion_first_token_only),
        obj_lookup(r.spec_json(), "contextual_control_threshold"@) == opt_num_json(r.contextual_control_threshold),
        obj_lookup(r.spec_json(), "control_log_additive"@) == opt_bool_json(r.control_log_additive),
        obj_lookup(r.spec_json(), "logit_bias"@) == opt_logit_bias_json(r.logit_bias),
{
    lemma_field_model(r);
    lemma_field_hosting(r);
    lemma_field_prompt(r);
    lemma_field_maximum_tokens(r);
    lemma_field_minimum_tokens(r);
    lemma_field_echo(r);
    lemma_field_temperature(r);
    lemma_field_top_k(r);
    lemma_field_top_p(r);
    lemma_field_presence_penalty(r);
    lemma_field_frequency_penalty(r);
    lemma_field_sequence_penalty(r);
    lemma_field_sequence_penalty_min_length(r);
    lemma_field_repetition_penalties_include_prompt(r);
    lemma_field_repetition_penalties_include_completion(r);
    lemma_field_use_multiplicative_presence_penalty(r);
    lemma_field_use_multiplicative_frequency_penalty(r);
    lemma_field_use_multiplicative_sequence_penalty(r);
    lemma_field_penalty_exceptions(r);
    lemma_field_penalty_bias(r);
    lemma_field_penalty_exceptions_include_stop_sequences(r);
    lemma_field_best_of(r);
    lemma_field_n(r);
    lemma_field_log_probs(r);
    lemma_field_stop_sequences(r);
    lemma_field_tokens(r);
    lemma_field_raw_completion(r);
    lemma_field_disable_optimizations(r);
    lemma_field_completion_bias_inclusion(r);
    lemma_field_completion_bias_inclusion_first_token_only(r);
    lemma_field_completion_bias_exclusion(r);
    lemma_field_completion_bias_exclusion_first_token_only(r);
    lemma_field_contextual_control_threshold(r);
    lemma_field_control_log_additive(r);
    lemma_field_logit_bias(r);
}

// ---------------------------------------------------------------------------
// The completion response
// ---------------------------------------------------------------------------

/// One generated completion.
#[derive(Debug)]
pub struct CompletionOutput {
    /// The generated continuation.
    pub completion: String,
    /// Why generation stopped.
    pub finish_reason: String,
}

/// Meaning of one element of the `completions` array: its
/// `completion` and `finish_reason` strings.
pub open spec fn spec_completion_output(v: JsonVal) -> Option<(Seq<char>, Seq<char>)> {
    match (
        crate::decode::spec_string_field(v, "completion"@),
        crate::decode::spec_string_field(v, "finish_reason"@),
    ) {
        (Option::Some(c), Option::Some(f)) => Option::Some((c, f)),
        _ => Option::None,
    }
}

impl CompletionOutput {
    /// Reads one element of the `completions` array. Succeeds exactly
    /// when both strings are present.
    pub fn from_json(j: &Json) -> (r: Option<CompletionOutput>)
        ensures
            match (r, spec_completion_output(j@)) {
                (Option::Some(out), Option::Some(p)) => out.completion@ == p.0
                    && out.finish_reason@ == p.1,
                (Option::None, Option::None) => true,
                _ => false,
            },
    {
        let completion = match crate::decode::get_string(j, "completion") {
            Some(s) => s,
            None => {
                return None;
            },
        };
        match crate::decode::get_string(j, "finish_reason") {
            Some(f) => Some(CompletionOutput { completion, finish_reason: f }),
            None => None,
        }
    }
}

/// Meaning of the `completions` array: every element decodes.
pub open spec fn spec_completion_outputs(v: JsonVal) -> Option<Seq<(Seq<char>, Seq<char>)>> {
    match v {
        JsonVal::Arr(items) => if forall|i: int|
            0 <= i < items.len() ==> (#[trigger] spec_completion_output(items[i])) is Some {
            Option::Some(Seq::new(items.len(), |i: int| spec_completion_output(items[i])->Some_0))
        } else {
            Option::None
        },
        _ => Option::None,
    }
}

/// What the service answered to a completion request.
#[derive(Debug)]
pub struct CompletionResponse {
    /// Name and version of the model that did the inference.
    pub model_version: String,
    /// The generated completions; holds one entry unless more were
    /// requested.
    pub completions: Vec<CompletionOutput>,
}

impl CompletionResponse {
    /// Reads a response body. Succeeds exactly when `model_version`
    /// is a string and `completions` is an array whose every element
    /// carries the two strings.
    pub fn from_json(j: &Json) -> (r: Option<CompletionResponse>)
        ensures
            match r {
                Option::Some(resp) => {
                    &&& crate::decode::spec_string_field(j@, "model_version"@)
                        == Option::Some(resp.model_version@)
                    &&& match obj_lookup(j@, "completions"@) {
                        Option::Some(w) => {
                            &&& spec_completion_outputs(w) is Some
                            &&& resp.completions@.len() == spec_completion_outputs(
                                w,
                            )->Some_0.len()
                            &&& forall|i: int|
                                0 <= i < resp.completions@.len() ==> (
                                #[trigger] resp.completions@[i].completion@,
                                resp.completions@[i].finish_reason@,
                                ) == spec_completion_outputs(w)->Some_0[i]
                        },
                        Option::None => false,
                    }
                },
                Option::None => crate::decode::spec_string_field(j@, "model_version"@) is None
                    || match obj_lookup(j@, "completions"@) {
                    Option::Some(w) => spec_completion_outputs(w) is None,
                    Option::None => true,
                },
            },
    {
        let model_version = match crate::decode::get_string(j, "model_version") {
            Some(s) => s,
            None => {
                return None;
            },
        };
        let arr = match j.get("completions") {
            Some(w) => w,
            None => {
                return None;
            },
        };
        match arr {
            Json::Arr(items) => {
                proof {
                    lemma_json_view_seq(items@);
                }
                let ghost view_items = json_view_seq(items@);
                let mut out: Vec<CompletionOutput> = Vec::new();
                let mut i: usize = 0;
                while i < items.len()
                    invariant
                        obj_lookup(j@, "completions"@) == Option::Some(arr@),
                        arr@ == JsonVal::Arr(view_items),
                        i <= items.len(),
                        view_items == json_view_seq(items@),
                        view_items.len() == items@.len(),
                        forall|k: int|
                            0 <= k < items@.len() ==> view_items[k] == json_view(
                                #[trigger] items@[k],
                            ),
                        out@.len() == i,
                        forall|k: int|
                            0 <= k < i ==> (#[trigger] spec_completion_output(
                                view_items[k],
                            )) is Some,
                        forall|k: int|
                            0 <= k < i ==> (#[trigger] out@[k].completion@,
                            out@[k].finish_reason@) == spec_completion_output(
                                view_items[k],
                            )->Some_0,
                    decreases items.len() - i,
                {
                    match CompletionOutput::from_json(&items[i]) {
                        Some(o) => {
                            out.push(o);
                        },
                        None => {
                            proof {
                                assert(spec_completion_output(view_items[i as int]) is None);
                            }
                            return None;
                        },
                    }
                    i = i + 1;
                }
                Some(CompletionResponse { model_version, completions: out })
            },
            _ => None,
        }
    }

    /// The best completion in the answer: the first one. The service
    /// puts the completion with the highest log probability first.
    pub fn best(&self) -> (r: &CompletionOutput)
        requires
            self.completions@.len() >= 1,
        ensures
            r == self.completions@[0],
    {
        &self.completions[0]
    }

    /// Text of the best completion.
    pub fn best_text(&self) -> (r: &str)
        requires
            self.completions@.len() >= 1,
        ensures
            r@ == self.completions@[0].completion@,
    {
        self.best().completion.as_str()
    }
}


} // verus!
