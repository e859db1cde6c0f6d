//! The explanation endpoint: how much each part of the prompt
//! contributed to each token of a completion.

use vstd::prelude::*;
use vstd::string::StringExecFns;
use crate::completion::opt_hosting_json;
use crate::completion::push_opt_hosting;
use crate::completion::BoundingBox;
use crate::completion::Hosting;
use crate::completion::Prompt;
use crate::decode::decode_num_array;
use crate::decode::get_string;
use crate::decode::opt_bool_json;
use crate::decode::opt_num_json;
use crate::decode::opt_string_json;
use crate::decode::push_opt_bool;
use crate::decode::push_opt_num;
use crate::decode::push_opt_string;
use crate::decode::spec_num_array;
use crate::decode::spec_number;
use crate::decode::spec_string_field;
use crate::json::json_view;
use crate::json::json_view_members;
use crate::json::json_view_seq;
use crate::json::lemma_json_view_members;
use crate::json::lemma_json_view_seq;
use crate::json::obj_lookup;
use crate::json::opt_member;
use crate::json::push_member;
use crate::json::str_eq;
use crate::json::Json;
use crate::json::JsonNumber;
use crate::json::JsonVal;
use crate::num::spec_i32_lexeme;
use crate::num::i32_from_lexeme;

verus! {

// ---------------------------------------------------------------------------
// Request-side enums
// ---------------------------------------------------------------------------

/// Postprocessing applied to the per-token score differences.
#[derive(Debug)]
pub enum Postprocessing {
    /// Apply no postprocessing.
    Identity,
    /// Return the absolute value of each value.
    Absolute,
    /// Square each value.
    Square,
}

pub open spec fn spec_postprocessing_json(p: Postprocessing) -> JsonVal {
    match p {
        Postprocessing::Identity => JsonVal::Str("none"@),
        Postprocessing::Absolute => JsonVal::Str("absolute"@),
        Postprocessing::Square => JsonVal::Str("square"@),
    }
}

impl Postprocessing {
    pub fn to_json(&self) -> (r: Json)
        ensures
            r@ == spec_postprocessing_json(*self),
    {
        match self {
            Postprocessing::Identity => Json::Str(String::from_str("none")),
            Postprocessing::Absolute => Json::Str(String::from_str("absolute")),
            Postprocessing::Square => Json::Str(String::from_str("square")),
        }
    }
}

impl Default for Postprocessing {
    /// No postprocessing.
    fn default() -> (r: Self)
        ensures
            r == Postprocessing::Identity,
    {
        Postprocessing::Identity
    }
}

/// The granularity at which the prompt is broken into explained
/// pieces.
#[derive(Debug)]
pub enum PromptGranularityType {
    Token,
    Word,
    Sentence,
    Paragraph,
    Custom,
}

pub open spec fn spec_granularity_type_json(g: PromptGranularityType) -> JsonVal {
    match g {
        PromptGranularityType::Token => JsonVal::Str("token"@),
        PromptGranularityType::Word => JsonVal::Str("word"@),
        PromptGranularityType::Sentence => JsonVal::Str("sentence"@),
        PromptGranularityType::Paragraph => JsonVal::Str("paragraph"@),
        PromptGranularityType::Custom => JsonVal::Str("custom"@),
    }
}

impl PromptGranularityType {
    pub fn to_json(&self) -> (r: Json)
        ensures
            r@ == spec_granularity_type_json(*self),
    {
        match self {
            PromptGranularityType::Token => Json::Str(String::from_str("token")),
            PromptGranularityType::Word => Json::Str(String::from_str("word")),
            PromptGranularityType::Sentence => Json::Str(String::from_str("sentence")),
            PromptGranularityType::Paragraph => Json::Str(String::from_str("paragraph")),
            PromptGranularityType::Custom => Json::Str(String::from_str("custom")),
        }
    }
}

impl Default for PromptGranularityType {
    /// Token granularity.
    fn default() -> (r: Self)
        ensures
            r == PromptGranularityType::Token,
    {
        PromptGranularityType::Token
    }
}

/// How the prompt is split for the explanation; a custom granularity
/// splits on the given delimiter.
#[derive(Debug)]
pub struct PromptGranularity {
    /// The kind of piece the prompt is split into. With `Custom`, the
    /// prompt is split on `delimiter`.
    pub granularity_type: PromptGranularityType,
    /// The delimiter for the custom granularity.
    pub delimiter: String,
}

impl PromptGranularity {
    /// The wire form: the type under the key `type`, then the
    /// delimiter.
    pub open spec fn spec_json(self) -> JsonVal {
        JsonVal::Obj(
            seq![
                ("type"@, spec_granularity_type_json(self.granularity_type)),
                ("delimiter"@, JsonVal::Str(self.delimiter@)),
            ],
        )
    }

    pub fn to_json(&self) -> (r: Json)
        ensures
            r@ == self.spec_json(),
    {
        let mut members: Vec<(String, Json)> = Vec::new();
        push_member(&mut members, "type", self.granularity_type.to_json());
        push_member(&mut members, "delimiter", Json::Str(self.delimiter.clone()));
        let r = Json::Obj(members);
        proof {
            assert(json_view_members(members@) =~= self.spec_json()->Obj_0);
        }
        r
    }
}

impl Default for PromptGranularity {
    /// Token granularity with an empty delimiter.
    fn default() -> (r: Self)
        ensures
            r.granularity_type == PromptGranularityType::Token,
            r.delimiter@ == Seq::<char>::empty(),
    {
        PromptGranularity {
            granularity_type: PromptGranularityType::Token,
            delimiter: String::new(),
        }
    }
}

/// How many explanations the output holds: one for the whole target,
/// or one per target token.
#[derive(Debug)]
pub enum TargetGranularity {
    /// One explanation for the entire target.
    Complete,
    /// One explanation for each token of the target.
    Token,
}

pub open spec fn spec_target_granularity_json(g: TargetGranularity) -> JsonVal {
    match g {
        TargetGranularity::Complete => JsonVal::Str("complete"@),
        TargetGranularity::Token => JsonVal::Str("token"@),
    }
}

impl TargetGranularity {
    pub fn to_json(&self) -> (r: Json)
        ensures
            r@ == spec_target_granularity_json(*self),
    {
        match self {
            TargetGranularity::Complete => Json::Str(String::from_str("complete")),
            TargetGranularity::Token => Json::Str(String::from_str("token")),
        }
    }
}

/// What to do when a control partly overlaps a token: scale the
/// factor with the covered share, or apply it whole.
#[derive(Debug)]
pub enum ControlTokenOverlap {
    Partial,
    Complete,
}

pub open spec fn spec_token_overlap_json(o: ControlTokenOverlap) -> JsonVal {
    match o {
        ControlTokenOverlap::Partial => JsonVal::Str("partial"@),
        ControlTokenOverlap::Complete => JsonVal::Str("complete"@),
    }
}

impl ControlTokenOverlap {
    pub fn to_json(&self) -> (r: Json)
        ensures
            r@ == spec_token_overlap_json(*self),
    {
        match self {
            ControlTokenOverlap::Partial => Json::Str(String::from_str("partial")),
            ControlTokenOverlap::Complete => Json::Str(String::from_str("complete")),
        }
    }
}

impl Default for ControlTokenOverlap {
    /// Partial application.
    fn default() -> (r: Self)
        ensures
            r == ControlTokenOverlap::Partial,
    {
        ControlTokenOverlap::Partial
    }
}

// ---------------------------------------------------------------------------
// The explanation request
// ---------------------------------------------------------------------------

/// JSON for the optional postprocessing field.
pub open spec fn opt_postprocessing_json(o: Option<Postprocessing>) -> Option<JsonVal> {
    match o {
        Option::Some(p) => Option::Some(spec_postprocessing_json(p)),
        Option::None => Option::None,
    }
}

/// JSON for the optional target granularity field.
pub open spec fn opt_target_granularity_json(o: Option<TargetGranularity>) -> Option<JsonVal> {
    match o {
        Option::Some(g) => Option::Some(spec_target_granularity_json(g)),
        Option::None => Option::None,
    }
}

/// JSON for the optional token overlap field.
pub open spec fn opt_token_overlap_json(o: Option<ControlTokenOverlap>) -> Option<JsonVal> {
    match o {
        Option::Some(v) => Option::Some(spec_token_overlap_json(v)),
        Option::None => Option::None,
    }
}

/// The `prompt_granularity` member travels even when unset, as an
/// explicit null.
pub open spec fn prompt_granularity_json(o: Option<PromptGranularity>) -> JsonVal {
    match o {
        Option::Some(g) => g.spec_json(),
        Option::None => JsonVal::Null,
    }
}

/// Asks the service to explain how the prompt led to `target`.
#[derive(Debug)]
pub struct ExplanationRequest {
    /// Name of the model to use.
    pub model: String,
    /// Determines in which datacenters the request may be processed.
    pub hosting: Option<Hosting>,
    /// The prompt whose influence is explained.
    pub prompt: Prompt,
    /// The completion string to explain.
    pub target: Option<String>,
    /// Factor applied to the explained token in the attention matrix.
    pub control_factor: Option<JsonNumber>,
    /// Apply attention controls to tokens at least this similar to
    /// the controlled ones.
    pub contextual_control_threshold: Option<JsonNumber>,
    /// Apply controls additively on the attention scores rather than
    /// by scaling.
    pub control_log_additive: Option<bool>,
    /// Postprocessing of the per-token score differences.
    pub postprocessing: Option<Postprocessing>,
    /// Normalize scores into the range from zero to one.
    pub normalize: Option<bool>,
    /// At which granularity the prompt is explained. Unset lets the
    /// service pick one; the member still travels, as null.
    pub prompt_granularity: Option<PromptGranularity>,
    /// How many explanations the output holds.
    pub target_granularity: Option<TargetGranularity>,
    /// What to do when a control partly overlaps a token.
    pub control_token_overlap: Option<ControlTokenOverlap>,
}

impl ExplanationRequest {
    /// The wire payload, in the declared field order; only
    /// `prompt_granularity` travels when unset, as null.
    pub open spec fn spec_json(self) -> JsonVal {
        JsonVal::Obj(
            seq![("model"@, JsonVal::Str(self.model@))] + opt_member(
                "hosting"@,
                opt_hosting_json(self.hosting),
            ) + seq![("prompt"@, self.prompt.spec_json())] + opt_member(
                "target"@,
                opt_string_json(self.target),
            ) + opt_member("control_factor"@, opt_num_json(self.control_factor)) + opt_member(
                "contextual_control_threshold"@,
                opt_num_json(self.contextual_control_threshold),
            ) + opt_member("control_log_additive"@, opt_bool_json(self.control_log_additive))
                + opt_member("postprocessing"@, opt_postprocessing_json(self.postprocessing))
                + opt_member("normalize"@, opt_bool_json(self.normalize)) + seq![
                ("prompt_granularity"@, prompt_granularity_json(self.prompt_granularity)),
            ] + opt_member(
                "target_granularity"@,
                opt_target_granularity_json(self.target_granularity),
            ) + opt_member(
                "control_token_overlap"@,
                opt_token_overlap_json(self.control_token_overlap),
            ),
        )
    }

    /// Builds the wire payload.
    pub fn to_json(&self) -> (r: Json)
        ensures
            r@ == self.spec_json(),
    {
        let mut members: Vec<(String, Json)> = Vec::new();
        push_member(&mut members, "model", Json::Str(self.model.clone()));
        push_opt_hosting(&mut members, "hosting", &self.hosting);
        push_member(&mut members, "prompt", self.prompt.to_json());
        push_opt_string(&mut members, "target", &self.target);
        push_opt_num(&mut members, "control_factor", &self.control_factor);
        push_opt_num(
            &mut members,
            "contextual_control_threshold",
            &self.contextual_control_threshold,
        );
        push_opt_bool(&mut members, "control_log_additive", &self.control_log_additive);
        match &self.postprocessing {
            Some(p) => {
                push_member(&mut members, "postprocessing", p.to_json());
            },
            None => {},
        }
        push_opt_bool(&mut members, "normalize", &self.normalize);
        match &self.prompt_granularity {
            Some(g) => {
                push_member(&mut members, "prompt_granularity", g.to_json());
            },
            None => {
                push_member(&mut members, "prompt_granularity", Json::Null);
            },
        }
        match &self.target_granularity {
            Some(g) => {
                push_member(&mut members, "target_granularity", g.to_json());
            },
            None => {},
        }
        match &self.control_token_overlap {
            Some(o) => {
                push_member(&mut members, "control_token_overlap", o.to_json());
            },
            None => {},
        }
        let r = Json::Obj(members);
        proof {
            assert(json_view_members(members@) =~~= self.spec_json()->Obj_0);
        }
        r
    }

    /// A request with only the model and prompt; everything else is
    /// unset.
    pub fn new(model: String, prompt: Prompt) -> (r: Self)
        ensures
            r == (ExplanationRequest {
                model,
                hosting: Option::None,
                prompt,
                target: Option::None,
                control_factor: Option::None,
                contextual_control_threshold: Option::None,
                control_log_additive: Option::None,
                postprocessing: Option::None,
                normalize: Option::None,
                prompt_granularity: Option::None,
                target_granularity: Option::None,
                control_token_overlap: Option::None,
            }),
    {
        ExplanationRequest {
            model,
            hosting: None,
            prompt,
            target: None,
            control_factor: None,
            contextual_control_threshold: None,
            control_log_additive: None,
            postprocessing: None,
            normalize: None,
            prompt_granularity: None,
            target_granularity: None,
            control_token_overlap: None,
        }
    }
}

/// Fluent setters: each wraps its value in `Some` and leaves every
/// other field alone.
impl ExplanationRequest {
    pub fn hosting(self, hosting: Hosting) -> (r: Self)
        ensures
            r == (ExplanationRequest { hosting: Option::Some(hosting), ..self }),
    {
        ExplanationRequest { hosting: Some(hosting), ..self }
    }

    pub fn target(self, target: String) -> (r: Self)
        ensures
            r == (ExplanationRequest { target: Option::Some(target), ..self }),
    {
        ExplanationRequest { target: Some(target), ..self }
    }

    pub fn control_factor(self, control_factor: JsonNumber) -> (r: Self)
        ensures
            r == (ExplanationRequest { control_factor: Option::Some(control_factor), ..self }),
    {
        ExplanationRequest { control_factor: Some(control_factor), ..self }
    }

    pub fn contextual_control_threshold(self, contextual_control_threshold: JsonNumber) -> (r:
        Self)
        ensures
            r == (ExplanationRequest {
                contextual_control_threshold: Option::Some(contextual_control_threshold),
                ..self
            }),
    {
        ExplanationRequest {
            contextual_control_threshold: Some(contextual_control_threshold),
            ..self
        }
    }

    pub fn control_log_additive(self, control_log_additive: bool) -> (r: Self)
        ensures
            r == (ExplanationRequest {
                control_log_additive: Option::Some(control_log_additive),
                ..self
            }),
    {
        ExplanationRequest { control_log_additive: Some(control_log_additive), ..self }
    }

    pub fn postprocessing(self, postprocessing: Postprocessing) -> (r: Self)
        ensures
            r == (ExplanationRequest { postprocessing: Option::Some(postprocessing), ..self }),
    {
        ExplanationRequest { postprocessing: Some(postprocessing), ..self }
    }

    pub fn normalize(self, normalize: bool) -> (r: Self)
        ensures
            r == (ExplanationRequest { normalize: Option::Some(normalize), ..self }),
    {
        ExplanationRequest { normalize: Some(normalize), ..self }
    }

    pub fn prompt_granularity(self, prompt_granularity: PromptGranularity) -> (r: Self)
        ensures
            r == (ExplanationRequest {
                prompt_granularity: Option::Some(prompt_granularity),
                ..self
            }),
    {
        ExplanationRequest { prompt_granularity: Some(prompt_granularity), ..self }
    }

    pub fn target_granularity(self, target_granularity: TargetGranularity) -> (r: Self)
        ensures
            r == (ExplanationRequest {
                target_granularity: Option::Some(target_granularity),
                ..self
            }),
    {
        ExplanationRequest { target_granularity: Some(target_granularity), ..self }
    }

    pub fn control_token_overlap(self, control_token_overlap: ControlTokenOverlap) -> (r: Self)
        ensures
            r == (ExplanationRequest {
                control_token_overlap: Option::Some(control_token_overlap),
                ..self
            }),
    {
        ExplanationRequest { control_token_overlap: Some(control_token_overlap), ..self }
    }
}


// ---------------------------------------------------------------------------
// The explanation response
// ---------------------------------------------------------------------------

/// One scored span of text: an inclusive start character, a length,
/// and the score, kept as its lexeme.
#[derive(Debug)]
pub struct ScoredSegment {
    pub start: i32,
    pub length: i32,
    pub score: JsonNumber,
}

/// Meaning of one scored segment.
pub open spec fn spec_scored_segment(v: JsonVal) -> Option<(i32, i32, Seq<char>)> {
    let start = match obj_lookup(v, "start"@) {
        Option::Some(JsonVal::Num(lex)) => spec_i32_lexeme(lex),
        _ => Option::None,
    };
    let length = match obj_lookup(v, "length"@) {
        Option::Some(JsonVal::Num(lex)) => spec_i32_lexeme(lex),
        _ => Option::None,
    };
    let score = match obj_lookup(v, "score"@) {
        Option::Some(JsonVal::Num(lex)) => Option::Some(lex),
        _ => Option::None,
    };
    match (start, length, score) {
        (Option::Some(a), Option::Some(b), Option::Some(c)) => Option::Some((a, b, c)),
        _ => Option::None,
    }
}

impl ScoredSegment {
    /// Reads one scored segment. Succeeds exactly when `start` and
    /// `length` are numbers in range and `score` is a number.
    pub fn from_json(j: &Json) -> (r: Option<ScoredSegment>)
        ensures
            match (r, spec_scored_segment(j@)) {
                (Option::Some(s), Option::Some(t)) => s.start == t.0 && s.length == t.1
                    && s.score@ == t.2,
                (Option::None, Option::None) => true,
                _ => false,
            },
    {
        let start = match j.get("start") {
            Some(w) => match w {
                Json::Num(n) => match i32_from_lexeme(n.as_str()) {
                    Some(v) => Some(v),
                    None => None,
                },
                _ => None,
            },
            None => None,
        };
        let length = match j.get("length") {
            Some(w) => match w {
                Json::Num(n) => match i32_from_lexeme(n.as_str()) {
                    Some(v) => Some(v),
                    None => None,
                },
                _ => None,
            },
            None => None,
        };
        let score = match j.get("score") {
            Some(w) => match w {
                Json::Num(n) => Some(n.duplicate()),
                _ => None,
            },
            None => None,
        };
        match (start, length, score) {
            (Some(a), Some(b), Some(c)) => Some(ScoredSegment { start: a, length: b, score: c }),
            _ => None,
        }
    }
}

/// One scored rectangle of an image prompt item.
#[derive(Debug)]
pub struct ScoredRect {
    /// The area the score belongs to.
    pub rect: BoundingBox,
    /// The score, kept as its lexeme.
    pub score: JsonNumber,
}

/// Meaning of a bounding box: its four coordinates as lexemes.
pub open spec fn spec_bounding_box(v: JsonVal) -> Option<
    (Seq<char>, Seq<char>, Seq<char>, Seq<char>),
> {
    let left = match obj_lookup(v, "left"@) {
        Option::Some(w) => spec_number(w),
        _ => Option::None,
    };
    let top = match obj_lookup(v, "top"@) {
        Option::Some(w) => spec_number(w),
        _ => Option::None,
    };
    let width = match obj_lookup(v, "width"@) {
        Option::Some(w) => spec_number(w),
        _ => Option::None,
    };
    let heigh = match obj_lookup(v, "heigh"@) {
        Option::Some(w) => spec_number(w),
        _ => Option::None,
    };
    match (left, top, width, heigh) {
        (Option::Some(a), Option::Some(b), Option::Some(c), Option::Some(d)) => Option::Some(
            (a, b, c, d),
        ),
        _ => Option::None,
    }
}

impl BoundingBox {
    /// Reads a bounding box. Succeeds exactly when all four
    /// coordinates are numbers.
    pub fn from_json(j: &Json) -> (r: Option<BoundingBox>)
        ensures
            match (r, spec_bounding_box(j@)) {
                (Option::Some(b), Option::Some(t)) => b.left@ == t.0 && b.top@ == t.1
                    && b.width@ == t.2 && b.heigh@ == t.3,
                (Option::None, Option::None) => true,
                _ => false,
            },
    {
        let left = match j.get("left") {
            Some(w) => match w {
                Json::Num(n) => Some(n.duplicate()),
                _ => None,
            },
            None => None,
        };
        let top = match j.get("top") {
            Some(w) => match w {
                Json::Num(n) => Some(n.duplicate()),
                _ => None,
            },
            None => None,
        };
        let width = match j.get("width") {
            Some(w) => match w {
                Json::Num(n) => Some(n.duplicate()),
                _ => None,
            },
            None => None,
        };
        let heigh = match j.get("heigh") {
            Some(w) => match w {
                Json::Num(n) => Some(n.duplicate()),
                _ => None,
            },
            None => None,
        };
        match (left, top, width, heigh) {
            (Some(a), Some(b), Some(c), Some(d)) => Some(
                BoundingBox { left: a, top: b, width: c, heigh: d },
            ),
            _ => None,
        }
    }
}

/// Meaning of one scored rectangle.
pub open spec fn spec_scored_rect(v: JsonVal) -> Option<
    ((Seq<char>, Seq<char>, Seq<char>, Seq<char>), Seq<char>),
> {
    let rect = match obj_lookup(v, "rect"@) {
        Option::Some(w) => spec_bounding_box(w),
        _ => Option::None,
    };
    let score = match obj_lookup(v, "score"@) {
        Option::Some(JsonVal::Num(lex)) => Option::Some(lex),
        _ => Option::None,
    };
    match (rect, score) {
        (Option::Some(a), Option::Some(b)) => Option::Some((a, b)),
        _ => Option::None,
    }
}

impl ScoredRect {
    /// Reads one scored rectangle. Succeeds exactly when `rect` is a
    /// bounding box and `score` a number.
    pub fn from_json(j: &Json) -> (r: Option<ScoredRect>)
        ensures
            match (r, spec_scored_rect(j@)) {
                (Option::Some(s), Option::Some(t)) => s.rect.left@ == t.0.0 && s.rect.top@
                    == t.0.1 && s.rect.width@ == t.0.2 && s.rect.heigh@ == t.0.3 && s.score@
                    == t.1,
                (Option::None, Option::None) => true,
                _ => false,
            },
    {
        let rect = match j.get("rect") {
            Some(w) => match BoundingBox::from_json(w) {
                Some(b) => Some(b),
                None => None,
            },
            None => None,
        };
        let score = match j.get("score") {
            Some(w) => match w {
                Json::Num(n) => Some(n.duplicate()),
                _ => None,
            },
            None => None,
        };
        match (rect, score) {
            (Some(a), Some(b)) => Some(ScoredRect { rect: a, score: b }),
            _ => None,
        }
    }
}

/// The importance scores for one prompt item, in the item\u{2019}s own
/// modality.
#[derive(Debug)]
pub enum ItemImportance {
    /// Importance of a token-id item: one score per token, in order.
    TokenIds { scores: Vec<JsonNumber> },
    /// Importance of the target text read so far.
    Target { scores: Vec<ScoredSegment> },
    /// Importance of a text item.
    Text { scores: Vec<ScoredSegment> },
    /// Importance of an image item, by rectangular area.
    Image { scores: Vec<ScoredRect> },
}

/// The mathematical shape of one importance entry.
pub enum ItemImportanceVal {
    TokenIds(Seq<Seq<char>>),
    Target(Seq<(i32, i32, Seq<char>)>),
    Text(Seq<(i32, i32, Seq<char>)>),
    Image(Seq<((Seq<char>, Seq<char>, Seq<char>, Seq<char>), Seq<char>)>),
}

/// Meaning of the `scores` member as segments.
pub open spec fn spec_segment_array(v: JsonVal) -> Option<Seq<(i32, i32, Seq<char>)>> {
    match v {
        JsonVal::Arr(items) => if forall|i: int|
            0 <= i < items.len() ==> (#[trigger] spec_scored_segment(items[i])) is Some {
            Option::Some(Seq::new(items.len(), |i: int| spec_scored_segment(items[i])->Some_0))
        } else {
            Option::None
        },
        _ => Option::None,
    }
}

/// Meaning of the `scores` member as rectangles.
pub open spec fn spec_rect_array(v: JsonVal) -> Option<
    Seq<((Seq<char>, Seq<char>, Seq<char>, Seq<char>), Seq<char>)>,
> {
    match v {
        JsonVal::Arr(items) => if forall|i: int|
            0 <= i < items.len() ==> (#[trigger] spec_scored_rect(items[i])) is Some {
            Option::Some(Seq::new(items.len(), |i: int| spec_scored_rect(items[i])->Some_0))
        } else {
            Option::None
        },
        _ => Option::None,
    }
}

/// Meaning of one entry of the `items` array, by its `type` tag.
pub open spec fn spec_item_importance(v: JsonVal) -> Option<ItemImportanceVal> {
    match obj_lookup(v, "type"@) {
        Option::Some(JsonVal::Str(tag)) => {
            let scores = obj_lookup(v, "scores"@);
            if tag == "token_ids"@ {
                match scores {
                    Option::Some(w) => match spec_num_array(w) {
                        Option::Some(s) => Option::Some(ItemImportanceVal::TokenIds(s)),
                        Option::None => Option::None,
                    },
                    Option::None => Option::None,
                }
            } else if tag == "target"@ {
                match scores {
                    Option::Some(w) => match spec_segment_array(w) {
                        Option::Some(s) => Option::Some(ItemImportanceVal::Target(s)),
                        Option::None => Option::None,
                    },
                    Option::None => Option::None,
                }
            } else if tag == "text"@ {
                match scores {
                    Option::Some(w) => match spec_segment_array(w) {
                        Option::Some(s) => Option::Some(ItemImportanceVal::Text(s)),
                        Option::None => Option::None,
                    },
                    Option::None => Option::None,
                }
            } else if tag == "image"@ {
                match scores {
                    Option::Some(w) => match spec_rect_array(w) {
                        Option::Some(s) => Option::Some(ItemImportanceVal::Image(s)),
                        Option::None => Option::None,
                    },
                    Option::None => Option::None,
                }
            } else {
                Option::None
            }
        },
        _ => Option::None,
    }
}

/// A decoded segment list holds exactly the entries `s`.
pub open spec fn segments_match(out: Seq<ScoredSegment>, s: Seq<(i32, i32, Seq<char>)>) -> bool {
    out.len() == s.len() && forall|i: int|
        0 <= i < s.len() ==> (#[trigger] out[i]).start == s[i].0 && out[i].length == s[i].1
            && out[i].score@ == s[i].2
}

/// A decoded rectangle list holds exactly the entries `s`.
pub open spec fn rects_match(
    out: Seq<ScoredRect>,
    s: Seq<((Seq<char>, Seq<char>, Seq<char>, Seq<char>), Seq<char>)>,
) -> bool {
    out.len() == s.len() && forall|i: int|
        0 <= i < s.len() ==> (#[trigger] out[i]).rect.left@ == s[i].0.0 && out[i].rect.top@
            == s[i].0.1 && out[i].rect.width@ == s[i].0.2 && out[i].rect.heigh@ == s[i].0.3
            && out[i].score@ == s[i].1
}

/// A decoded importance entry holds exactly the shape `s`.
pub open spec fn item_importance_matches(out: ItemImportance, s: ItemImportanceVal) -> bool {
    match (out, s) {
        (ItemImportance::TokenIds { scores }, ItemImportanceVal::TokenIds(t)) => scores@.len()
            == t.len() && forall|i: int| 0 <= i < t.len() ==> (#[trigger] scores@[i])@ == t[i],
        (ItemImportance::Target { scores }, ItemImportanceVal::Target(t)) => segments_match(
            scores@,
            t,
        ),
        (ItemImportance::Text { scores }, ItemImportanceVal::Text(t)) => segments_match(
            scores@,
            t,
        ),
        (ItemImportance::Image { scores }, ItemImportanceVal::Image(t)) => rects_match(
            scores@,
            t,
        ),
        _ => false,
    }
}

/// Reads the `scores` member as a list of segments.
fn decode_segment_array(j: &Json) -> (r: Option<Vec<ScoredSegment>>)
    ensures
        match (r, spec_segment_array(j@)) {
            (Option::Some(out), Option::Some(s)) => segments_match(out@, s),
            (Option::None, Option::None) => true,
            _ => false,
        },
{
    match j {
        Json::Arr(items) => {
            proof {
                lemma_json_view_seq(items@);
            }
            let ghost view_items = json_view_seq(items@);
            let mut out: Vec<ScoredSegment> = Vec::new();
            let mut i: usize = 0;
            while i < items.len()
                invariant
                    j@ == JsonVal::Arr(view_items),
                    i <= items.len(),
                    view_items == json_view_seq(items@),
                    view_items.len() == items@.len(),
                    forall|k: int|
                        0 <= k < items@.len() ==> view_items[k] == json_view(
                            #[trigger] items@[k],
                        ),
                    out@.len() == i,
                    forall|k: int|
                        0 <= k < i ==> (#[trigger] spec_scored_segment(view_items[k])) is Some,
                    forall|k: int|
                        0 <= k < i ==> (#[trigger] out@[k]).start == spec_scored_segment(
                            view_items[k],
                        )->Some_0.0 && out@[k].length == spec_scored_segment(
                            view_items[k],
                        )->Some_0.1 && out@[k].score@ == spec_scored_segment(
                            view_items[k],
                        )->Some_0.2,
                decreases items.len() - i,
            {
                match ScoredSegment::from_json(&items[i]) {
                    Some(s) => {
                        out.push(s);
                    },
                    None => {
                        proof {
                            assert(spec_scored_segment(view_items[i as int]) is None);
                        }
                        return None;
                    },
                }
                i = i + 1;
            }
            Some(out)
        },
        _ => None,
    }
}

/// Reads the `scores` member as a list of rectangles.
fn decode_rect_array(j: &Json) -> (r: Option<Vec<ScoredRect>>)
    ensures
        match (r, spec_rect_array(j@)) {
            (Option::Some(out), Option::Some(s)) => rects_match(out@, s),
            (Option::None, Option::None) => true,
            _ => false,
        },
{
    match j {
        Json::Arr(items) => {
            proof {
                lemma_json_view_seq(items@);
            }
            let ghost view_items = json_view_seq(items@);
            let mut out: Vec<ScoredRect> = Vec::new();
            let mut i: usize = 0;
            while i < items.len()
                invariant
                    j@ == JsonVal::Arr(view_items),
                    i <= items.len(),
                    view_items == json_view_seq(items@),
                    view_items.len() == items@.len(),
                    forall|k: int|
                        0 <= k < items@.len() ==> view_items[k] == json_view(
                            #[trigger] items@[k],
                        ),
                    out@.len() == i,
                    forall|k: int|
                        0 <= k < i ==> (#[trigger] spec_scored_rect(view_items[k])) is Some,
                    forall|k: int|
                        0 <= k < i ==> (#[trigger] out@[k]).rect.left@ == spec_scored_rect(
                            view_items[k],
                        )->Some_0.0.0 && out@[k].rect.top@ == spec_scored_rect(
                            view_items[k],
                        )->Some_0.0.1 && out@[k].rect.width@ == spec_scored_rect(
                            view_items[k],
                        )->Some_0.0.2 && out@[k].rect.heigh@ == spec_scored_rect(
                            view_items[k],
                        )->Some_0.0.3 && out@[k].score@ == spec_scored_rect(
                            view_items[k],
                        )->Some_0.1,
                decreases items.len() - i,
            {
                match ScoredRect::from_json(&items[i]) {
                    Some(s) => {
                        out.push(s);
                    },
                    None => {
                        proof {
                            assert(spec_scored_rect(view_items[i as int]) is None);
                        }
                        return None;
                    },
                }
                i = i + 1;
            }
            Some(out)
        },
        _ => None,
    }
}

impl ItemImportance {
    /// Reads one entry of the `items` array. Succeeds exactly when
    /// the `type` tag is known and `scores` decodes in the tagged
    /// shape.
    pub fn from_json(j: &Json) -> (r: Option<ItemImportance>)
        ensures
            match (r, spec_item_importance(j@)) {
                (Option::Some(out), Option::Some(s)) => item_importance_matches(out, s),
                (Option::None, Option::None) => true,
                _ => false,
            },
    {
        let tag = match j.get("type") {
            Some(w) => match w {
                Json::Str(s) => s,
                _ => {
                    return None;
                },
            },
            None => {
                return None;
            },
        };
        let scores_json = match j.get("scores") {
            Some(w) => Some(w),
            None => None,
        };
        if str_eq(tag.as_str(), "token_ids") {
            match scores_json {
                Some(w) => match decode_num_array(w) {
                    Some(scores) => Some(ItemImportance::TokenIds { scores }),
                    None => None,
                },
                None => None,
            }
        } else if str_eq(tag.as_str(), "target") {
            match scores_json {
                Some(w) => match decode_segment_array(w) {
                    Some(scores) => Some(ItemImportance::Target { scores }),
                    None => None,
                },
                None => None,
            }
        } else if str_eq(tag.as_str(), "text") {
            match scores_json {
                Some(w) => match decode_segment_array(w) {
                    Some(scores) => Some(ItemImportance::Text { scores }),
                    None => None,
                },
                None => None,
            }
        } else if str_eq(tag.as_str(), "image") {
            match scores_json {
                Some(w) => match decode_rect_array(w) {
                    Some(scores) => Some(ItemImportance::Image { scores }),
                    None => None,
                },
                None => None,
            }
        } else {
            None
        }
    }
}

/// The explanation for one target token: the token\u{2019}s text and one
/// importance entry per prompt item, the last entry for the target.
#[derive(Debug)]
pub struct ExplanationItem {
    /// The target token being explained.
    pub target: String,
    /// One importance entry for each prompt item, in order; the last
    /// refers to the target.
    pub items: Vec<ItemImportance>,
}

/// Meaning of one entry of the `explanations` array.
pub open spec fn spec_explanation_item(v: JsonVal) -> Option<(Seq<char>, Seq<ItemImportanceVal>)> {
    match (spec_string_field(v, "target"@), obj_lookup(v, "items"@)) {
        (Option::Some(target), Option::Some(w)) => match w {
            JsonVal::Arr(items) => if forall|i: int|
                0 <= i < items.len() ==> (#[trigger] spec_item_importance(items[i])) is Some {
                Option::Some(
                    (
                        target,
                        Seq::new(items.len(), |i: int| spec_item_importance(items[i])->Some_0),
                    ),
                )
            } else {
                Option::None
            },
            _ => Option::None,
        },
        _ => Option::None,
    }
}

impl ExplanationItem {
    /// Reads one entry of the `explanations` array. Succeeds exactly
    /// when `target` is a string and every importance entry decodes.
    pub fn from_json(j: &Json) -> (r: Option<ExplanationItem>)
        ensures
            match (r, spec_explanation_item(j@)) {
                (Option::Some(out), Option::Some(s)) => {
                    &&& out.target@ == s.0
                    &&& out.items@.len() == s.1.len()
                    &&& forall|i: int|
                        0 <= i < s.1.len() ==> item_importance_matches(
                            #[trigger] out.items@[i],
                            s.1[i],
                        )
                },
                (Option::None, Option::None) => true,
                _ => false,
            },
    {
        let target = match get_string(j, "target") {
            Some(s) => s,
            None => {
                return None;
            },
        };
        let arr = match j.get("items") {
            Some(w) => w,
            None => {
                return None;
            },
        };
        match arr {
            Json::Arr(items) => {
                proof {
                    lemma_json_view_seq(items@);
                }
                let ghost view_items = json_view_seq(items@);
                let mut out: Vec<ItemImportance> = Vec::new();
                let mut i: usize = 0;
                while i < items.len()
                    invariant
                        spec_string_field(j@, "target"@) == Option::Some(target@),
                        obj_lookup(j@, "items"@) == Option::Some(arr@),
                        arr@ == JsonVal::Arr(view_items),
                        i <= items.len(),
                        view_items == json_view_seq(items@),
                        view_items.len() == items@.len(),
                        forall|k: int|
                            0 <= k < items@.len() ==> view_items[k] == json_view(
                                #[trigger] items@[k],
                            ),
                        out@.len() == i,
                        forall|k: int|
                            0 <= k < i ==> (#[trigger] spec_item_importance(
                                view_items[k],
                            )) is Some,
                        forall|k: int|
                            0 <= k < i ==> item_importance_matches(
                                #[trigger] out@[k],
                                spec_item_importance(view_items[k])->Some_0,
                            ),
                    decreases items.len() - i,
                {
                    match ItemImportance::from_json(&items[i]) {
                        Some(entry) => {
                            out.push(entry);
                        },
                        None => {
                            proof {
                                assert(spec_item_importance(view_items[i as int]) is None);
                            }
                            return None;
                        },
                    }
                    i = i + 1;
                }
                Some(ExplanationItem { target, items: out })
            },
            _ => None,
        }
    }
}

/// What the service answered to an explanation request.
#[derive(Debug)]
pub struct ExplanationResponse {
    /// Name and version of the model that did the inference.
    pub model_version: String,
    /// One explanation per target token.
    pub explanations: Vec<ExplanationItem>,
}

/// An explanation item holds exactly the shape `s`.
pub open spec fn explanation_item_matches(
    out: ExplanationItem,
    s: (Seq<char>, Seq<ItemImportanceVal>),
) -> bool {
    &&& out.target@ == s.0
    &&& out.items@.len() == s.1.len()
    &&& forall|i: int|
        0 <= i < s.1.len() ==> item_importance_matches(#[trigger] out.items@[i], s.1[i])
}

impl ExplanationResponse {
    /// Reads a response body. Succeeds exactly when `model_version`
    /// is a string and every entry of `explanations` decodes.
    pub fn from_json(j: &Json) -> (r: Option<ExplanationResponse>)
        ensures
            match r {
                Option::Some(resp) => {
                    &&& spec_string_field(j@, "model_version"@) == Option::Some(
                        resp.model_version@,
                    )
                    &&& match obj_lookup(j@, "explanations"@) {
                        Option::Some(w) => match w {
                            JsonVal::Arr(items) => {
                                &&& forall|i: int|
                                    0 <= i < items.len() ==> (#[trigger] spec_explanation_item(
                                        items[i],
                                    )) is Some
                                &&& resp.explanations@.len() == items.len()
                                &&& forall|i: int|
                                    0 <= i < items.len() ==> explanation_item_matches(
                                        #[trigger] resp.explanations@[i],
                                        spec_explanation_item(items[i])->Some_0,
                                    )
                            },
                            _ => false,
                        },
                        Option::None => false,
                    }
                },
                Option::None => spec_string_field(j@, "model_version"@) is None || match
                    obj_lookup(j@, "explanations"@) {
                    Option::Some(w) => match w {
                        JsonVal::Arr(items) => exists|i: int|
                            0 <= i < items.len() && (#[trigger] spec_explanation_item(
                                items[i],
                            )) is None,
                        _ => true,
                    },
                    Option::None => true,
                },
            },
    {
        let model_version = match get_string(j, "model_version") {
            Some(s) => s,
            None => {
                return None;
            },
        };
        let arr = match j.get("explanations") {
            Some(w) => w,
            None => {
                return None;
            },
        };
        match arr {
            Json::Arr(items) => {
                proof {
                    lemma_json_view_seq(items@);
                }
                let ghost view_items = json_view_seq(items@);
                let mut out: Vec<ExplanationItem> = Vec::new();
                let mut i: usize = 0;
                while i < items.len()
                    invariant
                        obj_lookup(j@, "explanations"@) == Option::Some(arr@),
                        arr@ == JsonVal::Arr(view_items),
                        i <= items.len(),
                        view_items == json_view_seq(items@),
                        view_items.len() == items@.len(),
                        forall|k: int|
                            0 <= k < items@.len() ==> view_items[k] == json_view(
                                #[trigger] items@[k],
                            ),
                        out@.len() == i,
                        forall|k: int|
                            0 <= k < i ==> (#[trigger] spec_explanation_item(
                                view_items[k],
                            )) is Some,
                        forall|k: int|
                            0 <= k < i ==> explanation_item_matches(
                                #[trigger] out@[k],
                                spec_explanation_item(view_items[k])->Some_0,
                            ),
                    decreases items.len() - i,
                {
                    match ExplanationItem::from_json(&items[i]) {
                        Some(entry) => {
                            out.push(entry);
                        },
                        None => {
                            proof {
                                assert(spec_explanation_item(view_items[i as int]) is None);
                            }
                            return None;
                        },
                    }
                    i = i + 1;
                }
                Some(ExplanationResponse { model_version, explanations: out })
            },
            _ => None,
        }
    }
}

} // verus!
