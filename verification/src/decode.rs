//! Shared pieces for reading typed values back out of JSON documents.
//!
//! Each `spec_*` function is the meaning of a decoding step; each
//! executable function is proved to compute exactly that meaning.

use vstd::prelude::*;
use crate::json::Json;
use crate::json::JsonNumber;
use crate::json::JsonVal;
use crate::json::json_view;
use crate::json::json_view_members;
use crate::json::json_view_seq;
use crate::json::lemma_json_view_seq;
use crate::json::obj_lookup;
use crate::json::opt_member;
use crate::json::push_member;
use crate::num::spec_i32_lexeme;
use crate::num::spec_i64_lexeme;
use crate::num::spec_u32_lexeme;
use crate::num::i32_from_lexeme;
use crate::num::i64_from_lexeme;
use crate::num::u32_from_lexeme;

verus! {

// ---------------------------------------------------------------------------
// Scalars
// ---------------------------------------------------------------------------

/// The text of a JSON string value.
pub open spec fn spec_string(v: JsonVal) -> Option<Seq<char>> {
    match v {
        JsonVal::Str(s) => Option::Some(s),
        _ => Option::None,
    }
}

pub fn decode_string(j: &Json) -> (r: Option<String>)
    ensures
        match (r, spec_string(j@)) {
            (Option::Some(out), Option::Some(s)) => out@ == s,
            (Option::None, Option::None) => true,
            _ => false,
        },
{
    match j {
        Json::Str(s) => Some(s.clone()),
        _ => None,
    }
}

/// The value of a JSON boolean.
pub open spec fn spec_bool(v: JsonVal) -> Option<bool> {
    match v {
        JsonVal::Bool(b) => Option::Some(b),
        _ => Option::None,
    }
}

pub fn decode_bool(j: &Json) -> (r: Option<bool>)
    ensures
        r == spec_bool(j@),
{
    match j {
        Json::Bool(b) => Some(*b),
        _ => None,
    }
}

/// The lexeme of a JSON number value.
pub open spec fn spec_number(v: JsonVal) -> Option<Seq<char>> {
    match v {
        JsonVal::Num(lex) => Option::Some(lex),
        _ => Option::None,
    }
}

pub fn decode_number(j: &Json) -> (r: Option<JsonNumber>)
    ensures
        match (r, spec_number(j@)) {
            (Option::Some(out), Option::Some(lex)) => out@ == lex,
            (Option::None, Option::None) => true,
            _ => false,
        },
{
    match j {
        Json::Num(n) => Some(n.duplicate()),
        _ => None,
    }
}

/// A JSON number read as a `u32`.
pub open spec fn spec_u32(v: JsonVal) -> Option<u32> {
    match v {
        JsonVal::Num(lex) => spec_u32_lexeme(lex),
        _ => Option::None,
    }
}

pub fn decode_u32(j: &Json) -> (r: Option<u32>)
    ensures
        r == spec_u32(j@),
{
    match j {
        Json::Num(n) => u32_from_lexeme(n.as_str()),
        _ => None,
    }
}

/// A JSON number read as an `i32`.
pub open spec fn spec_i32(v: JsonVal) -> Option<i32> {
    match v {
        JsonVal::Num(lex) => spec_i32_lexeme(lex),
        _ => Option::None,
    }
}

pub fn decode_i32(j: &Json) -> (r: Option<i32>)
    ensures
        r == spec_i32(j@),
{
    match j {
        Json::Num(n) => i32_from_lexeme(n.as_str()),
        _ => None,
    }
}

/// A JSON number read as an `i64`.
pub open spec fn spec_i64(v: JsonVal) -> Option<i64> {
    match v {
        JsonVal::Num(lex) => spec_i64_lexeme(lex),
        _ => Option::None,
    }
}

pub fn decode_i64(j: &Json) -> (r: Option<i64>)
    ensures
        r == spec_i64(j@),
{
    match j {
        Json::Num(n) => i64_from_lexeme(n.as_str()),
        _ => None,
    }
}

// ---------------------------------------------------------------------------
// Arrays
// ---------------------------------------------------------------------------

/// An array whose elements are all strings, as their texts.
pub open spec fn spec_str_array(v: JsonVal) -> Option<Seq<Seq<char>>> {
    match v {
        JsonVal::Arr(items) => if forall|i: int| 0 <= i < items.len() ==> (#[trigger] items[i]) is Str {
            Option::Some(Seq::new(items.len(), |i: int| items[i]->Str_0))
        } else {
            Option::None
        },
        _ => Option::None,
    }
}

pub fn decode_str_array(j: &Json) -> (r: Option<Vec<String>>)
    ensures
        match (r, spec_str_array(j@)) {
            (Option::Some(out), Option::Some(s)) => out.deep_view() == s,
            (Option::None, Option::None) => true,
            _ => false,
        },
{
    match j {
        Json::Arr(items) => {
            proof {
                lemma_json_view_seq(items@);
            }
            let ghost view_items = json_view_seq(items@);
            let mut out: Vec<String> = Vec::new();
            let mut i: usize = 0;
            while i < items.len()
                invariant
                    j@ == JsonVal::Arr(view_items),
                    i <= items.len(),
                    view_items == json_view_seq(items@),
                    view_items.len() == items@.len(),
                    forall|k: int|
                        0 <= k < items@.len() ==> view_items[k] == json_view(
                            #[trigger] items@[k],
                        ),
                    out@.len() == i,
                    forall|k: int| 0 <= k < i ==> (#[trigger] view_items[k]) is Str,
                    forall|k: int| 0 <= k < i ==> (#[trigger] out@[k])@ == view_items[k]->Str_0,
                decreases items.len() - i,
            {
                match &items[i] {
                    Json::Str(s) => {
                        out.push(s.clone());
                    },
                    _ => {
                        proof {
                            assert(!(view_items[i as int] is Str));
                        }
                        return None;
                    },
                }
                i = i + 1;
            }
            proof {
                assert(out.deep_view() =~= Seq::new(
                    view_items.len(),
                    |k: int| view_items[k]->Str_0,
                ));
            }
            Some(out)
        },
        _ => None,
    }
}

/// An array whose elements are all numbers that fit in `u32`.
pub open spec fn spec_u32_array(v: JsonVal) -> Option<Seq<u32>> {
    match v {
        JsonVal::Arr(items) => if forall|i: int|
            0 <= i < items.len() ==> (#[trigger] spec_u32(items[i])) is Some {
            Option::Some(Seq::new(items.len(), |i: int| spec_u32(items[i])->Some_0))
        } else {
            Option::None
        },
        _ => Option::None,
    }
}

pub fn decode_u32_array(j: &Json) -> (r: Option<Vec<u32>>)
    ensures
        match (r, spec_u32_array(j@)) {
            (Option::Some(out), Option::Some(s)) => out@ == s,
            (Option::None, Option::None) => true,
            _ => false,
        },
{
    match j {
        Json::Arr(items) => {
            proof {
                lemma_json_view_seq(items@);
            }
            let ghost view_items = json_view_seq(items@);
            let mut out: Vec<u32> = Vec::new();
            let mut i: usize = 0;
            while i < items.len()
                invariant
                    j@ == JsonVal::Arr(view_items),
                    i <= items.len(),
                    view_items == json_view_seq(items@),
                    view_items.len() == items@.len(),
                    forall|k: int|
                        0 <= k < items@.len() ==> view_items[k] == json_view(
                            #[trigger] items@[k],
                        ),
                    out@.len() == i,
                    forall|k: int| 0 <= k < i ==> (#[trigger] spec_u32(view_items[k])) is Some,
                    forall|k: int| 0 <= k < i ==> #[trigger] out@[k] == spec_u32(
                        view_items[k],
                    )->Some_0,
                decreases items.len() - i,
            {
                match decode_u32(&items[i]) {
                    Some(v) => {
                        out.push(v);
                    },
                    None => {
                        proof {
                            assert(spec_u32(view_items[i as int]) is None);
                        }
                        return None;
                    },
                }
                i = i + 1;
            }
            proof {
                assert(out@ =~= Seq::new(
                    view_items.len(),
                    |k: int| spec_u32(view_items[k])->Some_0,
                ));
            }
            Some(out)
        },
        _ => None,
    }
}

/// An array whose elements are all numbers, as their lexemes.
pub open spec fn spec_num_array(v: JsonVal) -> Option<Seq<Seq<char>>> {
    match v {
        JsonVal::Arr(items) => if forall|i: int| 0 <= i < items.len() ==> (#[trigger] items[i]) is Num {
            Option::Some(Seq::new(items.len(), |i: int| items[i]->Num_0))
        } else {
            Option::None
        },
        _ => Option::None,
    }
}

pub fn decode_num_array(j: &Json) -> (r: Option<Vec<JsonNumber>>)
    ensures
        match (r, spec_num_array(j@)) {
            (Option::Some(out), Option::Some(s)) => out@.len() == s.len() && forall|i: int|
                0 <= i < s.len() ==> (#[trigger] out@[i])@ == s[i],
            (Option::None, Option::None) => true,
            _ => false,
        },
{
    match j {
        Json::Arr(items) => {
            proof {
                lemma_json_view_seq(items@);
            }
            let ghost view_items = json_view_seq(items@);
            let mut out: Vec<JsonNumber> = Vec::new();
            let mut i: usize = 0;
            while i < items.len()
                invariant
                    j@ == JsonVal::Arr(view_items),
                    i <= items.len(),
                    view_items == json_view_seq(items@),
                    view_items.len() == items@.len(),
                    forall|k: int|
                        0 <= k < items@.len() ==> view_items[k] == json_view(
                            #[trigger] items@[k],
                        ),
                    out@.len() == i,
                    forall|k: int| 0 <= k < i ==> (#[trigger] view_items[k]) is Num,
                    forall|k: int| 0 <= k < i ==> (#[trigger] out@[k])@ == view_items[k]->Num_0,
                decreases items.len() - i,
            {
                match &items[i] {
                    Json::Num(n) => {
                        out.push(n.duplicate());
                    },
                    _ => {
                        proof {
                            assert(!(view_items[i as int] is Num));
                        }
                        return None;
                    },
                }
                i = i + 1;
            }
            Some(out)
        },
        _ => None,
    }
}

// ---------------------------------------------------------------------------
// Association lists keyed by strings
// ---------------------------------------------------------------------------

/// First value of `pairs` whose key reads `key`, if any.
pub open spec fn spec_assoc<T>(pairs: Seq<(String, T)>, key: Seq<char>) -> Option<T>
    decreases pairs,
{
    if pairs.len() == 0 {
        Option::None
    } else if pairs[0].0@ == key {
        Option::Some(pairs[0].1)
    } else {
        spec_assoc(pairs.skip(1), key)
    }
}

/// Finds the first pair named `key`.
pub fn assoc_get<'a, T>(pairs: &'a Vec<(String, T)>, key: &str) -> (r: Option<&'a T>)
    ensures
        match r {
            Option::Some(v) => spec_assoc(pairs@, key@) == Option::Some(*v),
            Option::None => spec_assoc(pairs@, key@) is None,
        },
{
    let r = assoc_get_from(pairs, 0, key);
    proof {
        assert(pairs@.skip(0) =~= pairs@);
    }
    r
}

fn assoc_get_from<'a, T>(pairs: &'a Vec<(String, T)>, i: usize, key: &str) -> (r: Option<&'a T>)
    requires
        i <= pairs.len(),
    ensures
        match r {
            Option::Some(v) => spec_assoc(pairs@.skip(i as int), key@) == Option::Some(*v),
            Option::None => spec_assoc(pairs@.skip(i as int), key@) is None,
        },
    decreases pairs@.len() - i,
{
    if i < pairs.len() {
        proof {
            assert(pairs@.skip(i as int)[0] == pairs@[i as int]);
        }
        if crate::json::str_eq(pairs[i].0.as_str(), key) {
            Some(&pairs[i].1)
        } else {
            let r = assoc_get_from(pairs, i + 1, key);
            proof {
                assert(pairs@.skip(i + 1) =~= pairs@.skip(i as int).skip(1));
            }
            r
        }
    } else {
        proof {
            assert(pairs@.skip(i as int).len() == 0);
        }
        None
    }
}

// ---------------------------------------------------------------------------
// Building arrays for requests
// ---------------------------------------------------------------------------

/// The JSON array of strings for `texts`.
pub open spec fn spec_json_str_array(texts: Seq<Seq<char>>) -> JsonVal {
    JsonVal::Arr(Seq::new(texts.len(), |i: int| JsonVal::Str(texts[i])))
}

pub fn json_str_array(texts: &Vec<String>) -> (r: Json)
    ensures
        r@ == spec_json_str_array(texts.deep_view()),
{
    let mut items: Vec<Json> = Vec::new();
    let mut i: usize = 0;
    while i < texts.len()
        invariant
            i <= texts.len(),
            items@.len() == i,
            forall|k: int| 0 <= k < i ==> json_view(#[trigger] items@[k]) == JsonVal::Str(
                texts@[k]@,
            ),
        decreases texts.len() - i,
    {
        items.push(Json::Str(texts[i].clone()));
        i = i + 1;
    }
    let r = Json::Arr(items);
    proof {
        lemma_json_view_seq(items@);
        assert(forall|k: int|
            0 <= k < texts@.len() ==> #[trigger] texts.deep_view()[k] == texts@[k]@);
        assert(json_view_seq(items@) =~= Seq::new(
            texts.deep_view().len(),
            |i: int| JsonVal::Str(texts.deep_view()[i]),
        ));
    }
    r
}

/// The JSON array of numbers for the token ids `ids`.
pub open spec fn spec_json_u32_array(ids: Seq<u32>) -> JsonVal {
    JsonVal::Arr(
        Seq::new(ids.len(), |i: int| JsonVal::Num(crate::num::int_lexeme(ids[i] as int))),
    )
}

pub fn json_u32_array(ids: &Vec<u32>) -> (r: Json)
    ensures
        r@ == spec_json_u32_array(ids@),
{
    let mut items: Vec<Json> = Vec::new();
    let mut i: usize = 0;
    while i < ids.len()
        invariant
            i <= ids.len(),
            items@.len() == i,
            forall|k: int| 0 <= k < i ==> json_view(#[trigger] items@[k]) == JsonVal::Num(
                crate::num::int_lexeme(ids@[k] as int),
            ),
        decreases ids.len() - i,
    {
        items.push(Json::Num(JsonNumber::from_u64(ids[i] as u64)));
        i = i + 1;
    }
    let r = Json::Arr(items);
    proof {
        lemma_json_view_seq(items@);
        assert(json_view_seq(items@) =~= Seq::new(
            ids@.len(),
            |i: int| JsonVal::Num(crate::num::int_lexeme(ids@[i] as int)),
        ));
    }
    r
}

/// The JSON array of numbers for the signed integers `vs`.
pub open spec fn spec_json_i32_array(vs: Seq<i32>) -> JsonVal {
    JsonVal::Arr(
        Seq::new(vs.len(), |i: int| JsonVal::Num(crate::num::int_lexeme(vs[i] as int))),
    )
}

pub fn json_i32_array(vs: &Vec<i32>) -> (r: Json)
    ensures
        r@ == spec_json_i32_array(vs@),
{
    let mut items: Vec<Json> = Vec::new();
    let mut i: usize = 0;
    while i < vs.len()
        invariant
            i <= vs.len(),
            items@.len() == i,
            forall|k: int| 0 <= k < i ==> json_view(#[trigger] items@[k]) == JsonVal::Num(
                crate::num::int_lexeme(vs@[k] as int),
            ),
        decreases vs.len() - i,
    {
        items.push(Json::Num(JsonNumber::from_i64(vs[i] as i64)));
        i = i + 1;
    }
    let r = Json::Arr(items);
    proof {
        lemma_json_view_seq(items@);
        assert(json_view_seq(items@) =~= Seq::new(
            vs@.len(),
            |i: int| JsonVal::Num(crate::num::int_lexeme(vs@[i] as int)),
        ));
    }
    r
}

// ---------------------------------------------------------------------------
// Optional members of request payloads
// ---------------------------------------------------------------------------

/// JSON for an optional number field.
pub open spec fn opt_num_json(o: Option<JsonNumber>) -> Option<JsonVal> {
    match o {
        Option::Some(n) => Option::Some(JsonVal::Num(n@)),
        Option::None => Option::None,
    }
}

/// JSON for an optional boolean field.
pub open spec fn opt_bool_json(o: Option<bool>) -> Option<JsonVal> {
    match o {
        Option::Some(b) => Option::Some(JsonVal::Bool(b)),
        Option::None => Option::None,
    }
}

/// JSON for an optional unsigned integer field.
pub open spec fn opt_u32_json(o: Option<u32>) -> Option<JsonVal> {
    match o {
        Option::Some(v) => Option::Some(JsonVal::Num(crate::num::int_lexeme(v as int))),
        Option::None => Option::None,
    }
}

/// JSON for an optional signed integer field.
pub open spec fn opt_i32_json(o: Option<i32>) -> Option<JsonVal> {
    match o {
        Option::Some(v) => Option::Some(JsonVal::Num(crate::num::int_lexeme(v as int))),
        Option::None => Option::None,
    }
}

/// JSON for an optional string field.
pub open spec fn opt_string_json(o: Option<String>) -> Option<JsonVal> {
    match o {
        Option::Some(s) => Option::Some(JsonVal::Str(s@)),
        Option::None => Option::None,
    }
}

/// JSON for an optional list-of-strings field.
pub open spec fn opt_str_array_json(o: Option<Vec<String>>) -> Option<JsonVal> {
    match o {
        Option::Some(v) => Option::Some(spec_json_str_array(v.deep_view())),
        Option::None => Option::None,
    }
}

/// Appends the member for an optional number field, when it is set.
pub fn push_opt_num(members: &mut Vec<(String, Json)>, key: &str, v: &Option<JsonNumber>)
    ensures
        json_view_members(final(members)@) == json_view_members(old(members)@) + opt_member(
            key@,
            opt_num_json(*v),
        ),
{
    match v {
        Some(n) => {
            push_member(members, key, Json::Num(n.duplicate()));
        },
        None => {
            proof {
                assert(json_view_members(members@) + opt_member(key@, opt_num_json(*v))
                    =~= json_view_members(members@));
            }
        },
    }
}

/// Appends the member for an optional boolean field, when it is set.
pub fn push_opt_bool(members: &mut Vec<(String, Json)>, key: &str, v: &Option<bool>)
    ensures
        json_view_members(final(members)@) == json_view_members(old(members)@) + opt_member(
            key@,
            opt_bool_json(*v),
        ),
{
    match v {
        Some(b) => {
            push_member(members, key, Json::Bool(*b));
        },
        None => {
            proof {
                assert(json_view_members(members@) + opt_member(key@, opt_bool_json(*v))
                    =~= json_view_members(members@));
            }
        },
    }
}

/// Appends the member for an optional unsigned integer field, when it
/// is set.
pub fn push_opt_u32(members: &mut Vec<(String, Json)>, key: &str, v: &Option<u32>)
    ensures
        json_view_members(final(members)@) == json_view_members(old(members)@) + opt_member(
            key@,
            opt_u32_json(*v),
        ),
{
    match v {
        Some(n) => {
            push_member(members, key, Json::Num(JsonNumber::from_u64(*n as u64)));
        },
        None => {
            proof {
                assert(json_view_members(members@) + opt_member(key@, opt_u32_json(*v))
                    =~= json_view_members(members@));
            }
        },
    }
}

/// Appends the member for an optional signed integer field, when it
/// is set.
pub fn push_opt_i32(members: &mut Vec<(String, Json)>, key: &str, v: &Option<i32>)
    ensures
        json_view_members(final(members)@) == json_view_members(old(members)@) + opt_member(
            key@,
            opt_i32_json(*v),
        ),
{
    match v {
        Some(n) => {
            push_member(members, key, Json::Num(JsonNumber::from_i64(*n as i64)));
        },
        None => {
            proof {
                assert(json_view_members(members@) + opt_member(key@, opt_i32_json(*v))
                    =~= json_view_members(members@));
            }
        },
    }
}

/// Appends the member for an optional string field, when it is set.
pub fn push_opt_string(members: &mut Vec<(String, Json)>, key: &str, v: &Option<String>)
    ensures
        json_view_members(final(members)@) == json_view_members(old(members)@) + opt_member(
            key@,
            opt_string_json(*v),
        ),
{
    match v {
        Some(s) => {
            push_member(members, key, Json::Str(s.clone()));
        },
        None => {
            proof {
                assert(json_view_members(members@) + opt_member(key@, opt_string_json(*v))
                    =~= json_view_members(members@));
            }
        },
    }
}

/// Appends the member for an optional list-of-strings field, when it
/// is set.
pub fn push_opt_str_array(members: &mut Vec<(String, Json)>, key: &str, v: &Option<Vec<String>>)
    ensures
        json_view_members(final(members)@) == json_view_members(old(members)@) + opt_member(
            key@,
            opt_str_array_json(*v),
        ),
{
    match v {
        Some(texts) => {
            push_member(members, key, json_str_array(texts));
        },
        None => {
            proof {
                assert(json_view_members(members@) + opt_member(key@, opt_str_array_json(*v))
                    =~= json_view_members(members@));
            }
        },
    }
}

// ---------------------------------------------------------------------------
// Optional members of response bodies
// ---------------------------------------------------------------------------

/// An optional string member: absent or null means unset.
pub open spec fn spec_opt_string_field(v: JsonVal, key: Seq<char>) -> Option<Option<Seq<char>>> {
    match obj_lookup(v, key) {
        Option::None => Option::Some(Option::None),
        Option::Some(JsonVal::Null) => Option::Some(Option::None),
        Option::Some(w) => match spec_string(w) {
            Option::Some(s) => Option::Some(Option::Some(s)),
            Option::None => Option::None,
        },
    }
}

pub fn get_opt_string(j: &Json, key: &str) -> (r: Option<Option<String>>)
    ensures
        match (r, spec_opt_string_field(j@, key@)) {
            (Option::Some(Option::Some(out)), Option::Some(Option::Some(s))) => out@ == s,
            (Option::Some(Option::None), Option::Some(Option::None)) => true,
            (Option::None, Option::None) => true,
            _ => false,
        },
{
    match j.get(key) {
        None => Some(None),
        Some(w) => match w {
            Json::Null => Some(None),
            _ => match decode_string(w) {
                Some(s) => Some(Some(s)),
                None => None,
            },
        },
    }
}

/// An optional boolean member: absent or null means unset.
pub open spec fn spec_opt_bool_field(v: JsonVal, key: Seq<char>) -> Option<Option<bool>> {
    match obj_lookup(v, key) {
        Option::None => Option::Some(Option::None),
        Option::Some(JsonVal::Null) => Option::Some(Option::None),
        Option::Some(w) => match spec_bool(w) {
            Option::Some(b) => Option::Some(Option::Some(b)),
            Option::None => Option::None,
        },
    }
}

pub fn get_opt_bool(j: &Json, key: &str) -> (r: Option<Option<bool>>)
    ensures
        r == spec_opt_bool_field(j@, key@),
{
    match j.get(key) {
        None => Some(None),
        Some(w) => match w {
            Json::Null => Some(None),
            _ => match decode_bool(w) {
                Some(b) => Some(Some(b)),
                None => None,
            },
        },
    }
}

/// An optional signed integer member: absent or null means unset.
pub open spec fn spec_opt_i32_field(v: JsonVal, key: Seq<char>) -> Option<Option<i32>> {
    match obj_lookup(v, key) {
        Option::None => Option::Some(Option::None),
        Option::Some(JsonVal::Null) => Option::Some(Option::None),
        Option::Some(w) => match spec_i32(w) {
            Option::Some(n) => Option::Some(Option::Some(n)),
            Option::None => Option::None,
        },
    }
}

pub fn get_opt_i32(j: &Json, key: &str) -> (r: Option<Option<i32>>)
    ensures
        r == spec_opt_i32_field(j@, key@),
{
    match j.get(key) {
        None => Some(None),
        Some(w) => match w {
            Json::Null => Some(None),
            _ => match decode_i32(w) {
                Some(n) => Some(Some(n)),
                None => None,
            },
        },
    }
}

/// An optional number member, kept as its lexeme: absent or null
/// means unset.
pub open spec fn spec_opt_num_field(v: JsonVal, key: Seq<char>) -> Option<Option<Seq<char>>> {
    match obj_lookup(v, key) {
        Option::None => Option::Some(Option::None),
        Option::Some(JsonVal::Null) => Option::Some(Option::None),
        Option::Some(w) => match spec_number(w) {
            Option::Some(lex) => Option::Some(Option::Some(lex)),
            Option::None => Option::None,
        },
    }
}

pub fn get_opt_number(j: &Json, key: &str) -> (r: Option<Option<JsonNumber>>)
    ensures
        match (r, spec_opt_num_field(j@, key@)) {
            (Option::Some(Option::Some(out)), Option::Some(Option::Some(lex))) => out@ == lex,
            (Option::Some(Option::None), Option::Some(Option::None)) => true,
            (Option::None, Option::None) => true,
            _ => false,
        },
{
    match j.get(key) {
        None => Some(None),
        Some(w) => match w {
            Json::Null => Some(None),
            _ => match decode_number(w) {
                Some(n) => Some(Some(n)),
                None => None,
            },
        },
    }
}

/// An optional list-of-strings member: absent or null means unset.
pub open spec fn spec_opt_str_array_field(v: JsonVal, key: Seq<char>) -> Option<
    Option<Seq<Seq<char>>>,
> {
    match obj_lookup(v, key) {
        Option::None => Option::Some(Option::None),
        Option::Some(JsonVal::Null) => Option::Some(Option::None),
        Option::Some(w) => match spec_str_array(w) {
            Option::Some(s) => Option::Some(Option::Some(s)),
            Option::None => Option::None,
        },
    }
}

pub fn get_opt_str_array(j: &Json, key: &str) -> (r: Option<Option<Vec<String>>>)
    ensures
        match (r, spec_opt_str_array_field(j@, key@)) {
            (Option::Some(Option::Some(out)), Option::Some(Option::Some(s))) => out.deep_view()
                == s,
            (Option::Some(Option::None), Option::Some(Option::None)) => true,
            (Option::None, Option::None) => true,
            _ => false,
        },
{
    match j.get(key) {
        None => Some(None),
        Some(w) => match w {
            Json::Null => Some(None),
            _ => match decode_str_array(w) {
                Some(s) => Some(Some(s)),
                None => None,
            },
        },
    }
}

/// An optional `String` field holds exactly what an optional-string
/// member spec found.
pub open spec fn matches_opt_string_val(field: Option<String>, s: Option<Option<Seq<char>>>) -> bool {
    match (field, s) {
        (Option::Some(t), Option::Some(Option::Some(c))) => t@ == c,
        (Option::None, Option::Some(Option::None)) => true,
        _ => false,
    }
}

/// An optional number field holds exactly what an optional-number
/// member spec found.
pub open spec fn matches_opt_num_val(field: Option<JsonNumber>, s: Option<Option<Seq<char>>>) -> bool {
    match (field, s) {
        (Option::Some(n), Option::Some(Option::Some(lex))) => n@ == lex,
        (Option::None, Option::Some(Option::None)) => true,
        _ => false,
    }
}

/// A required string member.
pub open spec fn spec_string_field(v: JsonVal, key: Seq<char>) -> Option<Seq<char>> {
    match obj_lookup(v, key) {
        Option::Some(w) => spec_string(w),
        Option::None => Option::None,
    }
}

pub fn get_string(j: &Json, key: &str) -> (r: Option<String>)
    ensures
        match (r, spec_string_field(j@, key@)) {
            (Option::Some(out), Option::Some(s)) => out@ == s,
            (Option::None, Option::None) => true,
            _ => false,
        },
{
    match j.get(key) {
        Some(w) => decode_string(w),
        None => None,
    }
}

} // verus!
