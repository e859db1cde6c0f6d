//! A small JSON document model: the wire format of every request and
//! response in this crate.
//!
//! Numbers are kept as their textual lexemes. The remote service works
//! with floating-point values, which this crate does not compute with;
//! a lexeme preserves the wire representation exactly.

use vstd::prelude::*;
use vstd::string::StrSliceExecFns;

verus! {

/// A JSON value. Object members keep their insertion order; duplicate
/// keys are representable but never produced by this crate.
#[derive(Debug)]
pub enum Json {
    Null,
    Bool(bool),
    Num(JsonNumber),
    Str(String),
    Arr(Vec<Json>),
    Obj(Vec<(String, Json)>),
}

/// A JSON number, stored as its lexeme (for example `-12.5`).
#[derive(Debug)]
pub struct JsonNumber {
    lexeme: String,
}

/// The mathematical shape of a JSON document: what contracts in this
/// crate speak about. Numbers appear as their lexemes, strings as their
/// character sequences.
#[verifier::ext_equal]
pub enum JsonVal {
    Null,
    Bool(bool),
    Num(Seq<char>),
    Str(Seq<char>),
    Arr(Seq<JsonVal>),
    Obj(Seq<(Seq<char>, JsonVal)>),
}

// ---------------------------------------------------------------------------
// Views
// ---------------------------------------------------------------------------

impl View for JsonNumber {
    type V = Seq<char>;

    closed spec fn view(&self) -> Seq<char> {
        self.lexeme@
    }
}

pub open spec fn json_view(j: Json) -> JsonVal
    decreases j,
{
    match j {
        Json::Null => JsonVal::Null,
        Json::Bool(b) => JsonVal::Bool(b),
        Json::Num(n) => JsonVal::Num(n@),
        Json::Str(s) => JsonVal::Str(s@),
        Json::Arr(items) => JsonVal::Arr(json_view_seq(items@)),
        Json::Obj(members) => JsonVal::Obj(json_view_members(members@)),
    }
}

pub open spec fn json_view_seq(items: Seq<Json>) -> Seq<JsonVal>
    decreases items,
{
    if items.len() == 0 {
        Seq::empty()
    } else {
        seq![json_view(items[0])] + json_view_seq(items.skip(1))
    }
}

pub open spec fn json_view_members(members: Seq<(String, Json)>) -> Seq<(Seq<char>, JsonVal)>
    decreases members,
{
    if members.len() == 0 {
        Seq::empty()
    } else {
        seq![(members[0].0@, json_view(members[0].1))] + json_view_members(members.skip(1))
    }
}

impl View for Json {
    type V = JsonVal;

    open spec fn view(&self) -> JsonVal {
        json_view(*self)
    }
}

/// `json_view_seq` maps the view over the elements, one to one.
pub proof fn lemma_json_view_seq(items: Seq<Json>)
    ensures
        json_view_seq(items).len() == items.len(),
        forall|i: int|
            #![trigger json_view_seq(items)[i]]
            #![trigger items[i]]
            0 <= i < items.len() ==> json_view_seq(items)[i] == json_view(items[i]),
    decreases items,
{
    if items.len() > 0 {
        lemma_json_view_seq(items.skip(1));
        assert(forall|i: int|
            1 <= i < items.len() ==> items.skip(1)[i - 1] == #[trigger] items[i]);
    }
}

/// `json_view_members` keeps keys and maps the view over the values.
pub proof fn lemma_json_view_members(members: Seq<(String, Json)>)
    ensures
        json_view_members(members).len() == members.len(),
        forall|i: int|
            #![trigger json_view_members(members)[i]]
            #![trigger members[i]]
            0 <= i < members.len() ==> json_view_members(members)[i] == (
            members[i].0@,
            json_view(members[i].1),
            ),
    decreases members,
{
    if members.len() > 0 {
        lemma_json_view_members(members.skip(1));
        assert(forall|i: int|
            1 <= i < members.len() ==> members.skip(1)[i - 1] == #[trigger] members[i]);
    }
}

// ---------------------------------------------------------------------------
// The number grammar
// ---------------------------------------------------------------------------

pub open spec fn is_digit(c: char) -> bool {
    '0' <= c && c <= '9'
}

/// Length of the longest all-digit prefix of `s`.
pub open spec fn digits_prefix_len(s: Seq<char>) -> int
    decreases s.len(),
{
    if s.len() > 0 && is_digit(s[0]) {
        1 + digits_prefix_len(s.skip(1))
    } else {
        0
    }
}

/// `s` is a complete JSON number lexeme: an optional minus sign, an
/// integer part without a superfluous leading zero, an optional
/// fraction, and an optional exponent.
pub open spec fn is_number_lexeme(s: Seq<char>) -> bool {
    let t = if s.len() > 0 && s[0] == '-' {
        s.skip(1)
    } else {
        s
    };
    let d = digits_prefix_len(t);
    &&& d > 0
    &&& (t[0] == '0' ==> d == 1)
    &&& number_after_int(t.skip(d))
}

/// The part of a number lexeme after the integer digits: an optional
/// fraction followed by an optional exponent.
pub open spec fn number_after_int(s: Seq<char>) -> bool {
    if s.len() > 0 && s[0] == '.' {
        let d = digits_prefix_len(s.skip(1));
        d > 0 && number_exp(s.skip(1 + d))
    } else {
        number_exp(s)
    }
}

/// The exponent part of a number lexeme, possibly empty.
pub open spec fn number_exp(s: Seq<char>) -> bool {
    if s.len() == 0 {
        true
    } else if s[0] == 'e' || s[0] == 'E' {
        let t = if s.len() > 1 && (s[1] == '+' || s[1] == '-') {
            s.skip(2)
        } else {
            s.skip(1)
        };
        t.len() > 0 && digits_prefix_len(t) == t.len()
    } else {
        false
    }
}

// ---------------------------------------------------------------------------
// Well-formedness
// ---------------------------------------------------------------------------

impl JsonNumber {
    pub open spec fn wf(&self) -> bool {
        is_number_lexeme(self@)
    }

    /// The lexeme itself.
    pub fn as_str(&self) -> (r: &str)
        ensures
            r@ == self@,
    {
        self.lexeme.as_str()
    }

    /// Wraps a lexeme that the caller has already shown grammatical.
    pub(crate) fn from_lexeme(lexeme: String) -> (r: JsonNumber)
        ensures
            r@ == lexeme@,
    {
        JsonNumber { lexeme }
    }

    /// A copy with the same lexeme.
    pub fn duplicate(&self) -> (r: JsonNumber)
        ensures
            r@ == self@,
    {
        JsonNumber { lexeme: self.lexeme.clone() }
    }
}

/// Every number lexeme in the document is grammatical.
pub open spec fn json_val_wf(v: JsonVal) -> bool
    decreases v,
{
    match v {
        JsonVal::Null => true,
        JsonVal::Bool(_) => true,
        JsonVal::Num(lex) => is_number_lexeme(lex),
        JsonVal::Str(_) => true,
        JsonVal::Arr(items) => forall|i: int|
            0 <= i < items.len() ==> json_val_wf(#[trigger] items[i]),
        JsonVal::Obj(members) => forall|i: int|
            0 <= i < members.len() ==> json_val_wf(#[trigger] members[i].1),
    }
}

impl Json {
    pub open spec fn wf(self) -> bool {
        json_val_wf(self@)
    }
}

// ---------------------------------------------------------------------------
// Object lookup
// ---------------------------------------------------------------------------

/// First member of `members` named `key`, if any.
pub open spec fn lookup_members(members: Seq<(Seq<char>, JsonVal)>, key: Seq<char>) -> Option<
    JsonVal,
>
    decreases members,
{
    if members.len() == 0 {
        Option::None
    } else if members[0].0 == key {
        Option::Some(members[0].1)
    } else {
        lookup_members(members.skip(1), key)
    }
}

/// Member `key` of the object `v`; `None` when `v` is no object or
/// has no such member.
pub open spec fn obj_lookup(v: JsonVal, key: Seq<char>) -> Option<JsonVal> {
    match v {
        JsonVal::Obj(members) => lookup_members(members, key),
        _ => Option::None,
    }
}

/// The members contributed by an optional field: none when the field
/// is unset, exactly one otherwise. This is the sparse-serialization
/// rule: an unset field never appears as a key.
pub open spec fn opt_member(key: Seq<char>, v: Option<JsonVal>) -> Seq<(Seq<char>, JsonVal)> {
    match v {
        Option::Some(jv) => seq![(key, jv)],
        Option::None => Seq::empty(),
    }
}

/// Appending a member extends the member view by one entry.
pub proof fn lemma_json_view_members_push(members: Seq<(String, Json)>, m: (String, Json))
    ensures
        json_view_members(members.push(m)) == json_view_members(members) + seq![
            (m.0@, json_view(m.1)),
        ],
    decreases members,
{
    if members.len() == 0 {
        assert(members.push(m)[0] == m);
        assert(members.push(m).skip(1) =~= Seq::<(String, Json)>::empty());
        assert(json_view_members(Seq::<(String, Json)>::empty()) + seq![(m.0@, json_view(m.1))]
            =~= seq![(m.0@, json_view(m.1))]);
        assert(json_view_members(members.push(m)) =~= seq![(m.0@, json_view(m.1))]);
    } else {
        assert(members.push(m)[0] == members[0]);
        assert(members.push(m).skip(1) =~= members.skip(1).push(m));
        lemma_json_view_members_push(members.skip(1), m);
        assert(seq![(members[0].0@, json_view(members[0].1))] + (json_view_members(
            members.skip(1),
        ) + seq![(m.0@, json_view(m.1))]) =~= (seq![(members[0].0@, json_view(members[0].1))]
            + json_view_members(members.skip(1))) + seq![(m.0@, json_view(m.1))]);
    }
}

/// Appends one member, extending the member view by one entry.
pub fn push_member(members: &mut Vec<(String, Json)>, key: &str, value: Json)
    ensures
        json_view_members(final(members)@) == json_view_members(old(members)@) + seq![
            (key@, json_view(value)),
        ],
{
    let owned_key = key.to_owned();
    proof {
        lemma_json_view_members_push(members@, (owned_key, value));
    }
    members.push((owned_key, value));
}

/// Character-by-character equality of two text slices.
pub fn str_eq(a: &str, b: &str) -> (r: bool)
    ensures
        r == (a@ == b@),
{
    let na = a.unicode_len();
    let nb = b.unicode_len();
    if na != nb {
        return false;
    }
    let mut i: usize = 0;
    while i < na
        invariant
            i <= na,
            na == a@.len(),
            na == b@.len(),
            forall|k: int| 0 <= k < i ==> a@[k] == b@[k],
        decreases na - i,
    {
        if a.get_char(i) != b.get_char(i) {
            return false;
        }
        i = i + 1;
    }
    proof {
        assert(a@ =~= b@);
    }
    true
}

impl Json {
    /// The first member named `key`, when this is an object that has
    /// one.
    pub fn get<'a>(&'a self, key: &str) -> (r: Option<&'a Json>)
        ensures
            match r {
                Option::Some(v) => obj_lookup(self@, key@) == Option::Some(v@),
                Option::None => obj_lookup(self@, key@) is None,
            },
    {
        match self {
            Json::Obj(members) => {
                let r = get_member_from(members, 0, key);
                proof {
                    assert(json_view_members(members@).skip(0) =~= json_view_members(
                        members@,
                    ));
                }
                r
            },
            _ => None,
        }
    }
}

/// Scans the members from position `i` on for the first one named
/// `key`.
fn get_member_from<'a>(members: &'a Vec<(String, Json)>, i: usize, key: &str) -> (r: Option<
    &'a Json,
>)
    requires
        i <= members.len(),
    ensures
        match r {
            Option::Some(v) => lookup_members(json_view_members(members@).skip(i as int), key@)
                == Option::Some(v@),
            Option::None => lookup_members(
                json_view_members(members@).skip(i as int),
                key@,
            ) is None,
        },
    decreases members@.len() - i,
{
    proof {
        lemma_json_view_members(members@);
    }
    let ghost tail = json_view_members(members@).skip(i as int);
    if i < members.len() {
        proof {
            assert(tail[0] == (members@[i as int].0@, json_view(members@[i as int].1)));
        }
        if str_eq(members[i].0.as_str(), key) {
            Some(&members[i].1)
        } else {
            let r = get_member_from(members, i + 1, key);
            proof {
                assert(json_view_members(members@).skip(i + 1) =~= tail.skip(1));
            }
            r
        }
    } else {
        proof {
            assert(tail.len() == 0);
        }
        None
    }
}

/// Lookup scans concatenated member lists left to right.
pub proof fn lemma_lookup_append(a: Seq<(Seq<char>, JsonVal)>, b: Seq<(Seq<char>, JsonVal)>)
    ensures
        forall|k: Seq<char>|
            #[trigger] lookup_members(a + b, k) == (match lookup_members(a, k) {
                Option::Some(v) => Option::Some(v),
                Option::None => lookup_members(b, k),
            }),
    decreases a,
{
    if a.len() == 0 {
        assert(a + b =~= b);
        assert forall|k: Seq<char>|
            #[trigger] lookup_members(a + b, k) == (match lookup_members(a, k) {
                Option::Some(v) => Option::Some(v),
                Option::None => lookup_members(b, k),
            }) by {
            assert(lookup_members(a, k) is None);
        }
    } else {
        lemma_lookup_append(a.skip(1), b);
        assert forall|k: Seq<char>|
            #[trigger] lookup_members(a + b, k) == (match lookup_members(a, k) {
                Option::Some(v) => Option::Some(v),
                Option::None => lookup_members(b, k),
            }) by {
            assert((a + b)[0] == a[0]);
            assert((a + b).skip(1) =~= a.skip(1) + b);
            assert(lookup_members((a + b).skip(1), k) == lookup_members(a.skip(1) + b, k));
        }
    }
}

/// Lookup in a one-member list.
pub proof fn lemma_lookup_single(ms: Seq<(Seq<char>, JsonVal)>, m: (Seq<char>, JsonVal))
    requires
        ms == seq![m],
    ensures
        forall|k: Seq<char>|
            #[trigger] lookup_members(ms, k) == (if m.0 == k {
                Option::Some(m.1)
            } else {
                Option::<JsonVal>::None
            }),
{
    assert forall|k: Seq<char>|
        #[trigger] lookup_members(ms, k) == (if m.0 == k {
            Option::Some(m.1)
        } else {
            Option::<JsonVal>::None
        }) by {
        assert(ms[0] == m);
        assert(ms.skip(1) =~= Seq::<(Seq<char>, JsonVal)>::empty());
        assert(lookup_members(Seq::<(Seq<char>, JsonVal)>::empty(), k) is None);
    }
}

/// Lookup in the members of one optional field: the very
/// sparse-serialization rule, member by member.
pub proof fn lemma_lookup_opt(key: Seq<char>, o: Option<JsonVal>)
    ensures
        forall|k: Seq<char>|
            #[trigger] lookup_members(opt_member(key, o), k) == (match o {
                Option::Some(jv) => if key == k {
                    Option::Some(jv)
                } else {
                    Option::<JsonVal>::None
                },
                Option::None => Option::<JsonVal>::None,
            }),
{
    match o {
        Option::Some(jv) => {
            lemma_lookup_single(opt_member(key, o), (key, jv));
        },
        Option::None => {
        },
    }
}

/// The member list of an object with optional fields: each field
/// contributes its member exactly when it is set.
pub open spec fn sparse_members(fields: Seq<(Seq<char>, Option<JsonVal>)>) -> Seq<
    (Seq<char>, JsonVal),
>
    decreases fields,
{
    if fields.len() == 0 {
        Seq::empty()
    } else {
        opt_member(fields[0].0, fields[0].1) + sparse_members(fields.skip(1))
    }
}

/// One more field appends its members at the end.
pub proof fn lemma_sparse_members_push(
    fields: Seq<(Seq<char>, Option<JsonVal>)>,
    f: (Seq<char>, Option<JsonVal>),
)
    ensures
        sparse_members(fields.push(f)) == sparse_members(fields) + opt_member(f.0, f.1),
    decreases fields,
{
    if fields.len() == 0 {
        assert(fields.push(f)[0] == f);
        assert(fields.push(f).skip(1) =~= Seq::<(Seq<char>, Option<JsonVal>)>::empty());
        assert(opt_member(f.0, f.1) + sparse_members(
            Seq::<(Seq<char>, Option<JsonVal>)>::empty(),
        ) =~= opt_member(f.0, f.1));
        assert(sparse_members(fields) + opt_member(f.0, f.1) =~= opt_member(f.0, f.1));
    } else {
        assert(fields.push(f)[0] == fields[0]);
        assert(fields.push(f).skip(1) =~= fields.skip(1).push(f));
        lemma_sparse_members_push(fields.skip(1), f);
        assert(opt_member(fields[0].0, fields[0].1) + (sparse_members(fields.skip(1))
            + opt_member(f.0, f.1)) =~= (opt_member(fields[0].0, fields[0].1)
            + sparse_members(fields.skip(1))) + opt_member(f.0, f.1));
    }
}

/// A key that belongs to none of the fields is absent from the
/// members.
pub proof fn lemma_sparse_absent(fields: Seq<(Seq<char>, Option<JsonVal>)>, key: Seq<char>)
    requires
        forall|i: int| 0 <= i < fields.len() ==> (#[trigger] fields[i]).0 != key,
    ensures
        lookup_members(sparse_members(fields), key) is None,
    decreases fields,
{
    if fields.len() > 0 {
        lemma_lookup_append(opt_member(fields[0].0, fields[0].1), sparse_members(fields.skip(1)));
        lemma_lookup_opt(fields[0].0, fields[0].1);
        assert(forall|i: int|
            0 <= i < fields.skip(1).len() ==> (#[trigger] fields.skip(1)[i]).0 != key);
        lemma_sparse_absent(fields.skip(1), key);
    }
}

/// Looking up the key of field `j` finds exactly that field's value:
/// the member is present if and only if the field is set, and then
/// holds the value that was provided.
pub proof fn lemma_sparse_lookup(fields: Seq<(Seq<char>, Option<JsonVal>)>, j: int)
    requires
        0 <= j < fields.len(),
        forall|i: int|
            0 <= i < fields.len() && i != j ==> (#[trigger] fields[i]).0 != fields[j].0,
    ensures
        lookup_members(sparse_members(fields), fields[j].0) == fields[j].1,
    decreases j,
{
    let key = fields[j].0;
    lemma_lookup_append(opt_member(fields[0].0, fields[0].1), sparse_members(fields.skip(1)));
    lemma_lookup_opt(fields[0].0, fields[0].1);
    if j == 0 {
        match fields[0].1 {
            Option::Some(_) => {
            },
            Option::None => {
                assert(forall|i: int|
                    0 <= i < fields.skip(1).len() ==> (#[trigger] fields.skip(1)[i]).0 != key);
                lemma_sparse_absent(fields.skip(1), key);
            },
        }
    } else {
        assert(fields[0].0 != key);
        assert(forall|i: int|
            0 <= i < fields.skip(1).len() && i != j - 1 ==> (#[trigger] fields.skip(1)[i]).0
                != fields.skip(1)[j - 1].0);
        lemma_sparse_lookup(fields.skip(1), j - 1);
        assert(fields.skip(1)[j - 1] == fields[j]);
    }
}

// ---------------------------------------------------------------------------
// Serialization, as a mathematical function
// ---------------------------------------------------------------------------

/// Hexadecimal digit for a value below 16.
pub open spec fn hex_digit(n: int) -> char {
    if n == 0 { '0' }
    else if n == 1 { '1' }
    else if n == 2 { '2' }
    else if n == 3 { '3' }
    else if n == 4 { '4' }
    else if n == 5 { '5' }
    else if n == 6 { '6' }
    else if n == 7 { '7' }
    else if n == 8 { '8' }
    else if n == 9 { '9' }
    else if n == 10 { 'a' }
    else if n == 11 { 'b' }
    else if n == 12 { 'c' }
    else if n == 13 { 'd' }
    else if n == 14 { 'e' }
    else { 'f' }
}

/// How one character appears inside a JSON string literal.
pub open spec fn escape_char(c: char) -> Seq<char> {
    if c == '"' {
        seq!['\\', '"']
    } else if c == '\\' {
        seq!['\\', '\\']
    } else if c == '\n' {
        seq!['\\', 'n']
    } else if c == '\r' {
        seq!['\\', 'r']
    } else if c == '\t' {
        seq!['\\', 't']
    } else if (c as u32) < 0x20 {
        seq!['\\', 'u', '0', '0', hex_digit((c as u32) as int / 16), hex_digit(
            (c as u32) as int % 16,
        )]
    } else {
        seq![c]
    }
}

/// The body of a JSON string literal for the text `s`.
pub open spec fn escape_string(s: Seq<char>) -> Seq<char>
    decreases s.len(),
{
    if s.len() == 0 {
        Seq::empty()
    } else {
        escape_char(s[0]) + escape_string(s.skip(1))
    }
}

/// A complete JSON string literal for the text `s`.
pub open spec fn string_lexeme(s: Seq<char>) -> Seq<char> {
    seq!['"'] + escape_string(s) + seq!['"']
}

/// The serialization of a JSON value: no insignificant whitespace,
/// object members in their stored order.
pub open spec fn ser_json(v: JsonVal) -> Seq<char>
    decreases v,
{
    match v {
        JsonVal::Null => seq!['n', 'u', 'l', 'l'],
        JsonVal::Bool(b) => if b {
            seq!['t', 'r', 'u', 'e']
        } else {
            seq!['f', 'a', 'l', 's', 'e']
        },
        JsonVal::Num(lex) => lex,
        JsonVal::Str(s) => string_lexeme(s),
        JsonVal::Arr(items) => seq!['['] + ser_elems(items) + seq![']'],
        JsonVal::Obj(members) => seq!['{'] + ser_members(members) + seq!['}'],
    }
}

/// Comma-separated serialization of array elements.
pub open spec fn ser_elems(items: Seq<JsonVal>) -> Seq<char>
    decreases items,
{
    if items.len() == 0 {
        Seq::empty()
    } else if items.len() == 1 {
        ser_json(items[0])
    } else {
        ser_json(items[0]) + seq![','] + ser_elems(items.skip(1))
    }
}

/// Comma-separated serialization of object members.
pub open spec fn ser_members(members: Seq<(Seq<char>, JsonVal)>) -> Seq<char>
    decreases members,
{
    if members.len() == 0 {
        Seq::empty()
    } else if members.len() == 1 {
        ser_member(members[0])
    } else {
        ser_member(members[0]) + seq![','] + ser_members(members.skip(1))
    }
}

/// One `"key":value` member.
pub open spec fn ser_member(member: (Seq<char>, JsonVal)) -> Seq<char>
    decreases member,
{
    string_lexeme(member.0) + seq![':'] + ser_json(member.1)
}

} // verus!
