//! The JSON reader: turns wire text back into a [`Json`] document.
//!
//! The grammar is written down once, as the spec functions
//! [`spec_parse_json`] and its helpers; the executable reader is
//! proved to compute exactly what they say.

use vstd::prelude::*;
use vstd::string::StrSliceExecFns;
use vstd::string::StringExecFns;
use crate::json::is_digit;
use crate::json::is_number_lexeme;
use crate::json::number_after_int;
use crate::json::number_exp;
use crate::json::Json;
use crate::json::JsonNumber;
use crate::json::JsonVal;
use crate::json::digits_prefix_len;
use crate::json::escape_char;
use crate::json::escape_string;
use crate::json::ser_elems;
use crate::json::ser_json;
use crate::json::ser_member;
use crate::json::ser_members;
use crate::json::string_lexeme;
use crate::ser::push_char;

verus! {

// ---------------------------------------------------------------------------
// The grammar, as spec functions
// ---------------------------------------------------------------------------

/// Insignificant whitespace.
pub open spec fn is_ws(c: char) -> bool {
    c == ' ' || c == '\t' || c == '\n' || c == '\r'
}

/// `s` without its whitespace prefix.
pub open spec fn skip_ws(s: Seq<char>) -> Seq<char>
    decreases s.len(),
{
    if s.len() > 0 && is_ws(s[0]) {
        skip_ws(s.skip(1))
    } else {
        s
    }
}

/// Value of a hexadecimal digit, or a negative number for any other
/// character.
pub open spec fn hex_val(c: char) -> int {
    if '0' <= c && c <= '9' {
        (c as u32) - ('0' as u32)
    } else if 'a' <= c && c <= 'f' {
        (c as u32) - ('a' as u32) + 10
    } else if 'A' <= c && c <= 'F' {
        (c as u32) - ('A' as u32) + 10
    } else {
        -1
    }
}

pub open spec fn is_hex(c: char) -> bool {
    hex_val(c) >= 0
}

/// Value of four hexadecimal digits.
pub open spec fn hex4_val(s: Seq<char>) -> int {
    hex_val(s[0]) * 0x1000 + hex_val(s[1]) * 0x100 + hex_val(s[2]) * 0x10 + hex_val(s[3])
}

/// The characters that may occur in a number token.
pub open spec fn is_num_char(c: char) -> bool {
    is_digit(c) || c == '-' || c == '+' || c == '.' || c == 'e' || c == 'E'
}

/// Length of the longest number-character prefix of `s`.
pub open spec fn num_token_len(s: Seq<char>) -> int
    decreases s.len(),
{
    if s.len() > 0 && is_num_char(s[0]) {
        1 + num_token_len(s.skip(1))
    } else {
        0
    }
}

/// Reads the body of a string literal, after its opening quote:
/// the text up to the closing quote, and what follows it.
pub open spec fn spec_parse_string_body(s: Seq<char>) -> Option<(Seq<char>, Seq<char>)>
    decreases s.len(), 0int,
{
    if s.len() == 0 {
        Option::None
    } else if s[0] == '"' {
        Option::Some((Seq::empty(), s.skip(1)))
    } else if s[0] == '\\' {
        if s.len() < 2 {
            Option::None
        } else {
            let e = s[1];
            if e == '"' || e == '\\' || e == '/' {
                spec_string_cont(e, s.skip(2))
            } else if e == 'n' {
                spec_string_cont('\n', s.skip(2))
            } else if e == 'r' {
                spec_string_cont('\r', s.skip(2))
            } else if e == 't' {
                spec_string_cont('\t', s.skip(2))
            } else if e == 'b' {
                spec_string_cont('\u{0008}', s.skip(2))
            } else if e == 'f' {
                spec_string_cont('\u{000C}', s.skip(2))
            } else if e == 'u' {
                if s.len() < 6 || !(is_hex(s[2]) && is_hex(s[3]) && is_hex(s[4]) && is_hex(
                    s[5],
                )) {
                    Option::None
                } else {
                    let code = hex4_val(s.skip(2));
                    if 0xD800 <= code <= 0xDBFF {
                        // a high surrogate must pair with a low one
                        if s.len() < 12 || s[6] != '\\' || s[7] != 'u' || !(is_hex(s[8])
                            && is_hex(s[9]) && is_hex(s[10]) && is_hex(s[11])) {
                            Option::None
                        } else {
                            let lo = hex4_val(s.skip(8));
                            if 0xDC00 <= lo <= 0xDFFF {
                                let combined = 0x10000 + (code - 0xD800) * 0x400 + (lo
                                    - 0xDC00);
                                spec_string_cont(((combined as u32) as char), s.skip(12))
                            } else {
                                Option::None
                            }
                        }
                    } else if 0xDC00 <= code <= 0xDFFF {
                        Option::None
                    } else {
                        spec_string_cont(((code as u32) as char), s.skip(6))
                    }
                }
            } else {
                Option::None
            }
        }
    } else if (s[0] as u32) < 0x20 {
        Option::None
    } else {
        spec_string_cont(s[0], s.skip(1))
    }
}

/// One decoded character, followed by the rest of the string body.
pub open spec fn spec_string_cont(c: char, rest: Seq<char>) -> Option<(Seq<char>, Seq<char>)>
    decreases rest.len(), 1int,
{
    match spec_parse_string_body(rest) {
        Option::Some((cs, r)) => Option::Some((seq![c] + cs, r)),
        Option::None => Option::None,
    }
}

/// Reads a number token: the longest run of number characters, which
/// must form a grammatical lexeme.
pub open spec fn spec_parse_number(s: Seq<char>) -> Option<(JsonVal, Seq<char>)> {
    let n = num_token_len(s);
    if n > 0 && is_number_lexeme(s.take(n)) {
        Option::Some((JsonVal::Num(s.take(n)), s.skip(n)))
    } else {
        Option::None
    }
}

/// Reads one JSON value; no leading whitespace is expected.
pub open spec fn spec_parse_value(s: Seq<char>) -> Option<(JsonVal, Seq<char>)>
    decreases s.len(), 0int,
{
    if s.len() == 0 {
        Option::None
    } else if s[0] == 'n' {
        if s.len() >= 4 && s[1] == 'u' && s[2] == 'l' && s[3] == 'l' {
            Option::Some((JsonVal::Null, s.skip(4)))
        } else {
            Option::None
        }
    } else if s[0] == 't' {
        if s.len() >= 4 && s[1] == 'r' && s[2] == 'u' && s[3] == 'e' {
            Option::Some((JsonVal::Bool(true), s.skip(4)))
        } else {
            Option::None
        }
    } else if s[0] == 'f' {
        if s.len() >= 5 && s[1] == 'a' && s[2] == 'l' && s[3] == 's' && s[4] == 'e' {
            Option::Some((JsonVal::Bool(false), s.skip(5)))
        } else {
            Option::None
        }
    } else if s[0] == '"' {
        match spec_parse_string_body(s.skip(1)) {
            Option::Some((cs, r)) => Option::Some((JsonVal::Str(cs), r)),
            Option::None => Option::None,
        }
    } else if s[0] == '[' {
        match spec_parse_arr(s.skip(1)) {
            Option::Some((items, r)) => Option::Some((JsonVal::Arr(items), r)),
            Option::None => Option::None,
        }
    } else if s[0] == '{' {
        match spec_parse_obj(s.skip(1)) {
            Option::Some((members, r)) => Option::Some((JsonVal::Obj(members), r)),
            Option::None => Option::None,
        }
    } else if s[0] == '-' || is_digit(s[0]) {
        spec_parse_number(s)
    } else {
        Option::None
    }
}

/// Reads what follows an opening bracket: a closing bracket or the
/// elements.
pub open spec fn spec_parse_arr(s: Seq<char>) -> Option<(Seq<JsonVal>, Seq<char>)>
    decreases s.len(), 3int,
{
    let t = skip_ws(s);
    if t.len() > s.len() {
        Option::None
    } else if t.len() > 0 && t[0] == ']' {
        Option::Some((Seq::empty(), t.skip(1)))
    } else {
        spec_parse_elems(t)
    }
}

/// Reads one or more comma-separated elements and the closing
/// bracket.
pub open spec fn spec_parse_elems(s: Seq<char>) -> Option<(Seq<JsonVal>, Seq<char>)>
    decreases s.len(), 2int,
{
    match spec_parse_value(s) {
        Option::Some((v, r)) => {
            let r1 = skip_ws(r);
            if r1.len() >= s.len() {
                Option::None
            } else if r1.len() > 0 && r1[0] == ',' {
                let nxt = skip_ws(r1.skip(1));
                if nxt.len() >= s.len() {
                    Option::None
                } else {
                    match spec_parse_elems(nxt) {
                        Option::Some((vs, r2)) => Option::Some((seq![v] + vs, r2)),
                        Option::None => Option::None,
                    }
                }
            } else if r1.len() > 0 && r1[0] == ']' {
                Option::Some((seq![v], r1.skip(1)))
            } else {
                Option::None
            }
        },
        Option::None => Option::None,
    }
}

/// Reads what follows an opening brace: a closing brace or the
/// members.
pub open spec fn spec_parse_obj(s: Seq<char>) -> Option<(Seq<(Seq<char>, JsonVal)>, Seq<char>)>
    decreases s.len(), 3int,
{
    let t = skip_ws(s);
    if t.len() > s.len() {
        Option::None
    } else if t.len() > 0 && t[0] == '}' {
        Option::Some((Seq::empty(), t.skip(1)))
    } else {
        spec_parse_members(t)
    }
}

/// Reads one or more comma-separated `"key":value` members and the
/// closing brace.
pub open spec fn spec_parse_members(s: Seq<char>) -> Option<
    (Seq<(Seq<char>, JsonVal)>, Seq<char>),
>
    decreases s.len(), 2int,
{
    if s.len() == 0 || s[0] != '"' {
        Option::None
    } else {
        match spec_parse_string_body(s.skip(1)) {
            Option::Some((key, r)) => {
                let r1 = skip_ws(r);
                if r1.len() == 0 || r1[0] != ':' {
                    Option::None
                } else {
                    let r2 = skip_ws(r1.skip(1));
                    if r2.len() > s.len() {
                        Option::None
                    } else {
                        match spec_parse_value(r2) {
                            Option::Some((v, r3)) => {
                                let r4 = skip_ws(r3);
                                if r4.len() >= s.len() {
                                    Option::None
                                } else if r4.len() > 0 && r4[0] == ',' {
                                    let nxt = skip_ws(r4.skip(1));
                                    if nxt.len() >= s.len() {
                                        Option::None
                                    } else {
                                        match spec_parse_members(nxt) {
                                            Option::Some((ms, r5)) => Option::Some(
                                                (seq![(key, v)] + ms, r5),
                                            ),
                                            Option::None => Option::None,
                                        }
                                    }
                                } else if r4.len() > 0 && r4[0] == '}' {
                                    Option::Some((seq![(key, v)], r4.skip(1)))
                                } else {
                                    Option::None
                                }
                            },
                            Option::None => Option::None,
                        }
                    }
                }
            },
            Option::None => Option::None,
        }
    }
}

/// Reads a complete document: one value, with whitespace allowed
/// around it and nothing else after it.
pub open spec fn spec_parse_json(s: Seq<char>) -> Option<JsonVal> {
    match spec_parse_value(skip_ws(s)) {
        Option::Some((v, r)) => if skip_ws(r).len() == 0 {
            Option::Some(v)
        } else {
            Option::None
        },
        Option::None => Option::None,
    }
}


// ---------------------------------------------------------------------------
// The executable reader
// ---------------------------------------------------------------------------

/// Relies on char::from_u32: `Some` holds the character with the
/// given scalar value, and comes exactly for Unicode scalar values.
#[verifier::external_body]
fn char_of_u32(v: u32) -> (r: Option<char>)
    ensures
        (r matches Option::Some(c) ==> c as u32 == v),
        (v < 0xD800 || (0xE000 <= v && v <= 0x10FFFF)) <==> r is Some,
{
    char::from_u32(v)
}

/// Advances over whitespace.
fn skip_ws_at(s: &str, n: usize, pos: usize) -> (p: usize)
    requires
        pos <= n,
        n == s@.len(),
    ensures
        pos <= p <= n,
        s@.skip(p as int) == skip_ws(s@.skip(pos as int)),
{
    let mut p = pos;
    loop
        invariant
            pos <= p <= n,
            n == s@.len(),
            skip_ws(s@.skip(pos as int)) == skip_ws(s@.skip(p as int)),
        ensures
            pos <= p <= n,
            skip_ws(s@.skip(pos as int)) == skip_ws(s@.skip(p as int)),
            p == n || !is_ws(s@[p as int]),
        decreases n - p,
    {
        if p >= n {
            break;
        }
        let c = s.get_char(p);
        proof {
            assert(s@.skip(p as int)[0] == s@[p as int]);
        }
        if !(c == ' ' || c == '\t' || c == '\n' || c == '\r') {
            break;
        }
        proof {
            assert(s@.skip(p as int).skip(1) =~= s@.skip(p + 1));
        }
        p = p + 1;
    }
    proof {
        if p < n {
            assert(s@.skip(p as int)[0] == s@[p as int]);
        }
        assert(skip_ws(s@.skip(p as int)) == s@.skip(p as int));
    }
    p
}

/// Value of one hexadecimal digit character.
fn hex_digit_value(c: char) -> (r: Option<u32>)
    ensures
        hex_val(c) >= 0 ==> r == Option::Some(hex_val(c) as u32),
        hex_val(c) < 0 ==> r is None,
{
    if '0' <= c && c <= '9' {
        Some((c as u32) - ('0' as u32))
    } else if 'a' <= c && c <= 'f' {
        Some((c as u32) - ('a' as u32) + 10)
    } else if 'A' <= c && c <= 'F' {
        Some((c as u32) - ('A' as u32) + 10)
    } else {
        None
    }
}

/// Reads the body of a string literal, after its opening quote.
fn parse_string_body_at(s: &str, n: usize, pos: usize) -> (r: Option<(String, usize)>)
    requires
        pos <= n,
        n == s@.len(),
    ensures
        match r {
            Option::Some(p) => pos <= p.1 <= n && spec_parse_string_body(s@.skip(pos as int))
                == Option::Some((p.0@, s@.skip(p.1 as int))),
            Option::None => spec_parse_string_body(s@.skip(pos as int)) is None,
        },
    decreases n - pos, 2int,
{
    let ghost t = s@.skip(pos as int);
    if pos == n {
        return None;
    }
    let c = s.get_char(pos);
    proof {
        assert(t[0] == s@[pos as int]);
    }
    if c == '"' {
        proof {
            assert(t.skip(1) =~= s@.skip(pos + 1));
        }
        Some((String::new(), pos + 1))
    } else if c == '\\' {
        parse_escape_at(s, n, pos)
    } else if (c as u32) < 0x20 {
        None
    } else {
        proof {
            assert(t.skip(1) =~= s@.skip(pos + 1));
        }
        string_cont_at(s, n, pos + 1, c)
    }
}

/// Reads one escape sequence and the rest of the string body.
#[verifier::rlimit(100)]
fn parse_escape_at(s: &str, n: usize, pos: usize) -> (r: Option<(String, usize)>)
    requires
        pos < n,
        n == s@.len(),
        s@[pos as int] == '\\',
    ensures
        match r {
            Option::Some(p) => pos <= p.1 <= n && spec_parse_string_body(s@.skip(pos as int))
                == Option::Some((p.0@, s@.skip(p.1 as int))),
            Option::None => spec_parse_string_body(s@.skip(pos as int)) is None,
        },
    decreases n - pos, 1int,
{
    let ghost t = s@.skip(pos as int);
    proof {
        assert(t[0] == s@[pos as int]);
    }
    if pos + 1 == n {
        return None;
    }
    let e = s.get_char(pos + 1);
    proof {
        assert(t[1] == s@[pos + 1]);
        assert(t.skip(2) =~= s@.skip(pos + 2));
    }
    if e == '"' || e == '\\' || e == '/' {
        string_cont_at(s, n, pos + 2, e)
    } else if e == 'n' {
        string_cont_at(s, n, pos + 2, '\n')
    } else if e == 'r' {
        string_cont_at(s, n, pos + 2, '\r')
    } else if e == 't' {
        string_cont_at(s, n, pos + 2, '\t')
    } else if e == 'b' {
        string_cont_at(s, n, pos + 2, '\u{0008}')
    } else if e == 'f' {
        string_cont_at(s, n, pos + 2, '\u{000C}')
    } else if e == 'u' {
        if n - pos < 6 {
            return None;
        }
        let h0 = hex_digit_value(s.get_char(pos + 2));
        let h1 = hex_digit_value(s.get_char(pos + 3));
        let h2 = hex_digit_value(s.get_char(pos + 4));
        let h3 = hex_digit_value(s.get_char(pos + 5));
        proof {
            assert(t[2] == s@[pos + 2]);
            assert(t[3] == s@[pos + 3]);
            assert(t[4] == s@[pos + 4]);
            assert(t[5] == s@[pos + 5]);
        }
        let (a0, a1, a2, a3) = match (h0, h1, h2, h3) {
            (Some(a0), Some(a1), Some(a2), Some(a3)) => (a0, a1, a2, a3),
            _ => {
                return None;
            },
        };
        let code: u32 = a0 * 0x1000 + a1 * 0x100 + a2 * 0x10 + a3;
        proof {
            assert(t.skip(2)[0] == t[2]);
            assert(t.skip(2)[1] == t[3]);
            assert(t.skip(2)[2] == t[4]);
            assert(t.skip(2)[3] == t[5]);
            assert(code as int == hex4_val(t.skip(2)));
        }
        if 0xD800 <= code && code <= 0xDBFF {
            parse_surrogate_pair_at(s, n, pos, code)
        } else if 0xDC00 <= code && code <= 0xDFFF {
            None
        } else {
            match char_of_u32(code) {
                Some(ch) => {
                    proof {
                        vstd::utf8::char_u32_cast(ch, code);
                        assert(t.skip(6) =~= s@.skip(pos + 6));
                    }
                    string_cont_at(s, n, pos + 6, ch)
                },
                None => {
                    proof {
                        assert(false);
                    }
                    None
                },
            }
        }
    } else {
        None
    }
}

/// Reads the low half of a surrogate pair and the rest of the string
/// body.
#[verifier::rlimit(100)]
fn parse_surrogate_pair_at(s: &str, n: usize, pos: usize, code: u32) -> (r: Option<
    (String, usize),
>)
    requires
        pos < n,
        n == s@.len(),
        n - pos >= 6,
        s@[pos as int] == '\\',
        s@[pos + 1] == 'u',
        is_hex(s@[pos + 2]) && is_hex(s@[pos + 3]) && is_hex(s@[pos + 4]) && is_hex(
            s@[pos + 5],
        ),
        code as int == hex4_val(s@.skip(pos as int).skip(2)),
        0xD800 <= code <= 0xDBFF,
    ensures
        match r {
            Option::Some(p) => pos <= p.1 <= n && spec_parse_string_body(s@.skip(pos as int))
                == Option::Some((p.0@, s@.skip(p.1 as int))),
            Option::None => spec_parse_string_body(s@.skip(pos as int)) is None,
        },
    decreases n - pos, 0int,
{
    let ghost t = s@.skip(pos as int);
    proof {
        assert(t[0] == s@[pos as int]);
        assert(t[1] == s@[pos + 1]);
        assert(t[2] == s@[pos + 2]);
        assert(t[3] == s@[pos + 3]);
        assert(t[4] == s@[pos + 4]);
        assert(t[5] == s@[pos + 5]);
        assert(t.skip(2)[0] == t[2]);
        assert(t.skip(2)[1] == t[3]);
        assert(t.skip(2)[2] == t[4]);
        assert(t.skip(2)[3] == t[5]);
    }
    if n - pos < 12 {
        return None;
    }
    if s.get_char(pos + 6) != '\\' || s.get_char(pos + 7) != 'u' {
        proof {
            assert(t[6] == s@[pos + 6]);
            assert(t[7] == s@[pos + 7]);
        }
        return None;
    }
    let g0 = hex_digit_value(s.get_char(pos + 8));
    let g1 = hex_digit_value(s.get_char(pos + 9));
    let g2 = hex_digit_value(s.get_char(pos + 10));
    let g3 = hex_digit_value(s.get_char(pos + 11));
    proof {
        assert(t[6] == s@[pos + 6]);
        assert(t[7] == s@[pos + 7]);
        assert(t[8] == s@[pos + 8]);
        assert(t[9] == s@[pos + 9]);
        assert(t[10] == s@[pos + 10]);
        assert(t[11] == s@[pos + 11]);
    }
    let (b0, b1, b2, b3) = match (g0, g1, g2, g3) {
        (Some(b0), Some(b1), Some(b2), Some(b3)) => (b0, b1, b2, b3),
        _ => {
            return None;
        },
    };
    let lo: u32 = b0 * 0x1000 + b1 * 0x100 + b2 * 0x10 + b3;
    proof {
        assert(t.skip(8)[0] == t[8]);
        assert(t.skip(8)[1] == t[9]);
        assert(t.skip(8)[2] == t[10]);
        assert(t.skip(8)[3] == t[11]);
        assert(lo as int == hex4_val(t.skip(8)));
    }
    if 0xDC00 <= lo && lo <= 0xDFFF {
        let combined: u32 = 0x10000 + (code - 0xD800) * 0x400 + (lo - 0xDC00);
        match char_of_u32(combined) {
            Some(ch) => {
                proof {
                    vstd::utf8::char_u32_cast(ch, combined);
                    assert(t.skip(12) =~= s@.skip(pos + 12));
                }
                string_cont_at(s, n, pos + 12, ch)
            },
            None => {
                proof {
                    assert(false);
                }
                None
            },
        }
    } else {
        None
    }
}

/// Reads the rest of a string body and puts one decoded character in
/// front of it.
fn string_cont_at(s: &str, n: usize, pos: usize, c: char) -> (r: Option<(String, usize)>)
    requires
        pos <= n,
        n == s@.len(),
    ensures
        match r {
            Option::Some(p) => pos <= p.1 <= n && spec_string_cont(c, s@.skip(pos as int))
                == Option::Some((p.0@, s@.skip(p.1 as int))),
            Option::None => spec_string_cont(c, s@.skip(pos as int)) is None,
        },
    decreases n - pos, 3int,
{
    match parse_string_body_at(s, n, pos) {
        Some((rest, p2)) => {
            let mut out = String::new();
            push_char(&mut out, c);
            out.append(rest.as_str());
            proof {
                assert(out@ =~= seq![c] + rest@);
            }
            Some((out, p2))
        },
        None => None,
    }
}

/// A run of digits is its own longest digit prefix.
proof fn lemma_digit_run(t: Seq<char>, d: int)
    requires
        0 <= d <= t.len(),
        forall|k: int| 0 <= k < d ==> is_digit(#[trigger] t[k]),
        d == t.len() || !is_digit(t[d]),
    ensures
        digits_prefix_len(t) == d,
    decreases d,
{
    if d == 0 {
    } else {
        assert(t.skip(1).len() == t.len() - 1);
        assert(forall|k: int| 0 <= k < d - 1 ==> t.skip(1)[k] == #[trigger] t[k + 1]);
        lemma_digit_run(t.skip(1), d - 1);
    }
}

/// A run of number characters is its own longest such prefix.
proof fn lemma_num_run(t: Seq<char>, d: int)
    requires
        0 <= d <= t.len(),
        forall|k: int| 0 <= k < d ==> is_num_char(#[trigger] t[k]),
        d == t.len() || !is_num_char(t[d]),
    ensures
        num_token_len(t) == d,
    decreases d,
{
    if d == 0 {
    } else {
        assert(forall|k: int| 0 <= k < d - 1 ==> t.skip(1)[k] == #[trigger] t[k + 1]);
        lemma_num_run(t.skip(1), d - 1);
    }
}

/// Position right after the run of digits that starts at `pos` and
/// ends at or before `end`.
fn digit_run_end(s: &str, end: usize, pos: usize) -> (e: usize)
    requires
        pos <= end <= s@.len(),
    ensures
        pos <= e <= end,
        forall|k: int| pos <= k < e ==> is_digit(#[trigger] s@[k]),
        e == end || !is_digit(s@[e as int]),
    decreases end - pos,
{
    let mut e = pos;
    loop
        invariant
            pos <= e <= end,
            end <= s@.len(),
            forall|k: int| pos <= k < e ==> is_digit(#[trigger] s@[k]),
        ensures
            pos <= e <= end,
            forall|k: int| pos <= k < e ==> is_digit(#[trigger] s@[k]),
            e == end || !is_digit(s@[e as int]),
        decreases end - e,
    {
        if e >= end {
            break;
        }
        let c = s.get_char(e);
        if !('0' <= c && c <= '9') {
            break;
        }
        e = e + 1;
    }
    e
}

/// Checks the exponent part of a number lexeme, possibly empty.
fn check_exponent(s: &str, end: usize, k: usize) -> (ok: bool)
    requires
        k <= end <= s@.len(),
    ensures
        ok == number_exp(s@.subrange(k as int, end as int)),
{
    let ghost u3 = s@.subrange(k as int, end as int);
    if k == end {
        return true;
    }
    let ec = s.get_char(k);
    proof {
        assert(u3[0] == s@[k as int]);
    }
    if ec != 'e' && ec != 'E' {
        return false;
    }
    let mut k2 = k + 1;
    if k2 < end {
        let sc = s.get_char(k2);
        if sc == '+' || sc == '-' {
            k2 = k2 + 1;
        }
    }
    let ghost t3 = if u3.len() > 1 && (u3[1] == '+' || u3[1] == '-') {
        u3.skip(2)
    } else {
        u3.skip(1)
    };
    proof {
        if k + 1 < end {
            assert(u3[1] == s@[k + 1]);
        }
        assert(t3 =~= s@.subrange(k2 as int, end as int));
    }
    if k2 == end {
        proof {
            assert(t3.len() == 0);
        }
        return false;
    }
    let d3_end = digit_run_end(s, end, k2);
    proof {
        assert(forall|j: int| 0 <= j < d3_end - k2 ==> t3[j] == #[trigger] s@[k2 + j]);
        if d3_end < end {
            assert(t3[(d3_end - k2) as int] == s@[d3_end as int]);
        }
        lemma_digit_run(t3, d3_end - k2);
    }
    d3_end == end
}

/// Checks what follows the integer digits of a number lexeme: an
/// optional fraction and an optional exponent.
fn check_after_int(s: &str, end: usize, j: usize) -> (ok: bool)
    requires
        j <= end <= s@.len(),
    ensures
        ok == number_after_int(s@.subrange(j as int, end as int)),
{
    let ghost u = s@.subrange(j as int, end as int);
    if j < end && s.get_char(j) == '.' {
        proof {
            assert(u[0] == s@[j as int]);
        }
        let d2_end = digit_run_end(s, end, j + 1);
        let d2 = d2_end - (j + 1);
        proof {
            assert(u.skip(1) =~= s@.subrange(j + 1, end as int));
            assert(forall|k: int| 0 <= k < d2 ==> u.skip(1)[k] == #[trigger] s@[j + 1 + k]);
            if d2_end < end {
                assert(u.skip(1)[d2 as int] == s@[d2_end as int]);
            }
            lemma_digit_run(u.skip(1), d2 as int);
        }
        if d2 == 0 {
            return false;
        }
        let ok = check_exponent(s, end, d2_end);
        proof {
            assert(u.skip(1 + d2 as int) =~= s@.subrange(d2_end as int, end as int));
        }
        ok
    } else {
        proof {
            if j < end {
                assert(u[0] == s@[j as int]);
            }
        }
        check_exponent(s, end, j)
    }
}

/// Checks a complete number lexeme between `start` and `end`.
fn check_number(s: &str, start: usize, end: usize) -> (ok: bool)
    requires
        start <= end <= s@.len(),
    ensures
        ok == is_number_lexeme(s@.subrange(start as int, end as int)),
{
    let ghost t = s@.subrange(start as int, end as int);
    if start == end {
        proof {
            assert(digits_prefix_len(t) == 0);
        }
        return false;
    }
    let mut a = start;
    if s.get_char(start) == '-' {
        a = start + 1;
    }
    let ghost t2 = if t.len() > 0 && t[0] == '-' {
        t.skip(1)
    } else {
        t
    };
    proof {
        assert(t[0] == s@[start as int]);
        assert(t2 =~= s@.subrange(a as int, end as int));
    }
    let d_end = digit_run_end(s, end, a);
    let d = d_end - a;
    proof {
        assert(forall|k: int| 0 <= k < d ==> t2[k] == #[trigger] s@[a + k]);
        if d_end < end {
            assert(t2[d as int] == s@[d_end as int]);
        }
        lemma_digit_run(t2, d as int);
    }
    if d == 0 {
        return false;
    }
    if s.get_char(a) == '0' && d > 1 {
        proof {
            assert(t2[0] == s@[a as int]);
        }
        return false;
    }
    proof {
        assert(t2[0] == s@[a as int]);
    }
    let ok = check_after_int(s, end, d_end);
    proof {
        assert(t2.skip(d as int) =~= s@.subrange(d_end as int, end as int));
    }
    ok
}

/// Position right after the run of number characters starting at
/// `pos`.
fn num_token_end(s: &str, n: usize, pos: usize) -> (e: usize)
    requires
        pos <= n,
        n == s@.len(),
    ensures
        pos <= e <= n,
        num_token_len(s@.skip(pos as int)) == e - pos,
{
    let mut e = pos;
    loop
        invariant
            pos <= e <= n,
            n == s@.len(),
            forall|k: int| pos <= k < e ==> is_num_char(#[trigger] s@[k]),
        ensures
            pos <= e <= n,
            forall|k: int| pos <= k < e ==> is_num_char(#[trigger] s@[k]),
            e == n || !is_num_char(s@[e as int]),
        decreases n - e,
    {
        if e >= n {
            break;
        }
        let c = s.get_char(e);
        if !(('0' <= c && c <= '9') || c == '-' || c == '+' || c == '.' || c == 'e' || c
            == 'E') {
            break;
        }
        e = e + 1;
    }
    proof {
        let t = s@.skip(pos as int);
        assert(forall|k: int| 0 <= k < e - pos ==> t[k] == #[trigger] s@[pos + k]);
        if e < n {
            assert(t[(e - pos) as int] == s@[e as int]);
        }
        lemma_num_run(t, e - pos);
    }
    e
}

/// Reads a number token starting at `pos`.
fn parse_number_at(s: &str, n: usize, pos: usize) -> (r: Option<(Json, usize)>)
    requires
        pos <= n,
        n == s@.len(),
    ensures
        match r {
            Option::Some(p) => pos < p.1 <= n && spec_parse_number(s@.skip(pos as int))
                == Option::Some((p.0@, s@.skip(p.1 as int))),
            Option::None => spec_parse_number(s@.skip(pos as int)) is None,
        },
{
    let ghost t = s@.skip(pos as int);
    let e = num_token_end(s, n, pos);
    if e == pos {
        return None;
    }
    proof {
        assert(t.take(e - pos) =~= s@.subrange(pos as int, e as int));
    }
    if !check_number(s, pos, e) {
        return None;
    }
    let mut lex = String::new();
    let mut i = pos;
    while i < e
        invariant
            pos <= i <= e <= n,
            n == s@.len(),
            lex@ == s@.subrange(pos as int, i as int),
        decreases e - i,
    {
        push_char(&mut lex, s.get_char(i));
        proof {
            assert(s@.subrange(pos as int, i + 1) =~= s@.subrange(pos as int, i as int).push(
                s@[i as int],
            ));
        }
        i = i + 1;
    }
    proof {
        assert(t.skip(e - pos) =~= s@.skip(e as int));
    }
    Some((Json::Num(JsonNumber::from_lexeme(lex)), e))
}


/// Reads one JSON value starting at `pos`; no leading whitespace is
/// expected.
fn parse_value_at(s: &str, n: usize, pos: usize) -> (r: Option<(Json, usize)>)
    requires
        pos <= n,
        n == s@.len(),
    ensures
        match r {
            Option::Some(p) => pos < p.1 <= n && spec_parse_value(s@.skip(pos as int))
                == Option::Some((p.0@, s@.skip(p.1 as int))),
            Option::None => spec_parse_value(s@.skip(pos as int)) is None,
        },
    decreases n - pos, 0int,
{
    let ghost t = s@.skip(pos as int);
    if pos == n {
        return None;
    }
    let c = s.get_char(pos);
    proof {
        assert(t[0] == s@[pos as int]);
    }
    if c == 'n' {
        if n - pos >= 4 && s.get_char(pos + 1) == 'u' && s.get_char(pos + 2) == 'l'
            && s.get_char(pos + 3) == 'l' {
            proof {
                assert(t[1] == s@[pos + 1]);
                assert(t[2] == s@[pos + 2]);
                assert(t[3] == s@[pos + 3]);
                assert(t.skip(4) =~= s@.skip(pos + 4));
            }
            Some((Json::Null, pos + 4))
        } else {
            proof {
                if n - pos >= 4 {
                    assert(t[1] == s@[pos + 1]);
                    assert(t[2] == s@[pos + 2]);
                    assert(t[3] == s@[pos + 3]);
                }
            }
            None
        }
    } else if c == 't' {
        if n - pos >= 4 && s.get_char(pos + 1) == 'r' && s.get_char(pos + 2) == 'u'
            && s.get_char(pos + 3) == 'e' {
            proof {
                assert(t[1] == s@[pos + 1]);
                assert(t[2] == s@[pos + 2]);
                assert(t[3] == s@[pos + 3]);
                assert(t.skip(4) =~= s@.skip(pos + 4));
            }
            Some((Json::Bool(true), pos + 4))
        } else {
            proof {
                if n - pos >= 4 {
                    assert(t[1] == s@[pos + 1]);
                    assert(t[2] == s@[pos + 2]);
                    assert(t[3] == s@[pos + 3]);
                }
            }
            None
        }
    } else if c == 'f' {
        if n - pos >= 5 && s.get_char(pos + 1) == 'a' && s.get_char(pos + 2) == 'l'
            && s.get_char(pos + 3) == 's' && s.get_char(pos + 4) == 'e' {
            proof {
                assert(t[1] == s@[pos + 1]);
                assert(t[2] == s@[pos + 2]);
                assert(t[3] == s@[pos + 3]);
                assert(t[4] == s@[pos + 4]);
                assert(t.skip(5) =~= s@.skip(pos + 5));
            }
            Some((Json::Bool(false), pos + 5))
        } else {
            proof {
                if n - pos >= 5 {
                    assert(t[1] == s@[pos + 1]);
                    assert(t[2] == s@[pos + 2]);
                    assert(t[3] == s@[pos + 3]);
                    assert(t[4] == s@[pos + 4]);
                }
            }
            None
        }
    } else if c == '"' {
        proof {
            assert(t.skip(1) =~= s@.skip(pos + 1));
        }
        match parse_string_body_at(s, n, pos + 1) {
            Some((body, p2)) => Some((Json::Str(body), p2)),
            None => None,
        }
    } else if c == '[' {
        proof {
            assert(t.skip(1) =~= s@.skip(pos + 1));
        }
        match parse_arr_at(s, n, pos + 1) {
            Some((items, p2)) => Some((Json::Arr(items), p2)),
            None => None,
        }
    } else if c == '{' {
        proof {
            assert(t.skip(1) =~= s@.skip(pos + 1));
        }
        match parse_obj_at(s, n, pos + 1) {
            Some((members, p2)) => Some((Json::Obj(members), p2)),
            None => None,
        }
    } else if c == '-' || ('0' <= c && c <= '9') {
        parse_number_at(s, n, pos)
    } else {
        None
    }
}

/// Reads what follows an opening bracket.
fn parse_arr_at(s: &str, n: usize, pos: usize) -> (r: Option<(Vec<Json>, usize)>)
    requires
        pos <= n,
        n == s@.len(),
    ensures
        match r {
            Option::Some(p) => pos <= p.1 <= n && spec_parse_arr(s@.skip(pos as int))
                == Option::Some((crate::json::json_view_seq(p.0@), s@.skip(p.1 as int))),
            Option::None => spec_parse_arr(s@.skip(pos as int)) is None,
        },
    decreases n - pos, 3int,
{
    let p = skip_ws_at(s, n, pos);
    let ghost t = skip_ws(s@.skip(pos as int));
    proof {
        assert(t == s@.skip(p as int));
        assert(t.len() == n - p);
        assert(!(t.len() > s@.skip(pos as int).len()));
    }
    if p < n && s.get_char(p) == ']' {
        proof {
            assert(t[0] == s@[p as int]);
            assert(t.skip(1) =~= s@.skip(p + 1));
            assert(crate::json::json_view_seq(Seq::<Json>::empty()) =~= Seq::<
                JsonVal,
            >::empty());
        }
        Some((Vec::new(), p + 1))
    } else {
        proof {
            if p < n {
                assert(t[0] == s@[p as int]);
            }
        }
        parse_elems_at(s, n, p)
    }
}

/// Reads one or more comma-separated elements and the closing
/// bracket.
fn parse_elems_at(s: &str, n: usize, pos: usize) -> (r: Option<(Vec<Json>, usize)>)
    requires
        pos <= n,
        n == s@.len(),
    ensures
        match r {
            Option::Some(p) => pos < p.1 <= n && spec_parse_elems(s@.skip(pos as int))
                == Option::Some((crate::json::json_view_seq(p.0@), s@.skip(p.1 as int))),
            Option::None => spec_parse_elems(s@.skip(pos as int)) is None,
        },
    decreases n - pos, 2int,
{
    let ghost t = s@.skip(pos as int);
    let (v, pv) = match parse_value_at(s, n, pos) {
        Some(p) => p,
        None => {
            return None;
        },
    };
    let p1 = skip_ws_at(s, n, pv);
    let ghost r1 = skip_ws(s@.skip(pv as int));
    proof {
        assert(r1 == s@.skip(p1 as int));
        assert(r1.len() == n - p1);
        assert(!(r1.len() >= t.len()));
    }
    if p1 < n && s.get_char(p1) == ',' {
        proof {
            assert(r1[0] == s@[p1 as int]);
            assert(r1.skip(1) =~= s@.skip(p1 + 1));
        }
        let p2 = skip_ws_at(s, n, p1 + 1);
        let ghost nxt = skip_ws(s@.skip(p1 + 1));
        proof {
            assert(nxt == s@.skip(p2 as int));
            assert(!(nxt.len() >= t.len()));
        }
        match parse_elems_at(s, n, p2) {
            Some((mut items, pe)) => {
                proof {
                    crate::json::lemma_json_view_seq(items@);
                }
                let ghost old_items = items@;
                items.insert(0, v);
                proof {
                    assert(items@ =~= seq![v] + old_items);
                    assert(items@[0] == v);
                    assert(items@.skip(1) =~= old_items);
                    assert(crate::json::json_view_seq(items@) =~= seq![v@]
                        + crate::json::json_view_seq(old_items));
                }
                Some((items, pe))
            },
            None => None,
        }
    } else if p1 < n && s.get_char(p1) == ']' {
        proof {
            assert(r1[0] == s@[p1 as int]);
            assert(r1.skip(1) =~= s@.skip(p1 + 1));
        }
        let mut items: Vec<Json> = Vec::new();
        items.push(v);
        proof {
            assert(items@[0] == v);
            assert(items@.skip(1) =~= Seq::<Json>::empty());
            assert(crate::json::json_view_seq(Seq::<Json>::empty()) =~= Seq::<
                JsonVal,
            >::empty());
            assert(crate::json::json_view_seq(items@) =~= seq![v@]);
            assert(seq![v@] =~= seq![v@] + Seq::<JsonVal>::empty());
        }
        Some((items, p1 + 1))
    } else {
        proof {
            if p1 < n {
                assert(r1[0] == s@[p1 as int]);
            }
        }
        None
    }
}

/// Reads what follows an opening brace.
fn parse_obj_at(s: &str, n: usize, pos: usize) -> (r: Option<(Vec<(String, Json)>, usize)>)
    requires
        pos <= n,
        n == s@.len(),
    ensures
        match r {
            Option::Some(p) => pos <= p.1 <= n && spec_parse_obj(s@.skip(pos as int))
                == Option::Some((crate::json::json_view_members(p.0@), s@.skip(p.1 as int))),
            Option::None => spec_parse_obj(s@.skip(pos as int)) is None,
        },
    decreases n - pos, 3int,
{
    let p = skip_ws_at(s, n, pos);
    let ghost t = skip_ws(s@.skip(pos as int));
    proof {
        assert(t == s@.skip(p as int));
        assert(t.len() == n - p);
        assert(!(t.len() > s@.skip(pos as int).len()));
    }
    if p < n && s.get_char(p) == '}' {
        proof {
            assert(t[0] == s@[p as int]);
            assert(t.skip(1) =~= s@.skip(p + 1));
            assert(crate::json::json_view_members(Seq::<(String, Json)>::empty()) =~= Seq::<
                (Seq<char>, JsonVal),
            >::empty());
        }
        Some((Vec::new(), p + 1))
    } else {
        proof {
            if p < n {
                assert(t[0] == s@[p as int]);
            }
        }
        parse_members_at(s, n, p)
    }
}

/// Reads one or more comma-separated members and the closing brace.
#[verifier::rlimit(100)]
fn parse_members_at(s: &str, n: usize, pos: usize) -> (r: Option<(Vec<(String, Json)>, usize)>)
    requires
        pos <= n,
        n == s@.len(),
    ensures
        match r {
            Option::Some(p) => pos < p.1 <= n && spec_parse_members(s@.skip(pos as int))
                == Option::Some((crate::json::json_view_members(p.0@), s@.skip(p.1 as int))),
            Option::None => spec_parse_members(s@.skip(pos as int)) is None,
        },
    decreases n - pos, 2int,
{
    let ghost t = s@.skip(pos as int);
    if pos == n {
        return None;
    }
    if s.get_char(pos) != '"' {
        proof {
            assert(t[0] == s@[pos as int]);
        }
        return None;
    }
    proof {
        assert(t[0] == s@[pos as int]);
        assert(t.skip(1) =~= s@.skip(pos + 1));
    }
    let (key, pk) = match parse_string_body_at(s, n, pos + 1) {
        Some(p) => p,
        None => {
            return None;
        },
    };
    let p1 = skip_ws_at(s, n, pk);
    let ghost r1 = skip_ws(s@.skip(pk as int));
    proof {
        assert(r1 == s@.skip(p1 as int));
    }
    if p1 == n {
        return None;
    }
    if s.get_char(p1) != ':' {
        proof {
            assert(r1[0] == s@[p1 as int]);
        }
        return None;
    }
    proof {
        assert(r1[0] == s@[p1 as int]);
        assert(r1.skip(1) =~= s@.skip(p1 + 1));
    }
    let p2 = skip_ws_at(s, n, p1 + 1);
    let ghost r2 = skip_ws(s@.skip(p1 + 1));
    proof {
        assert(r2 == s@.skip(p2 as int));
        assert(!(r2.len() > t.len()));
    }
    let (v, pv) = match parse_value_at(s, n, p2) {
        Some(p) => p,
        None => {
            return None;
        },
    };
    let p3 = skip_ws_at(s, n, pv);
    let ghost r4 = skip_ws(s@.skip(pv as int));
    proof {
        assert(r4 == s@.skip(p3 as int));
        assert(!(r4.len() >= t.len()));
    }
    if p3 < n && s.get_char(p3) == ',' {
        proof {
            assert(r4[0] == s@[p3 as int]);
            assert(r4.skip(1) =~= s@.skip(p3 + 1));
        }
        let p4 = skip_ws_at(s, n, p3 + 1);
        let ghost nxt = skip_ws(s@.skip(p3 + 1));
        proof {
            assert(nxt == s@.skip(p4 as int));
            assert(!(nxt.len() >= t.len()));
        }
        match parse_members_at(s, n, p4) {
            Some((mut members, pe)) => {
                proof {
                    crate::json::lemma_json_view_members(members@);
                }
                let ghost old_members = members@;
                members.insert(0, (key, v));
                proof {
                    assert(members@[0].0@ == key@);
                    assert(members@[0].1 == v);
                    assert(members@.skip(1) =~= old_members);
                    assert(crate::json::json_view_members(members@) =~= seq![(key@, v@)]
                        + crate::json::json_view_members(old_members));
                }
                Some((members, pe))
            },
            None => None,
        }
    } else if p3 < n && s.get_char(p3) == '}' {
        proof {
            assert(r4[0] == s@[p3 as int]);
            assert(r4.skip(1) =~= s@.skip(p3 + 1));
        }
        let mut members: Vec<(String, Json)> = Vec::new();
        members.push((key, v));
        proof {
            assert(members@[0].0@ == key@);
            assert(members@[0].1 == v);
            assert(members@.skip(1) =~= Seq::<(String, Json)>::empty());
            assert(crate::json::json_view_members(Seq::<(String, Json)>::empty()) =~= Seq::<
                (Seq<char>, JsonVal),
            >::empty());
            assert(crate::json::json_view_members(members@) =~= seq![(key@, v@)]);
            assert(seq![(key@, v@)] =~= seq![(key@, v@)] + Seq::<(Seq<char>, JsonVal)>::empty());
        }
        Some((members, p3 + 1))
    } else {
        proof {
            if p3 < n {
                assert(r4[0] == s@[p3 as int]);
            }
        }
        None
    }
}

/// Reads a complete JSON document: exactly [`spec_parse_json`] of the
/// text.
pub fn parse_json(s: &str) -> (r: Option<Json>)
    ensures
        match r {
            Option::Some(j) => spec_parse_json(s@) == Option::Some(j@),
            Option::None => spec_parse_json(s@) is None,
        },
{
    let n = s.unicode_len();
    proof {
        assert(s@.skip(0) =~= s@);
    }
    let p = skip_ws_at(s, n, 0);
    match parse_value_at(s, n, p) {
        Some((j, p2)) => {
            let p3 = skip_ws_at(s, n, p2);
            proof {
                assert(skip_ws(s@.skip(p2 as int)) == s@.skip(p3 as int));
            }
            if p3 == n {
                proof {
                    assert(s@.skip(n as int).len() == 0);
                }
                Some(j)
            } else {
                None
            }
        },
        None => None,
    }
}


// ---------------------------------------------------------------------------
// The round trip: parsing undoes serialization
// ---------------------------------------------------------------------------

/// Skipping whitespace does nothing when none is there.
proof fn lemma_skip_ws_nop(s: Seq<char>)
    requires
        s.len() == 0 || !is_ws(s[0]),
    ensures
        skip_ws(s) == s,
{
}

/// The first character of a serialized well-formed value: never
/// whitespace and never a closing or separating character.
proof fn lemma_ser_first(v: JsonVal)
    requires
        crate::json::json_val_wf(v),
    ensures
        ser_json(v).len() >= 1,
        !is_ws(ser_json(v)[0]),
        ser_json(v)[0] != ']',
        ser_json(v)[0] != '}',
        ser_json(v)[0] != ',',
        ser_json(v)[0] != ':',
        ser_json(v)[0] != '"' || v is Str,
{
    match v {
        JsonVal::Null => {
        },
        JsonVal::Bool(b) => {
        },
        JsonVal::Num(lex) => {
            if lex.len() > 0 && lex[0] == '-' {
            } else {
                assert(digits_prefix_len(lex) > 0);
                assert(is_digit(lex[0]));
            }
        },
        JsonVal::Str(s) => {
            assert(ser_json(v)[0] == '"');
        },
        JsonVal::Arr(items) => {
            assert(ser_json(v)[0] == '[');
        },
        JsonVal::Obj(members) => {
            assert(ser_json(v)[0] == '{');
        },
    }
}

/// The digit prefix really is made of digits.
proof fn lemma_dpl_digits(s: Seq<char>)
    ensures
        forall|i: int| 0 <= i < digits_prefix_len(s) ==> is_digit(#[trigger] s[i]),
        digits_prefix_len(s) <= s.len(),
    decreases s.len(),
{
    if s.len() > 0 && is_digit(s[0]) {
        lemma_dpl_digits(s.skip(1));
        assert(forall|i: int|
            1 <= i < digits_prefix_len(s) ==> #[trigger] s[i] == s.skip(1)[i - 1]);
    }
}

/// Every character of a number lexeme is a number character.
proof fn lemma_lexeme_num_chars(lex: Seq<char>)
    requires
        is_number_lexeme(lex),
    ensures
        forall|i: int| 0 <= i < lex.len() ==> is_num_char(#[trigger] lex[i]),
        lex.len() >= 1,
{
    let t = if lex.len() > 0 && lex[0] == '-' {
        lex.skip(1)
    } else {
        lex
    };
    let sign: int = if lex.len() > 0 && lex[0] == '-' {
        1
    } else {
        0
    };
    let d = digits_prefix_len(t);
    lemma_dpl_digits(t);
    let u = t.skip(d);
    // the fraction part, if any
    let frac: int = if u.len() > 0 && u[0] == '.' {
        1 + digits_prefix_len(u.skip(1))
    } else {
        0
    };
    if u.len() > 0 && u[0] == '.' {
        lemma_dpl_digits(u.skip(1));
        assert(digits_prefix_len(u.skip(1)) > 0);
    }
    let w = u.skip(frac);
    if !(u.len() > 0 && u[0] == '.') {
        assert(u.skip(0) =~= u);
    }
    // the exponent part, if any
    assert(number_exp(w));
    if w.len() > 0 {
        assert(w[0] == 'e' || w[0] == 'E');
        let esign: int = if w.len() > 1 && (w[1] == '+' || w[1] == '-') {
            2
        } else {
            1
        };
        let z = w.skip(esign);
        assert(digits_prefix_len(z) == z.len());
        lemma_dpl_digits(z);
        assert(forall|i: int| 0 <= i < z.len() ==> is_num_char(#[trigger] z[i]));
        assert(forall|i: int| esign <= i < w.len() ==> #[trigger] w[i] == z[i - esign]);
        assert(forall|i: int| 0 <= i < w.len() ==> is_num_char(#[trigger] w[i]));
    }
    assert(forall|i: int| 0 <= i < u.len() ==> #[trigger] u[i] == if i < frac {
        if i == 0 {
            '.'
        } else {
            u.skip(1)[i - 1]
        }
    } else {
        w[i - frac]
    });
    assert(forall|i: int| 0 <= i < u.len() ==> is_num_char(#[trigger] u[i]));
    assert(forall|i: int| 0 <= i < t.len() ==> #[trigger] t[i] == if i < d {
        t[i]
    } else {
        u[i - d]
    });
    assert(forall|i: int| 0 <= i < t.len() ==> is_num_char(#[trigger] t[i]));
    assert(forall|i: int| 0 <= i < lex.len() ==> #[trigger] lex[i] == if i < sign {
        '-'
    } else {
        t[i - sign]
    });
}

/// A run of number characters followed by something else is its own
/// longest such prefix.
proof fn lemma_num_prefix(a: Seq<char>, b: Seq<char>)
    requires
        forall|i: int| 0 <= i < a.len() ==> is_num_char(#[trigger] a[i]),
        b.len() == 0 || !is_num_char(b[0]),
    ensures
        num_token_len(a + b) == a.len(),
    decreases a.len(),
{
    if a.len() == 0 {
        assert(a + b =~= b);
    } else {
        assert((a + b)[0] == a[0]);
        assert((a + b).skip(1) =~= a.skip(1) + b);
        lemma_num_prefix(a.skip(1), b);
    }
}

/// Parsing a serialized number consumes exactly its lexeme.
proof fn lemma_number_rt(lex: Seq<char>, rest: Seq<char>)
    requires
        is_number_lexeme(lex),
        rest.len() == 0 || !is_num_char(rest[0]),
    ensures
        spec_parse_number(lex + rest) == Option::Some((JsonVal::Num(lex), rest)),
{
    lemma_lexeme_num_chars(lex);
    lemma_num_prefix(lex, rest);
    assert((lex + rest).take(lex.len() as int) =~= lex);
    assert((lex + rest).skip(lex.len() as int) =~= rest);
}

/// `hex_digit` produces hexadecimal digit characters with the right
/// values.
proof fn lemma_hex_digit_val()
    ensures
        forall|n: int| 0 <= n < 16 ==> hex_val(#[trigger] crate::json::hex_digit(n)) == n,
{
}

/// Parsing an escaped string body consumes it and yields the original
/// text.
proof fn lemma_string_body_rt(t: Seq<char>, rest: Seq<char>)
    ensures
        spec_parse_string_body(escape_string(t) + (seq!['"'] + rest)) == Option::Some(
            (t, rest),
        ),
    decreases t.len(),
{
    let s = escape_string(t) + (seq!['"'] + rest);
    if t.len() == 0 {
        assert(s =~= seq!['"'] + rest);
        assert(s[0] == '"');
        assert(s.skip(1) =~= rest);
    } else {
        let c = t[0];
        let e = escape_char(c);
        let tail = escape_string(t.skip(1)) + (seq!['"'] + rest);
        assert(s =~= e + tail);
        lemma_string_body_rt(t.skip(1), rest);
        assert(seq![c] + t.skip(1) =~= t);
        if c == '"' || c == '\\' {
            assert(s[0] == '\\');
            assert(s[1] == c);
            assert(s.skip(2) =~= tail);
        } else if c == '\n' {
            assert(s[0] == '\\');
            assert(s[1] == 'n');
            assert(s.skip(2) =~= tail);
        } else if c == '\r' {
            assert(s[0] == '\\');
            assert(s[1] == 'r');
            assert(s.skip(2) =~= tail);
        } else if c == '\t' {
            assert(s[0] == '\\');
            assert(s[1] == 't');
            assert(s.skip(2) =~= tail);
        } else if (c as u32) < 0x20 {
            let hi = (c as u32) as int / 16;
            let lo = (c as u32) as int % 16;
            lemma_hex_digit_val();
            assert(s[0] == '\\');
            assert(s[1] == 'u');
            assert(s[2] == '0');
            assert(s[3] == '0');
            assert(s[4] == crate::json::hex_digit(hi));
            assert(s[5] == crate::json::hex_digit(lo));
            assert(s.skip(2)[0] == s[2]);
            assert(s.skip(2)[1] == s[3]);
            assert(s.skip(2)[2] == s[4]);
            assert(s.skip(2)[3] == s[5]);
            assert(hex_val(s[2]) == 0);
            assert(hex_val(s[3]) == 0);
            assert(hex4_val(s.skip(2)) == hi * 16 + lo);
            assert(hi * 16 + lo == c as u32) by (nonlinear_arith)
                requires
                    hi == (c as u32) as int / 16,
                    lo == (c as u32) as int % 16,
            ;
            let code = hex4_val(s.skip(2));
            assert(code < 0x20);
            assert(((code as u32) as char) == c) by {
                vstd::utf8::char_u32_cast(c, code as u32);
            }
            assert(s.skip(6) =~= tail);
        } else {
            assert(s[0] == c);
            assert(s.skip(1) =~= tail);
            assert(!((c as u32) < 0x20));
        }
    }
}


/// Parsing a serialized well-formed value consumes exactly its text,
/// whatever follows it, as long as what follows cannot extend a
/// number token.
#[verifier::rlimit(100)]
proof fn lemma_value_rt(v: JsonVal, rest: Seq<char>)
    requires
        crate::json::json_val_wf(v),
        rest.len() == 0 || !is_num_char(rest[0]),
    ensures
        spec_parse_value(ser_json(v) + rest) == Option::Some((v, rest)),
    decreases v, 0int,
{
    let s = ser_json(v) + rest;
    lemma_ser_first(v);
    assert(s[0] == ser_json(v)[0]);
    match v {
        JsonVal::Null => {
            assert(s[0] == 'n');
            assert(s[1] == 'u');
            assert(s[2] == 'l');
            assert(s[3] == 'l');
            assert(s.skip(4) =~= rest);
        },
        JsonVal::Bool(b) => {
            if b {
                assert(s[0] == 't');
                assert(s[1] == 'r');
                assert(s[2] == 'u');
                assert(s[3] == 'e');
                assert(s.skip(4) =~= rest);
            } else {
                assert(s[0] == 'f');
                assert(s[1] == 'a');
                assert(s[2] == 'l');
                assert(s[3] == 's');
                assert(s[4] == 'e');
                assert(s.skip(5) =~= rest);
            }
        },
        JsonVal::Num(lex) => {
            assert(lex[0] == '-' || is_digit(lex[0]));
            assert(s =~= lex + rest);
            lemma_number_rt(lex, rest);
        },
        JsonVal::Str(text) => {
            assert(s[0] == '"');
            assert(s.skip(1) =~= escape_string(text) + (seq!['"'] + rest));
            lemma_string_body_rt(text, rest);
        },
        JsonVal::Arr(items) => {
            assert(s[0] == '[');
            assert(s.skip(1) =~= ser_elems(items) + (seq![']'] + rest));
            lemma_arr_rt(items, rest);
        },
        JsonVal::Obj(members) => {
            assert(s[0] == '{');
            assert(s.skip(1) =~= ser_members(members) + (seq!['}'] + rest));
            lemma_obj_rt(members, rest);
        },
    }
}

/// Parsing the inside of a serialized array.
proof fn lemma_arr_rt(items: Seq<JsonVal>, rest: Seq<char>)
    requires
        forall|i: int| 0 <= i < items.len() ==> crate::json::json_val_wf(#[trigger] items[i]),
        rest.len() == 0 || !is_num_char(rest[0]),
    ensures
        spec_parse_arr(ser_elems(items) + (seq![']'] + rest)) == Option::Some((items, rest)),
    decreases items, 2int,
{
    let inner = ser_elems(items) + (seq![']'] + rest);
    if items.len() == 0 {
        assert(inner =~= seq![']'] + rest);
        assert(inner[0] == ']');
        lemma_skip_ws_nop(inner);
        assert(inner.skip(1) =~= rest);
        assert(items =~= Seq::<JsonVal>::empty());
    } else {
        lemma_ser_first(items[0]);
        assert(ser_elems(items)[0] == ser_json(items[0])[0]);
        assert(inner[0] == ser_elems(items)[0]);
        lemma_skip_ws_nop(inner);
        lemma_elems_rt(items, rest);
    }
}

/// Parsing the inside of a serialized object.
proof fn lemma_obj_rt(members: Seq<(Seq<char>, JsonVal)>, rest: Seq<char>)
    requires
        forall|i: int|
            0 <= i < members.len() ==> crate::json::json_val_wf(#[trigger] members[i].1),
        rest.len() == 0 || !is_num_char(rest[0]),
    ensures
        spec_parse_obj(ser_members(members) + (seq!['}'] + rest)) == Option::Some(
            (members, rest),
        ),
    decreases members, 2int,
{
    let inner = ser_members(members) + (seq!['}'] + rest);
    if members.len() == 0 {
        assert(inner =~= seq!['}'] + rest);
        assert(inner[0] == '}');
        lemma_skip_ws_nop(inner);
        assert(inner.skip(1) =~= rest);
        assert(members =~= Seq::<(Seq<char>, JsonVal)>::empty());
    } else {
        assert(ser_members(members)[0] == ser_member(members[0])[0]);
        assert(ser_member(members[0])[0] == '"');
        assert(inner[0] == '"');
        lemma_skip_ws_nop(inner);
        lemma_members_rt(members, rest);
    }
}

/// Parsing serialized array elements followed by the closing bracket
/// consumes them all, in order.
#[verifier::rlimit(100)]
proof fn lemma_elems_rt(items: Seq<JsonVal>, rest: Seq<char>)
    requires
        items.len() >= 1,
        forall|i: int| 0 <= i < items.len() ==> crate::json::json_val_wf(#[trigger] items[i]),
        rest.len() == 0 || !is_num_char(rest[0]),
    ensures
        spec_parse_elems(ser_elems(items) + (seq![']'] + rest)) == Option::Some((items, rest)),
    decreases items, 1int,
{
    let s = ser_elems(items) + (seq![']'] + rest);
    lemma_ser_first(items[0]);
    if items.len() == 1 {
        let tail = seq![']'] + rest;
        assert(s =~= ser_json(items[0]) + tail);
        assert(!is_num_char(tail[0]));
        lemma_value_rt(items[0], tail);
        lemma_skip_ws_nop(tail);
        assert(tail.len() < s.len()) by {
            assert(ser_json(items[0]).len() >= 1);
        }
        assert(tail[0] == ']');
        assert(tail.skip(1) =~= rest);
        assert(seq![items[0]] =~= items);
    } else {
        let more = ser_elems(items.skip(1)) + (seq![']'] + rest);
        let tail = seq![','] + more;
        assert(ser_elems(items) =~= ser_json(items[0]) + seq![','] + ser_elems(items.skip(1)));
        assert(s =~= ser_json(items[0]) + tail);
        assert(!is_num_char(tail[0]));
        lemma_value_rt(items[0], tail);
        lemma_skip_ws_nop(tail);
        assert(tail.len() < s.len()) by {
            assert(ser_json(items[0]).len() >= 1);
        }
        assert(tail[0] == ',');
        assert(tail.skip(1) =~= more);
        assert(items.skip(1).len() >= 1);
        lemma_ser_first(items.skip(1)[0]);
        assert(ser_elems(items.skip(1))[0] == ser_json(items.skip(1)[0])[0]);
        assert(more[0] == ser_elems(items.skip(1))[0]);
        lemma_skip_ws_nop(more);
        assert(more.len() < s.len()) by {
            assert(ser_json(items[0]).len() >= 1);
        }
        assert(forall|i: int|
            0 <= i < items.skip(1).len() ==> crate::json::json_val_wf(
                #[trigger] items.skip(1)[i],
            ));
        lemma_elems_rt(items.skip(1), rest);
        assert(seq![items[0]] + items.skip(1) =~= items);
    }
}

/// Parsing serialized object members followed by the closing brace
/// consumes them all, keys and values in order.
#[verifier::rlimit(100)]
proof fn lemma_members_rt(members: Seq<(Seq<char>, JsonVal)>, rest: Seq<char>)
    requires
        members.len() >= 1,
        forall|i: int|
            0 <= i < members.len() ==> crate::json::json_val_wf(#[trigger] members[i].1),
        rest.len() == 0 || !is_num_char(rest[0]),
    ensures
        spec_parse_members(ser_members(members) + (seq!['}'] + rest)) == Option::Some(
            (members, rest),
        ),
    decreases members, 1int,
{
    let s = ser_members(members) + (seq!['}'] + rest);
    let key = members[0].0;
    let val = members[0].1;
    let close: Seq<char> = if members.len() == 1 {
        seq!['}'] + rest
    } else {
        seq![','] + (ser_members(members.skip(1)) + (seq!['}'] + rest))
    };
    let after_colon = ser_json(val) + close;
    let after_key = seq![':'] + after_colon;
    if members.len() == 1 {
        assert(s =~= ser_member(members[0]) + (seq!['}'] + rest));
    } else {
        assert(ser_members(members) =~= ser_member(members[0]) + seq![','] + ser_members(
            members.skip(1),
        ));
        assert(s =~= ser_member(members[0]) + (seq![','] + (ser_members(members.skip(1))
            + (seq!['}'] + rest))));
    }
    assert(ser_member(members[0]) =~= string_lexeme(key) + seq![':'] + ser_json(val));
    assert(s =~= seq!['"'] + (escape_string(key) + (seq!['"'] + after_key)));
    assert(s[0] == '"');
    assert(s.skip(1) =~= escape_string(key) + (seq!['"'] + after_key));
    lemma_string_body_rt(key, after_key);
    lemma_skip_ws_nop(after_key);
    assert(after_key[0] == ':');
    assert(after_key.skip(1) =~= after_colon);
    lemma_ser_first(val);
    assert(after_colon[0] == ser_json(val)[0]);
    lemma_skip_ws_nop(after_colon);
    assert(after_colon.len() <= s.len()) by {
        assert(string_lexeme(key).len() >= 2);
    }
    assert(!is_num_char(close[0]));
    lemma_value_rt(val, close);
    lemma_skip_ws_nop(close);
    assert(close.len() < s.len()) by {
        assert(string_lexeme(key).len() >= 2);
        assert(ser_json(val).len() >= 1);
    }
    if members.len() == 1 {
        assert(close[0] == '}');
        assert(close.skip(1) =~= rest);
        assert(seq![(key, val)] =~= members);
    } else {
        let more = ser_members(members.skip(1)) + (seq!['}'] + rest);
        assert(close[0] == ',');
        assert(close.skip(1) =~= more);
        assert(members.skip(1).len() >= 1);
        assert(ser_members(members.skip(1))[0] == ser_member(members.skip(1)[0])[0]);
        assert(ser_member(members.skip(1)[0])[0] == '"');
        assert(more[0] == '"');
        lemma_skip_ws_nop(more);
        assert(more.len() < s.len()) by {
            assert(string_lexeme(key).len() >= 2);
            assert(ser_json(val).len() >= 1);
        }
        assert(forall|i: int|
            0 <= i < members.skip(1).len() ==> crate::json::json_val_wf(
                #[trigger] members.skip(1)[i].1,
            ));
        lemma_members_rt(members.skip(1), rest);
        assert(seq![(key, val)] + members.skip(1) =~= members);
    }
}

/// The round-trip law: parsing the serialization of any well-formed
/// JSON value gives that value back, exactly.
pub proof fn lemma_round_trip(v: JsonVal)
    requires
        crate::json::json_val_wf(v),
    ensures
        spec_parse_json(ser_json(v)) == Option::Some(v),
{
    let s = ser_json(v);
    lemma_ser_first(v);
    lemma_skip_ws_nop(s);
    assert(s + Seq::<char>::empty() =~= s);
    lemma_value_rt(v, Seq::<char>::empty());
    assert(skip_ws(Seq::<char>::empty()).len() == 0);
}

} // verus!
