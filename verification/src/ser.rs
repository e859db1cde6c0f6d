//! The JSON writer: turns a [`Json`] document into its wire text,
//! proved equal to the mathematical serialization [`ser_json`].

use vstd::prelude::*;
use vstd::string::StrSliceExecFns;
use vstd::string::StringExecFns;
use crate::json::Json;
use crate::json::JsonVal;
use crate::json::escape_char;
use crate::json::escape_string;
use crate::json::hex_digit;
use crate::json::json_view;
use crate::json::json_view_members;
use crate::json::json_view_seq;
use crate::json::lemma_json_view_members;
use crate::json::lemma_json_view_seq;
use crate::json::ser_elems;
use crate::json::ser_json;
use crate::json::ser_member;
use crate::json::ser_members;
use crate::json::string_lexeme;

verus! {

/// Relies on String::push: appends the given character to the string.
#[verifier::external_body]
pub(crate) fn push_char(out: &mut String, c: char)
    ensures
        final(out)@ == old(out)@.push(c),
{
    out.push(c);
}

/// Escaping one more character extends the escaped text.
proof fn lemma_escape_push(s: Seq<char>, c: char)
    ensures
        escape_string(s.push(c)) == escape_string(s) + escape_char(c),
    decreases s.len(),
{
    if s.len() == 0 {
        assert(s.push(c)[0] == c);
        assert(s.push(c).skip(1) =~= Seq::<char>::empty());
        assert(escape_char(c) + escape_string(Seq::<char>::empty()) =~= escape_char(c));
        assert(escape_string(s) + escape_char(c) =~= escape_char(c));
    } else {
        assert(s.push(c)[0] == s[0]);
        assert(s.push(c).skip(1) =~= s.skip(1).push(c));
        lemma_escape_push(s.skip(1), c);
        assert(escape_char(s[0]) + (escape_string(s.skip(1)) + escape_char(c)) =~= (escape_char(
            s[0],
        ) + escape_string(s.skip(1))) + escape_char(c));
    }
}

/// Hexadecimal digit character for a value below 16.
fn hex_char(n: u32) -> (r: char)
    requires
        n < 16,
    ensures
        r == hex_digit(n as int),
{
    if n == 0 { '0' }
    else if n == 1 { '1' }
    else if n == 2 { '2' }
    else if n == 3 { '3' }
    else if n == 4 { '4' }
    else if n == 5 { '5' }
    else if n == 6 { '6' }
    else if n == 7 { '7' }
    else if n == 8 { '8' }
    else if n == 9 { '9' }
    else if n == 10 { 'a' }
    else if n == 11 { 'b' }
    else if n == 12 { 'c' }
    else if n == 13 { 'd' }
    else if n == 14 { 'e' }
    else { 'f' }
}

/// Appends the escaped body of a JSON string literal for `s`.
fn write_escaped(s: &str, out: &mut String)
    ensures
        final(out)@ == old(out)@ + escape_string(s@),
{
    let n: usize = s.unicode_len();
    proof {
        assert(s@.take(0) =~= Seq::<char>::empty());
        assert(old(out)@ + escape_string(s@.take(0)) =~= old(out)@);
    }
    let mut i: usize = 0;
    while i < n
        invariant
            i <= n,
            n == s@.len(),
            out@ == old(out)@ + escape_string(s@.take(i as int)),
        decreases n - i,
    {
        let c = s.get_char(i);
        let ghost prev = out@;
        if c == '"' {
            push_char(out, '\\');
            push_char(out, '"');
            assert(out@ =~= prev + escape_char(c));
        } else if c == '\\' {
            push_char(out, '\\');
            push_char(out, '\\');
            assert(out@ =~= prev + escape_char(c));
        } else if c == '\n' {
            push_char(out, '\\');
            push_char(out, 'n');
            assert(out@ =~= prev + escape_char(c));
        } else if c == '\r' {
            push_char(out, '\\');
            push_char(out, 'r');
            assert(out@ =~= prev + escape_char(c));
        } else if c == '\t' {
            push_char(out, '\\');
            push_char(out, 't');
            assert(out@ =~= prev + escape_char(c));
        } else if (c as u32) < 0x20 {
            let code = c as u32;
            push_char(out, '\\');
            push_char(out, 'u');
            push_char(out, '0');
            push_char(out, '0');
            push_char(out, hex_char(code / 16));
            push_char(out, hex_char(code % 16));
            assert(out@ =~= prev + escape_char(c));
        } else {
            push_char(out, c);
            assert(out@ =~= prev + escape_char(c));
        }
        proof {
            lemma_escape_push(s@.take(i as int), s@[i as int]);
            assert(s@.take(i + 1) =~= s@.take(i as int).push(s@[i as int]));
            assert(out@ =~= old(out)@ + escape_string(s@.take(i + 1)));
        }
        i = i + 1;
    }
    proof {
        assert(s@.take(n as int) =~= s@);
    }
}

/// Appends the complete JSON string literal for `s`.
fn write_string_lexeme(s: &str, out: &mut String)
    ensures
        final(out)@ == old(out)@ + string_lexeme(s@),
{
    push_char(out, '"');
    write_escaped(s, out);
    push_char(out, '"');
    assert(out@ =~= old(out)@ + string_lexeme(s@));
}

/// Appends the wire text of `j`.
pub fn write_json(j: &Json, out: &mut String)
    ensures
        final(out)@ == old(out)@ + ser_json(j@),
    decreases *j, 0int,
{
    match j {
        Json::Null => {
            push_char(out, 'n');
            push_char(out, 'u');
            push_char(out, 'l');
            push_char(out, 'l');
            assert(out@ =~= old(out)@ + ser_json(j@));
        },
        Json::Bool(b) => {
            if *b {
                push_char(out, 't');
                push_char(out, 'r');
                push_char(out, 'u');
                push_char(out, 'e');
            } else {
                push_char(out, 'f');
                push_char(out, 'a');
                push_char(out, 'l');
                push_char(out, 's');
                push_char(out, 'e');
            }
            assert(out@ =~= old(out)@ + ser_json(j@));
        },
        Json::Num(num) => {
            out.append(num.as_str());
        },
        Json::Str(s) => {
            write_string_lexeme(s.as_str(), out);
        },
        Json::Arr(items) => {
            push_char(out, '[');
            write_elems(items, 0, out);
            push_char(out, ']');
            proof {
                lemma_json_view_seq(items@);
                assert(json_view_seq(items@).skip(0) =~= json_view_seq(items@));
                assert(out@ =~= old(out)@ + ser_json(j@));
            }
        },
        Json::Obj(members) => {
            push_char(out, '{');
            write_members(members, 0, out);
            push_char(out, '}');
            proof {
                lemma_json_view_members(members@);
                assert(json_view_members(members@).skip(0) =~= json_view_members(members@));
                assert(out@ =~= old(out)@ + ser_json(j@));
            }
        },
    }
}

/// Appends the elements of an array from position `i` on, with commas.
fn write_elems(items: &Vec<Json>, i: usize, out: &mut String)
    requires
        i <= items.len(),
    ensures
        final(out)@ == old(out)@ + ser_elems(json_view_seq(items@).skip(i as int)),
    decreases *items, items@.len() - i + 1,
{
    proof {
        lemma_json_view_seq(items@);
    }
    let ghost tail = json_view_seq(items@).skip(i as int);
    if i < items.len() {
        write_json(&items[i], out);
        proof {
            assert(tail[0] == json_view(items@[i as int]));
        }
        if i + 1 < items.len() {
            push_char(out, ',');
            let ghost mid = out@;
            write_elems(items, i + 1, out);
            proof {
                assert(json_view_seq(items@).skip(i + 1) =~= tail.skip(1));
                assert(out@ =~= old(out)@ + ser_elems(tail));
            }
        } else {
            proof {
                assert(tail.len() == 1);
                assert(out@ =~= old(out)@ + ser_elems(tail));
            }
        }
    } else {
        proof {
            assert(tail.len() == 0);
            assert(out@ =~= old(out)@ + ser_elems(tail));
        }
    }
}

/// Appends the members of an object from position `i` on, with commas.
fn write_members(members: &Vec<(String, Json)>, i: usize, out: &mut String)
    requires
        i <= members.len(),
    ensures
        final(out)@ == old(out)@ + ser_members(json_view_members(members@).skip(i as int)),
    decreases *members, members@.len() - i + 1,
{
    proof {
        lemma_json_view_members(members@);
    }
    let ghost tail = json_view_members(members@).skip(i as int);
    if i < members.len() {
        write_string_lexeme(members[i].0.as_str(), out);
        push_char(out, ':');
        write_json(&members[i].1, out);
        proof {
            assert(tail[0] == (members@[i as int].0@, json_view(members@[i as int].1)));
            assert(out@ =~= old(out)@ + ser_member(tail[0]));
        }
        if i + 1 < members.len() {
            push_char(out, ',');
            write_members(members, i + 1, out);
            proof {
                assert(json_view_members(members@).skip(i + 1) =~= tail.skip(1));
                assert(out@ =~= old(out)@ + ser_members(tail));
            }
        } else {
            proof {
                assert(tail.len() == 1);
                assert(out@ =~= old(out)@ + ser_members(tail));
            }
        }
    } else {
        proof {
            assert(tail.len() == 0);
            assert(out@ =~= old(out)@ + ser_members(tail));
        }
    }
}

impl Json {
    /// The wire text of this document: exactly [`ser_json`] of its view.
    pub fn to_text(&self) -> (r: String)
        ensures
            r@ == ser_json(self@),
    {
        let mut out = String::new();
        write_json(self, &mut out);
        proof {
            assert(Seq::<char>::empty() + ser_json(self@) =~= ser_json(self@));
        }
        out
    }
}

} // verus!
