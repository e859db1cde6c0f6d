//! Construction of JSON number lexemes from machine integers and
//! decimal fixed-point values.

use vstd::prelude::*;
use crate::json::digits_prefix_len;
use crate::json::hex_digit;
use crate::json::is_digit;
use crate::json::is_number_lexeme;
use crate::json::number_after_int;
use crate::json::number_exp;
use crate::json::JsonNumber;

verus! {

/// Decimal digit sequence of `n`, most significant first; `0` is `"0"`.
pub open spec fn dec_digits(n: nat) -> Seq<char>
    decreases n,
{
    if n < 10 {
        seq![hex_digit(n as int)]
    } else {
        dec_digits(n / 10) + seq![hex_digit((n % 10) as int)]
    }
}

/// `n` zero characters.
pub open spec fn zero_chars(n: nat) -> Seq<char> {
    Seq::new(n, |i: int| '0')
}

/// The lexeme of the decimal value `(-1)^neg * mantissa / 10^scale`,
/// written in plain positional notation with `scale` fraction digits.
pub open spec fn decimal_lexeme(neg: bool, mantissa: nat, scale: nat) -> Seq<char> {
    let sign = if neg { seq!['-'] } else { Seq::<char>::empty() };
    let ds = dec_digits(mantissa);
    if scale == 0 {
        sign + ds
    } else {
        let padded = if ds.len() >= scale + 1 {
            ds
        } else {
            zero_chars((scale + 1 - ds.len()) as nat) + ds
        };
        sign + padded.take(padded.len() - scale) + seq!['.'] + padded.skip(
            padded.len() - scale,
        )
    }
}

/// The lexeme of the integer `i`.
pub open spec fn int_lexeme(i: int) -> Seq<char> {
    if i < 0 {
        seq!['-'] + dec_digits((-i) as nat)
    } else {
        dec_digits(i as nat)
    }
}

/// Shape of a digit run: never empty, all digits, a leading zero only
/// for zero itself.
pub proof fn lemma_dec_digits(n: nat)
    ensures
        dec_digits(n).len() >= 1,
        forall|i: int| 0 <= i < dec_digits(n).len() ==> is_digit(#[trigger] dec_digits(n)[i]),
        n >= 1 ==> dec_digits(n)[0] != '0',
        n == 0 ==> dec_digits(n) =~= seq!['0'],
    decreases n,
{
    if n < 10 {
        assert(is_digit(hex_digit(n as int)));
    } else {
        lemma_dec_digits(n / 10);
        assert(is_digit(hex_digit((n % 10) as int)));
        assert(dec_digits(n)[0] == dec_digits(n / 10)[0]);
    }
}

/// A digit run followed by a non-digit is its own longest digit prefix.
pub proof fn lemma_digits_prefix(a: Seq<char>, b: Seq<char>)
    requires
        forall|i: int| 0 <= i < a.len() ==> is_digit(#[trigger] a[i]),
        b.len() == 0 || !is_digit(b[0]),
    ensures
        digits_prefix_len(a + b) == a.len(),
    decreases a.len(),
{
    if a.len() == 0 {
        assert(a + b =~= b);
    } else {
        assert((a + b)[0] == a[0]);
        assert((a + b).skip(1) =~= a.skip(1) + b);
        lemma_digits_prefix(a.skip(1), b);
    }
}

/// An integer lexeme is a grammatical JSON number.
pub proof fn lemma_int_lexeme_wf(i: int)
    ensures
        is_number_lexeme(int_lexeme(i)),
{
    let m = if i < 0 { (-i) as nat } else { i as nat };
    lemma_dec_digits(m);
    let ds = dec_digits(m);
    lemma_digits_prefix(ds, Seq::<char>::empty());
    assert(ds + Seq::<char>::empty() =~= ds);
    assert(digits_prefix_len(ds) == ds.len());
    assert(ds.skip(ds.len() as int) =~= Seq::<char>::empty());
    assert(number_exp(Seq::<char>::empty()));
    if i < 0 {
        assert(int_lexeme(i)[0] == '-');
        assert(int_lexeme(i).skip(1) =~= ds);
        if ds[0] == '0' {
            assert(m == 0) by {
                if m >= 1 {
                    assert(ds[0] != '0');
                }
            }
        }
    } else {
        if ds[0] == '0' {
            assert(m == 0) by {
                if m >= 1 {
                    assert(ds[0] != '0');
                }
            }
        }
    }
}

/// A decimal lexeme is a grammatical JSON number.
pub proof fn lemma_decimal_lexeme_wf(neg: bool, mantissa: nat, scale: nat)
    ensures
        is_number_lexeme(decimal_lexeme(neg, mantissa, scale)),
{
    let sign = if neg { seq!['-'] } else { Seq::<char>::empty() };
    let ds = dec_digits(mantissa);
    lemma_dec_digits(mantissa);
    if scale == 0 {
        lemma_int_lexeme_wf(if neg { -(mantissa as int) } else { mantissa as int });
        if neg {
            if mantissa == 0 {
                assert(decimal_lexeme(neg, mantissa, scale) =~= seq!['-'] + ds);
                assert(seq!['-'] + ds =~= int_lexeme(0).insert(0, '-'));
                // a lexeme "-0" is also grammatical: check it directly
                let t = (seq!['-'] + ds).skip(1);
                assert(t =~= ds);
                lemma_digits_prefix(ds, Seq::<char>::empty());
                assert(ds + Seq::<char>::empty() =~= ds);
                assert(t.skip(digits_prefix_len(t)) =~= Seq::<char>::empty());
            } else {
                assert(decimal_lexeme(neg, mantissa, scale) =~= int_lexeme(-(mantissa as int)));
            }
        } else {
            assert(decimal_lexeme(neg, mantissa, scale) =~= int_lexeme(mantissa as int));
        }
    } else {
        let padded = if ds.len() >= scale + 1 {
            ds
        } else {
            zero_chars((scale + 1 - ds.len()) as nat) + ds
        };
        assert(padded.len() >= scale + 1);
        assert(forall|i: int| 0 <= i < padded.len() ==> is_digit(#[trigger] padded[i]));
        let intpart = padded.take(padded.len() - scale);
        let frac = padded.skip(padded.len() - scale);
        assert(forall|i: int| 0 <= i < intpart.len() ==> is_digit(#[trigger] intpart[i]));
        assert(forall|i: int| 0 <= i < frac.len() ==> is_digit(#[trigger] frac[i]));
        let t = intpart + seq!['.'] + frac;
        assert(decimal_lexeme(neg, mantissa, scale) =~= sign + t);
        let rest = seq!['.'] + frac;
        assert(t =~= intpart + rest);
        assert(!is_digit('.'));
        lemma_digits_prefix(intpart, rest);
        assert(digits_prefix_len(t) == intpart.len());
        assert(t.skip(intpart.len() as int) =~= rest);
        assert(rest[0] == '.');
        assert(rest.skip(1) =~= frac);
        lemma_digits_prefix(frac, Seq::<char>::empty());
        assert(frac + Seq::<char>::empty() =~= frac);
        assert(digits_prefix_len(frac) == frac.len());
        assert(frac.len() == scale);
        assert(rest.skip(1 + frac.len() as int) =~= Seq::<char>::empty());
        assert(number_exp(Seq::<char>::empty()));
        assert(number_after_int(rest));
        // no superfluous leading zero: a zero first digit forces a one-digit
        // integer part
        if t[0] == '0' {
            if ds.len() >= scale + 1 {
                assert(intpart[0] == ds[0]);
                if mantissa >= 1 {
                    assert(ds[0] != '0');
                }
                assert(mantissa == 0 ==> ds.len() == 1);
                assert(intpart.len() == 1);
            } else {
                assert(intpart.len() == 1);
            }
        }
        // the whole lexeme with its sign
        if neg {
            let s = sign + t;
            assert(s[0] == '-');
            assert(s.skip(1) =~= t);
        } else {
            assert(sign + t =~= t);
        }
    }
}

/// Digit character for a value below 10.
fn digit_char(n: u64) -> (r: char)
    requires
        n < 10,
    ensures
        r == hex_digit(n as int),
{
    if n == 0 { '0' }
    else if n == 1 { '1' }
    else if n == 2 { '2' }
    else if n == 3 { '3' }
    else if n == 4 { '4' }
    else if n == 5 { '5' }
    else if n == 6 { '6' }
    else if n == 7 { '7' }
    else if n == 8 { '8' }
    else { '9' }
}

/// The decimal digits of `n`, most significant first.
fn dec_digits_vec(n: u64) -> (r: Vec<char>)
    ensures
        r@ == dec_digits(n as nat),
    decreases n,
{
    if n < 10 {
        let mut v: Vec<char> = Vec::new();
        v.push(digit_char(n));
        proof {
            assert(v@ =~= dec_digits(n as nat));
        }
        v
    } else {
        let mut v = dec_digits_vec(n / 10);
        v.push(digit_char(n % 10));
        proof {
            assert(v@ =~= dec_digits(n as nat));
        }
        v
    }
}

impl JsonNumber {
    /// Lexeme of an unsigned integer.
    pub fn from_u64(v: u64) -> (r: JsonNumber)
        ensures
            r@ == int_lexeme(v as int),
            r.wf(),
    {
        proof {
            lemma_int_lexeme_wf(v as int);
        }
        let ds = dec_digits_vec(v);
        let mut out = String::new();
        push_chars(&mut out, &ds, 0);
        proof {
            assert(ds@.skip(0) =~= ds@);
            assert(Seq::<char>::empty() + ds@ =~= ds@);
        }
        JsonNumber::from_lexeme(out)
    }

    /// Lexeme of a signed integer.
    pub fn from_i64(v: i64) -> (r: JsonNumber)
        ensures
            r@ == int_lexeme(v as int),
            r.wf(),
    {
        proof {
            lemma_int_lexeme_wf(v as int);
        }
        if v >= 0 {
            JsonNumber::from_u64(v as u64)
        } else {
            let m: u64 = ((-(v as i128)) as u64);
            let ds = dec_digits_vec(m);
            let mut out = String::new();
            crate::ser::push_char(&mut out, '-');
            push_chars(&mut out, &ds, 0);
            proof {
                assert(ds@.skip(0) =~= ds@);
                assert(Seq::<char>::empty().push('-') + ds@ =~= seq!['-'] + dec_digits(
                    m as nat,
                ));
            }
            JsonNumber::from_lexeme(out)
        }
    }

    /// Lexeme of the decimal value `(-1)^neg * mantissa / 10^scale`,
    /// written with `scale` digits after the point: `(false, 8, 1)`
    /// gives `0.8`.
    pub fn from_decimal(neg: bool, mantissa: u64, scale: u32) -> (r: JsonNumber)
        requires
            scale as nat + 2 <= usize::MAX as nat,
        ensures
            r@ == decimal_lexeme(neg, mantissa as nat, scale as nat),
            r.wf(),
    {
        proof {
            lemma_decimal_lexeme_wf(neg, mantissa as nat, scale as nat);
        }
        if scale == 0 {
            if neg {
                let ds = dec_digits_vec(mantissa);
                let mut out = String::new();
                crate::ser::push_char(&mut out, '-');
                push_chars(&mut out, &ds, 0);
                proof {
                    assert(ds@.skip(0) =~= ds@);
                    assert(Seq::<char>::empty().push('-') + ds@ =~= decimal_lexeme(
                        neg,
                        mantissa as nat,
                        scale as nat,
                    ));
                }
                JsonNumber::from_lexeme(out)
            } else {
                let n = JsonNumber::from_u64(mantissa);
                proof {
                    assert(int_lexeme(mantissa as int) =~= decimal_lexeme(
                        neg,
                        mantissa as nat,
                        scale as nat,
                    ));
                }
                n
            }
        } else {
            let ds = dec_digits_vec(mantissa);
            proof {
                lemma_dec_digits(mantissa as nat);
            }
            let scale_us = scale as usize;
            let pad: usize = if ds.len() > scale_us {
                0
            } else {
                scale_us - ds.len() + 1
            };
            let ghost padded = zero_chars(pad as nat) + ds@;
            proof {
                if pad == 0 {
                    assert(zero_chars(0) =~= Seq::<char>::empty());
                    assert(padded =~= ds@);
                }
            }
            let total = pad + ds.len();
            let int_len = total - scale_us;
            let mut out = String::new();
            if neg {
                crate::ser::push_char(&mut out, '-');
            }
            let ghost sign = if neg { seq!['-'] } else { Seq::<char>::empty() };
            proof {
                assert(out@ =~= sign);
            }
            let mut k: usize = 0;
            while k < int_len
                invariant
                    k <= int_len,
                    int_len + scale_us == total,
                    total == pad + ds@.len(),
                    scale_us >= 1,
                    padded == zero_chars(pad as nat) + ds@,
                    out@ == sign + padded.take(k as int),
                decreases int_len - k,
            {
                let c = if k < pad {
                    '0'
                } else {
                    ds[k - pad]
                };
                proof {
                    assert(c == padded[k as int]);
                }
                crate::ser::push_char(&mut out, c);
                proof {
                    assert(padded.take(k + 1) =~= padded.take(k as int).push(padded[k as int]));
                    assert(out@ =~= sign + padded.take(k + 1));
                }
                k = k + 1;
            }
            crate::ser::push_char(&mut out, '.');
            let ghost before_frac = out@;
            let mut k2: usize = int_len;
            while k2 < total
                invariant
                    int_len <= k2 <= total,
                    total == pad + ds@.len(),
                    padded == zero_chars(pad as nat) + ds@,
                    out@ == before_frac + padded.subrange(int_len as int, k2 as int),
                decreases total - k2,
            {
                let c = if k2 < pad {
                    '0'
                } else {
                    ds[k2 - pad]
                };
                proof {
                    assert(c == padded[k2 as int]);
                }
                crate::ser::push_char(&mut out, c);
                proof {
                    assert(padded.subrange(int_len as int, k2 + 1) =~= padded.subrange(
                        int_len as int,
                        k2 as int,
                    ).push(padded[k2 as int]));
                    assert(out@ =~= before_frac + padded.subrange(int_len as int, k2 + 1));
                }
                k2 = k2 + 1;
            }
            proof {
                assert(padded.take(int_len as int) =~= padded.take(
                    padded.len() - scale_us as int,
                ));
                assert(padded.subrange(int_len as int, total as int) =~= padded.skip(
                    padded.len() - scale_us as int,
                ));
                assert(out@ =~= decimal_lexeme(neg, mantissa as nat, scale as nat));
            }
            JsonNumber::from_lexeme(out)
        }
    }
}

// ---------------------------------------------------------------------------
// Reading integers back out of lexemes
// ---------------------------------------------------------------------------

/// Numeric value of a digit character.
pub open spec fn digit_val(c: char) -> int {
    (c as u32) - ('0' as u32)
}

/// Value of a digit sequence read in base ten.
pub open spec fn digits_value(s: Seq<char>) -> int
    decreases s.len(),
{
    if s.len() == 0 {
        0
    } else {
        digits_value(s.take(s.len() - 1)) * 10 + digit_val(s[s.len() - 1])
    }
}

/// A canonical digit run: not empty, all digits, no superfluous
/// leading zero.
pub open spec fn is_canonical_digits(s: Seq<char>) -> bool {
    &&& s.len() > 0
    &&& (forall|i: int| 0 <= i < s.len() ==> is_digit(#[trigger] s[i]))
    &&& (s[0] == '0' ==> s.len() == 1)
}

/// The unsigned integer a lexeme denotes, when it is a canonical digit
/// run whose value fits in a `u64`.
pub open spec fn spec_u64_lexeme(s: Seq<char>) -> Option<u64> {
    if is_canonical_digits(s) && digits_value(s) <= u64::MAX {
        Option::Some(digits_value(s) as u64)
    } else {
        Option::None
    }
}

/// The signed integer a lexeme denotes: an optional minus sign before
/// a canonical digit run, with the value in the range of `i64`.
pub open spec fn spec_i64_lexeme(s: Seq<char>) -> Option<i64> {
    if s.len() > 0 && s[0] == '-' {
        let mag = s.skip(1);
        if is_canonical_digits(mag) && digits_value(mag) <= 0x8000_0000_0000_0000 {
            Option::Some((-digits_value(mag)) as i64)
        } else {
            Option::None
        }
    } else {
        if is_canonical_digits(s) && digits_value(s) <= i64::MAX {
            Option::Some(digits_value(s) as i64)
        } else {
            Option::None
        }
    }
}

/// A digit value never lowers the total when more digits follow.
proof fn lemma_digits_value_mono(s: Seq<char>, k: int)
    requires
        0 <= k <= s.len(),
        forall|i: int| 0 <= i < s.len() ==> is_digit(#[trigger] s[i]),
    ensures
        0 <= digits_value(s.take(k)) <= digits_value(s),
        digits_value(s) >= 0,
    decreases s.len() - k,
{
    lemma_digits_value_nonneg(s.take(k));
    lemma_digits_value_nonneg(s);
    if k < s.len() {
        lemma_digits_value_mono(s, k + 1);
        assert(s.take(k + 1).take(k) =~= s.take(k));
        assert(digits_value(s.take(k + 1)) == digits_value(s.take(k)) * 10 + digit_val(
            s[k],
        ));
        lemma_digits_value_nonneg(s.take(k));
        assert(digits_value(s.take(k)) <= digits_value(s.take(k)) * 10 + digit_val(s[k]))
            by (nonlinear_arith)
            requires
                digits_value(s.take(k)) >= 0,
                digit_val(s[k]) >= 0,
        ;
    } else {
        assert(s.take(k) =~= s);
    }
}

proof fn lemma_digits_value_nonneg(s: Seq<char>)
    ensures
        (forall|i: int| 0 <= i < s.len() ==> is_digit(#[trigger] s[i])) ==> digits_value(s)
            >= 0,
    decreases s.len(),
{
    if s.len() > 0 {
        lemma_digits_value_nonneg(s.take(s.len() - 1));
        assert(forall|i: int| 0 <= i < s.len() - 1 ==> s.take(s.len() - 1)[i] == s[i]);
    }
}

/// Reads a canonical digit run from position `start` to the end of
/// `s`, as a `u64`.
fn parse_digits_u64(s: &str, start: usize) -> (r: Option<u64>)
    requires
        start <= s@.len(),
    ensures
        r == spec_u64_lexeme(s@.skip(start as int)),
{
    let ghost t = s@.skip(start as int);
    let n = s.unicode_len();
    if start == n {
        return None;
    }
    let first = s.get_char(start);
    if !('0' <= first && first <= '9') {
        return None;
    }
    if first == '0' && start + 1 < n {
        // a longer run with a leading zero is not canonical
        if '0' <= s.get_char(start + 1) && s.get_char(start + 1) <= '9' {
            assert(t[1] == s@[start + 1]);
            return None;
        }
        // a non-digit after the zero is not a digit run either
        assert(t[1] == s@[start + 1]);
        return None;
    }
    let mut val: u64 = 0;
    let mut i: usize = start;
    while i < n
        invariant
            start <= i <= n,
            n == s@.len(),
            t == s@.skip(start as int),
            forall|k: int| 0 <= k < i - start ==> is_digit(#[trigger] t[k]),
            val == digits_value(t.take(i - start)),
        decreases n - i,
    {
        let c = s.get_char(i);
        if !('0' <= c && c <= '9') {
            proof {
                assert(t[i - start] == s@[i as int]);
                assert(!is_digit(t[i - start]));
            }
            return None;
        }
        let d: u64 = ((c as u32) as u64) - 48;
        proof {
            assert(t[i - start] == s@[i as int]);
            assert(is_digit(t[i - start]));
            assert(d == digit_val(t[i - start]));
        }
        if val > (u64::MAX - d) / 10 {
            // the run does not fit in 64 bits
            proof {
                let ghost w = t.take(i - start + 1);
                assert(w.take(w.len() - 1) =~= t.take(i - start));
                assert(digits_value(w) == val * 10 + d);
                assert(val * 10 + d > u64::MAX) by (nonlinear_arith)
                    requires
                        val > (u64::MAX - d) / 10,
                        0 <= d <= 9,
                ;
                if i + 1 <= n {
                    lemma_digits_value_mono_partial(t, i - start + 1);
                }
            }
            return None;
        }
        val = val * 10 + d;
        proof {
            let ghost w = t.take(i - start + 1);
            assert(w.take(w.len() - 1) =~= t.take(i - start));
            assert(val == digits_value(w));
        }
        i = i + 1;
    }
    proof {
        assert(t.take(n - start) =~= t);
        assert(is_canonical_digits(t));
        assert(digits_value(t) == val);
    }
    Some(val)
}

/// If an all-digit prefix already exceeds `u64::MAX`, the whole run
/// has no `u64` value.
proof fn lemma_digits_value_mono_partial(t: Seq<char>, k: int)
    requires
        0 <= k <= t.len(),
        forall|i: int| 0 <= i < k ==> is_digit(#[trigger] t[i]),
    ensures
        (forall|i: int| 0 <= i < t.len() ==> is_digit(#[trigger] t[i])) ==> digits_value(
            t.take(k),
        ) <= digits_value(t),
{
    if forall|i: int| 0 <= i < t.len() ==> is_digit(#[trigger] t[i]) {
        lemma_digits_value_mono(t, k);
    }
}

/// Reads a `u64` from a complete lexeme.
pub fn u64_from_lexeme(s: &str) -> (r: Option<u64>)
    ensures
        r == spec_u64_lexeme(s@),
{
    let r = parse_digits_u64(s, 0);
    proof {
        assert(s@.skip(0) =~= s@);
    }
    r
}

/// Reads an `i64` from a complete lexeme.
pub fn i64_from_lexeme(s: &str) -> (r: Option<i64>)
    ensures
        r == spec_i64_lexeme(s@),
{
    let n = s.unicode_len();
    if n > 0 && s.get_char(0) == '-' {
        let mag = parse_digits_u64(s, 1);
        proof {
            lemma_digits_value_nonneg(s@.skip(1));
        }
        match mag {
            Some(m) => {
                if m <= 0x8000_0000_0000_0000 {
                    if m == 0x8000_0000_0000_0000 {
                        Some(i64::MIN)
                    } else {
                        Some(-(m as i64))
                    }
                } else {
                    None
                }
            },
            None => None,
        }
    } else {
        let r = parse_digits_u64(s, 0);
        proof {
            assert(s@.skip(0) =~= s@);
            lemma_digits_value_nonneg(s@);
        }
        match r {
            Some(m) => if m <= i64::MAX as u64 {
                Some(m as i64)
            } else {
                None
            },
            None => None,
        }
    }
}

/// Reads a `u32` from a complete lexeme.
pub open spec fn spec_u32_lexeme(s: Seq<char>) -> Option<u32> {
    match spec_u64_lexeme(s) {
        Option::Some(v) => if v <= u32::MAX {
            Option::Some(v as u32)
        } else {
            Option::None
        },
        Option::None => Option::None,
    }
}

pub fn u32_from_lexeme(s: &str) -> (r: Option<u32>)
    ensures
        r == spec_u32_lexeme(s@),
{
    match u64_from_lexeme(s) {
        Some(v) => if v <= u32::MAX as u64 {
            Some(v as u32)
        } else {
            None
        },
        None => None,
    }
}

/// Reads an `i32` from a complete lexeme.
pub open spec fn spec_i32_lexeme(s: Seq<char>) -> Option<i32> {
    match spec_i64_lexeme(s) {
        Option::Some(v) => if i32::MIN <= v <= i32::MAX {
            Option::Some(v as i32)
        } else {
            Option::None
        },
        Option::None => Option::None,
    }
}

pub fn i32_from_lexeme(s: &str) -> (r: Option<i32>)
    ensures
        r == spec_i32_lexeme(s@),
{
    match i64_from_lexeme(s) {
        Some(v) => if i32::MIN as i64 <= v && v <= i32::MAX as i64 {
            Some(v as i32)
        } else {
            None
        },
        None => None,
    }
}

/// Appends the characters of `cs` from position `i` on.
fn push_chars(out: &mut String, cs: &Vec<char>, i: usize)
    requires
        i <= cs.len(),
    ensures
        final(out)@ == old(out)@ + cs@.skip(i as int),
    decreases cs@.len() - i,
{
    if i < cs.len() {
        crate::ser::push_char(out, cs[i]);
        push_chars(out, cs, i + 1);
        proof {
            assert(old(out)@.push(cs@[i as int]) + cs@.skip(i + 1) =~= old(out)@ + cs@.skip(
                i as int,
            ));
        }
    } else {
        proof {
            assert(cs@.skip(i as int) =~= Seq::<char>::empty());
            assert(old(out)@ + cs@.skip(i as int) =~= old(out)@);
        }
    }
}

} // verus!
