//! The literal grammars of layout arguments: decimal floating-point numbers
//! (the grammar `f32::from_str` documents), unsigned and signed 16-bit
//! integers (`u16::from_str`, `i16::from_str`) and booleans.
use vstd::prelude::*;
use crate::prepass::{is_digit, digit_pred};
use crate::text::{prefix_len, lemma_prefix_len_exact, lemma_prefix_len_bounds};

verus! {

/// The number of leading ASCII digits of `s`.
pub open spec fn digits(s: Seq<char>) -> nat {
    prefix_len(s, digit_pred())
}

/// `c` is the lower-case letter `l`, or its ASCII upper-case form.
pub open spec fn ci_char_eq(c: char, l: char) -> bool {
    c == l || ('A' <= c && c <= 'Z' && (c as u32) + 32 == (l as u32))
}

/// `s` equals the lower-case word `w`, ignoring ASCII case.
pub open spec fn ci_eq(s: Seq<char>, w: Seq<char>) -> bool {
    s.len() == w.len() && forall|i: int| 0 <= i < w.len() ==> ci_char_eq(#[trigger] s[i], w[i])
}

/// `s` without one leading sign character, if it has one.
pub open spec fn unsigned_part(s: Seq<char>, minus: bool) -> Seq<char> {
    if s.len() > 0 && (s[0] == '+' || (minus && s[0] == '-')) {
        s.drop_first()
    } else {
        s
    }
}

/// An optional exponent: empty, or `e`/`E`, an optional sign and at least
/// one digit, and nothing else.
pub open spec fn is_exponent(e: Seq<char>) -> bool {
    e.len() == 0 || ((e[0] == 'e' || e[0] == 'E') && {
        let g = unsigned_part(e.drop_first(), true);
        g.len() > 0 && digits(g) == g.len()
    })
}

/// `Digit+ | Digit+ '.' Digit* | Digit* '.' Digit+`, then an optional
/// exponent.
pub open spec fn is_decimal_number(b: Seq<char>) -> bool {
    let i = digits(b);
    if i < b.len() && b[i as int] == '.' {
        let r = b.skip((i + 1) as int);
        let j = digits(r);
        (i > 0 || j > 0) && is_exponent(r.skip(j as int))
    } else {
        i > 0 && is_exponent(b.skip(i as int))
    }
}

/// The strings `f32::from_str` accepts: an optional sign, then `inf`,
/// `infinity`, `nan` (in any case) or a decimal number.
pub open spec fn is_float_literal(s: Seq<char>) -> bool {
    let b = unsigned_part(s, true);
    ||| ci_eq(b, seq!['i', 'n', 'f'])
    ||| ci_eq(b, seq!['i', 'n', 'f', 'i', 'n', 'i', 't', 'y'])
    ||| ci_eq(b, seq!['n', 'a', 'n'])
    ||| is_decimal_number(b)
}

/// The value of a string of decimal digits.
pub open spec fn digits_value(s: Seq<char>) -> nat
    decreases s.len(),
{
    if s.len() == 0 {
        0
    } else {
        digits_value(s.drop_last()) * 10 + ((s.last() as int) - ('0' as int)) as nat
    }
}

/// The value of an optional `+` (or, where `minus`, `-`) and at least one
/// digit, as a non-negative number; `None` for anything else.
pub open spec fn magnitude(s: Seq<char>, minus: bool) -> Option<nat> {
    let b = unsigned_part(s, minus);
    if b.len() > 0 && digits(b) == b.len() {
        Some(digits_value(b))
    } else {
        None
    }
}

/// What `u16::from_str` reads from `s`.
pub open spec fn parse_u16(s: Seq<char>) -> Option<u16> {
    match magnitude(s, false) {
        Some(v) => if v < 0x10000 {
            Some(v as u16)
        } else {
            None
        },
        None => None,
    }
}

/// What `i16::from_str` reads from `s`.
pub open spec fn parse_i16(s: Seq<char>) -> Option<i16> {
    match magnitude(s, true) {
        Some(v) => if s[0] == '-' {
            if v <= 0x8000 {
                Some((-v) as i16)
            } else {
                None
            }
        } else if v < 0x8000 {
            Some(v as i16)
        } else {
            None
        },
        None => None,
    }
}

/// What `bool::from_str` reads from `s`.
pub open spec fn parse_bool(s: Seq<char>) -> Option<bool> {
    if s == seq!['t', 'r', 'u', 'e'] {
        Some(true)
    } else if s == seq!['f', 'a', 'l', 's', 'e'] {
        Some(false)
    } else {
        None
    }
}

/// The end of the run of digits of `v[from..to]` that starts at `from`.
pub fn digits_end(v: &Vec<char>, from: usize, to: usize) -> (k: usize)
    requires
        from <= to <= v@.len(),
    ensures
        from <= k <= to,
        k - from == digits(v@.subrange(from as int, to as int)),
{
    let mut k = from;
    while k < to && '0' <= v[k] && v[k] <= '9'
        invariant
            from <= k <= to <= v@.len(),
            forall|j: int| from <= j < k ==> is_digit(#[trigger] v@[j]),
        decreases to - k,
    {
        k = k + 1;
    }
    proof {
        let t = v@.subrange(from as int, to as int);
        assert forall|j: int| 0 <= j < k - from implies (digit_pred())(#[trigger] t[j]) by {
            assert(t[j] == v@[from + j]);
        }
        if k < to {
            assert(t[k - from] == v@[k as int]);
        }
        lemma_prefix_len_exact(t, digit_pred(), k - from);
    }
    k
}

/// Whether `v[from..to]` equals the lower-case word `w`, ignoring ASCII case.
fn ci_eq_range(v: &Vec<char>, from: usize, to: usize, w: &Vec<char>) -> (r: bool)
    requires
        from <= to <= v@.len(),
    ensures
        r == ci_eq(v@.subrange(from as int, to as int), w@),
{
    let ghost s = v@.subrange(from as int, to as int);
    if to - from != w.len() {
        return false;
    }
    let mut i: usize = 0;
    while i < w.len()
        invariant
            from <= to <= v@.len(),
            s == v@.subrange(from as int, to as int),
            to - from == w@.len(),
            i <= w@.len(),
            forall|j: int| 0 <= j < i ==> ci_char_eq(#[trigger] s[j], w@[j]),
        decreases w@.len() - i,
    {
        assert(s[i as int] == v@[from + i]);
        let c = v[from + i];
        let same = c == w[i] || ('A' <= c && c <= 'Z' && (c as u32) + 32 == (w[i] as u32));
        if !same {
            return false;
        }
        assert(ci_char_eq(s[i as int], w@[i as int]));
        i = i + 1;
    }
    true
}

/// Whether `v[from..to]` is an optional exponent.
fn exponent_range(v: &Vec<char>, from: usize, to: usize) -> (r: bool)
    requires
        from <= to <= v@.len(),
    ensures
        r == is_exponent(v@.subrange(from as int, to as int)),
{
    let ghost e = v@.subrange(from as int, to as int);
    if from == to {
        return true;
    }
    assert(e[0] == v@[from as int]);
    if !(v[from] == 'e' || v[from] == 'E') {
        return false;
    }
    let mut p = from + 1;
    assert(e.drop_first() =~= v@.subrange(p as int, to as int));
    if p < to && (v[p] == '+' || v[p] == '-') {
        assert(e.drop_first()[0] == v@[p as int]);
        p = p + 1;
        assert(e.drop_first().drop_first() =~= v@.subrange(p as int, to as int));
    } else if p < to {
        assert(e.drop_first()[0] == v@[p as int]);
    }
    let k = digits_end(v, p, to);
    p < to && k == to
}

/// Whether `v[from..to]` is a decimal number.
fn decimal_range(v: &Vec<char>, from: usize, to: usize) -> (r: bool)
    requires
        from <= to <= v@.len(),
    ensures
        r == is_decimal_number(v@.subrange(from as int, to as int)),
{
    let ghost b = v@.subrange(from as int, to as int);
    let i = digits_end(v, from, to);
    if i < to && v[i] == '.' {
        assert(b[i - from] == v@[i as int]);
        assert(b.skip(i - from + 1) =~= v@.subrange(i + 1, to as int));
        let j = digits_end(v, i + 1, to);
        assert(b.skip(i - from + 1).skip(j - (i + 1)) =~= v@.subrange(j as int, to as int));
        (i > from || j > i + 1) && exponent_range(v, j, to)
    } else {
        if i < to {
            assert(b[i - from] == v@[i as int]);
        }
        assert(b.skip(i - from) =~= v@.subrange(i as int, to as int));
        i > from && exponent_range(v, i, to)
    }
}

/// The index just after the sign of `v[from..to]`, if it has one.
fn sign_end(v: &Vec<char>, from: usize, to: usize, minus: bool) -> (k: usize)
    requires
        from <= to <= v@.len(),
    ensures
        from <= k <= to,
        v@.subrange(k as int, to as int) == unsigned_part(v@.subrange(from as int, to as int), minus),
{
    let ghost s = v@.subrange(from as int, to as int);
    if from < to && (v[from] == '+' || (minus && v[from] == '-')) {
        assert(s[0] == v@[from as int]);
        assert(s.drop_first() =~= v@.subrange(from + 1, to as int));
        from + 1
    } else {
        if from < to {
            assert(s[0] == v@[from as int]);
        }
        from
    }
}

/// Whether `v[from..to]` reads as an `f32` (see [`is_float_literal`]).
pub fn float_range(v: &Vec<char>, from: usize, to: usize) -> (r: bool)
    requires
        from <= to <= v@.len(),
    ensures
        r == is_float_literal(v@.subrange(from as int, to as int)),
{
    let s = sign_end(v, from, to, true);
    let inf = vec!['i', 'n', 'f'];
    let infinity = vec!['i', 'n', 'f', 'i', 'n', 'i', 't', 'y'];
    let nan = vec!['n', 'a', 'n'];
    assert(inf@ =~= seq!['i', 'n', 'f']);
    assert(infinity@ =~= seq!['i', 'n', 'f', 'i', 'n', 'i', 't', 'y']);
    assert(nan@ =~= seq!['n', 'a', 'n']);
    ci_eq_range(v, s, to, &inf) || ci_eq_range(v, s, to, &infinity) || ci_eq_range(v, s, to, &nan)
        || decimal_range(v, s, to)
}

/// The value of `v[from..to]` as an optional sign and digits, if it is one
/// and the value is at most `limit`; `None` if it is not one, and `Some`
/// of `limit + 1` if it is one with a larger value.
fn magnitude_range(v: &Vec<char>, from: usize, to: usize, minus: bool, limit: u32) -> (r: Option<u32>)
    requires
        from <= to <= v@.len(),
        limit < 0x10000,
    ensures
        match (r, magnitude(v@.subrange(from as int, to as int), minus)) {
            (Some(x), Some(m)) => if m <= limit { x == m } else { x == limit + 1 },
            (None, None) => true,
            _ => false,
        },
{
    let s = sign_end(v, from, to, minus);
    let ghost b = v@.subrange(s as int, to as int);
    let k = digits_end(v, s, to);
    if s == to || k != to {
        return None;
    }
    proof {
        lemma_prefix_len_bounds(b, digit_pred());
    }
    let mut acc: u32 = 0;
    let mut i = s;
    while i < to
        invariant
            s <= i <= to <= v@.len(),
            b == v@.subrange(s as int, to as int),
            forall|j: int| 0 <= j < b.len() ==> is_digit(#[trigger] b[j]),
            limit < 0x10000,
            acc <= limit + 1,
            digits_value(b.take(i - s)) <= limit ==> acc == digits_value(b.take(i - s)),
            digits_value(b.take(i - s)) > limit ==> acc == limit + 1,
        decreases to - i,
    {
        let ghost pre = b.take(i - s);
        let ghost nxt = b.take(i - s + 1);
        assert(nxt.drop_last() =~= pre);
        assert(nxt.last() == b[i - s]);
        assert(b[i - s] == v@[i as int]);
        assert(is_digit(b[i - s]));
        let d = (v[i] as u32) - ('0' as u32);
        if acc > limit {
            assert(digits_value(nxt) >= digits_value(pre));
        } else {
            acc = acc * 10 + d;
            if acc > limit {
                acc = limit + 1;
            }
        }
        i = i + 1;
    }
    assert(b.take(to - s) =~= b);
    Some(acc)
}

/// Reads `v[from..to]` as a `u16` (see [`parse_u16`]).
pub fn u16_range(v: &Vec<char>, from: usize, to: usize) -> (r: Option<u16>)
    requires
        from <= to <= v@.len(),
    ensures
        r == parse_u16(v@.subrange(from as int, to as int)),
{
    match magnitude_range(v, from, to, false, 0xffff) {
        Some(m) => if m <= 0xffff {
            Some(m as u16)
        } else {
            None
        },
        None => None,
    }
}

/// Reads `v[from..to]` as an `i16` (see [`parse_i16`]).
pub fn i16_range(v: &Vec<char>, from: usize, to: usize) -> (r: Option<i16>)
    requires
        from <= to <= v@.len(),
    ensures
        r == parse_i16(v@.subrange(from as int, to as int)),
{
    let ghost s = v@.subrange(from as int, to as int);
    match magnitude_range(v, from, to, true, 0x8000) {
        Some(m) => {
            assert(s[0] == v@[from as int]);
            if v[from] == '-' {
                if m <= 0x8000 {
                    let n: i32 = 0 - (m as i32);
                    Some(n as i16)
                } else {
                    None
                }
            } else if m < 0x8000 {
                Some(m as i16)
            } else {
                None
            }
        },
        None => None,
    }
}

/// Reads `v[from..to]` as a `bool` (see [`parse_bool`]).
pub fn bool_range(v: &Vec<char>, from: usize, to: usize) -> (r: Option<bool>)
    requires
        from <= to <= v@.len(),
    ensures
        r == parse_bool(v@.subrange(from as int, to as int)),
{
    let ghost s = v@.subrange(from as int, to as int);
    let t = vec!['t', 'r', 'u', 'e'];
    let f = vec!['f', 'a', 'l', 's', 'e'];
    assert(t@ =~= seq!['t', 'r', 'u', 'e']);
    assert(f@ =~= seq!['f', 'a', 'l', 's', 'e']);
    if slice_eq(v, from, to, &t) {
        Some(true)
    } else if slice_eq(v, from, to, &f) {
        Some(false)
    } else {
        None
    }
}

/// Whether `v[from..to]` equals `w`.
pub fn slice_eq(v: &Vec<char>, from: usize, to: usize, w: &Vec<char>) -> (r: bool)
    requires
        from <= to <= v@.len(),
    ensures
        r == (v@.subrange(from as int, to as int) == w@),
{
    let ghost s = v@.subrange(from as int, to as int);
    if to - from != w.len() {
        return false;
    }
    let mut i: usize = 0;
    while i < w.len()
        invariant
            from <= to <= v@.len(),
            s == v@.subrange(from as int, to as int),
            to - from == w@.len(),
            i <= w@.len(),
            forall|j: int| 0 <= j < i ==> s[j] == w@[j],
        decreases w@.len() - i,
    {
        if v[from + i] != w[i] {
            return false;
        }
        i = i + 1;
    }
    assert(s =~= w@);
    true
}

} // verus!
