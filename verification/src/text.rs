//! Character-level helpers shared by the parsers: whitespace as Rust's
//! `char::is_whitespace` defines it, trimming, and conversion between
//! `String`s and character vectors.
use vstd::prelude::*;
use crate::keywords::chars_eq_str;

verus! {

/// Unicode `White_Space`, the set `char::is_whitespace` tests.
pub open spec fn is_ws(c: char) -> bool {
    ||| ('\u{9}' <= c && c <= '\u{d}')
    ||| c == ' '
    ||| c == '\u{85}'
    ||| c == '\u{a0}'
    ||| c == '\u{1680}'
    ||| ('\u{2000}' <= c && c <= '\u{200a}')
    ||| c == '\u{2028}'
    ||| c == '\u{2029}'
    ||| c == '\u{202f}'
    ||| c == '\u{205f}'
    ||| c == '\u{3000}'
}

/// Executable twin of [`is_ws`].
pub fn is_whitespace(c: char) -> (r: bool)
    ensures
        r == is_ws(c),
{
    ('\u{9}' <= c && c <= '\u{d}') || c == ' ' || c == '\u{85}' || c == '\u{a0}' || c == '\u{1680}'
        || ('\u{2000}' <= c && c <= '\u{200a}') || c == '\u{2028}' || c == '\u{2029}'
        || c == '\u{202f}' || c == '\u{205f}' || c == '\u{3000}'
}

/// The characters of `s`, in order.
pub fn chars_of(s: &str) -> (v: Vec<char>)
    ensures
        v@ == s@,
{
    let mut v: Vec<char> = Vec::new();
    let n = s.unicode_len();
    let mut i: usize = 0;
    while i < n
        invariant
            n == s@.len(),
            i <= n,
            v@ == s@.subrange(0, i as int),
        decreases n - i,
    {
        v.push(s.get_char(i));
        i = i + 1;
        assert(v@ =~= s@.subrange(0, i as int));
    }
    assert(v@ =~= s@);
    v
}

/// Collects characters into a `String` (std's `FromIterator<&char>` for
/// `String`, which appends each character in order).
#[verifier::external_body]
pub(crate) fn string_of(v: &[char]) -> (s: String)
    ensures
        s@ == v@,
{
    v.iter().collect()
}

/// The number of leading characters of `s` that satisfy `p`.
pub open spec fn prefix_len(s: Seq<char>, p: spec_fn(char) -> bool) -> nat
    decreases s.len(),
{
    if s.len() > 0 && p(s[0]) {
        1 + prefix_len(s.drop_first(), p)
    } else {
        0
    }
}

/// Stepping over one more matching character.
pub proof fn lemma_prefix_len_step(s: Seq<char>, p: spec_fn(char) -> bool, i: int)
    requires
        0 <= i < s.len(),
        p(s[i]),
    ensures
        prefix_len(s.skip(i), p) == 1 + prefix_len(s.skip(i + 1), p),
{
    assert(s.skip(i).drop_first() =~= s.skip(i + 1));
}

/// `prefix_len` is the index of the first character that fails `p`.
pub proof fn lemma_prefix_len_bounds(s: Seq<char>, p: spec_fn(char) -> bool)
    ensures
        prefix_len(s, p) <= s.len(),
        forall|j: int| 0 <= j < prefix_len(s, p) ==> p(#[trigger] s[j]),
        prefix_len(s, p) < s.len() ==> !p(s[prefix_len(s, p) as int]),
    decreases s.len(),
{
    if s.len() > 0 && p(s[0]) {
        lemma_prefix_len_bounds(s.drop_first(), p);
        assert forall|j: int| 0 <= j < prefix_len(s, p) implies p(#[trigger] s[j]) by {
            if j > 0 {
                assert(s[j] == s.drop_first()[j - 1]);
            }
        }
    }
}

/// A prefix of matching characters followed by a failing one (or the end)
/// determines `prefix_len`.
pub proof fn lemma_prefix_len_exact(s: Seq<char>, p: spec_fn(char) -> bool, k: int)
    requires
        0 <= k <= s.len(),
        forall|j: int| 0 <= j < k ==> p(#[trigger] s[j]),
        k < s.len() ==> !p(s[k]),
    ensures
        prefix_len(s, p) == k,
    decreases s.len(),
{
    if k > 0 {
        assert forall|j: int| 0 <= j < k - 1 implies p(#[trigger] s.drop_first()[j]) by {
            assert(s.drop_first()[j] == s[j + 1]);
        }
        lemma_prefix_len_exact(s.drop_first(), p, k - 1);
    }
}

/// Whitespace as a predicate value.
pub open spec fn ws_pred() -> spec_fn(char) -> bool {
    |c: char| is_ws(c)
}

/// `s` without its leading whitespace (`str::trim_start`).
pub open spec fn trim_start(s: Seq<char>) -> Seq<char> {
    s.skip(prefix_len(s, ws_pred()) as int)
}

/// The number of trailing whitespace characters of `s`.
pub open spec fn ws_suffix_len(s: Seq<char>) -> nat
    decreases s.len(),
{
    if s.len() > 0 && is_ws(s.last()) {
        1 + ws_suffix_len(s.drop_last())
    } else {
        0
    }
}

/// `s` without leading and trailing whitespace (`str::trim`).
pub open spec fn trim(s: Seq<char>) -> Seq<char> {
    let t = trim_start(s);
    t.take(t.len() - ws_suffix_len(t))
}

/// The index of the first character of `s[from..]` that fails `is_ws`
/// (or `s.len()`).
pub fn skip_ws(s: &Vec<char>, from: usize) -> (k: usize)
    requires
        from <= s@.len(),
    ensures
        from <= k <= s@.len(),
        k - from == prefix_len(s@.skip(from as int), ws_pred()),
{
    let mut k = from;
    while k < s.len() && is_whitespace(s[k])
        invariant
            from <= k <= s@.len(),
            forall|j: int| from <= j < k ==> is_ws(#[trigger] s@[j]),
        decreases s@.len() - k,
    {
        k = k + 1;
    }
    proof {
        let t = s@.skip(from as int);
        assert forall|j: int| 0 <= j < k - from implies (ws_pred())(#[trigger] t[j]) by {
            assert(t[j] == s@[from + j]);
        }
        if k < s@.len() {
            assert(t[k - from] == s@[k as int]);
        }
        lemma_prefix_len_exact(t, ws_pred(), k - from);
    }
    k
}

/// The index just after the last non-whitespace character of `s[from..to]`
/// (or `from`).
pub fn trim_end_index(s: &Vec<char>, from: usize, to: usize) -> (k: usize)
    requires
        from <= to <= s@.len(),
    ensures
        from <= k <= to,
        to - k == ws_suffix_len(s@.subrange(from as int, to as int)),
{
    let mut k = to;
    while k > from && is_whitespace(s[k - 1])
        invariant
            from <= k <= to <= s@.len(),
            ws_suffix_len(s@.subrange(from as int, to as int)) == (to - k) + ws_suffix_len(
                s@.subrange(from as int, k as int),
            ),
        decreases k - from,
    {
        assert(s@.subrange(from as int, k as int).drop_last() =~= s@.subrange(
            from as int,
            k - 1,
        ));
        k = k - 1;
    }
    k
}

/// `s[from..to]` without leading and trailing whitespace, as a range.
pub fn trim_range(s: &Vec<char>, from: usize, to: usize) -> (r: (usize, usize))
    requires
        from <= to <= s@.len(),
    ensures
        from <= r.0 <= r.1 <= to,
        s@.subrange(r.0 as int, r.1 as int) == trim(s@.subrange(from as int, to as int)),
{
    let mut a = from;
    while a < to && is_whitespace(s[a])
        invariant
            from <= a <= to <= s@.len(),
            forall|j: int| from <= j < a ==> is_ws(#[trigger] s@[j]),
        decreases to - a,
    {
        a = a + 1;
    }
    let ghost seg = s@.subrange(from as int, to as int);
    proof {
        assert forall|j: int| 0 <= j < a - from implies (ws_pred())(#[trigger] seg[j]) by {
            assert(seg[j] == s@[from + j]);
        }
        if a < to {
            assert(seg[a - from] == s@[a as int]);
        }
        lemma_prefix_len_exact(seg, ws_pred(), a - from);
        assert(trim_start(seg) =~= s@.subrange(a as int, to as int));
    }
    let b = trim_end_index(s, a, to);
    proof {
        let t = s@.subrange(a as int, to as int);
        assert(t.take(t.len() - ws_suffix_len(t)) =~= s@.subrange(a as int, b as int));
    }
    (a, b)
}

/// The characters `s[from..to]` as a new vector.
pub fn slice_chars(s: &Vec<char>, from: usize, to: usize) -> (r: Vec<char>)
    requires
        from <= to <= s@.len(),
    ensures
        r@ == s@.subrange(from as int, to as int),
{
    let mut r: Vec<char> = Vec::new();
    let mut i = from;
    while i < to
        invariant
            from <= i <= to <= s@.len(),
            r@ == s@.subrange(from as int, i as int),
        decreases to - i,
    {
        r.push(s[i]);
        i = i + 1;
        assert(r@ =~= s@.subrange(from as int, i as int));
    }
    r
}

/// Appends `s[from..to]` to `out`.
pub fn push_range(out: &mut Vec<char>, s: &Vec<char>, from: usize, to: usize)
    requires
        from <= to <= s@.len(),
    ensures
        final(out)@ == old(out)@ + s@.subrange(from as int, to as int),
{
    let mut i = from;
    while i < to
        invariant
            from <= i <= to <= s@.len(),
            out@ == old(out)@ + s@.subrange(from as int, i as int),
        decreases to - i,
    {
        out.push(s[i]);
        i = i + 1;
        assert(out@ =~= old(out)@ + s@.subrange(from as int, i as int));
    }
}

/// Appends the characters of `lit` to `out`.
pub fn push_str(out: &mut Vec<char>, lit: &str)
    ensures
        final(out)@ == old(out)@ + lit@,
{
    let n = lit.unicode_len();
    let mut i: usize = 0;
    while i < n
        invariant
            n == lit@.len(),
            i <= n,
            out@ == old(out)@ + lit@.subrange(0, i as int),
        decreases n - i,
    {
        out.push(lit.get_char(i));
        i = i + 1;
        assert(out@ =~= old(out)@ + lit@.subrange(0, i as int));
    }
    assert(lit@.subrange(0, n as int) =~= lit@);
}

/// `s` without leading and trailing whitespace, as a new string.
pub fn trim_str(s: &str) -> (r: String)
    ensures
        r@ == trim(s@),
{
    let v = chars_of(s);
    let (a, b) = trim_range(&v, 0, v.len());
    assert(v@.subrange(0, v@.len() as int) =~= v@);
    let t = slice_chars(&v, a, b);
    string_of(t.as_slice())
}

/// Whether `a` and `b` hold the same characters.
pub fn str_eq(a: &str, b: &str) -> (r: bool)
    ensures
        r == (a@ == b@),
{
    let v = chars_of(a);
    chars_eq_str(v.as_slice(), b)
}

/// A copy of `s`.
pub fn copy_str(s: &str) -> (r: String)
    ensures
        r@ == s@,
{
    let v = chars_of(s);
    string_of(v.as_slice())
}

/// Whether `s` is empty once trimmed.
pub fn is_blank_str(s: &str) -> (r: bool)
    ensures
        r == (trim(s@).len() == 0),
{
    let v = chars_of(s);
    let (a, b) = trim_range(&v, 0, v.len());
    assert(v@.subrange(0, v@.len() as int) =~= v@);
    a == b
}

} // verus!
