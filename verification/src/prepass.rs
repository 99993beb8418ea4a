//! The keyword-backtick pre-pass: lets a layout file be written without the
//! `` ` `` inline-code spans around its leading keywords.
use vstd::prelude::*;
use crate::keywords::{leading_keywords, list_contains, lists_word, spec_leading_keywords};
use crate::text::{
    is_ws, lemma_prefix_len_bounds, lemma_prefix_len_exact, prefix_len, push_range, skip_ws, slice_chars, string_of,
    trim_start, ws_pred, chars_of,
};

verus! {

/// A list-item bullet character.
pub open spec fn is_bullet(c: char) -> bool {
    c == '-' || c == '*' || c == '+'
}

/// An ASCII decimal digit.
pub open spec fn is_digit(c: char) -> bool {
    '0' <= c && c <= '9'
}

/// A space or a tab.
pub open spec fn is_blank(c: char) -> bool {
    c == ' ' || c == '\t'
}

/// Digits as a predicate value.
pub open spec fn digit_pred() -> spec_fn(char) -> bool {
    |c: char| is_digit(c)
}

/// Blanks as a predicate value.
pub open spec fn blank_pred() -> spec_fn(char) -> bool {
    |c: char| is_blank(c)
}

/// Non-blanks as a predicate value.
pub open spec fn non_blank_pred() -> spec_fn(char) -> bool {
    |c: char| !is_blank(c)
}

/// The length of the list-item marker `s` starts with: a bullet `-`/`*`/`+`,
/// or an ordered `12.` / `12)`. `None` if `s` starts with no marker.
pub open spec fn marker_len(s: Seq<char>) -> Option<nat> {
    if s.len() == 0 {
        None
    } else if is_bullet(s[0]) {
        Some(1)
    } else if is_digit(s[0]) {
        let d = prefix_len(s, digit_pred());
        if d < s.len() && (s[d as int] == '.' || s[d as int] == ')') {
            Some(d + 1)
        } else {
            None
        }
    } else {
        None
    }
}

/// The rewrite of one line (without its line break): if the line is a list
/// item whose content does not start with a backtick and whose first word is a
/// leading keyword, that word is wrapped in backticks and everything else is
/// kept verbatim; otherwise `None`.
pub open spec fn backtick_line(line: Seq<char>) -> Option<Seq<char>> {
    let ind = prefix_len(line, ws_pred());
    let after = line.skip(ind as int);
    match marker_len(after) {
        None => None,
        Some(m) => {
            let am = after.skip(m as int);
            if am.len() == 0 || !is_blank(am[0]) {
                None
            } else {
                let content = am.skip(prefix_len(am, blank_pred()) as int);
                if content.len() == 0 || content[0] == '`' {
                    None
                } else {
                    let we = prefix_len(content, non_blank_pred());
                    let word = content.take(we as int);
                    if !lists_word(spec_leading_keywords(), word) {
                        None
                    } else {
                        Some(
                            line.take(line.len() - content.len()) + seq!['`'] + word + seq!['`']
                                + content.skip(we as int),
                        )
                    }
                }
            }
        },
    }
}

/// The index just past the first `'\n'` of `s`, or `s.len()` if it has none.
pub open spec fn line_end(s: Seq<char>) -> nat
    decreases s.len(),
{
    if s.len() == 0 {
        0
    } else if s[0] == '\n' {
        1
    } else {
        1 + line_end(s.drop_first())
    }
}

/// A line (with its break, if any) without the break: a trailing `"\n"` and,
/// before it, one `'\r'` are dropped.
pub open spec fn line_text(line: Seq<char>) -> Seq<char> {
    if line.len() > 0 && line.last() == '\n' {
        let rest = line.drop_last();
        if rest.len() > 0 && rest.last() == '\r' {
            rest.drop_last()
        } else {
            rest
        }
    } else {
        line
    }
}

/// The break of a line (with its break, if any): what follows its text, so
/// `"\r\n"`, `"\n"` or nothing. A rewritten line keeps it.
pub open spec fn line_break(line: Seq<char>) -> Seq<char> {
    if line.len() > 0 && line.last() == '\n' {
        let rest = line.drop_last();
        if rest.len() > 0 && rest.last() == '\r' {
            seq!['\r', '\n']
        } else {
            seq!['\n']
        }
    } else {
        Seq::empty()
    }
}

/// Whether `s` starts with the three characters `c c c`.
pub open spec fn starts_with3(s: Seq<char>, c: char) -> bool {
    s.len() >= 3 && s[0] == c && s[1] == c && s[2] == c
}

/// A line that opens or closes a fenced code block (```` ``` ```` or `~~~`).
pub open spec fn is_fence(text: Seq<char>) -> bool {
    starts_with3(trim_start(text), '`') || starts_with3(trim_start(text), '~')
}

/// The pre-pass over `src`, line by line, with `fenced` telling whether a
/// fenced code block is open. Fence lines toggle it and, like every line in a
/// fenced block, pass through unchanged.
pub open spec fn prepass_from(src: Seq<char>, fenced: bool) -> Seq<char>
    decreases src.len(),
{
    if src.len() == 0 {
        Seq::empty()
    } else {
        proof {
            lemma_line_end(src);
        }
        let e = line_end(src);
        let line = src.take(e as int);
        let rest = src.skip(e as int);
        let text = line_text(line);
        if is_fence(text) {
            line + prepass_from(rest, !fenced)
        } else if fenced {
            line + prepass_from(rest, fenced)
        } else {
            match backtick_line(text) {
                Some(rw) => rw + line_break(line) + prepass_from(rest, fenced),
                None => line + prepass_from(rest, fenced),
            }
        }
    }
}

/// What [`add_missing_keyword_backticks`] makes of a document.
pub open spec fn spec_add_missing_keyword_backticks(src: Seq<char>) -> Seq<char> {
    prepass_from(src, false)
}

pub proof fn lemma_line_end(s: Seq<char>)
    ensures
        s.len() > 0 ==> 0 < line_end(s) <= s.len(),
        forall|j: int| 0 <= j < line_end(s) - 1 ==> #[trigger] s[j] != '\n',
        line_end(s) > 0 && line_end(s) < s.len() ==> s[line_end(s) - 1] == '\n',
        line_end(s) == s.len() && s.len() > 0 && s.last() != '\n' ==> forall|j: int|
            0 <= j < s.len() ==> #[trigger] s[j] != '\n',
    decreases s.len(),
{
    if s.len() > 0 && s[0] != '\n' {
        lemma_line_end(s.drop_first());
        assert forall|j: int| 0 <= j < line_end(s) - 1 implies #[trigger] s[j] != '\n' by {
            if j > 0 {
                assert(s[j] == s.drop_first()[j - 1]);
            }
        }
        if line_end(s) > 0 && line_end(s) < s.len() {
            assert(s[line_end(s) - 1] == s.drop_first()[line_end(s) - 2]);
        }
    }
}

proof fn lemma_line_end_exact(s: Seq<char>, k: int)
    requires
        0 <= k <= s.len(),
        forall|j: int| 0 <= j < k ==> #[trigger] s[j] != '\n',
        k < s.len() ==> s[k] == '\n',
    ensures
        line_end(s) == if k < s.len() { k + 1 } else { k },
    decreases s.len(),
{
    if k > 0 {
        assert forall|j: int| 0 <= j < k - 1 implies #[trigger] s.drop_first()[j] != '\n' by {
            assert(s.drop_first()[j] == s[j + 1]);
        }
        lemma_line_end_exact(s.drop_first(), k - 1);
    }
}

/// Whether `s[from..to]` starts with `c c c` after its leading whitespace.
fn fence_at(s: &Vec<char>, from: usize, to: usize, c: char) -> (r: bool)
    requires
        from <= to <= s@.len(),
    ensures
        r == starts_with3(trim_start(s@.subrange(from as int, to as int)), c),
{
    let seg = slice_chars(s, from, to);
    let k = skip_ws(&seg, 0);
    proof {
        assert(seg@.skip(0) =~= seg@);
    }
    k < seg.len() && seg.len() - k >= 3 && seg[k] == c && seg[k + 1] == c && seg[k + 2] == c
}

/// The length of the list-item marker at `line[ind..]`, if there is one.
fn marker_at(line: &Vec<char>, ind: usize) -> (r: Option<usize>)
    requires
        ind < line@.len(),
    ensures
        match r {
            Some(m) => marker_len(line@.skip(ind as int)) == Some(m as nat) && ind + m
                <= line@.len(),
            None => marker_len(line@.skip(ind as int)) is None,
        },
{
    let ghost after = line@.skip(ind as int);
    let first = line[ind];
    if first == '-' || first == '*' || first == '+' {
        Some(1)
    } else if '0' <= first && first <= '9' {
        let mut d = ind;
        while d < line.len() && '0' <= line[d] && line[d] <= '9'
            invariant
                ind <= d <= line@.len(),
                forall|j: int| ind <= j < d ==> is_digit(#[trigger] line@[j]),
            decreases line@.len() - d,
        {
            d = d + 1;
        }
        proof {
            assert forall|j: int| 0 <= j < d - ind implies (digit_pred())(#[trigger] after[j]) by {
                assert(after[j] == line@[ind + j]);
            }
            if d < line@.len() {
                assert(after[d - ind] == line@[d as int]);
            }
            lemma_prefix_len_exact(after, digit_pred(), d - ind);
        }
        if d < line.len() && (line[d] == '.' || line[d] == ')') {
            assert(after[d - ind] == line@[d as int]);
            Some(d - ind + 1)
        } else {
            None
        }
    } else {
        None
    }
}

/// The rewrite of one line, over characters (see [`backtick_line`]).
#[verifier::rlimit(40)]
fn backtick_chars(line: &Vec<char>, keywords: &Vec<&'static str>) -> (r: Option<Vec<char>>)
    requires
        keywords@ == spec_leading_keywords(),
    ensures
        match r {
            Some(v) => backtick_line(line@) == Some(v@),
            None => backtick_line(line@) is None,
        },
{
    let ind = skip_ws(line, 0);
    proof {
        assert(line@.skip(0) =~= line@);
    }
    let ghost after = line@.skip(ind as int);
    if ind >= line.len() {
        return None;
    }
    let m = match marker_at(line, ind) {
        Some(m) => m,
        None => return None,
    };
    assert(marker_len(after) == Some(m as nat));
    let am_start = ind + m;
    let ghost am = after.skip(m as int);
    assert(am =~= line@.skip(am_start as int));
    if am_start >= line.len() || !(line[am_start] == ' ' || line[am_start] == '\t') {
        return None;
    }
    let mut c = am_start;
    while c < line.len() && (line[c] == ' ' || line[c] == '\t')
        invariant
            am_start <= c <= line@.len(),
            forall|j: int| am_start <= j < c ==> is_blank(#[trigger] line@[j]),
        decreases line@.len() - c,
    {
        c = c + 1;
    }
    proof {
        assert forall|j: int| 0 <= j < c - am_start implies (blank_pred())(#[trigger] am[j]) by {
            assert(am[j] == line@[am_start + j]);
        }
        if c < line@.len() {
            assert(am[c - am_start] == line@[c as int]);
        }
        lemma_prefix_len_exact(am, blank_pred(), c - am_start);
    }
    let ghost content = am.skip(c - am_start);
    assert(content =~= line@.skip(c as int));
    if c >= line.len() || line[c] == '`' {
        return None;
    }
    let mut w = c;
    while w < line.len() && !(line[w] == ' ' || line[w] == '\t')
        invariant
            c <= w <= line@.len(),
            forall|j: int| c <= j < w ==> !is_blank(#[trigger] line@[j]),
        decreases line@.len() - w,
    {
        w = w + 1;
    }
    proof {
        assert forall|j: int| 0 <= j < w - c implies (non_blank_pred())(#[trigger] content[j]) by {
            assert(content[j] == line@[c + j]);
        }
        if w < line@.len() {
            assert(content[w - c] == line@[w as int]);
        }
        lemma_prefix_len_exact(content, non_blank_pred(), w - c);
    }
    let word = slice_chars(line, c, w);
    assert(word@ =~= content.take(w - c));
    if !list_contains(keywords, word.as_slice()) {
        return None;
    }
    let mut out = slice_chars(line, 0, c);
    out.push('`');
    push_range(&mut out, line, c, w);
    out.push('`');
    push_range(&mut out, line, w, line.len());
    proof {
        assert(line@.take(line@.len() - content.len()) =~= line@.subrange(0, c as int));
        assert(content.skip(w - c) =~= line@.subrange(w as int, line@.len() as int));
        assert(out@ =~= line@.take(line@.len() - content.len()) + seq!['`'] + word@ + seq!['`']
            + content.skip(w - c));
    }
    Some(out)
}

/// The line of `src` that starts at `pos`: where its text ends, where the
/// line (with its break) ends, and whether it has a break.
fn line_bounds(src: &Vec<char>, pos: usize) -> (r: (usize, usize, bool))
    requires
        pos < src@.len(),
    ensures
        pos <= r.0 <= r.1 <= src@.len(),
        pos < r.1,
        r.1 - pos == line_end(src@.skip(pos as int)),
        line_text(src@.subrange(pos as int, r.1 as int)) == src@.subrange(pos as int, r.0 as int),
        line_break(src@.subrange(pos as int, r.1 as int)) == src@.subrange(r.0 as int, r.1 as int),
{
    let ghost s = src@.skip(pos as int);
    let mut nl = pos;
    while nl < src.len() && src[nl] != '\n'
        invariant
            pos <= nl <= src@.len(),
            forall|j: int| pos <= j < nl ==> #[trigger] src@[j] != '\n',
        decreases src@.len() - nl,
    {
        nl = nl + 1;
    }
    let e = if nl < src.len() { nl + 1 } else { nl };
    proof {
        assert forall|j: int| 0 <= j < nl - pos implies #[trigger] s[j] != '\n' by {
            assert(s[j] == src@[pos + j]);
        }
        if nl < src@.len() {
            assert(s[nl - pos] == src@[nl as int]);
        }
        lemma_line_end_exact(s, nl - pos);
    }
    let ghost line = src@.subrange(pos as int, e as int);
    let has_break = nl < src.len();
    let mut text_end = nl;
    if has_break && nl > pos && src[nl - 1] == '\r' {
        text_end = nl - 1;
    }
    proof {
        if has_break {
            assert(line.last() == '\n');
            assert(line.drop_last() =~= src@.subrange(pos as int, nl as int));
            if nl > pos {
                assert(line.drop_last().last() == src@[nl - 1]);
            }
            assert(line_break(line) =~= src@.subrange(text_end as int, e as int));
        } else {
            assert(line.last() == src@[nl - 1]);
            assert(line_break(line) =~= src@.subrange(text_end as int, e as int));
        }
        assert(line_text(line) =~= src@.subrange(pos as int, text_end as int));
    }
    (text_end, e, has_break)
}

/// One step of [`prepass_from`]: the line `src[pos..e]`, then the rest.
proof fn lemma_prepass_unfold(src: Seq<char>, pos: int, e: int, fenced: bool)
    requires
        0 <= pos < e <= src.len(),
        e - pos == line_end(src.skip(pos)),
    ensures
        ({
            let line = src.subrange(pos, e);
            let text = line_text(line);
            let rest = prepass_from(src.skip(e), fenced);
            let rest_flip = prepass_from(src.skip(e), !fenced);
            prepass_from(src.skip(pos), fenced) == if is_fence(text) {
                line + rest_flip
            } else if fenced {
                line + rest
            } else {
                match backtick_line(text) {
                    Some(rw) => rw + line_break(line) + rest,
                    None => line + rest,
                }
            }
        }),
{
    let s = src.skip(pos);
    assert(s.take(e - pos) =~= src.subrange(pos, e));
    assert(s.skip(e - pos) =~= src.skip(e));
}

/// The shape of a rewritten line: its prefix (indent, marker and blanks)
/// verbatim, a backtick, the keyword, a backtick, the rest of the line.
proof fn lemma_rewrite_shape(text: Seq<char>)
    requires
        backtick_line(text) is Some,
    ensures
        ({
            let ind = prefix_len(text, ws_pred());
            let after = text.skip(ind as int);
            let m = marker_len(after)->0;
            let am = after.skip(m as int);
            let b = prefix_len(am, blank_pred());
            let content = am.skip(b as int);
            let we = prefix_len(content, non_blank_pred()) as int;
            let plen = (ind + m + b) as int;
            let rw = backtick_line(text)->0;
            &&& 0 < m
            &&& 0 < b
            &&& 0 < we
            &&& plen + we <= text.len()
            &&& ind < text.len()
            &&& forall|j: int| 0 <= j < ind ==> is_ws(#[trigger] text[j])
            &&& is_bullet(text[ind as int]) || is_digit(text[ind as int])
            &&& rw == text.take(plen as int) + seq!['`'] + text.subrange(plen as int, plen + we)
                + seq!['`'] + text.skip(plen + we)
            &&& forall|j: int| ind + m <= j < plen ==> is_blank(#[trigger] text[j])
            &&& marker_len(text.subrange(ind as int, plen as int)) == Some(m)
        }),
{
    let ind = prefix_len(text, ws_pred());
    lemma_prefix_len_bounds(text, ws_pred());
    let after = text.skip(ind as int);
    let m = marker_len(after)->0;
    let am = after.skip(m as int);
    let b = prefix_len(am, blank_pred());
    lemma_prefix_len_bounds(am, blank_pred());
    let content = am.skip(b as int);
    let we = prefix_len(content, non_blank_pred()) as int;
    lemma_prefix_len_bounds(content, non_blank_pred());
    let plen = (ind + m + b) as int;
    assert(after[0] == text[ind as int]);
    assert(content[0] == am[b as int]);
    assert(content =~= text.skip(plen as int));
    assert(content.take(we as int) =~= text.subrange(plen as int, plen + we));
    assert(content.skip(we as int) =~= text.skip(plen + we));
    assert(text.take(text.len() - content.len()) =~= text.take(plen as int));
    assert forall|j: int| ind + m <= j < plen implies is_blank(#[trigger] text[j]) by {
        assert(text[j] == am[j - ind - m]);
    }
    let seg = text.subrange(ind as int, plen as int);
    if is_digit(after[0]) {
        let d = prefix_len(after, digit_pred());
        lemma_prefix_len_bounds(after, digit_pred());
        assert forall|j: int| 0 <= j < d implies (digit_pred())(#[trigger] seg[j]) by {
            assert(seg[j] == after[j]);
        }
        assert(seg[d as int] == after[d as int]);
        lemma_prefix_len_exact(seg, digit_pred(), d as int);
    }
}

/// A rewritten line, read again (with or without a trailing `'\r'` removed),
/// is neither a fence nor rewritten a second time.
proof fn lemma_rewrite_stable(text: Seq<char>, t2: Seq<char>)
    requires
        backtick_line(text) is Some,
        t2 == backtick_line(text)->0 || (backtick_line(text)->0.len() > 0 && t2
            == backtick_line(text)->0.drop_last()),
    ensures
        !is_fence(t2),
        backtick_line(t2) is None,
{
    lemma_rewrite_shape(text);
    let ind = prefix_len(text, ws_pred());
    let after = text.skip(ind as int);
    let m = marker_len(after)->0;
    let am = after.skip(m as int);
    let b = prefix_len(am, blank_pred());
    let content = am.skip(b as int);
    let we = prefix_len(content, non_blank_pred()) as int;
    let plen = (ind + m + b) as int;
    let rw = backtick_line(text)->0;
    assert(rw.len() == plen + we + 2 + (text.len() - plen - we));
    assert forall|j: int| 0 <= j < plen implies #[trigger] t2[j] == text[j] by {
        assert(rw[j] == text[j]);
    }
    assert(t2[plen as int] == '`') by {
        assert(rw[plen as int] == '`');
    }
    // the indent is unchanged
    assert forall|j: int| 0 <= j < ind implies (ws_pred())(#[trigger] t2[j]) by {
        assert(t2[j] == text[j]);
    }
    assert(t2[ind as int] == text[ind as int]);
    lemma_prefix_len_exact(t2, ws_pred(), ind as int);
    let after2 = t2.skip(ind as int);
    assert(trim_start(t2) == after2);
    assert(after2[0] == text[ind as int]);
    // the marker is unchanged
    let seg = text.subrange(ind as int, plen as int);
    assert(after2.take((plen - ind) as int) =~= seg) by {
        assert forall|j: int| 0 <= j < plen - ind implies after2[j] == seg[j] by {
            assert(after2[j] == t2[ind + j]);
        }
    }
    assert(after2[(plen - ind) as int] == '`');
    if is_digit(after2[0]) {
        let d = prefix_len(seg, digit_pred());
        lemma_prefix_len_bounds(seg, digit_pred());
        assert forall|j: int| 0 <= j < d implies (digit_pred())(#[trigger] after2[j]) by {
            assert(after2[j] == seg[j]);
        }
        assert(after2[d as int] == seg[d as int]);
        lemma_prefix_len_exact(after2, digit_pred(), d as int);
    }
    assert(marker_len(after2) == Some(m));
    // the blanks are unchanged and are followed by the backtick
    let am2 = after2.skip(m as int);
    assert(am2[0] == t2[(ind + m) as int]);
    assert forall|j: int| 0 <= j < b implies (blank_pred())(#[trigger] am2[j]) by {
        assert(am2[j] == t2[(ind + m) as int + j]);
    }
    assert(am2[b as int] == t2[plen as int]);
    lemma_prefix_len_exact(am2, blank_pred(), b as int);
    assert(am2.skip(b as int)[0] == '`');
}

/// A rewritten line holds no line break when the line it came from held none.
proof fn lemma_rewrite_no_break(text: Seq<char>)
    requires
        backtick_line(text) is Some,
        forall|j: int| 0 <= j < text.len() ==> #[trigger] text[j] != '\n',
    ensures
        forall|j: int| 0 <= j < backtick_line(text)->0.len() ==> #[trigger] backtick_line(
            text,
        )->0[j] != '\n',
{
    lemma_rewrite_shape(text);
    let ind = prefix_len(text, ws_pred());
    let after = text.skip(ind as int);
    let m = marker_len(after)->0;
    let am = after.skip(m as int);
    let b = prefix_len(am, blank_pred());
    let content = am.skip(b as int);
    let we = prefix_len(content, non_blank_pred()) as int;
    let plen = (ind + m + b) as int;
    let rw = backtick_line(text)->0;
    assert forall|j: int| 0 <= j < rw.len() implies #[trigger] rw[j] != '\n' by {
        if j < plen {
            assert(rw[j] == text[j]);
        } else if j == plen {
        } else if j < plen + 1 + we {
            assert(rw[j] == text[j - 1]);
        } else if j == plen + 1 + we {
        } else {
            assert(rw[j] == text[j - 2]);
        }
    }
}

/// Reading `piece + rest` takes `piece` as its first line when `piece` holds
/// a line break only at its end, and ends in one unless `rest` is empty.
proof fn lemma_first_line(piece: Seq<char>, rest: Seq<char>)
    requires
        piece.len() > 0,
        forall|j: int| 0 <= j < piece.len() - 1 ==> #[trigger] piece[j] != '\n',
        piece.last() == '\n' || rest.len() == 0,
    ensures
        line_end(piece + rest) == piece.len(),
        (piece + rest).take(piece.len() as int) == piece,
        (piece + rest).skip(piece.len() as int) == rest,
{
    let s = piece + rest;
    if piece.last() == '\n' {
        assert forall|j: int| 0 <= j < piece.len() - 1 implies #[trigger] s[j] != '\n' by {
            assert(s[j] == piece[j]);
        }
        assert(s[piece.len() - 1] == piece.last());
        lemma_line_end_exact(s, piece.len() - 1);
    } else {
        assert(s =~= piece);
        assert forall|j: int| 0 <= j < piece.len() implies #[trigger] s[j] != '\n' by {
            assert(s[j] == piece[j]);
        }
        lemma_line_end_exact(s, piece.len() as int);
    }
    assert(s.take(piece.len() as int) =~= piece);
    assert(s.skip(piece.len() as int) =~= rest);
}

/// The pre-pass changes nothing in a document it has already processed.
pub proof fn lemma_prepass_from_idempotent(src: Seq<char>, fenced: bool)
    ensures
        prepass_from(prepass_from(src, fenced), fenced) == prepass_from(src, fenced),
    decreases src.len(),
{
    if src.len() > 0 {
        lemma_line_end(src);
        let e = line_end(src);
        let line = src.take(e as int);
        let rest = src.skip(e as int);
        let text = line_text(line);
        assert forall|j: int| 0 <= j < line.len() - 1 implies #[trigger] line[j] != '\n' by {
            assert(line[j] == src[j]);
        }
        if e < src.len() {
            assert(line.last() == src[e - 1]);
        }
        assert forall|j: int| 0 <= j < text.len() implies #[trigger] text[j] != '\n' by {
            assert(text[j] == line[j]);
        }
        let next = if is_fence(text) {
            !fenced
        } else {
            fenced
        };
        lemma_prepass_from_idempotent(rest, next);
        let out_rest = prepass_from(rest, next);
        if is_fence(text) || fenced || backtick_line(text) is None {
            lemma_first_line(line, out_rest);
        } else {
            let rw = backtick_line(text)->0;
            let piece = rw + line_break(line);
            lemma_rewrite_no_break(text);
            lemma_rewrite_shape(text);
            let br = line_break(line);
            assert forall|j: int| 0 <= j < piece.len() - 1 implies #[trigger] piece[j] != '\n' by {
                if j < rw.len() {
                    assert(piece[j] == rw[j]);
                } else {
                    assert(piece[j] == br[j - rw.len()]);
                }
            }
            if line.len() > 0 && line.last() == '\n' {
                assert(piece.last() == '\n');
                if br.len() == 2 {
                    assert(piece.drop_last() =~= rw.push('\r'));
                    assert(piece.drop_last().drop_last() =~= rw);
                    assert(line_text(piece) == rw);
                } else {
                    assert(piece.drop_last() =~= rw);
                }
                lemma_rewrite_stable(text, line_text(piece));
            } else {
                assert(piece =~= rw);
                assert(rest.len() == 0);
                assert(rw.len() == 0 || rw.last() != '\n');
                lemma_rewrite_stable(text, line_text(piece));
            }
            assert(piece + out_rest == prepass_from(src, fenced));
            lemma_first_line(piece, out_rest);
        }
    }
}

/// Running the pre-pass over its own output changes nothing: it is a no-op on
/// a document whose leading keywords are already backticked.
pub proof fn lemma_add_missing_keyword_backticks_idempotent(src: Seq<char>)
    ensures
        spec_add_missing_keyword_backticks(spec_add_missing_keyword_backticks(src))
            == spec_add_missing_keyword_backticks(src),
{
    lemma_prepass_from_idempotent(src, false);
}

/// `s` without its backticks.
pub open spec fn untick(s: Seq<char>) -> Seq<char>
    decreases s.len(),
{
    if s.len() == 0 {
        Seq::empty()
    } else if s[0] == '`' {
        untick(s.drop_first())
    } else {
        seq![s[0]] + untick(s.drop_first())
    }
}

/// Removing backticks goes piece by piece.
pub proof fn lemma_untick_add(a: Seq<char>, b: Seq<char>)
    ensures
        untick(a + b) == untick(a) + untick(b),
    decreases a.len(),
{
    if a.len() == 0 {
        assert(a + b =~= b);
        assert(untick(a) =~= Seq::<char>::empty());
        assert(Seq::<char>::empty() + untick(b) =~= untick(b));
    } else {
        assert((a + b)[0] == a[0]);
        assert((a + b).drop_first() =~= a.drop_first() + b);
        lemma_untick_add(a.drop_first(), b);
        assert(seq![a[0]] + (untick(a.drop_first()) + untick(b)) =~= (seq![a[0]] + untick(a.drop_first()))
            + untick(b));
    }
}

proof fn lemma_untick_tick()
    ensures
        untick(seq!['`']) == Seq::<char>::empty(),
{
    assert(seq!['`'][0] == '`');
    assert(seq!['`'].drop_first() =~= Seq::<char>::empty());
    assert(untick(Seq::<char>::empty()) == Seq::<char>::empty());
}

/// A rewritten line is its line with exactly two backticks added around the
/// keyword and nothing else changed, and it is not rewritten again.
pub proof fn lemma_backtick_line(line: Seq<char>)
    requires
        backtick_line(line) is Some,
    ensures
        backtick_line(line)->0.len() == line.len() + 2,
        untick(backtick_line(line)->0) == untick(line),
        backtick_line(backtick_line(line)->0) is None,
        !is_fence(backtick_line(line)->0),
{
    lemma_rewrite_shape(line);
    lemma_rewrite_stable(line, backtick_line(line)->0);
    let ind = prefix_len(line, ws_pred());
    let after = line.skip(ind as int);
    let m = marker_len(after)->0;
    let am = after.skip(m as int);
    let b = prefix_len(am, blank_pred());
    let content = am.skip(b as int);
    let we = prefix_len(content, non_blank_pred()) as int;
    let plen = (ind + m + b) as int;
    let p = line.take(plen as int);
    let w = line.subrange(plen as int, plen + we);
    let r = line.skip(plen + we);
    let t = seq!['`'];
    assert(line =~= p + w + r);
    lemma_untick_tick();
    lemma_untick_add(p, t);
    lemma_untick_add(p + t, w);
    lemma_untick_add(p + t + w, t);
    lemma_untick_add(p + t + w + t, r);
    lemma_untick_add(p, w);
    lemma_untick_add(p + w, r);
    assert(untick(p) + Seq::<char>::empty() =~= untick(p));
    assert(untick(p) + untick(w) + Seq::<char>::empty() =~= untick(p) + untick(w));
}

/// A `- ` item whose first word `w` is a leading keyword, not already
/// backticked, is rewritten to ``- `w` `` followed by the rest of the line.
pub proof fn lemma_backtick_keyword_item(w: Seq<char>, rest: Seq<char>)
    requires
        lists_word(spec_leading_keywords(), w),
        w.len() > 0,
        w[0] != '`',
        forall|j: int| 0 <= j < w.len() ==> !is_blank(#[trigger] w[j]),
        rest.len() == 0 || is_blank(rest[0]),
    ensures
        backtick_line(seq!['-', ' '] + w + rest) == Some(
            seq!['-', ' ', '`'] + w + seq!['`'] + rest,
        ),
{
    let line = seq!['-', ' '] + w + rest;
    lemma_prefix_len_exact(line, ws_pred(), 0);
    let after = line.skip(0);
    assert(after =~= line);
    assert(marker_len(after) == Some(1nat));
    let am = after.skip(1);
    assert(am =~= seq![' '] + w + rest);
    lemma_prefix_len_exact(am, blank_pred(), 1);
    let content = am.skip(1);
    assert(content =~= w + rest);
    assert(content[0] == w[0]);
    assert forall|j: int| 0 <= j < w.len() implies (#[trigger] non_blank_pred()(content[j])) by {
        assert(content[j] == w[j]);
    }
    if (w.len() < content.len()) {
        assert(content[w.len() as int] == rest[0]);
    }
    lemma_prefix_len_exact(content, non_blank_pred(), w.len() as int);
    assert(content.take(w.len() as int) =~= w);
    assert(content.skip(w.len() as int) =~= rest);
    assert(line.take(line.len() - content.len()) =~= seq!['-', ' ']);
    assert(seq!['-', ' '] + seq!['`'] + w + seq!['`'] + rest =~= seq!['-', ' ', '`'] + w + seq!['`']
        + rest);
}

/// How many lines of `src` the pre-pass rewrites (see [`prepass_from`]).
pub open spec fn rewritten_lines(src: Seq<char>, fenced: bool) -> nat
    decreases src.len(),
{
    if src.len() == 0 {
        0
    } else {
        proof {
            lemma_line_end(src);
        }
        let e = line_end(src);
        let text = line_text(src.take(e as int));
        let rest = src.skip(e as int);
        if is_fence(text) {
            rewritten_lines(rest, !fenced)
        } else if fenced || backtick_line(text) is None {
            rewritten_lines(rest, fenced)
        } else {
            1 + rewritten_lines(rest, fenced)
        }
    }
}

/// A line, as its text and its break.
proof fn lemma_line_parts(line: Seq<char>)
    ensures
        line == line_text(line) + line_break(line),
{
    if line.len() > 0 && line.last() == '\n' {
        let rest = line.drop_last();
        if rest.len() > 0 && rest.last() == '\r' {
            assert(line =~= rest.drop_last() + seq!['\r', '\n']);
        } else {
            assert(line =~= rest + seq!['\n']);
        }
    } else {
        assert(line =~= line + Seq::<char>::empty());
    }
}

/// The pre-pass only adds backticks: two around the keyword of each
/// rewritten line, every other character (line breaks included) kept in
/// place.
pub proof fn lemma_prepass_only_adds_backticks(src: Seq<char>, fenced: bool)
    ensures
        untick(prepass_from(src, fenced)) == untick(src),
        prepass_from(src, fenced).len() == src.len() + 2 * rewritten_lines(src, fenced),
    decreases src.len(),
{
    if src.len() > 0 {
        lemma_line_end(src);
        let e = line_end(src);
        let line = src.take(e as int);
        let rest = src.skip(e as int);
        let text = line_text(line);
        assert(src =~= line + rest);
        lemma_untick_add(line, rest);
        let next = if is_fence(text) {
            !fenced
        } else {
            fenced
        };
        lemma_prepass_only_adds_backticks(rest, next);
        let out_rest = prepass_from(rest, next);
        if is_fence(text) || fenced || backtick_line(text) is None {
            lemma_untick_add(line, out_rest);
        } else {
            let rw = backtick_line(text)->0;
            let br = line_break(line);
            lemma_backtick_line(text);
            lemma_line_parts(line);
            lemma_untick_add(text, br);
            lemma_untick_add(rw, br);
            lemma_untick_add(rw + br, out_rest);
        }
    }
}

/// What the pre-pass does to a whole document (see
/// [`lemma_prepass_only_adds_backticks`]).
pub proof fn lemma_add_missing_keyword_backticks_only_adds_backticks(src: Seq<char>)
    ensures
        untick(spec_add_missing_keyword_backticks(src)) == untick(src),
        spec_add_missing_keyword_backticks(src).len() == src.len() + 2 * rewritten_lines(src, false),
{
    lemma_prepass_only_adds_backticks(src, false);
}

/// The per-line worker of [`add_missing_keyword_backticks`]: the rewritten
/// line if `line` is a list item whose first word is a leading keyword and is
/// not already backticked, otherwise `None` (leave the line as it is).
pub fn backtick_leading_keyword(line: &str) -> (r: Option<String>)
    ensures
        match r {
            Some(s) => backtick_line(line@) == Some(s@),
            None => backtick_line(line@) is None,
        },
{
    let chars = chars_of(line);
    let keywords = leading_keywords();
    match backtick_chars(&chars, &keywords) {
        Some(v) => Some(string_of(v.as_slice())),
        None => None,
    }
}

/// Pre-parsing pass: lets a layout file be written without the `` ` ``
/// inline-code spans around keywords. Walks the source line by line and, for
/// any list item whose first word is a leading keyword, wraps that word in
/// backticks before the text is handed to the markdown parser.
///
/// Lines of fenced code blocks pass through unchanged, and so does an item
/// whose content already starts with a backtick, so the pass can run on any
/// file and both styles can be mixed in one file.
pub fn add_missing_keyword_backticks(source: &str) -> (r: String)
    ensures
        r@ == spec_add_missing_keyword_backticks(source@),
{
    let src = chars_of(source);
    let keywords = leading_keywords();
    let mut out: Vec<char> = Vec::new();
    let mut fenced = false;
    let mut pos: usize = 0;
    assert(src@.skip(0) =~= src@);
    assert(out@ + prepass_from(src@, false) =~= prepass_from(src@, false));
    while pos < src.len()
        invariant
            pos <= src@.len(),
            keywords@ == spec_leading_keywords(),
            out@ + prepass_from(src@.skip(pos as int), fenced) == prepass_from(src@, false),
        decreases src@.len() - pos,
    {
        let (text_end, e, has_break) = line_bounds(&src, pos);
        let ghost line = src@.subrange(pos as int, e as int);
        proof {
            lemma_prepass_unfold(src@, pos as int, e as int, fenced);
        }
        let fence = fence_at(&src, pos, text_end, '`') || fence_at(&src, pos, text_end, '~');
        if fence {
            fenced = !fenced;
            push_range(&mut out, &src, pos, e);
        } else if fenced {
            push_range(&mut out, &src, pos, e);
        } else {
            let text = slice_chars(&src, pos, text_end);
            match backtick_chars(&text, &keywords) {
                Some(rw) => {
                    push_range(&mut out, &rw, 0, rw.len());
                    assert(rw@.subrange(0, rw@.len() as int) =~= rw@);
                    push_range(&mut out, &src, text_end, e);
                },
                None => {
                    push_range(&mut out, &src, pos, e);
                },
            }
        }
        pos = e;
    }
    string_of(out.as_slice())
}

} // verus!
