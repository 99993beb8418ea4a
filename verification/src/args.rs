//! Reading the arguments of a layout keyword out of the markdown paragraph
//! that holds it: `` `keyword` value ``, `` `keyword` *binding* ``, anchor
//! words, index arguments and `[u1, v1, u2, v2]` rectangles.
use vstd::prelude::*;
use crate::calc::{first_index, find_char};
use crate::ir::{DataSrc, DataSrcV};
use crate::literals::{
    is_float_literal, parse_u16, parse_i16, parse_bool, float_range, u16_range, i16_range, bool_range,
};
use crate::md::{MdKind, MdKindV, MdNode, MdTree};
use crate::text::{
    chars_of, trim, trim_str, str_eq, is_ws, prefix_len, trim_start, skip_ws, trim_range, slice_chars,
    string_of, lemma_prefix_len_exact,
};

verus! {

/// Child `i` of `t`, if there is one.
pub open spec fn child(t: MdTree, i: int) -> Option<MdTree> {
    if 0 <= i < t.children.len() {
        Some(t.children[i])
    } else {
        None
    }
}

/// The literal of a text node.
pub open spec fn text_of(o: Option<MdTree>) -> Option<Seq<char>> {
    match o {
        Some(n) => match n.kind {
            MdKindV::Text(s) => Some(s),
            _ => None,
        },
        None => None,
    }
}

/// The literal of an inline-code node.
pub open spec fn code_of(o: Option<MdTree>) -> Option<Seq<char>> {
    match o {
        Some(n) => match n.kind {
            MdKindV::InlineCode(s) => Some(s),
            _ => None,
        },
        None => None,
    }
}

/// The text of an emphasis node whose first child is text.
pub open spec fn emph_text(o: Option<MdTree>) -> Option<Seq<char>> {
    match o {
        Some(n) => if n.kind is Emphasis {
            text_of(child(n, 0))
        } else {
            None
        },
        None => None,
    }
}

/// `o`, trimmed.
pub open spec fn trim_opt(o: Option<Seq<char>>) -> Option<Seq<char>> {
    match o {
        Some(s) => Some(trim(s)),
        None => None,
    }
}

/// A keyword's dynamic argument: `` `keyword` *name* `` names a binding.
pub open spec fn dyn_arg(p: MdTree) -> Option<Seq<char>> {
    trim_opt(emph_text(child(p, 2)))
}

/// A keyword's literal argument: the text right after the keyword.
pub open spec fn static_arg(p: MdTree) -> Option<Seq<char>> {
    trim_opt(text_of(child(p, 1)))
}

/// A keyword's argument as a name, a text or a colour (whose text is read
/// where it is used): a binding, else the literal.
pub open spec fn text_arg(p: MdTree) -> Option<DataSrcV<Seq<char>>> {
    match dyn_arg(p) {
        Some(n) => Some(DataSrcV::Dynamic(n)),
        None => match static_arg(p) {
            Some(t) => Some(DataSrcV::Static(t)),
            None => None,
        },
    }
}

/// A keyword's numeric argument: a binding, else a literal that reads as a
/// float.
pub open spec fn float_arg(p: MdTree) -> Option<DataSrcV<Seq<char>>> {
    match dyn_arg(p) {
        Some(n) => Some(DataSrcV::Dynamic(n)),
        None => match static_arg(p) {
            Some(t) => if is_float_literal(t) {
                Some(DataSrcV::Static(t))
            } else {
                None
            },
            None => None,
        },
    }
}

/// A keyword's `u16` argument: a binding, else a literal that reads as one.
pub open spec fn u16_arg(p: MdTree) -> Option<DataSrcV<u16>> {
    match dyn_arg(p) {
        Some(n) => Some(DataSrcV::Dynamic(n)),
        None => match static_arg(p) {
            Some(t) => match parse_u16(t) {
                Some(v) => Some(DataSrcV::Static(v)),
                None => None,
            },
            None => None,
        },
    }
}

/// A keyword's `i16` argument: a binding, else a literal that reads as one.
pub open spec fn i16_arg(p: MdTree) -> Option<DataSrcV<i16>> {
    match dyn_arg(p) {
        Some(n) => Some(DataSrcV::Dynamic(n)),
        None => match static_arg(p) {
            Some(t) => match parse_i16(t) {
                Some(v) => Some(DataSrcV::Static(v)),
                None => None,
            },
            None => None,
        },
    }
}

/// The model of an optional node reference.
pub open spec fn opt_tree(o: Option<&MdNode>) -> Option<MdTree> {
    match o {
        Some(n) => Some(n.model()),
        None => None,
    }
}

/// The model of an optional string.
pub open spec fn opt_chars(o: Option<String>) -> Option<Seq<char>> {
    match o {
        Some(s) => Some(s@),
        None => None,
    }
}

/// The model of a node's child.
pub proof fn lemma_child_model(t: &MdNode, i: int)
    requires
        0 <= i < t.children@.len(),
    ensures
        t.model().children.len() == t.children@.len(),
        t.model().children[i] == t.children@[i].model(),
{
}

/// Child `i` of `t`, if there is one.
pub fn child_at(t: &MdNode, i: usize) -> (r: Option<&MdNode>)
    ensures
        opt_tree(r) == child(t.model(), i as int),
        match r {
            Some(n) => i < t.children@.len() && *n == t.children@[i as int],
            None => i >= t.children@.len(),
        },
{
    if i < t.children.len() {
        proof {
            lemma_child_model(t, i as int);
        }
        Some(&t.children[i])
    } else {
        None
    }
}

/// The literal of `o`, if it is a text node.
pub fn text_node(o: Option<&MdNode>) -> (r: Option<String>)
    ensures
        opt_chars(r) == text_of(opt_tree(o)),
{
    match o {
        Some(n) => match &n.kind {
            MdKind::Text(s) => Some(s.clone()),
            _ => None,
        },
        None => None,
    }
}

/// The literal of `o`, if it is an inline-code node.
pub fn code_node(o: Option<&MdNode>) -> (r: Option<String>)
    ensures
        opt_chars(r) == code_of(opt_tree(o)),
{
    match o {
        Some(n) => match &n.kind {
            MdKind::InlineCode(s) => Some(s.clone()),
            _ => None,
        },
        None => None,
    }
}

/// The text of `o`, if it is an emphasis whose first child is text.
pub fn emph_node(o: Option<&MdNode>) -> (r: Option<String>)
    ensures
        opt_chars(r) == emph_text(opt_tree(o)),
{
    match o {
        Some(n) => match &n.kind {
            MdKind::Emphasis => text_node(child_at(n, 0)),
            _ => None,
        },
        None => None,
    }
}

/// `o`, trimmed.
pub fn trim_option(o: Option<String>) -> (r: Option<String>)
    ensures
        opt_chars(r) == trim_opt(opt_chars(o)),
{
    match o {
        Some(s) => Some(trim_str(s.as_str())),
        None => None,
    }
}

/// Whether `s` reads as an `f32`.
pub fn is_float_str(s: &str) -> (r: bool)
    ensures
        r == is_float_literal(s@),
{
    let v = chars_of(s);
    assert(v@.subrange(0, v@.len() as int) =~= v@);
    float_range(&v, 0, v.len())
}

/// `s` read as a `u16`.
pub fn u16_str(s: &str) -> (r: Option<u16>)
    ensures
        r == parse_u16(s@),
{
    let v = chars_of(s);
    assert(v@.subrange(0, v@.len() as int) =~= v@);
    u16_range(&v, 0, v.len())
}

/// `s` read as an `i16`.
pub fn i16_str(s: &str) -> (r: Option<i16>)
    ensures
        r == parse_i16(s@),
{
    let v = chars_of(s);
    assert(v@.subrange(0, v@.len() as int) =~= v@);
    i16_range(&v, 0, v.len())
}

/// `s` read as a `bool`.
pub fn bool_str(s: &str) -> (r: Option<bool>)
    ensures
        r == parse_bool(s@),
{
    let v = chars_of(s);
    assert(v@.subrange(0, v@.len() as int) =~= v@);
    bool_range(&v, 0, v.len())
}

/// The dynamic argument of the keyword paragraph `p`.
pub fn dyn_arg_of(p: &MdNode) -> (r: Option<String>)
    ensures
        opt_chars(r) == dyn_arg(p.model()),
{
    trim_option(emph_node(child_at(p, 2)))
}

/// The literal argument of the keyword paragraph `p`.
pub fn static_arg_of(p: &MdNode) -> (r: Option<String>)
    ensures
        opt_chars(r) == static_arg(p.model()),
{
    trim_option(text_node(child_at(p, 1)))
}

/// The argument of `p` as a name, a text or a colour.
pub fn text_arg_of(p: &MdNode) -> (r: Option<DataSrc<String>>)
    ensures
        r.deep_view() == text_arg(p.model()),
{
    match dyn_arg_of(p) {
        Some(n) => Some(DataSrc::Dynamic(n)),
        None => match static_arg_of(p) {
            Some(t) => Some(DataSrc::Static(t)),
            None => None,
        },
    }
}

/// The numeric argument of `p`.
pub fn float_arg_of(p: &MdNode) -> (r: Option<DataSrc<String>>)
    ensures
        r.deep_view() == float_arg(p.model()),
{
    match dyn_arg_of(p) {
        Some(n) => Some(DataSrc::Dynamic(n)),
        None => match static_arg_of(p) {
            Some(t) => if is_float_str(t.as_str()) {
                Some(DataSrc::Static(t))
            } else {
                None
            },
            None => None,
        },
    }
}

/// The `u16` argument of `p`.
pub fn u16_arg_of(p: &MdNode) -> (r: Option<DataSrc<u16>>)
    ensures
        r.deep_view() == u16_arg(p.model()),
{
    match dyn_arg_of(p) {
        Some(n) => Some(DataSrc::Dynamic(n)),
        None => match static_arg_of(p) {
            Some(t) => match u16_str(t.as_str()) {
                Some(v) => Some(DataSrc::Static(v)),
                None => None,
            },
            None => None,
        },
    }
}

/// The `i16` argument of `p`.
pub fn i16_arg_of(p: &MdNode) -> (r: Option<DataSrc<i16>>)
    ensures
        r.deep_view() == i16_arg(p.model()),
{
    match dyn_arg_of(p) {
        Some(n) => Some(DataSrc::Dynamic(n)),
        None => match static_arg_of(p) {
            Some(t) => match i16_str(t.as_str()) {
                Some(v) => Some(DataSrc::Static(v)),
                None => None,
            },
            None => None,
        },
    }
}

/// The fraction of a box that anchor code `c` stands for (`0.0`, `0.5` or
/// `1.0`).
pub open spec fn frac_text(c: u8) -> Seq<char> {
    if c == 0 {
        "0.0"@
    } else if c == 1 {
        "0.5"@
    } else {
        "1.0"@
    }
}

/// The horizontal anchor code of a word.
pub open spec fn x_anchor(w: Seq<char>) -> Option<u8> {
    if w == "left"@ {
        Some(0u8)
    } else if w == "center"@ {
        Some(1u8)
    } else if w == "right"@ {
        Some(2u8)
    } else {
        None
    }
}

/// The vertical anchor code of a word.
pub open spec fn y_anchor(w: Seq<char>) -> Option<u8> {
    if w == "top"@ {
        Some(0u8)
    } else if w == "center"@ {
        Some(1u8)
    } else if w == "bottom"@ {
        Some(2u8)
    } else {
        None
    }
}

/// An anchor argument (`center`, or `<top|center|bottom>-<left|center|right>`)
/// as the codes of its `(x, y)` fractions.
pub open spec fn anchor_arg(p: MdTree) -> Option<(u8, u8)> {
    match static_arg(p) {
        None => None,
        Some(word) => if word == "center"@ {
            Some((1u8, 1u8))
        } else {
            match first_index(word, '-') {
                None => None,
                Some(k) => match (x_anchor(word.skip(k + 1)), y_anchor(word.take(k))) {
                    (Some(x), Some(y)) => Some((x, y)),
                    _ => None,
                },
            }
        },
    }
}

/// The fraction text of anchor code `c`.
pub fn frac_string(c: u8) -> (r: String)
    ensures
        r@ == frac_text(c),
{
    if c == 0 {
        "0.0".to_owned()
    } else if c == 1 {
        "0.5".to_owned()
    } else {
        "1.0".to_owned()
    }
}

fn x_anchor_of(w: &str) -> (r: Option<u8>)
    ensures
        r == x_anchor(w@),
{
    if str_eq(w, "left") {
        Some(0)
    } else if str_eq(w, "center") {
        Some(1)
    } else if str_eq(w, "right") {
        Some(2)
    } else {
        None
    }
}

fn y_anchor_of(w: &str) -> (r: Option<u8>)
    ensures
        r == y_anchor(w@),
{
    if str_eq(w, "top") {
        Some(0)
    } else if str_eq(w, "center") {
        Some(1)
    } else if str_eq(w, "bottom") {
        Some(2)
    } else {
        None
    }
}

/// The anchor argument of the keyword paragraph `p`.
pub fn anchor_arg_of(p: &MdNode) -> (r: Option<(u8, u8)>)
    ensures
        r == anchor_arg(p.model()),
{
    let word = match static_arg_of(p) {
        Some(w) => w,
        None => return None,
    };
    if str_eq(word.as_str(), "center") {
        return Some((1, 1));
    }
    let v = chars_of(word.as_str());
    let n = v.len();
    assert(v@.subrange(0, n as int) =~= v@);
    match find_char(&v, 0, n, '-') {
        None => None,
        Some(k) => {
            let vy = string_of(slice_chars(&v, 0, k).as_slice());
            let vx = string_of(slice_chars(&v, k + 1, n).as_slice());
            assert(vy@ =~= v@.take(k as int));
            assert(vx@ =~= v@.skip(k + 1));
            match (x_anchor_of(vx.as_str()), y_anchor_of(vy.as_str())) {
                (Some(x), Some(y)) => Some((x, y)),
                _ => None,
            }
        },
    }
}

/// An index argument (`item`, `if-index`): a literal number, else the name
/// of a binding.
pub open spec fn index_arg(arg: Seq<char>) -> DataSrcV<Seq<char>> {
    if is_float_literal(arg) {
        DataSrcV::Static(arg)
    } else {
        DataSrcV::Dynamic(trim(arg))
    }
}

/// The index argument `arg`.
pub fn parse_index_arg(arg: &str) -> (r: DataSrc<String>)
    ensures
        r.deep_view() == index_arg(arg@),
{
    if is_float_str(arg) {
        DataSrc::Static(arg.to_owned())
    } else {
        DataSrc::Dynamic(trim_str(arg))
    }
}

/// The comma-separated parts of `s`, each trimmed, if every one reads as a
/// float.
pub open spec fn float_parts(s: Seq<char>) -> Option<Seq<Seq<char>>>
    decreases s.len(),
{
    match first_index(s, ',') {
        None => if is_float_literal(trim(s)) {
            Some(seq![trim(s)])
        } else {
            None
        },
        Some(i) => if 0 <= i < s.len() && is_float_literal(trim(s.take(i))) {
            match float_parts(s.skip(i + 1)) {
                Some(rest) => Some(seq![trim(s.take(i))] + rest),
                None => None,
            }
        } else {
            None
        },
    }
}

/// A `[u1, v1, u2, v2]` rectangle: exactly four numbers, whitespace around
/// and inside the brackets ignored.
pub open spec fn uv_rect(raw: Seq<char>) -> Option<Seq<Seq<char>>> {
    let t = trim(raw);
    if t.len() >= 2 && t[0] == '[' && t.last() == ']' {
        match float_parts(t.subrange(1, t.len() - 1)) {
            Some(ps) => if ps.len() == 4 {
                Some(ps)
            } else {
                None
            },
            None => None,
        }
    } else {
        None
    }
}

/// The models of a list of strings.
pub open spec fn strs(v: Seq<String>) -> Seq<Seq<char>> {
    Seq::new(v.len(), |i: int| v[i]@)
}

fn float_parts_range(v: &Vec<char>, from: usize, to: usize) -> (r: Option<Vec<String>>)
    requires
        from <= to <= v@.len(),
    ensures
        match r {
            Some(ps) => float_parts(v@.subrange(from as int, to as int)) == Some(strs(ps@)),
            None => float_parts(v@.subrange(from as int, to as int)) is None,
        },
{
    let mut out: Vec<String> = Vec::new();
    let mut p = from;
    loop
        invariant
            from <= p <= to <= v@.len(),
            float_parts(v@.subrange(from as int, to as int)) == match float_parts(
                v@.subrange(p as int, to as int),
            ) {
                Some(rest) => Some(strs(out@) + rest),
                None => None::<Seq<Seq<char>>>,
            },
        decreases to - p,
    {
        let ghost seg = v@.subrange(p as int, to as int);
        let ghost before = strs(out@);
        match find_char(v, p, to, ',') {
            None => {
                let (a, b) = trim_range(v, p, to);
                if !float_range(v, a, b) {
                    return None;
                }
                out.push(string_of(slice_chars(v, a, b).as_slice()));
                assert(strs(out@) =~= before + seq![trim(seg)]);
                return Some(out);
            },
            Some(i) => {
                assert(seg.take(i - p) =~= v@.subrange(p as int, i as int));
                let (a, b) = trim_range(v, p, i);
                if !float_range(v, a, b) {
                    return None;
                }
                out.push(string_of(slice_chars(v, a, b).as_slice()));
                let ghost part = trim(seg.take(i - p));
                assert(strs(out@) =~= before + seq![part]);
                assert(seg.skip(i - p + 1) =~= v@.subrange(i + 1, to as int));
                proof {
                    match float_parts(v@.subrange(i + 1, to as int)) {
                        Some(rest) => {
                            assert(before + (seq![part] + rest) =~= strs(out@) + rest);
                        },
                        None => {},
                    }
                }
                p = i + 1;
            },
        }
    }
}

/// The rectangle `raw` holds, as its four coordinate texts.
pub fn parse_uv_rect(raw: &str) -> (r: Option<Vec<String>>)
    ensures
        match r {
            Some(ps) => uv_rect(raw@) == Some(strs(ps@)),
            None => uv_rect(raw@) is None,
        },
{
    let v = chars_of(raw);
    let n = v.len();
    assert(v@.subrange(0, n as int) =~= v@);
    let (a, b) = trim_range(&v, 0, n);
    let ghost t = v@.subrange(a as int, b as int);
    if b - a < 2 || v[a] != '[' || v[b - 1] != ']' {
        proof {
            if t.len() >= 2 {
                assert(t[0] == v@[a as int]);
                assert(t.last() == v@[b - 1]);
            }
        }
        return None;
    }
    assert(t[0] == v@[a as int]);
    assert(t.last() == v@[b - 1]);
    assert(t.subrange(1, t.len() - 1) =~= v@.subrange(a + 1, b - 1));
    match float_parts_range(&v, a + 1, b - 1) {
        Some(ps) => if ps.len() == 4 {
            Some(ps)
        } else {
            None
        },
        None => None,
    }
}

/// The value of a `declarations` binding in `cs[k..]`: the first inline code,
/// or the first text that is not blank.
pub open spec fn value_from(cs: Seq<MdTree>, k: int) -> Option<Seq<char>>
    decreases cs.len() - k,
{
    if k < 0 || k >= cs.len() {
        None
    } else {
        match cs[k].kind {
            MdKindV::InlineCode(c) => Some(c),
            MdKindV::Text(t) => if trim(t).len() > 0 {
                Some(t)
            } else {
                value_from(cs, k + 1)
            },
            _ => value_from(cs, k + 1),
        }
    }
}

/// The value of the `declarations` binding paragraph `p`.
pub open spec fn declaration_value(p: MdTree) -> Option<Seq<char>> {
    value_from(p.children, 3)
}

/// The value of the `declarations` binding paragraph `p`.
pub fn declaration_value_of(p: &MdNode) -> (r: Option<String>)
    ensures
        opt_chars(r) == declaration_value(p.model()),
{
    let ghost cs = p.model().children;
    let mut k: usize = 3;
    while k < p.children.len()
        invariant
            3 <= k,
            cs == p.model().children,
            cs.len() == p.children@.len(),
            value_from(cs, 3) == value_from(cs, k as int),
        decreases p.children@.len() - k,
    {
        proof {
            lemma_child_model(p, k as int);
        }
        match &p.children[k].kind {
            MdKind::InlineCode(c) => {
                return Some(c.clone());
            },
            MdKind::Text(t) => {
                let tt = trim_str(t.as_str());
                if tt.unicode_len() > 0 {
                    return Some(t.clone());
                }
            },
            _ => {},
        }
        k = k + 1;
    }
    None
}

/// Not whitespace, as a predicate value.
pub open spec fn non_ws_pred() -> spec_fn(char) -> bool {
    |c: char| !is_ws(c)
}

/// The first whitespace-separated word of `s`.
pub open spec fn first_word(s: Seq<char>) -> Option<Seq<char>> {
    let t = trim_start(s);
    if t.len() == 0 {
        None
    } else {
        Some(t.take(prefix_len(t, non_ws_pred()) as int))
    }
}

/// What follows the first word of `s`.
pub open spec fn after_first_word(s: Seq<char>) -> Seq<char> {
    let t = trim_start(s);
    t.skip(prefix_len(t, non_ws_pred()) as int)
}

/// The first two whitespace-separated words of `s`.
pub open spec fn two_words(s: Seq<char>) -> Option<(Seq<char>, Seq<char>)> {
    match (first_word(s), first_word(after_first_word(s))) {
        (Some(a), Some(b)) => Some((a, b)),
        _ => None,
    }
}

fn word_end(v: &Vec<char>, from: usize) -> (k: usize)
    requires
        from <= v@.len(),
    ensures
        from <= k <= v@.len(),
        k - from == prefix_len(v@.skip(from as int), non_ws_pred()),
{
    let mut k = from;
    while k < v.len() && !crate::text::is_whitespace(v[k])
        invariant
            from <= k <= v@.len(),
            forall|j: int| from <= j < k ==> !is_ws(#[trigger] v@[j]),
        decreases v@.len() - k,
    {
        k = k + 1;
    }
    proof {
        let t = v@.skip(from as int);
        assert forall|j: int| 0 <= j < k - from implies (non_ws_pred())(#[trigger] t[j]) by {
            assert(t[j] == v@[from + j]);
        }
        if k < v@.len() {
            assert(t[k - from] == v@[k as int]);
        }
        lemma_prefix_len_exact(t, non_ws_pred(), k - from);
    }
    k
}

/// The first two words of `s`.
pub fn two_words_of(s: &str) -> (r: Option<(String, String)>)
    ensures
        match r {
            Some((a, b)) => two_words(s@) == Some((a@, b@)),
            None => two_words(s@) is None,
        },
{
    let v = chars_of(s);
    let n = v.len();
    let a0 = skip_ws(&v, 0);
    assert(v@.skip(0) =~= v@);
    let ghost t1 = trim_start(v@);
    assert(t1 =~= v@.skip(a0 as int));
    if a0 == n {
        return None;
    }
    let a1 = word_end(&v, a0);
    let first = string_of(slice_chars(&v, a0, a1).as_slice());
    assert(first@ =~= t1.take(a1 - a0));
    let ghost rest = after_first_word(v@);
    assert(rest =~= v@.skip(a1 as int));
    let b0 = skip_ws(&v, a1);
    let ghost t2 = trim_start(rest);
    assert(t2 =~= v@.skip(b0 as int));
    if b0 == n {
        return None;
    }
    let b1 = word_end(&v, b0);
    let second = string_of(slice_chars(&v, b0, b1).as_slice());
    assert(second@ =~= t2.take(b1 - b0));
    Some((first, second))
}

} // verus!
