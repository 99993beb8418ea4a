//! The nesting of a compiled command stream: every scope the compiler opens
//! (an element, a config block, a text config block, a list, an item, a
//! `use`, a conditional, an event block, a canvas world) it closes again,
//! innermost first. A text element's own open and close markers are leaves
//! of this nesting: the close marker carries the text and is left out where
//! the item has none. Where every `text` item has its content line, they
//! nest as a scope like the others.
use vstd::prelude::*;
use crate::args::{child, static_arg, text_arg, text_of};
use crate::configs::{
    block_init, cfg_fold, lemma_floating_pos, cfg_item, cfg_kind, cfg_simple, config_block, configs, emit,
    finish, floating_pos, gate_close, gate_open, or_zero, push_opt, axis_config, word_layout, BlockV,
    CfgKind, CfgSt, flag_config, text_config, float_config, u16_config, image_config,
};
use crate::ctx::{CtxV, ctx_push};
use crate::decls::{decl_layouts, item_head, para_head, variables};
use crate::document::{
    body_items, doc_list, doc_walk, document, map_insert, key_index, snippet_items, spec_process_layout,
    DocSt, ParsedLayoutV, ParsingMode,
};
use crate::elements::{
    body_configs, body_of, canvas, canvas_config, canvas_config_items, canvas_name, canvas_settings,
    children_start, config_items, el_element, el_if, el_item, el_list, elem, elems, if_open, item_keyword,
    name_id, open_element, shape, shape_default, text_config_items, text_content, with_camera,
};
use crate::ir::{ConfigV, CursorIcon, CustomElementSpecV, DataSrcV, DeclarationV, ElementV, LayoutV};
use crate::md::MdTree;
use crate::text::trim;

verus! {

/// How a command changes the nesting depth: `+1` for one that opens a scope,
/// `-1` for one that closes one, `0` for every other. With `t`, a text
/// element's own open and close markers count as a scope too; without it
/// they are leaves.
pub open spec fn weight(l: LayoutV, t: bool) -> int {
    match l {
        LayoutV::Element(e) => match e {
            ElementV::ElementOpened { .. } | ElementV::ConfigOpened | ElementV::TextConfigOpened
            | ElementV::ListOpened | ElementV::ItemOpened | ElementV::UseOpened
            | ElementV::IfOpened { .. } | ElementV::IfNotOpened { .. } | ElementV::IfIndexOpened { .. }
            | ElementV::IfIndexNotOpened { .. } | ElementV::HoverOpened { .. }
            | ElementV::HoveredOpened { .. } | ElementV::UnHoveredOpened { .. }
            | ElementV::FocusOpened { .. } | ElementV::FocusedOpened { .. }
            | ElementV::UnFocusedOpened { .. } | ElementV::LeftPressedOpened { .. }
            | ElementV::LeftDownOpened { .. } | ElementV::LeftReleasedOpened { .. }
            | ElementV::LeftClickedOpened { .. } | ElementV::LeftDoubleClickedOpened { .. }
            | ElementV::LeftTripleClickedOpened { .. } | ElementV::KeyEventOpened { .. }
            | ElementV::RightPressedOpened { .. } | ElementV::RightDownOpened { .. }
            | ElementV::RightReleasedOpened { .. } | ElementV::RightClickedOpened { .. }
            | ElementV::CanvasWorldOpened { .. } => 1,
            ElementV::ElementClosed | ElementV::ConfigClosed | ElementV::TextConfigClosed
            | ElementV::ListClosed(_) | ElementV::ItemClosed { .. } | ElementV::UseClosed(_)
            | ElementV::IfClosed | ElementV::HoverClosed | ElementV::HoveredClosed
            | ElementV::UnHoveredClosed | ElementV::FocusClosed | ElementV::FocusedClosed
            | ElementV::UnFocusedClosed | ElementV::LeftPressedClosed | ElementV::LeftDownClosed
            | ElementV::LeftReleasedClosed | ElementV::LeftClickedClosed
            | ElementV::LeftDoubleClickedClosed | ElementV::LeftTripleClickedClosed
            | ElementV::KeyEventClosed | ElementV::RightPressedClosed | ElementV::RightDownClosed
            | ElementV::RightReleasedClosed | ElementV::RightClickedClosed
            | ElementV::CanvasWorldClosed => -1,
            ElementV::TextElementOpened => if t {
                1
            } else {
                0
            },
            ElementV::TextElementClosed(_) => if t {
                -1
            } else {
                0
            },
            _ => 0,
        },
        _ => 0,
    }
}

/// The depth after the commands `s`, read from depth `d`; `None` if some
/// command closes a scope that is not open.
pub open spec fn nest(s: Seq<LayoutV>, d: int, t: bool) -> Option<int>
    decreases s.len(),
{
    if s.len() == 0 {
        Some(d)
    } else if d + weight(s[0], t) < 0 {
        None
    } else {
        nest(s.drop_first(), d + weight(s[0], t), t)
    }
}

/// The commands `s`, read with [`weight`] (`t` as there), close every scope
/// they open, innermost first, and no other.
pub open spec fn nested_by(s: Seq<LayoutV>, t: bool) -> bool {
    nest(s, 0, t) == Some(0int)
}

/// The commands `s` close every scope they open, innermost first, and no
/// other, a text element's markers read as leaves.
pub open spec fn well_nested(s: Seq<LayoutV>) -> bool {
    nested_by(s, false)
}

/// The commands `s` close every scope they open, innermost first, and no
/// other, a text element's open and close markers included.
pub open spec fn fully_nested(s: Seq<LayoutV>) -> bool {
    nested_by(s, true)
}

/// Every `text` item in the tree `node` (itself included) has the content
/// line the compiler reads its text from.
pub open spec fn texts_ok(node: MdTree) -> bool
    decreases node, 1int,
{
    &&& match item_head(node) {
        Some((_, et)) => et == "text"@ ==> text_content(node).len() > 0,
        None => true,
    }
    &&& texts_ok_upto(node.children, node.children.len() as int)
}

/// [`texts_ok`] holds of each of `items[..n]`.
pub open spec fn texts_ok_upto(items: Seq<MdTree>, n: int) -> bool
    decreases items, n,
{
    if n <= 0 || n > items.len() {
        true
    } else {
        texts_ok_upto(items, n - 1) && texts_ok(items[n - 1])
    }
}

/// [`texts_ok`] holds of every one of `items`.
pub open spec fn all_texts_ok(items: Seq<MdTree>) -> bool {
    forall|i: int| 0 <= i < items.len() ==> texts_ok(#[trigger] items[i])
}

proof fn lemma_texts_ok_upto(items: Seq<MdTree>, n: int)
    requires
        0 <= n <= items.len(),
        texts_ok_upto(items, n),
    ensures
        forall|i: int| 0 <= i < n ==> texts_ok(#[trigger] items[i]),
    decreases n,
{
    if n > 0 {
        lemma_texts_ok_upto(items, n - 1);
    }
}

/// What [`texts_ok`] of a node says of its children.
proof fn lemma_texts_ok_children(node: MdTree)
    requires
        texts_ok(node),
    ensures
        all_texts_ok(node.children),
        body_of(node) matches Some(b) ==> all_texts_ok(b.children),
{
    lemma_texts_ok_upto(node.children, node.children.len() as int);
    if let Some(b) = body_of(node) {
        assert(texts_ok(node.children[1]));
        lemma_texts_ok_upto(b.children, b.children.len() as int);
    }
}

/// Reading from a deeper start only shifts the result.
pub proof fn lemma_nest_shift(s: Seq<LayoutV>, d0: int, d: int, e: int, t: bool)
    requires
        nest(s, d0, t) == Some(e),
        d0 <= d,
    ensures
        nest(s, d, t) == Some(e + d - d0),
    decreases s.len(),
{
    if s.len() > 0 {
        lemma_nest_shift(s.drop_first(), d0 + weight(s[0], t), d + weight(s[0], t), e, t);
    }
}

/// Reading `a + b` is reading `a`, then `b` from where `a` ended.
pub proof fn lemma_nest_concat(a: Seq<LayoutV>, b: Seq<LayoutV>, d: int, t: bool)
    ensures
        nest(a + b, d, t) == match nest(a, d, t) {
            Some(e) => nest(b, e, t),
            None => None,
        },
    decreases a.len(),
{
    if a.len() == 0 {
        assert(a + b =~= b);
    } else {
        assert((a + b)[0] == a[0]);
        assert((a + b).drop_first() =~= a.drop_first() + b);
        lemma_nest_concat(a.drop_first(), b, d + weight(a[0], t), t);
    }
}

/// Two well-nested runs, one after the other, are well nested.
pub proof fn lemma_concat(a: Seq<LayoutV>, b: Seq<LayoutV>, t: bool)
    requires
        nested_by(a, t),
        nested_by(b, t),
    ensures
        nested_by(a + b, t),
{
    lemma_nest_concat(a, b, 0, t);
}

/// A well-nested run between an opening and a closing command is well
/// nested.
pub proof fn lemma_wrap(o: LayoutV, s: Seq<LayoutV>, c: LayoutV, t: bool)
    requires
        weight(o, t) == 1,
        weight(c, t) == -1,
        nested_by(s, t),
    ensures
        nested_by(seq![o] + s + seq![c], t),
{
    let os = seq![o] + s;
    assert(nest(seq![o], 0, t) == Some(1int)) by {
        assert(seq![o].drop_first() =~= Seq::<LayoutV>::empty());
        assert(nest(Seq::<LayoutV>::empty(), 1, t) == Some(1int));
    }
    lemma_nest_concat(seq![o], s, 0, t);
    lemma_nest_shift(s, 0, 1, 0, t);
    lemma_nest_concat(os, seq![c], 0, t);
    assert(seq![c].drop_first() =~= Seq::<LayoutV>::empty());
    assert(nest(Seq::<LayoutV>::empty(), 0, t) == Some(0int));
}

/// From a depth that is not negative, the depth never gets negative.
pub proof fn lemma_nest_nonneg(s: Seq<LayoutV>, d: int, t: bool)
    requires
        d >= 0,
    ensures
        nest(s, d, t) matches Some(e) ==> e >= 0,
    decreases s.len(),
{
    if s.len() > 0 && d + weight(s[0], t) >= 0 {
        lemma_nest_nonneg(s.drop_first(), d + weight(s[0], t), t);
    }
}

/// Commands that neither open nor close a scope are well nested.
pub proof fn lemma_flat(s: Seq<LayoutV>, t: bool)
    requires
        forall|i: int| 0 <= i < s.len() ==> weight(#[trigger] s[i], t) == 0,
    ensures
        nested_by(s, t),
    decreases s.len(),
{
    if s.len() > 0 {
        assert forall|i: int| 0 <= i < s.drop_first().len() implies weight(#[trigger] s.drop_first()[i], t) == 0 by {
            assert(s.drop_first()[i] == s[i + 1]);
        }
        lemma_flat(s.drop_first(), t);
    }
}

/// A well-nested run with one more command that opens and closes nothing is
/// well nested.
pub proof fn lemma_push(s: Seq<LayoutV>, l: LayoutV, t: bool)
    requires
        nested_by(s, t),
        weight(l, t) == 0,
    ensures
        nested_by(s.push(l), t),
{
    lemma_flat(seq![l], t);
    lemma_concat(s, seq![l], t);
    assert(s + seq![l] =~= s.push(l));
}

/// Taking out a command that opens and closes nothing changes no depth.
pub proof fn lemma_remove(s: Seq<LayoutV>, k: int, d: int, t: bool)
    requires
        0 <= k < s.len(),
        weight(s[k], t) == 0,
        d >= 0,
    ensures
        nest(s.remove(k), d, t) == nest(s, d, t),
{
    let a = s.take(k);
    let b = s.skip(k + 1);
    assert(s =~= a + (seq![s[k]] + b));
    assert(s.remove(k) =~= a + b);
    lemma_nest_concat(a, seq![s[k]] + b, d, t);
    lemma_nest_concat(a, b, d, t);
    match nest(a, d, t) {
        Some(e) => {
            lemma_nest_nonneg(a, d, t);
            assert((seq![s[k]] + b)[0] == s[k]);
            assert((seq![s[k]] + b).drop_first() =~= b);
        },
        None => {},
    }
}

/// Moving a command that opens and closes nothing to the front keeps a
/// well-nested run well nested.
pub proof fn lemma_to_front(s: Seq<LayoutV>, k: int, t: bool)
    requires
        0 <= k < s.len(),
        weight(s[k], t) == 0,
        nested_by(s, t),
    ensures
        nested_by(seq![s[k]] + s.remove(k), t),
{
    lemma_remove(s, k, 0, t);
    lemma_flat(seq![s[k]], t);
    lemma_concat(seq![s[k]], s.remove(k), t);
}

proof fn lemma_push_opt(s: Seq<LayoutV>, c: Option<ConfigV>, t: bool)
    requires
        nested_by(s, t),
    ensures
        nested_by(push_opt(s, c), t),
{
    if let Some(x) = c {
        lemma_push(s, LayoutV::Config(x), t);
    }
}

/// Finishing a block adds configuration commands only, and moves one.
proof fn lemma_finish(b: BlockV, t: bool)
    requires
        nested_by(b.out, t),
    ensures
        nested_by(finish(b), t),
{
    reveal(finish);
    let o1 = if b.scroll_h || b.scroll_v {
        b.out.push(
            LayoutV::Config(
                ConfigV::Clip {
                    vertical: DataSrcV::Static(b.scroll_v),
                    horizontal: DataSrcV::Static(b.scroll_h),
                },
            ),
        )
    } else {
        b.out
    };
    if b.scroll_h || b.scroll_v {
        lemma_push(
            b.out,
            LayoutV::Config(
                ConfigV::Clip {
                    vertical: DataSrcV::Static(b.scroll_v),
                    horizontal: DataSrcV::Static(b.scroll_h),
                },
            ), t,
        );
    }
    let o2 = push_opt(o1, axis_config(0, b.axes[0]));
    lemma_push_opt(o1, axis_config(0, b.axes[0]), t);
    let o3 = push_opt(o2, axis_config(1, b.axes[1]));
    lemma_push_opt(o2, axis_config(1, b.axes[1]), t);
    let o4 = push_opt(o3, axis_config(2, b.axes[2]));
    lemma_push_opt(o3, axis_config(2, b.axes[2]), t);
    let o5 = push_opt(o4, axis_config(3, b.axes[3]));
    lemma_push_opt(o4, axis_config(3, b.axes[3]), t);
    let o6 = if b.slots[0] is Some || b.slots[1] is Some {
        o5.push(LayoutV::Config(ConfigV::FloatingOffset { x: or_zero(b.slots[0]), y: or_zero(b.slots[1]) }))
    } else {
        o5
    };
    if b.slots[0] is Some || b.slots[1] is Some {
        lemma_push(o5, LayoutV::Config(ConfigV::FloatingOffset { x: or_zero(b.slots[0]), y: or_zero(b.slots[1]) }), t);
    }
    let o7 = if b.slots[2] is Some || b.slots[3] is Some {
        o6.push(LayoutV::Config(ConfigV::FloatingDimensions { width: or_zero(b.slots[2]), height: or_zero(b.slots[3]) }))
    } else {
        o6
    };
    if b.slots[2] is Some || b.slots[3] is Some {
        lemma_push(
            o6,
            LayoutV::Config(ConfigV::FloatingDimensions { width: or_zero(b.slots[2]), height: or_zero(b.slots[3]) }), t,
        );
    }
    let o8 = if b.shaders.len() > 0 {
        o7.push(LayoutV::Config(ConfigV::Shaders(b.shaders)))
    } else {
        o7
    };
    if b.shaders.len() > 0 {
        lemma_push(o7, LayoutV::Config(ConfigV::Shaders(b.shaders)), t);
    }
    lemma_floating_pos(o8, 0);
    match floating_pos(o8, 0) {
        Some(k) => if k != 0 {
            lemma_to_front(o8, k, t);
        },
        None => {},
    }
}

/// A keyword other than `floating`, `use` and the event blocks emits at most
/// one command, which opens and closes nothing.
proof fn lemma_cfg_simple(p: MdTree, kw: Seq<char>, k: CfgKind, st: CfgSt, t: bool)
    requires
        nested_by(st.block.out, t),
    ensures
        nested_by(cfg_simple(p, kw, k, st).block.out, t),
{
    reveal(cfg_simple);
    let out = st.block.out;
    match k {
        CfgKind::Flag(f) => lemma_push(out, LayoutV::Config(flag_config(f)), t),
        CfgKind::Text(tc) => if let Some(v) = text_arg(p) {
            lemma_push(out, LayoutV::Config(text_config(tc, v)), t);
        },
        CfgKind::Float(tc) => if let Some(v) = crate::args::float_arg(p) {
            lemma_push(out, LayoutV::Config(float_config(tc, v)), t);
        },
        CfgKind::U16(tc) => if let Some(v) = crate::args::u16_arg(p) {
            lemma_push(out, LayoutV::Config(u16_config(tc, v)), t);
        },
        CfgKind::ZIndex => if let Some(z) = crate::args::i16_arg(p) {
            lemma_push(out, LayoutV::Config(ConfigV::FloatingZIndex { z }), t);
        },
        CfgKind::Words(w) => if let Some(word) = static_arg(p) {
            if let Some(l) = word_layout(w, word) {
                lemma_push(out, l, t);
            }
        },
        CfgKind::Image => if let Some(c) = image_config(p) {
            lemma_push(out, LayoutV::Config(c), t);
        },
        _ => {},
    }
}

/// The commands of a config block are well nested.
pub proof fn lemma_configs_nested(items: Seq<MdTree>, custom: Option<CustomElementSpecV>, c: CtxV, t: bool)
    ensures
        nested_by(configs(items, custom, c).0, t),
    decreases items, 1int,
{
    let st0 = CfgSt { block: block_init(), custom, ctx: c };
    assert(nest(Seq::<LayoutV>::empty(), 0, t) == Some(0int));
    lemma_fold_nested(items, st0, t);
    lemma_finish(cfg_fold(items, st0).block, t);
}

proof fn lemma_fold_nested(items: Seq<MdTree>, st: CfgSt, t: bool)
    requires
        nested_by(st.block.out, t),
    ensures
        nested_by(cfg_fold(items, st).block.out, t),
    decreases items, 0int,
{
    if items.len() > 0 {
        lemma_fold_nested(items.drop_last(), st, t);
        lemma_item_nested(items.last(), cfg_fold(items.drop_last(), st), t);
    }
}

proof fn lemma_item_nested(item: MdTree, st: CfgSt, t: bool)
    requires
        nested_by(st.block.out, t),
    ensures
        nested_by(cfg_item(item, st).block.out, t),
    decreases item, 2int,
{
    match para_head(item) {
        None => {},
        Some((p, kw)) => match cfg_kind(kw) {
            CfgKind::Floating => {
                let st1 = emit(st, LayoutV::Config(ConfigV::Floating));
                lemma_push(st.block.out, LayoutV::Config(ConfigV::Floating), t);
                if item.children.len() > 1 && item.children[1].kind is List {
                    lemma_configs_nested(item.children[1].children, None, st1.ctx, t);
                    lemma_concat(st1.block.out, configs(item.children[1].children, None, st1.ctx).0, t);
                }
            },
            CfgKind::Use => if let Some(rn) = text_of(child(p, 1)) {
                let params = if item.children.len() > 1 && item.children[1].kind is List {
                    crate::decls::variables(item.children[1].children, st.ctx).0
                } else {
                    Seq::empty()
                };
                lemma_push(st.block.out, LayoutV::Config(ConfigV::Use { name: crate::text::trim(rn), params }), t);
            },
            CfgKind::Gate(g) => {
                let o = LayoutV::Element(gate_open(g, text_arg(p)));
                let cl = LayoutV::Element(gate_close(g));
                let st1 = emit(st, o);
                let inner = if item.children.len() > 1 && item.children[1].kind is List {
                    lemma_configs_nested(item.children[1].children, None, st1.ctx, t);
                    configs(item.children[1].children, None, st1.ctx).0
                } else {
                    assert(nest(Seq::<LayoutV>::empty(), 0, t) == Some(0int));
                    Seq::empty()
                };
                lemma_wrap(o, inner, cl, t);
                lemma_concat(st.block.out, seq![o] + inner + seq![cl], t);
                assert(cfg_item(item, st).block.out =~= st.block.out + (seq![o] + inner + seq![cl]));
            },
            k => lemma_cfg_simple(p, kw, k, st, t),
        },
    }
}

/// The commands of a config block are well nested (see [`config_block`]).
pub proof fn lemma_config_block_nested(items: Seq<MdTree>, custom: Option<CustomElementSpecV>, c: CtxV, t: bool)
    ensures
        nested_by(config_block(items, custom, c).0, t),
{
    reveal(config_block);
    lemma_configs_nested(items, custom, c, t);
}

/// Bindings open and close nothing.
proof fn lemma_decls_nested(ds: Seq<(Seq<char>, DataSrcV<DeclarationV>)>, t: bool)
    ensures
        nested_by(decl_layouts(ds), t),
{
    lemma_flat(decl_layouts(ds), t);
}

/// The `Id` of a name opens and closes nothing.
proof fn lemma_name_nested(decl: MdTree, t: bool)
    ensures
        nested_by(name_id(decl), t),
{
    lemma_flat(name_id(decl), t);
}

/// A text's content marker opens and closes nothing.
/// A text's content is nothing or one close marker.
proof fn lemma_text_content_shape(node: MdTree)
    ensures
        text_content(node).len() == 0 || (text_content(node).len() == 1 && text_content(node)[0] matches LayoutV::Element(ElementV::TextElementClosed(_))),
{
}

proof fn lemma_body_configs_nested(body: MdTree, c: CtxV, t: bool)
    ensures
        nested_by(body_configs(body, c).0, t),
{
    match config_items(body) {
        Some(items) => lemma_config_block_nested(items, None, c, t),
        None => assert(nest(Seq::<LayoutV>::empty(), 0, t) == Some(0int)),
    }
}

/// The commands of the elements `items[lo..hi]` are well nested.
pub proof fn lemma_elems_nested(items: Seq<MdTree>, lo: int, hi: int, c: CtxV, t: bool)
    requires
        t ==> all_texts_ok(items),
    ensures
        nested_by(elems(items, lo, hi, c).0, t),
    decreases items, hi - lo,
{
    reveal(elems);
    if lo < 0 || hi <= lo || hi > items.len() {
        assert(nest(Seq::<LayoutV>::empty(), 0, t) == Some(0int));
    } else {
        lemma_elems_nested(items, lo, hi - 1, c, t);
        let (a, c1) = elems(items, lo, hi - 1, c);
        lemma_elem_nested(items[hi - 1], c1, t);
        lemma_concat(a, elem(items[hi - 1], c1).0, t);
    }
}

/// The commands of one element are well nested.
pub proof fn lemma_elem_nested(node: MdTree, c: CtxV, t: bool)
    requires
        t ==> texts_ok(node),
    ensures
        nested_by(elem(node, c).0, t),
    decreases node, 1int,
{
    reveal(elems);
    let empty = Seq::<LayoutV>::empty();
    assert(nest(empty, 0, t) == Some(0int));
    match item_head(node) {
        None => {},
        Some((decl, et)) => if et == "declarations"@ {
            match body_of(node) {
                Some(b) => lemma_decls_nested(variables(b.children, c).0, t),
                None => {},
            }
        } else if et == "element"@ {
            lemma_element_nested(node, decl, c, t);
        } else if shape_default(et) is Some {
            lemma_shape_nested(node, decl, shape_default(et)->0, c, t);
        } else if et == "canvas"@ {
            lemma_canvas_nested(node, decl, c, t);
        } else if et == "grow"@ {
            let eo = LayoutV::Element(ElementV::ElementOpened { id: None });
            let co = LayoutV::Element(ElementV::ConfigOpened);
            let cc = LayoutV::Element(ElementV::ConfigClosed);
            let ec = LayoutV::Element(ElementV::ElementClosed);
            let g = seq![LayoutV::Config(ConfigV::GrowAll)];
            lemma_flat(g, t);
            lemma_wrap(co, g, cc, t);
            lemma_wrap(eo, seq![co] + g + seq![cc], ec, t);
            assert(elem(node, c).0 =~= seq![eo] + (seq![co] + g + seq![cc]) + seq![ec]);
        } else if et == "text"@ {
            let (cs, c1) = match text_config_items(node) {
                Some(items) => {
                    lemma_config_block_nested(items, None, c, t);
                    let (cs, _, c1) = config_block(items, None, c);
                    (cs, c1)
                },
                None => (empty, c),
            };
            let teo = LayoutV::Element(ElementV::TextElementOpened);
            let tco = LayoutV::Element(ElementV::TextConfigOpened);
            let tcc = LayoutV::Element(ElementV::TextConfigClosed);
            let tc = text_content(node);
            lemma_wrap(tco, cs, tcc, t);
            lemma_text_content_shape(node);
            let mid = seq![tco] + cs + seq![tcc];
            assert(elem(node, c).0 =~= seq![teo] + mid + tc);
            if t {
                assert(tc.len() > 0);
                lemma_wrap(teo, mid, tc[0], t);
                assert(tc =~= seq![tc[0]]);
            } else {
                lemma_flat(seq![teo], t);
                lemma_concat(seq![teo], mid, t);
                lemma_flat(tc, t);
                lemma_concat(seq![teo] + mid, tc, t);
            }
        } else if et == "use"@ {
            match (text_of(child(decl, 1)), body_of(node)) {
                (Some(rn), Some(b)) => {
                    let ds = variables(b.children, ctx_push(c)).0;
                    lemma_decls_nested(ds, t);
                    lemma_wrap(
                        LayoutV::Element(ElementV::UseOpened),
                        decl_layouts(ds),
                        LayoutV::Element(ElementV::UseClosed(trim(rn))), t,
                    );
                },
                _ => {},
            }
        } else if et == "list"@ {
            lemma_list_nested(node, decl, c, t);
        } else if et == "item"@ {
            lemma_item_el_nested(node, decl, c, t);
        } else if if_open(et, Seq::empty()) is Some {
            lemma_if_nested(node, decl, et, c, t);
        } else if et == "fn"@ {
            lemma_flat(elem(node, c).0, t);
        } else {
        },
    }
}

proof fn lemma_element_nested(node: MdTree, decl: MdTree, c: CtxV, t: bool)
    requires
        t ==> texts_ok(node),
    ensures
        nested_by(el_element(node, decl, c).0, t),
    decreases node, 0int,
{
    if t {
        lemma_texts_ok_children(node);
    }
    reveal(elems);
    let eo = LayoutV::Element(ElementV::ElementOpened { id: None });
    let co = LayoutV::Element(ElementV::ConfigOpened);
    let cc = LayoutV::Element(ElementV::ConfigClosed);
    let ec = LayoutV::Element(ElementV::ElementClosed);
    lemma_name_nested(decl, t);
    match body_of(node) {
        Some(body) => {
            let (cs, c1) = body_configs(body, c);
            lemma_body_configs_nested(body, c, t);
            let (kids, c2) = elems(body.children, children_start(body), body.children.len() as int, c1);
            lemma_elems_nested(body.children, children_start(body), body.children.len() as int, c1, t);
            lemma_concat(name_id(decl), cs, t);
            lemma_wrap(co, name_id(decl) + cs, cc, t);
            let cfg = seq![co] + (name_id(decl) + cs) + seq![cc];
            lemma_concat(cfg, kids, t);
            lemma_wrap(eo, cfg + kids, ec, t);
            assert(el_element(node, decl, c).0 =~= seq![eo] + (cfg + kids) + seq![ec]);
        },
        None => {
            lemma_wrap(co, name_id(decl), cc, t);
            let cfg = seq![co] + name_id(decl) + seq![cc];
            lemma_wrap(eo, cfg, ec, t);
            assert(el_element(node, decl, c).0 =~= seq![eo] + cfg + seq![ec]);
        },
    }
}

proof fn lemma_shape_nested(node: MdTree, decl: MdTree, sp: CustomElementSpecV, c: CtxV, t: bool)
    requires
        t ==> texts_ok(node),
    ensures
        nested_by(shape(node, decl, sp, c).0, t),
    decreases node, 0int,
{
    if t {
        lemma_texts_ok_children(node);
    }
    reveal(elems);
    let eo = LayoutV::Element(ElementV::ElementOpened { id: None });
    let co = LayoutV::Element(ElementV::ConfigOpened);
    let cc = LayoutV::Element(ElementV::ConfigClosed);
    let ec = LayoutV::Element(ElementV::ElementClosed);
    let sp1 = match text_of(child(decl, 1)) {
        Some(t) => with_camera(sp, trim(t)),
        None => sp,
    };
    lemma_name_nested(decl, t);
    match body_of(node) {
        Some(body) => {
            let (cs, sp2, c1) = match config_items(body) {
                Some(items) => {
                    lemma_config_block_nested(items, Some(sp1), c, t);
                    let (cs, cu, c1) = config_block(items, Some(sp1), c);
                    (cs, match cu {
                        Some(x) => x,
                        None => sp1,
                    }, c1)
                },
                None => {
                    assert(nest(Seq::<LayoutV>::empty(), 0, t) == Some(0int));
                    (Seq::<LayoutV>::empty(), sp1, c)
                },
            };
            let (kids, c2) = elems(body.children, children_start(body), body.children.len() as int, c1);
            lemma_elems_nested(body.children, children_start(body), body.children.len() as int, c1, t);
            let ce = LayoutV::Config(ConfigV::CustomElement(sp2));
            lemma_concat(name_id(decl), cs, t);
            lemma_push(name_id(decl) + cs, ce, t);
            let inner = (name_id(decl) + cs).push(ce);
            lemma_wrap(co, inner, cc, t);
            let cfg = seq![co] + inner + seq![cc];
            lemma_concat(cfg, kids, t);
            lemma_wrap(eo, cfg + kids, ec, t);
            assert(shape(node, decl, sp, c).0 =~= seq![eo] + (cfg + kids) + seq![ec]);
        },
        None => {
            let ce = LayoutV::Config(ConfigV::CustomElement(sp1));
            lemma_push(name_id(decl), ce, t);
            let inner = name_id(decl).push(ce);
            lemma_wrap(co, inner, cc, t);
            let cfg = seq![co] + inner + seq![cc];
            lemma_wrap(eo, cfg, ec, t);
            assert(shape(node, decl, sp, c).0 =~= seq![eo] + cfg + seq![ec]);
        },
    }
}

proof fn lemma_canvas_nested(node: MdTree, decl: MdTree, c: CtxV, t: bool)
    requires
        t ==> texts_ok(node),
    ensures
        nested_by(canvas(node, decl, c).0, t),
    decreases node, 0int,
{
    if t {
        lemma_texts_ok_children(node);
    }
    reveal(elems);
    let name = canvas_name(decl);
    let sym = match name {
        Some(n) => n,
        None => "canvas"@,
    };
    let items = canvas_config_items(node);
    let settings = match items {
        Some(is) => canvas_settings(is, is.len() as int),
        None => Seq::new(7, |i: int| None),
    };
    let id = match name {
        Some(n) => seq![LayoutV::Config(ConfigV::Id(DataSrcV::Static(n)))],
        None => Seq::empty(),
    };
    lemma_flat(id, t);
    let (cs, c1) = match items {
        Some(is) => {
            lemma_config_block_nested(is, None, c, t);
            let (cs, _, c1) = config_block(is, None, c);
            (cs, c1)
        },
        None => {
            assert(nest(Seq::<LayoutV>::empty(), 0, t) == Some(0int));
            (Seq::<LayoutV>::empty(), c)
        },
    };
    let kids = match body_of(node) {
        Some(body) => {
            let start = if items is Some {
                1int
            } else {
                0int
            };
            lemma_elems_nested(body.children, start, body.children.len() as int, c1, t);
            elems(body.children, start, body.children.len() as int, c1).0
        },
        None => {
            assert(nest(Seq::<LayoutV>::empty(), 0, t) == Some(0int));
            Seq::<LayoutV>::empty()
        },
    };
    let cv = LayoutV::Config(canvas_config(sym, settings));
    lemma_canvas_frame(id, cs, cv, sym, kids, t);
}

/// The frame of a canvas around well-nested parts is well nested.
proof fn lemma_canvas_frame(id: Seq<LayoutV>, cs: Seq<LayoutV>, cv: LayoutV, sym: Seq<char>, kids: Seq<LayoutV>, t: bool)
    requires
        nested_by(id, t),
        nested_by(cs, t),
        nested_by(kids, t),
        weight(cv, t) == 0,
    ensures
        nested_by(
            open_element() + id + cs + seq![
                cv,
                LayoutV::Element(ElementV::ConfigClosed),
                LayoutV::Element(ElementV::CanvasWorldOpened { name: sym }),
                LayoutV::Element(ElementV::ElementOpened { id: None }),
                LayoutV::Element(ElementV::ConfigOpened),
                LayoutV::Config(ConfigV::CanvasWorldSize { name: sym }),
                LayoutV::Element(ElementV::ConfigClosed),
            ] + kids + seq![
                LayoutV::Element(ElementV::ElementClosed),
                LayoutV::Element(ElementV::CanvasWorldClosed),
                LayoutV::Element(ElementV::ElementClosed),
            ], t,
        ),
{
    let eo = LayoutV::Element(ElementV::ElementOpened { id: None });
    let co = LayoutV::Element(ElementV::ConfigOpened);
    let cc = LayoutV::Element(ElementV::ConfigClosed);
    let ec = LayoutV::Element(ElementV::ElementClosed);
    lemma_concat(id, cs, t);
    lemma_push(id + cs, cv, t);
    let inner = (id + cs).push(cv);
    lemma_wrap(co, inner, cc, t);
    let cfg = seq![co] + inner + seq![cc];
    let ws = seq![LayoutV::Config(ConfigV::CanvasWorldSize { name: sym })];
    lemma_flat(ws, t);
    lemma_wrap(co, ws, cc, t);
    let wcfg = seq![co] + ws + seq![cc];
    lemma_concat(wcfg, kids, t);
    lemma_wrap(eo, wcfg + kids, ec, t);
    let wel = seq![eo] + (wcfg + kids) + seq![ec];
    let cwo = LayoutV::Element(ElementV::CanvasWorldOpened { name: sym });
    let cwc = LayoutV::Element(ElementV::CanvasWorldClosed);
    lemma_wrap(cwo, wel, cwc, t);
    let world = seq![cwo] + wel + seq![cwc];
    lemma_concat(cfg, world, t);
    lemma_wrap(eo, cfg + world, ec, t);
    assert(open_element() + id + cs + seq![
        cv,
        cc,
        cwo,
        eo,
        co,
        LayoutV::Config(ConfigV::CanvasWorldSize { name: sym }),
        cc,
    ] + kids + seq![ec, cwc, ec] =~= seq![eo] + (cfg + world) + seq![ec]);
}

proof fn lemma_list_nested(node: MdTree, decl: MdTree, c: CtxV, t: bool)
    requires
        t ==> texts_ok(node),
    ensures
        nested_by(el_list(node, decl, c).0, t),
    decreases node, 0int,
{
    if t {
        lemma_texts_ok_children(node);
    }
    reveal(elems);
    match (text_of(child(decl, 1)), body_of(node)) {
        (Some(ls), Some(lc)) => {
            let has_decls = lc.children.len() > 0 && item_keyword(lc.children[0]) == Some("declarations"@);
            let c0 = ctx_push(c);
            let (ds, c1) = if has_decls {
                match body_of(lc.children[0]) {
                    Some(dl) => if lc.children[0].kind is ListItem {
                        variables(dl.children, c0)
                    } else {
                        (Seq::empty(), c0)
                    },
                    None => (Seq::empty(), c0),
                }
            } else {
                (Seq::empty(), c0)
            };
            let lo = if has_decls {
                1int
            } else {
                0int
            };
            lemma_elems_nested(lc.children, lo, lc.children.len() as int, c1, t);
            let kids = elems(lc.children, lo, lc.children.len() as int, c1).0;
            lemma_decls_nested(ds, t);
            lemma_concat(decl_layouts(ds), kids, t);
            let lo_ = LayoutV::Element(ElementV::ListOpened);
            let lc_ = LayoutV::Element(ElementV::ListClosed(trim(trim(ls))));
            lemma_wrap(lo_, decl_layouts(ds) + kids, lc_, t);
            assert(el_list(node, decl, c).0 =~= seq![lo_] + (decl_layouts(ds) + kids) + seq![lc_]);
        },
        _ => assert(nest(Seq::<LayoutV>::empty(), 0, t) == Some(0int)),
    }
}

proof fn lemma_item_el_nested(node: MdTree, decl: MdTree, c: CtxV, t: bool)
    requires
        t ==> texts_ok(node),
    ensures
        nested_by(el_item(node, decl, c).0, t),
    decreases node, 0int,
{
    if t {
        lemma_texts_ok_children(node);
    }
    reveal(elems);
    assert(nest(Seq::<LayoutV>::empty(), 0, t) == Some(0int));
    match text_of(child(decl, 1)) {
        Some(args) => match crate::args::two_words(args) {
            Some((ln, ia)) => {
                let kids = match body_of(node) {
                    Some(b) => {
                        lemma_elems_nested(b.children, 0, b.children.len() as int, c, t);
                        elems(b.children, 0, b.children.len() as int, c).0
                    },
                    None => Seq::empty(),
                };
                lemma_wrap(
                    LayoutV::Element(ElementV::ItemOpened),
                    kids,
                    LayoutV::Element(ElementV::ItemClosed { list: trim(ln), index: crate::args::index_arg(ia) }), t,
                );
            },
            None => {},
        },
        None => {},
    }
}

proof fn lemma_if_nested(node: MdTree, decl: MdTree, et: Seq<char>, c: CtxV, t: bool)
    requires
        t ==> texts_ok(node),
        if_open(et, Seq::empty()) is Some,
    ensures
        nested_by(el_if(node, decl, et, c).0, t),
    decreases node, 0int,
{
    if t {
        lemma_texts_ok_children(node);
    }
    reveal(elems);
    match (text_of(child(decl, 1)), body_of(node)) {
        (Some(arg), Some(b)) => {
            lemma_elems_nested(b.children, 0, b.children.len() as int, c, t);
            let kids = elems(b.children, 0, b.children.len() as int, c).0;
            lemma_wrap(LayoutV::Element(if_open(et, arg)->0), kids, LayoutV::Element(ElementV::IfClosed), t);
        },
        _ => assert(nest(Seq::<LayoutV>::empty(), 0, t) == Some(0int)),
    }
}

/// Every snippet of `rs` is well nested.
pub open spec fn snippets_nested(rs: Seq<(Seq<char>, Seq<LayoutV>)>, t: bool) -> bool {
    forall|i: int| 0 <= i < rs.len() ==> nested_by(#[trigger] rs[i].1, t)
}

proof fn lemma_map_insert_nested(rs: Seq<(Seq<char>, Seq<LayoutV>)>, k: Seq<char>, v: Seq<LayoutV>, t: bool)
    requires
        snippets_nested(rs, t),
        nested_by(v, t),
    ensures
        snippets_nested(map_insert(rs, k, v), t),
{
    let r = map_insert(rs, k, v);
    assert forall|i: int| 0 <= i < r.len() implies nested_by(#[trigger] r[i].1, t) by {
        match key_index(rs, k, rs.len() as int) {
            Some(j) => {
                crate::binder::lemma_key_index(rs, k, rs.len() as int);
                if i != j {
                    assert(r[i] == rs[i]);
                }
            },
            None => {
                if i < rs.len() {
                    assert(r[i] == rs[i]);
                }
            },
        }
    }
}

proof fn lemma_body_items_nested(items: Seq<MdTree>, out: Seq<LayoutV>, c: CtxV, n: int, t: bool)
    requires
        t ==> all_texts_ok(items),
        nested_by(out, t),
    ensures
        nested_by(body_items(items, out, c, n).0, t),
    decreases n,
{
    if 0 < n <= items.len() {
        lemma_body_items_nested(items, out, c, n - 1, t);
        let (o1, c1) = body_items(items, out, c, n - 1);
        lemma_elem_nested(items[n - 1], c1, t);
        lemma_concat(o1, elem(items[n - 1], c1).0, t);
    }
}

proof fn lemma_snippet_items_nested(
    items: Seq<MdTree>,
    name: Seq<char>,
    rs: Seq<(Seq<char>, Seq<LayoutV>)>,
    c: CtxV,
    n: int, t: bool,
)
    requires
        t ==> all_texts_ok(items),
        snippets_nested(rs, t),
    ensures
        snippets_nested(snippet_items(items, name, rs, c, n).0, t),
    decreases n,
{
    if 0 < n <= items.len() {
        lemma_snippet_items_nested(items, name, rs, c, n - 1, t);
        let (r1, c1) = snippet_items(items, name, rs, c, n - 1);
        lemma_elem_nested(items[n - 1], c1, t);
        lemma_map_insert_nested(r1, name, elem(items[n - 1], c1).0, t);
    }
}

/// The body and every snippet of a walk state are well nested.
pub open spec fn doc_nested(st: DocSt, t: bool) -> bool {
    nested_by(st.out.body, t) && snippets_nested(st.out.reusables, t)
}

proof fn lemma_doc_list_nested(list: MdTree, st: DocSt, t: bool)
    requires
        t ==> all_texts_ok(list.children),
        doc_nested(st, t),
    ensures
        doc_nested(doc_list(list, st), t),
{
    let items = list.children;
    let n = items.len() as int;
    match st.mode {
        ParsingMode::ReusableConfig => {
            lemma_config_block_nested(items, None, st.ctx, t);
            lemma_map_insert_nested(st.out.reusables, st.name, config_block(items, None, st.ctx).0, t);
        },
        ParsingMode::ReusableElements => {
            lemma_snippet_items_nested(items, st.name, st.out.reusables, st.ctx, n, t);
        },
        ParsingMode::Body => {
            let p = LayoutV::Element(ElementV::Pointer(CursorIcon::Default));
            lemma_push(st.out.body, p, t);
            lemma_body_items_nested(items, st.out.body.push(p), st.ctx, n, t);
        },
        _ => {},
    }
}

proof fn lemma_doc_walk_nested(nodes: Seq<MdTree>, st: DocSt, n: int, t: bool)
    requires
        t ==> all_texts_ok(nodes),
        doc_nested(st, t),
    ensures
        doc_nested(doc_walk(nodes, st, n), t),
    decreases n,
{
    if 0 < n <= nodes.len() {
        lemma_doc_walk_nested(nodes, st, n - 1, t);
        let s1 = doc_walk(nodes, st, n - 1);
        if nodes[n - 1].kind is List {
            if t {
                lemma_texts_ok_children(nodes[n - 1]);
            }
            lemma_doc_list_nested(nodes[n - 1], s1, t);
        }
    }
}

/// The page body and every snippet of a compiled document, read with
/// [`weight`] (`t` as there), are nested; with `t`, provided every `text`
/// item of the document has its content line.
proof fn lemma_document_nested_by(root: MdTree, t: bool)
    requires
        t ==> texts_ok(root),
    ensures
        nested_by(document(root).body, t),
        snippets_nested(document(root).reusables, t),
{
    let init = DocSt {
        mode: ParsingMode::Outside,
        name: Seq::empty(),
        out: ParsedLayoutV {
            body: Seq::empty(),
            reusables: Seq::empty(),
            image_loads: Seq::empty(),
            font_loads: Seq::empty(),
            shader_loads: Seq::empty(),
            calc_fns: crate::document::calc_fns_of(root),
            calc_table: Seq::empty(),
        },
        ctx: crate::ctx::ctx_init(),
    };
    assert(nest(Seq::<LayoutV>::empty(), 0, t) == Some(0int));
    if t {
        lemma_texts_ok_children(root);
    }
    lemma_doc_walk_nested(root.children, init, root.children.len() as int, t);
}

/// Every scope a compiled document opens (an element, a config block, a
/// text config block, a list, an item, a `use`, a conditional, an event
/// block, a canvas world) it closes again, innermost first, in the page body
/// and in every snippet.
pub proof fn lemma_document_well_nested(root: MdTree)
    ensures
        well_nested(document(root).body),
        snippets_nested(document(root).reusables, false),
{
    lemma_document_nested_by(root, false);
}

/// Where every `text` item of the document has its content line, the text
/// elements' open and close markers nest with the other scopes too: the
/// page body and every snippet close every scope they open, a text element
/// included, innermost first.
pub proof fn lemma_document_fully_nested(root: MdTree)
    requires
        texts_ok(root),
    ensures
        fully_nested(document(root).body),
        snippets_nested(document(root).reusables, true),
{
    lemma_document_nested_by(root, true);
}

/// What [`crate::document::process_layout`] compiles is well nested, in
/// its body and in every snippet (see [`lemma_document_well_nested`]); where
/// every `text` item of the parsed document has its content line, text
/// elements included (see [`lemma_document_fully_nested`]).
pub proof fn lemma_layout_well_nested(file: Seq<char>)
    ensures
        spec_process_layout(file) matches Ok(p) ==> well_nested(p.body) && snippets_nested(p.reusables, false),
        spec_process_layout(file) matches Ok(p) ==> (crate::md::markdown_document(
            crate::prepass::spec_add_missing_keyword_backticks(file),
        ) matches Some(root) && texts_ok(root) ==> fully_nested(p.body) && snippets_nested(p.reusables, true)),
{
    match crate::md::markdown_document(crate::prepass::spec_add_missing_keyword_backticks(file)) {
        Some(root) => {
            lemma_document_well_nested(root);
            if texts_ok(root) {
                lemma_document_fully_nested(root);
            }
        },
        None => {},
    }
}

} // verus!
