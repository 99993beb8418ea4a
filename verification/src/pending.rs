//! The numbers of a compiled document that wait for a `calc` value: each
//! one refers to an entry of the document's table, so folding the values of
//! the table in leaves no number without its entry.
use vstd::prelude::*;
use crate::args::{child, text_of};
use crate::configs::{
    block_init, cfg_fold, cfg_item, cfg_kind, cfg_simple, config_block, configs, emit, finish, hoist_floating,
    lemma_hoist_floating, push_opt, axis_config, or_zero, gate_close, gate_open, word_layout, flag_config,
    text_config, float_config, u16_config, image_config, BlockV, CfgKind, CfgSt,
};
use crate::ctx::{CtxV, ctx_init, ctx_push};
use crate::decls::{decl_layouts, item_head, para_head, variable, variables};
use crate::document::{
    body_items, calc_fns_of, doc_walk, document, key_index, map_insert, snippet_items, DocSt, ParsedLayoutV,
    ParsingMode,
};
use crate::elements::{
    body_configs, body_of, canvas, canvas_config, canvas_config_items, canvas_name, canvas_settings,
    children_start, config_items, el_element, el_if, el_item, el_list, elem, elems, if_open, item_keyword,
    name_id, shape, shape_default, text_config_items, text_content, with_camera,
};
use crate::ir::{ConfigV, CursorIcon, CustomElementSpecV, DataSrcV, DeclarationV, ElementV, LayoutV};
use crate::md::MdTree;
use crate::ordering::refers_below;
use crate::resolve::{fold_layouts, fold_params, fold_value};
use crate::text::trim;

verus! {

/// A declared value refers to no entry from index `k` on.
pub open spec fn value_below(v: DataSrcV<DeclarationV>, k: int) -> bool {
    v matches DataSrcV::Static(DeclarationV::Numeric(n)) ==> refers_below(n, k)
}

/// Bindings refer to no entry from index `k` on.
pub open spec fn binds_below(ds: Seq<(Seq<char>, DataSrcV<DeclarationV>)>, k: int) -> bool {
    forall|i: int| 0 <= i < ds.len() ==> value_below(#[trigger] ds[i].1, k)
}

/// A command refers to no entry from index `k` on: a declaration by its
/// value, a `use` of a config snippet by its bindings.
pub open spec fn command_below(l: LayoutV, k: int) -> bool {
    match l {
        LayoutV::Declaration { value, .. } => value_below(value, k),
        LayoutV::Config(ConfigV::Use { params, .. }) => binds_below(params, k),
        _ => true,
    }
}

/// Commands refer to no entry from index `k` on.
pub open spec fn refs_below(s: Seq<LayoutV>, k: int) -> bool {
    forall|i: int| 0 <= i < s.len() ==> command_below(#[trigger] s[i], k)
}

proof fn lemma_grow(s: Seq<LayoutV>, k: int, k2: int)
    requires
        refs_below(s, k),
        k <= k2,
    ensures
        refs_below(s, k2),
{
    assert forall|i: int| 0 <= i < s.len() implies command_below(#[trigger] s[i], k2) by {
        let l = s[i];
        if let LayoutV::Config(ConfigV::Use { params, .. }) = l {
            assert forall|j: int| 0 <= j < params.len() implies value_below(#[trigger] params[j].1, k2) by {
                assert(value_below(params[j].1, k));
            }
        }
    }
}

proof fn lemma_binds_grow(ds: Seq<(Seq<char>, DataSrcV<DeclarationV>)>, k: int, k2: int)
    requires
        binds_below(ds, k),
        k <= k2,
    ensures
        binds_below(ds, k2),
{
    assert forall|j: int| 0 <= j < ds.len() implies value_below(#[trigger] ds[j].1, k2) by {
        assert(value_below(ds[j].1, k));
    }
}

proof fn lemma_concat(a: Seq<LayoutV>, b: Seq<LayoutV>, k: int)
    requires
        refs_below(a, k),
        refs_below(b, k),
    ensures
        refs_below(a + b, k),
{
    assert forall|i: int| 0 <= i < (a + b).len() implies command_below(#[trigger] (a + b)[i], k) by {
        if i < a.len() {
            assert((a + b)[i] == a[i]);
        } else {
            assert((a + b)[i] == b[i - a.len()]);
        }
    }
}

proof fn lemma_push(s: Seq<LayoutV>, l: LayoutV, k: int)
    requires
        refs_below(s, k),
        command_below(l, k),
    ensures
        refs_below(s.push(l), k),
{
    assert forall|i: int| 0 <= i < s.push(l).len() implies command_below(#[trigger] s.push(l)[i], k) by {
        if i < s.len() {
            assert(s.push(l)[i] == s[i]);
        }
    }
}

proof fn lemma_decls(ds: Seq<(Seq<char>, DataSrcV<DeclarationV>)>, k: int)
    requires
        binds_below(ds, k),
    ensures
        refs_below(decl_layouts(ds), k),
{
    assert forall|i: int| 0 <= i < decl_layouts(ds).len() implies command_below(#[trigger] decl_layouts(ds)[i], k) by {
        assert(value_below(ds[i].1, k));
    }
}

proof fn lemma_plain(s: Seq<LayoutV>, k: int)
    requires
        forall|i: int| 0 <= i < s.len() ==> !(#[trigger] s[i] is Declaration) && !(s[i] matches LayoutV::Config(
            ConfigV::Use { .. },
        )),
    ensures
        refs_below(s, k),
{
    assert forall|i: int| 0 <= i < s.len() implies command_below(#[trigger] s[i], k) by {
        assert(!(s[i] is Declaration));
    }
}

/// A declaration refers to the entries recorded so far; the table only
/// grows.
proof fn lemma_variable(item: MdTree, c: CtxV)
    ensures
        variable(item, c).1.table.len() >= c.table.len(),
        variable(item, c).0 matches Some(d) ==> value_below(d.1, variable(item, c).1.table.len() as int),
{
    reveal(crate::decls::variable);
}

/// Declarations refer to the entries recorded so far; the table only grows.
pub proof fn lemma_variables(items: Seq<MdTree>, c: CtxV)
    ensures
        variables(items, c).1.table.len() >= c.table.len(),
        binds_below(variables(items, c).0, variables(items, c).1.table.len() as int),
    decreases items.len(),
{
    if items.len() > 0 {
        lemma_variables(items.drop_last(), c);
        let (ds, c1) = variables(items.drop_last(), c);
        lemma_variable(items.last(), c1);
        let (r, c2) = variable(items.last(), c1);
        lemma_binds_grow(ds, c1.table.len() as int, c2.table.len() as int);
        if let Some(d) = r {
            let r2 = variables(items, c);
            assert(r2.1.table == c2.table);
            assert forall|i: int| 0 <= i < ds.push(d).len() implies value_below(
                #[trigger] ds.push(d)[i].1,
                c2.table.len() as int,
            ) by {
                if i < ds.len() {
                    assert(ds.push(d)[i] == ds[i]);
                }
            }
        }
    }
}

proof fn lemma_finish(b: BlockV, k: int)
    requires
        refs_below(b.out, k),
    ensures
        refs_below(finish(b), k),
{
    reveal(finish);
    let o1 = if b.scroll_h || b.scroll_v {
        b.out.push(
            LayoutV::Config(
                ConfigV::Clip { vertical: DataSrcV::Static(b.scroll_v), horizontal: DataSrcV::Static(b.scroll_h) },
            ),
        )
    } else {
        b.out
    };
    if b.scroll_h || b.scroll_v {
        lemma_push(
            b.out,
            LayoutV::Config(
                ConfigV::Clip { vertical: DataSrcV::Static(b.scroll_v), horizontal: DataSrcV::Static(b.scroll_h) },
            ),
            k,
        );
    }
    let o2 = push_opt(o1, axis_config(0, b.axes[0]));
    let o3 = push_opt(o2, axis_config(1, b.axes[1]));
    let o4 = push_opt(o3, axis_config(2, b.axes[2]));
    let o5 = push_opt(o4, axis_config(3, b.axes[3]));
    lemma_push_opt(o1, axis_config(0, b.axes[0]), k);
    lemma_push_opt(o2, axis_config(1, b.axes[1]), k);
    lemma_push_opt(o3, axis_config(2, b.axes[2]), k);
    lemma_push_opt(o4, axis_config(3, b.axes[3]), k);
    let off = LayoutV::Config(ConfigV::FloatingOffset { x: or_zero(b.slots[0]), y: or_zero(b.slots[1]) });
    let o6 = if b.slots[0] is Some || b.slots[1] is Some {
        o5.push(off)
    } else {
        o5
    };
    if b.slots[0] is Some || b.slots[1] is Some {
        lemma_push(o5, off, k);
    }
    let dims = LayoutV::Config(ConfigV::FloatingDimensions { width: or_zero(b.slots[2]), height: or_zero(b.slots[3]) });
    let o7 = if b.slots[2] is Some || b.slots[3] is Some {
        o6.push(dims)
    } else {
        o6
    };
    if b.slots[2] is Some || b.slots[3] is Some {
        lemma_push(o6, dims, k);
    }
    let sh = LayoutV::Config(ConfigV::Shaders(b.shaders));
    let o8 = if b.shaders.len() > 0 {
        o7.push(sh)
    } else {
        o7
    };
    if b.shaders.len() > 0 {
        lemma_push(o7, sh, k);
    }
    lemma_hoist_floating(o8);
    let h = hoist_floating(o8);
    assert forall|i: int| 0 <= i < h.len() implies command_below(#[trigger] h[i], k) by {
        assert(h.to_multiset().count(h[i]) > 0) by {
            vstd::seq_lib::to_multiset_contains(h, h[i]);
        }
        vstd::seq_lib::to_multiset_contains(o8, h[i]);
        let j = choose|j: int| 0 <= j < o8.len() && o8[j] == h[i];
        assert(command_below(o8[j], k));
    }
}

proof fn lemma_push_opt(s: Seq<LayoutV>, c: Option<ConfigV>, k: int)
    requires
        refs_below(s, k),
        c matches Some(x) ==> !(x is Use),
    ensures
        refs_below(push_opt(s, c), k),
{
    if let Some(x) = c {
        lemma_push(s, LayoutV::Config(x), k);
    }
}

proof fn lemma_cfg_simple(p: MdTree, kw: Seq<char>, k: CfgKind, st: CfgSt)
    requires
        refs_below(st.block.out, st.ctx.table.len() as int),
    ensures
        cfg_simple(p, kw, k, st).ctx == st.ctx,
        refs_below(cfg_simple(p, kw, k, st).block.out, st.ctx.table.len() as int),
{
    reveal(cfg_simple);
    let out = st.block.out;
    let n = st.ctx.table.len() as int;
    match k {
        CfgKind::Flag(f) => lemma_push(out, LayoutV::Config(flag_config(f)), n),
        CfgKind::Text(t) => if let Some(v) = crate::args::text_arg(p) {
            lemma_push(out, LayoutV::Config(text_config(t, v)), n);
        },
        CfgKind::Float(t) => if let Some(v) = crate::args::float_arg(p) {
            lemma_push(out, LayoutV::Config(float_config(t, v)), n);
        },
        CfgKind::U16(t) => if let Some(v) = crate::args::u16_arg(p) {
            lemma_push(out, LayoutV::Config(u16_config(t, v)), n);
        },
        CfgKind::ZIndex => if let Some(z) = crate::args::i16_arg(p) {
            lemma_push(out, LayoutV::Config(ConfigV::FloatingZIndex { z }), n);
        },
        CfgKind::Words(w) => if let Some(word) = crate::args::static_arg(p) {
            if let Some(l) = word_layout(w, word) {
                lemma_push(out, l, n);
            }
        },
        CfgKind::Image => if let Some(c) = image_config(p) {
            lemma_push(out, LayoutV::Config(c), n);
        },
        _ => {},
    }
}

/// The commands of a config block refer to the entries recorded so far.
pub proof fn lemma_configs(items: Seq<MdTree>, custom: Option<CustomElementSpecV>, c: CtxV)
    ensures
        configs(items, custom, c).2.table.len() >= c.table.len(),
        refs_below(configs(items, custom, c).0, configs(items, custom, c).2.table.len() as int),
    decreases items, 1int,
{
    let st0 = CfgSt { block: block_init(), custom, ctx: c };
    lemma_plain(Seq::empty(), c.table.len() as int);
    lemma_fold(items, st0);
    let st = cfg_fold(items, st0);
    lemma_finish(st.block, st.ctx.table.len() as int);
}

proof fn lemma_fold(items: Seq<MdTree>, st: CfgSt)
    requires
        refs_below(st.block.out, st.ctx.table.len() as int),
    ensures
        cfg_fold(items, st).ctx.table.len() >= st.ctx.table.len(),
        refs_below(cfg_fold(items, st).block.out, cfg_fold(items, st).ctx.table.len() as int),
    decreases items, 0int,
{
    if items.len() > 0 {
        lemma_fold(items.drop_last(), st);
        lemma_item(items.last(), cfg_fold(items.drop_last(), st));
    }
}

proof fn lemma_item(item: MdTree, st: CfgSt)
    requires
        refs_below(st.block.out, st.ctx.table.len() as int),
    ensures
        cfg_item(item, st).ctx.table.len() >= st.ctx.table.len(),
        refs_below(cfg_item(item, st).block.out, cfg_item(item, st).ctx.table.len() as int),
    decreases item, 2int,
{
    let n = st.ctx.table.len() as int;
    match para_head(item) {
        None => {},
        Some((p, kw)) => match cfg_kind(kw) {
            CfgKind::Floating => {
                let st1 = emit(st, LayoutV::Config(ConfigV::Floating));
                lemma_push(st.block.out, LayoutV::Config(ConfigV::Floating), n);
                if item.children.len() > 1 && item.children[1].kind is List {
                    let r = configs(item.children[1].children, None, st1.ctx);
                    lemma_configs(item.children[1].children, None, st1.ctx);
                    lemma_grow(st1.block.out, n, r.2.table.len() as int);
                    lemma_concat(st1.block.out, r.0, r.2.table.len() as int);
                }
            },
            CfgKind::Use => if let Some(rn) = text_of(child(p, 1)) {
                if item.children.len() > 1 && item.children[1].kind is List {
                    let (params, c2) = variables(item.children[1].children, st.ctx);
                    lemma_variables(item.children[1].children, st.ctx);
                    lemma_grow(st.block.out, n, c2.table.len() as int);
                    lemma_push(st.block.out, LayoutV::Config(ConfigV::Use { name: trim(rn), params }), c2.table.len() as int);
                } else {
                    lemma_push(
                        st.block.out,
                        LayoutV::Config(ConfigV::Use { name: trim(rn), params: Seq::empty() }),
                        n,
                    );
                }
            },
            CfgKind::Gate(g) => {
                let o = LayoutV::Element(gate_open(g, crate::args::text_arg(p)));
                let cl = LayoutV::Element(gate_close(g));
                let st1 = emit(st, o);
                lemma_push(st.block.out, o, n);
                if item.children.len() > 1 && item.children[1].kind is List {
                    let r = configs(item.children[1].children, None, st1.ctx);
                    lemma_configs(item.children[1].children, None, st1.ctx);
                    lemma_grow(st1.block.out, n, r.2.table.len() as int);
                    lemma_concat(st1.block.out, r.0, r.2.table.len() as int);
                    lemma_push(st1.block.out + r.0, cl, r.2.table.len() as int);
                } else {
                    lemma_push(st1.block.out, cl, n);
                }
            },
            k => lemma_cfg_simple(p, kw, k, st),
        },
    }
}

/// The commands of a config block refer to the entries recorded so far (see
/// [`config_block`]).
pub proof fn lemma_config_block(items: Seq<MdTree>, custom: Option<CustomElementSpecV>, c: CtxV)
    ensures
        config_block(items, custom, c).2.table.len() >= c.table.len(),
        refs_below(config_block(items, custom, c).0, config_block(items, custom, c).2.table.len() as int),
{
    reveal(config_block);
    lemma_configs(items, custom, c);
}

/// Commands that hold no declaration and no `use` refer to no entry.
proof fn lemma_plain_items(s: Seq<LayoutV>)
    requires
        forall|i: int| 0 <= i < s.len() ==> (#[trigger] s[i] is Element) || (s[i] matches LayoutV::Config(c) && !(c is Use)),
    ensures
        forall|k: int| refs_below(s, k),
{
    assert forall|k: int| refs_below(s, k) by {
        assert forall|i: int| 0 <= i < s.len() implies command_below(#[trigger] s[i], k) by {
            assert(s[i] is Element || (s[i] matches LayoutV::Config(c) && !(c is Use)));
        }
    }
}

/// `a + b` refers below `k2` where `a` refers below `k1 <= k2` and `b` below
/// `k2`.
proof fn lemma_then(a: Seq<LayoutV>, k1: int, b: Seq<LayoutV>, k2: int)
    requires
        refs_below(a, k1),
        refs_below(b, k2),
        k1 <= k2,
    ensures
        refs_below(a + b, k2),
{
    lemma_grow(a, k1, k2);
    lemma_concat(a, b, k2);
}

proof fn lemma_body_configs(body: MdTree, c: CtxV)
    ensures
        body_configs(body, c).1.table.len() >= c.table.len(),
        refs_below(body_configs(body, c).0, body_configs(body, c).1.table.len() as int),
{
    match config_items(body) {
        Some(items) => lemma_config_block(items, None, c),
        None => lemma_plain_items(Seq::<LayoutV>::empty()),
    }
}

/// The commands of the elements `items[lo..hi]` refer to the entries
/// recorded so far; the table only grows.
pub proof fn lemma_elems(items: Seq<MdTree>, lo: int, hi: int, c: CtxV)
    ensures
        elems(items, lo, hi, c).1.table.len() >= c.table.len(),
        refs_below(elems(items, lo, hi, c).0, elems(items, lo, hi, c).1.table.len() as int),
    decreases items, hi - lo,
{
    reveal(elems);
    if lo < 0 || hi <= lo || hi > items.len() {
        lemma_plain_items(Seq::<LayoutV>::empty());
    } else {
        lemma_elems(items, lo, hi - 1, c);
        let (a, c1) = elems(items, lo, hi - 1, c);
        lemma_elem(items[hi - 1], c1);
        let (b, c2) = elem(items[hi - 1], c1);
        lemma_then(a, c1.table.len() as int, b, c2.table.len() as int);
    }
}

/// The commands of an element refer to the entries recorded so far.
pub proof fn lemma_elem(node: MdTree, c: CtxV)
    ensures
        elem(node, c).1.table.len() >= c.table.len(),
        refs_below(elem(node, c).0, elem(node, c).1.table.len() as int),
    decreases node, 1int,
{
    reveal(elems);
    lemma_plain_items(Seq::<LayoutV>::empty());
    match item_head(node) {
        None => {},
        Some((decl, et)) => if et == "declarations"@ {
            if let Some(b) = body_of(node) {
                lemma_variables(b.children, c);
                lemma_decls(variables(b.children, c).0, variables(b.children, c).1.table.len() as int);
            }
        } else if et == "element"@ {
            lemma_element(node, decl, c);
        } else if shape_default(et) is Some {
            lemma_shape(node, decl, shape_default(et)->0, c);
        } else if et == "canvas"@ {
            lemma_canvas(node, decl, c);
        } else if et == "grow"@ {
            lemma_plain_items(elem(node, c).0);
        } else if et == "text"@ {
            let empty = Seq::<LayoutV>::empty();
            let (cs, c1) = match text_config_items(node) {
                Some(items) => {
                    lemma_config_block(items, None, c);
                    let (cs, _, c1) = config_block(items, None, c);
                    (cs, c1)
                },
                None => (empty, c),
            };
            let k = c1.table.len() as int;
            let head = seq![
                LayoutV::Element(ElementV::TextElementOpened),
                LayoutV::Element(ElementV::TextConfigOpened),
            ];
            lemma_plain_items(head);
            lemma_concat(head, cs, k);
            lemma_plain_items(seq![LayoutV::Element(ElementV::TextConfigClosed)]);
            lemma_concat(head + cs, seq![LayoutV::Element(ElementV::TextConfigClosed)], k);
            lemma_plain_items(text_content(node));
            lemma_concat(head + cs + seq![LayoutV::Element(ElementV::TextConfigClosed)], text_content(node), k);
        } else if et == "use"@ {
            match (text_of(child(decl, 1)), body_of(node)) {
                (Some(rn), Some(b)) => {
                    let (ds, c1) = variables(b.children, ctx_push(c));
                    lemma_variables(b.children, ctx_push(c));
                    let k = c1.table.len() as int;
                    lemma_decls(ds, k);
                    let uo = seq![LayoutV::Element(ElementV::UseOpened)];
                    let uc = seq![LayoutV::Element(ElementV::UseClosed(trim(rn)))];
                    lemma_plain_items(uo);
                    lemma_plain_items(uc);
                    lemma_concat(uo, decl_layouts(ds), k);
                    lemma_concat(uo + decl_layouts(ds), uc, k);
                },
                _ => {},
            }
        } else if et == "list"@ {
            lemma_list(node, decl, c);
        } else if et == "item"@ {
            lemma_item_el(node, decl, c);
        } else if if_open(et, Seq::empty()) is Some {
            lemma_if(node, decl, et, c);
        } else if et == "fn"@ {
            lemma_plain_items(elem(node, c).0);
        },
    }
}

proof fn lemma_element(node: MdTree, decl: MdTree, c: CtxV)
    ensures
        el_element(node, decl, c).1.table.len() >= c.table.len(),
        refs_below(el_element(node, decl, c).0, el_element(node, decl, c).1.table.len() as int),
    decreases node, 0int,
{
    reveal(elems);
    let head = crate::elements::open_element() + name_id(decl);
    lemma_plain_items(head);
    let cc = seq![LayoutV::Element(ElementV::ConfigClosed)];
    let ec = seq![LayoutV::Element(ElementV::ElementClosed)];
    lemma_plain_items(cc);
    lemma_plain_items(ec);
    match body_of(node) {
        Some(body) => {
            let (cs, c1) = body_configs(body, c);
            lemma_body_configs(body, c);
            let (kids, c2) = elems(body.children, children_start(body), body.children.len() as int, c1);
            lemma_elems(body.children, children_start(body), body.children.len() as int, c1);
            let k1 = c1.table.len() as int;
            let k2 = c2.table.len() as int;
            lemma_concat(head, cs, k1);
            lemma_concat(head + cs, cc, k1);
            lemma_then(head + cs + cc, k1, kids, k2);
            lemma_concat(head + cs + cc + kids, ec, k2);
        },
        None => {
            lemma_plain_items(el_element(node, decl, c).0);
        },
    }
}

proof fn lemma_shape(node: MdTree, decl: MdTree, sp: CustomElementSpecV, c: CtxV)
    ensures
        shape(node, decl, sp, c).1.table.len() >= c.table.len(),
        refs_below(shape(node, decl, sp, c).0, shape(node, decl, sp, c).1.table.len() as int),
    decreases node, 0int,
{
    reveal(elems);
    let sp1 = match text_of(child(decl, 1)) {
        Some(t) => with_camera(sp, trim(t)),
        None => sp,
    };
    let head = crate::elements::open_element() + name_id(decl);
    lemma_plain_items(head);
    match body_of(node) {
        Some(body) => {
            let (cs, sp2, c1) = match config_items(body) {
                Some(items) => {
                    lemma_config_block(items, Some(sp1), c);
                    let (cs, cu, c1) = config_block(items, Some(sp1), c);
                    (cs, match cu {
                        Some(x) => x,
                        None => sp1,
                    }, c1)
                },
                None => {
                    lemma_plain_items(Seq::<LayoutV>::empty());
                    (Seq::<LayoutV>::empty(), sp1, c)
                },
            };
            let (kids, c2) = elems(body.children, children_start(body), body.children.len() as int, c1);
            lemma_elems(body.children, children_start(body), body.children.len() as int, c1);
            let k1 = c1.table.len() as int;
            let k2 = c2.table.len() as int;
            let mid = seq![
                LayoutV::Config(ConfigV::CustomElement(sp2)),
                LayoutV::Element(ElementV::ConfigClosed),
            ];
            let ec = seq![LayoutV::Element(ElementV::ElementClosed)];
            lemma_plain_items(mid);
            lemma_plain_items(ec);
            lemma_concat(head, cs, k1);
            lemma_concat(head + cs, mid, k1);
            lemma_then(head + cs + mid, k1, kids, k2);
            lemma_concat(head + cs + mid + kids, ec, k2);
        },
        None => {
            lemma_plain_items(shape(node, decl, sp, c).0);
        },
    }
}

proof fn lemma_canvas(node: MdTree, decl: MdTree, c: CtxV)
    ensures
        canvas(node, decl, c).1.table.len() >= c.table.len(),
        refs_below(canvas(node, decl, c).0, canvas(node, decl, c).1.table.len() as int),
    decreases node, 0int,
{
    reveal(elems);
    let name = canvas_name(decl);
    let sym = match name {
        Some(n) => n,
        None => "canvas"@,
    };
    let items = canvas_config_items(node);
    let settings = match items {
        Some(is) => canvas_settings(is, is.len() as int),
        None => Seq::new(7, |i: int| None),
    };
    let id = match name {
        Some(n) => seq![LayoutV::Config(ConfigV::Id(DataSrcV::Static(n)))],
        None => Seq::empty(),
    };
    let (cs, c1) = match items {
        Some(is) => {
            lemma_config_block(is, None, c);
            let (cs, _, c1) = config_block(is, None, c);
            (cs, c1)
        },
        None => {
            lemma_plain_items(Seq::<LayoutV>::empty());
            (Seq::<LayoutV>::empty(), c)
        },
    };
    let k1 = c1.table.len() as int;
    let open = crate::elements::open_element() + id;
    lemma_plain_items(open);
    let rest = seq![
        LayoutV::Config(canvas_config(sym, settings)),
        LayoutV::Element(ElementV::ConfigClosed),
        LayoutV::Element(ElementV::CanvasWorldOpened { name: sym }),
        LayoutV::Element(ElementV::ElementOpened { id: None }),
        LayoutV::Element(ElementV::ConfigOpened),
        LayoutV::Config(ConfigV::CanvasWorldSize { name: sym }),
        LayoutV::Element(ElementV::ConfigClosed),
    ];
    lemma_plain_items(rest);
    lemma_concat(open, cs, k1);
    lemma_concat(open + cs, rest, k1);
    let head = open + cs + rest;
    let tail = seq![
        LayoutV::Element(ElementV::ElementClosed),
        LayoutV::Element(ElementV::CanvasWorldClosed),
        LayoutV::Element(ElementV::ElementClosed),
    ];
    lemma_plain_items(tail);
    match body_of(node) {
        Some(body) => {
            let start = if items is Some {
                1int
            } else {
                0int
            };
            lemma_elems(body.children, start, body.children.len() as int, c1);
            let (kids, c2) = elems(body.children, start, body.children.len() as int, c1);
            let k2 = c2.table.len() as int;
            lemma_then(head, k1, kids, k2);
            lemma_concat(head + kids, tail, k2);
        },
        None => {
            lemma_concat(head, tail, k1);
        },
    }
}

proof fn lemma_list(node: MdTree, decl: MdTree, c: CtxV)
    ensures
        el_list(node, decl, c).1.table.len() >= c.table.len(),
        refs_below(el_list(node, decl, c).0, el_list(node, decl, c).1.table.len() as int),
    decreases node, 0int,
{
    reveal(elems);
    lemma_plain_items(Seq::<LayoutV>::empty());
    match (text_of(child(decl, 1)), body_of(node)) {
        (Some(ls), Some(lc)) => {
            let has_decls = lc.children.len() > 0 && item_keyword(lc.children[0]) == Some("declarations"@);
            let c0 = ctx_push(c);
            let (ds, c1) = if has_decls {
                match body_of(lc.children[0]) {
                    Some(dl) => if lc.children[0].kind is ListItem {
                        lemma_variables(dl.children, c0);
                        variables(dl.children, c0)
                    } else {
                        (Seq::empty(), c0)
                    },
                    None => (Seq::empty(), c0),
                }
            } else {
                (Seq::empty(), c0)
            };
            let lo = if has_decls {
                1int
            } else {
                0int
            };
            lemma_elems(lc.children, lo, lc.children.len() as int, c1);
            let (kids, c2) = elems(lc.children, lo, lc.children.len() as int, c1);
            let k1 = c1.table.len() as int;
            let k2 = c2.table.len() as int;
            lemma_decls(ds, k1);
            let lo_ = seq![LayoutV::Element(ElementV::ListOpened)];
            let lc_ = seq![LayoutV::Element(ElementV::ListClosed(trim(trim(ls))))];
            lemma_plain_items(lo_);
            lemma_plain_items(lc_);
            lemma_concat(lo_, decl_layouts(ds), k1);
            lemma_then(lo_ + decl_layouts(ds), k1, kids, k2);
            lemma_concat(lo_ + decl_layouts(ds) + kids, lc_, k2);
        },
        _ => {},
    }
}

proof fn lemma_item_el(node: MdTree, decl: MdTree, c: CtxV)
    ensures
        el_item(node, decl, c).1.table.len() >= c.table.len(),
        refs_below(el_item(node, decl, c).0, el_item(node, decl, c).1.table.len() as int),
    decreases node, 0int,
{
    reveal(elems);
    lemma_plain_items(Seq::<LayoutV>::empty());
    if let Some(args) = text_of(child(decl, 1)) {
        if let Some((ln, ia)) = crate::args::two_words(args) {
            let (kids, c1) = match body_of(node) {
                Some(b) => {
                    lemma_elems(b.children, 0, b.children.len() as int, c);
                    elems(b.children, 0, b.children.len() as int, c)
                },
                None => (Seq::<LayoutV>::empty(), c),
            };
            let k = c1.table.len() as int;
            let io = seq![LayoutV::Element(ElementV::ItemOpened)];
            let ic = seq![LayoutV::Element(ElementV::ItemClosed { list: trim(ln), index: crate::args::index_arg(ia) })];
            lemma_plain_items(io);
            lemma_plain_items(ic);
            lemma_concat(io, kids, k);
            lemma_concat(io + kids, ic, k);
        }
    }
}

proof fn lemma_if(node: MdTree, decl: MdTree, et: Seq<char>, c: CtxV)
    ensures
        el_if(node, decl, et, c).1.table.len() >= c.table.len(),
        refs_below(el_if(node, decl, et, c).0, el_if(node, decl, et, c).1.table.len() as int),
    decreases node, 0int,
{
    reveal(elems);
    lemma_plain_items(Seq::<LayoutV>::empty());
    match (text_of(child(decl, 1)), body_of(node)) {
        (Some(arg), Some(b)) => {
            lemma_elems(b.children, 0, b.children.len() as int, c);
            let (kids, c1) = elems(b.children, 0, b.children.len() as int, c);
            let k = c1.table.len() as int;
            let io = seq![LayoutV::Element(if_open(et, arg)->0)];
            let ic = seq![LayoutV::Element(ElementV::IfClosed)];
            lemma_plain_items(io);
            lemma_plain_items(ic);
            lemma_concat(io, kids, k);
            lemma_concat(io + kids, ic, k);
        },
        _ => {},
    }
}

/// Every snippet refers below `k`.
pub open spec fn snippets_below(rs: Seq<(Seq<char>, Seq<LayoutV>)>, k: int) -> bool {
    forall|i: int| 0 <= i < rs.len() ==> refs_below(#[trigger] rs[i].1, k)
}

proof fn lemma_snippets_grow(rs: Seq<(Seq<char>, Seq<LayoutV>)>, k: int, k2: int)
    requires
        snippets_below(rs, k),
        k <= k2,
    ensures
        snippets_below(rs, k2),
{
    assert forall|i: int| 0 <= i < rs.len() implies refs_below(#[trigger] rs[i].1, k2) by {
        lemma_grow(rs[i].1, k, k2);
    }
}

proof fn lemma_insert(rs: Seq<(Seq<char>, Seq<LayoutV>)>, name: Seq<char>, v: Seq<LayoutV>, k: int)
    requires
        snippets_below(rs, k),
        refs_below(v, k),
    ensures
        snippets_below(map_insert(rs, name, v), k),
{
    let r = map_insert(rs, name, v);
    assert forall|i: int| 0 <= i < r.len() implies refs_below(#[trigger] r[i].1, k) by {
        match key_index(rs, name, rs.len() as int) {
            Some(j) => {
                crate::binder::lemma_key_index(rs, name, rs.len() as int);
                if i != j {
                    assert(r[i] == rs[i]);
                }
            },
            None => {
                if i < rs.len() {
                    assert(r[i] == rs[i]);
                }
            },
        }
    }
}

proof fn lemma_body_items(items: Seq<MdTree>, out: Seq<LayoutV>, c: CtxV, n: int)
    requires
        refs_below(out, c.table.len() as int),
    ensures
        body_items(items, out, c, n).1.table.len() >= c.table.len(),
        refs_below(body_items(items, out, c, n).0, body_items(items, out, c, n).1.table.len() as int),
    decreases n,
{
    if 0 < n <= items.len() {
        lemma_body_items(items, out, c, n - 1);
        let (o1, c1) = body_items(items, out, c, n - 1);
        lemma_elem(items[n - 1], c1);
        let (e, c2) = elem(items[n - 1], c1);
        lemma_then(o1, c1.table.len() as int, e, c2.table.len() as int);
    }
}

proof fn lemma_snippet_items(
    items: Seq<MdTree>,
    name: Seq<char>,
    rs: Seq<(Seq<char>, Seq<LayoutV>)>,
    c: CtxV,
    n: int,
)
    requires
        snippets_below(rs, c.table.len() as int),
    ensures
        snippet_items(items, name, rs, c, n).1.table.len() >= c.table.len(),
        snippets_below(snippet_items(items, name, rs, c, n).0, snippet_items(items, name, rs, c, n).1.table.len() as int),
    decreases n,
{
    if 0 < n <= items.len() {
        lemma_snippet_items(items, name, rs, c, n - 1);
        let (r1, c1) = snippet_items(items, name, rs, c, n - 1);
        lemma_elem(items[n - 1], c1);
        let (e, c2) = elem(items[n - 1], c1);
        lemma_snippets_grow(r1, c1.table.len() as int, c2.table.len() as int);
        lemma_insert(r1, name, e, c2.table.len() as int);
    }
}

/// The body and the snippets of a walk state refer to recorded entries only.
pub open spec fn doc_refs(st: DocSt) -> bool {
    refs_below(st.out.body, st.ctx.table.len() as int) && snippets_below(st.out.reusables, st.ctx.table.len() as int)
}

proof fn lemma_doc_walk(nodes: Seq<MdTree>, st: DocSt, n: int)
    requires
        doc_refs(st),
    ensures
        doc_refs(doc_walk(nodes, st, n)),
        doc_walk(nodes, st, n).ctx.table.len() >= st.ctx.table.len(),
    decreases n,
{
    if 0 < n <= nodes.len() {
        lemma_doc_walk(nodes, st, n - 1);
        let s1 = doc_walk(nodes, st, n - 1);
        let node = nodes[n - 1];
        if node.kind is List {
            let items = node.children;
            let k = s1.ctx.table.len() as int;
            match s1.mode {
                ParsingMode::ReusableConfig => {
                    lemma_config_block(items, None, s1.ctx);
                    let (cs, _, c1) = config_block(items, None, s1.ctx);
                    let k1 = c1.table.len() as int;
                    lemma_grow(s1.out.body, k, k1);
                    lemma_snippets_grow(s1.out.reusables, k, k1);
                    lemma_insert(s1.out.reusables, s1.name, cs, k1);
                },
                ParsingMode::ReusableElements => {
                    lemma_snippet_items(items, s1.name, s1.out.reusables, s1.ctx, items.len() as int);
                    let c1 = snippet_items(items, s1.name, s1.out.reusables, s1.ctx, items.len() as int).1;
                    lemma_grow(s1.out.body, k, c1.table.len() as int);
                },
                ParsingMode::Body => {
                    let p = LayoutV::Element(ElementV::Pointer(CursorIcon::Default));
                    lemma_push(s1.out.body, p, k);
                    lemma_body_items(items, s1.out.body.push(p), s1.ctx, items.len() as int);
                    let c1 = body_items(items, s1.out.body.push(p), s1.ctx, items.len() as int).1;
                    lemma_snippets_grow(s1.out.reusables, k, c1.table.len() as int);
                },
                _ => {},
            }
        }
    }
}

/// Every number of a compiled document that waits for a `calc` value, in
/// its body, its snippets and the bindings they pass, refers to an entry of
/// the document's table.
pub proof fn lemma_pending_numbers_have_entries(root: MdTree)
    ensures
        refs_below(document(root).body, document(root).calc_table.len() as int),
        snippets_below(document(root).reusables, document(root).calc_table.len() as int),
{
    let init = DocSt {
        mode: ParsingMode::Outside,
        name: Seq::empty(),
        out: ParsedLayoutV {
            body: Seq::empty(),
            reusables: Seq::empty(),
            image_loads: Seq::empty(),
            font_loads: Seq::empty(),
            shader_loads: Seq::empty(),
            calc_fns: calc_fns_of(root),
            calc_table: Seq::empty(),
        },
        ctx: ctx_init(),
    };
    lemma_plain_items(Seq::<LayoutV>::empty());
    lemma_doc_walk(root.children, init, root.children.len() as int);
}

/// A declared value is no number waiting for a value.
pub open spec fn settled_value(v: DataSrcV<DeclarationV>) -> bool {
    v matches DataSrcV::Static(DeclarationV::Numeric(n)) ==> n is Literal
}

/// A command holds no number waiting for a value.
pub open spec fn settled(l: LayoutV) -> bool {
    match l {
        LayoutV::Declaration { value, .. } => settled_value(value),
        LayoutV::Config(ConfigV::Use { params, .. }) => forall|i: int|
            0 <= i < params.len() ==> settled_value(#[trigger] params[i].1),
        _ => true,
    }
}

proof fn lemma_fold_value(v: DataSrcV<DeclarationV>, vals: Seq<Option<Seq<char>>>)
    ensures
        fold_value(v, vals) matches Some(w) ==> settled_value(w),
        value_below(v, vals.len() as int) && (forall|i: int| 0 <= i < vals.len() ==> #[trigger] vals[i] is Some)
            ==> fold_value(v, vals) is Some,
{
}

proof fn lemma_fold_params(ps: Seq<(Seq<char>, DataSrcV<DeclarationV>)>, vals: Seq<Option<Seq<char>>>)
    ensures
        forall|i: int| 0 <= i < fold_params(ps, vals).len() ==> settled_value(#[trigger] fold_params(ps, vals)[i].1),
    decreases ps.len(),
{
    if ps.len() > 0 {
        lemma_fold_params(ps.drop_last(), vals);
        lemma_fold_value(ps.last().1, vals);
        let rest = fold_params(ps.drop_last(), vals);
        match fold_value(ps.last().1, vals) {
            Some(v) => {
                assert forall|i: int| 0 <= i < rest.push((ps.last().0, v)).len() implies settled_value(
                    #[trigger] rest.push((ps.last().0, v))[i].1,
                ) by {
                    if i < rest.len() {
                        assert(rest.push((ps.last().0, v))[i] == rest[i]);
                    }
                }
            },
            None => {},
        }
    }
}

/// Folding the values of the `calc` entries in leaves no number waiting: a
/// declaration or binding either holds a literal or is dropped; where every
/// entry a number refers to has a value, no declaration is dropped.
pub proof fn lemma_folded_numbers_settle(ls: Seq<LayoutV>, vals: Seq<Option<Seq<char>>>)
    ensures
        forall|i: int| 0 <= i < fold_layouts(ls, vals).len() ==> settled(#[trigger] fold_layouts(ls, vals)[i]),
        refs_below(ls, vals.len() as int) && (forall|i: int| 0 <= i < vals.len() ==> #[trigger] vals[i] is Some)
            ==> fold_layouts(ls, vals).len() == ls.len(),
    decreases ls.len(),
{
    if ls.len() > 0 {
        lemma_folded_numbers_settle(ls.drop_last(), vals);
        let rest = fold_layouts(ls.drop_last(), vals);
        let r = fold_layouts(ls, vals);
        if refs_below(ls, vals.len() as int) {
            assert forall|i: int| 0 <= i < ls.drop_last().len() implies command_below(
                #[trigger] ls.drop_last()[i],
                vals.len() as int,
            ) by {
                assert(ls.drop_last()[i] == ls[i]);
            }
            assert(command_below(ls[ls.len() - 1], vals.len() as int));
        }
        match ls.last() {
            LayoutV::Declaration { name, value } => {
                lemma_fold_value(value, vals);
            },
            LayoutV::Config(ConfigV::Use { name, params }) => {
                lemma_fold_params(params, vals);
            },
            _ => {},
        }
        assert forall|i: int| 0 <= i < r.len() implies settled(#[trigger] r[i]) by {
            if i < rest.len() {
                assert(r[i] == rest[i]);
            }
        }
    }
}

} // verus!
