//! The order of a document's `calc` entries: an expression is recorded with
//! the scopes of the moment its line is read, so it only ever refers to the
//! values of expressions written before it.
use vstd::prelude::*;
use crate::args::{child, text_of};
use crate::configs::{
    cfg_fold, cfg_item, cfg_kind, cfg_simple, config_block, configs, block_init, CfgKind, CfgSt,
};
use crate::ctx::{CtxV, ctx_bind, ctx_init, ctx_pop, ctx_push, ctx_record};
use crate::decls::{item_head, para_head, variable, variables};
use crate::document::{
    body_items, calc_fns_of, doc_walk, document, snippet_items, DocSt, ParsedLayoutV, ParsingMode,
};
use crate::elements::{
    body_configs, body_of, canvas, canvas_config_items, config_items, el_element, el_if, el_item, el_list,
    elem, elems, if_open, item_keyword, shape, shape_default, text_config_items, with_camera,
    children_start,
};
use crate::ir::{CustomElementSpecV, DataSrcV, DeclarationV, LayoutV, NumberV};
use crate::md::MdTree;
use crate::text::trim;

verus! {

/// `n` refers to no entry from index `k` on.
pub open spec fn refers_below(n: NumberV, k: int) -> bool {
    n matches NumberV::Pending(j) ==> j < k
}

/// The bindings of the scopes `s` refer to no entry from index `k` on.
pub open spec fn scopes_below(s: Seq<Seq<(Seq<char>, NumberV)>>, k: int) -> bool {
    forall|f: int, b: int| 0 <= f < s.len() && 0 <= b < s[f].len() ==> refers_below(#[trigger] s[f][b].1, k)
}

/// The bindings in scope refer to recorded entries only, and every entry
/// sees only the entries recorded before it.
pub open spec fn ordered(c: CtxV) -> bool {
    &&& scopes_below(c.scope, c.table.len() as int)
    &&& forall|i: int| 0 <= i < c.table.len() ==> scopes_below(#[trigger] c.table[i].env, i)
}

proof fn lemma_scopes_grow(s: Seq<Seq<(Seq<char>, NumberV)>>, k: int, k2: int)
    requires
        scopes_below(s, k),
        k <= k2,
    ensures
        scopes_below(s, k2),
{
}

proof fn lemma_push(c: CtxV)
    requires
        ordered(c),
    ensures
        ordered(ctx_push(c)),
{
    let s = ctx_push(c).scope;
    assert forall|f: int, b: int| 0 <= f < s.len() && 0 <= b < s[f].len() implies refers_below(
        #[trigger] s[f][b].1,
        c.table.len() as int,
    ) by {
        assert(f < c.scope.len());
        assert(s[f] == c.scope[f]);
    }
}

proof fn lemma_pop(c: CtxV)
    requires
        ordered(c),
    ensures
        ordered(ctx_pop(c)),
{
    if c.scope.len() > 0 {
        let s = ctx_pop(c).scope;
        assert forall|f: int, b: int| 0 <= f < s.len() && 0 <= b < s[f].len() implies refers_below(
            #[trigger] s[f][b].1,
            c.table.len() as int,
        ) by {
            assert(s[f] == c.scope[f]);
        }
    }
}

proof fn lemma_bind(c: CtxV, name: Seq<char>, n: NumberV)
    requires
        ordered(c),
        refers_below(n, c.table.len() as int),
    ensures
        ordered(ctx_bind(c, name, n)),
{
    if c.scope.len() > 0 {
        let s = ctx_bind(c, name, n).scope;
        let l = c.scope.len() - 1;
        assert forall|f: int, b: int| 0 <= f < s.len() && 0 <= b < s[f].len() implies refers_below(
            #[trigger] s[f][b].1,
            c.table.len() as int,
        ) by {
            if f != l {
                assert(s[f] == c.scope[f]);
            } else if b < c.scope[l].len() {
                assert(s[f][b] == c.scope[l][b]);
            }
        }
    }
}

proof fn lemma_record(c: CtxV, e: crate::calc::ExprView)
    requires
        ordered(c),
    ensures
        ordered(ctx_record(c, e)),
{
    let r = ctx_record(c, e);
    lemma_scopes_grow(c.scope, c.table.len() as int, c.table.len() + 1int);
    assert forall|i: int| 0 <= i < r.table.len() implies scopes_below(#[trigger] r.table[i].env, i) by {
        if i < c.table.len() {
            assert(r.table[i] == c.table[i]);
        }
    }
}

/// A declaration refers to recorded entries only, and keeps the order.
proof fn lemma_variable(item: MdTree, c: CtxV)
    requires
        ordered(c),
    ensures
        ordered(variable(item, c).1),
        variable(item, c).0 matches Some(d) ==> (d.1 matches DataSrcV::Static(DeclarationV::Numeric(n))
            ==> refers_below(n, variable(item, c).1.table.len() as int)),
{
    reveal(variable);
    match item_head(item) {
        None => {},
        Some((p, vt)) => if vt == "set-numeric"@ {
            match crate::args::trim_opt(crate::args::declaration_value(p)) {
                Some(r) => if !crate::literals::is_float_literal(r) {
                    if let Some(e) = crate::calc::spec_parse_expr(r) {
                        lemma_record(c, e);
                    }
                },
                None => {},
            }
        },
    }
}

/// Declarations keep the order.
pub proof fn lemma_variables(items: Seq<MdTree>, c: CtxV)
    requires
        ordered(c),
    ensures
        ordered(variables(items, c).1),
    decreases items.len(),
{
    if items.len() > 0 {
        lemma_variables(items.drop_last(), c);
        let c1 = variables(items.drop_last(), c).1;
        lemma_variable(items.last(), c1);
        let (r, c2) = variable(items.last(), c1);
        if let Some(d) = r {
            if let DataSrcV::Static(DeclarationV::Numeric(n)) = d.1 {
                lemma_bind(c2, d.0, n);
            }
        }
    }
}

proof fn lemma_cfg_simple(p: MdTree, kw: Seq<char>, k: CfgKind, st: CfgSt)
    ensures
        cfg_simple(p, kw, k, st).ctx == st.ctx,
{
    reveal(cfg_simple);
}

/// A config block keeps the order.
pub proof fn lemma_configs(items: Seq<MdTree>, custom: Option<CustomElementSpecV>, c: CtxV)
    requires
        ordered(c),
    ensures
        ordered(configs(items, custom, c).2),
    decreases items, 1int,
{
    lemma_fold(items, CfgSt { block: block_init(), custom, ctx: c });
}

proof fn lemma_fold(items: Seq<MdTree>, st: CfgSt)
    requires
        ordered(st.ctx),
    ensures
        ordered(cfg_fold(items, st).ctx),
    decreases items, 0int,
{
    if items.len() > 0 {
        lemma_fold(items.drop_last(), st);
        lemma_item(items.last(), cfg_fold(items.drop_last(), st));
    }
}

proof fn lemma_item(item: MdTree, st: CfgSt)
    requires
        ordered(st.ctx),
    ensures
        ordered(cfg_item(item, st).ctx),
    decreases item, 2int,
{
    match para_head(item) {
        None => {},
        Some((p, kw)) => match cfg_kind(kw) {
            CfgKind::Floating => {
                if item.children.len() > 1 && item.children[1].kind is List {
                    lemma_configs(item.children[1].children, None, st.ctx);
                }
            },
            CfgKind::Use => if let Some(rn) = text_of(child(p, 1)) {
                if item.children.len() > 1 && item.children[1].kind is List {
                    lemma_variables(item.children[1].children, st.ctx);
                }
            },
            CfgKind::Gate(g) => {
                if item.children.len() > 1 && item.children[1].kind is List {
                    lemma_configs(item.children[1].children, None, st.ctx);
                }
            },
            k => lemma_cfg_simple(p, kw, k, st),
        },
    }
}

/// A config block keeps the order (see [`config_block`]).
pub proof fn lemma_config_block(items: Seq<MdTree>, custom: Option<CustomElementSpecV>, c: CtxV)
    requires
        ordered(c),
    ensures
        ordered(config_block(items, custom, c).2),
{
    reveal(config_block);
    lemma_configs(items, custom, c);
}

proof fn lemma_body_configs(body: MdTree, c: CtxV)
    requires
        ordered(c),
    ensures
        ordered(body_configs(body, c).1),
{
    if let Some(items) = config_items(body) {
        lemma_config_block(items, None, c);
    }
}

/// The elements `items[lo..hi]` keep the order.
pub proof fn lemma_elems(items: Seq<MdTree>, lo: int, hi: int, c: CtxV)
    requires
        ordered(c),
    ensures
        ordered(elems(items, lo, hi, c).1),
    decreases items, hi - lo,
{
    reveal(elems);
    if !(lo < 0 || hi <= lo || hi > items.len()) {
        lemma_elems(items, lo, hi - 1, c);
        lemma_elem(items[hi - 1], elems(items, lo, hi - 1, c).1);
    }
}

/// An element keeps the order.
pub proof fn lemma_elem(node: MdTree, c: CtxV)
    requires
        ordered(c),
    ensures
        ordered(elem(node, c).1),
    decreases node, 1int,
{
    reveal(elems);
    match item_head(node) {
        None => {},
        Some((decl, et)) => if et == "declarations"@ {
            if let Some(b) = body_of(node) {
                lemma_variables(b.children, c);
            }
        } else if et == "element"@ {
            lemma_element(node, decl, c);
        } else if shape_default(et) is Some {
            lemma_shape(node, decl, shape_default(et)->0, c);
        } else if et == "canvas"@ {
            lemma_canvas(node, decl, c);
        } else if et == "text"@ {
            if let Some(items) = text_config_items(node) {
                lemma_config_block(items, None, c);
            }
        } else if et == "use"@ {
            match (text_of(child(decl, 1)), body_of(node)) {
                (Some(rn), Some(b)) => {
                    lemma_push(c);
                    lemma_variables(b.children, ctx_push(c));
                    lemma_pop(variables(b.children, ctx_push(c)).1);
                },
                _ => {},
            }
        } else if et == "list"@ {
            lemma_list(node, decl, c);
        } else if et == "item"@ {
            lemma_item_el(node, decl, c);
        } else if if_open(et, Seq::empty()) is Some {
            lemma_if(node, decl, et, c);
        },
    }
}

proof fn lemma_element(node: MdTree, decl: MdTree, c: CtxV)
    requires
        ordered(c),
    ensures
        ordered(el_element(node, decl, c).1),
    decreases node, 0int,
{
    reveal(elems);
    if let Some(body) = body_of(node) {
        lemma_body_configs(body, c);
        lemma_elems(body.children, children_start(body), body.children.len() as int, body_configs(body, c).1);
    }
}

proof fn lemma_shape(node: MdTree, decl: MdTree, sp: CustomElementSpecV, c: CtxV)
    requires
        ordered(c),
    ensures
        ordered(shape(node, decl, sp, c).1),
    decreases node, 0int,
{
    reveal(elems);
    let sp1 = match text_of(child(decl, 1)) {
        Some(t) => with_camera(sp, trim(t)),
        None => sp,
    };
    if let Some(body) = body_of(node) {
        let c1 = match config_items(body) {
            Some(items) => {
                lemma_config_block(items, Some(sp1), c);
                config_block(items, Some(sp1), c).2
            },
            None => c,
        };
        lemma_elems(body.children, children_start(body), body.children.len() as int, c1);
    }
}

proof fn lemma_canvas(node: MdTree, decl: MdTree, c: CtxV)
    requires
        ordered(c),
    ensures
        ordered(canvas(node, decl, c).1),
    decreases node, 0int,
{
    reveal(elems);
    let items = canvas_config_items(node);
    let c1 = match items {
        Some(is) => {
            lemma_config_block(is, None, c);
            config_block(is, None, c).2
        },
        None => c,
    };
    if let Some(body) = body_of(node) {
        let start = if items is Some {
            1int
        } else {
            0int
        };
        lemma_elems(body.children, start, body.children.len() as int, c1);
    }
}

proof fn lemma_list(node: MdTree, decl: MdTree, c: CtxV)
    requires
        ordered(c),
    ensures
        ordered(el_list(node, decl, c).1),
    decreases node, 0int,
{
    reveal(elems);
    match (text_of(child(decl, 1)), body_of(node)) {
        (Some(ls), Some(lc)) => {
            let has_decls = lc.children.len() > 0 && item_keyword(lc.children[0]) == Some("declarations"@);
            let c0 = ctx_push(c);
            lemma_push(c);
            let c1 = if has_decls {
                match body_of(lc.children[0]) {
                    Some(dl) => if lc.children[0].kind is ListItem {
                        lemma_variables(dl.children, c0);
                        variables(dl.children, c0).1
                    } else {
                        c0
                    },
                    None => c0,
                }
            } else {
                c0
            };
            let lo = if has_decls {
                1int
            } else {
                0int
            };
            lemma_elems(lc.children, lo, lc.children.len() as int, c1);
            lemma_pop(elems(lc.children, lo, lc.children.len() as int, c1).1);
        },
        _ => {},
    }
}

proof fn lemma_item_el(node: MdTree, decl: MdTree, c: CtxV)
    requires
        ordered(c),
    ensures
        ordered(el_item(node, decl, c).1),
    decreases node, 0int,
{
    reveal(elems);
    if let Some(args) = text_of(child(decl, 1)) {
        if let Some((ln, ia)) = crate::args::two_words(args) {
            if let Some(b) = body_of(node) {
                lemma_elems(b.children, 0, b.children.len() as int, c);
            }
        }
    }
}

proof fn lemma_if(node: MdTree, decl: MdTree, et: Seq<char>, c: CtxV)
    requires
        ordered(c),
    ensures
        ordered(el_if(node, decl, et, c).1),
    decreases node, 0int,
{
    reveal(elems);
    match (text_of(child(decl, 1)), body_of(node)) {
        (Some(arg), Some(b)) => lemma_elems(b.children, 0, b.children.len() as int, c),
        _ => {},
    }
}

proof fn lemma_body_items(items: Seq<MdTree>, out: Seq<LayoutV>, c: CtxV, n: int)
    requires
        ordered(c),
    ensures
        ordered(body_items(items, out, c, n).1),
    decreases n,
{
    if 0 < n <= items.len() {
        lemma_body_items(items, out, c, n - 1);
        lemma_elem(items[n - 1], body_items(items, out, c, n - 1).1);
    }
}

proof fn lemma_snippet_items(
    items: Seq<MdTree>,
    name: Seq<char>,
    rs: Seq<(Seq<char>, Seq<LayoutV>)>,
    c: CtxV,
    n: int,
)
    requires
        ordered(c),
    ensures
        ordered(snippet_items(items, name, rs, c, n).1),
    decreases n,
{
    if 0 < n <= items.len() {
        lemma_snippet_items(items, name, rs, c, n - 1);
        lemma_elem(items[n - 1], snippet_items(items, name, rs, c, n - 1).1);
    }
}

proof fn lemma_doc_walk(nodes: Seq<MdTree>, st: DocSt, n: int)
    requires
        ordered(st.ctx),
    ensures
        ordered(doc_walk(nodes, st, n).ctx),
    decreases n,
{
    if 0 < n <= nodes.len() {
        lemma_doc_walk(nodes, st, n - 1);
        let s1 = doc_walk(nodes, st, n - 1);
        let node = nodes[n - 1];
        if node.kind is List {
            let items = node.children;
            match s1.mode {
                ParsingMode::ReusableConfig => lemma_config_block(items, None, s1.ctx),
                ParsingMode::ReusableElements => lemma_snippet_items(
                    items,
                    s1.name,
                    s1.out.reusables,
                    s1.ctx,
                    items.len() as int,
                ),
                ParsingMode::Body => lemma_body_items(
                    items,
                    s1.out.body.push(LayoutV::Element(crate::ir::ElementV::Pointer(crate::ir::CursorIcon::Default))),
                    s1.ctx,
                    items.len() as int,
                ),
                _ => {},
            }
        }
    }
}

/// A `calc` expression is recorded with the scopes in force where its line
/// is read: entry `i` of a compiled document refers to no entry but those
/// before it, so a forward reference never has a value.
pub proof fn lemma_entries_see_only_earlier(root: MdTree)
    ensures
        forall|i: int|
            0 <= i < document(root).calc_table.len() ==> scopes_below(#[trigger] document(root).calc_table[i].env, i),
{
    let init = DocSt {
        mode: ParsingMode::Outside,
        name: Seq::empty(),
        out: ParsedLayoutV {
            body: Seq::empty(),
            reusables: Seq::empty(),
            image_loads: Seq::empty(),
            font_loads: Seq::empty(),
            shader_loads: Seq::empty(),
            calc_fns: calc_fns_of(root),
            calc_table: Seq::empty(),
        },
        ctx: ctx_init(),
    };
    assert(ordered(ctx_init())) by {
        let s = ctx_init().scope;
        assert forall|f: int, b: int| 0 <= f < s.len() && 0 <= b < s[f].len() implies refers_below(
            #[trigger] s[f][b].1,
            0,
        ) by {
            assert(s[f].len() == 0);
        }
    }
    lemma_doc_walk(root.children, init, root.children.len() as int);
}

} // verus!
