//! Elements: each list item of a page body (or of an element's body) is an
//! element keyword with its name and an optional body list, compiled to
//! layout commands that open it, configure it, lay out its children and close
//! it.
use vstd::prelude::*;
use crate::args::{
    child, child_at, text_of, text_node, emph_text, emph_node, float_arg, float_arg_of, opt_chars,
    two_words, two_words_of, index_arg, parse_index_arg,
};
use crate::configs::{
    config_block, process_config_block, lemma_children, lemma_block_keeps_custom, nested_list,
};
use crate::ctx::{CalcCtx, CtxV, ctx_push, ctx_pop};
use crate::decls::{
    item_head, item_head_of, para_head, para_head_of, variables, process_variables, decl_layouts,
    declaration_layouts,
};
use crate::ir::{
    Config, ConfigV, CustomElementSpec, CustomElementSpecV, DataSrc, DataSrcV, Element, ElementV, Layout,
    LayoutV, push_dv, append_dv,
};
use crate::md::{MdKind, MdKindV, MdNode, MdTree, trees};
use crate::shapes::{ring_default, line_default, arc_default, bezier_default, render_window_default};
use crate::text::{trim, trim_str, str_eq};

verus! {

/// The body list of an element: its second child, where that is a list.
pub open spec fn body_of(n: MdTree) -> Option<MdTree> {
    if n.children.len() > 1 && n.children[1].kind is List {
        Some(n.children[1])
    } else {
        None
    }
}

/// The keyword a list item leads with.
pub open spec fn item_keyword(n: MdTree) -> Option<Seq<char>> {
    match item_head(n) {
        Some((_, kw)) => Some(kw),
        None => None,
    }
}

/// A body whose first item is a `config` block.
pub open spec fn has_config(body: MdTree) -> bool {
    body.children.len() > 0 && item_keyword(body.children[0]) == Some("config"@)
}

/// The config items of a body's leading `config` block: the list under it.
pub open spec fn config_items(body: MdTree) -> Option<Seq<MdTree>> {
    if has_config(body) {
        match body_of(body.children[0]) {
            Some(l) => Some(l.children),
            None => None,
        }
    } else {
        None
    }
}

/// Where the children of a body start: after its `config` block, if any.
pub open spec fn children_start(body: MdTree) -> int {
    if has_config(body) {
        1
    } else {
        0
    }
}

/// Commands for `ElementOpened` without an id, then `ConfigOpened`.
pub open spec fn open_element() -> Seq<LayoutV> {
    seq![
        LayoutV::Element(ElementV::ElementOpened { id: None }),
        LayoutV::Element(ElementV::ConfigOpened),
    ]
}

/// The `Id` command of an element named by the text right after its keyword.
pub open spec fn name_id(decl: MdTree) -> Seq<LayoutV> {
    match text_of(child(decl, 1)) {
        Some(t) => seq![LayoutV::Config(ConfigV::Id(DataSrcV::Static(trim(t))))],
        None => Seq::empty(),
    }
}

/// The commands of the config block of `body` (none without one) and the
/// context after it.
pub open spec fn body_configs(body: MdTree, c: CtxV) -> (Seq<LayoutV>, CtxV) {
    match config_items(body) {
        Some(items) => {
            let (cs, _, c1) = config_block(items, None, c);
            (cs, c1)
        },
        None => (Seq::empty(), c),
    }
}

/// The default shape of a shape keyword.
pub open spec fn shape_default(kw: Seq<char>) -> Option<CustomElementSpecV> {
    if kw == "circle"@ {
        Some(CustomElementSpecV::Circle)
    } else if kw == "ring"@ {
        Some(ring_default())
    } else if kw == "line"@ {
        Some(line_default())
    } else if kw == "arc"@ {
        Some(arc_default())
    } else if kw == "bezier"@ {
        Some(bezier_default())
    } else if kw == "render-window"@ {
        Some(render_window_default())
    } else {
        None
    }
}

/// A `render-window` shape drawn through the camera `name`; any other shape
/// unchanged.
pub open spec fn with_camera(sp: CustomElementSpecV, name: Seq<char>) -> CustomElementSpecV {
    match sp {
        CustomElementSpecV::RenderWindow {
            camera: _,
            eye_x,
            eye_y,
            eye_z,
            target_x,
            target_y,
            target_z,
            up_x,
            up_y,
            up_z,
            fov,
            near,
            far,
            ortho_height,
        } => CustomElementSpecV::RenderWindow {
            camera: name,
            eye_x,
            eye_y,
            eye_z,
            target_x,
            target_y,
            target_z,
            up_x,
            up_y,
            up_z,
            fov,
            near,
            far,
            ortho_height,
        },
        _ => sp,
    }
}

/// The canvas keyword `kw` names one of the seven canvas settings.
pub open spec fn canvas_slot(kw: Seq<char>) -> Option<int> {
    if kw == "world-width"@ {
        Some(0)
    } else if kw == "world-height"@ {
        Some(1)
    } else if kw == "min-zoom"@ {
        Some(2)
    } else if kw == "max-zoom"@ {
        Some(3)
    } else if kw == "zoom"@ {
        Some(4)
    } else if kw == "pan-x"@ {
        Some(5)
    } else if kw == "pan-y"@ {
        Some(6)
    } else {
        None
    }
}

/// The canvas settings of the config items `items[..n]`: each setting item
/// sets its value (to nothing, without a numeric argument).
pub open spec fn canvas_settings(items: Seq<MdTree>, n: int) -> Seq<Option<DataSrcV<Seq<char>>>>
    decreases n,
{
    if n <= 0 || n > items.len() {
        Seq::new(7, |i: int| None)
    } else {
        let s = canvas_settings(items, n - 1);
        match para_head(items[n - 1]) {
            Some((p, kw)) => match canvas_slot(kw) {
                Some(k) => s.update(k, float_arg(p)),
                None => s,
            },
            None => s,
        }
    }
}

/// The `canvas` element's state command.
pub open spec fn canvas_config(name: Seq<char>, s: Seq<Option<DataSrcV<Seq<char>>>>) -> ConfigV {
    ConfigV::Canvas {
        name,
        world_width: s[0],
        world_height: s[1],
        min_zoom: s[2],
        max_zoom: s[3],
        initial_zoom: s[4],
        initial_pan_x: s[5],
        initial_pan_y: s[6],
    }
}

/// The name of a `canvas`: the text after its keyword, when not blank.
pub open spec fn canvas_name(decl: MdTree) -> Option<Seq<char>> {
    match text_of(child(decl, 1)) {
        Some(t) => if trim(t).len() > 0 {
            Some(trim(t))
        } else {
            None
        },
        None => None,
    }
}

/// The config items of a canvas body: those of its leading `config` block.
pub open spec fn canvas_config_items(node: MdTree) -> Option<Seq<MdTree>> {
    match body_of(node) {
        Some(body) => config_items(body),
        None => None,
    }
}

/// The text a `text` element shows: an emphasised name is a binding, plain
/// text is the text itself.
pub open spec fn text_content(node: MdTree) -> Seq<LayoutV> {
    match body_of(node) {
        Some(b) => if b.children.len() > 1 && b.children[1].kind is ListItem {
            match child(b.children[1], 0) {
                Some(par) => if par.kind is Paragraph {
                    match child(par, 0) {
                        Some(t) => match t.kind {
                            MdKindV::Emphasis => match text_of(child(t, 0)) {
                                Some(d) => seq![
                                    LayoutV::Element(
                                        ElementV::TextElementClosed(DataSrcV::Dynamic(trim(trim(d)))),
                                    ),
                                ],
                                None => Seq::empty(),
                            },
                            MdKindV::Text(x) => seq![
                                LayoutV::Element(ElementV::TextElementClosed(DataSrcV::Static(trim(x)))),
                            ],
                            _ => Seq::empty(),
                        },
                        None => Seq::empty(),
                    }
                } else {
                    Seq::empty()
                },
                None => Seq::empty(),
            }
        } else {
            Seq::empty()
        },
        None => Seq::empty(),
    }
}

/// The config items of a `text` element: the list under the first item of
/// its body.
pub open spec fn text_config_items(node: MdTree) -> Option<Seq<MdTree>> {
    match body_of(node) {
        Some(b) => if b.children.len() > 0 && b.children[0].kind is ListItem {
            match body_of(b.children[0]) {
                Some(l) => Some(l.children),
                None => None,
            }
        } else {
            None
        },
        None => None,
    }
}

/// The conditional element keywords.
pub open spec fn if_open(kw: Seq<char>, arg: Seq<char>) -> Option<ElementV> {
    if kw == "if"@ {
        Some(ElementV::IfOpened { condition: trim(trim(arg)) })
    } else if kw == "if-not"@ {
        Some(ElementV::IfNotOpened { condition: trim(trim(arg)) })
    } else if kw == "if-index"@ {
        Some(ElementV::IfIndexOpened { index: index_arg(trim(arg)) })
    } else if kw == "if-index-not"@ {
        Some(ElementV::IfIndexNotOpened { index: index_arg(trim(arg)) })
    } else {
        None
    }
}

/// The commands of the elements `items[lo..hi]`, in order, and the context
/// after them.
#[verifier::opaque]
pub open spec fn elems(items: Seq<MdTree>, lo: int, hi: int, c: CtxV) -> (Seq<LayoutV>, CtxV)
    decreases items, hi - lo,
{
    if lo < 0 || hi <= lo || hi > items.len() {
        (Seq::empty(), c)
    } else {
        let (a, c1) = elems(items, lo, hi - 1, c);
        let (b, c2) = elem(items[hi - 1], c1);
        (a + b, c2)
    }
}

/// A drawn shape: open, name, configure (shape keywords change `sp`), the
/// shape itself, children, close.
pub open spec fn shape(node: MdTree, decl: MdTree, sp: CustomElementSpecV, c: CtxV) -> (Seq<LayoutV>, CtxV)
    decreases node, 0int,
{
    let sp1 = match text_of(child(decl, 1)) {
        Some(t) => with_camera(sp, trim(t)),
        None => sp,
    };
    match body_of(node) {
        Some(body) => {
            let (cs, sp2, c1) = match config_items(body) {
                Some(items) => {
                    let (cs, cu, c1) = config_block(items, Some(sp1), c);
                    (cs, match cu { Some(x) => x, None => sp1 }, c1)
                },
                None => (Seq::empty(), sp1, c),
            };
            let (kids, c2) = elems(body.children, children_start(body), body.children.len() as int, c1);
            (
                open_element() + name_id(decl) + cs + seq![
                    LayoutV::Config(ConfigV::CustomElement(sp2)),
                    LayoutV::Element(ElementV::ConfigClosed),
                ] + kids + seq![LayoutV::Element(ElementV::ElementClosed)],
                c2,
            )
        },
        None => (
            open_element() + name_id(decl) + seq![
                LayoutV::Config(ConfigV::CustomElement(sp1)),
                LayoutV::Element(ElementV::ConfigClosed),
                LayoutV::Element(ElementV::ElementClosed),
            ],
            c,
        ),
    }
}

/// A `canvas`: an outer clip container with the canvas state, around a world
/// wrapper holding the children.
pub open spec fn canvas(node: MdTree, decl: MdTree, c: CtxV) -> (Seq<LayoutV>, CtxV)
    decreases node, 0int,
{
    let name = canvas_name(decl);
    let sym = match name {
        Some(n) => n,
        None => "canvas"@,
    };
    let items = canvas_config_items(node);
    let settings = match items {
        Some(is) => canvas_settings(is, is.len() as int),
        None => Seq::new(7, |i: int| None),
    };
    let id = match name {
        Some(n) => seq![LayoutV::Config(ConfigV::Id(DataSrcV::Static(n)))],
        None => Seq::empty(),
    };
    let (cs, c1) = match items {
        Some(is) => {
            let (cs, _, c1) = config_block(is, None, c);
            (cs, c1)
        },
        None => (Seq::empty(), c),
    };
    let head = open_element() + id + cs + seq![
        LayoutV::Config(canvas_config(sym, settings)),
        LayoutV::Element(ElementV::ConfigClosed),
        LayoutV::Element(ElementV::CanvasWorldOpened { name: sym }),
        LayoutV::Element(ElementV::ElementOpened { id: None }),
        LayoutV::Element(ElementV::ConfigOpened),
        LayoutV::Config(ConfigV::CanvasWorldSize { name: sym }),
        LayoutV::Element(ElementV::ConfigClosed),
    ];
    let tail = seq![
        LayoutV::Element(ElementV::ElementClosed),
        LayoutV::Element(ElementV::CanvasWorldClosed),
        LayoutV::Element(ElementV::ElementClosed),
    ];
    match body_of(node) {
        Some(body) => {
            let start = if items is Some {
                1int
            } else {
                0int
            };
            let (kids, c2) = elems(body.children, start, body.children.len() as int, c1);
            (head + kids + tail, c2)
        },
        None => (head + tail, c1),
    }
}

/// A `declarations` block: its bindings, in the current scope.
pub open spec fn el_declarations(node: MdTree, c: CtxV) -> (Seq<LayoutV>, CtxV)
{
    match body_of(node) {
        Some(b) => {
            let (ds, c1) = variables(b.children, c);
            (decl_layouts(ds), c1)
        },
        None => (Seq::empty(), c),
    }
}

/// An `element`: open, name, configure, children, close.
pub open spec fn el_element(node: MdTree, decl: MdTree, c: CtxV) -> (Seq<LayoutV>, CtxV)
    decreases node, 0int,
{
    match body_of(node) {
        Some(body) => {
            let (cs, c1) = body_configs(body, c);
            let (kids, c2) = elems(body.children, children_start(body), body.children.len() as int, c1);
            (
                open_element() + name_id(decl) + cs + seq![LayoutV::Element(ElementV::ConfigClosed)]
                    + kids + seq![LayoutV::Element(ElementV::ElementClosed)],
                c2,
            )
        },
        None => (
            open_element() + name_id(decl) + seq![
                LayoutV::Element(ElementV::ConfigClosed),
                LayoutV::Element(ElementV::ElementClosed),
            ],
            c,
        ),
    }
}

/// A `text` element: its text config block, then the text it shows.
pub open spec fn el_text(node: MdTree, c: CtxV) -> (Seq<LayoutV>, CtxV)
{
    let (cs, c1) = match text_config_items(node) {
        Some(items) => {
            let (cs, _, c1) = config_block(items, None, c);
            (cs, c1)
        },
        None => (Seq::empty(), c),
    };
    (
        seq![
            LayoutV::Element(ElementV::TextElementOpened),
            LayoutV::Element(ElementV::TextConfigOpened),
        ] + cs + seq![LayoutV::Element(ElementV::TextConfigClosed)] + text_content(node),
        c1,
    )
}

/// A `use` of a reusable snippet with its bindings, in a scope of their own.
pub open spec fn el_use(node: MdTree, decl: MdTree, c: CtxV) -> (Seq<LayoutV>, CtxV)
{
    match (text_of(child(decl, 1)), body_of(node)) {
        (Some(rn), Some(b)) => {
            let (ds, c1) = variables(b.children, ctx_push(c));
            (
                seq![LayoutV::Element(ElementV::UseOpened)] + decl_layouts(ds) + seq![
                    LayoutV::Element(ElementV::UseClosed(trim(rn))),
                ],
                ctx_pop(c1),
            )
        },
        _ => (Seq::empty(), c),
    }
}

/// A `list`: its optional leading declarations and its item template, in a scope of their own.
pub open spec fn el_list(node: MdTree, decl: MdTree, c: CtxV) -> (Seq<LayoutV>, CtxV)
    decreases node, 0int,
{
    match (text_of(child(decl, 1)), body_of(node)) {
        (Some(ls), Some(lc)) => {
            let has_decls = lc.children.len() > 0 && item_keyword(lc.children[0]) == Some(
                "declarations"@,
            );
            let c0 = ctx_push(c);
            let (ds, c1) = if has_decls {
                match body_of(lc.children[0]) {
                    Some(dl) => if lc.children[0].kind is ListItem {
                        variables(dl.children, c0)
                    } else {
                        (Seq::empty(), c0)
                    },
                    None => (Seq::empty(), c0),
                }
            } else {
                (Seq::empty(), c0)
            };
            let (kids, c2) = elems(
                lc.children,
                if has_decls {
                    1
                } else {
                    0
                },
                lc.children.len() as int,
                c1,
            );
            (
                seq![LayoutV::Element(ElementV::ListOpened)] + decl_layouts(ds) + kids + seq![
                    LayoutV::Element(ElementV::ListClosed(trim(trim(ls)))),
                ],
                ctx_pop(c2),
            )
        },
        _ => (Seq::empty(), c),
    }
}

/// An `item list index`: one item of a list, by index.
pub open spec fn el_item(node: MdTree, decl: MdTree, c: CtxV) -> (Seq<LayoutV>, CtxV)
    decreases node, 0int,
{
    match text_of(child(decl, 1)) {
        Some(args) => match two_words(args) {
            Some((ln, ia)) => {
                let (kids, c1) = match body_of(node) {
                    Some(b) => elems(b.children, 0, b.children.len() as int, c),
                    None => (Seq::empty(), c),
                };
                (
                    seq![LayoutV::Element(ElementV::ItemOpened)] + kids + seq![
                        LayoutV::Element(ElementV::ItemClosed { list: trim(ln), index: index_arg(ia) }),
                    ],
                    c1,
                )
            },
            None => (Seq::empty(), c),
        },
        None => (Seq::empty(), c),
    }
}

/// A conditional (`if`, `if-not`, `if-index`, `if-index-not`) around its body.
pub open spec fn el_if(node: MdTree, decl: MdTree, et: Seq<char>, c: CtxV) -> (Seq<LayoutV>, CtxV)
    decreases node, 0int,
{
    match (text_of(child(decl, 1)), body_of(node)) {
        (Some(arg), Some(b)) => {
            let (kids, c1) = elems(b.children, 0, b.children.len() as int, c);
            (
                seq![LayoutV::Element(if_open(et, arg)->0)] + kids + seq![
                    LayoutV::Element(ElementV::IfClosed),
                ],
                c1,
            )
        },
        _ => (Seq::empty(), c),
    }
}

/// A `fn *name*` call-out.
pub open spec fn el_fn(decl: MdTree, c: CtxV) -> (Seq<LayoutV>, CtxV)
{
    match emph_text(child(decl, 2)) {
        Some(n) => (seq![LayoutV::Element(ElementV::FunctionCall(trim(n)))], c),
        None => (Seq::empty(), c),
    }
}

/// The commands of the element list item `node`, and the context after it.
pub open spec fn elem(node: MdTree, c: CtxV) -> (Seq<LayoutV>, CtxV)
    decreases node, 1int,
{
    match item_head(node) {
        None => (Seq::empty(), c),
        Some((decl, et)) => if et == "declarations"@ {
            el_declarations(node, c)
        } else if et == "element"@ {
            el_element(node, decl, c)
        } else if shape_default(et) is Some {
            shape(node, decl, shape_default(et)->0, c)
        } else if et == "canvas"@ {
            canvas(node, decl, c)
        } else if et == "grow"@ {
            (
                open_element() + seq![
                    LayoutV::Config(ConfigV::GrowAll),
                    LayoutV::Element(ElementV::ConfigClosed),
                    LayoutV::Element(ElementV::ElementClosed),
                ],
                c,
            )
        } else if et == "text"@ {
            el_text(node, c)
        } else if et == "use"@ {
            el_use(node, decl, c)
        } else if et == "list"@ {
            el_list(node, decl, c)
        } else if et == "item"@ {
            el_item(node, decl, c)
        } else if if_open(et, Seq::empty()) is Some {
            el_if(node, decl, et, c)
        } else if et == "fn"@ {
            el_fn(decl, c)
        } else {
            (Seq::empty(), c)
        },
    }
}

fn item_keyword_of(n: &MdNode) -> (r: Option<String>)
    ensures
        opt_chars(r) == item_keyword(n.model()),
{
    match item_head_of(n) {
        Some((_, kw)) => Some(kw),
        None => None,
    }
}

fn has_config_of(body: &MdNode) -> (r: bool)
    ensures
        r == has_config(body.model()),
{
    proof {
        lemma_children(body);
    }
    if body.children.len() > 0 {
        match item_keyword_of(&body.children[0]) {
            Some(kw) => str_eq(kw.as_str(), "config"),
            None => false,
        }
    } else {
        false
    }
}

/// The list under the leading `config` block of `body`.
fn config_list_of(body: &MdNode) -> (r: Option<&MdNode>)
    ensures
        match r {
            Some(l) => config_items(body.model()) == Some(trees(l.children@)) && body.children@.len() > 0
                && l == body.children@[0].children@[1],
            None => config_items(body.model()) is None,
        },
{
    proof {
        lemma_children(body);
    }
    if has_config_of(body) {
        match nested_list(&body.children[0]) {
            Some(l) => {
                proof {
                    lemma_children(l);
                }
                Some(l)
            },
            None => None,
        }
    } else {
        None
    }
}

fn open_element_exec() -> (r: Vec<Layout>)
    ensures
        r.deep_view() == open_element(),
{
    let mut r: Vec<Layout> = Vec::new();
    push_dv(&mut r, Layout::Element(Element::ElementOpened { id: None }));
    push_dv(&mut r, Layout::Element(Element::ConfigOpened));
    assert(r.deep_view() =~= open_element());
    r
}

fn name_id_exec(decl: &MdNode) -> (r: Vec<Layout>)
    ensures
        r.deep_view() == name_id(decl.model()),
{
    let mut r: Vec<Layout> = Vec::new();
    match text_node(child_at(decl, 1)) {
        Some(t) => {
            push_dv(&mut r, Layout::Config(Config::Id(DataSrc::Static(trim_str(t.as_str())))));
            assert(r.deep_view() =~= name_id(decl.model()));
        },
        None => {
            assert(r.deep_view() =~= name_id(decl.model()));
        },
    }
    r
}

fn push_el(v: &mut Vec<Layout>, e: Element)
    ensures
        final(v).deep_view() == old(v).deep_view().push(LayoutV::Element(e.deep_view())),
{
    push_dv(v, Layout::Element(e));
}

fn push_cfg(v: &mut Vec<Layout>, c: Config)
    ensures
        final(v).deep_view() == old(v).deep_view().push(LayoutV::Config(c.deep_view())),
{
    push_dv(v, Layout::Config(c));
}

/// The commands of the elements `items[lo..]` (see [`elems`]).
pub fn process_elements(items: &Vec<MdNode>, lo: usize, ctx: &mut CalcCtx) -> (r: Vec<Layout>)
    ensures
        (r.deep_view(), final(ctx).deep_view()) == elems(
            trees(items@),
            lo as int,
            items@.len() as int,
            old(ctx).deep_view(),
        ),
    decreases items, 0int,
{
    let ghost all = trees(items@);
    let ghost c0 = ctx.deep_view();
    let mut out: Vec<Layout> = Vec::new();
    assert(out.deep_view() =~= Seq::empty());
    if lo >= items.len() {
        reveal(elems);
        return out;
    }
    let mut i = lo;
    assert((out.deep_view(), ctx.deep_view()) == elems(all, lo as int, lo as int, c0)) by {
        reveal(elems);
    }
    while i < items.len()
        invariant
            lo <= i <= items@.len(),
            all == trees(items@),
            (out.deep_view(), ctx.deep_view()) == elems(all, lo as int, i as int, c0),
        decreases items@.len() - i,
    {
        assert(all[i as int] == items@[i as int].model());
        let ghost before = out.deep_view();
        let ghost c1 = ctx.deep_view();
        let part = process_element(&items[i], ctx);
        append_dv(&mut out, part);
        assert((out.deep_view(), ctx.deep_view()) == elems(all, lo as int, i + 1, c0)) by {
            reveal(elems);
        }
        i = i + 1;
    }
    out
}

fn process_shape(node: &MdNode, decl: &MdNode, sp: CustomElementSpec, ctx: &mut CalcCtx) -> (r: Vec<Layout>)
    ensures
        (r.deep_view(), final(ctx).deep_view()) == shape(node.model(), decl.model(), sp.deep_view(), old(ctx).deep_view()),
    decreases node, 0int,
{
    reveal(elems);
    let ghost c0 = ctx.deep_view();
    let ghost spv = sp.deep_view();
    let mut out = open_element_exec();
    append_dv(&mut out, name_id_exec(decl));
    let ghost head = open_element() + name_id(decl.model());
    assert(out.deep_view() == head);
    let sp1 = match text_node(child_at(decl, 1)) {
        Some(t) => match sp {
            CustomElementSpec::RenderWindow {
                camera: _,
                eye_x,
                eye_y,
                eye_z,
                target_x,
                target_y,
                target_z,
                up_x,
                up_y,
                up_z,
                fov,
                near,
                far,
                ortho_height,
            } => CustomElementSpec::RenderWindow {
                camera: trim_str(t.as_str()),
                eye_x,
                eye_y,
                eye_z,
                target_x,
                target_y,
                target_z,
                up_x,
                up_y,
                up_z,
                fov,
                near,
                far,
                ortho_height,
            },
            other => other,
        },
        None => sp,
    };
    let ghost sp1v = match text_of(child(decl.model(), 1)) {
        Some(t) => with_camera(spv, trim(t)),
        None => spv,
    };
    assert(sp1.deep_view() == sp1v);
    match nested_list(node) {
        Some(body) => {
            proof {
                lemma_children(body);
            }
            let ghost bm = body.model();
            assert(body_of(node.model()) == Some(bm));
            let ghost cfg = match config_items(bm) {
                Some(items) => {
                    let (cs, cu, c1) = config_block(items, Some(sp1v), c0);
                    (cs, match cu { Some(x) => x, None => sp1v }, c1)
                },
                None => (Seq::empty(), sp1v, c0),
            };
            let sp2 = match config_list_of(body) {
                Some(l) => {
                    proof {
                        lemma_block_keeps_custom(trees(l.children@), sp1v, c0);
                    }
                    let (cs, cu) = process_config_block(&l.children, Some(sp1), ctx);
                    append_dv(&mut out, cs);
                    match cu {
                        Some(x) => x,
                        None => CustomElementSpec::Circle,
                    }
                },
                None => sp1,
            };
            assert(out.deep_view() == head + cfg.0);
            assert(sp2.deep_view() == cfg.1);
            assert(ctx.deep_view() == cfg.2);
            push_cfg(&mut out, Config::CustomElement(sp2));
            push_el(&mut out, Element::ConfigClosed);
            let start: usize = if has_config_of(body) { 1 } else { 0 };
            let kids = process_elements(&body.children, start, ctx);
            let ghost mid = head + cfg.0 + seq![
                LayoutV::Config(ConfigV::CustomElement(cfg.1)),
                LayoutV::Element(ElementV::ConfigClosed),
            ];
            assert(out.deep_view() =~= mid);
            append_dv(&mut out, kids);
            push_el(&mut out, Element::ElementClosed);
            assert(out.deep_view() =~= mid + kids.deep_view() + seq![LayoutV::Element(ElementV::ElementClosed)]);
            assert(children_start(bm) == start as int);
            assert(bm.children == trees(body.children@));
            assert(shape(node.model(), decl.model(), spv, c0).1 == ctx.deep_view());
            assert(shape(node.model(), decl.model(), spv, c0).0 == out.deep_view());
        },
        None => {
            push_cfg(&mut out, Config::CustomElement(sp1));
            push_el(&mut out, Element::ConfigClosed);
            push_el(&mut out, Element::ElementClosed);
            assert(out.deep_view() =~= head + seq![
                LayoutV::Config(ConfigV::CustomElement(sp1v)),
                LayoutV::Element(ElementV::ConfigClosed),
                LayoutV::Element(ElementV::ElementClosed),
            ]);
        },
    }
    out
}

fn canvas_slot_of(kw: &str) -> (r: Option<usize>)
    ensures
        match r {
            Some(k) => canvas_slot(kw@) == Some(k as int) && k < 7,
            None => canvas_slot(kw@) is None,
        },
{
    if str_eq(kw, "world-width") {
        Some(0)
    } else if str_eq(kw, "world-height") {
        Some(1)
    } else if str_eq(kw, "min-zoom") {
        Some(2)
    } else if str_eq(kw, "max-zoom") {
        Some(3)
    } else if str_eq(kw, "zoom") {
        Some(4)
    } else if str_eq(kw, "pan-x") {
        Some(5)
    } else if str_eq(kw, "pan-y") {
        Some(6)
    } else {
        None
    }
}

fn canvas_settings_of(items: &Vec<MdNode>) -> (r: Vec<Option<DataSrc<String>>>)
    ensures
        r.deep_view() == canvas_settings(trees(items@), items@.len() as int),
        r@.len() == 7,
{
    let ghost all = trees(items@);
    let mut s: Vec<Option<DataSrc<String>>> = Vec::new();
    let mut k: usize = 0;
    assert(s.deep_view() =~= Seq::new(0, |i: int| None::<DataSrcV<Seq<char>>>));
    while k < 7
        invariant
            k <= 7,
            s@.len() == k,
            s.deep_view() == Seq::new(k as nat, |i: int| None::<DataSrcV<Seq<char>>>),
        decreases 7 - k,
    {
        push_dv(&mut s, None);
        k = k + 1;
        assert(s.deep_view() =~= Seq::new(k as nat, |i: int| None::<DataSrcV<Seq<char>>>));
    }
    assert(s.deep_view() =~= canvas_settings(all, 0));
    let mut i: usize = 0;
    while i < items.len()
        invariant
            i <= items@.len(),
            all == trees(items@),
            s@.len() == 7,
            s.deep_view() == canvas_settings(all, i as int),
        decreases items@.len() - i,
    {
        assert(all[i as int] == items@[i as int].model());
        match para_head_of(&items[i]) {
            Some((p, kw)) => match canvas_slot_of(kw.as_str()) {
                Some(k) => {
                    let ghost before = s.deep_view();
                    let v = float_arg_of(p);
                    let ghost vv = v.deep_view();
                    s.set(k, v);
                    assert forall|j: int| 0 <= j < 7 implies #[trigger] s.deep_view()[j]
                        == before.update(k as int, vv)[j] by {
                    }
                    assert(s.deep_view() =~= before.update(k as int, vv));
                },
                None => {},
            },
            None => {},
        }
        i = i + 1;
    }
    s
}

fn none_settings() -> (r: Vec<Option<DataSrc<String>>>)
    ensures
        r.deep_view() == Seq::new(7, |i: int| None::<DataSrcV<Seq<char>>>),
        r@.len() == 7,
{
    let mut s: Vec<Option<DataSrc<String>>> = Vec::new();
    let mut k: usize = 0;
    assert(s.deep_view() =~= Seq::new(0, |i: int| None::<DataSrcV<Seq<char>>>));
    while k < 7
        invariant
            k <= 7,
            s@.len() == k,
            s.deep_view() == Seq::new(k as nat, |i: int| None::<DataSrcV<Seq<char>>>),
        decreases 7 - k,
    {
        push_dv(&mut s, None);
        k = k + 1;
        assert(s.deep_view() =~= Seq::new(k as nat, |i: int| None::<DataSrcV<Seq<char>>>));
    }
    s
}

fn canvas_config_exec(sym: String, settings: Vec<Option<DataSrc<String>>>) -> (r: Config)
    requires
        settings@.len() == 7,
    ensures
        r.deep_view() == canvas_config(sym@, settings.deep_view()),
{
    let ghost sv = settings.deep_view();
    let mut settings = settings;
    let pan_y = crate::ir::pop_dv(&mut settings);
    let pan_x = crate::ir::pop_dv(&mut settings);
    let zoom = crate::ir::pop_dv(&mut settings);
    let max_zoom = crate::ir::pop_dv(&mut settings);
    let min_zoom = crate::ir::pop_dv(&mut settings);
    let world_height = crate::ir::pop_dv(&mut settings);
    let world_width = crate::ir::pop_dv(&mut settings);
    Config::Canvas {
        name: sym,
        world_width,
        world_height,
        min_zoom,
        max_zoom,
        initial_zoom: zoom,
        initial_pan_x: pan_x,
        initial_pan_y: pan_y,
    }
}

fn process_canvas(node: &MdNode, decl: &MdNode, ctx: &mut CalcCtx) -> (r: Vec<Layout>)
    ensures
        (r.deep_view(), final(ctx).deep_view()) == canvas(node.model(), decl.model(), old(ctx).deep_view()),
    decreases node, 0int,
{
    reveal(elems);
    let ghost c0 = ctx.deep_view();
    let ghost nm = node.model();
    let ghost dm = decl.model();
    let name: Option<String> = match text_node(child_at(decl, 1)) {
        Some(t) => {
            let tt = trim_str(t.as_str());
            if tt.unicode_len() > 0 {
                Some(tt)
            } else {
                None
            }
        },
        None => None,
    };
    assert(opt_chars(name) == canvas_name(dm));
    let sym: String = match &name {
        Some(n) => n.clone(),
        None => "canvas".to_owned(),
    };
    let ghost symv = match canvas_name(dm) {
        Some(n) => n,
        None => "canvas"@,
    };
    assert(sym@ == symv);
    let list: Option<&MdNode> = match nested_list(node) {
        Some(body) => config_list_of(body),
        None => None,
    };
    let ghost items = canvas_config_items(nm);
    assert(match list {
        Some(l) => items == Some(trees(l.children@)),
        None => items is None,
    });
    let settings = match list {
        Some(l) => canvas_settings_of(&l.children),
        None => none_settings(),
    };
    let ghost settings_v = match items {
        Some(is) => canvas_settings(is, is.len() as int),
        None => Seq::new(7, |i: int| None),
    };
    assert(settings.deep_view() == settings_v);
    let mut out = open_element_exec();
    match name {
        Some(n) => push_cfg(&mut out, Config::Id(DataSrc::Static(n))),
        None => {},
    }
    let ghost id = match canvas_name(dm) {
        Some(n) => seq![LayoutV::Config(ConfigV::Id(DataSrcV::Static(n)))],
        None => Seq::empty(),
    };
    assert(out.deep_view() =~= open_element() + id);
    let ghost cfg = match items {
        Some(is) => {
            let (cs, _, c1) = config_block(is, None, c0);
            (cs, c1)
        },
        None => (Seq::empty(), c0),
    };
    match list {
        Some(l) => {
            let (cs, _) = process_config_block(&l.children, None, ctx);
            append_dv(&mut out, cs);
        },
        None => {},
    }
    assert(out.deep_view() =~= open_element() + id + cfg.0);
    assert(ctx.deep_view() == cfg.1);
    push_cfg(&mut out, canvas_config_exec(sym.clone(), settings));
    push_el(&mut out, Element::ConfigClosed);
    push_el(&mut out, Element::CanvasWorldOpened { name: sym.clone() });
    push_el(&mut out, Element::ElementOpened { id: None });
    push_el(&mut out, Element::ConfigOpened);
    push_cfg(&mut out, Config::CanvasWorldSize { name: sym });
    push_el(&mut out, Element::ConfigClosed);
    let ghost head = open_element() + id + cfg.0 + seq![
        LayoutV::Config(canvas_config(symv, settings_v)),
        LayoutV::Element(ElementV::ConfigClosed),
        LayoutV::Element(ElementV::CanvasWorldOpened { name: symv }),
        LayoutV::Element(ElementV::ElementOpened { id: None }),
        LayoutV::Element(ElementV::ConfigOpened),
        LayoutV::Config(ConfigV::CanvasWorldSize { name: symv }),
        LayoutV::Element(ElementV::ConfigClosed),
    ];
    assert(out.deep_view() =~= head);
    let ghost tail = seq![
        LayoutV::Element(ElementV::ElementClosed),
        LayoutV::Element(ElementV::CanvasWorldClosed),
        LayoutV::Element(ElementV::ElementClosed),
    ];
    match nested_list(node) {
        Some(body) => {
            proof {
                lemma_children(body);
            }
            let start: usize = if list.is_some() { 1 } else { 0 };
            let kids = process_elements(&body.children, start, ctx);
            let ghost kv = kids.deep_view();
            append_dv(&mut out, kids);
            push_el(&mut out, Element::ElementClosed);
            push_el(&mut out, Element::CanvasWorldClosed);
            push_el(&mut out, Element::ElementClosed);
            assert(out.deep_view() =~= head + kv + tail);
        },
        None => {
            push_el(&mut out, Element::ElementClosed);
            push_el(&mut out, Element::CanvasWorldClosed);
            push_el(&mut out, Element::ElementClosed);
            assert(out.deep_view() =~= head + tail);
        },
    }
    out
}

fn shape_default_of(kw: &str) -> (r: Option<CustomElementSpec>)
    ensures
        r.deep_view() == shape_default(kw@),
{
    if str_eq(kw, "circle") {
        Some(CustomElementSpec::Circle)
    } else if str_eq(kw, "ring") {
        Some(CustomElementSpec::ring())
    } else if str_eq(kw, "line") {
        Some(CustomElementSpec::line())
    } else if str_eq(kw, "arc") {
        Some(CustomElementSpec::arc())
    } else if str_eq(kw, "bezier") {
        Some(CustomElementSpec::bezier())
    } else if str_eq(kw, "render-window") {
        Some(CustomElementSpec::render_window())
    } else {
        None
    }
}

fn if_open_of(kw: &str, arg: &str) -> (r: Option<Element>)
    ensures
        r.deep_view() == if_open(kw@, arg@),
        (r is Some) == (if_open(kw@, Seq::empty()) is Some),
{
    if str_eq(kw, "if") {
        Some(Element::IfOpened { condition: trim_str(trim_str(arg).as_str()) })
    } else if str_eq(kw, "if-not") {
        Some(Element::IfNotOpened { condition: trim_str(trim_str(arg).as_str()) })
    } else if str_eq(kw, "if-index") {
        Some(Element::IfIndexOpened { index: parse_index_arg(trim_str(arg).as_str()) })
    } else if str_eq(kw, "if-index-not") {
        Some(Element::IfIndexNotOpened { index: parse_index_arg(trim_str(arg).as_str()) })
    } else {
        None
    }
}

fn text_content_of(node: &MdNode) -> (r: Vec<Layout>)
    ensures
        r.deep_view() == text_content(node.model()),
{
    let mut r: Vec<Layout> = Vec::new();
    assert(r.deep_view() =~= Seq::empty());
    match nested_list(node) {
        Some(b) => {
            proof {
                lemma_children(b);
            }
            match child_at(b, 1) {
                Some(li) => match &li.kind {
                    MdKind::ListItem => match child_at(li, 0) {
                        Some(par) => match &par.kind {
                            MdKind::Paragraph => match child_at(par, 0) {
                                Some(t) => match &t.kind {
                                    MdKind::Emphasis => match text_node(child_at(t, 0)) {
                                        Some(d) => {
                                            let src = trim_str(trim_str(d.as_str()).as_str());
                                            push_el(&mut r, Element::TextElementClosed(DataSrc::Dynamic(src)));
                                        },
                                        None => {},
                                    },
                                    MdKind::Text(x) => {
                                        push_el(
                                            &mut r,
                                            Element::TextElementClosed(DataSrc::Static(trim_str(x.as_str()))),
                                        );
                                    },
                                    _ => {},
                                },
                                None => {},
                            },
                            _ => {},
                        },
                        None => {},
                    },
                    _ => {},
                },
                None => {},
            }
        },
        None => {},
    }
    assert(r.deep_view() =~= text_content(node.model()));
    r
}

fn empty_layouts() -> (r: Vec<Layout>)
    ensures
        r.deep_view() == Seq::<LayoutV>::empty(),
{
    let r: Vec<Layout> = Vec::new();
    assert(r.deep_view() =~= Seq::empty());
    r
}

fn el_declarations_exec(node: &MdNode, ctx: &mut CalcCtx) -> (r: Vec<Layout>)
    ensures
        (r.deep_view(), final(ctx).deep_view()) == el_declarations(node.model(), old(ctx).deep_view()),
{
    match nested_list(node) {
        Some(b) => {
            proof {
                lemma_children(b);
            }
            let ds = process_variables(&b.children, ctx);
            declaration_layouts(ds)
        },
        None => empty_layouts(),
    }
}

fn el_element_exec(node: &MdNode, decl: &MdNode, ctx: &mut CalcCtx) -> (r: Vec<Layout>)
    ensures
        (r.deep_view(), final(ctx).deep_view()) == el_element(node.model(), decl.model(), old(ctx).deep_view()),
    decreases node, 0int,
{
    reveal(elems);
    let ghost c0 = ctx.deep_view();
    let mut out = open_element_exec();
    append_dv(&mut out, name_id_exec(decl));
    let ghost head = open_element() + name_id(decl.model());
    match nested_list(node) {
        Some(body) => {
            proof {
                lemma_children(body);
            }
            let ghost bm = body.model();
            let ghost bc = body_configs(bm, c0);
            match config_list_of(body) {
                Some(l) => {
                    let (cs, _) = process_config_block(&l.children, None, ctx);
                    append_dv(&mut out, cs);
                },
                None => {},
            }
            assert(out.deep_view() == head + bc.0);
            assert(ctx.deep_view() == bc.1);
            push_el(&mut out, Element::ConfigClosed);
            let ghost mid = head + bc.0 + seq![LayoutV::Element(ElementV::ConfigClosed)];
            let start: usize = if has_config_of(body) { 1 } else { 0 };
            let kids = process_elements(&body.children, start, ctx);
            append_dv(&mut out, kids);
            push_el(&mut out, Element::ElementClosed);
            assert(out.deep_view() =~= mid + kids.deep_view() + seq![LayoutV::Element(ElementV::ElementClosed)]);
        },
        None => {
            push_el(&mut out, Element::ConfigClosed);
            push_el(&mut out, Element::ElementClosed);
            assert(out.deep_view() =~= head + seq![
                LayoutV::Element(ElementV::ConfigClosed),
                LayoutV::Element(ElementV::ElementClosed),
            ]);
        },
    }
    out
}

fn el_grow_exec() -> (r: Vec<Layout>)
    ensures
        r.deep_view() == open_element() + seq![
            LayoutV::Config(ConfigV::GrowAll),
            LayoutV::Element(ElementV::ConfigClosed),
            LayoutV::Element(ElementV::ElementClosed),
        ],
{
    let mut out = open_element_exec();
    push_cfg(&mut out, Config::GrowAll);
    push_el(&mut out, Element::ConfigClosed);
    push_el(&mut out, Element::ElementClosed);
    assert(out.deep_view() =~= open_element() + seq![
        LayoutV::Config(ConfigV::GrowAll),
        LayoutV::Element(ElementV::ConfigClosed),
        LayoutV::Element(ElementV::ElementClosed),
    ]);
    out
}

fn el_text_exec(node: &MdNode, ctx: &mut CalcCtx) -> (r: Vec<Layout>)
    ensures
        (r.deep_view(), final(ctx).deep_view()) == el_text(node.model(), old(ctx).deep_view()),
{
    let ghost c0 = ctx.deep_view();
    let ghost tc = match text_config_items(node.model()) {
        Some(items) => {
            let (cs, _, c1) = config_block(items, None, c0);
            (cs, c1)
        },
        None => (Seq::empty(), c0),
    };
    let mut out = empty_layouts();
    push_el(&mut out, Element::TextElementOpened);
    push_el(&mut out, Element::TextConfigOpened);
    let ghost head = seq![
        LayoutV::Element(ElementV::TextElementOpened),
        LayoutV::Element(ElementV::TextConfigOpened),
    ];
    assert(out.deep_view() =~= head);
    match nested_list(node) {
        Some(b) => {
            proof {
                lemma_children(b);
            }
            if b.children.len() > 0 {
                match &b.children[0].kind {
                    MdKind::ListItem => match nested_list(&b.children[0]) {
                        Some(l) => {
                            proof {
                                lemma_children(l);
                            }
                            let (cs, _) = process_config_block(&l.children, None, ctx);
                            append_dv(&mut out, cs);
                        },
                        None => {},
                    },
                    _ => {},
                }
            }
        },
        None => {},
    }
    assert(out.deep_view() == head + tc.0);
    assert(ctx.deep_view() == tc.1);
    push_el(&mut out, Element::TextConfigClosed);
    let ghost mid = head + tc.0 + seq![LayoutV::Element(ElementV::TextConfigClosed)];
    let t = text_content_of(node);
    append_dv(&mut out, t);
    assert(out.deep_view() =~= mid + text_content(node.model()));
    out
}

fn el_use_exec(node: &MdNode, decl: &MdNode, ctx: &mut CalcCtx) -> (r: Vec<Layout>)
    ensures
        (r.deep_view(), final(ctx).deep_view()) == el_use(node.model(), decl.model(), old(ctx).deep_view()),
{
    match (text_node(child_at(decl, 1)), nested_list(node)) {
        (Some(rn), Some(b)) => {
            proof {
                lemma_children(b);
            }
            ctx.push_scope();
            let ds = process_variables(&b.children, ctx);
            ctx.pop_scope();
            let mut out = empty_layouts();
            push_el(&mut out, Element::UseOpened);
            let dl = declaration_layouts(ds);
            let ghost dlv = dl.deep_view();
            append_dv(&mut out, dl);
            let name = trim_str(rn.as_str());
            push_el(&mut out, Element::UseClosed(name));
            assert(out.deep_view() =~= seq![LayoutV::Element(ElementV::UseOpened)] + dlv + seq![
                LayoutV::Element(ElementV::UseClosed(trim(rn@))),
            ]);
            out
        },
        _ => empty_layouts(),
    }
}

fn empty_decls() -> (r: Vec<(String, DataSrc<crate::ir::Declaration>)>)
    ensures
        r.deep_view() == Seq::<(Seq<char>, DataSrcV<crate::ir::DeclarationV>)>::empty(),
{
    let e: Vec<(String, DataSrc<crate::ir::Declaration>)> = Vec::new();
    assert(e.deep_view() =~= Seq::empty());
    e
}

fn el_list_exec(node: &MdNode, decl: &MdNode, ctx: &mut CalcCtx) -> (r: Vec<Layout>)
    ensures
        (r.deep_view(), final(ctx).deep_view()) == el_list(node.model(), decl.model(), old(ctx).deep_view()),
    decreases node, 0int,
{
    reveal(elems);
    match (text_node(child_at(decl, 1)), nested_list(node)) {
        (Some(ls), Some(lc)) => {
            proof {
                lemma_children(lc);
            }
            let has_decls = lc.children.len() > 0 && match item_keyword_of(&lc.children[0]) {
                Some(kw) => str_eq(kw.as_str(), "declarations"),
                None => false,
            };
            ctx.push_scope();
            let ds = if has_decls {
                match nested_list(&lc.children[0]) {
                    Some(dl) => match &lc.children[0].kind {
                        MdKind::ListItem => {
                            proof {
                                lemma_children(dl);
                            }
                            process_variables(&dl.children, ctx)
                        },
                        _ => empty_decls(),
                    },
                    None => empty_decls(),
                }
            } else {
                empty_decls()
            };
            let start: usize = if has_decls { 1 } else { 0 };
            let kids = process_elements(&lc.children, start, ctx);
            ctx.pop_scope();
            let mut out = empty_layouts();
            push_el(&mut out, Element::ListOpened);
            let dl = declaration_layouts(ds);
            let ghost dlv = dl.deep_view();
            let ghost kv = kids.deep_view();
            append_dv(&mut out, dl);
            append_dv(&mut out, kids);
            push_el(&mut out, Element::ListClosed(trim_str(trim_str(ls.as_str()).as_str())));
            assert(out.deep_view() =~= seq![LayoutV::Element(ElementV::ListOpened)] + dlv + kv + seq![
                LayoutV::Element(ElementV::ListClosed(trim(trim(ls@)))),
            ]);
            out
        },
        _ => empty_layouts(),
    }
}

fn el_item_exec(node: &MdNode, decl: &MdNode, ctx: &mut CalcCtx) -> (r: Vec<Layout>)
    ensures
        (r.deep_view(), final(ctx).deep_view()) == el_item(node.model(), decl.model(), old(ctx).deep_view()),
    decreases node, 0int,
{
    reveal(elems);
    match text_node(child_at(decl, 1)) {
        Some(args) => match two_words_of(args.as_str()) {
            Some((ln, ia)) => {
                let kids = match nested_list(node) {
                    Some(b) => {
                        proof {
                            lemma_children(b);
                        }
                        process_elements(&b.children, 0, ctx)
                    },
                    None => empty_layouts(),
                };
                let ghost kv = kids.deep_view();
                let mut out = empty_layouts();
                push_el(&mut out, Element::ItemOpened);
                append_dv(&mut out, kids);
                let list = trim_str(ln.as_str());
                let index = parse_index_arg(ia.as_str());
                let ghost closed = LayoutV::Element(
                    ElementV::ItemClosed { list: trim(ln@), index: index_arg(ia@) },
                );
                push_el(&mut out, Element::ItemClosed { list, index });
                assert(out.deep_view() =~= seq![LayoutV::Element(ElementV::ItemOpened)] + kv + seq![closed]);
                out
            },
            None => empty_layouts(),
        },
        None => empty_layouts(),
    }
}

fn el_if_exec(node: &MdNode, decl: &MdNode, et: &str, ctx: &mut CalcCtx) -> (r: Vec<Layout>)
    requires
        if_open(et@, Seq::empty()) is Some,
    ensures
        (r.deep_view(), final(ctx).deep_view()) == el_if(node.model(), decl.model(), et@, old(ctx).deep_view()),
    decreases node, 0int,
{
    reveal(elems);
    match (text_node(child_at(decl, 1)), nested_list(node)) {
        (Some(arg), Some(b)) => match if_open_of(et, arg.as_str()) {
            Some(open) => {
                proof {
                    lemma_children(b);
                }
                let ghost ov = open.deep_view();
                let kids = process_elements(&b.children, 0, ctx);
                let ghost kv = kids.deep_view();
                let mut out = empty_layouts();
                push_el(&mut out, open);
                append_dv(&mut out, kids);
                push_el(&mut out, Element::IfClosed);
                assert(out.deep_view() =~= seq![LayoutV::Element(ov)] + kv + seq![
                    LayoutV::Element(ElementV::IfClosed),
                ]);
                out
            },
            None => empty_layouts(),
        },
        _ => empty_layouts(),
    }
}

fn el_fn_exec(decl: &MdNode, ctx: &CalcCtx) -> (r: Vec<Layout>)
    ensures
        (r.deep_view(), ctx.deep_view()) == el_fn(decl.model(), ctx.deep_view()),
{
    let mut out = empty_layouts();
    match emph_node(child_at(decl, 2)) {
        Some(n) => {
            push_el(&mut out, Element::FunctionCall(trim_str(n.as_str())));
            assert(out.deep_view() =~= seq![LayoutV::Element(ElementV::FunctionCall(trim(n@)))]);
        },
        None => {},
    }
    out
}

/// The commands of the element list item `node` (see [`elem`]).
pub fn process_element(node: &MdNode, ctx: &mut CalcCtx) -> (r: Vec<Layout>)
    ensures
        (r.deep_view(), final(ctx).deep_view()) == elem(node.model(), old(ctx).deep_view()),
    decreases node, 1int,
{
    reveal(elems);
    let (decl, et) = match item_head_of(node) {
        Some(h) => h,
        None => {
            return empty_layouts();
        },
    };
    let et = et.as_str();
    if str_eq(et, "declarations") {
        return el_declarations_exec(node, ctx);
    }
    if str_eq(et, "element") {
        return el_element_exec(node, decl, ctx);
    }
    match shape_default_of(et) {
        Some(sp) => {
            return process_shape(node, decl, sp, ctx);
        },
        None => {},
    }
    if str_eq(et, "canvas") {
        process_canvas(node, decl, ctx)
    } else if str_eq(et, "grow") {
        el_grow_exec()
    } else if str_eq(et, "text") {
        el_text_exec(node, ctx)
    } else if str_eq(et, "use") {
        el_use_exec(node, decl, ctx)
    } else if str_eq(et, "list") {
        el_list_exec(node, decl, ctx)
    } else if str_eq(et, "item") {
        el_item_exec(node, decl, ctx)
    } else if if_open_of(et, "").is_some() {
        el_if_exec(node, decl, et, ctx)
    } else if str_eq(et, "fn") {
        el_fn_exec(decl, ctx)
    } else {
        empty_layouts()
    }
}

} // verus!
