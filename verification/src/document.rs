//! A whole layout document: the keyword pre-pass, the markdown parse, then
//! the page body (`# ...`), reusable snippets (`## name` config snippets,
//! `### name` element snippets) and the `#### TML ...` header with its
//! resource directives and `calc` functions.
use vstd::prelude::*;
use crate::args::{child, child_at, text_of, text_node, opt_chars};
use crate::calc::{CalcFn, CalcFnV, parse_fn, spec_parse_fn};
use crate::configs::{config_block, process_config_block, lemma_children};
use crate::ctx::{CalcCtx, CalcEntry, CalcEntryV, CtxV, ctx_init};
use crate::decls::para_head;
use crate::elements::{elem, process_element};
use crate::ir::{CursorIcon, Element, ElementV, Layout, LayoutV, push_dv, append_dv, set_dv};
use crate::literals::parse_u16;
use crate::md::{MdKind, MdKindV, MdNode, MdTree, trees, markdown_document, parse_markdown};
use crate::prepass::{
    add_missing_keyword_backticks, lemma_add_missing_keyword_backticks_idempotent,
    spec_add_missing_keyword_backticks,
};
use crate::args::u16_str;
use crate::text::{trim, trim_str, str_eq};

verus! {

/// An image a document asks to be loaded: `` - `load` [atlas](path) ``.
#[derive(Clone, Debug, PartialEq, Eq)]
pub struct ImageLoad {
    pub atlas: String,
    pub path: String,
}

/// The model of an [`ImageLoad`].
pub struct ImageLoadV {
    pub atlas: Seq<char>,
    pub path: Seq<char>,
}

impl DeepView for ImageLoad {
    type V = ImageLoadV;

    open spec fn deep_view(&self) -> ImageLoadV {
        ImageLoadV { atlas: self.atlas@, path: self.path@ }
    }
}

/// A font a document asks to be loaded: `` - `font` [id](path) ``.
#[derive(Clone, Debug, PartialEq, Eq)]
pub struct FontLoad {
    pub id: u16,
    pub path: String,
}

/// The model of a [`FontLoad`].
pub struct FontLoadV {
    pub id: u16,
    pub path: Seq<char>,
}

impl DeepView for FontLoad {
    type V = FontLoadV;

    open spec fn deep_view(&self) -> FontLoadV {
        FontLoadV { id: self.id, path: self.path@ }
    }
}

/// A custom shader a document asks to be loaded: `` - `shader` [name](path) ``.
#[derive(Clone, Debug, PartialEq, Eq)]
pub struct ShaderLoad {
    pub name: String,
    pub path: String,
}

/// The model of a [`ShaderLoad`].
pub struct ShaderLoadV {
    pub name: Seq<char>,
    pub path: Seq<char>,
}

impl DeepView for ShaderLoad {
    type V = ShaderLoadV;

    open spec fn deep_view(&self) -> ShaderLoadV {
        ShaderLoadV { name: self.name@, path: self.path@ }
    }
}

/// The files a document's `#### TML ...` header asks to be loaded.
#[derive(Clone, Debug, Default, PartialEq)]
pub struct LayoutResources {
    pub image_loads: Vec<ImageLoad>,
    pub font_loads: Vec<FontLoad>,
    pub shader_loads: Vec<ShaderLoad>,
}

/// The model of a [`LayoutResources`].
pub struct LayoutResourcesV {
    pub image_loads: Seq<ImageLoadV>,
    pub font_loads: Seq<FontLoadV>,
    pub shader_loads: Seq<ShaderLoadV>,
}

impl DeepView for LayoutResources {
    type V = LayoutResourcesV;

    open spec fn deep_view(&self) -> LayoutResourcesV {
        LayoutResourcesV {
            image_loads: self.image_loads.deep_view(),
            font_loads: self.font_loads.deep_view(),
            shader_loads: self.shader_loads.deep_view(),
        }
    }
}

/// One header directive.
pub enum HeaderDirective {
    Image(ImageLoad),
    Font(FontLoad),
    Shader(ShaderLoad),
}

/// The model of a [`HeaderDirective`].
pub enum HeaderDirectiveV {
    Image(ImageLoadV),
    Font(FontLoadV),
    Shader(ShaderLoadV),
}

impl DeepView for HeaderDirective {
    type V = HeaderDirectiveV;

    open spec fn deep_view(&self) -> HeaderDirectiveV {
        match self {
            HeaderDirective::Image(l) => HeaderDirectiveV::Image(l.deep_view()),
            HeaderDirective::Font(l) => HeaderDirectiveV::Font(l.deep_view()),
            HeaderDirective::Shader(l) => HeaderDirectiveV::Shader(l.deep_view()),
        }
    }
}

/// A compiled document: the page body, the reusable snippets by name (each
/// name once), the resources its header asks for, its `calc` functions (each
/// name once) and the `calc` expressions its declarations refer to.
#[derive(Debug)]
pub struct ParsedLayout {
    pub body: Vec<Layout>,
    pub reusables: Vec<(String, Vec<Layout>)>,
    pub image_loads: Vec<ImageLoad>,
    pub font_loads: Vec<FontLoad>,
    pub shader_loads: Vec<ShaderLoad>,
    pub calc_fns: Vec<(String, CalcFn)>,
    pub calc_table: Vec<CalcEntry>,
}

/// The model of a [`ParsedLayout`].
pub struct ParsedLayoutV {
    pub body: Seq<LayoutV>,
    pub reusables: Seq<(Seq<char>, Seq<LayoutV>)>,
    pub image_loads: Seq<ImageLoadV>,
    pub font_loads: Seq<FontLoadV>,
    pub shader_loads: Seq<ShaderLoadV>,
    pub calc_fns: Seq<(Seq<char>, CalcFnV)>,
    pub calc_table: Seq<CalcEntryV>,
}

impl DeepView for ParsedLayout {
    type V = ParsedLayoutV;

    open spec fn deep_view(&self) -> ParsedLayoutV {
        ParsedLayoutV {
            body: self.body.deep_view(),
            reusables: self.reusables.deep_view(),
            image_loads: self.image_loads.deep_view(),
            font_loads: self.font_loads.deep_view(),
            shader_loads: self.shader_loads.deep_view(),
            calc_fns: self.calc_fns.deep_view(),
            calc_table: self.calc_table.deep_view(),
        }
    }
}

/// The index of the entry named `k` in `rs[..n]`, the last one if several.
pub open spec fn key_index<V>(rs: Seq<(Seq<char>, V)>, k: Seq<char>, n: int) -> Option<int>
    decreases n,
{
    if n <= 0 || n > rs.len() {
        None
    } else if rs[n - 1].0 == k {
        Some(n - 1)
    } else {
        key_index(rs, k, n - 1)
    }
}

/// `rs` with `k` bound to `v`: the entry named `k` replaced, or a new entry
/// added at the end.
pub open spec fn map_insert<V>(rs: Seq<(Seq<char>, V)>, k: Seq<char>, v: V) -> Seq<(Seq<char>, V)> {
    match key_index(rs, k, rs.len() as int) {
        Some(i) => rs.update(i, (k, v)),
        None => rs.push((k, v)),
    }
}

/// The entries of `rs` as a map.
pub open spec fn pairs_map<V>(rs: Seq<(Seq<char>, V)>) -> Map<Seq<char>, V>
    decreases rs.len(),
{
    if rs.len() == 0 {
        Map::empty()
    } else {
        pairs_map(rs.drop_last()).insert(rs.last().0, rs.last().1)
    }
}

/// The text of `t` starts with `TML`.
pub open spec fn starts_tml(t: Seq<char>) -> bool {
    t.len() >= 3 && t[0] == 'T' && t[1] == 'M' && t[2] == 'L'
}

/// A heading that opens the `#### TML ...` header block.
pub open spec fn is_tml_heading(n: MdTree) -> bool {
    n.kind == MdKindV::Heading(4u8) && match text_of(child(n, 0)) {
        Some(t) => starts_tml(trim(t)),
        None => false,
    }
}

/// The first inline code of `cs[k..]`.
pub open spec fn first_code(cs: Seq<MdTree>, k: int) -> Option<Seq<char>>
    decreases cs.len() - k,
{
    if k < 0 || k >= cs.len() {
        None
    } else {
        match cs[k].kind {
            MdKindV::InlineCode(c) => Some(c),
            _ => first_code(cs, k + 1),
        }
    }
}

/// The `calc` function a header item defines: `` - `calc` `name(args) = expr` ``.
pub open spec fn calc_item(item: MdTree) -> Option<(Seq<char>, CalcFnV)> {
    if item.kind is ListItem {
        match para_head(item) {
            Some((p, kw)) => if kw == "calc"@ {
                match first_code(p.children, 1) {
                    Some(sig) => match spec_parse_fn(trim(sig)) {
                        Some((name, params, body)) => Some((name, CalcFnV { params, body })),
                        None => None,
                    },
                    None => None,
                }
            } else {
                None
            },
            None => None,
        }
    } else {
        None
    }
}

/// The `calc` functions of the header items `items[..n]`, each name bound
/// once (a later definition replaces an earlier one).
pub open spec fn calc_items(items: Seq<MdTree>, fns: Seq<(Seq<char>, CalcFnV)>, n: int) -> Seq<(Seq<char>, CalcFnV)>
    decreases n,
{
    if n <= 0 || n > items.len() {
        fns
    } else {
        let f = calc_items(items, fns, n - 1);
        match calc_item(items[n - 1]) {
            Some((name, func)) => map_insert(f, name, func),
            None => f,
        }
    }
}

/// The `calc` functions of the top-level nodes `nodes[..n]`: those defined in
/// lists that follow a `#### TML ...` heading (until the next heading), and
/// whether the last heading seen opens the header.
pub open spec fn calc_scan(nodes: Seq<MdTree>, n: int) -> (Seq<(Seq<char>, CalcFnV)>, bool)
    decreases n,
{
    if n <= 0 || n > nodes.len() {
        (Seq::empty(), false)
    } else {
        let (fns, in_header) = calc_scan(nodes, n - 1);
        let node = nodes[n - 1];
        match node.kind {
            MdKindV::Heading(_) => (fns, is_tml_heading(node)),
            MdKindV::List => if in_header {
                (calc_items(node.children, fns, node.children.len() as int), in_header)
            } else {
                (fns, in_header)
            },
            _ => (fns, in_header),
        }
    }
}

/// The `calc` functions a document defines in its header.
pub open spec fn calc_fns_of(root: MdTree) -> Seq<(Seq<char>, CalcFnV)> {
    calc_scan(root.children, root.children.len() as int).0
}

/// The first link of `cs[k..]`: its url and its first text child, trimmed.
pub open spec fn first_link(cs: Seq<MdTree>, k: int) -> Option<(Seq<char>, Option<Seq<char>>)>
    decreases cs.len() - k,
{
    if k < 0 || k >= cs.len() {
        None
    } else {
        match cs[k].kind {
            MdKindV::Link(url) => Some((url, first_text_trimmed(cs[k].children, 0))),
            _ => first_link(cs, k + 1),
        }
    }
}

/// The first text of `cs[k..]`, trimmed.
pub open spec fn first_text_trimmed(cs: Seq<MdTree>, k: int) -> Option<Seq<char>>
    decreases cs.len() - k,
{
    if k < 0 || k >= cs.len() {
        None
    } else {
        match cs[k].kind {
            MdKindV::Text(t) => Some(trim(t)),
            _ => first_text_trimmed(cs, k + 1),
        }
    }
}

/// The directive of a header item (`` - `load` [atlas](path) ``, `` - `font`
/// [id](path) ``, `` - `shader` [name](path) ``): the link text is the name
/// (a font id is a `u16`), the link url the path; neither may be blank.
pub open spec fn header_directive(item: MdTree) -> Option<HeaderDirectiveV> {
    if item.kind is ListItem {
        match para_head(item) {
            Some((p, kw)) => match first_link(p.children, 0) {
                Some((url, Some(name))) => {
                    let path = trim(url);
                    if name.len() == 0 || path.len() == 0 {
                        None
                    } else if kw == "load"@ {
                        Some(HeaderDirectiveV::Image(ImageLoadV { atlas: name, path }))
                    } else if kw == "font"@ {
                        match parse_u16(name) {
                            Some(id) => Some(HeaderDirectiveV::Font(FontLoadV { id, path })),
                            None => None,
                        }
                    } else if kw == "shader"@ {
                        Some(HeaderDirectiveV::Shader(ShaderLoadV { name, path }))
                    } else {
                        None
                    }
                },
                _ => None,
            },
            None => None,
        }
    } else {
        None
    }
}

/// Where the document walk is: outside any block, in the header, in the page
/// body, or in a reusable snippet (`##` configs, `###` elements).
#[derive(Clone, Copy, Debug, PartialEq, Eq)]
pub enum ParsingMode {
    Outside,
    Header,
    Body,
    ReusableElements,
    ReusableConfig,
}

/// The state of the document walk.
pub struct DocSt {
    pub mode: ParsingMode,
    pub name: Seq<char>,
    pub out: ParsedLayoutV,
    pub ctx: CtxV,
}

/// The mode and snippet name after the heading `n`: `#` opens the page
/// body, `##` a config snippet and `###` an element snippet named by the
/// heading text, `#### TML ...` the header; any other heading closes the
/// block. A heading without text changes nothing.
pub open spec fn heading_change(n: MdTree, mode: ParsingMode, name: Seq<char>) -> (ParsingMode, Seq<char>) {
    match (n.kind, text_of(child(n, 0))) {
        (MdKindV::Heading(d), Some(t)) => if d == 1 {
            (ParsingMode::Body, name)
        } else if d == 2 {
            (ParsingMode::ReusableConfig, trim(t))
        } else if d == 3 {
            (ParsingMode::ReusableElements, trim(t))
        } else if d == 4 && starts_tml(trim(t)) {
            (ParsingMode::Header, name)
        } else {
            (ParsingMode::Outside, name)
        },
        _ => (mode, name),
    }
}

/// The walk state after a heading.
pub open spec fn heading_mode(n: MdTree, st: DocSt) -> DocSt {
    let (mode, name) = heading_change(n, st.mode, st.name);
    DocSt { mode, name, ..st }
}

/// The loads after the header items `items[..n]`.
pub open spec fn header_items(items: Seq<MdTree>, r: LayoutResourcesV, n: int) -> LayoutResourcesV
    decreases n,
{
    if n <= 0 || n > items.len() {
        r
    } else {
        let r1 = header_items(items, r, n - 1);
        match header_directive(items[n - 1]) {
            Some(HeaderDirectiveV::Image(l)) => LayoutResourcesV { image_loads: r1.image_loads.push(l), ..r1 },
            Some(HeaderDirectiveV::Font(l)) => LayoutResourcesV { font_loads: r1.font_loads.push(l), ..r1 },
            Some(HeaderDirectiveV::Shader(l)) => LayoutResourcesV { shader_loads: r1.shader_loads.push(l), ..r1 },
            None => r1,
        }
    }
}

/// The elements of a body list `items[..n]`, appended to `out`.
pub open spec fn body_items(items: Seq<MdTree>, out: Seq<LayoutV>, c: CtxV, n: int) -> (Seq<LayoutV>, CtxV)
    decreases n,
{
    if n <= 0 || n > items.len() {
        (out, c)
    } else {
        let (o1, c1) = body_items(items, out, c, n - 1);
        let (e, c2) = elem(items[n - 1], c1);
        (o1 + e, c2)
    }
}

/// The reusable element snippets of a `###` list `items[..n]`: each item
/// rebinds the snippet name to its own commands.
pub open spec fn snippet_items(items: Seq<MdTree>, name: Seq<char>, rs: Seq<(Seq<char>, Seq<LayoutV>)>, c: CtxV, n: int) -> (Seq<(Seq<char>, Seq<LayoutV>)>, CtxV)
    decreases n,
{
    if n <= 0 || n > items.len() {
        (rs, c)
    } else {
        let (r1, c1) = snippet_items(items, name, rs, c, n - 1);
        let (e, c2) = elem(items[n - 1], c1);
        (map_insert(r1, name, e), c2)
    }
}

/// The state after a top-level list.
pub open spec fn doc_list(list: MdTree, st: DocSt) -> DocSt {
    let items = list.children;
    let n = items.len() as int;
    match st.mode {
        ParsingMode::Header => {
            let r = header_items(
                items,
                LayoutResourcesV {
                    image_loads: st.out.image_loads,
                    font_loads: st.out.font_loads,
                    shader_loads: st.out.shader_loads,
                },
                n,
            );
            DocSt {
                out: ParsedLayoutV {
                    image_loads: r.image_loads,
                    font_loads: r.font_loads,
                    shader_loads: r.shader_loads,
                    ..st.out
                },
                ..st
            }
        },
        ParsingMode::ReusableConfig => {
            let (cs, _, c1) = config_block(items, None, st.ctx);
            DocSt {
                out: ParsedLayoutV { reusables: map_insert(st.out.reusables, st.name, cs), ..st.out },
                ctx: c1,
                ..st
            }
        },
        ParsingMode::ReusableElements => {
            let (rs, c1) = snippet_items(items, st.name, st.out.reusables, st.ctx, n);
            DocSt { out: ParsedLayoutV { reusables: rs, ..st.out }, ctx: c1, ..st }
        },
        ParsingMode::Body => {
            let (b, c1) = body_items(
                items,
                st.out.body.push(LayoutV::Element(ElementV::Pointer(CursorIcon::Default))),
                st.ctx,
                n,
            );
            DocSt { out: ParsedLayoutV { body: b, ..st.out }, ctx: c1, ..st }
        },
        ParsingMode::Outside => st,
    }
}

/// The state after the top-level nodes `nodes[..n]`.
pub open spec fn doc_walk(nodes: Seq<MdTree>, st: DocSt, n: int) -> DocSt
    decreases n,
{
    if n <= 0 || n > nodes.len() {
        st
    } else {
        let s1 = doc_walk(nodes, st, n - 1);
        let node = nodes[n - 1];
        match node.kind {
            MdKindV::Heading(_) => heading_mode(node, s1),
            MdKindV::List => doc_list(node, s1),
            _ => s1,
        }
    }
}

/// The compiled form of the document tree `root`.
pub open spec fn document(root: MdTree) -> ParsedLayoutV {
    let init = DocSt {
        mode: ParsingMode::Outside,
        name: Seq::empty(),
        out: ParsedLayoutV {
            body: Seq::empty(),
            reusables: Seq::empty(),
            image_loads: Seq::empty(),
            font_loads: Seq::empty(),
            shader_loads: Seq::empty(),
            calc_fns: calc_fns_of(root),
            calc_table: Seq::empty(),
        },
        ctx: ctx_init(),
    };
    let st = doc_walk(root.children, init, root.children.len() as int);
    ParsedLayoutV { calc_table: st.ctx.table, ..st.out }
}

/// What [`process_layout`] makes of the document source `file`: the compiled
/// document, or the error for a source the markdown parser rejects.
pub open spec fn spec_process_layout(file: Seq<char>) -> Result<ParsedLayoutV, Seq<char>> {
    match markdown_document(spec_add_missing_keyword_backticks(file)) {
        Some(root) => Ok(document(root)),
        None => Err("failed to parse layout markdown"@),
    }
}

/// A document written with bare leading keywords compiles to the same result
/// as the one the pre-pass makes of it, with the keywords in backticks.
pub proof fn lemma_process_layout_ignores_backticks(file: Seq<char>)
    ensures
        spec_process_layout(spec_add_missing_keyword_backticks(file)) == spec_process_layout(file),
{
    lemma_add_missing_keyword_backticks_idempotent(file);
}

/// Binds `k` to `v` in `rs` (see [`map_insert`]).
pub fn insert_pair<T: DeepView>(rs: &mut Vec<(String, T)>, k: String, v: T)
    ensures
        final(rs).deep_view() == map_insert(old(rs).deep_view(), k@, v.deep_view()),
{
    let ghost d = rs.deep_view();
    let mut i = rs.len();
    let mut found = false;
    while i > 0 && !found
        invariant
            i <= rs@.len(),
            d == rs.deep_view(),
            key_index(d, k@, d.len() as int) == if found { Some(i - 1) } else { key_index(d, k@, i as int) },
            found ==> i > 0,
        decreases i + (if found { 0int } else { 1int }),
    {
        assert(d[i - 1] == rs@[i - 1].deep_view());
        if rs[i - 1].0 == k {
            found = true;
        } else {
            i = i - 1;
        }
    }
    if found {
        let ghost pair = (k@, v.deep_view());
        set_dv(rs, i - 1, (k, v));
    } else {
        push_dv(rs, (k, v));
    }
}

fn first_code_of(cs: &Vec<MdNode>, k: usize) -> (r: Option<String>)
    ensures
        opt_chars(r) == first_code(trees(cs@), k as int),
{
    let ghost ts = trees(cs@);
    let mut j = k;
    while j < cs.len()
        invariant
            k <= j,
            ts == trees(cs@),
            first_code(ts, k as int) == first_code(ts, j as int),
        decreases cs@.len() - j,
    {
        match &cs[j].kind {
            MdKind::InlineCode(c) => {
                return Some(c.clone());
            },
            _ => {},
        }
        j = j + 1;
    }
    None
}

fn calc_item_of(item: &MdNode) -> (r: Option<(String, CalcFn)>)
    ensures
        r.deep_view() == calc_item(item.model()),
{
    match &item.kind {
        MdKind::ListItem => {},
        _ => {
            return None;
        },
    }
    match crate::decls::para_head_of(item) {
        Some((p, kw)) => if str_eq(kw.as_str(), "calc") {
            proof {
                lemma_children(p);
            }
            match first_code_of(&p.children, 1) {
                Some(sig) => match parse_fn(trim_str(sig.as_str()).as_str()) {
                    Ok((name, func)) => Some((name, func)),
                    Err(_) => None,
                },
                None => None,
            }
        } else {
            None
        },
        None => None,
    }
}

/// The `calc` functions the document tree `root` defines (see
/// [`calc_fns_of`]).
pub fn collect_calc_fns(root: &MdNode) -> (r: Vec<(String, CalcFn)>)
    ensures
        r.deep_view() == calc_fns_of(root.model()),
{
    proof {
        lemma_children(root);
    }
    let ghost nodes = root.model().children;
    let mut fns: Vec<(String, CalcFn)> = Vec::new();
    let mut in_header = false;
    let mut n: usize = 0;
    assert(fns.deep_view() =~= Seq::empty());
    while n < root.children.len()
        invariant
            n <= root.children@.len(),
            nodes == trees(root.children@),
            (fns.deep_view(), in_header) == calc_scan(nodes, n as int),
        decreases root.children@.len() - n,
    {
        let node = &root.children[n];
        assert(nodes[n as int] == node.model());
        proof {
            lemma_children(node);
        }
        match &node.kind {
            MdKind::Heading(d) => {
                in_header = *d == 4 && match text_node(child_at(node, 0)) {
                    Some(t) => {
                        let tt = trim_str(t.as_str());
                        let v = crate::text::chars_of(tt.as_str());
                        v.len() >= 3 && v[0] == 'T' && v[1] == 'M' && v[2] == 'L'
                    },
                    None => false,
                };
            },
            MdKind::List => if in_header {
                let ghost base = fns.deep_view();
                let mut k: usize = 0;
                while k < node.children.len()
                    invariant
                        k <= node.children@.len(),
                        node.model().children == trees(node.children@),
                        fns.deep_view() == calc_items(node.model().children, base, k as int),
                    decreases node.children@.len() - k,
                {
                    assert(node.model().children[k as int] == node.children@[k as int].model());
                    match calc_item_of(&node.children[k]) {
                        Some((name, func)) => insert_pair(&mut fns, name, func),
                        None => {},
                    }
                    k = k + 1;
                }
            },
            _ => {},
        }
        n = n + 1;
    }
    fns
}

fn first_text_trimmed_of(cs: &Vec<MdNode>) -> (r: Option<String>)
    ensures
        opt_chars(r) == first_text_trimmed(trees(cs@), 0),
{
    let ghost ts = trees(cs@);
    let mut j: usize = 0;
    while j < cs.len()
        invariant
            ts == trees(cs@),
            first_text_trimmed(ts, 0) == first_text_trimmed(ts, j as int),
        decreases cs@.len() - j,
    {
        match &cs[j].kind {
            MdKind::Text(t) => {
                return Some(trim_str(t.as_str()));
            },
            _ => {},
        }
        j = j + 1;
    }
    None
}

fn first_link_of(cs: &Vec<MdNode>) -> (r: Option<(String, Option<String>)>)
    ensures
        match r {
            Some((u, t)) => first_link(trees(cs@), 0) == Some((u@, opt_chars(t))),
            None => first_link(trees(cs@), 0) is None,
        },
{
    let ghost ts = trees(cs@);
    let mut j: usize = 0;
    while j < cs.len()
        invariant
            ts == trees(cs@),
            first_link(ts, 0) == first_link(ts, j as int),
        decreases cs@.len() - j,
    {
        match &cs[j].kind {
            MdKind::Link(url) => {
                proof {
                    lemma_children(&cs@[j as int]);
                }
                return Some((url.clone(), first_text_trimmed_of(&cs[j].children)));
            },
            _ => {},
        }
        j = j + 1;
    }
    None
}

/// The directive of the header item `item` (see [`header_directive`]).
pub fn process_header_directive(item: &MdNode) -> (r: Option<HeaderDirective>)
    ensures
        r.deep_view() == header_directive(item.model()),
{
    match &item.kind {
        MdKind::ListItem => {},
        _ => {
            return None;
        },
    }
    let (p, kw) = match crate::decls::para_head_of(item) {
        Some(h) => h,
        None => {
            return None;
        },
    };
    proof {
        lemma_children(p);
    }
    match first_link_of(&p.children) {
        Some((url, Some(name))) => {
            let path = trim_str(url.as_str());
            if name.unicode_len() == 0 || path.unicode_len() == 0 {
                None
            } else if str_eq(kw.as_str(), "load") {
                Some(HeaderDirective::Image(ImageLoad { atlas: name, path }))
            } else if str_eq(kw.as_str(), "font") {
                match u16_str(name.as_str()) {
                    Some(id) => Some(HeaderDirective::Font(FontLoad { id, path })),
                    None => None,
                }
            } else if str_eq(kw.as_str(), "shader") {
                Some(HeaderDirective::Shader(ShaderLoad { name, path }))
            } else {
                None
            }
        },
        _ => None,
    }
}

/// The state of the walk in a [`DocSt`].
pub open spec fn doc_st(mode: ParsingMode, name: &String, out: &ParsedLayout, ctx: &CalcCtx) -> DocSt {
    DocSt { mode, name: name@, out: out.deep_view(), ctx: ctx.deep_view() }
}

fn heading_exec(node: &MdNode, mode: &mut ParsingMode, name: &mut String)
    requires
        (node.model().kind is Heading),
    ensures
        (*final(mode), final(name)@) == heading_change(node.model(), *old(mode), old(name)@),
{
    let d = match &node.kind {
        MdKind::Heading(d) => *d,
        _ => 0,
    };
    match text_node(child_at(node, 0)) {
        Some(t) => {
            let tt = trim_str(t.as_str());
            if d == 1 {
                *mode = ParsingMode::Body;
            } else if d == 2 {
                *mode = ParsingMode::ReusableConfig;
                *name = tt;
            } else if d == 3 {
                *mode = ParsingMode::ReusableElements;
                *name = tt;
            } else {
                let v = crate::text::chars_of(tt.as_str());
                if d == 4 && v.len() >= 3 && v[0] == 'T' && v[1] == 'M' && v[2] == 'L' {
                    *mode = ParsingMode::Header;
                } else {
                    *mode = ParsingMode::Outside;
                }
            }
        },
        None => {},
    }
}

fn header_list_exec(list: &MdNode, out: &mut ParsedLayout)
    ensures
        final(out).deep_view() == (ParsedLayoutV {
            image_loads: header_items(
                list.model().children,
                LayoutResourcesV {
                    image_loads: old(out).deep_view().image_loads,
                    font_loads: old(out).deep_view().font_loads,
                    shader_loads: old(out).deep_view().shader_loads,
                },
                list.model().children.len() as int,
            ).image_loads,
            font_loads: header_items(
                list.model().children,
                LayoutResourcesV {
                    image_loads: old(out).deep_view().image_loads,
                    font_loads: old(out).deep_view().font_loads,
                    shader_loads: old(out).deep_view().shader_loads,
                },
                list.model().children.len() as int,
            ).font_loads,
            shader_loads: header_items(
                list.model().children,
                LayoutResourcesV {
                    image_loads: old(out).deep_view().image_loads,
                    font_loads: old(out).deep_view().font_loads,
                    shader_loads: old(out).deep_view().shader_loads,
                },
                list.model().children.len() as int,
            ).shader_loads,
            ..old(out).deep_view()
        }),
{
    proof {
        lemma_children(list);
    }
    let ghost items = list.model().children;
    let ghost o = out.deep_view();
    let ghost r0 = LayoutResourcesV {
        image_loads: o.image_loads,
        font_loads: o.font_loads,
        shader_loads: o.shader_loads,
    };
    let mut k: usize = 0;
    while k < list.children.len()
        invariant
            k <= list.children@.len(),
            items == trees(list.children@),
            out.deep_view() == (ParsedLayoutV {
                image_loads: header_items(items, r0, k as int).image_loads,
                font_loads: header_items(items, r0, k as int).font_loads,
                shader_loads: header_items(items, r0, k as int).shader_loads,
                ..o
            }),
        decreases list.children@.len() - k,
    {
        assert(items[k as int] == list.children@[k as int].model());
        match process_header_directive(&list.children[k]) {
            Some(HeaderDirective::Image(l)) => push_dv(&mut out.image_loads, l),
            Some(HeaderDirective::Font(l)) => push_dv(&mut out.font_loads, l),
            Some(HeaderDirective::Shader(l)) => push_dv(&mut out.shader_loads, l),
            None => {},
        }
        k = k + 1;
    }
}

fn snippet_list_exec(list: &MdNode, name: &String, out: &mut ParsedLayout, ctx: &mut CalcCtx)
    ensures
        (final(out).deep_view().reusables, final(ctx).deep_view()) == snippet_items(
            list.model().children,
            name@,
            old(out).deep_view().reusables,
            old(ctx).deep_view(),
            list.model().children.len() as int,
        ),
        final(out).deep_view() == (ParsedLayoutV { reusables: final(out).deep_view().reusables, ..old(out).deep_view() }),
{
    proof {
        lemma_children(list);
    }
    let ghost items = list.model().children;
    let ghost o = out.deep_view();
    let ghost c0 = ctx.deep_view();
    let mut k: usize = 0;
    while k < list.children.len()
        invariant
            k <= list.children@.len(),
            items == trees(list.children@),
            (out.deep_view().reusables, ctx.deep_view()) == snippet_items(items, name@, o.reusables, c0, k as int),
            out.deep_view() == (ParsedLayoutV { reusables: out.deep_view().reusables, ..o }),
        decreases list.children@.len() - k,
    {
        assert(items[k as int] == list.children@[k as int].model());
        let e = process_element(&list.children[k], ctx);
        insert_pair(&mut out.reusables, name.clone(), e);
        k = k + 1;
    }
}

fn body_list_exec(list: &MdNode, out: &mut ParsedLayout, ctx: &mut CalcCtx)
    ensures
        (final(out).deep_view().body, final(ctx).deep_view()) == body_items(
            list.model().children,
            old(out).deep_view().body.push(LayoutV::Element(ElementV::Pointer(CursorIcon::Default))),
            old(ctx).deep_view(),
            list.model().children.len() as int,
        ),
        final(out).deep_view() == (ParsedLayoutV { body: final(out).deep_view().body, ..old(out).deep_view() }),
{
    proof {
        lemma_children(list);
    }
    let ghost items = list.model().children;
    let ghost o = out.deep_view();
    let ghost c0 = ctx.deep_view();
    push_dv(&mut out.body, Layout::Element(Element::Pointer(CursorIcon::Default)));
    let ghost b0 = out.deep_view().body;
    let mut k: usize = 0;
    while k < list.children.len()
        invariant
            k <= list.children@.len(),
            items == trees(list.children@),
            (out.deep_view().body, ctx.deep_view()) == body_items(items, b0, c0, k as int),
            out.deep_view() == (ParsedLayoutV { body: out.deep_view().body, ..o }),
        decreases list.children@.len() - k,
    {
        assert(items[k as int] == list.children@[k as int].model());
        let e = process_element(&list.children[k], ctx);
        append_dv(&mut out.body, e);
        k = k + 1;
    }
}

fn doc_list_exec(list: &MdNode, mode: ParsingMode, name: &String, out: &mut ParsedLayout, ctx: &mut CalcCtx)
    ensures
        doc_st(mode, name, final(out), final(ctx)) == doc_list(list.model(), doc_st(mode, name, old(out), old(ctx))),
{
    proof {
        lemma_children(list);
    }
    match mode {
        ParsingMode::Header => header_list_exec(list, out),
        ParsingMode::ReusableConfig => {
            let (cs, _) = process_config_block(&list.children, None, ctx);
            insert_pair(&mut out.reusables, name.clone(), cs);
        },
        ParsingMode::ReusableElements => snippet_list_exec(list, name, out, ctx),
        ParsingMode::Body => body_list_exec(list, out, ctx),
        ParsingMode::Outside => {},
    }
}

/// The compiled form of the document tree `root` (see [`document`]).
pub fn compile_document(root: &MdNode) -> (r: ParsedLayout)
    ensures
        r.deep_view() == document(root.model()),
{
    proof {
        lemma_children(root);
    }
    let ghost nodes = root.model().children;
    let fns = collect_calc_fns(root);
    let mut ctx = CalcCtx::new();
    let mut mode = ParsingMode::Outside;
    let mut name = String::new();
    let mut out = ParsedLayout {
        body: Vec::new(),
        reusables: Vec::new(),
        image_loads: Vec::new(),
        font_loads: Vec::new(),
        shader_loads: Vec::new(),
        calc_fns: fns,
        calc_table: Vec::new(),
    };
    let ghost init = DocSt {
        mode: ParsingMode::Outside,
        name: Seq::empty(),
        out: ParsedLayoutV {
            body: Seq::empty(),
            reusables: Seq::empty(),
            image_loads: Seq::empty(),
            font_loads: Seq::empty(),
            shader_loads: Seq::empty(),
            calc_fns: calc_fns_of(root.model()),
            calc_table: Seq::empty(),
        },
        ctx: ctx_init(),
    };
    assert(out.body.deep_view() =~= Seq::empty());
    assert(out.reusables.deep_view() =~= Seq::empty());
    assert(out.image_loads.deep_view() =~= Seq::empty());
    assert(out.font_loads.deep_view() =~= Seq::empty());
    assert(out.shader_loads.deep_view() =~= Seq::empty());
    assert(out.calc_table.deep_view() =~= Seq::empty());
    assert(name@ =~= Seq::<char>::empty());
    assert(doc_st(mode, &name, &out, &ctx) == init);
    let mut n: usize = 0;
    while n < root.children.len()
        invariant
            n <= root.children@.len(),
            nodes == trees(root.children@),
            doc_st(mode, &name, &out, &ctx) == doc_walk(nodes, init, n as int),
        decreases root.children@.len() - n,
    {
        let node = &root.children[n];
        assert(nodes[n as int] == node.model());
        match &node.kind {
            MdKind::Heading(_) => heading_exec(node, &mut mode, &mut name),
            MdKind::List => doc_list_exec(node, mode, &name, &mut out, &mut ctx),
            _ => {},
        }
        n = n + 1;
    }
    let ghost st = doc_st(mode, &name, &out, &ctx);
    let CalcCtx { scope: _, table } = ctx;
    out.calc_table = table;
    assert(out.deep_view() == (ParsedLayoutV { calc_table: st.ctx.table, ..st.out }));
    out
}

/// Compiles a markdown layout document: the keyword pre-pass, the markdown
/// parse, then [`compile_document`]. An error where the parser rejects the
/// source.
pub fn process_layout(file: String) -> (r: Result<ParsedLayout, String>)
    ensures
        match r {
            Ok(p) => spec_process_layout(file@) == Ok::<ParsedLayoutV, Seq<char>>(p.deep_view()),
            Err(e) => spec_process_layout(file@) == Err::<ParsedLayoutV, Seq<char>>(e@),
        },
{
    let src = add_missing_keyword_backticks(file.as_str());
    match parse_markdown(src.as_str()) {
        Some(root) => Ok(compile_document(&root)),
        None => Err("failed to parse layout markdown".to_owned()),
    }
}

} // verus!
