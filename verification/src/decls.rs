//! `set-*` / `get-*` declarations: one binding per list item, read into a
//! name and a value, with static numbers bound for later `calc`
//! expressions.
use vstd::prelude::*;
use crate::args::{
    child, child_at, code_of, code_node, emph_node, emph_text, text_node, text_of, trim_opt, trim_option,
    declaration_value, declaration_value_of, uv_rect, parse_uv_rect, opt_tree, strs, is_float_str,
    bool_str,
};
use crate::calc::{parse_expr, spec_parse_expr};
use crate::ctx::{CalcCtx, CtxV, ctx_bind, ctx_record};
use crate::ir::{
    DataSrc, DataSrcV, Declaration, DeclarationV, ImageDescriptor, ImageDescriptorV, Layout, LayoutV,
    Number, NumberV, push_dv, take_first_dv,
};
use crate::literals::{is_float_literal, parse_bool};
use crate::md::{MdKind, MdNode, MdTree, trees};
use crate::text::{trim, trim_str, str_eq};

verus! {

/// The keyword paragraph of a node: its first child, a paragraph whose first
/// child is inline code, with that code.
pub open spec fn para_head(item: MdTree) -> Option<(MdTree, Seq<char>)> {
    match child(item, 0) {
        Some(p) => if p.kind is Paragraph {
            match code_of(child(p, 0)) {
                Some(kw) => Some((p, kw)),
                None => None,
            }
        } else {
            None
        },
        None => None,
    }
}

/// The keyword paragraph of a list item (`` - `keyword` ... ``).
pub open spec fn item_head(item: MdTree) -> Option<(MdTree, Seq<char>)> {
    if item.kind is ListItem {
        para_head(item)
    } else {
        None
    }
}

/// The keyword paragraph of `item`.
pub fn para_head_of(item: &MdNode) -> (r: Option<(&MdNode, String)>)
    ensures
        match r {
            Some((p, kw)) => para_head(item.model()) == Some((p.model(), kw@)),
            None => para_head(item.model()) is None,
        },
{
    match child_at(item, 0) {
        Some(p) => match &p.kind {
            MdKind::Paragraph => match code_node(child_at(p, 0)) {
                Some(kw) => Some((p, kw)),
                None => None,
            },
            _ => None,
        },
        None => None,
    }
}

/// The keyword paragraph of the list item `item`.
pub fn item_head_of(item: &MdNode) -> (r: Option<(&MdNode, String)>)
    ensures
        match r {
            Some((p, kw)) => item_head(item.model()) == Some((p.model(), kw@)),
            None => item_head(item.model()) is None,
        },
{
    match &item.kind {
        MdKind::ListItem => para_head_of(item),
        _ => None,
    }
}

/// The `get-*` declaration keywords.
pub open spec fn is_get_keyword(k: Seq<char>) -> bool {
    ||| k == "get-bool"@
    ||| k == "get-numeric"@
    ||| k == "get-text"@
    ||| k == "get-event"@
    ||| k == "get-image"@
    ||| k == "get-color"@
}

/// The rectangle in the text node `o`, if it holds one.
pub open spec fn uv_of(o: Option<MdTree>) -> Option<Seq<Seq<char>>> {
    match text_of(o) {
        Some(t) => uv_rect(trim(t)),
        None => None,
    }
}

/// A declaration with the name `name` and the value `v`.
pub open spec fn named(name: Seq<char>, v: DataSrcV<DeclarationV>) -> Option<(Seq<char>, DataSrcV<DeclarationV>)> {
    Some((name, v))
}

/// The declaration in the list item `item` (`` `set-numeric` *name* value ``,
/// `` `get-text` *name* field ``, ...), and the context after it: a
/// `set-numeric` whose value is not a number literal records its `calc`
/// expression.
#[verifier::opaque]
pub open spec fn variable(item: MdTree, c: CtxV) -> (Option<(Seq<char>, DataSrcV<DeclarationV>)>, CtxV) {
    match item_head(item) {
        None => (None, c),
        Some((p, vt)) => match emph_text(child(p, 2)) {
            None => (None, c),
            Some(vn) => {
                let name = trim(vn);
                let raw = trim_opt(declaration_value(p));
                if is_get_keyword(vt) {
                    match raw {
                        Some(r) => (named(name, DataSrcV::Dynamic(trim(r))), c),
                        None => (None, c),
                    }
                } else if vt == "set-bool"@ {
                    match raw {
                        Some(r) => match parse_bool(r) {
                            Some(b) => (named(name, DataSrcV::Static(DeclarationV::Bool(b))), c),
                            None => (None, c),
                        },
                        None => (None, c),
                    }
                } else if vt == "set-numeric"@ {
                    match raw {
                        None => (None, c),
                        Some(r) => if is_float_literal(r) {
                            (named(name, DataSrcV::Static(DeclarationV::Numeric(NumberV::Literal(r)))), c)
                        } else {
                            match spec_parse_expr(r) {
                                Some(e) => (
                                    named(
                                        name,
                                        DataSrcV::Static(
                                            DeclarationV::Numeric(NumberV::Pending(c.table.len() as usize)),
                                        ),
                                    ),
                                    ctx_record(c, e),
                                ),
                                None => (None, c),
                            }
                        },
                    }
                } else if vt == "set-text"@ {
                    match raw {
                        Some(r) => (named(name, DataSrcV::Static(DeclarationV::Text(r))), c),
                        None => (None, c),
                    }
                } else if vt == "set-event"@ {
                    match raw {
                        Some(r) => (named(name, DataSrcV::Static(DeclarationV::Event(r))), c),
                        None => (None, c),
                    }
                } else if vt == "set-color"@ {
                    match raw {
                        Some(r) => (named(name, DataSrcV::Static(DeclarationV::Color(r))), c),
                        None => (None, c),
                    }
                } else if vt == "set-image"@ {
                    match trim_opt(emph_text(child(p, 4))) {
                        None => (None, c),
                        Some(src) => match uv_of(child(p, 5)) {
                            Some(ps) => (
                                named(
                                    name,
                                    DataSrcV::Static(
                                        DeclarationV::Image(
                                            ImageDescriptorV {
                                                atlas: src,
                                                u1: ps[0],
                                                v1: ps[1],
                                                u2: ps[2],
                                                v2: ps[3],
                                            },
                                        ),
                                    ),
                                ),
                                c,
                            ),
                            None => (named(name, DataSrcV::Dynamic(src)), c),
                        },
                    }
                } else {
                    (None, c)
                }
            },
        },
    }
}

/// The context after declaring `d`: a static number is bound to its name.
pub open spec fn bind_decl(c: CtxV, d: (Seq<char>, DataSrcV<DeclarationV>)) -> CtxV {
    match d.1 {
        DataSrcV::Static(DeclarationV::Numeric(n)) => ctx_bind(c, d.0, n),
        _ => c,
    }
}

/// The declarations of the list items `items`, in order, and the context
/// after them.
pub open spec fn variables(items: Seq<MdTree>, c: CtxV) -> (Seq<(Seq<char>, DataSrcV<DeclarationV>)>, CtxV)
    decreases items.len(),
{
    if items.len() == 0 {
        (Seq::empty(), c)
    } else {
        let (ds, c1) = variables(items.drop_last(), c);
        let (r, c2) = variable(items.last(), c1);
        match r {
            Some(d) => (ds.push(d), bind_decl(c2, d)),
            None => (ds, c2),
        }
    }
}

/// Declarations as layout commands.
pub open spec fn decl_layouts(ds: Seq<(Seq<char>, DataSrcV<DeclarationV>)>) -> Seq<LayoutV> {
    Seq::new(ds.len(), |i: int| LayoutV::Declaration { name: ds[i].0, value: ds[i].1 })
}

fn get_keyword(k: &str) -> (r: bool)
    ensures
        r == is_get_keyword(k@),
{
    str_eq(k, "get-bool") || str_eq(k, "get-numeric") || str_eq(k, "get-text") || str_eq(
        k,
        "get-event",
    ) || str_eq(k, "get-image") || str_eq(k, "get-color")
}

fn uv_node(o: Option<&MdNode>) -> (r: Option<Vec<String>>)
    ensures
        match r {
            Some(ps) => uv_of(opt_tree(o)) == Some(strs(ps@)),
            None => uv_of(opt_tree(o)) is None,
        },
{
    match text_node(o) {
        Some(t) => {
            let tt = trim_str(t.as_str());
            parse_uv_rect(tt.as_str())
        },
        None => None,
    }
}

/// The declaration in the list item `item` (see [`variable`]).
pub fn process_variable(item: &MdNode, ctx: &mut CalcCtx) -> (r: Option<(String, DataSrc<Declaration>)>)
    ensures
        (r.deep_view(), final(ctx).deep_view()) == variable(item.model(), old(ctx).deep_view()),
{
    reveal(variable);
    let (p, vt) = match item_head_of(item) {
        Some(h) => h,
        None => return None,
    };
    let vn = match emph_node(child_at(p, 2)) {
        Some(v) => v,
        None => return None,
    };
    let name = trim_str(vn.as_str());
    let raw = trim_option(declaration_value_of(p));
    let vt = vt.as_str();
    if get_keyword(vt) {
        match raw {
            Some(r) => Some((name, DataSrc::Dynamic(trim_str(r.as_str())))),
            None => None,
        }
    } else if str_eq(vt, "set-bool") {
        match raw {
            Some(r) => match bool_str(r.as_str()) {
                Some(b) => Some((name, DataSrc::Static(Declaration::Bool(b)))),
                None => None,
            },
            None => None,
        }
    } else if str_eq(vt, "set-numeric") {
        match raw {
            None => None,
            Some(r) => if is_float_str(r.as_str()) {
                Some((name, DataSrc::Static(Declaration::Numeric(Number::Literal(r)))))
            } else {
                match parse_expr(r.as_str()) {
                    Ok(e) => {
                        let id = ctx.record(e);
                        Some((name, DataSrc::Static(Declaration::Numeric(Number::Pending(id)))))
                    },
                    Err(_) => None,
                }
            },
        }
    } else if str_eq(vt, "set-text") {
        match raw {
            Some(r) => Some((name, DataSrc::Static(Declaration::Text(r)))),
            None => None,
        }
    } else if str_eq(vt, "set-event") {
        match raw {
            Some(r) => Some((name, DataSrc::Static(Declaration::Event(r)))),
            None => None,
        }
    } else if str_eq(vt, "set-color") {
        match raw {
            Some(r) => Some((name, DataSrc::Static(Declaration::Color(r)))),
            None => None,
        }
    } else if str_eq(vt, "set-image") {
        match trim_option(emph_node(child_at(p, 4))) {
            None => None,
            Some(src) => match uv_node(child_at(p, 5)) {
                Some(ps) => {
                    let ghost m = strs(ps@);
                    assert(m[0] == ps@[0]@ && m[1] == ps@[1]@ && m[2] == ps@[2]@ && m[3] == ps@[3]@);
                    let d = ImageDescriptor {
                        atlas: src,
                        u1: ps[0].clone(),
                        v1: ps[1].clone(),
                        u2: ps[2].clone(),
                        v2: ps[3].clone(),
                    };
                    Some((name, DataSrc::Static(Declaration::Image(d))))
                },
                None => Some((name, DataSrc::Dynamic(src))),
            },
        }
    } else {
        None
    }
}

/// Binds `d` in `ctx` if it declares a static number.
pub fn bind_declaration(ctx: &mut CalcCtx, d: &(String, DataSrc<Declaration>))
    ensures
        final(ctx).deep_view() == bind_decl(old(ctx).deep_view(), d.deep_view()),
{
    match &d.1 {
        DataSrc::Static(Declaration::Numeric(n)) => {
            ctx.bind(d.0.clone(), crate::ctx::copy_number(n));
        },
        _ => {},
    }
}

/// The declarations of the list items `items` (see [`variables`]).
pub fn process_variables(items: &Vec<MdNode>, ctx: &mut CalcCtx) -> (r: Vec<(String, DataSrc<Declaration>)>)
    ensures
        (r.deep_view(), final(ctx).deep_view()) == variables(trees(items@), old(ctx).deep_view()),
{
    let ghost all = trees(items@);
    let mut out: Vec<(String, DataSrc<Declaration>)> = Vec::new();
    let mut i: usize = 0;
    assert(all.take(0) =~= Seq::<MdTree>::empty());
    assert(out.deep_view() =~= Seq::empty());
    while i < items.len()
        invariant
            i <= items@.len(),
            all == trees(items@),
            (out.deep_view(), ctx.deep_view()) == variables(all.take(i as int), old(ctx).deep_view()),
        decreases items@.len() - i,
    {
        assert(all.take(i + 1).drop_last() =~= all.take(i as int));
        assert(all.take(i + 1).last() == items@[i as int].model());
        match process_variable(&items[i], ctx) {
            Some(d) => {
                bind_declaration(ctx, &d);
                push_dv(&mut out, d);
            },
            None => {},
        }
        i = i + 1;
    }
    assert(all.take(i as int) =~= all);
    out
}

/// Declarations as layout commands.
pub fn declaration_layouts(ds: Vec<(String, DataSrc<Declaration>)>) -> (r: Vec<Layout>)
    ensures
        r.deep_view() == decl_layouts(ds.deep_view()),
{
    let ghost dv = ds.deep_view();
    let mut out: Vec<Layout> = Vec::new();
    let mut ds = ds;
    assert(out.deep_view() =~= decl_layouts(dv.take(0)));
    while ds.len() > 0
        invariant
            ds.deep_view().len() <= dv.len(),
            ds.deep_view() == dv.skip(dv.len() - ds.deep_view().len()),
            out.deep_view() == decl_layouts(dv.take(dv.len() - ds.deep_view().len())),
        decreases ds@.len(),
    {
        let ghost k = dv.len() - ds.deep_view().len();
        let (name, value) = take_first_dv(&mut ds);
        assert(dv[k] == (name@, value.deep_view()));
        push_dv(&mut out, Layout::Declaration { name, value });
        assert(ds.deep_view() =~= dv.skip(k + 1));
        assert(out.deep_view() =~= decl_layouts(dv.take(k + 1)));
    }
    assert(dv.take(dv.len() as int) =~= dv);
    out
}

} // verus!
