//! Folding the values of `calc` expressions back into a compiled document.
//! The expressions are evaluated by the caller, entry by entry, each one in
//! the scopes [`entry_scope`] resolves for it; a declaration whose expression
//! failed is dropped, as if it had never been written.
use vstd::prelude::*;
use crate::ctx::CalcEntry;
use crate::document::{ParsedLayout, ParsedLayoutV};
use crate::ir::{
    Config, ConfigV, DataSrc, DataSrcV, Declaration, DeclarationV, Layout, LayoutV, Number, NumberV,
    push_dv, take_first_dv,
};

verus! {

/// The value of a static number, given the values of the `calc` entries: a
/// literal is its own value; an entry's value is there if it was computed.
pub open spec fn number_value(n: NumberV, vals: Seq<Option<Seq<char>>>) -> Option<Seq<char>> {
    match n {
        NumberV::Literal(t) => Some(t),
        NumberV::Pending(i) => if i < vals.len() {
            vals[i as int]
        } else {
            None
        },
    }
}

/// A declared value with its number folded in; `None` where it refers to a
/// `calc` entry without a value.
pub open spec fn fold_value(v: DataSrcV<DeclarationV>, vals: Seq<Option<Seq<char>>>) -> Option<DataSrcV<DeclarationV>> {
    match v {
        DataSrcV::Static(DeclarationV::Numeric(n)) => match number_value(n, vals) {
            Some(t) => Some(DataSrcV::Static(DeclarationV::Numeric(NumberV::Literal(t)))),
            None => None,
        },
        _ => Some(v),
    }
}

/// Bindings with their numbers folded in, those without a value dropped.
pub open spec fn fold_params(ps: Seq<(Seq<char>, DataSrcV<DeclarationV>)>, vals: Seq<Option<Seq<char>>>) -> Seq<(Seq<char>, DataSrcV<DeclarationV>)>
    decreases ps.len(),
{
    if ps.len() == 0 {
        Seq::empty()
    } else {
        let rest = fold_params(ps.drop_last(), vals);
        match fold_value(ps.last().1, vals) {
            Some(v) => rest.push((ps.last().0, v)),
            None => rest,
        }
    }
}

/// Layout commands with their numbers folded in: a declaration without a
/// value is dropped, a `use` loses its bindings without one, every other
/// command is kept as it is.
pub open spec fn fold_layouts(ls: Seq<LayoutV>, vals: Seq<Option<Seq<char>>>) -> Seq<LayoutV>
    decreases ls.len(),
{
    if ls.len() == 0 {
        Seq::empty()
    } else {
        let rest = fold_layouts(ls.drop_last(), vals);
        match ls.last() {
            LayoutV::Declaration { name, value } => match fold_value(value, vals) {
                Some(v) => rest.push(LayoutV::Declaration { name, value: v }),
                None => rest,
            },
            LayoutV::Config(ConfigV::Use { name, params }) => rest.push(
                LayoutV::Config(ConfigV::Use { name, params: fold_params(params, vals) }),
            ),
            l => rest.push(l),
        }
    }
}

/// Snippets with their numbers folded in.
pub open spec fn fold_snippets(rs: Seq<(Seq<char>, Seq<LayoutV>)>, vals: Seq<Option<Seq<char>>>) -> Seq<(Seq<char>, Seq<LayoutV>)> {
    Seq::new(rs.len(), |i: int| (rs[i].0, fold_layouts(rs[i].1, vals)))
}

/// A compiled document with the values `vals` of its `calc` entries folded
/// in; its table of entries is then empty.
pub open spec fn fold_document(p: ParsedLayoutV, vals: Seq<Option<Seq<char>>>) -> ParsedLayoutV {
    ParsedLayoutV {
        body: fold_layouts(p.body, vals),
        reusables: fold_snippets(p.reusables, vals),
        calc_table: Seq::empty(),
        ..p
    }
}

/// The scopes a `calc` entry sees, with values: each binding with its value
/// (a literal, or an earlier entry's computed value), in order, those
/// without a value dropped.
pub open spec fn scope_values(env: Seq<Seq<(Seq<char>, NumberV)>>, vals: Seq<Option<Seq<char>>>) -> Seq<Seq<(Seq<char>, Seq<char>)>> {
    Seq::new(env.len(), |i: int| frame_values(env[i], vals))
}

/// One scope of bindings with values (see [`scope_values`]).
pub open spec fn frame_values(f: Seq<(Seq<char>, NumberV)>, vals: Seq<Option<Seq<char>>>) -> Seq<(Seq<char>, Seq<char>)>
    decreases f.len(),
{
    if f.len() == 0 {
        Seq::empty()
    } else {
        let rest = frame_values(f.drop_last(), vals);
        match number_value(f.last().1, vals) {
            Some(t) => rest.push((f.last().0, t)),
            None => rest,
        }
    }
}

fn number_value_of(n: &Number, vals: &Vec<Option<String>>) -> (r: Option<String>)
    ensures
        r.deep_view() == number_value(n.deep_view(), vals.deep_view()),
{
    match n {
        Number::Literal(t) => Some(t.clone()),
        Number::Pending(i) => if *i < vals.len() {
            assert(vals.deep_view()[*i as int] == vals@[*i as int].deep_view());
            match &vals[*i] {
                Some(t) => Some(t.clone()),
                None => None,
            }
        } else {
            None
        },
    }
}

fn fold_value_of(v: DataSrc<Declaration>, vals: &Vec<Option<String>>) -> (r: Option<DataSrc<Declaration>>)
    ensures
        r.deep_view() == fold_value(v.deep_view(), vals.deep_view()),
{
    match v {
        DataSrc::Static(Declaration::Numeric(n)) => match number_value_of(&n, vals) {
            Some(t) => Some(DataSrc::Static(Declaration::Numeric(Number::Literal(t)))),
            None => None,
        },
        other => Some(other),
    }
}

fn fold_params_of(ps: Vec<(String, DataSrc<Declaration>)>, vals: &Vec<Option<String>>) -> (r: Vec<(String, DataSrc<Declaration>)>)
    ensures
        r.deep_view() == fold_params(ps.deep_view(), vals.deep_view()),
{
    let ghost pv = ps.deep_view();
    let ghost vv = vals.deep_view();
    let mut out: Vec<(String, DataSrc<Declaration>)> = Vec::new();
    let mut ps = ps;
    assert(out.deep_view() =~= fold_params(pv.take(0), vv));
    while ps.len() > 0
        invariant
            vv == vals.deep_view(),
            ps.deep_view().len() <= pv.len(),
            ps.deep_view() == pv.skip(pv.len() - ps.deep_view().len()),
            out.deep_view() == fold_params(pv.take(pv.len() - ps.deep_view().len()), vv),
        decreases ps@.len(),
    {
        let ghost k = pv.len() - ps.deep_view().len();
        let ghost before = out.deep_view();
        let (name, value) = take_first_dv(&mut ps);
        assert(pv.skip(k)[0] == pv[k]);
        assert(pv[k] == (name@, value.deep_view()));
        assert(pv.take(k + 1).drop_last() =~= pv.take(k));
        assert(pv.take(k + 1).last() == pv[k]);
        let ghost t = pv.take(k + 1);
        assert(before == fold_params(t.drop_last(), vv));
        let fv = fold_value_of(value, vals);
        assert(fv.deep_view() == fold_value(t.last().1, vv));
        match fv {
            Some(v) => {
                push_dv(&mut out, (name, v));
                assert(out.deep_view() == before.push((t.last().0, v.deep_view())));
            },
            None => {},
        }
        assert(out.deep_view() == fold_params(pv.take(k + 1), vv));
        assert(ps.deep_view() =~= pv.skip(k + 1));
    }
    assert(pv.take(pv.len() as int) =~= pv);
    out
}

/// Layout commands with the values `vals` folded in (see [`fold_layouts`]).
pub fn fold_layout_numbers(ls: Vec<Layout>, vals: &Vec<Option<String>>) -> (r: Vec<Layout>)
    ensures
        r.deep_view() == fold_layouts(ls.deep_view(), vals.deep_view()),
{
    let ghost lv = ls.deep_view();
    let ghost vv = vals.deep_view();
    let mut out: Vec<Layout> = Vec::new();
    let mut ls = ls;
    assert(out.deep_view() =~= fold_layouts(lv.take(0), vv));
    while ls.len() > 0
        invariant
            vv == vals.deep_view(),
            ls.deep_view().len() <= lv.len(),
            ls.deep_view() == lv.skip(lv.len() - ls.deep_view().len()),
            out.deep_view() == fold_layouts(lv.take(lv.len() - ls.deep_view().len()), vv),
        decreases ls@.len(),
    {
        let ghost k = lv.len() - ls.deep_view().len();
        let l = take_first_dv(&mut ls);
        assert(lv.skip(k)[0] == lv[k]);
        assert(lv[k] == l.deep_view());
        assert(lv.take(k + 1).drop_last() =~= lv.take(k));
        assert(lv.take(k + 1).last() == lv[k]);
        match l {
            Layout::Declaration { name, value } => match fold_value_of(value, vals) {
                Some(v) => push_dv(&mut out, Layout::Declaration { name, value: v }),
                None => {},
            },
            Layout::Config(Config::Use { name, params }) => {
                let ps = fold_params_of(params, vals);
                push_dv(&mut out, Layout::Config(Config::Use { name, params: ps }));
            },
            other => push_dv(&mut out, other),
        }
        assert(out.deep_view() == fold_layouts(lv.take(k + 1), vv));
        assert(ls.deep_view() =~= lv.skip(k + 1));
    }
    assert(lv.take(lv.len() as int) =~= lv);
    out
}

/// The compiled document `p` with the values `vals` of its `calc` entries
/// folded in (see [`fold_document`]): entry `i`'s value is `vals[i]`, `None`
/// where it could not be computed.
pub fn fold_numbers(p: ParsedLayout, vals: &Vec<Option<String>>) -> (r: ParsedLayout)
    ensures
        r.deep_view() == fold_document(p.deep_view(), vals.deep_view()),
{
    let ghost pv = p.deep_view();
    let ghost vv = vals.deep_view();
    let ParsedLayout { body, reusables, image_loads, font_loads, shader_loads, calc_fns, calc_table: _ } = p;
    let body = fold_layout_numbers(body, vals);
    let mut rs: Vec<(String, Vec<Layout>)> = Vec::new();
    let mut reusables = reusables;
    let ghost rv = pv.reusables;
    assert(rs.deep_view() =~= fold_snippets(rv.take(0), vv));
    while reusables.len() > 0
        invariant
            vv == vals.deep_view(),
            reusables.deep_view().len() <= rv.len(),
            reusables.deep_view() == rv.skip(rv.len() - reusables.deep_view().len()),
            rs.deep_view() == fold_snippets(rv.take(rv.len() - reusables.deep_view().len()), vv),
        decreases reusables@.len(),
    {
        let ghost k = rv.len() - reusables.deep_view().len();
        let ghost before = rs.deep_view();
        let (name, ls) = take_first_dv(&mut reusables);
        assert(rv.skip(k)[0] == rv[k]);
        assert(rv[k] == (name@, ls.deep_view()));
        let folded = fold_layout_numbers(ls, vals);
        push_dv(&mut rs, (name, folded));
        assert(rs.deep_view() =~= fold_snippets(rv.take(k + 1), vv));
        assert(reusables.deep_view() =~= rv.skip(k + 1));
    }
    assert(rv.take(rv.len() as int) =~= rv);
    let r = ParsedLayout {
        body,
        reusables: rs,
        image_loads,
        font_loads,
        shader_loads,
        calc_fns,
        calc_table: Vec::new(),
    };
    assert(r.calc_table.deep_view() =~= Seq::empty());
    r
}

/// The scopes the `calc` entry `e` sees, given the values of the entries
/// before it (see [`scope_values`]).
pub fn entry_scope(e: &CalcEntry, vals: &Vec<Option<String>>) -> (r: Vec<Vec<(String, String)>>)
    ensures
        r.deep_view() == scope_values(e.env.deep_view(), vals.deep_view()),
{
    let ghost ev = e.env.deep_view();
    let ghost vv = vals.deep_view();
    let mut out: Vec<Vec<(String, String)>> = Vec::new();
    let mut i: usize = 0;
    assert(out.deep_view() =~= scope_values(ev.take(0), vv));
    while i < e.env.len()
        invariant
            i <= e.env@.len(),
            ev == e.env.deep_view(),
            vv == vals.deep_view(),
            out.deep_view() == scope_values(ev.take(i as int), vv),
        decreases e.env@.len() - i,
    {
        let frame = &e.env[i];
        let ghost fv = frame.deep_view();
        assert(ev[i as int] == fv);
        let mut f: Vec<(String, String)> = Vec::new();
        let mut j: usize = 0;
        assert(f.deep_view() =~= frame_values(fv.take(0), vv));
        while j < frame.len()
            invariant
                j <= frame@.len(),
                fv == frame.deep_view(),
                vv == vals.deep_view(),
                f.deep_view() == frame_values(fv.take(j as int), vv),
            decreases frame@.len() - j,
        {
            assert(fv.take(j + 1).drop_last() =~= fv.take(j as int));
            assert(fv.take(j + 1).last() == fv[j as int]);
            assert(fv[j as int] == frame@[j as int].deep_view());
            assert(fv[j as int] == (frame@[j as int].0@, frame@[j as int].1.deep_view()));
            match number_value_of(&frame[j].1, vals) {
                Some(t) => push_dv(&mut f, (frame[j].0.clone(), t)),
                None => {},
            }
            assert(f.deep_view() == frame_values(fv.take(j + 1), vv));
            j = j + 1;
        }
        assert(fv.take(j as int) =~= fv);
        push_dv(&mut out, f);
        assert(out.deep_view() =~= scope_values(ev.take(i + 1), vv));
        i = i + 1;
    }
    assert(ev.take(i as int) =~= ev);
    out
}

} // verus!
