//! The compile-time context of `calc` expressions: the static numeric
//! declarations in scope (innermost scope last) and the table of `calc`
//! expressions met so far, each with the bindings it can see. The layout
//! compiler records an expression here and refers to its table entry; the
//! caller evaluates the table and folds the values back in.
use vstd::prelude::*;
use crate::calc::{Expr, ExprView};
use crate::ir::{Number, NumberV, push_dv, pop_dv};

verus! {

/// A `calc` expression met while compiling, with the scopes of static
/// numeric bindings it sees (innermost last, each in the order written).
#[derive(Debug)]
pub struct CalcEntry {
    pub expr: Expr,
    pub env: Vec<Vec<(String, Number)>>,
}

/// The model of a [`CalcEntry`].
pub struct CalcEntryV {
    pub expr: ExprView,
    pub env: Seq<Seq<(Seq<char>, NumberV)>>,
}

impl DeepView for CalcEntry {
    type V = CalcEntryV;

    open spec fn deep_view(&self) -> CalcEntryV {
        CalcEntryV { expr: self.expr.model(), env: self.env.deep_view() }
    }
}

/// The compile-time `calc` context: scopes of static numeric bindings
/// (innermost last) and the table of expressions met so far.
#[derive(Debug)]
pub struct CalcCtx {
    pub scope: Vec<Vec<(String, Number)>>,
    pub table: Vec<CalcEntry>,
}

/// The model of a [`CalcCtx`].
pub struct CtxV {
    pub scope: Seq<Seq<(Seq<char>, NumberV)>>,
    pub table: Seq<CalcEntryV>,
}

impl DeepView for CalcCtx {
    type V = CtxV;

    open spec fn deep_view(&self) -> CtxV {
        CtxV { scope: self.scope.deep_view(), table: self.table.deep_view() }
    }
}

/// The context a document starts with: one scope, for the page body, and no
/// expressions.
pub open spec fn ctx_init() -> CtxV {
    CtxV { scope: seq![Seq::empty()], table: Seq::empty() }
}

/// Binds `name` to the static number `n` in the innermost scope.
pub open spec fn ctx_bind(c: CtxV, name: Seq<char>, n: NumberV) -> CtxV {
    if c.scope.len() > 0 {
        CtxV {
            scope: c.scope.update(c.scope.len() - 1, c.scope.last().push((name, n))),
            table: c.table,
        }
    } else {
        c
    }
}

/// Opens a new innermost scope.
pub open spec fn ctx_push(c: CtxV) -> CtxV {
    CtxV { scope: c.scope.push(Seq::empty()), table: c.table }
}

/// Closes the innermost scope.
pub open spec fn ctx_pop(c: CtxV) -> CtxV {
    if c.scope.len() > 0 {
        CtxV { scope: c.scope.drop_last(), table: c.table }
    } else {
        c
    }
}

/// Records the expression `e`, which sees the current scopes.
pub open spec fn ctx_record(c: CtxV, e: ExprView) -> CtxV {
    CtxV { scope: c.scope, table: c.table.push(CalcEntryV { expr: e, env: c.scope }) }
}

/// A copy of a static number.
pub fn copy_number(n: &Number) -> (r: Number)
    ensures
        r.deep_view() == n.deep_view(),
{
    match n {
        Number::Literal(t) => Number::Literal(t.clone()),
        Number::Pending(i) => Number::Pending(*i),
    }
}

/// A copy of a scope.
pub fn copy_frame(f: &Vec<(String, Number)>) -> (r: Vec<(String, Number)>)
    ensures
        r.deep_view() == f.deep_view(),
{
    let mut r: Vec<(String, Number)> = Vec::new();
    let mut i: usize = 0;
    while i < f.len()
        invariant
            i <= f@.len(),
            r.deep_view() == f.deep_view().take(i as int),
        decreases f@.len() - i,
    {
        let b = (f[i].0.clone(), copy_number(&f[i].1));
        assert(b.deep_view() == f.deep_view()[i as int]);
        push_dv(&mut r, b);
        i = i + 1;
        assert(r.deep_view() =~= f.deep_view().take(i as int));
    }
    assert(f.deep_view().take(i as int) =~= f.deep_view());
    r
}

impl CalcCtx {
    /// The context a document starts with.
    pub fn new() -> (r: CalcCtx)
        ensures
            r.deep_view() == ctx_init(),
    {
        let mut scope: Vec<Vec<(String, Number)>> = Vec::new();
        let frame: Vec<(String, Number)> = Vec::new();
        assert(frame.deep_view() =~= Seq::empty());
        assert(scope.deep_view() =~= Seq::empty());
        push_dv(&mut scope, frame);
        let r = CalcCtx { scope, table: Vec::new() };
        assert(r.deep_view().scope =~= ctx_init().scope);
        assert(r.deep_view().table =~= ctx_init().table);
        r
    }

    /// Binds `name` to `n` in the innermost scope.
    pub fn bind(&mut self, name: String, n: Number)
        ensures
            final(self).deep_view() == ctx_bind(old(self).deep_view(), name@, n.deep_view()),
    {
        let ghost before = self.deep_view();
        if self.scope.len() > 0 {
            let mut frame = pop_dv(&mut self.scope);
            push_dv(&mut frame, (name, n));
            push_dv(&mut self.scope, frame);
            assert(self.deep_view().scope =~= ctx_bind(before, name@, n.deep_view()).scope);
        }
    }

    /// Opens a new innermost scope.
    pub fn push_scope(&mut self)
        ensures
            final(self).deep_view() == ctx_push(old(self).deep_view()),
    {
        let ghost before = self.deep_view();
        let frame: Vec<(String, Number)> = Vec::new();
        assert(frame.deep_view() =~= Seq::empty());
        push_dv(&mut self.scope, frame);
        assert(self.deep_view().scope =~= ctx_push(before).scope);
    }

    /// Closes the innermost scope.
    pub fn pop_scope(&mut self)
        ensures
            final(self).deep_view() == ctx_pop(old(self).deep_view()),
    {
        let ghost before = self.deep_view();
        if self.scope.len() > 0 {
            let _ = pop_dv(&mut self.scope);
            assert(self.deep_view().scope =~= ctx_pop(before).scope);
        }
    }

    /// Records `e` with the current scopes; returns its table index.
    pub fn record(&mut self, e: Expr) -> (id: usize)
        ensures
            id == old(self).table@.len(),
            final(self).deep_view() == ctx_record(old(self).deep_view(), e.model()),
    {
        let ghost before = self.deep_view();
        let mut env: Vec<Vec<(String, Number)>> = Vec::new();
        let mut i: usize = 0;
        while i < self.scope.len()
            invariant
                i <= self.scope@.len(),
                env.deep_view() == self.scope.deep_view().take(i as int),
            decreases self.scope@.len() - i,
        {
            push_dv(&mut env, copy_frame(&self.scope[i]));
            i = i + 1;
            assert(env.deep_view() =~= self.scope.deep_view().take(i as int));
        }
        assert(self.scope.deep_view().take(i as int) =~= self.scope.deep_view());
        let id = self.table.len();
        push_dv(&mut self.table, CalcEntry { expr: e, env });
        assert(self.deep_view().table =~= ctx_record(before, e.model()).table);
        id
    }
}

} // verus!
