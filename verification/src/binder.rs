//! The registry of compiled pages and reusable snippets, each looked up by
//! name, and the page-level bindings a page run starts from.
use vstd::prelude::*;
use crate::document::{
    LayoutResources, LayoutResourcesV, ParsedLayout, key_index, map_insert, pairs_map, insert_pair,
};
use crate::ir::{
    Config, ConfigV, DataSrc, DataSrcV, Declaration, DeclarationV, Element, ElementV, ImageDescriptor, Layout, LayoutV,
    take_first_dv,
};

verus! {

/// The config commands of `s`, in order.
pub open spec fn configs_of(s: Seq<LayoutV>) -> Seq<ConfigV>
    decreases s.len(),
{
    if s.len() == 0 {
        Seq::empty()
    } else {
        match s.last() {
            LayoutV::Config(c) => configs_of(s.drop_last()).push(c),
            _ => configs_of(s.drop_last()),
        }
    }
}

/// Binding a name that is not bound yet adds it; binding a bound name
/// replaces its entry; either way the map gains exactly that binding.
pub proof fn lemma_map_insert<V>(rs: Seq<(Seq<char>, V)>, k: Seq<char>, v: V)
    ensures
        pairs_map(map_insert(rs, k, v)) == pairs_map(rs).insert(k, v),
    decreases rs.len(),
{
    match key_index(rs, k, rs.len() as int) {
        None => {
            assert(rs.push((k, v)).drop_last() =~= rs);
        },
        Some(i) => {
            lemma_key_index(rs, k, rs.len() as int);
            let r2 = rs.update(i, (k, v));
            if i == rs.len() - 1 {
                assert(r2.drop_last() =~= rs.drop_last());
                assert(pairs_map(rs).insert(k, v) =~= pairs_map(rs.drop_last()).insert(k, v));
            } else {
                assert(rs.last().0 != k);
                lemma_key_index_prefix(rs, k, rs.len() - 1);
                assert(key_index(rs.drop_last(), k, rs.len() - 1) == Some(i));
                lemma_map_insert(rs.drop_last(), k, v);
                assert(r2.drop_last() =~= rs.drop_last().update(i, (k, v)));
                assert(map_insert(rs.drop_last(), k, v) == rs.drop_last().update(i, (k, v)));
                assert(pairs_map(r2) =~= pairs_map(rs).insert(k, v));
            }
        },
    }
}

/// What `key_index` finds: the last entry of `rs[..n]` named `k`.
pub proof fn lemma_key_index<V>(rs: Seq<(Seq<char>, V)>, k: Seq<char>, n: int)
    requires
        0 <= n <= rs.len(),
    ensures
        match key_index(rs, k, n) {
            Some(i) => 0 <= i < n && rs[i].0 == k && forall|j: int| i < j < n ==> rs[j].0 != k,
            None => forall|j: int| 0 <= j < n ==> rs[j].0 != k,
        },
    decreases n,
{
    if n > 0 {
        lemma_key_index(rs, k, n - 1);
    }
}

/// A name is in the map of `rs` exactly when an entry of `rs` has it, and it
/// maps to the last such entry's value.
pub proof fn lemma_pairs_map_lookup<V>(rs: Seq<(Seq<char>, V)>, k: Seq<char>)
    ensures
        pairs_map(rs).dom().contains(k) == key_index(rs, k, rs.len() as int) is Some,
        key_index(rs, k, rs.len() as int) is Some ==> pairs_map(rs)[k] == rs[key_index(
            rs,
            k,
            rs.len() as int,
        )->0].1,
    decreases rs.len(),
{
    if rs.len() > 0 {
        lemma_pairs_map_lookup(rs.drop_last(), k);
        lemma_key_index_prefix(rs, k, rs.len() - 1);
        lemma_key_index(rs.drop_last(), k, rs.len() - 1);
        if rs.last().0 != k {
            match key_index(rs.drop_last(), k, rs.len() - 1) {
                Some(j) => {
                    assert(rs.drop_last()[j] == rs[j]);
                },
                None => {},
            }
        }
    }
}

/// `key_index` over a prefix does not look past it.
pub proof fn lemma_key_index_prefix<V>(rs: Seq<(Seq<char>, V)>, k: Seq<char>, n: int)
    requires
        0 <= n < rs.len(),
    ensures
        key_index(rs, k, n) == key_index(rs.drop_last(), k, n),
    decreases n,
{
    if n > 0 {
        lemma_key_index_prefix(rs, k, n - 1);
    }
}

/// The compiled pages and reusable snippets, by name.
#[derive(Debug)]
pub struct Binder {
    pages: Vec<(String, Vec<Layout>)>,
    pub reusable: Vec<(String, Vec<Layout>)>,
}

impl Binder {
    /// The pages, by name.
    pub closed spec fn pages_map(&self) -> Map<Seq<char>, Seq<LayoutV>> {
        pairs_map(self.pages.deep_view())
    }

    /// The reusable snippets, by name.
    pub closed spec fn reusable_map(&self) -> Map<Seq<char>, Seq<LayoutV>> {
        pairs_map(self.reusable.deep_view())
    }

    /// A registry with no page and no snippet.
    pub fn new() -> (r: Self)
        ensures
            r.pages_map() == Map::<Seq<char>, Seq<LayoutV>>::empty(),
            r.reusable_map() == Map::<Seq<char>, Seq<LayoutV>>::empty(),
    {
        let r = Binder { pages: Vec::new(), reusable: Vec::new() };
        assert(r.pages.deep_view() =~= Seq::empty());
        assert(r.reusable.deep_view() =~= Seq::empty());
        r
    }

    /// Adds a page, replacing any page of the same name.
    pub fn add_page(&mut self, name: &str, page: Vec<Layout>)
        ensures
            final(self).pages_map() == old(self).pages_map().insert(name@, page.deep_view()),
            final(self).reusable_map() == old(self).reusable_map(),
    {
        proof {
            lemma_map_insert(self.pages.deep_view(), name@, page.deep_view());
        }
        insert_pair(&mut self.pages, name.to_owned(), page);
    }

    /// Adds a reusable snippet, replacing any snippet of the same name.
    pub fn add_reusable(&mut self, name: &str, reusable: Vec<Layout>)
        ensures
            final(self).reusable_map() == old(self).reusable_map().insert(name@, reusable.deep_view()),
            final(self).pages_map() == old(self).pages_map(),
    {
        proof {
            lemma_map_insert(self.reusable.deep_view(), name@, reusable.deep_view());
        }
        insert_pair(&mut self.reusable, name.to_owned(), reusable);
    }

    /// Whether a page of this name is registered.
    pub fn has_page(&self, name: &str) -> (r: bool)
        ensures
            r == self.pages_map().dom().contains(name@),
    {
        proof {
            lemma_pairs_map_lookup(self.pages.deep_view(), name@);
        }
        find_key(&self.pages, name).is_some()
    }

    /// Whether a reusable snippet of this name is registered.
    pub fn has_reusable(&self, name: &str) -> (r: bool)
        ensures
            r == self.reusable_map().dom().contains(name@),
    {
        proof {
            lemma_pairs_map_lookup(self.reusable.deep_view(), name@);
        }
        find_key(&self.reusable, name).is_some()
    }

    /// The page of this name, if registered.
    pub fn page(&self, name: &str) -> (r: Option<&Vec<Layout>>)
        ensures
            match r {
                Some(p) => self.pages_map().dom().contains(name@) && self.pages_map()[name@] == p.deep_view(),
                None => !self.pages_map().dom().contains(name@),
            },
    {
        proof {
            lemma_pairs_map_lookup(self.pages.deep_view(), name@);
        }
        match find_key(&self.pages, name) {
            Some(i) => {
                assert(self.pages.deep_view()[i as int] == self.pages@[i as int].deep_view());
                Some(&self.pages[i].1)
            },
            None => None,
        }
    }

    /// The reusable snippet of this name, if registered.
    pub fn reusable_of(&self, name: &str) -> (r: Option<&Vec<Layout>>)
        ensures
            match r {
                Some(p) => self.reusable_map().dom().contains(name@) && self.reusable_map()[name@] == p.deep_view(),
                None => !self.reusable_map().dom().contains(name@),
            },
    {
        proof {
            lemma_pairs_map_lookup(self.reusable.deep_view(), name@);
        }
        match find_key(&self.reusable, name) {
            Some(i) => {
                assert(self.reusable.deep_view()[i as int] == self.reusable@[i as int].deep_view());
                Some(&self.reusable[i].1)
            },
            None => None,
        }
    }

    /// Registers a compiled document (the result of compiling its markdown)
    /// as the page `name`, with its reusable snippets (each replacing any
    /// snippet of the same name, in order), and returns the resources its
    /// header asked for. A document that failed to compile gives its error
    /// back and leaves the binder as it was.
    pub fn load_layout(
        &mut self,
        name: &str,
        parsed: Result<ParsedLayout, String>,
    ) -> (r: Result<LayoutResources, String>)
        ensures
            match parsed {
                Err(e) => {
                    &&& r matches Err(e2) && e2@ == e@
                    &&& final(self).pages_map() == old(self).pages_map()
                    &&& final(self).reusable_map() == old(self).reusable_map()
                },
                Ok(p) => {
                    &&& r matches Ok(res) && res.deep_view() == (LayoutResourcesV {
                        image_loads: p.deep_view().image_loads,
                        font_loads: p.deep_view().font_loads,
                        shader_loads: p.deep_view().shader_loads,
                    })
                    &&& final(self).pages_map() == old(self).pages_map().insert(
                        name@,
                        p.deep_view().body,
                    )
                    &&& final(self).reusable_map() == old(self).reusable_map().union_prefer_right(
                        pairs_map(p.deep_view().reusables),
                    )
                },
            },
    {
        match parsed {
            Err(e) => Err(e),
            Ok(p) => Ok(self.register_layout(name, p)),
        }
    }

    /// The registering half of [`Binder::load_layout`], on a document that
    /// compiled.
    fn register_layout(&mut self, name: &str, parsed: ParsedLayout) -> (r: LayoutResources)
        ensures
            final(self).pages_map() == old(self).pages_map().insert(name@, parsed.deep_view().body),
            final(self).reusable_map() == old(self).reusable_map().union_prefer_right(
                pairs_map(parsed.deep_view().reusables),
            ),
            r.deep_view() == (LayoutResourcesV {
                image_loads: parsed.deep_view().image_loads,
                font_loads: parsed.deep_view().font_loads,
                shader_loads: parsed.deep_view().shader_loads,
            }),
    {
        let ghost pv = parsed.deep_view();
        let ghost m0 = self.reusable_map();
        let ParsedLayout { body, reusables, image_loads, font_loads, shader_loads, calc_fns: _, calc_table: _ } = parsed;
        let mut reusables = reusables;
        let ghost rv = pv.reusables;
        assert(pairs_map(rv.take(0)) =~= Map::<Seq<char>, Seq<LayoutV>>::empty());
        assert(m0.union_prefer_right(pairs_map(rv.take(0))) =~= m0);
        while reusables.len() > 0
            invariant
                reusables.deep_view().len() <= rv.len(),
                reusables.deep_view() == rv.skip(rv.len() - reusables.deep_view().len()),
                self.reusable_map() == m0.union_prefer_right(pairs_map(rv.take(rv.len() - reusables.deep_view().len()))),
                self.pages_map() == old(self).pages_map(),
            decreases reusables@.len(),
        {
            let ghost k = rv.len() - reusables.deep_view().len();
            let (rn, rl) = take_first_dv(&mut reusables);
            assert(rv.skip(k)[0] == rv[k]);
            assert(rv[k] == (rn@, rl.deep_view()));
            self.add_reusable(rn.as_str(), rl);
            assert(rv.take(k + 1).drop_last() =~= rv.take(k));
            assert(self.reusable_map() =~= m0.union_prefer_right(pairs_map(rv.take(k + 1))));
            assert(reusables.deep_view() =~= rv.skip(k + 1));
        }
        assert(rv.take(rv.len() as int) =~= rv);
        self.add_page(name, body);
        LayoutResources { image_loads, font_loads, shader_loads }
    }

    /// What a `use` of the config snippet `name` replays: the snippet's
    /// config commands, in order; `None` where no snippet of that name is
    /// registered (the `use` then applies nothing).
    pub fn snippet_configs(&self, name: &str) -> (r: Option<Vec<&Config>>)
        ensures
            match r {
                Some(v) => self.reusable_map().dom().contains(name@) && v.deep_view() == configs_of(
                    self.reusable_map()[name@],
                ),
                None => !self.reusable_map().dom().contains(name@),
            },
    {
        match self.reusable_of(name) {
            None => None,
            Some(snippet) => {
                let mut out: Vec<&Config> = Vec::new();
                let mut i: usize = 0;
                while i < snippet.len()
                    invariant
                        i <= snippet@.len(),
                        out.deep_view() == configs_of(snippet.deep_view().take(i as int)),
                    decreases snippet@.len() - i,
                {
                    proof {
                        assert(snippet.deep_view().take(i as int + 1).drop_last() =~= snippet.deep_view().take(
                            i as int,
                        ));
                        assert(snippet.deep_view()[i as int] == snippet@[i as int].deep_view());
                    }
                    match &snippet[i] {
                        Layout::Config(c) => {
                            out.push(c);
                            proof {
                                assert(out.deep_view() =~= configs_of(snippet.deep_view().take(i as int)).push(
                                    c.deep_view(),
                                ));
                            }
                        },
                        _ => {},
                    }
                    i = i + 1;
                }
                assert(snippet.deep_view().take(snippet@.len() as int) =~= snippet.deep_view());
                Some(out)
            },
        }
    }

    /// Replaces a registered page; `false`, and nothing changed, where no
    /// page of this name is registered.
    pub fn replace_page(&mut self, name: &str, page: Vec<Layout>) -> (r: bool)
        ensures
            r == old(self).pages_map().dom().contains(name@),
            r ==> final(self).pages_map() == old(self).pages_map().insert(name@, page.deep_view()),
            !r ==> final(self).pages_map() == old(self).pages_map(),
            final(self).reusable_map() == old(self).reusable_map(),
    {
        if !self.has_page(name) {
            return false;
        }
        self.add_page(name, page);
        true
    }

    /// Replaces a registered reusable snippet; `false`, and nothing changed,
    /// where no snippet of this name is registered.
    pub fn replace_reusable(&mut self, name: &str, reusable: Vec<Layout>) -> (r: bool)
        ensures
            r == old(self).reusable_map().dom().contains(name@),
            r ==> final(self).reusable_map() == old(self).reusable_map().insert(name@, reusable.deep_view()),
            !r ==> final(self).reusable_map() == old(self).reusable_map(),
            final(self).pages_map() == old(self).pages_map(),
    {
        if !self.has_reusable(name) {
            return false;
        }
        self.add_reusable(name, reusable);
        true
    }
}

/// The index of the last entry of `rs` named `k`.
pub fn find_key<T: DeepView>(rs: &Vec<(String, T)>, k: &str) -> (r: Option<usize>)
    ensures
        match r {
            Some(i) => key_index(rs.deep_view(), k@, rs@.len() as int) == Some(i as int) && i < rs@.len(),
            None => key_index(rs.deep_view(), k@, rs@.len() as int) is None,
        },
{
    let ghost d = rs.deep_view();
    let mut i = rs.len();
    while i > 0
        invariant
            i <= rs@.len(),
            d == rs.deep_view(),
            key_index(d, k@, rs@.len() as int) == key_index(d, k@, i as int),
        decreases i,
    {
        assert(d[i - 1] == rs@[i - 1].deep_view());
        if crate::text::str_eq(rs[i - 1].0.as_str(), k) {
            return Some(i - 1);
        }
        i = i - 1;
    }
    None
}

/// A copy of a declared value.
pub fn copy_decl_src(v: &DataSrc<Declaration>) -> (r: DataSrc<Declaration>)
    ensures
        r.deep_view() == v.deep_view(),
{
    match v {
        DataSrc::Dynamic(n) => DataSrc::Dynamic(n.clone()),
        DataSrc::Static(d) => DataSrc::Static(
            match d {
                Declaration::Bool(b) => Declaration::Bool(*b),
                Declaration::Numeric(n) => Declaration::Numeric(crate::ctx::copy_number(n)),
                Declaration::Text(t) => Declaration::Text(t.clone()),
                Declaration::Color(t) => Declaration::Color(t.clone()),
                Declaration::Event(t) => Declaration::Event(t.clone()),
                Declaration::Image(i) => Declaration::Image(
                    ImageDescriptor {
                        atlas: i.atlas.clone(),
                        u1: i.u1.clone(),
                        v1: i.v1.clone(),
                        u2: i.u2.clone(),
                        v2: i.v2.clone(),
                    },
                ),
            },
        ),
    }
}

/// The nesting step of a command for [`page_locals`]: `+1` on opening a
/// `list`, `use` or `item` scope, `-1` on closing one, `0` otherwise.
pub open spec fn scope_step(l: LayoutV) -> int {
    match l {
        LayoutV::Element(ElementV::ListOpened) => 1,
        LayoutV::Element(ElementV::UseOpened) => 1,
        LayoutV::Element(ElementV::ItemOpened) => 1,
        LayoutV::Element(ElementV::ListClosed(_)) => -1,
        LayoutV::Element(ElementV::UseClosed(_)) => -1,
        LayoutV::Element(ElementV::ItemClosed { .. }) => -1,
        _ => 0,
    }
}

/// The page-level declarations of `cs[..n]` (those outside every `list`,
/// `use` and `item` scope; a later one replaces an earlier one of the same
/// name) and the scope depth after them (never below zero).
pub open spec fn page_locals(cs: Seq<LayoutV>, n: int) -> (Seq<(Seq<char>, DataSrcV<DeclarationV>)>, nat)
    decreases n,
{
    if n <= 0 || n > cs.len() {
        (Seq::empty(), 0)
    } else {
        let (m, d) = page_locals(cs, n - 1);
        match cs[n - 1] {
            LayoutV::Declaration { name, value } => if d == 0 {
                (map_insert(m, name, value), d)
            } else {
                (m, d)
            },
            l => if scope_step(l) == 1 {
                (m, d + 1)
            } else if scope_step(l) == -1 {
                (m, if d > 0 { (d - 1) as nat } else { 0 })
            } else {
                (m, d)
            },
        }
    }
}

/// A command that opens a `list`, `use` or `item` scope.
pub open spec fn opens_scope(l: LayoutV) -> bool {
    l == LayoutV::Element(ElementV::ListOpened) || l == LayoutV::Element(ElementV::UseOpened) || l
        == LayoutV::Element(ElementV::ItemOpened)
}

/// A command that closes a `list`, `use` or `item` scope.
pub open spec fn closes_scope(l: LayoutV) -> bool {
    l is Element && (l->Element_0 is ListClosed || l->Element_0 is UseClosed || l->Element_0 is ItemClosed)
}

/// The page-level bindings of a prefix depend on that prefix alone.
proof fn lemma_page_locals_prefix(a: Seq<LayoutV>, b: Seq<LayoutV>, n: int)
    requires
        0 <= n <= a.len(),
        n <= b.len(),
        forall|i: int| 0 <= i < n ==> a[i] == b[i],
    ensures
        page_locals(a, n) == page_locals(b, n),
    decreases n,
{
    if n > 0 {
        lemma_page_locals_prefix(a, b, n - 1);
    }
}

/// Inside an open scope, with no scope closed, the page-level bindings stay
/// as they are and the depth stays above zero.
proof fn lemma_page_locals_inside(t: Seq<LayoutV>, start: int, k: int)
    requires
        0 <= start,
        0 <= k,
        start + k <= t.len(),
        page_locals(t, start).1 >= 1,
        forall|i: int| start <= i < start + k ==> !closes_scope(#[trigger] t[i]),
    ensures
        page_locals(t, start + k).0 == page_locals(t, start).0,
        page_locals(t, start + k).1 >= page_locals(t, start).1,
        (forall|i: int| start <= i < start + k ==> !opens_scope(#[trigger] t[i])) ==> page_locals(t, start + k).1
            == page_locals(t, start).1,
    decreases k,
{
    if k > 0 {
        lemma_page_locals_inside(t, start, k - 1);
        assert(!closes_scope(t[start + k - 1]));
    }
}

/// A declaration inside a `list`, `use` or `item` scope is no page-level
/// binding: a scope opened after the commands `cs` and closed again, with
/// no scope closed in between, leaves the page-level bindings as they were
/// after `cs`, and, where nothing in between opens a scope either, the
/// depth too.
pub proof fn lemma_scoped_decls_stay_local(cs: Seq<LayoutV>, o: LayoutV, s: Seq<LayoutV>, c: LayoutV)
    requires
        opens_scope(o),
        closes_scope(c),
        forall|i: int| 0 <= i < s.len() ==> !closes_scope(#[trigger] s[i]),
    ensures
        ({
            let t = cs + seq![o] + s + seq![c];
            &&& page_locals(t, t.len() as int).0 == page_locals(cs, cs.len() as int).0
            &&& (forall|i: int| 0 <= i < s.len() ==> !opens_scope(#[trigger] s[i])) ==> page_locals(
                t,
                t.len() as int,
            ).1 == page_locals(cs, cs.len() as int).1
        }),
{
    let t = cs + seq![o] + s + seq![c];
    let b = cs.len() as int;
    lemma_page_locals_prefix(cs, t, b);
    assert(t[b] == o);
    assert forall|i: int| b + 1 <= i < b + 1 + s.len() implies !closes_scope(#[trigger] t[i]) by {
        assert(t[i] == s[i - b - 1]);
    }
    lemma_page_locals_inside(t, b + 1, s.len() as int);
    if forall|i: int| 0 <= i < s.len() ==> !opens_scope(#[trigger] s[i]) {
        assert forall|i: int| b + 1 <= i < b + 1 + s.len() implies !opens_scope(#[trigger] t[i]) by {
            assert(t[i] == s[i - b - 1]);
        }
    }
    assert(t[b + 1 + s.len()] == c);
    assert(t.len() == b + 2 + s.len());
}

/// A declaration outside every scope is a page-level binding: it binds its
/// name to its value, replacing an earlier page-level binding of the name.
pub proof fn lemma_page_decl_binds(cs: Seq<LayoutV>, name: Seq<char>, value: DataSrcV<DeclarationV>)
    requires
        page_locals(cs, cs.len() as int).1 == 0,
    ensures
        ({
            let t = cs.push(LayoutV::Declaration { name, value });
            pairs_map(page_locals(t, t.len() as int).0) == pairs_map(page_locals(cs, cs.len() as int).0).insert(
                name,
                value,
            )
        }),
{
    let t = cs.push(LayoutV::Declaration { name, value });
    lemma_page_locals_prefix(cs, t, cs.len() as int);
    lemma_map_insert(page_locals(cs, cs.len() as int).0, name, value);
}

/// The page-level declarations of a page's commands, by name (see
/// [`page_locals`]).
pub fn extract_page_locals(commands: &Vec<Layout>) -> (r: Vec<(String, DataSrc<Declaration>)>)
    ensures
        r.deep_view() == page_locals(commands.deep_view(), commands@.len() as int).0,
{
    let ghost cv = commands.deep_view();
    let mut locals: Vec<(String, DataSrc<Declaration>)> = Vec::new();
    let mut depth: usize = 0;
    let mut i: usize = 0;
    assert(locals.deep_view() =~= Seq::empty());
    while i < commands.len()
        invariant
            i <= commands@.len(),
            cv == commands.deep_view(),
            depth <= i,
            (locals.deep_view(), depth as nat) == page_locals(cv, i as int),
        decreases commands@.len() - i,
    {
        assert(cv[i as int] == commands@[i as int].deep_view());
        match &commands[i] {
            Layout::Element(Element::ListOpened) | Layout::Element(Element::UseOpened) | Layout::Element(
                Element::ItemOpened,
            ) => {
                depth = depth + 1;
            },
            Layout::Element(Element::ListClosed(_)) | Layout::Element(Element::UseClosed(_))
            | Layout::Element(Element::ItemClosed { .. }) => {
                if depth > 0 {
                    depth = depth - 1;
                }
            },
            Layout::Declaration { name, value } => {
                if depth == 0 {
                    insert_pair(&mut locals, name.clone(), copy_decl_src(value));
                }
            },
            _ => {},
        }
        i = i + 1;
    }
    locals
}

/// The bindings visible in a nested scope: those around it (`outer`, if
/// any) with the scope's own (`inner`) taking precedence.
pub fn merge_locals(
    outer: Option<&Vec<(String, DataSrc<Declaration>)>>,
    inner: &Vec<(String, DataSrc<Declaration>)>,
) -> (r: Vec<(String, DataSrc<Declaration>)>)
    ensures
        pairs_map(r.deep_view()) == match outer {
            Some(o) => pairs_map(o.deep_view()),
            None => Map::empty(),
        }.union_prefer_right(pairs_map(inner.deep_view())),
{
    let mut merged: Vec<(String, DataSrc<Declaration>)> = Vec::new();
    assert(merged.deep_view() =~= Seq::empty());
    match outer {
        Some(o) => {
            let ghost ov = o.deep_view();
            let mut i: usize = 0;
            while i < o.len()
                invariant
                    i <= o@.len(),
                    ov == o.deep_view(),
                    pairs_map(merged.deep_view()) == pairs_map(ov.take(i as int)),
                decreases o@.len() - i,
            {
                assert(ov[i as int] == o@[i as int].deep_view());
                proof {
                    lemma_map_insert(merged.deep_view(), ov[i as int].0, ov[i as int].1);
                }
                insert_pair(&mut merged, o[i].0.clone(), copy_decl_src(&o[i].1));
                assert(ov.take(i + 1).drop_last() =~= ov.take(i as int));
                i = i + 1;
            }
            assert(ov.take(i as int) =~= ov);
        },
        None => {},
    }
    let ghost m0 = pairs_map(merged.deep_view());
    let ghost iv = inner.deep_view();
    let mut j: usize = 0;
    assert(pairs_map(iv.take(0)) =~= Map::<Seq<char>, DataSrcV<DeclarationV>>::empty());
    assert(m0.union_prefer_right(pairs_map(iv.take(0))) =~= m0);
    while j < inner.len()
        invariant
            j <= inner@.len(),
            iv == inner.deep_view(),
            pairs_map(merged.deep_view()) == m0.union_prefer_right(pairs_map(iv.take(j as int))),
        decreases inner@.len() - j,
    {
        assert(iv[j as int] == inner@[j as int].deep_view());
        proof {
            lemma_map_insert(merged.deep_view(), iv[j as int].0, iv[j as int].1);
        }
        insert_pair(&mut merged, inner[j].0.clone(), copy_decl_src(&inner[j].1));
        assert(iv.take(j + 1).drop_last() =~= iv.take(j as int));
        assert(pairs_map(merged.deep_view()) =~= m0.union_prefer_right(pairs_map(iv.take(j + 1))));
        j = j + 1;
    }
    assert(iv.take(j as int) =~= iv);
    merged
}

} // verus!
