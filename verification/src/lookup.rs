//! Where a named value comes from at run time: a binding in scope (a `set-*`
//! declaration, a `use` parameter) wins over the app's own fields; a binding
//! that names another field (`get-*`) redirects the lookup there first.
use vstd::prelude::*;
use crate::binder::{copy_decl_src, find_key, lemma_pairs_map_lookup};
use crate::document::pairs_map;
use crate::ir::{DataSrc, DataSrcV, Declaration, DeclarationV, ImageDescriptor, ImageDescriptorV};

verus! {

/// The kind of value a lookup wants.
#[derive(Clone, Copy, Debug, PartialEq, Eq)]
pub enum ValueKind {
    Bool,
    Numeric,
    Text,
    Color,
    Event,
}

/// The value `d` is of the kind `k`.
pub open spec fn of_kind(d: DeclarationV, k: ValueKind) -> bool {
    match (d, k) {
        (DeclarationV::Bool(_), ValueKind::Bool) => true,
        (DeclarationV::Numeric(_), ValueKind::Numeric) => true,
        (DeclarationV::Text(_), ValueKind::Text) => true,
        (DeclarationV::Color(_), ValueKind::Color) => true,
        (DeclarationV::Event(_), ValueKind::Event) => true,
        _ => false,
    }
}

/// Where a value comes from.
#[derive(Debug, PartialEq)]
pub enum Lookup {
    /// The value of the binding in scope.
    Local(Declaration),
    /// The first of these app fields that has a value; the kind's default
    /// where none has.
    App(Vec<String>),
}

/// The model of a [`Lookup`].
pub enum LookupV {
    Local(DeclarationV),
    App(Seq<Seq<char>>),
}

impl DeepView for Lookup {
    type V = LookupV;

    open spec fn deep_view(&self) -> LookupV {
        match self {
            Lookup::Local(d) => LookupV::Local(d.deep_view()),
            Lookup::App(ns) => LookupV::App(ns.deep_view()),
        }
    }
}

/// Where the value of kind `k` named `name` comes from, given the bindings
/// in scope (by name, the last one of a name counting): a binding that names
/// a field sends the lookup to that field first, then to `name`; a binding
/// of the kind is the value; otherwise the app's field `name`.
pub open spec fn lookup(
    name: Seq<char>,
    locals: Option<Seq<(Seq<char>, DataSrcV<DeclarationV>)>>,
    k: ValueKind,
) -> LookupV {
    match locals {
        Some(l) => if pairs_map(l).dom().contains(name) {
            match pairs_map(l)[name] {
                DataSrcV::Dynamic(field) => LookupV::App(seq![field, name]),
                DataSrcV::Static(d) => if of_kind(d, k) {
                    LookupV::Local(d)
                } else {
                    LookupV::App(seq![name])
                },
            }
        } else {
            LookupV::App(seq![name])
        },
        None => LookupV::App(seq![name]),
    }
}

/// The kind of value the declaration `d` holds; `None` for an image, which
/// no value lookup asks for.
pub open spec fn kind_of(d: DeclarationV) -> Option<ValueKind> {
    match d {
        DeclarationV::Bool(_) => Some(ValueKind::Bool),
        DeclarationV::Numeric(_) => Some(ValueKind::Numeric),
        DeclarationV::Text(_) => Some(ValueKind::Text),
        DeclarationV::Color(_) => Some(ValueKind::Color),
        DeclarationV::Event(_) => Some(ValueKind::Event),
        DeclarationV::Image(_) => None,
    }
}

/// The binding made last under a name decides a lookup of that name: a
/// value of the kind asked for is the value itself, a value of another kind
/// leaves it to the app's field, and a binding that names a field asks that
/// field first. A binding of another name changes nothing, and with no
/// bindings (or none in scope) the app's field is asked.
pub proof fn lemma_lookup_bindings(
    l: Seq<(Seq<char>, DataSrcV<DeclarationV>)>,
    name: Seq<char>,
    other: Seq<char>,
    v: DataSrcV<DeclarationV>,
    k: ValueKind,
)
    ensures
        lookup(name, Some(l.push((name, v))), k) == match v {
            DataSrcV::Static(d) => if kind_of(d) == Some(k) {
                LookupV::Local(d)
            } else {
                LookupV::App(seq![name])
            },
            DataSrcV::Dynamic(f) => LookupV::App(seq![f, name]),
        },
        other != name ==> lookup(name, Some(l.push((other, v))), k) == lookup(name, Some(l), k),
        lookup(name, Some(Seq::empty()), k) == LookupV::App(seq![name]),
        lookup(name, None, k) == LookupV::App(seq![name]),
{
    assert(l.push((name, v)).drop_last() =~= l);
    assert(l.push((other, v)).drop_last() =~= l);
    assert(pairs_map(Seq::<(Seq<char>, DataSrcV<DeclarationV>)>::empty()) == Map::<Seq<char>, DataSrcV<DeclarationV>>::empty());
    if other != name {
        assert(pairs_map(l.push((other, v))).dom().contains(name) == pairs_map(l).dom().contains(name));
    }
}

/// Where an image comes from.
#[derive(Debug, PartialEq)]
pub enum ImageLookup {
    /// The descriptor of a binding in scope.
    Found(ImageDescriptor),
    /// The app's image field of this name.
    App(String),
}

/// The model of an [`ImageLookup`].
pub enum ImageLookupV {
    Found(ImageDescriptorV),
    App(Seq<char>),
}

impl DeepView for ImageLookup {
    type V = ImageLookupV;

    open spec fn deep_view(&self) -> ImageLookupV {
        match self {
            ImageLookup::Found(d) => ImageLookupV::Found(d.deep_view()),
            ImageLookup::App(n) => ImageLookupV::App(n@),
        }
    }
}

/// The image named `name`, following up to `steps` bindings that name
/// another image: a binding with a descriptor is the image; the chain ends
/// on an app field where there is no binding, where a binding holds another
/// kind of value, or after `steps` redirections.
pub open spec fn image_chain(name: Seq<char>, l: Seq<(Seq<char>, DataSrcV<DeclarationV>)>, steps: nat) -> ImageLookupV
    decreases steps,
{
    if steps == 0 || !pairs_map(l).dom().contains(name) {
        ImageLookupV::App(name)
    } else {
        match pairs_map(l)[name] {
            DataSrcV::Static(DeclarationV::Image(d)) => ImageLookupV::Found(d),
            DataSrcV::Dynamic(next) => image_chain(next, l, (steps - 1) as nat),
            DataSrcV::Static(_) => ImageLookupV::App(name),
        }
    }
}

/// The image named `name`, given the bindings in scope: a chain of aliases
/// is followed for at most sixteen links, so a cycle ends.
pub open spec fn image_lookup(name: Seq<char>, locals: Option<Seq<(Seq<char>, DataSrcV<DeclarationV>)>>) -> ImageLookupV {
    match locals {
        Some(l) => image_chain(name, l, 16),
        None => ImageLookupV::App(name),
    }
}

/// Where the value of kind `k` named `name` comes from (see [`lookup`]).
pub fn resolve_lookup(name: &str, locals: Option<&Vec<(String, DataSrc<Declaration>)>>, k: ValueKind) -> (r: Lookup)
    ensures
        r.deep_view() == lookup(
            name@,
            match locals {
                Some(l) => Some(l.deep_view()),
                None => None,
            },
            k,
        ),
{
    let names = vec![name.to_owned()];
    assert(names.deep_view() =~= seq![name@]);
    let only = Lookup::App(names);
    match locals {
        None => only,
        Some(l) => {
            proof {
                lemma_pairs_map_lookup(l.deep_view(), name@);
            }
            match find_key(l, name) {
                None => only,
                Some(i) => {
                    assert(l.deep_view()[i as int] == l@[i as int].deep_view());
                    match &l[i].1 {
                        DataSrc::Dynamic(field) => {
                            let names = vec![field.clone(), name.to_owned()];
                            assert(names.deep_view() =~= seq![field@, name@]);
                            Lookup::App(names)
                        },
                        DataSrc::Static(d) => {
                            let matches = match (d, k) {
                                (Declaration::Bool(_), ValueKind::Bool) => true,
                                (Declaration::Numeric(_), ValueKind::Numeric) => true,
                                (Declaration::Text(_), ValueKind::Text) => true,
                                (Declaration::Color(_), ValueKind::Color) => true,
                                (Declaration::Event(_), ValueKind::Event) => true,
                                _ => false,
                            };
                            if matches {
                                match copy_decl_src(&l[i].1) {
                                    DataSrc::Static(c) => Lookup::Local(c),
                                    DataSrc::Dynamic(_) => only,
                                }
                            } else {
                                only
                            }
                        },
                    }
                },
            }
        },
    }
}

/// The image named `name` (see [`image_lookup`]).
pub fn resolve_image(name: &str, locals: Option<&Vec<(String, DataSrc<Declaration>)>>) -> (r: ImageLookup)
    ensures
        r.deep_view() == image_lookup(
            name@,
            match locals {
                Some(l) => Some(l.deep_view()),
                None => None,
            },
        ),
{
    let l = match locals {
        None => return ImageLookup::App(name.to_owned()),
        Some(l) => l,
    };
    let ghost lv = l.deep_view();
    let mut current = name.to_owned();
    let mut steps: u8 = 16;
    while steps > 0
        invariant
            lv == l.deep_view(),
            locals matches Some(x) && x.deep_view() == lv,
            steps <= 16,
            image_chain(current@, lv, steps as nat) == image_chain(name@, lv, 16),
        decreases steps,
    {
        proof {
            lemma_pairs_map_lookup(lv, current@);
        }
        match find_key(l, current.as_str()) {
            None => {
                return ImageLookup::App(current);
            },
            Some(i) => {
                assert(lv[i as int] == l@[i as int].deep_view());
                match &l[i].1 {
                    DataSrc::Static(Declaration::Image(d)) => {
                        let found = ImageDescriptor {
                            atlas: d.atlas.clone(),
                            u1: d.u1.clone(),
                            v1: d.v1.clone(),
                            u2: d.u2.clone(),
                            v2: d.v2.clone(),
                        };
                        return ImageLookup::Found(found);
                    },
                    DataSrc::Dynamic(next) => {
                        current = next.clone();
                        steps = steps - 1;
                    },
                    DataSrc::Static(_) => {
                        return ImageLookup::App(current);
                    },
                }
            },
        }
    }
    ImageLookup::App(current)
}

/// The image binding made last under a name decides an image lookup of
/// that name: a descriptor is the image, a binding that names another image
/// is followed (to that image's own binding), a binding of any other value
/// leaves it to the app's image of the name, and so does having no
/// bindings in scope.
pub proof fn lemma_image_bindings(
    l: Seq<(Seq<char>, DataSrcV<DeclarationV>)>,
    name: Seq<char>,
    next: Seq<char>,
    d: DeclarationV,
    img: ImageDescriptorV,
)
    ensures
        image_lookup(name, Some(l.push((name, DataSrcV::Static(DeclarationV::Image(img)))))) == ImageLookupV::Found(img),
        !(d is Image) ==> image_lookup(name, Some(l.push((name, DataSrcV::Static(d))))) == ImageLookupV::App(name),
        next != name ==> image_lookup(
            name,
            Some(l.push((next, DataSrcV::Static(DeclarationV::Image(img)))).push((name, DataSrcV::Dynamic(next)))),
        ) == ImageLookupV::Found(img),
        image_lookup(name, None) == ImageLookupV::App(name),
{
    let l1 = l.push((name, DataSrcV::Static(DeclarationV::Image(img))));
    assert(l1.drop_last() =~= l);
    let l2 = l.push((name, DataSrcV::Static(d)));
    assert(l2.drop_last() =~= l);
    let l3 = l.push((next, DataSrcV::Static(DeclarationV::Image(img))));
    let l4 = l3.push((name, DataSrcV::Dynamic(next)));
    assert(l3.drop_last() =~= l);
    assert(l4.drop_last() =~= l3);
    if next != name {
        assert(pairs_map(l3) == pairs_map(l).insert(next, DataSrcV::<DeclarationV>::Static(DeclarationV::Image(img))));
        assert(pairs_map(l4) == pairs_map(l3).insert(name, DataSrcV::<DeclarationV>::Dynamic(next)));
        assert(pairs_map(l4).dom().contains(next));
        assert(pairs_map(l4)[next] == DataSrcV::<DeclarationV>::Static(DeclarationV::Image(img)));
        assert(image_chain(next, l4, 15) == ImageLookupV::Found(img));
    }
}

} // verus!
