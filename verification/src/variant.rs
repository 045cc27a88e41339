//! Route declarations as they are authored: one variant of the application's
//! route type per route, with the attributes and fields it was written with.

use vstd::prelude::*;

verus! {

/// One argument of a list attribute.
#[derive(Debug)]
pub enum AttrArg {
    /// An ordinary string literal, as in `get("/users")`.
    Str(String),
    /// Any other argument: a raw string, another literal, a nested attribute.
    Other,
}

/// One attribute of a variant.
#[derive(Debug)]
pub enum Attr {
    /// A name with arguments in brackets, as in `get("/users")`.
    List { name: String, args: Vec<AttrArg> },
    /// Any other attribute: a bare word, or a name with a value.
    Other,
}

/// One named field of a variant, with the name of its type as written.
#[derive(Debug)]
pub struct Field {
    pub name: String,
    pub ty: String,
}

/// The shape of a variant.
#[derive(Debug)]
pub enum VariantData {
    /// Named fields, each filled from the capture of its name.
    Struct(Vec<Field>),
    /// Positional fields. No value is ever produced for such a variant.
    Tuple,
    /// No fields.
    Unit,
}

/// One route declaration.
#[derive(Debug)]
pub struct Variant {
    pub ident: String,
    pub attrs: Vec<Attr>,
    pub data: VariantData,
}

pub enum AttrArgView {
    Str(Seq<char>),
    Other,
}

pub enum AttrView {
    List { name: Seq<char>, args: Seq<AttrArgView> },
    Other,
}

pub struct FieldView {
    pub name: Seq<char>,
    pub ty: Seq<char>,
}

pub enum VariantDataView {
    Struct(Seq<FieldView>),
    Tuple,
    Unit,
}

pub struct VariantView {
    pub ident: Seq<char>,
    pub attrs: Seq<AttrView>,
    pub data: VariantDataView,
}

impl View for AttrArg {
    type V = AttrArgView;

    open spec fn view(&self) -> AttrArgView {
        match self {
            AttrArg::Str(text) => AttrArgView::Str(text@),
            AttrArg::Other => AttrArgView::Other,
        }
    }
}

impl View for Attr {
    type V = AttrView;

    open spec fn view(&self) -> AttrView {
        match self {
            Attr::List { name, args } => AttrView::List {
                name: name@,
                args: args@.map_values(|a: AttrArg| a@),
            },
            Attr::Other => AttrView::Other,
        }
    }
}

impl View for Field {
    type V = FieldView;

    open spec fn view(&self) -> FieldView {
        FieldView { name: self.name@, ty: self.ty@ }
    }
}

impl View for VariantData {
    type V = VariantDataView;

    open spec fn view(&self) -> VariantDataView {
        match self {
            VariantData::Struct(fields) => VariantDataView::Struct(
                fields@.map_values(|f: Field| f@),
            ),
            VariantData::Tuple => VariantDataView::Tuple,
            VariantData::Unit => VariantDataView::Unit,
        }
    }
}

impl View for Variant {
    type V = VariantView;

    open spec fn view(&self) -> VariantView {
        VariantView {
            ident: self.ident@,
            attrs: self.attrs@.map_values(|a: Attr| a@),
            data: self.data@,
        }
    }
}

/// The declarations of a vector, each by its view.
pub open spec fn variants_view(variants: Seq<Variant>) -> Seq<VariantView> {
    variants.map_values(|v: Variant| v@)
}

/// The name and the path of a route attribute: a list attribute whose only
/// argument is an ordinary string literal. `None` for any other attribute.
pub open spec fn route_attr(attr: AttrView) -> Option<(Seq<char>, Seq<char>)> {
    match attr {
        AttrView::List { name, args } => if args.len() == 1 {
            match args[0] {
                AttrArgView::Str(path) => Some((name, path)),
                AttrArgView::Other => None,
            }
        } else {
            None
        },
        AttrView::Other => None,
    }
}

/// The name and the path of the first route attribute among `attrs`.
pub open spec fn first_route_attr(attrs: Seq<AttrView>) -> Option<(Seq<char>, Seq<char>)>
    decreases attrs.len(),
{
    if attrs.len() == 0 {
        None
    } else if route_attr(attrs[0]) is Some {
        route_attr(attrs[0])
    } else {
        first_route_attr(attrs.drop_first())
    }
}

/// Reads one attribute as a route attribute.
pub fn as_route_attr(attr: &Attr) -> (found: Option<(&str, &str)>)
    ensures
        match found {
            Some((name, path)) => route_attr(attr@) == Some((name@, path@)),
            None => route_attr(attr@) is None,
        },
{
    match attr {
        Attr::List { name, args } => {
            if args.len() == 1 {
                match &args[0] {
                    AttrArg::Str(path) => Some((name.as_str(), path.as_str())),
                    AttrArg::Other => None,
                }
            } else {
                None
            }
        },
        Attr::Other => None,
    }
}

/// Finds the first route attribute of a variant and returns its name and its
/// path; `None` where the variant has no such attribute.
pub fn find_route_attr(variant: &Variant) -> (found: Option<(&str, &str)>)
    ensures
        match found {
            Some((name, path)) => first_route_attr(variant@.attrs) == Some((name@, path@)),
            None => first_route_attr(variant@.attrs) is None,
        },
{
    let mut i: usize = 0;
    proof {
        assert(variant@.attrs.skip(0) =~= variant@.attrs);
    }
    while i < variant.attrs.len()
        invariant
            i <= variant.attrs.len(),
            first_route_attr(variant@.attrs) == first_route_attr(variant@.attrs.skip(i as int)),
        decreases variant.attrs.len() - i,
    {
        let found = as_route_attr(&variant.attrs[i]);
        proof {
            let rest = variant@.attrs.skip(i as int);
            assert(rest[0] == variant.attrs[i as int]@);
            assert(rest.drop_first() =~= variant@.attrs.skip(i + 1));
        }
        if found.is_some() {
            return found;
        }
        i = i + 1;
    }
    None
}

} // verus!
