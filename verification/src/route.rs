//! Compiled route descriptors, and the values that a matched route yields.

use crate::method::Method;
use crate::params::{param_type_named, param_type_of, parse_param, parsed, ParamType, ParamValue, ParamValueView};
use crate::text::texts;
use crate::variant::{Field, FieldView, VariantData, VariantDataView};
use vstd::prelude::*;

verus! {

/// A named field of a route with its parameter type.
#[derive(Debug)]
pub struct FieldSpec {
    pub name: String,
    pub ty: ParamType,
}

/// How the value of a route is put together.
#[derive(Debug)]
pub enum ConstructorKind {
    /// Named fields, each parsed from the capture of its name.
    StructLike(Vec<FieldSpec>),
    /// Positional fields: never yields a value.
    TupleLike,
    /// No fields.
    Unit,
}

/// One compiled route: the variant it was declared on, its method, its
/// anchored pattern, the names of the capture groups of the pattern in their
/// order, and how its value is put together.
#[derive(Debug)]
pub struct RouteDescriptor {
    pub ident: String,
    pub method: Method,
    pub pattern: String,
    pub capture_names: Vec<String>,
    pub kind: ConstructorKind,
}

pub struct FieldSpecView {
    pub name: Seq<char>,
    pub ty: ParamType,
}

pub enum ConstructorKindView {
    StructLike(Seq<FieldSpecView>),
    TupleLike,
    Unit,
}

pub struct RouteDescriptorView {
    pub ident: Seq<char>,
    pub method: Method,
    pub pattern: Seq<char>,
    pub capture_names: Seq<Seq<char>>,
    pub kind: ConstructorKindView,
}

impl View for FieldSpec {
    type V = FieldSpecView;

    open spec fn view(&self) -> FieldSpecView {
        FieldSpecView { name: self.name@, ty: self.ty }
    }
}

/// The fields of a vector, each by its view.
pub open spec fn specs_view(fields: Seq<FieldSpec>) -> Seq<FieldSpecView> {
    fields.map_values(|f: FieldSpec| f@)
}

impl View for ConstructorKind {
    type V = ConstructorKindView;

    open spec fn view(&self) -> ConstructorKindView {
        match self {
            ConstructorKind::StructLike(fields) => ConstructorKindView::StructLike(
                specs_view(fields@),
            ),
            ConstructorKind::TupleLike => ConstructorKindView::TupleLike,
            ConstructorKind::Unit => ConstructorKindView::Unit,
        }
    }
}

impl View for RouteDescriptor {
    type V = RouteDescriptorView;

    open spec fn view(&self) -> RouteDescriptorView {
        RouteDescriptorView {
            ident: self.ident@,
            method: self.method,
            pattern: self.pattern@,
            capture_names: texts(self.capture_names@),
            kind: self.kind@,
        }
    }
}

/// The routes of a vector, each by its view.
pub open spec fn descriptors_view(routes: Seq<RouteDescriptor>) -> Seq<RouteDescriptorView> {
    routes.map_values(|r: RouteDescriptor| r@)
}

/// One field of a route value.
#[derive(Debug)]
pub struct FieldValue {
    pub name: String,
    pub value: ParamValue,
}

/// What a matched route yields: the place of the route in the order of
/// declaration, and the values of its fields in their order.
#[derive(Debug)]
pub struct RouteValue {
    pub variant: usize,
    pub fields: Vec<FieldValue>,
}

/// Why a matched route yields no value.
#[derive(Debug)]
pub enum RouteError {
    /// The match holds no capture of the name of a field.
    MissingCapture { field: String },
    /// The capture of a field is no value of the type of the field.
    InvalidValue { field: String, text: String },
}

pub struct FieldValueView {
    pub name: Seq<char>,
    pub value: ParamValueView,
}

pub struct RouteValueView {
    pub variant: int,
    pub fields: Seq<FieldValueView>,
}

pub enum RouteErrorView {
    MissingCapture { field: Seq<char> },
    InvalidValue { field: Seq<char>, text: Seq<char> },
}

impl View for FieldValue {
    type V = FieldValueView;

    open spec fn view(&self) -> FieldValueView {
        FieldValueView { name: self.name@, value: self.value@ }
    }
}

/// The field values of a vector, each by its view.
pub open spec fn values_view(values: Seq<FieldValue>) -> Seq<FieldValueView> {
    values.map_values(|v: FieldValue| v@)
}

impl View for RouteValue {
    type V = RouteValueView;

    open spec fn view(&self) -> RouteValueView {
        RouteValueView { variant: self.variant as int, fields: values_view(self.fields@) }
    }
}

impl View for RouteError {
    type V = RouteErrorView;

    open spec fn view(&self) -> RouteErrorView {
        match self {
            RouteError::MissingCapture { field } => RouteErrorView::MissingCapture {
                field: field@,
            },
            RouteError::InvalidValue { field, text } => RouteErrorView::InvalidValue {
                field: field@,
                text: text@,
            },
        }
    }
}

/// The outcome of a dispatch: no route, the value of the matched route, or
/// why the matched route yields none.
pub type Outcome = Option<Result<RouteValue, RouteError>>;

/// The mathematical form of an `Outcome`.
pub type OutcomeView = Option<Result<RouteValueView, RouteErrorView>>;

/// The view of an outcome.
pub open spec fn outcome_view(outcome: Outcome) -> OutcomeView {
    match outcome {
        Some(Ok(value)) => Some(Ok(value@)),
        Some(Err(error)) => Some(Err(error@)),
        None => None,
    }
}

/// The field of a route for a declared field: the same name, and the
/// parameter type that the name of its type stands for.
pub open spec fn field_spec_of(field: FieldView) -> FieldSpecView {
    FieldSpecView { name: field.name, ty: param_type_of(field.ty) }
}

/// How the value of a variant of a given shape is put together.
pub open spec fn kind_of(data: VariantDataView) -> ConstructorKindView {
    match data {
        VariantDataView::Struct(fields) => ConstructorKindView::StructLike(
            fields.map_values(|f: FieldView| field_spec_of(f)),
        ),
        VariantDataView::Tuple => ConstructorKindView::TupleLike,
        VariantDataView::Unit => ConstructorKindView::Unit,
    }
}

/// The captured text at a place; none beyond the end.
pub open spec fn text_at(texts: Seq<Option<Seq<char>>>, i: int) -> Option<Seq<char>> {
    if 0 <= i < texts.len() {
        texts[i]
    } else {
        None
    }
}

/// The values of the first `n` fields, each parsed from the captured text at
/// its place, or the error of the first field, in their order, that has no
/// capture or whose capture is no value of its type.
pub open spec fn field_values(
    fields: Seq<FieldSpecView>,
    texts: Seq<Option<Seq<char>>>,
    n: int,
) -> Result<Seq<FieldValueView>, RouteErrorView>
    decreases n,
{
    if n <= 0 {
        Ok(Seq::empty())
    } else {
        match field_values(fields, texts, n - 1) {
            Err(error) => Err(error),
            Ok(values) => {
                let field = fields[n - 1];
                match text_at(texts, n - 1) {
                    None => Err(RouteErrorView::MissingCapture { field: field.name }),
                    Some(text) => match parsed(field.ty, text) {
                        None => Err(RouteErrorView::InvalidValue { field: field.name, text }),
                        Some(value) => Ok(values.push(FieldValueView { name: field.name, value })),
                    },
                }
            },
        }
    }
}

/// What the route at place `index` yields from the captured texts of its
/// fields: nothing for a tuple-like route, the bare value for a unit route,
/// and for a struct-like route the values of all its fields or the first error.
pub open spec fn constructed(
    index: int,
    kind: ConstructorKindView,
    texts: Seq<Option<Seq<char>>>,
) -> OutcomeView {
    match kind {
        ConstructorKindView::StructLike(fields) => Some(
            match field_values(fields, texts, fields.len() as int) {
                Ok(values) => Ok(RouteValueView { variant: index, fields: values }),
                Err(error) => Err(error),
            },
        ),
        ConstructorKindView::TupleLike => None,
        ConstructorKindView::Unit => Some(
            Ok(RouteValueView { variant: index, fields: Seq::empty() }),
        ),
    }
}

/// An error among the first `n` fields is the error of any longer run of fields.
pub proof fn lemma_first_error_stays(
    fields: Seq<FieldSpecView>,
    texts: Seq<Option<Seq<char>>>,
    n: int,
    m: int,
)
    requires
        n <= m,
        field_values(fields, texts, n) is Err,
    ensures
        field_values(fields, texts, m) == field_values(fields, texts, n),
    decreases m - n,
{
    if n < m {
        lemma_first_error_stays(fields, texts, n, m - 1);
    }
}

/// The texts of a vector of captures.
pub open spec fn captures_view(captures: Seq<Option<String>>) -> Seq<Option<Seq<char>>> {
    captures.map_values(
        |c: Option<String>|
            match c {
                Some(text) => Some(text@),
                None => None,
            },
    )
}

/// Resolves the shape of a variant: each named field keeps its name and gets
/// the parameter type that the name of its type stands for.
pub fn constructor_kind(data: &VariantData) -> (kind: ConstructorKind)
    ensures
        kind@ == kind_of(data@),
{
    match data {
        VariantData::Struct(fields) => {
            let mut specs: Vec<FieldSpec> = Vec::new();
            let mut i: usize = 0;
            while i < fields.len()
                invariant
                    i <= fields.len(),
                    specs@.len() == i,
                    forall|k: int|
                        0 <= k < i ==> (#[trigger] specs@[k])@ == field_spec_of(fields@[k]@),
                decreases fields.len() - i,
            {
                let field = &fields[i];
                specs.push(
                    FieldSpec { name: field.name.clone(), ty: param_type_named(field.ty.as_str()) },
                );
                i = i + 1;
            }
            assert(specs_view(specs@) =~= fields@.map_values(|f: Field| f@).map_values(
                |f: FieldView| field_spec_of(f),
            ));
            ConstructorKind::StructLike(specs)
        },
        VariantData::Tuple => ConstructorKind::TupleLike,
        VariantData::Unit => ConstructorKind::Unit,
    }
}

/// Puts the value of a matched route together. `index` is the place of the
/// route in the order of declaration; `captures` holds, for each field in its
/// order, the text captured under its name, if any.
///
/// A unit route yields its bare value and a tuple-like route yields nothing.
/// A struct-like route yields the values of its fields, each parsed in the
/// type of the field; the first field without a capture, or with a capture
/// that is no value of its type, makes the whole route fail with that error.
pub fn construct_route(index: usize, kind: &ConstructorKind, captures: &Vec<Option<String>>) -> (outcome: Outcome)
    ensures
        outcome_view(outcome) == constructed(index as int, kind@, captures_view(captures@)),
{
    match kind {
        ConstructorKind::StructLike(fields) => {
            let mut field_initializers: Vec<FieldValue> = Vec::new();
            let mut i: usize = 0;
            assert(values_view(field_initializers@) =~= Seq::<FieldValueView>::empty());
            while i < fields.len()
                invariant
                    i <= fields.len(),
                    kind@ == ConstructorKindView::StructLike(specs_view(fields@)),
                    field_values(specs_view(fields@), captures_view(captures@), i as int) == Ok::<
                        Seq<FieldValueView>,
                        RouteErrorView,
                    >(values_view(field_initializers@)),
                decreases fields.len() - i,
            {
                let field = &fields[i];
                proof {
                    if field_values(specs_view(fields@), captures_view(captures@), i + 1) is Err {
                        lemma_first_error_stays(
                            specs_view(fields@),
                            captures_view(captures@),
                            i + 1,
                            fields@.len() as int,
                        );
                    }
                }
                if i >= captures.len() {
                    return Some(Err(RouteError::MissingCapture { field: field.name.clone() }));
                }
                match &captures[i] {
                    None => {
                        return Some(Err(RouteError::MissingCapture { field: field.name.clone() }));
                    },
                    Some(text) => match parse_param(field.ty, text.as_str()) {
                        None => {
                            return Some(
                                Err(
                                    RouteError::InvalidValue {
                                        field: field.name.clone(),
                                        text: text.clone(),
                                    },
                                ),
                            );
                        },
                        Some(value) => {
                            let ghost before = field_initializers@;
                            let entry = FieldValue { name: field.name.clone(), value };
                            field_initializers.push(entry);
                            assert(values_view(field_initializers@) =~= values_view(before).push(
                                entry@,
                            ));
                        },
                    },
                }
                i = i + 1;
            }
            Some(Ok(RouteValue { variant: index, fields: field_initializers }))
        },
        ConstructorKind::TupleLike => None,
        ConstructorKind::Unit => {
            let fields: Vec<FieldValue> = Vec::new();
            assert(values_view(fields@) =~= Seq::<FieldValueView>::empty());
            Some(Ok(RouteValue { variant: index, fields }))
        },
    }
}

} // verus!
