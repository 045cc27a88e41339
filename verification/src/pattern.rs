//! The pattern compiler: from a path template and the fields of a variant to
//! one anchored pattern with a named capture group for each variable.

use crate::engine::{escape, escaped};
use crate::error::{BuildError, BuildErrorView};
use crate::method::{capitalize_first, capitalized, method_named, method_of_name, Method};
use crate::params::{constraint_for, constraint_of};
use crate::path::{parse_path, path_segments, segments_view, HttpPathSegment, Segment};
use crate::variant::{find_route_attr, first_route_attr, Field, FieldView, Variant, VariantData, VariantDataView, VariantView};
use vstd::prelude::*;
use vstd::string::StringExecFns;

verus! {

/// The sub-pattern of a capture without a constraint: any run of characters
/// other than `/`, the empty run too.
pub open spec fn any_run() -> Seq<char> {
    "[^/]*"@
}

/// A capture group called `name` around a sub-pattern.
pub open spec fn named_group(name: Seq<char>, constraint: Seq<char>) -> Seq<char> {
    "(?P<"@ + name + ">"@ + constraint + ")"@
}

/// The capture group for a field: named after the field, around the
/// constraint of its type, or around `any_run` where the type has none.
pub open spec fn field_group(name: Seq<char>, ty: Seq<char>) -> Seq<char> {
    if constraint_of(ty).len() == 0 {
        named_group(name, any_run())
    } else {
        named_group(name, constraint_of(ty))
    }
}

/// The views of the entries of a context.
pub open spec fn context_view(context: Seq<(String, String)>) -> Seq<(Seq<char>, Seq<char>)> {
    context.map_values(|e: (String, String)| (e.0@, e.1@))
}

/// The context of a list of fields: for each field its name and its capture group.
pub open spec fn context_of(fields: Seq<FieldView>) -> Seq<(Seq<char>, Seq<char>)> {
    fields.map_values(|f: FieldView| (f.name, field_group(f.name, f.ty)))
}

/// What a context holds for a name: the last entry made under that name.
pub open spec fn lookup(context: Seq<(Seq<char>, Seq<char>)>, id: Seq<char>) -> Option<Seq<char>>
    decreases context.len(),
{
    if context.len() == 0 {
        None
    } else if context.last().0 == id {
        Some(context.last().1)
    } else {
        lookup(context.drop_last(), id)
    }
}

/// The pattern text of one segment: a literal is escaped; a variable becomes
/// what the context holds for its name, or an unconstrained group of its name.
pub open spec fn compiled_segment(segment: Segment, context: Seq<(Seq<char>, Seq<char>)>) -> Seq<
    char,
> {
    match segment {
        Segment::Var(id) => match lookup(context, id) {
            Some(group) => group,
            None => named_group(id, any_run()),
        },
        Segment::Lit(text) => escaped(text),
    }
}

/// The pattern texts of the segments, each after a `/`.
pub open spec fn joined_segments(
    segments: Seq<Segment>,
    context: Seq<(Seq<char>, Seq<char>)>,
) -> Seq<char>
    decreases segments.len(),
{
    if segments.len() == 0 {
        Seq::empty()
    } else {
        joined_segments(segments.drop_last(), context) + seq!['/'] + compiled_segment(
            segments.last(),
            context,
        )
    }
}

/// The anchored pattern of a template: `^`, then each segment after a `/`,
/// then an optional `/` and `$`.
pub open spec fn interpolated(
    segments: Seq<Segment>,
    context: Seq<(Seq<char>, Seq<char>)>,
) -> Seq<char> {
    "^"@ + joined_segments(segments, context) + "/?$"@
}

/// The context that the shape of a variant gives: that of its named fields.
pub open spec fn data_context(data: VariantDataView) -> Seq<(Seq<char>, Seq<char>)> {
    match data {
        VariantDataView::Struct(fields) => context_of(fields),
        _ => Seq::empty(),
    }
}

/// The anchored pattern for a path template on a variant of a given shape.
pub open spec fn path_pattern(data: VariantDataView, path: Seq<char>) -> Seq<char> {
    interpolated(path_segments(path), data_context(data))
}

/// What a declaration says of its route: the method and the anchored pattern,
/// or why it gives none.
pub open spec fn declared_route(v: VariantView) -> Result<(Method, Seq<char>), BuildErrorView> {
    match first_route_attr(v.attrs) {
        None => Err(BuildErrorView::MissingAttribute { variant: v.ident }),
        Some((name, path)) => match method_of_name(capitalized(name)) {
            None => Err(BuildErrorView::UnknownMethod { variant: v.ident, name: capitalized(name) }),
            Some(method) => Ok((method, path_pattern(v.data, path))),
        },
    }
}

/// Writes a capture group called `name` around `constraint`.
fn write_group(name: &str, constraint: &str) -> (group: String)
    ensures
        group@ == named_group(name@, constraint@),
{
    let mut group = String::from_str("(?P<");
    group.append(name);
    group.append(">");
    group.append(constraint);
    group.append(")");
    group
}

/// The capture group for a field called `name` of the type called `ty`: the
/// group is named after the field and holds the constraint of the type, `\d+`
/// for an integer type. A type without a constraint gives a group that takes
/// any run of characters other than `/`.
pub fn construct_regex_for_field(name: &str, ty: &str) -> (group: String)
    ensures
        group@ == field_group(name@, ty@),
{
    let inner_regex = constraint_for(ty);
    if inner_regex.is_empty() {
        write_group(name, "[^/]*")
    } else {
        write_group(name, inner_regex)
    }
}

/// Looks a name up in a context: the last entry made under it.
fn context_get<'a>(context: &'a Vec<(String, String)>, id: &String) -> (found: Option<&'a String>)
    ensures
        text_of(found) == lookup(context_view(context@), id@),
{
    let mut i: usize = context.len();
    proof {
        assert(context_view(context@).take(i as int) =~= context_view(context@));
    }
    while i > 0
        invariant
            i <= context.len(),
            lookup(context_view(context@), id@) == lookup(
                context_view(context@).take(i as int),
                id@,
            ),
        decreases i,
    {
        i = i - 1;
        proof {
            let head = context_view(context@).take(i + 1);
            assert(head.last() == (context@[i as int].0@, context@[i as int].1@));
            assert(head.drop_last() =~= context_view(context@).take(i as int));
        }
        if context[i].0 == *id {
            return Some(&context[i].1);
        }
    }
    None
}

/// The text of a string that may be absent.
pub open spec fn text_of(found: Option<&String>) -> Option<Seq<char>> {
    match found {
        Some(s) => Some(s@),
        None => None,
    }
}

/// Builds the anchored pattern of a template from its segments: `^`, then for
/// each segment a `/` and its pattern text, then `/?$`, so that the pattern
/// takes the whole path with or without a slash at its end. A literal is
/// escaped. A variable becomes the capture group that the context holds for
/// its name, or a group of its name that takes any run without `/`.
pub fn interpolate(segments: &Vec<HttpPathSegment>, context: &Vec<(String, String)>) -> (regex_string: String)
    ensures
        regex_string@ == interpolated(segments_view(segments@), context_view(context@)),
{
    let mut regex_string = String::from_str("^");
    let mut i: usize = 0;
    proof {
        assert(segments_view(segments@).take(0) =~= Seq::<Segment>::empty());
        assert("^"@ + Seq::<char>::empty() =~= "^"@);
    }
    while i < segments.len()
        invariant
            i <= segments.len(),
            regex_string@ == "^"@ + joined_segments(
                segments_view(segments@).take(i as int),
                context_view(context@),
            ),
        decreases segments.len() - i,
    {
        proof {
            let head = segments_view(segments@).take(i + 1);
            assert(head.last() == segments@[i as int]@);
            assert(head.drop_last() =~= segments_view(segments@).take(i as int));
            reveal_strlit("/");
            assert("/"@ =~= seq!['/']);
        }
        let ghost before = regex_string@;
        regex_string.append("/");
        match &segments[i] {
            HttpPathSegment::Var(id) => {
                match context_get(context, id) {
                    Some(group) => {
                        regex_string.append(group.as_str());
                    },
                    None => {
                        let group = write_group(id.as_str(), "[^/]*");
                        regex_string.append(group.as_str());
                    },
                }
            },
            HttpPathSegment::Lit(el) => {
                let quoted = escape(el.as_str());
                regex_string.append(quoted.as_str());
            },
        }
        assert(regex_string@ =~= "^"@ + joined_segments(
            segments_view(segments@).take(i + 1),
            context_view(context@),
        ));
        i = i + 1;
    }
    proof {
        assert(segments_view(segments@).take(i as int) =~= segments_view(segments@));
    }
    regex_string.append("/?$");
    regex_string
}

/// Compiles the path template of a variant into its anchored pattern: the
/// named fields of the variant give the capture groups of the variables that
/// carry their names.
pub fn construct_path_regex_string(variant: &Variant, path: &str) -> (pattern: String)
    ensures
        pattern@ == path_pattern(variant@.data, path@),
{
    let mut regex: Vec<(String, String)> = Vec::new();
    match &variant.data {
        VariantData::Struct(fields) => {
            let mut i: usize = 0;
            while i < fields.len()
                invariant
                    i <= fields.len(),
                    regex@.len() == i,
                    variant@.data == VariantDataView::Struct(fields@.map_values(|f: Field| f@)),
                    context_view(regex@) == context_of(
                        fields@.map_values(|f: Field| f@).take(i as int),
                    ),
                decreases fields.len() - i,
            {
                let field = &fields[i];
                let field_regex = construct_regex_for_field(field.name.as_str(), field.ty.as_str());
                let ghost before = regex@;
                regex.push((field.name.clone(), field_regex));
                proof {
                    let views = fields@.map_values(|f: Field| f@);
                    let target = context_of(views.take(i + 1));
                    assert forall|k: int| 0 <= k < i + 1 implies context_view(regex@)[k]
                        == target[k] by {
                        if k < i {
                            assert(context_view(before)[k] == context_of(views.take(i as int))[k]);
                        }
                    }
                    assert(context_view(regex@) =~= target);
                }
                i = i + 1;
            }
            proof {
                assert(fields@.map_values(|f: Field| f@).take(i as int) =~= fields@.map_values(
                    |f: Field| f@,
                ));
            }
        },
        _ => {
            assert(context_view(regex@) =~= Seq::<(Seq<char>, Seq<char>)>::empty());
        },
    }
    let parsed = parse_path(path);
    interpolate(&parsed, &regex)
}

/// Finds what a variant declares: the method named by its first route
/// attribute, and the anchored pattern compiled from the path of that
/// attribute. A variant without a route attribute, or with one named after no
/// method, gives an error that names the variant.
pub fn get_method_and_path_from_variant(variant: &Variant) -> (r: Result<
    (Method, String),
    BuildError,
>)
    ensures
        match r {
            Ok((method, pattern)) => declared_route(variant@) == Ok::<
                (Method, Seq<char>),
                BuildErrorView,
            >((method, pattern@)),
            Err(e) => declared_route(variant@) == Err::<(Method, Seq<char>), BuildErrorView>(e@),
        },
{
    match find_route_attr(variant) {
        Some((name, http_path)) => {
            let method_ident = capitalize_first(name);
            match method_named(method_ident.as_str()) {
                Some(method) => {
                    let path_regex = construct_path_regex_string(variant, http_path);
                    Ok((method, path_regex))
                },
                None => Err(
                    BuildError::UnknownMethod { variant: variant.ident.clone(), name: method_ident },
                ),
            }
        },
        None => Err(BuildError::MissingAttribute { variant: variant.ident.clone() }),
    }
}

} // verus!
