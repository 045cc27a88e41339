//! What holds of every table and every dispatch, proved from the contracts
//! of the library. The pattern engine is not proved: where a law rests on
//! what the engine accepts or captures, it says so in its `requires`.

use crate::engine::{captured_text, pattern_accepts};
use crate::method::{capitalized, method_of_name, Method};
use crate::model::{dispatch, first_match, first_match_from, lemma_first_match_is_first, lemma_no_match, matches_at, route_texts};
use crate::params::{all_digits, digit_value, digits_value, integer_value, is_digit, parsed, ParamType, ParamValueView};
use crate::route::{constructed, field_values, FieldSpecView, FieldValueView, OutcomeView, RouteDescriptorView, RouteErrorView, RouteValueView};
use vstd::prelude::*;

verus! {

/// The decimal digit for a number below ten.
pub open spec fn digit_char(d: nat) -> char {
    ('0' as int + d) as char
}

/// A natural number written in decimal digits, without leading zeros.
pub open spec fn decimal_text(n: nat) -> Seq<char>
    decreases n,
{
    if n < 10 {
        seq![digit_char(n)]
    } else {
        decimal_text(n / 10).push(digit_char(n % 10))
    }
}

/// A value written as it stands in a path: an integer in decimal digits,
/// after a `-` if it is negative, and a text as it is.
pub open spec fn rendered(value: ParamValueView) -> Seq<char> {
    match value {
        ParamValueView::Int { ty, value } => if value < 0 {
            seq!['-'] + decimal_text((-value) as nat)
        } else {
            decimal_text(value as nat)
        },
        ParamValueView::Text(text) => text,
    }
}

/// Whether a value is one of a parameter type: a text for text, and for an
/// integer type an integer that carries the type and lies in its range.
pub open spec fn value_fits(ty: ParamType, value: ParamValueView) -> bool {
    match value {
        ParamValueView::Int { ty: t, value } => t == ty && ty.holds(value),
        ParamValueView::Text(_) => ty == ParamType::Text,
    }
}

/// The field values of a struct-like route with the given values.
pub open spec fn fields_with(fields: Seq<FieldSpecView>, values: Seq<ParamValueView>) -> Seq<
    FieldValueView,
> {
    Seq::new(fields.len(), |k: int| FieldValueView { name: fields[k].name, value: values[k] })
}

/// The decimal digits of a number are digits, at least one, and write that number.
pub proof fn lemma_decimal_text(n: nat)
    ensures
        decimal_text(n).len() > 0,
        all_digits(decimal_text(n)),
        digits_value(decimal_text(n)) == n,
    decreases n,
{
    if n < 10 {
        let s = decimal_text(n);
        assert(s.len() == 1);
        assert(s[0] == digit_char(n));
        assert(is_digit(s[0]));
        assert(s.drop_last() =~= Seq::<char>::empty());
        assert(digits_value(s.drop_last()) == 0);
        assert(digit_value(s.last()) == n);
    } else {
        lemma_decimal_text(n / 10);
        let head = decimal_text(n / 10);
        let s = decimal_text(n);
        let c = digit_char(n % 10);
        assert(is_digit(c));
        assert(digit_value(c) == n % 10);
        assert(s.drop_last() =~= head);
        assert(s.last() == c);
        assert forall|i: int| 0 <= i < s.len() implies is_digit(#[trigger] s[i]) by {
            if i < head.len() {
                assert(s[i] == head[i]);
            }
        }
    }
}

/// Reading back a written value gives the value: parsing is the inverse of
/// writing, for every value of every parameter type.
pub proof fn lemma_parse_rendered(ty: ParamType, value: ParamValueView)
    requires
        value_fits(ty, value),
    ensures
        parsed(ty, rendered(value)) == Some(value),
{
    match value {
        ParamValueView::Text(_) => {},
        ParamValueView::Int { ty: t, value: n } => {
            if n < 0 {
                let digits = decimal_text((-n) as nat);
                lemma_decimal_text((-n) as nat);
                let s = seq!['-'] + digits;
                assert(s[0] == '-');
                assert(s.skip(1) =~= digits);
                assert(ty.is_signed());
                assert(integer_value(s, true) == Some(n));
            } else {
                let s = decimal_text(n as nat);
                lemma_decimal_text(n as nat);
                assert(is_digit(s[0]));
                assert(integer_value(s, ty.is_signed()) == Some(n));
            }
        },
    }
}

/// Where every capture is the written form of a value of its field's type,
/// the fields parse to exactly those values.
pub proof fn lemma_fields_parse_back(
    fields: Seq<FieldSpecView>,
    texts: Seq<Option<Seq<char>>>,
    values: Seq<ParamValueView>,
    n: int,
)
    requires
        0 <= n <= fields.len(),
        texts.len() == fields.len(),
        values.len() == fields.len(),
        forall|k: int|
            0 <= k < fields.len() ==> value_fits(fields[k].ty, #[trigger] values[k]) && texts[k]
                == Some(rendered(values[k])),
    ensures
        field_values(fields, texts, n) == Ok::<Seq<FieldValueView>, RouteErrorView>(
            fields_with(fields, values).take(n),
        ),
    decreases n,
{
    if n > 0 {
        lemma_fields_parse_back(fields, texts, values, n - 1);
        lemma_parse_rendered(fields[n - 1].ty, values[n - 1]);
        assert(fields_with(fields, values).take(n) =~= fields_with(fields, values).take(
            n - 1,
        ).push(FieldValueView { name: fields[n - 1].name, value: values[n - 1] }));
    } else {
        assert(fields_with(fields, values).take(0) =~= Seq::<FieldValueView>::empty());
    }
}

/// Round trip. Take a struct-like route and a value of the type of each of
/// its fields, and a path that the engine routes to it: the route is the
/// first declared one of its method whose pattern accepts the path, and the
/// pattern captures, under the name of each field, the written form of the
/// field's value. Then the dispatch yields that route with exactly those
/// values.
pub proof fn lemma_round_trip(
    routes: Seq<RouteDescriptorView>,
    method: Method,
    path: Seq<char>,
    i: int,
    values: Seq<ParamValueView>,
)
    requires
        first_match(routes, method, path) == Some(i),
        routes[i].kind is StructLike,
        values.len() == routes[i].kind->StructLike_0.len(),
        forall|k: int|
            0 <= k < values.len() ==> value_fits(
                routes[i].kind->StructLike_0[k].ty,
                #[trigger] values[k],
            ) && captured_text(routes[i].pattern, path, routes[i].kind->StructLike_0[k].name)
                == Some(rendered(values[k])),
    ensures
        dispatch(routes, method, path) == Some(
            Ok::<RouteValueView, RouteErrorView>(
                RouteValueView {
                    variant: i,
                    fields: fields_with(routes[i].kind->StructLike_0, values),
                },
            ),
        ),
{
    let fields = routes[i].kind->StructLike_0;
    let texts = route_texts(routes[i], path);
    lemma_fields_parse_back(fields, texts, values, fields.len() as int);
    assert(fields_with(fields, values).take(fields.len() as int) =~= fields_with(fields, values));
}

/// Round trip for a route without fields: a path that the engine routes to a
/// unit route yields the bare value of that route.
pub proof fn lemma_round_trip_unit(
    routes: Seq<RouteDescriptorView>,
    method: Method,
    path: Seq<char>,
    i: int,
)
    requires
        first_match(routes, method, path) == Some(i),
        routes[i].kind is Unit,
    ensures
        dispatch(routes, method, path) == Some(
            Ok::<RouteValueView, RouteErrorView>(
                RouteValueView { variant: i, fields: Seq::empty() },
            ),
        ),
{
}

/// Determinism. Two outcomes of routing the same method and path through
/// the same table are the same outcome.
pub proof fn lemma_route_is_deterministic(
    routes: Seq<RouteDescriptorView>,
    method: Method,
    path: Seq<char>,
    first: OutcomeView,
    second: OutcomeView,
)
    requires
        first == dispatch(routes, method, path),
        second == dispatch(routes, method, path),
    ensures
        first == second,
{
}

/// First declared wins. Where two routes of the method both accept the path,
/// the route that wins is declared no later than the earlier of the two, and
/// the dispatch is what the winner yields: never a value of the later route.
pub proof fn lemma_first_declared_wins(
    routes: Seq<RouteDescriptorView>,
    method: Method,
    path: Seq<char>,
    i: int,
    j: int,
)
    requires
        i < j,
        matches_at(routes, method, path, i),
        matches_at(routes, method, path, j),
    ensures
        first_match(routes, method, path) is Some,
        first_match(routes, method, path)->0 <= i,
        dispatch(routes, method, path) == constructed(
            first_match(routes, method, path)->0,
            routes[first_match(routes, method, path)->0].kind,
            route_texts(routes[first_match(routes, method, path)->0], path),
        ),
        dispatch(routes, method, path) matches Some(Ok(value)) ==> value.variant != j,
{
    lemma_first_match_is_first(routes, method, path);
}

/// The route that a dispatch yields a value for is the first declared route
/// of the method whose pattern accepts the path.
pub proof fn lemma_value_comes_from_first_match(
    routes: Seq<RouteDescriptorView>,
    method: Method,
    path: Seq<char>,
)
    ensures
        dispatch(routes, method, path) matches Some(Ok(value)) ==> {
            &&& matches_at(routes, method, path, value.variant)
            &&& forall|j: int| 0 <= j < value.variant ==> !matches_at(routes, method, path, j)
        },
{
    lemma_first_match_is_first(routes, method, path);
}

/// Wrong method, and rejection at the pattern. Where no route declared for
/// the method has a pattern that accepts the path, the dispatch finds no
/// route, whatever the routes of other methods accept: it neither yields a
/// value nor reaches the parsing of captures.
pub proof fn lemma_no_route_without_match(
    routes: Seq<RouteDescriptorView>,
    method: Method,
    path: Seq<char>,
)
    requires
        forall|i: int|
            0 <= i < routes.len() && (#[trigger] routes[i]).method == method ==> !pattern_accepts(
                routes[i].pattern,
                path,
            ),
    ensures
        dispatch(routes, method, path) is None,
{
    lemma_no_match(routes, method, path);
}

/// An error of a dispatch comes only from a route whose pattern accepted the
/// path: a malformed parameter is never reported for a path that no route takes.
pub proof fn lemma_error_needs_match(
    routes: Seq<RouteDescriptorView>,
    method: Method,
    path: Seq<char>,
)
    ensures
        dispatch(routes, method, path) matches Some(Err(_)) ==> exists|i: int|
            matches_at(routes, method, path, i),
{
    lemma_first_match_is_first(routes, method, path);
    if dispatch(routes, method, path) matches Some(Err(_)) {
        let i = first_match(routes, method, path)->0;
        assert(matches_at(routes, method, path, i));
    }
}

/// Whether the engine treats two paths alike on a route: its pattern accepts
/// both or neither, and captures the same text from both under every name.
pub open spec fn alike_on(route: RouteDescriptorView, p: Seq<char>, q: Seq<char>) -> bool {
    &&& pattern_accepts(route.pattern, p) == pattern_accepts(route.pattern, q)
    &&& forall|name: Seq<char>|
        captured_text(route.pattern, p, name) == captured_text(route.pattern, q, name)
}

proof fn lemma_alike_first_match(
    routes: Seq<RouteDescriptorView>,
    method: Method,
    p: Seq<char>,
    q: Seq<char>,
    from: int,
)
    requires
        0 <= from,
        forall|i: int|
            0 <= i < routes.len() && (#[trigger] routes[i]).method == method ==> alike_on(
                routes[i],
                p,
                q,
            ),
    ensures
        first_match_from(routes, method, p, from) == first_match_from(routes, method, q, from),
    decreases routes.len() - from,
{
    if from < routes.len() {
        lemma_alike_first_match(routes, method, p, q, from + 1);
    }
}

/// Two paths that the engine treats alike on every route of a method are
/// routed alike under that method. So a path with one slash more at its end
/// has the outcome of the path without it wherever the patterns, which all
/// end in an optional slash, take both alike.
pub proof fn lemma_paths_alike_route_alike(
    routes: Seq<RouteDescriptorView>,
    method: Method,
    p: Seq<char>,
    q: Seq<char>,
)
    requires
        forall|i: int|
            0 <= i < routes.len() && (#[trigger] routes[i]).method == method ==> alike_on(
                routes[i],
                p,
                q,
            ),
    ensures
        dispatch(routes, method, p) == dispatch(routes, method, q),
{
    lemma_alike_first_match(routes, method, p, q, 0);
    lemma_first_match_is_first(routes, method, p);
    if first_match(routes, method, p) is Some {
        let i = first_match(routes, method, p)->0;
        assert(alike_on(routes[i], p, q));
        assert(route_texts(routes[i], p) =~= route_texts(routes[i], q));
    }
}

/// The attributes `get`, `post` and `delete`, and those named after the other
/// methods in lower case, each name their method.
pub proof fn lemma_attribute_names_methods()
    ensures
        method_of_name(capitalized("options"@)) == Some(Method::Options),
        method_of_name(capitalized("get"@)) == Some(Method::Get),
        method_of_name(capitalized("post"@)) == Some(Method::Post),
        method_of_name(capitalized("put"@)) == Some(Method::Put),
        method_of_name(capitalized("delete"@)) == Some(Method::Delete),
        method_of_name(capitalized("head"@)) == Some(Method::Head),
        method_of_name(capitalized("trace"@)) == Some(Method::Trace),
        method_of_name(capitalized("connect"@)) == Some(Method::Connect),
        method_of_name(capitalized("patch"@)) == Some(Method::Patch),
{
    reveal_strlit("options");
    reveal_strlit("get");
    reveal_strlit("post");
    reveal_strlit("put");
    reveal_strlit("delete");
    reveal_strlit("head");
    reveal_strlit("trace");
    reveal_strlit("connect");
    reveal_strlit("patch");
    reveal_strlit("Options");
    reveal_strlit("Get");
    reveal_strlit("Post");
    reveal_strlit("Put");
    reveal_strlit("Delete");
    reveal_strlit("Head");
    reveal_strlit("Trace");
    reveal_strlit("Connect");
    reveal_strlit("Patch");
    assert(capitalized("options"@) =~= "Options"@);
    assert(capitalized("get"@) =~= "Get"@);
    assert(capitalized("post"@) =~= "Post"@);
    assert(capitalized("put"@) =~= "Put"@);
    assert(capitalized("delete"@) =~= "Delete"@);
    assert(capitalized("head"@) =~= "Head"@);
    assert(capitalized("trace"@) =~= "Trace"@);
    assert(capitalized("connect"@) =~= "Connect"@);
    assert(capitalized("patch"@) =~= "Patch"@);
    assert("Options"@[0] == 'O' && "Get"@[0] == 'G' && "Post"@[0] == 'P' && "Put"@[0] == 'P');
    assert("Post"@[1] == 'o' && "Put"@[1] == 'u' && "Patch"@[1] == 'a');
    assert("Delete"@[0] == 'D' && "Head"@[0] == 'H' && "Trace"@[0] == 'T');
    assert("Connect"@[0] == 'C' && "Patch"@[0] == 'P');
}

} // verus!
