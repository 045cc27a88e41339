//! What a routing table is, mathematically: the compiled routes in the order
//! of their declaration. From that sequence alone follow the buckets, the
//! route that wins a dispatch, and the outcome of a dispatch.

use crate::engine::{captured_text, pattern_accepts, pattern_compiles, set_compiles};
use crate::error::BuildErrorView;
use crate::method::{Method, METHOD_COUNT};
use crate::path::{path_segments, variable_names};
use crate::pattern::declared_route;
use crate::route::{constructed, kind_of, ConstructorKindView, FieldSpecView, OutcomeView, RouteDescriptorView};
use crate::variant::{first_route_attr, VariantView};
use vstd::prelude::*;

verus! {

/// The names of the variables in the path template of a declaration.
pub open spec fn declared_names(v: VariantView) -> Seq<Seq<char>> {
    match first_route_attr(v.attrs) {
        Some((_, path)) => variable_names(path_segments(path)),
        None => Seq::empty(),
    }
}

/// The compiled route of a declaration, or why it has none.
pub open spec fn descriptor_of(v: VariantView) -> Result<RouteDescriptorView, BuildErrorView> {
    match declared_route(v) {
        Ok((method, pattern)) => Ok(
            RouteDescriptorView {
                ident: v.ident,
                method,
                pattern,
                capture_names: declared_names(v),
                kind: kind_of(v.data),
            },
        ),
        Err(error) => Err(error),
    }
}

/// The compiled routes of the first `n` declarations, or the error of the
/// first declaration among them that has none.
pub open spec fn descriptors_of(variants: Seq<VariantView>, n: int) -> Result<
    Seq<RouteDescriptorView>,
    BuildErrorView,
>
    decreases n,
{
    if n <= 0 {
        Ok(Seq::empty())
    } else {
        match descriptors_of(variants, n - 1) {
            Err(error) => Err(error),
            Ok(routes) => match descriptor_of(variants[n - 1]) {
                Err(error) => Err(error),
                Ok(route) => Ok(routes.push(route)),
            },
        }
    }
}

/// The place of the first route, from `from` on, whose pattern the engine refuses.
pub open spec fn first_bad_pattern(routes: Seq<RouteDescriptorView>, from: int) -> Option<int>
    decreases routes.len() - from,
{
    if from < 0 || from >= routes.len() {
        None
    } else if !pattern_compiles(routes[from].pattern) {
        Some(from)
    } else {
        first_bad_pattern(routes, from + 1)
    }
}

/// The bucket of a method: the places of its routes, in the order of declaration.
pub open spec fn members_of(routes: Seq<RouteDescriptorView>, method: Method) -> Seq<int>
    decreases routes.len(),
{
    if routes.len() == 0 {
        Seq::empty()
    } else if routes.last().method == method {
        members_of(routes.drop_last(), method).push(routes.len() - 1)
    } else {
        members_of(routes.drop_last(), method)
    }
}

/// The patterns of the bucket of a method, in the order of the bucket.
pub open spec fn patterns_of(routes: Seq<RouteDescriptorView>, method: Method) -> Seq<Seq<char>> {
    members_of(routes, method).map_values(|i: int| routes[i].pattern)
}

/// Whether the bucket of a method can be matched as one set: an empty bucket
/// needs no set, any other needs the engine to accept its patterns together.
pub open spec fn set_ok(routes: Seq<RouteDescriptorView>, method: Method) -> bool {
    members_of(routes, method).len() == 0 || set_compiles(patterns_of(routes, method))
}

/// The first method, from place `from` on in the order of the methods, whose
/// bucket cannot be matched as one set.
pub open spec fn first_bad_set(routes: Seq<RouteDescriptorView>, from: nat) -> Option<Method>
    decreases METHOD_COUNT - from,
{
    match Method::at_position(from) {
        None => None,
        Some(method) => if !set_ok(routes, method) {
            Some(method)
        } else {
            first_bad_set(routes, from + 1)
        },
    }
}

/// What building a table from declarations gives: the compiled routes in the
/// order of declaration, or the first error. A declaration without a route
/// comes before a refused pattern, and that before a refused set.
pub open spec fn build_outcome(variants: Seq<VariantView>) -> Result<
    Seq<RouteDescriptorView>,
    BuildErrorView,
> {
    match descriptors_of(variants, variants.len() as int) {
        Err(error) => Err(error),
        Ok(routes) => match first_bad_pattern(routes, 0) {
            Some(i) => Err(
                BuildErrorView::InvalidPattern {
                    variant: routes[i].ident,
                    pattern: routes[i].pattern,
                },
            ),
            None => match first_bad_set(routes, 0) {
                Some(method) => Err(BuildErrorView::InvalidPatternSet { method }),
                None => Ok(routes),
            },
        },
    }
}

/// Whether the route at place `i` is declared for `method` and its pattern
/// accepts `path`.
pub open spec fn matches_at(
    routes: Seq<RouteDescriptorView>,
    method: Method,
    path: Seq<char>,
    i: int,
) -> bool {
    0 <= i < routes.len() && routes[i].method == method && pattern_accepts(routes[i].pattern, path)
}

/// The place of the first route, from `from` on, that matches.
pub open spec fn first_match_from(
    routes: Seq<RouteDescriptorView>,
    method: Method,
    path: Seq<char>,
    from: int,
) -> Option<int>
    decreases routes.len() - from,
{
    if from < 0 || from >= routes.len() {
        None
    } else if matches_at(routes, method, path, from) {
        Some(from)
    } else {
        first_match_from(routes, method, path, from + 1)
    }
}

/// The route that wins a dispatch: the first declared one that matches.
pub open spec fn first_match(
    routes: Seq<RouteDescriptorView>,
    method: Method,
    path: Seq<char>,
) -> Option<int> {
    first_match_from(routes, method, path, 0)
}

/// What the pattern of a route captures from a path for each field of the
/// route, by the name of the field.
pub open spec fn route_texts(route: RouteDescriptorView, path: Seq<char>) -> Seq<
    Option<Seq<char>>,
> {
    match route.kind {
        ConstructorKindView::StructLike(fields) => fields.map_values(
            |f: FieldSpecView| captured_text(route.pattern, path, f.name),
        ),
        _ => Seq::empty(),
    }
}

/// The outcome of a dispatch: none where no route of the method matches the
/// path, else what the first declared route that matches yields from its captures.
pub open spec fn dispatch(
    routes: Seq<RouteDescriptorView>,
    method: Method,
    path: Seq<char>,
) -> OutcomeView {
    match first_match(routes, method, path) {
        None => None,
        Some(i) => constructed(i, routes[i].kind, route_texts(routes[i], path)),
    }
}

/// An error among the first `n` declarations is the error of any longer run.
pub proof fn lemma_descriptor_error_stays(variants: Seq<VariantView>, n: int, m: int)
    requires
        n <= m,
        descriptors_of(variants, n) is Err,
    ensures
        descriptors_of(variants, m) == descriptors_of(variants, n),
    decreases m - n,
{
    if n < m {
        lemma_descriptor_error_stays(variants, n, m - 1);
    }
}

/// The bucket of a method holds, in ascending order, exactly the places of
/// the routes declared for that method.
pub proof fn lemma_members_of(routes: Seq<RouteDescriptorView>, method: Method)
    ensures
        forall|k: int|
            0 <= k < members_of(routes, method).len() ==> {
                let i = #[trigger] members_of(routes, method)[k];
                0 <= i < routes.len() && routes[i].method == method
            },
        forall|j: int, k: int|
            0 <= j < k < members_of(routes, method).len() ==> members_of(routes, method)[j]
                < members_of(routes, method)[k],
        forall|i: int|
            0 <= i < routes.len() && (#[trigger] routes[i]).method == method ==> members_of(
                routes,
                method,
            ).contains(i),
    decreases routes.len(),
{
    if routes.len() > 0 {
        let head = routes.drop_last();
        let last = routes.len() - 1;
        lemma_members_of(head, method);
        let inner = members_of(head, method);
        let all = members_of(routes, method);
        assert forall|i: int| 0 <= i < routes.len() && (#[trigger] routes[i]).method
            == method implies all.contains(i) by {
            if i < last {
                assert(head[i] == routes[i]);
                let k = choose|k: int| 0 <= k < inner.len() && inner[k] == i;
                assert(all[k] == i);
            } else {
                assert(all[all.len() - 1] == i);
            }
        }
        assert forall|k: int| 0 <= k < all.len() implies {
            let i = #[trigger] all[k];
            0 <= i < routes.len() && routes[i].method == method
        } by {
            if k < inner.len() {
                assert(all[k] == inner[k]);
                assert(head[inner[k]] == routes[inner[k]]);
            }
        }
        assert forall|j: int, k: int| 0 <= j < k < all.len() implies all[j] < all[k] by {
            assert(all[j] == inner[j]);
            if k < inner.len() {
                assert(all[k] == inner[k]);
            }
        }
    }
}

/// A route that matches, with none before it that does, wins the dispatch.
pub proof fn lemma_first_match(
    routes: Seq<RouteDescriptorView>,
    method: Method,
    path: Seq<char>,
    i: int,
)
    requires
        matches_at(routes, method, path, i),
        forall|j: int| 0 <= j < i ==> !matches_at(routes, method, path, j),
    ensures
        first_match(routes, method, path) == Some(i),
{
    lemma_first_match_from(routes, method, path, i, 0);
}

proof fn lemma_first_match_from(
    routes: Seq<RouteDescriptorView>,
    method: Method,
    path: Seq<char>,
    i: int,
    from: int,
)
    requires
        0 <= from <= i,
        matches_at(routes, method, path, i),
        forall|j: int| from <= j < i ==> !matches_at(routes, method, path, j),
    ensures
        first_match_from(routes, method, path, from) == Some(i),
    decreases i - from,
{
    if from < i {
        lemma_first_match_from(routes, method, path, i, from + 1);
    }
}

/// Where no route matches, none wins.
pub proof fn lemma_no_match(routes: Seq<RouteDescriptorView>, method: Method, path: Seq<char>)
    requires
        forall|j: int| 0 <= j < routes.len() ==> !matches_at(routes, method, path, j),
    ensures
        first_match(routes, method, path) is None,
{
    lemma_no_match_from(routes, method, path, 0);
}

proof fn lemma_no_match_from(
    routes: Seq<RouteDescriptorView>,
    method: Method,
    path: Seq<char>,
    from: int,
)
    requires
        0 <= from,
        forall|j: int| from <= j < routes.len() ==> !matches_at(routes, method, path, j),
    ensures
        first_match_from(routes, method, path, from) is None,
    decreases routes.len() - from,
{
    if from < routes.len() {
        lemma_no_match_from(routes, method, path, from + 1);
    }
}

/// The route that wins matches, and no route before it does.
pub proof fn lemma_first_match_is_first(
    routes: Seq<RouteDescriptorView>,
    method: Method,
    path: Seq<char>,
)
    ensures
        match first_match(routes, method, path) {
            Some(i) => matches_at(routes, method, path, i) && forall|j: int|
                0 <= j < i ==> !matches_at(routes, method, path, j),
            None => forall|j: int| 0 <= j < routes.len() ==> !matches_at(routes, method, path, j),
        },
{
    lemma_first_match_from_is_first(routes, method, path, 0);
}

proof fn lemma_first_match_from_is_first(
    routes: Seq<RouteDescriptorView>,
    method: Method,
    path: Seq<char>,
    from: int,
)
    requires
        0 <= from,
    ensures
        match first_match_from(routes, method, path, from) {
            Some(i) => from <= i && matches_at(routes, method, path, i) && forall|j: int|
                from <= j < i ==> !matches_at(routes, method, path, j),
            None => forall|j: int|
                from <= j < routes.len() ==> !matches_at(routes, method, path, j),
        },
    decreases routes.len() - from,
{
    if from < routes.len() && !matches_at(routes, method, path, from) {
        lemma_first_match_from_is_first(routes, method, path, from + 1);
    }
}

} // verus!
