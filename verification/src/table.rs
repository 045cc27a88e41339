//! The routing table: built once from the declarations, read-only afterwards.

use crate::engine::{captures, compile, compile_set, plain_regex, plain_set, regex_source, set_matches, set_sources};
use crate::text::texts;
use crate::error::{BuildError, BuildErrorView};
use crate::method::{Method, METHOD_COUNT};
use crate::model::{build_outcome, descriptor_of, descriptors_of, dispatch, first_bad_pattern, first_bad_set, lemma_descriptor_error_stays, lemma_first_match, lemma_members_of, lemma_no_match, matches_at, members_of, patterns_of, route_texts, set_ok};
use crate::path::{capture_names, parse_path};
use crate::pattern::get_method_and_path_from_variant;
use crate::route::{captures_view, construct_route, constructor_kind, descriptors_view, outcome_view, ConstructorKind, Outcome, RouteDescriptor, RouteDescriptorView, RouteError, RouteValue};
use crate::variant::{find_route_attr, variants_view, Variant};
use regex::{Regex, RegexSet};
use vstd::prelude::*;

verus! {

/// A table that routes requests to values of type `T`.
pub trait RoutingTable<T> {
    /// The value for a request with this method and path, if a route takes it.
    fn route(&self, method: Method, path: &str) -> Option<T>;
}

/// A type of routes that comes with its routing table.
pub trait NewRoutingTable<T> {
    type Table: RoutingTable<T>;

    /// The routing table of the type.
    fn routing_table() -> Self::Table;
}

/// The routes of one method: their places in the order of declaration, and,
/// unless there are none, their patterns compiled as one set.
struct Bucket {
    members: Vec<usize>,
    set: Option<RegexSet>,
}

/// The routing table of a set of route declarations.
pub struct RouteTable {
    routes: Vec<RouteDescriptor>,
    regexes: Vec<Regex>,
    buckets: Vec<Bucket>,
}

impl Bucket {
    /// The bucket holds the places of the routes of `method` in their order,
    /// and its set was made, without options, from their patterns in the
    /// same order.
    spec fn holds(self, routes: Seq<RouteDescriptorView>, method: Method) -> bool {
        &&& self.members@.len() == members_of(routes, method).len()
        &&& forall|k: int|
            0 <= k < self.members@.len() ==> (#[trigger] self.members@[k]) as int == members_of(
                routes,
                method,
            )[k]
        &&& match self.set {
            Some(set) => set_sources(set) == patterns_of(routes, method) && plain_set(set),
            None => self.members@.len() == 0,
        }
    }
}

impl View for RouteTable {
    type V = Seq<RouteDescriptorView>;

    /// The compiled routes in the order of their declaration.
    closed spec fn view(&self) -> Seq<RouteDescriptorView> {
        descriptors_view(self.routes@)
    }
}

/// Compiles the declarations, in their order, into route descriptors.
fn describe(variants: &Vec<Variant>) -> (r: Result<Vec<RouteDescriptor>, BuildError>)
    ensures
        match r {
            Ok(routes) => descriptors_of(variants_view(variants@), variants@.len() as int) == Ok::<
                Seq<RouteDescriptorView>,
                BuildErrorView,
            >(descriptors_view(routes@)),
            Err(e) => descriptors_of(variants_view(variants@), variants@.len() as int) == Err::<
                Seq<RouteDescriptorView>,
                BuildErrorView,
            >(e@),
        },
{
    let mut routes: Vec<RouteDescriptor> = Vec::new();
    let mut i: usize = 0;
    assert(descriptors_view(routes@) =~= Seq::<RouteDescriptorView>::empty());
    while i < variants.len()
        invariant
            i <= variants.len(),
            descriptors_of(variants_view(variants@), i as int) == Ok::<
                Seq<RouteDescriptorView>,
                BuildErrorView,
            >(descriptors_view(routes@)),
        decreases variants.len() - i,
    {
        let variant = &variants[i];
        proof {
            assert(variants_view(variants@)[i as int] == variant@);
            if descriptors_of(variants_view(variants@), i + 1) is Err {
                lemma_descriptor_error_stays(
                    variants_view(variants@),
                    i + 1,
                    variants@.len() as int,
                );
            }
        }
        match get_method_and_path_from_variant(variant) {
            Ok((method, pattern)) => {
                let ghost before = routes@;
                let names = match find_route_attr(variant) {
                    Some((_, path)) => capture_names(&parse_path(path)),
                    None => Vec::new(),
                };
                let route = RouteDescriptor {
                    ident: variant.ident.clone(),
                    method,
                    pattern,
                    capture_names: names,
                    kind: constructor_kind(&variant.data),
                };
                assert(descriptor_of(variant@) == Ok::<RouteDescriptorView, BuildErrorView>(route@));
                routes.push(route);
                assert(descriptors_view(routes@) =~= descriptors_view(before).push(route@));
            },
            Err(e) => {
                return Err(e);
            },
        }
        i = i + 1;
    }
    Ok(routes)
}

/// Compiles the pattern of each route, in the order of the routes.
fn compile_patterns(routes: &Vec<RouteDescriptor>) -> (r: Result<Vec<Regex>, BuildError>)
    ensures
        match r {
            Ok(regexes) => {
                &&& first_bad_pattern(descriptors_view(routes@), 0) is None
                &&& regexes@.len() == routes@.len()
                &&& forall|i: int|
                    0 <= i < routes@.len() ==> regex_source(#[trigger] regexes@[i])
                        == routes@[i].pattern@ && plain_regex(regexes@[i])
            },
            Err(e) => match first_bad_pattern(descriptors_view(routes@), 0) {
                Some(i) => e@ == BuildErrorView::InvalidPattern {
                    variant: descriptors_view(routes@)[i].ident,
                    pattern: descriptors_view(routes@)[i].pattern,
                },
                None => false,
            },
        },
{
    let mut regexes: Vec<Regex> = Vec::new();
    let mut i: usize = 0;
    while i < routes.len()
        invariant
            i <= routes.len(),
            regexes@.len() == i,
            first_bad_pattern(descriptors_view(routes@), 0) == first_bad_pattern(
                descriptors_view(routes@),
                i as int,
            ),
            forall|k: int|
                0 <= k < i ==> regex_source(#[trigger] regexes@[k]) == routes@[k].pattern@
                    && plain_regex(regexes@[k]),
        decreases routes.len() - i,
    {
        let route = &routes[i];
        assert(descriptors_view(routes@)[i as int] == route@);
        match compile(route.pattern.as_str()) {
            Ok(re) => {
                regexes.push(re);
            },
            Err(_) => {
                return Err(
                    BuildError::InvalidPattern {
                        variant: route.ident.clone(),
                        pattern: route.pattern.clone(),
                    },
                );
            },
        }
        i = i + 1;
    }
    Ok(regexes)
}

/// Collects the bucket of a method and compiles its patterns as one set.
fn make_bucket(routes: &Vec<RouteDescriptor>, method: Method) -> (r: Result<Bucket, BuildError>)
    ensures
        match r {
            Ok(bucket) => set_ok(descriptors_view(routes@), method) && bucket.holds(
                descriptors_view(routes@),
                method,
            ),
            Err(e) => !set_ok(descriptors_view(routes@), method) && e@
                == (BuildErrorView::InvalidPatternSet { method }),
        },
{
    let ghost all = descriptors_view(routes@);
    let mut members: Vec<usize> = Vec::new();
    let mut patterns: Vec<String> = Vec::new();
    let mut i: usize = 0;
    proof {
        assert(all.take(0) =~= Seq::<RouteDescriptorView>::empty());
    }
    while i < routes.len()
        invariant
            i <= routes.len(),
            all == descriptors_view(routes@),
            members@.len() == members_of(all.take(i as int), method).len(),
            patterns@.len() == members@.len(),
            forall|k: int|
                0 <= k < members@.len() ==> (#[trigger] members@[k]) as int == members_of(
                    all.take(i as int),
                    method,
                )[k],
            forall|k: int|
                0 <= k < members@.len() ==> (#[trigger] patterns@[k])@ == all[members@[k] as int].pattern,
        decreases routes.len() - i,
    {
        let route = &routes[i];
        proof {
            let head = all.take(i + 1);
            assert(head.last() == route@);
            assert(head.drop_last() =~= all.take(i as int));
        }
        if route.method == method {
            members.push(i);
            patterns.push(route.pattern.clone());
        }
        i = i + 1;
    }
    proof {
        assert(all.take(i as int) =~= all);
        lemma_members_of(all, method);
        assert(texts(patterns@) =~= patterns_of(all, method)) by {
            assert forall|k: int| 0 <= k < patterns@.len() implies texts(patterns@)[k]
                == patterns_of(all, method)[k] by {
                assert(members@[k] as int == members_of(all, method)[k]);
            }
        }
    }
    if members.len() == 0 {
        Ok(Bucket { members, set: None })
    } else {
        match compile_set(&patterns) {
            Ok(set) => Ok(Bucket { members, set: Some(set) }),
            Err(_) => Err(BuildError::InvalidPatternSet { method }),
        }
    }
}

impl RouteTable {
    #[verifier::type_invariant]
    spec fn well_formed(&self) -> bool {
        &&& self.regexes@.len() == self.routes@.len()
        &&& forall|i: int|
            0 <= i < self.routes@.len() ==> regex_source(#[trigger] self.regexes@[i])
                == self.routes@[i].pattern@ && plain_regex(self.regexes@[i])
        &&& self.buckets@.len() == METHOD_COUNT
        &&& forall|k: int|
            0 <= k < METHOD_COUNT ==> (#[trigger] self.buckets@[k]).holds(
                descriptors_view(self.routes@),
                Method::at_position(k as nat)->0,
            )
    }

    /// Builds the table of a set of route declarations. Each declaration is
    /// compiled into its method and anchored pattern, each pattern is handed
    /// to the engine, and the routes of each method are gathered, in the
    /// order of declaration, into a bucket whose patterns are compiled as one
    /// set. The first failure ends the build: no partial table is made.
    pub fn build(variants: &Vec<Variant>) -> (r: Result<RouteTable, BuildError>)
        ensures
            match r {
                Ok(table) => build_outcome(variants_view(variants@)) == Ok::<
                    Seq<RouteDescriptorView>,
                    BuildErrorView,
                >(table@),
                Err(e) => build_outcome(variants_view(variants@)) == Err::<
                    Seq<RouteDescriptorView>,
                    BuildErrorView,
                >(e@),
            },
    {
        let routes = match describe(variants) {
            Ok(routes) => routes,
            Err(e) => {
                return Err(e);
            },
        };
        let regexes = match compile_patterns(&routes) {
            Ok(regexes) => regexes,
            Err(e) => {
                return Err(e);
            },
        };
        let mut buckets: Vec<Bucket> = Vec::new();
        let mut k: usize = 0;
        while k < METHOD_COUNT
            invariant
                k <= METHOD_COUNT,
                buckets@.len() == k,
                descriptors_of(variants_view(variants@), variants@.len() as int) == Ok::<
                    Seq<RouteDescriptorView>,
                    BuildErrorView,
                >(descriptors_view(routes@)),
                first_bad_pattern(descriptors_view(routes@), 0) is None,
                first_bad_set(descriptors_view(routes@), 0) == first_bad_set(
                    descriptors_view(routes@),
                    k as nat,
                ),
                forall|j: int|
                    0 <= j < k ==> (#[trigger] buckets@[j]).holds(
                        descriptors_view(routes@),
                        Method::at_position(j as nat)->0,
                    ),
            decreases METHOD_COUNT - k,
        {
            let method = Method::at(k).unwrap();
            match make_bucket(&routes, method) {
                Ok(bucket) => {
                    buckets.push(bucket);
                },
                Err(e) => {
                    return Err(e);
                },
            }
            k = k + 1;
        }
        Ok(RouteTable { routes, regexes, buckets })
    }

    /// Routes a request: among the routes declared for `method`, the first
    /// in the order of declaration whose pattern accepts `path` wins, and its
    /// value is put together from what the pattern captures. `None` where no
    /// route of the method accepts the path, or the winner is tuple-like;
    /// `Some(Err(..))` where a capture of the winner is no value of its type.
    pub fn route(&self, method: Method, path: &str) -> (outcome: Outcome)
        ensures
            outcome_view(outcome) == dispatch(self@, method, path@),
    {
        proof {
            use_type_invariant(self);
            lemma_members_of(self@, method);
        }
        let ghost members = members_of(self@, method);
        let bucket = &self.buckets[method.index()];
        let set = match &bucket.set {
            Some(set) => set,
            None => {
                proof {
                    assert forall|j: int| 0 <= j < self@.len() implies !matches_at(
                        self@,
                        method,
                        path@,
                        j,
                    ) by {
                        if self@[j].method == method {
                            assert(members.contains(j));
                        }
                    }
                    lemma_no_match(self@, method, path@);
                }
                return None;
            },
        };
        let hits = set_matches(set, path);
        if hits.len() == 0 {
            proof {
                assert forall|j: int| 0 <= j < self@.len() implies !matches_at(
                    self@,
                    method,
                    path@,
                    j,
                ) by {
                    if self@[j].method == method {
                        let k = choose|k: int| 0 <= k < members.len() && members[k] == j;
                        assert(set_sources(*set)[k] == self@[j].pattern);
                        assert(!hits@.contains(k as usize));
                    }
                }
                lemma_no_match(self@, method, path@);
            }
            return None;
        }
        let first = hits[0];
        let index = bucket.members[first];
        proof {
            assert(hits@.contains(first));
            assert(set_sources(*set)[first as int] == self@[index as int].pattern);
            assert forall|j: int| 0 <= j < index implies !matches_at(self@, method, path@, j) by {
                if self@[j].method == method {
                    let k = choose|k: int| 0 <= k < members.len() && members[k] == j;
                    assert(k < first);
                    assert(set_sources(*set)[k] == self@[j].pattern);
                    if hits@.contains(k as usize) {
                        let h = choose|h: int| 0 <= h < hits@.len() && hits@[h] == k as usize;
                        assert(hits@[0] <= hits@[h]);
                    }
                }
            }
            lemma_first_match(self@, method, path@, index as int);
        }
        let route = &self.routes[index];
        assert(self@[index as int] == route@);
        match &route.kind {
            ConstructorKind::StructLike(fields) => {
                match captures(&self.regexes[index], path, fields) {
                    Some(groups) => {
                        assert(captures_view(groups@) =~= route_texts(route@, path@));
                        construct_route(index, &route.kind, &groups)
                    },
                    None => None,
                }
            },
            _ => {
                let groups: Vec<Option<String>> = Vec::new();
                assert(captures_view(groups@) =~= route_texts(route@, path@));
                construct_route(index, &route.kind, &groups)
            },
        }
    }

    /// The bucket of a method: the places of its routes, in the order in
    /// which a dispatch tries them, which is the order of their declaration.
    pub fn bucket(&self, method: Method) -> (places: Vec<usize>)
        ensures
            places@.len() == members_of(self@, method).len(),
            forall|k: int|
                0 <= k < places@.len() ==> (#[trigger] places@[k]) as int == members_of(
                    self@,
                    method,
                )[k],
    {
        proof {
            use_type_invariant(self);
        }
        self.buckets[method.index()].members.clone()
    }

    /// The number of routes in the table.
    pub fn len(&self) -> (n: usize)
        ensures
            n == self@.len(),
    {
        self.routes.len()
    }

    /// The compiled route at a place in the order of declaration.
    pub fn descriptor(&self, index: usize) -> (route: Option<&RouteDescriptor>)
        ensures
            match route {
                Some(r) => index < self@.len() && r@ == self@[index as int],
                None => index >= self@.len(),
            },
    {
        if index < self.routes.len() {
            Some(&self.routes[index])
        } else {
            None
        }
    }
}

impl RoutingTable<Result<RouteValue, RouteError>> for RouteTable {
    fn route(&self, method: Method, path: &str) -> (outcome: Outcome)
        ensures
            outcome_view(outcome) == dispatch(self@, method, path@),
    {
        RouteTable::route(self, method, path)
    }
}

} // verus!
