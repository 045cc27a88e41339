use routing_table::error::BuildError;
use routing_table::method::Method;
use routing_table::params::{ParamType, ParamValue};
use routing_table::route::{
    construct_route, constructor_kind, ConstructorKind, FieldSpec, Outcome, RouteError, RouteValue,
};
use routing_table::table::{RouteTable, RoutingTable};
use routing_table::variant::{Attr, AttrArg, Field, Variant, VariantData};

fn field(name: &str, ty: &str) -> Field {
    Field { name: name.to_string(), ty: ty.to_string() }
}

fn declare(ident: &str, method: &str, path: &str, data: VariantData) -> Variant {
    Variant {
        ident: ident.to_string(),
        attrs: vec![Attr::List {
            name: method.to_string(),
            args: vec![AttrArg::Str(path.to_string())],
        }],
        data,
    }
}

fn with_fields(ident: &str, method: &str, path: &str, fields: Vec<Field>) -> Variant {
    declare(ident, method, path, VariantData::Struct(fields))
}

fn unit(ident: &str, method: &str, path: &str) -> Variant {
    declare(ident, method, path, VariantData::Unit)
}

fn table(variants: Vec<Variant>) -> RouteTable {
    match RouteTable::build(&variants) {
        Ok(t) => t,
        Err(e) => panic!("build failed: {:?}", e),
    }
}

fn value(outcome: Outcome) -> RouteValue {
    match outcome {
        Some(Ok(v)) => v,
        other => panic!("no value: {:?}", other),
    }
}

fn users() -> RouteTable {
    table(vec![
        with_fields("GetUser", "get", "/users/:id", vec![field("id", "u32")]),
        unit("GetSelf", "get", "/users/me"),
        with_fields("DeleteUser", "delete", "/users/:id", vec![field("id", "u32")]),
        with_fields("GetFile", "get", "/files/:name", vec![field("name", "String")]),
        unit("Index", "get", "/"),
    ])
}

#[test]
fn round_trip_of_an_integer_parameter() {
    let t = users();
    for id in [0u32, 1, 42, 65536, u32::MAX] {
        let v = value(t.route(Method::Get, &format!("/users/{}", id)));
        assert_eq!(v.variant, 0);
        assert_eq!(v.fields.len(), 1);
        assert_eq!(v.fields[0].name, "id");
        assert!(matches!(v.fields[0].value, ParamValue::U32(x) if x == id));
    }
}

#[test]
fn round_trip_of_a_text_parameter() {
    let t = users();
    for name in ["report.txt", "a", "x-y_z", "caf\u{e9}", ""] {
        let v = value(t.route(Method::Get, &format!("/files/{}", name)));
        assert_eq!(v.variant, 3);
        assert_eq!(v.fields[0].name, "name");
        assert!(matches!(&v.fields[0].value, ParamValue::Text(x) if x == name));
    }
}

#[test]
fn round_trip_of_several_parameters() {
    let t = table(vec![with_fields(
        "Comment",
        "post",
        "/posts/:post/comments/:comment/by/:author",
        vec![field("post", "u64"), field("author", "String"), field("comment", "u8")],
    )]);
    let v = value(t.route(Method::Post, "/posts/18446744073709551615/comments/7/by/ann"));
    assert_eq!(v.variant, 0);
    let names: Vec<&str> = v.fields.iter().map(|f| f.name.as_str()).collect();
    assert_eq!(names, vec!["post", "author", "comment"]);
    assert!(matches!(v.fields[0].value, ParamValue::U64(u64::MAX)));
    assert!(matches!(&v.fields[1].value, ParamValue::Text(a) if a == "ann"));
    assert!(matches!(v.fields[2].value, ParamValue::U8(7)));
}

#[test]
fn round_trip_of_a_unit_route() {
    let t = users();
    let v = value(t.route(Method::Get, "/"));
    assert_eq!(v.variant, 4);
    assert!(v.fields.is_empty());
    let v = value(t.route(Method::Get, ""));
    assert_eq!(v.variant, 4);
}

#[test]
fn round_trip_through_every_route_of_a_table() {
    let variants = vec![
        with_fields("A", "get", "/a/:x", vec![field("x", "u8")]),
        with_fields("B", "get", "/b/:x/:y", vec![field("x", "i16"), field("y", "usize")]),
        with_fields("C", "put", "/a/:x", vec![field("x", "u16")]),
        unit("D", "put", "/d"),
    ];
    let t = table(variants);
    let v = value(t.route(Method::Get, "/a/200"));
    assert_eq!(v.variant, 0);
    assert!(matches!(v.fields[0].value, ParamValue::U8(200)));
    let v = value(t.route(Method::Get, "/b/123/456"));
    assert_eq!(v.variant, 1);
    assert!(matches!(v.fields[0].value, ParamValue::I16(123)));
    assert!(matches!(v.fields[1].value, ParamValue::Usize(456)));
    let v = value(t.route(Method::Put, "/a/60000"));
    assert_eq!(v.variant, 2);
    assert!(matches!(v.fields[0].value, ParamValue::U16(60000)));
    assert_eq!(value(t.route(Method::Put, "/d")).variant, 3);
}

#[test]
fn route_is_deterministic() {
    let t = users();
    for (method, path) in [
        (Method::Get, "/users/42"),
        (Method::Get, "/users/me"),
        (Method::Get, "/nowhere"),
        (Method::Get, "/users/99999999999"),
        (Method::Post, "/users/42"),
    ] {
        let first = format!("{:?}", t.route(method, path));
        for _ in 0..5 {
            assert_eq!(format!("{:?}", t.route(method, path)), first);
        }
    }
}

#[test]
fn first_declared_wins() {
    let t = table(vec![
        with_fields("ByName", "get", "/users/:name", vec![field("name", "String")]),
        unit("GetSelf", "get", "/users/me"),
    ]);
    let v = value(t.route(Method::Get, "/users/me"));
    assert_eq!(v.variant, 0);
    assert!(matches!(&v.fields[0].value, ParamValue::Text(n) if n == "me"));

    let t = table(vec![
        unit("GetSelf", "get", "/users/me"),
        with_fields("ByName", "get", "/users/:name", vec![field("name", "String")]),
    ]);
    assert_eq!(value(t.route(Method::Get, "/users/me")).variant, 0);
    assert_eq!(value(t.route(Method::Get, "/users/you")).variant, 1);
}

#[test]
fn first_declared_wins_across_other_methods() {
    let t = table(vec![
        with_fields("P", "post", "/x/:a", vec![field("a", "String")]),
        with_fields("G1", "get", "/x/:a", vec![field("a", "String")]),
        with_fields("D", "delete", "/x/:a", vec![field("a", "String")]),
        with_fields("G2", "get", "/x/:b", vec![field("b", "String")]),
    ]);
    assert_eq!(value(t.route(Method::Get, "/x/1")).variant, 1);
    assert_eq!(value(t.route(Method::Post, "/x/1")).variant, 0);
    assert_eq!(value(t.route(Method::Delete, "/x/1")).variant, 2);
}

#[test]
fn trailing_slash_is_tolerated() {
    let t = users();
    let a = value(t.route(Method::Get, "/users/42"));
    let b = value(t.route(Method::Get, "/users/42/"));
    assert_eq!(a.variant, b.variant);
    assert_eq!(format!("{:?}", a), format!("{:?}", b));
    assert!(matches!(b.fields[0].value, ParamValue::U32(42)));
}

#[test]
fn only_one_trailing_slash_is_tolerated() {
    let t = users();
    assert!(t.route(Method::Get, "/users/42//").is_none());
}

#[test]
fn patterns_are_anchored() {
    let t = users();
    assert!(t.route(Method::Get, "/users/42/extra").is_none());
    assert!(t.route(Method::Get, "/prefix/users/42").is_none());
    assert!(t.route(Method::Get, "users/42").is_none());
    assert!(t.route(Method::Get, "/users").is_none());
}

#[test]
fn wrong_method_is_no_match() {
    let t = users();
    assert!(t.route(Method::Post, "/users/42").is_none());
    assert!(t.route(Method::Put, "/users/42").is_none());
    assert!(t.route(Method::Delete, "/users/me").is_none());
    assert!(t.route(Method::Head, "/").is_none());
    assert_eq!(value(t.route(Method::Delete, "/users/42")).variant, 2);
}

#[test]
fn typed_capture_rejects_at_the_pattern() {
    let t = table(vec![with_fields("GetUser", "get", "/users/:id", vec![field("id", "u32")])]);
    assert!(t.route(Method::Get, "/users/abc").is_none());
    assert!(t.route(Method::Get, "/users/12a").is_none());
    assert!(t.route(Method::Get, "/users/-1").is_none());
    assert!(t.route(Method::Get, "/users/").is_none());
}

#[test]
fn signed_types_take_digits_only() {
    let t = table(vec![with_fields("A", "get", "/a/:n", vec![field("n", "i32")])]);
    assert!(matches!(value(t.route(Method::Get, "/a/12")).fields[0].value, ParamValue::I32(12)));
    assert!(t.route(Method::Get, "/a/-12").is_none());
    assert!(t.route(Method::Get, "/a/+12").is_none());
}

#[test]
fn users_me_goes_to_the_second_route() {
    let t = users();
    assert_eq!(t.bucket(Method::Get), vec![0, 1, 3, 4]);
    let v = value(t.route(Method::Get, "/users/me"));
    assert_eq!(v.variant, 1);
    assert!(v.fields.is_empty());
    assert_eq!(value(t.route(Method::Get, "/users/7")).variant, 0);
}

#[test]
fn buckets_keep_the_order_of_declaration() {
    let t = users();
    assert_eq!(t.len(), 5);
    assert_eq!(t.bucket(Method::Get), vec![0, 1, 3, 4]);
    assert_eq!(t.bucket(Method::Delete), vec![2]);
    assert!(t.bucket(Method::Post).is_empty());
    assert!(t.bucket(Method::Patch).is_empty());
    for (i, ident) in ["GetUser", "GetSelf", "DeleteUser", "GetFile", "Index"].iter().enumerate() {
        assert_eq!(t.descriptor(i).unwrap().ident, *ident);
    }
    assert!(t.descriptor(5).is_none());
}

#[test]
fn descriptors_hold_the_compiled_patterns() {
    let t = users();
    let d = t.descriptor(0).unwrap();
    assert_eq!(d.method, Method::Get);
    assert_eq!(d.pattern, "^/users/(?P<id>\\d+)/?$");
    assert_eq!(d.capture_names, vec!["id".to_string()]);
    match &d.kind {
        ConstructorKind::StructLike(fields) => {
            assert_eq!(fields.len(), 1);
            assert_eq!(fields[0].name, "id");
            assert_eq!(fields[0].ty, ParamType::U32);
        }
        other => panic!("unexpected {:?}", other),
    }
    assert_eq!(t.descriptor(1).unwrap().pattern, "^/users/me/?$");
    assert!(matches!(t.descriptor(1).unwrap().kind, ConstructorKind::Unit));
    assert_eq!(t.descriptor(4).unwrap().pattern, "^/?$");
    assert!(t.descriptor(4).unwrap().capture_names.is_empty());
}

#[test]
fn overflow_is_a_parse_error_not_a_miss() {
    let t = table(vec![
        with_fields("A", "get", "/a/:n", vec![field("n", "u8")]),
        with_fields("B", "get", "/a/:m", vec![field("m", "u64")]),
    ]);
    match t.route(Method::Get, "/a/256") {
        Some(Err(RouteError::InvalidValue { field, text })) => {
            assert_eq!(field, "n");
            assert_eq!(text, "256");
        }
        other => panic!("unexpected {:?}", other),
    }
    assert!(matches!(value(t.route(Method::Get, "/a/255")).fields[0].value, ParamValue::U8(255)));
}

#[test]
fn digits_beyond_ascii_are_a_parse_error() {
    let t = table(vec![with_fields("A", "get", "/a/:n", vec![field("n", "u32")])]);
    match t.route(Method::Get, "/a/\u{663}") {
        Some(Err(RouteError::InvalidValue { field, text })) => {
            assert_eq!(field, "n");
            assert_eq!(text, "\u{663}");
        }
        other => panic!("unexpected {:?}", other),
    }
}

#[test]
fn first_failing_field_is_reported() {
    let t = table(vec![with_fields(
        "A",
        "get",
        "/a/:x/:y/:z",
        vec![field("x", "u8"), field("y", "u8"), field("z", "u8")],
    )]);
    match t.route(Method::Get, "/a/1/300/400") {
        Some(Err(RouteError::InvalidValue { field, text })) => {
            assert_eq!(field, "y");
            assert_eq!(text, "300");
        }
        other => panic!("unexpected {:?}", other),
    }
}

#[test]
fn field_without_a_variable_has_no_capture() {
    let t = table(vec![with_fields(
        "A",
        "get",
        "/a/:x",
        vec![field("x", "u8"), field("y", "u8")],
    )]);
    match t.route(Method::Get, "/a/1") {
        Some(Err(RouteError::MissingCapture { field })) => assert_eq!(field, "y"),
        other => panic!("unexpected {:?}", other),
    }
    assert!(t.route(Method::Get, "/b/1").is_none());
}

#[test]
fn tuple_route_matches_but_yields_nothing() {
    let t = table(vec![
        declare("T", "get", "/t/:id", VariantData::Tuple),
        with_fields("S", "get", "/t/:id", vec![field("id", "u8")]),
    ]);
    assert_eq!(t.bucket(Method::Get), vec![0, 1]);
    assert!(t.route(Method::Get, "/t/5").is_none());
}

#[test]
fn literal_segments_match_literally() {
    let t = table(vec![unit("V", "get", "/v1.0/a+b")]);
    assert_eq!(value(t.route(Method::Get, "/v1.0/a+b")).variant, 0);
    assert!(t.route(Method::Get, "/v1x0/a+b").is_none());
    assert!(t.route(Method::Get, "/v1.0/aab").is_none());
}

#[test]
fn unconstrained_variable_takes_the_empty_run() {
    let t = table(vec![with_fields("A", "get", "/a/:x/b", vec![field("x", "String")])]);
    let v = value(t.route(Method::Get, "/a//b"));
    assert!(matches!(&v.fields[0].value, ParamValue::Text(x) if x.is_empty()));
    assert!(t.route(Method::Get, "/a/x/y/b").is_none());
}

#[test]
fn empty_table_routes_nothing() {
    let t = table(vec![]);
    assert_eq!(t.len(), 0);
    assert!(t.route(Method::Get, "/").is_none());
    assert!(t.bucket(Method::Get).is_empty());
}

#[test]
fn build_fails_on_a_missing_attribute() {
    let variants = vec![
        unit("A", "get", "/a"),
        Variant { ident: "B".to_string(), attrs: vec![Attr::Other], data: VariantData::Unit },
        Variant { ident: "C".to_string(), attrs: vec![], data: VariantData::Unit },
    ];
    match RouteTable::build(&variants) {
        Err(BuildError::MissingAttribute { variant }) => assert_eq!(variant, "B"),
        other => panic!("unexpected {:?}", other.map(|_| ())),
    }
}

#[test]
fn build_fails_on_an_unknown_method() {
    let variants = vec![unit("A", "fetch", "/a")];
    match RouteTable::build(&variants) {
        Err(BuildError::UnknownMethod { variant, name }) => {
            assert_eq!(variant, "A");
            assert_eq!(name, "Fetch");
        }
        other => panic!("unexpected {:?}", other.map(|_| ())),
    }
}

#[test]
fn build_fails_on_a_pattern_the_engine_refuses() {
    let variants = vec![
        unit("A", "get", "/a"),
        with_fields("B", "get", "/b/:x/:x", vec![field("x", "u8")]),
        with_fields("C", "get", "/c/:y/:y", vec![field("y", "u8")]),
    ];
    match RouteTable::build(&variants) {
        Err(BuildError::InvalidPattern { variant, pattern }) => {
            assert_eq!(variant, "B");
            assert_eq!(pattern, "^/b/(?P<x>\\d+)/(?P<x>\\d+)/?$");
        }
        other => panic!("unexpected {:?}", other.map(|_| ())),
    }
}

#[test]
fn build_fails_on_a_variable_that_names_no_group() {
    let variants = vec![unit("A", "get", "/a/:")];
    assert!(matches!(RouteTable::build(&variants), Err(BuildError::InvalidPattern { .. })));
    let variants = vec![unit("A", "get", "/a/:x-y")];
    assert!(matches!(RouteTable::build(&variants), Err(BuildError::InvalidPattern { .. })));
}

#[test]
fn missing_attribute_comes_before_a_refused_pattern() {
    let variants = vec![
        with_fields("B", "get", "/b/:x/:x", vec![field("x", "u8")]),
        Variant { ident: "C".to_string(), attrs: vec![], data: VariantData::Unit },
    ];
    assert!(matches!(RouteTable::build(&variants), Err(BuildError::MissingAttribute { .. })));
}

#[test]
fn trait_and_method_agree() {
    let t = users();
    let by_trait = <RouteTable as RoutingTable<Result<RouteValue, RouteError>>>::route(
        &t,
        Method::Get,
        "/users/42",
    );
    assert_eq!(format!("{:?}", by_trait), format!("{:?}", t.route(Method::Get, "/users/42")));
}

#[test]
fn constructor_kind_resolves_types() {
    let kind = constructor_kind(&VariantData::Struct(vec![field("a", "u8"), field("b", "Thing")]));
    match kind {
        ConstructorKind::StructLike(fields) => {
            assert_eq!(fields[0].name, "a");
            assert_eq!(fields[0].ty, ParamType::U8);
            assert_eq!(fields[1].name, "b");
            assert_eq!(fields[1].ty, ParamType::Text);
        }
        other => panic!("unexpected {:?}", other),
    }
    assert!(matches!(constructor_kind(&VariantData::Tuple), ConstructorKind::TupleLike));
    assert!(matches!(constructor_kind(&VariantData::Unit), ConstructorKind::Unit));
}

#[test]
fn construct_route_of_each_kind() {
    let v = value(construct_route(3, &ConstructorKind::Unit, &vec![]));
    assert_eq!(v.variant, 3);
    assert!(v.fields.is_empty());
    assert!(construct_route(3, &ConstructorKind::TupleLike, &vec![]).is_none());
    let kind = ConstructorKind::StructLike(vec![
        FieldSpec { name: "id".to_string(), ty: ParamType::I16 },
        FieldSpec { name: "tag".to_string(), ty: ParamType::Text },
    ]);
    let v = value(construct_route(
        9,
        &kind,
        &vec![Some("-300".to_string()), Some("x".to_string())],
    ));
    assert_eq!(v.variant, 9);
    assert!(matches!(v.fields[0].value, ParamValue::I16(-300)));
    assert!(matches!(&v.fields[1].value, ParamValue::Text(t) if t == "x"));
}

#[test]
fn construct_route_errors() {
    let kind = ConstructorKind::StructLike(vec![
        FieldSpec { name: "a".to_string(), ty: ParamType::U8 },
        FieldSpec { name: "b".to_string(), ty: ParamType::U8 },
    ]);
    assert!(matches!(
        construct_route(0, &kind, &vec![Some("1".to_string()), None]),
        Some(Err(RouteError::MissingCapture { field })) if field == "b"
    ));
    assert!(matches!(
        construct_route(0, &kind, &vec![Some("1".to_string())]),
        Some(Err(RouteError::MissingCapture { field })) if field == "b"
    ));
    assert!(matches!(
        construct_route(0, &kind, &vec![]),
        Some(Err(RouteError::MissingCapture { field })) if field == "a"
    ));
    assert!(matches!(
        construct_route(0, &kind, &vec![None, Some("x".to_string())]),
        Some(Err(RouteError::MissingCapture { field })) if field == "a"
    ));
    assert!(matches!(
        construct_route(0, &kind, &vec![Some("x".to_string()), None]),
        Some(Err(RouteError::InvalidValue { field, text })) if field == "a" && text == "x"
    ));
}
