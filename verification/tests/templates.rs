use routing_table::method::{capitalize_first, method_named, Method};
use routing_table::path::{capture_names, parse_path, HttpPathSegment};

fn shape(segments: &[HttpPathSegment]) -> Vec<(bool, String)> {
    segments
        .iter()
        .map(|s| match s {
            HttpPathSegment::Var(name) => (true, name.clone()),
            HttpPathSegment::Lit(text) => (false, text.clone()),
        })
        .collect()
}

fn var(name: &str) -> (bool, String) {
    (true, name.to_string())
}

fn lit(text: &str) -> (bool, String) {
    (false, text.to_string())
}

#[test]
fn parse_path_splits_literals_and_variables() {
    let segments = parse_path("/users/:id/posts");
    assert_eq!(shape(&segments), vec![lit("users"), var("id"), lit("posts")]);
}

#[test]
fn parse_path_ignores_leading_and_trailing_slashes() {
    assert_eq!(shape(&parse_path("users/:id")), vec![lit("users"), var("id")]);
    assert_eq!(shape(&parse_path("/users/:id/")), vec![lit("users"), var("id")]);
    assert_eq!(shape(&parse_path("users/:id/")), vec![lit("users"), var("id")]);
}

#[test]
fn parse_path_drops_empty_pieces() {
    assert_eq!(shape(&parse_path("//a///b//")), vec![lit("a"), lit("b")]);
}

#[test]
fn parse_path_of_nothing_is_empty() {
    assert!(parse_path("").is_empty());
    assert!(parse_path("/").is_empty());
    assert!(parse_path("///").is_empty());
}

#[test]
fn parse_path_lone_marker_is_a_nameless_variable() {
    assert_eq!(shape(&parse_path("/:")), vec![var("")]);
    assert_eq!(shape(&parse_path("/a/:/b")), vec![lit("a"), var(""), lit("b")]);
}

#[test]
fn parse_path_marker_counts_only_in_front() {
    assert_eq!(shape(&parse_path("/a:b/::c")), vec![lit("a:b"), var(":c")]);
}

#[test]
fn parse_path_keeps_characters_beyond_ascii() {
    assert_eq!(shape(&parse_path("/caf\u{e9}/:\u{fc}ber")), vec![lit("caf\u{e9}"), var("\u{fc}ber")]);
}

#[test]
fn parse_path_single_piece_without_slash() {
    assert_eq!(shape(&parse_path("users")), vec![lit("users")]);
    assert_eq!(shape(&parse_path(":id")), vec![var("id")]);
}

#[test]
fn capitalize_first_of_empty_is_empty() {
    assert_eq!(capitalize_first(""), "");
}

#[test]
fn capitalize_first_of_one_character() {
    assert_eq!(capitalize_first("g"), "G");
    assert_eq!(capitalize_first("G"), "G");
}

#[test]
fn capitalize_first_leaves_the_rest() {
    assert_eq!(capitalize_first("get"), "Get");
    assert_eq!(capitalize_first("delete"), "Delete");
    assert_eq!(capitalize_first("gET"), "GET");
    assert_eq!(capitalize_first("Post"), "Post");
}

#[test]
fn capitalize_first_may_lengthen_the_text() {
    assert_eq!(capitalize_first("\u{df}x"), "SSx");
    assert_eq!(capitalize_first("\u{e9}t\u{e9}"), "\u{c9}t\u{e9}");
}

#[test]
fn capitalize_first_without_case() {
    assert_eq!(capitalize_first("1up"), "1up");
}

#[test]
fn method_named_knows_each_method() {
    assert_eq!(method_named("Options"), Some(Method::Options));
    assert_eq!(method_named("Get"), Some(Method::Get));
    assert_eq!(method_named("Post"), Some(Method::Post));
    assert_eq!(method_named("Put"), Some(Method::Put));
    assert_eq!(method_named("Delete"), Some(Method::Delete));
    assert_eq!(method_named("Head"), Some(Method::Head));
    assert_eq!(method_named("Trace"), Some(Method::Trace));
    assert_eq!(method_named("Connect"), Some(Method::Connect));
    assert_eq!(method_named("Patch"), Some(Method::Patch));
}

#[test]
fn method_named_is_exact() {
    assert_eq!(method_named("get"), None);
    assert_eq!(method_named("GET"), None);
    assert_eq!(method_named("Gets"), None);
    assert_eq!(method_named(""), None);
    assert_eq!(method_named("Doc"), None);
}

#[test]
fn method_index_and_at_agree() {
    let all = [
        Method::Options,
        Method::Get,
        Method::Post,
        Method::Put,
        Method::Delete,
        Method::Head,
        Method::Trace,
        Method::Connect,
        Method::Patch,
    ];
    for (i, m) in all.iter().enumerate() {
        assert_eq!(m.index(), i);
        assert_eq!(Method::at(i), Some(*m));
    }
    assert_eq!(Method::at(9), None);
    assert_eq!(Method::at(usize::MAX), None);
}

#[test]
fn capture_names_lists_variables_in_order() {
    let segments = parse_path("/posts/:post/comments/:comment/by/:author");
    assert_eq!(capture_names(&segments), vec!["post", "comment", "author"]);
    assert!(capture_names(&parse_path("/a/b")).is_empty());
    assert!(capture_names(&parse_path("")).is_empty());
    assert_eq!(capture_names(&parse_path("/:x/:x/:")), vec!["x", "x", ""]);
}
