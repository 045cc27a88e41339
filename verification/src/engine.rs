//! The pattern engine: the `regex` crate behind contracts. Nothing here is
//! proved. What a pattern accepts and what it captures is only named; the
//! contracts say which call gives which name. The names speak of a pattern by
//! its text alone, so they hold only of patterns compiled without options:
//! those that `compile` and `compile_set` make.

use crate::route::FieldSpec;
use crate::text::texts;
use regex::{Regex, RegexSet};
use vstd::prelude::*;

verus! {

#[verifier::external_type_specification]
#[verifier::external_body]
pub struct ExRegex(Regex);

#[verifier::external_type_specification]
#[verifier::external_body]
pub struct ExRegexSet(RegexSet);

#[verifier::external_type_specification]
#[verifier::external_body]
pub struct ExRegexError(regex::Error);

/// The pattern text that a compiled pattern was made from: what
/// `Regex::as_str` returns.
pub uninterp spec fn regex_source(re: Regex) -> Seq<char>;

/// The pattern texts that a pattern set was made from, in the order given:
/// what `RegexSet::patterns` returns.
pub uninterp spec fn set_sources(set: RegexSet) -> Seq<Seq<char>>;

/// Whether a compiled pattern was made by `Regex::new`, without any option of
/// a builder: only then does its text alone decide what it matches.
pub uninterp spec fn plain_regex(re: Regex) -> bool;

/// Whether a pattern set was made by `RegexSet::new`, without any option of a
/// builder: only then do its texts alone decide what it matches.
pub uninterp spec fn plain_set(set: RegexSet) -> bool;

/// Whether `Regex::new` accepts a pattern text.
pub uninterp spec fn pattern_compiles(pattern: Seq<char>) -> bool;

/// Whether `RegexSet::new` accepts a list of pattern texts.
pub uninterp spec fn set_compiles(patterns: Seq<Seq<char>>) -> bool;

/// Whether the pattern that `Regex::new` compiles from `pattern` has a match
/// in `text`.
pub uninterp spec fn pattern_accepts(pattern: Seq<char>, text: Seq<char>) -> bool;

/// The part of `text` that the capture group called `name` holds in the match
/// of the pattern that `Regex::new` compiles from `pattern`; `None` where
/// there is no match, no group of that name, or the group took no part in
/// the match.
pub uninterp spec fn captured_text(pattern: Seq<char>, text: Seq<char>, name: Seq<char>) -> Option<
    Seq<char>,
>;

/// The characters that `regex::escape` puts a backslash before.
pub open spec fn is_meta_character(c: char) -> bool {
    c == '\\' || c == '.' || c == '+' || c == '*' || c == '?' || c == '(' || c == ')' || c == '|'
        || c == '[' || c == ']' || c == '{' || c == '}' || c == '^' || c == '$' || c == '#' || c
        == '&' || c == '-' || c == '~'
}

/// A text with a backslash before each of its meta characters.
pub open spec fn escaped(text: Seq<char>) -> Seq<char>
    decreases text.len(),
{
    if text.len() == 0 {
        Seq::empty()
    } else if is_meta_character(text.last()) {
        escaped(text.drop_last()) + seq!['\\', text.last()]
    } else {
        escaped(text.drop_last()) + seq![text.last()]
    }
}

/// The text of a string that may be absent.
pub open spec fn text_view(text: Option<String>) -> Option<Seq<char>> {
    match text {
        Some(t) => Some(t@),
        None => None,
    }
}

/// Calls `Regex::new`. Whether the engine accepts the pattern is only named;
/// a compiled pattern remembers the text it was made from, and is plain.
#[verifier::external_body]
pub(crate) fn compile(pattern: &str) -> (r: Result<Regex, regex::Error>)
    ensures
        r is Ok == pattern_compiles(pattern@),
        r matches Ok(re) ==> regex_source(re) == pattern@ && plain_regex(re),
{
    Regex::new(pattern)
}

/// Calls `RegexSet::new`. Whether the engine accepts the patterns together is
/// only named; a set remembers the texts it was made from, in their order,
/// and is plain.
#[verifier::external_body]
pub(crate) fn compile_set(patterns: &Vec<String>) -> (r: Result<RegexSet, regex::Error>)
    ensures
        r is Ok == set_compiles(texts(patterns@)),
        r matches Ok(set) ==> set_sources(set) == texts(patterns@) && plain_set(set),
{
    RegexSet::new(patterns)
}

/// Calls `RegexSet::matches` and collects what it iterates over: the places,
/// in ascending order, of the patterns of the set that have a match in `text`.
/// A pattern of a plain set has a match where the same pattern compiled alone
/// by `Regex::new` has one. Of a set built with options nothing is claimed.
#[verifier::external_body]
pub(crate) fn set_matches(set: &RegexSet, text: &str) -> (hits: Vec<usize>)
    requires
        plain_set(*set),
    ensures
        forall|i: int, j: int| 0 <= i < j < hits@.len() ==> hits@[i] < hits@[j],
        forall|k: int| 0 <= k < hits@.len() ==> (#[trigger] hits@[k]) < set_sources(*set).len(),
        forall|p: int|
            0 <= p < set_sources(*set).len() ==> (hits@.contains(p as usize) <==> pattern_accepts(
                #[trigger] set_sources(*set)[p],
                text@,
            )),
{
    set.matches(text).into_iter().collect()
}

/// Calls `Regex::captures` and, where there is a match, `Captures::name` and
/// `Match::as_str` for the name of each of `fields`: the result is `Some`
/// exactly where the pattern has a match in `text`, and then holds, for each
/// field in its order, the text that the group of its name captured, if any.
/// Of a pattern built with options nothing is claimed.
#[verifier::external_body]
pub(crate) fn captures(re: &Regex, text: &str, fields: &Vec<FieldSpec>) -> (r: Option<
    Vec<Option<String>>,
>)
    requires
        plain_regex(*re),
    ensures
        r is Some == pattern_accepts(regex_source(*re), text@),
        r matches Some(groups) ==> groups@.len() == fields@.len() && forall|k: int|
            0 <= k < fields@.len() ==> text_view(#[trigger] groups@[k]) == captured_text(
                regex_source(*re),
                text@,
                fields@[k].name@,
            ),
{
    re.captures(text).map(
        |found|
            fields.iter().map(|f| found.name(&f.name).map(|m| m.as_str().to_string())).collect(),
    )
}

/// Calls `regex::escape`, which copies the text and puts a backslash before
/// each meta character.
#[verifier::external_body]
pub(crate) fn escape(text: &str) -> (quoted: String)
    ensures
        quoted@ == escaped(text@),
{
    regex::escape(text)
}

} // verus!
