//! Regular expression matching, done by the `regex` crate.

use vstd::prelude::*;

verus! {

#[verifier::external_type_specification]
#[verifier::external_body]
pub struct ExRegexSet(regex::RegexSet);

#[verifier::external_type_specification]
#[verifier::external_body]
pub struct ExRegex(regex::Regex);

#[verifier::external_type_specification]
#[verifier::external_body]
pub struct ExRegexError(regex::Error);

/// Patterns a compiled regex set was built from (`RegexSet::patterns`).
pub uninterp spec fn set_patterns(set: regex::RegexSet) -> Seq<Seq<char>>;

/// Do the patterns provided compile into a regex set (`RegexSet::new`).
pub uninterp spec fn set_compiles(patterns: Seq<Seq<char>>) -> bool;

/// Does any of the patterns match somewhere in the haystack
/// (`RegexSet::is_match`).
pub uninterp spec fn set_matches(patterns: Seq<Seq<char>>, haystack: Seq<char>) -> bool;

/// Pattern a compiled regex was built from (`Regex::as_str`).
pub uninterp spec fn regex_pattern(re: regex::Regex) -> Seq<char>;

/// Does the pattern compile into a regex (`Regex::new`).
pub uninterp spec fn regex_compiles(pattern: Seq<char>) -> bool;

/// Text of the capture group with the index provided in the leftmost-first
/// match of the pattern in the haystack (`None` when there is no match or the
/// group did not participate in it).
pub uninterp spec fn group_match(pattern: Seq<char>, haystack: Seq<char>, group: int) -> Option<
    Seq<char>,
>;

/// Text of the capture group with the name provided in the leftmost-first
/// match of the pattern in the haystack (`None` when there is no match or the
/// group did not participate in it).
pub uninterp spec fn named_group_match(
    pattern: Seq<char>,
    haystack: Seq<char>,
    name: Seq<char>,
) -> Option<Seq<char>>;

/// Views of the patterns provided.
pub open spec fn views(patterns: Seq<&str>) -> Seq<Seq<char>> {
    patterns.map_values(|p: &str| p@)
}

/// Calls `RegexSet::new`; the set compiled holds the patterns given.
#[verifier::external_body]
fn new_regex_set(patterns: &[&str]) -> (r: Result<regex::RegexSet, regex::Error>)
    ensures
        r is Ok <==> set_compiles(views(patterns@)),
        r matches Ok(set) ==> set_patterns(set) == views(patterns@),
{
    regex::RegexSet::new(patterns)
}

/// Calls `RegexSet::is_match`.
#[verifier::external_body]
fn regex_set_is_match(set: &regex::RegexSet, haystack: &str) -> (r: bool)
    ensures
        r == set_matches(set_patterns(*set), haystack@),
{
    set.is_match(haystack)
}

/// Calls `Regex::new`; the regex compiled holds the pattern given.
#[verifier::external_body]
fn new_regex(pattern: &str) -> (r: Result<regex::Regex, regex::Error>)
    ensures
        r is Ok <==> regex_compiles(pattern@),
        r matches Ok(re) ==> regex_pattern(re) == pattern@,
{
    regex::Regex::new(pattern)
}

/// Calls `Regex::captures` and reads the capture group with the index given.
#[verifier::external_body]
fn regex_group(re: &regex::Regex, haystack: &str, group: usize) -> (r: Option<String>)
    ensures
        r matches Some(g) ==> group_match(regex_pattern(*re), haystack@, group as int) == Some(
            g@,
        ),
        r is None ==> group_match(regex_pattern(*re), haystack@, group as int) is None,
{
    match re.captures(haystack) {
        Some(c) => match c.get(group) {
            Some(m) => Some(m.as_str().to_string()),
            None => None,
        },
        None => None,
    }
}

/// Calls `Regex::captures` and reads the capture group with the name given.
#[verifier::external_body]
fn regex_named_group(re: &regex::Regex, haystack: &str, name: &str) -> (r: Option<String>)
    ensures
        r matches Some(g) ==> named_group_match(regex_pattern(*re), haystack@, name@) == Some(
            g@,
        ),
        r is None ==> named_group_match(regex_pattern(*re), haystack@, name@) is None,
{
    match re.captures(haystack) {
        Some(c) => match c.name(name) {
            Some(m) => Some(m.as_str().to_string()),
            None => None,
        },
        None => None,
    }
}

/// The patterns compile and one of them matches the haystack.
pub open spec fn any_matches(patterns: Seq<Seq<char>>, haystack: Seq<char>) -> bool {
    set_compiles(patterns) && set_matches(patterns, haystack)
}

/// Does any of the patterns provided match the haystack (false when the
/// patterns do not compile).
pub fn matches_any(patterns: &[&str], haystack: &str) -> (r: bool)
    ensures
        r == any_matches(views(patterns@), haystack@),
{
    match new_regex_set(patterns) {
        Ok(set) => regex_set_is_match(&set, haystack),
        Err(_) => false,
    }
}

/// First capture group of the pattern in the haystack, when it compiles.
pub open spec fn first_group(pattern: Seq<char>, haystack: Seq<char>) -> Option<Seq<char>> {
    if regex_compiles(pattern) {
        group_match(pattern, haystack, 1)
    } else {
        None
    }
}

/// Value captured by the first group of the pattern in the haystack.
pub fn capture_first_group(pattern: &str, haystack: &str) -> (r: Option<String>)
    ensures
        r matches Some(g) ==> first_group(pattern@, haystack@) == Some(g@),
        r is None ==> first_group(pattern@, haystack@) is None,
{
    match new_regex(pattern) {
        Ok(re) => regex_group(&re, haystack, 1),
        Err(_) => None,
    }
}

/// Value captured by the named group of the pattern in the haystack, when it
/// compiles.
pub open spec fn named_group(pattern: Seq<char>, haystack: Seq<char>, name: Seq<char>) -> Option<
    Seq<char>,
> {
    if regex_compiles(pattern) {
        named_group_match(pattern, haystack, name)
    } else {
        None
    }
}

/// Value captured by the named group of the pattern in the haystack.
pub fn capture_named_group(pattern: &str, haystack: &str, name: &str) -> (r: Option<String>)
    ensures
        r matches Some(g) ==> named_group(pattern@, haystack@, name@) == Some(g@),
        r is None ==> named_group(pattern@, haystack@, name@) is None,
{
    match new_regex(pattern) {
        Ok(re) => regex_named_group(&re, haystack, name),
        Err(_) => None,
    }
}

} // verus!
