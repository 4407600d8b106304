//! The checks the linter runs, each as a decision over what was found in
//! the repository, in its README files, on GitHub or on its website.
//!
//! Reading files, walking globs and fetching urls happen outside this
//! library; the checks receive what was read.

use vstd::prelude::*;

use crate::check::CheckOutput;
use crate::github::{build_repo_url, repo_file_url, MdRepository};
use crate::matching::{any_matches, capture_first_group, first_group, matches_any, views};

pub mod adopters;
pub mod agent_readiness;
pub mod analytics;
pub mod annual_review;
pub mod artifacthub_badge;
pub mod changelog;
pub mod cla;
pub mod code_of_conduct;
pub mod community_meeting;
pub mod contributing;
pub mod dco;
pub mod dependencies_policy;
pub mod github_discussions;
pub mod governance;
pub mod license_approved;
pub mod license_scanning;
pub mod license_spdx_id;
pub mod maintainers;
pub mod openssf_badge;
pub mod openssf_scorecard_badge;
pub mod readme;
pub mod recent_release;
pub mod roadmap;
pub mod sbom;
pub mod security_insights;
pub mod security_policy;
pub mod slack_presence;
pub mod summary_table;
pub mod trademark_disclaimer;
pub mod website;

verus! {

/// View of an optional string.
pub open spec fn opt_view(o: Option<String>) -> Option<Seq<char>> {
    match o {
        Some(s) => Some(s@),
        None => None,
    }
}

/// View of an optional string slice.
pub open spec fn opt_str_view(o: Option<&str>) -> Option<Seq<char>> {
    match o {
        Some(s) => Some(s@),
        None => None,
    }
}

/// The output only says whether the check passed, with the url provided.
pub open spec fn verdict<T>(o: CheckOutput<T>, passed: bool, url: Option<Seq<char>>) -> bool {
    &&& o.passed == passed
    &&& opt_view(o.url) == url
    &&& o.value is None
    &&& o.details is None
    &&& !o.exempt
    &&& o.exemption_reason is None
    &&& !o.failed
    &&& o.fail_reason is None
}

/// Build a plain verdict.
pub fn verdict_output<T>(passed: bool, url: Option<String>) -> (r: CheckOutput<T>)
    ensures
        verdict(r, passed, opt_view(url)),
{
    let r = if passed {
        CheckOutput::passed()
    } else {
        CheckOutput::not_passed()
    };
    r.url(url)
}

/// Views of the texts provided.
pub open spec fn text_views(texts: Seq<String>) -> Seq<Seq<char>> {
    texts.map_values(|t: String| t@)
}

/// Does any of the patterns match any of the texts.
pub open spec fn any_text_matches(patterns: Seq<Seq<char>>, texts: Seq<Seq<char>>) -> bool {
    exists|i: int| 0 <= i < texts.len() && any_matches(patterns, #[trigger] texts[i])
}

/// Check if any of the texts provided (the content of the README files, for
/// example) matches any of the patterns given.
pub fn texts_match(texts: &Vec<String>, patterns: &[&str]) -> (r: bool)
    ensures
        r == any_text_matches(views(patterns@), text_views(texts@)),
{
    let mut i: usize = 0;
    while i < texts.len()
        invariant
            i <= texts@.len(),
            forall|j: int|
                0 <= j < i ==> !any_matches(views(patterns@), #[trigger] text_views(texts@)[j]),
        decreases texts@.len() - i,
    {
        if matches_any(patterns, texts[i].as_str()) {
            assert(any_matches(views(patterns@), text_views(texts@)[i as int]));
            return true;
        }
        i = i + 1;
    }
    false
}

/// First capture group of the first of the patterns (from the index
/// provided on) that captures one in the text.
pub open spec fn capture_from(patterns: Seq<Seq<char>>, text: Seq<char>, i: int) -> Option<
    Seq<char>,
>
    decreases patterns.len() - i,
{
    if i < 0 || i >= patterns.len() {
        None
    } else {
        match first_group(patterns[i], text) {
            Some(g) => Some(g),
            None => capture_from(patterns, text, i + 1),
        }
    }
}

/// First capture group of the first of the texts (from the index provided
/// on) in which one of the patterns captures one.
pub open spec fn capture_in_texts(patterns: Seq<Seq<char>>, texts: Seq<Seq<char>>, i: int) -> Option<
    Seq<char>,
>
    decreases texts.len() - i,
{
    if i < 0 || i >= texts.len() {
        None
    } else {
        match capture_from(patterns, texts[i], 0) {
            Some(g) => Some(g),
            None => capture_in_texts(patterns, texts, i + 1),
        }
    }
}

/// One of the patterns (from the index provided on) captures a value in the
/// text exactly when some pattern among them captures a first group there.
pub proof fn lemma_capture_from_some(patterns: Seq<Seq<char>>, text: Seq<char>, i: int)
    requires
        0 <= i,
    ensures
        capture_from(patterns, text, i) is Some <==> exists|m: int|
            i <= m < patterns.len() && #[trigger] first_group(patterns[m], text) is Some,
    decreases patterns.len() - i,
{
    if i < patterns.len() {
        lemma_capture_from_some(patterns, text, i + 1);
        if first_group(patterns[i], text) is Some {
            assert(first_group(patterns[i], text) is Some);
        }
    }
}

/// A value is captured in the texts (from the index provided on) exactly
/// when, in one of them, one of the patterns captures a first group.
pub proof fn lemma_capture_in_texts_some(patterns: Seq<Seq<char>>, texts: Seq<Seq<char>>, i: int)
    requires
        0 <= i,
    ensures
        capture_in_texts(patterns, texts, i) is Some <==> exists|j: int, m: int|
            i <= j < texts.len() && 0 <= m < patterns.len() && #[trigger] first_group(
                patterns[m],
                texts[j],
            ) is Some,
    decreases texts.len() - i,
{
    if i < texts.len() {
        lemma_capture_in_texts_some(patterns, texts, i + 1);
        lemma_capture_from_some(patterns, texts[i], 0);
        if capture_from(patterns, texts[i], 0) is Some {
            let m = choose|m: int| 0 <= m < patterns.len() && #[trigger] first_group(patterns[m], texts[i]) is Some;
            assert(first_group(patterns[m], texts[i]) is Some);
        }
    }
}

/// Value captured by the first of the patterns that captures one in the
/// text provided.
fn capture_text(text: &str, patterns: &[&str]) -> (r: Option<String>)
    ensures
        opt_view(r) == capture_from(views(patterns@), text@, 0),
{
    let mut i: usize = 0;
    while i < patterns.len()
        invariant
            i <= patterns@.len(),
            capture_from(views(patterns@), text@, 0) == capture_from(views(patterns@), text@, i as int),
        decreases patterns@.len() - i,
    {
        assert(views(patterns@)[i as int] == patterns@[i as int]@);
        let g = capture_first_group(patterns[i], text);
        if g.is_some() {
            return g;
        }
        i = i + 1;
    }
    None
}

/// Check if any of the texts provided matches any of the patterns given
/// (each holding one capture group), returning the value captured: texts
/// are tried in order, and for each text the patterns in order.
pub fn texts_capture(texts: &Vec<String>, patterns: &[&str]) -> (r: Option<String>)
    ensures
        opt_view(r) == capture_in_texts(views(patterns@), text_views(texts@), 0),
{
    let mut i: usize = 0;
    while i < texts.len()
        invariant
            i <= texts@.len(),
            capture_in_texts(views(patterns@), text_views(texts@), 0) == capture_in_texts(
                views(patterns@),
                text_views(texts@),
                i as int,
            ),
        decreases texts@.len() - i,
    {
        assert(text_views(texts@)[i as int] == texts@[i as int]@);
        let g = capture_text(texts[i].as_str(), patterns);
        if g.is_some() {
            return g;
        }
        i = i + 1;
    }
    None
}

/// Outcome of looking for a file in the repository or a reference to it in
/// the README files: passed with the file's url when a file was found, else
/// passed without url when a README file references it.
pub open spec fn file_or_readme_ref_outcome<T>(
    o: CheckOutput<T>,
    file: Option<Seq<char>>,
    gh_md: MdRepository,
    readmes: Seq<Seq<char>>,
    readme_ref: Seq<Seq<char>>,
) -> bool {
    match file {
        Some(path) => verdict(o, true, Some(repo_file_url(path, gh_md))),
        None => verdict(o, any_text_matches(readme_ref, readmes), None),
    }
}

/// Check if a file was found in the repository (its path is provided) or if
/// any of the README files references it.
pub fn find_file_or_readme_ref(
    file: Option<&str>,
    gh_md: &MdRepository,
    readmes: &Vec<String>,
    readme_ref: &[&str],
) -> (r: CheckOutput<()>)
    ensures
        file_or_readme_ref_outcome(
            r,
            opt_str_view(file),
            *gh_md,
            text_views(readmes@),
            views(readme_ref@),
        ),
{
    // File in repo
    if let Some(path) = file {
        return verdict_output(true, Some(build_repo_url(path, gh_md)));
    }
    // Reference in README file
    verdict_output(texts_match(readmes, readme_ref), None)
}

/// Seconds in the 365 days during which a release or a discussion counts as
/// recent.
pub const ONE_YEAR_SECONDS: i64 = 31536000;

/// Unix timestamp of an RFC 3339 date and time, or the message of the error
/// met parsing it (`time::OffsetDateTime::parse` with the RFC 3339 format).
pub uninterp spec fn rfc3339_timestamp(text: Seq<char>) -> Result<int, Seq<char>>;

/// Calls `time::OffsetDateTime::parse` with the RFC 3339 format and reads
/// the unix timestamp of the result; an error is returned as its message.
#[verifier::external_body]
fn parse_rfc3339(text: &str) -> (r: Result<i64, String>)
    ensures
        match r {
            Ok(t) => rfc3339_timestamp(text@) == Ok::<int, Seq<char>>(t as int),
            Err(e) => rfc3339_timestamp(text@) == Err::<int, Seq<char>>(e@),
        },
{
    match time::OffsetDateTime::parse(text, &time::format_description::well_known::Rfc3339) {
        Ok(d) => Ok(d.unix_timestamp()),
        Err(e) => Err(e.to_string()),
    }
}

/// Outcome of a check passing when an item (a release or a discussion,
/// given by its creation date and url) was created less than a year before
/// `now` (a unix timestamp): an error when its date cannot be parsed.
pub open spec fn recent_outcome(
    o: Result<CheckOutput<()>, String>,
    item: Option<(Seq<char>, Seq<char>)>,
    now: int,
) -> bool {
    match item {
        None => o matches Ok(c) && verdict(c, false, None),
        Some((created_at, url)) => match rfc3339_timestamp(created_at) {
            Err(e) => o matches Err(m) && m@ == e,
            Ok(t) => o matches Ok(c) && if t > now - ONE_YEAR_SECONDS {
                verdict(c, true, Some(url))
            } else {
                verdict(c, false, None)
            },
        },
    }
}

/// Check if an item created at the date provided (RFC 3339) is less than a
/// year older than `now` (a unix timestamp): passed with its url if so.
pub fn recent_item(created_at: &str, url: &String, now: i64) -> (r: Result<CheckOutput<()>, String>)
    ensures
        recent_outcome(r, Some((created_at@, url@)), now as int),
{
    let created = match parse_rfc3339(created_at) {
        Ok(t) => t,
        Err(e) => return Err(e),
    };
    let one_year_ago: i128 = now as i128 - ONE_YEAR_SECONDS as i128;
    if created as i128 > one_year_ago {
        Ok(verdict_output(true, Some(url.clone())))
    } else {
        Ok(verdict_output(false, None))
    }
}

} // verus!
