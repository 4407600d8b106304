//! Changelog check: a changelog file, a reference to it in the README file
//! or in the notes of the latest release.

use vstd::prelude::*;

use crate::check::CheckOutput;
use crate::checks::{
    any_text_matches, file_or_readme_ref_outcome, find_file_or_readme_ref, opt_str_view,
    text_views, verdict, verdict_output,
};
use crate::github::{latest_release_description_matches, latest_release_matches, MdRepository};
use crate::matching::views;

verus! {

/// Patterns used to locate a file in the repository.
pub open spec fn file_globs() -> Seq<Seq<char>> {
    seq!["changelog*"@]
}

/// Patterns used to locate a file in the repository.
pub fn file_patterns() -> (r: [&'static str; 1])
    ensures
        views(r@) == file_globs(),
{
    let r = ["changelog*"];
    proof {
        assert(views(r@) =~= file_globs());
    }
    r
}

/// Regular expressions looking for a reference in the README file.
pub open spec fn readme_ref_patterns() -> Seq<Seq<char>> {
    seq![r"(?im)^#+.*changelog.*$"@, r"(?im)^changelog$"@, r"(?i)\[.*changelog.*\]\(.*\)"@]
}

/// Regular expressions looking for a reference in the README file.
pub fn readme_ref() -> (r: [&'static str; 3])
    ensures
        views(r@) == readme_ref_patterns(),
{
    let r = [r"(?im)^#+.*changelog.*$", r"(?im)^changelog$", r"(?i)\[.*changelog.*\]\(.*\)"];
    proof {
        assert(views(r@) =~= readme_ref_patterns());
    }
    r
}

/// Regular expressions looking for a reference in the latest release notes.
pub open spec fn release_ref_patterns() -> Seq<Seq<char>> {
    seq![r"(?i)changelog"@, r"(?i)changes"@]
}

/// Regular expressions looking for a reference in the latest release notes.
pub fn release_ref() -> (r: [&'static str; 2])
    ensures
        views(r@) == release_ref_patterns(),
{
    let r = [r"(?i)changelog", r"(?i)changes"];
    proof {
        assert(views(r@) =~= release_ref_patterns());
    }
    r
}

/// Check main function: a changelog file found in the repository (its path
/// is provided), a reference in the README files or in the description of
/// the latest release.
pub fn check(file: Option<&str>, gh_md: &MdRepository, readmes: &Vec<String>) -> (r: CheckOutput<()>)
    ensures
        file is Some || any_text_matches(readme_ref_patterns(), text_views(readmes@))
            ==> file_or_readme_ref_outcome(
            r,
            opt_str_view(file),
            *gh_md,
            text_views(readmes@),
            readme_ref_patterns(),
        ),
        !(file is Some || any_text_matches(readme_ref_patterns(), text_views(readmes@)))
            ==> verdict(r, latest_release_matches(*gh_md, release_ref_patterns()), None),
{
    // File in repo or reference in README file
    let output = find_file_or_readme_ref(file, gh_md, readmes, &readme_ref());
    if output.passed {
        return output;
    }
    // Reference in last release
    verdict_output(latest_release_description_matches(gh_md, &release_ref()), None)
}

} // verus!
