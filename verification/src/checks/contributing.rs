//! Contributing check: a contributing file, a reference to it in the README
//! file, or a default community health file in the owner's `.github`
//! repository.

use vstd::prelude::*;

use crate::check::CheckOutput;
use crate::checks::{
    any_text_matches, file_or_readme_ref_outcome, find_file_or_readme_ref, opt_str_view, opt_view,
    text_views, verdict, verdict_output,
};
use crate::github::MdRepository;
use crate::matching::views;

verus! {

/// Patterns used to locate a file in the repository.
pub open spec fn file_globs() -> Seq<Seq<char>> {
    seq!["contributing*"@, ".github/contributing*"@, "docs/contributing*"@]
}

/// Patterns used to locate a file in the repository.
pub fn file_patterns() -> (r: [&'static str; 3])
    ensures
        views(r@) == file_globs(),
{
    let r = ["contributing*", ".github/contributing*", "docs/contributing*"];
    proof {
        assert(views(r@) =~= file_globs());
    }
    r
}

/// Regular expressions looking for a reference in the README file.
pub open spec fn readme_ref_patterns() -> Seq<Seq<char>> {
    seq![r"(?im)^#+.*contributing.*$"@, r"(?im)^contributing$"@, r"(?i)\[.*contributing.*\]\(.*\)"@]
}

/// Regular expressions looking for a reference in the README file.
pub fn readme_ref() -> (r: [&'static str; 3])
    ensures
        views(r@) == readme_ref_patterns(),
{
    let r = [r"(?im)^#+.*contributing.*$", r"(?im)^contributing$", r"(?i)\[.*contributing.*\]\(.*\)"];
    proof {
        assert(views(r@) =~= readme_ref_patterns());
    }
    r
}

/// Check main function: a contributing file found in the repository (its
/// path is provided), a reference in the README files, or a default
/// community health file in the owner's `.github` repository (its url, when
/// one was found; see `github::community_health_file_url`).
pub fn check(
    file: Option<&str>,
    gh_md: &MdRepository,
    readmes: &Vec<String>,
    health_file_url: Option<String>,
) -> (r: CheckOutput<()>)
    ensures
        file is Some || any_text_matches(readme_ref_patterns(), text_views(readmes@))
            ==> file_or_readme_ref_outcome(
            r,
            opt_str_view(file),
            *gh_md,
            text_views(readmes@),
            readme_ref_patterns(),
        ),
        !(file is Some || any_text_matches(readme_ref_patterns(), text_views(readmes@)))
            ==> verdict(r, health_file_url is Some, opt_view(health_file_url)),
{
    // File in repo or reference in README file
    let output = find_file_or_readme_ref(file, gh_md, readmes, &readme_ref());
    if output.passed {
        return output;
    }
    // File in .github repo
    let found = health_file_url.is_some();
    verdict_output(found, health_file_url)
}

} // verus!
