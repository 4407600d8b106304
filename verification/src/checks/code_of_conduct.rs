//! Code of conduct check: a code of conduct file, a reference to it in the
//! README file, or the code of conduct GitHub reports.

use vstd::prelude::*;

use crate::check::CheckOutput;
use crate::checks::{
    any_text_matches, file_or_readme_ref_outcome, find_file_or_readme_ref, opt_str_view, opt_view,
    text_views, verdict, verdict_output,
};
use crate::github::MdRepository;
use crate::matching::views;

verus! {

/// Patterns used to locate a file in the repository.
pub open spec fn file_globs() -> Seq<Seq<char>> {
    seq!["code*of*conduct*"@, ".github/code*of*conduct*"@, "docs/code*of*conduct*"@]
}

/// Patterns used to locate a file in the repository.
pub fn file_patterns() -> (r: [&'static str; 3])
    ensures
        views(r@) == file_globs(),
{
    let r = ["code*of*conduct*", ".github/code*of*conduct*", "docs/code*of*conduct*"];
    proof {
        assert(views(r@) =~= file_globs());
    }
    r
}

/// Regular expressions looking for a reference in the README file.
pub open spec fn readme_ref_patterns() -> Seq<Seq<char>> {
    seq![r"(?im)^#+.*code of conduct.*$"@, r"(?im)^code of conduct$"@, r"(?i)\[.*code of conduct.*\]\(.*\)"@]
}

/// Regular expressions looking for a reference in the README file.
pub fn readme_ref() -> (r: [&'static str; 3])
    ensures
        views(r@) == readme_ref_patterns(),
{
    let r = [r"(?im)^#+.*code of conduct.*$", r"(?im)^code of conduct$", r"(?i)\[.*code of conduct.*\]\(.*\)"];
    proof {
        assert(views(r@) =~= readme_ref_patterns());
    }
    r
}

/// Url of the code of conduct GitHub reports for the repository.
pub open spec fn github_coc_url(gh_md: MdRepository) -> Option<Seq<char>> {
    match gh_md.code_of_conduct {
        Some(coc) => opt_view(coc.url),
        None => None,
    }
}

/// Check main function: a code of conduct file found in the repository (its
/// path is provided), a reference in the README files, or the code of
/// conduct GitHub reports (a default community health file, for example).
pub fn check(file: Option<&str>, gh_md: &MdRepository, readmes: &Vec<String>) -> (r: CheckOutput<()>)
    ensures
        file is Some || any_text_matches(readme_ref_patterns(), text_views(readmes@))
            ==> file_or_readme_ref_outcome(
            r,
            opt_str_view(file),
            *gh_md,
            text_views(readmes@),
            readme_ref_patterns(),
        ),
        !(file is Some || any_text_matches(readme_ref_patterns(), text_views(readmes@)))
            ==> verdict(r, github_coc_url(*gh_md) is Some, github_coc_url(*gh_md)),
{
    // File in repo or reference in README file
    let output = find_file_or_readme_ref(file, gh_md, readmes, &readme_ref());
    if output.passed {
        return output;
    }
    // File in Github (default community health file, for example)
    if let Some(coc) = &gh_md.code_of_conduct {
        if let Some(url) = &coc.url {
            return verdict_output(true, Some(url.clone()));
        }
    }
    verdict_output(false, None)
}

} // verus!
