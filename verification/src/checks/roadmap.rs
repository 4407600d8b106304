//! Roadmap check: a roadmap file, or a reference to it in the README file.

use vstd::prelude::*;

use crate::check::CheckOutput;
use crate::checks::{file_or_readme_ref_outcome, find_file_or_readme_ref, opt_str_view, text_views};
use crate::github::MdRepository;
use crate::matching::views;

verus! {

/// Patterns used to locate a file in the repository.
pub open spec fn file_globs() -> Seq<Seq<char>> {
    seq!["roadmap*"@]
}

/// Patterns used to locate a file in the repository.
pub fn file_patterns() -> (r: [&'static str; 1])
    ensures
        views(r@) == file_globs(),
{
    let r = ["roadmap*"];
    proof {
        assert(views(r@) =~= file_globs());
    }
    r
}

/// Regular expressions looking for a reference in the README file.
pub open spec fn readme_ref_patterns() -> Seq<Seq<char>> {
    seq![r"(?im)^#+.*roadmap.*$"@, r"(?im)^roadmap$"@, r"(?i)\[.*roadmap.*\]\(.*\)"@]
}

/// Regular expressions looking for a reference in the README file.
pub fn readme_ref() -> (r: [&'static str; 3])
    ensures
        views(r@) == readme_ref_patterns(),
{
    let r = [r"(?im)^#+.*roadmap.*$", r"(?im)^roadmap$", r"(?i)\[.*roadmap.*\]\(.*\)"];
    proof {
        assert(views(r@) =~= readme_ref_patterns());
    }
    r
}

/// Check main function: a file found in the repository (its path is
/// provided) or a reference in the README files.
pub fn check(file: Option<&str>, gh_md: &MdRepository, readmes: &Vec<String>) -> (r: CheckOutput<()>)
    ensures
        file_or_readme_ref_outcome(
            r,
            opt_str_view(file),
            *gh_md,
            text_views(readmes@),
            readme_ref_patterns(),
        ),
{
    find_file_or_readme_ref(file, gh_md, readmes, &readme_ref())
}

} // verus!
