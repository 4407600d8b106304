//! README check: a README file in the repository.

use vstd::prelude::*;

use crate::check::CheckOutput;
use crate::checks::{opt_str_view, verdict, verdict_output};
use crate::github::{build_repo_url, repo_file_url, MdRepository};
use crate::matching::views;

verus! {

/// Patterns used to locate the README file in the repository.
pub open spec fn file_globs() -> Seq<Seq<char>> {
    seq!["README*"@, ".github/README*"@, "docs/README*"@]
}

/// Patterns used to locate the README file in the repository.
pub fn file_patterns() -> (r: [&'static str; 3])
    ensures
        views(r@) == file_globs(),
{
    let r = ["README*", ".github/README*", "docs/README*"];
    proof {
        assert(views(r@) =~= file_globs());
    }
    r
}

/// Check main function: a README file found in the repository (its path is
/// provided), reported with its url.
pub fn check(file: Option<&str>, gh_md: &MdRepository) -> (r: CheckOutput<()>)
    ensures
        match opt_str_view(file) {
            Some(path) => verdict(r, true, Some(repo_file_url(path, *gh_md))),
            None => verdict(r, false, None),
        },
{
    match file {
        Some(path) => verdict_output(true, Some(build_repo_url(path, gh_md))),
        None => verdict_output(false, None),
    }
}

} // verus!
