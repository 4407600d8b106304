//! Maintainers check: a maintainers file, or a reference to it in the README
//! file.

use vstd::prelude::*;

use crate::check::CheckOutput;
use crate::checks::{file_or_readme_ref_outcome, find_file_or_readme_ref, opt_str_view, text_views};
use crate::github::MdRepository;
use crate::patterns;

verus! {

/// Check main function: a file found in the repository (its path is
/// provided) or a reference in the README files.
pub fn check(file: Option<&str>, gh_md: &MdRepository, readmes: &Vec<String>) -> (r: CheckOutput<()>)
    ensures
        file_or_readme_ref_outcome(
            r,
            opt_str_view(file),
            *gh_md,
            text_views(readmes@),
            patterns::maintainers_in_readme_patterns(),
        ),
{
    find_file_or_readme_ref(file, gh_md, readmes, &patterns::maintainers_in_readme())
}

} // verus!
