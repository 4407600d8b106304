//! Security policy check: a security policy file, a reference to it in the
//! README file, or the security policy GitHub reports.

use vstd::prelude::*;

use crate::check::CheckOutput;
use crate::checks::{
    any_text_matches, file_or_readme_ref_outcome, find_file_or_readme_ref, opt_str_view, opt_view,
    text_views, verdict, verdict_output,
};
use crate::github::MdRepository;
use crate::patterns;

verus! {

/// Check main function: a security policy file found in the repository (its
/// path is provided), a reference in the README files, or the security
/// policy url GitHub reports (a default community health file, for example).
pub fn check(file: Option<&str>, gh_md: &MdRepository, readmes: &Vec<String>) -> (r: CheckOutput<()>)
    ensures
        file is Some || any_text_matches(patterns::security_policy_in_readme_patterns(), text_views(readmes@))
            ==> file_or_readme_ref_outcome(
            r,
            opt_str_view(file),
            *gh_md,
            text_views(readmes@),
            patterns::security_policy_in_readme_patterns(),
        ),
        !(file is Some || any_text_matches(patterns::security_policy_in_readme_patterns(), text_views(readmes@)))
            ==> verdict(r, gh_md.security_policy_url is Some, opt_view(gh_md.security_policy_url)),
{
    // File in repo or reference in README file
    let output = find_file_or_readme_ref(file, gh_md, readmes, &patterns::security_policy_in_readme());
    if output.passed {
        return output;
    }
    // File in Github (default community health file, for example)
    let url = match &gh_md.security_policy_url {
        Some(u) => Some(u.clone()),
        None => None,
    };
    let found = url.is_some();
    verdict_output(found, url)
}

} // verus!
