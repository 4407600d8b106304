//! License SPDX id check: the license detected in the repository files, or
//! the one GitHub reports.

use vstd::prelude::*;

use crate::check::CheckOutput;
use crate::checks::opt_view;
use crate::github::MdRepository;
use crate::text;

verus! {

/// Patterns used to locate the license file in the repository.
pub open spec fn file_globs() -> Seq<Seq<char>> {
    seq!["LICENSE*"@, "COPYING*"@]
}

/// Patterns used to locate the license file in the repository.
pub fn file_patterns() -> (r: [&'static str; 2])
    ensures
        crate::matching::views(r@) == file_globs(),
{
    let r = ["LICENSE*", "COPYING*"];
    proof {
        assert(crate::matching::views(r@) =~= file_globs());
    }
    r
}

/// SPDX id GitHub reports for the repository, unless it is `NOASSERTION`.
pub open spec fn github_spdx_id(gh_md: MdRepository) -> Option<Seq<char>> {
    match gh_md.license_info {
        Some(l) => match l.spdx_id {
            Some(id) => if id@ != "NOASSERTION"@ {
                Some(id@)
            } else {
                None
            },
            None => None,
        },
        None => None,
    }
}

/// Check main function: passed with the SPDX id of the license detected in
/// the repository files (when one was identified), else with the one GitHub
/// reports.
pub fn check(detected: Option<String>, gh_md: &MdRepository) -> (r: CheckOutput<String>)
    ensures
        r.passed == (detected is Some || github_spdx_id(*gh_md) is Some),
        opt_view(r.value) == match detected {
            Some(id) => Some(id@),
            None => github_spdx_id(*gh_md),
        },
        r.url is None && r.details is None && !r.exempt && r.exemption_reason is None,
        !r.failed && r.fail_reason is None,
{
    // File in repo
    if let Some(spdx_id) = detected {
        return CheckOutput::passed().value(Some(spdx_id));
    }
    // License detected by Github
    if let Some(l) = &gh_md.license_info {
        if let Some(spdx_id) = &l.spdx_id {
            if !text::eq_str(spdx_id.as_str(), "NOASSERTION") {
                return CheckOutput::passed().value(Some(spdx_id.clone()));
            }
        }
    }
    CheckOutput::not_passed()
}

} // verus!
