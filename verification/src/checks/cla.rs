//! CLA check: a contributor license agreement check in GitHub.

use vstd::prelude::*;

use crate::check::CheckOutput;
use crate::checks::{verdict, verdict_output};
use crate::github::{has_check, repo_has_check, MdRepository};
use crate::matching::views;

verus! {

/// Regular expressions looking for a CLA check in GitHub.
pub open spec fn check_ref_patterns() -> Seq<Seq<char>> {
    seq![r"(?i)cncf-cla"@, r"(?i)cla/linuxfoundation"@, r"(?i)easycla"@, r"(?i)license/cla"@, r"(?i)cla/google"@]
}

/// Regular expressions looking for a CLA check in GitHub.
pub fn check_ref() -> (r: [&'static str; 5])
    ensures
        views(r@) == check_ref_patterns(),
{
    let r = [r"(?i)cncf-cla", r"(?i)cla/linuxfoundation", r"(?i)easycla", r"(?i)license/cla", r"(?i)cla/google"];
    proof {
        assert(views(r@) =~= check_ref_patterns());
    }
    r
}

/// Check main function: a CLA check run on the head commit of the latest
/// pull request.
pub fn check(gh_md: &MdRepository) -> (r: CheckOutput<()>)
    ensures
        verdict(r, repo_has_check(check_ref_patterns(), *gh_md), None),
{
    verdict_output(has_check(gh_md, &check_ref()), None)
}

} // verus!
