//! Security Insights check: an OpenSSF Security Insights manifest in the
//! repository.

use vstd::prelude::*;

use crate::check::CheckOutput;
use crate::checks::{verdict, verdict_output};
use crate::github::{build_repo_url, repo_file_url, MdRepository};
use crate::security_insights::SecurityInsights;

verus! {

/// Check main function: passed with the url of the manifest used, if any;
/// the error met reading the manifest is returned.
pub fn check(security_insights: &Result<Option<SecurityInsights>, String>, gh_md: &MdRepository) -> (r:
    Result<CheckOutput<()>, String>)
    ensures
        match security_insights {
            Err(e) => r matches Err(m) && m@ == e@,
            Ok(None) => r matches Ok(o) && verdict(o, false, None),
            Ok(Some(si)) => r matches Ok(o) && verdict(
                o,
                true,
                Some(repo_file_url(si.manifest_rel_path@, *gh_md)),
            ),
        },
{
    match security_insights {
        Err(e) => Err(e.clone()),
        Ok(None) => Ok(verdict_output(false, None)),
        Ok(Some(si)) => {
            let url = build_repo_url(si.manifest_rel_path().as_str(), gh_md);
            Ok(verdict_output(true, Some(url)))
        },
    }
}

} // verus!
