//! Dependencies policy check: a dependencies policy declared in the
//! Security Insights manifest.

use vstd::prelude::*;

use crate::check::CheckOutput;
use crate::checks::{opt_view, verdict, verdict_output};
use crate::security_insights::{dependencies_policy_of, SecurityInsights};

verus! {

/// Check main function: passed with the dependencies policy url declared in
/// the manifest, if any; the error met reading the manifest is returned.
pub fn check(security_insights: &Result<Option<SecurityInsights>, String>) -> (r: Result<
    CheckOutput<()>,
    String,
>)
    ensures
        match security_insights {
            Err(e) => r matches Err(m) && m@ == e@,
            Ok(None) => r matches Ok(o) && verdict(o, false, None),
            Ok(Some(si)) => r matches Ok(o) && verdict(
                o,
                dependencies_policy_of(*si) is Some,
                opt_view(dependencies_policy_of(*si)),
            ),
        },
{
    match security_insights {
        Err(e) => Err(e.clone()),
        Ok(None) => Ok(verdict_output(false, None)),
        Ok(Some(si)) => match si.dependencies_policy_url() {
            Some(url) => Ok(verdict_output(true, Some(url.clone()))),
            None => Ok(verdict_output(false, None)),
        },
    }
}

} // verus!
