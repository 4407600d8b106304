//! Trademark disclaimer check: the Linux Foundation trademark disclaimer on
//! the project website.

use vstd::prelude::*;

use crate::check::CheckOutput;
use crate::checks::{verdict, verdict_output};
use crate::matching::{any_matches, matches_any, views};

verus! {

/// Regular expressions looking for the trademark disclaimer.
pub open spec fn trademark_disclaimer_patterns() -> Seq<Seq<char>> {
    seq![r"https://(?:w{3}\.)?linuxfoundation.org/(?:legal/)?trademark-usage"@, r"The Linux Foundation.* has registered trademarks and uses trademarks"@, r"Copyright © .+ a Series of LF Projects, LLC"@]
}

/// Regular expressions looking for the trademark disclaimer.
pub fn trademark_disclaimer() -> (r: [&'static str; 3])
    ensures
        views(r@) == trademark_disclaimer_patterns(),
{
    let r = [r"https://(?:w{3}\.)?linuxfoundation.org/(?:legal/)?trademark-usage", r"The Linux Foundation.* has registered trademarks and uses trademarks", r"Copyright © .+ a Series of LF Projects, LLC"];
    proof {
        assert(views(r@) =~= trademark_disclaimer_patterns());
    }
    r
}

/// Check main function: the trademark disclaimer in the content of the
/// website set up in GitHub (none when there is no website).
pub fn check(website: Option<&str>) -> (r: CheckOutput<()>)
    ensures
        verdict(
            r,
            website matches Some(content) && any_matches(trademark_disclaimer_patterns(), content@),
            None,
        ),
{
    let passed = match website {
        Some(content) => matches_any(&trademark_disclaimer(), content),
        None => false,
    };
    verdict_output(passed, None)
}

} // verus!
