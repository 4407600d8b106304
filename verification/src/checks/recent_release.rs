//! Recent release check: a release published in the last year.

use vstd::prelude::*;

use crate::check::CheckOutput;
use crate::checks::{recent_item, recent_outcome, verdict_output};
use crate::github::{latest_release, latest_release_of, MdRepository};

verus! {

/// Check main function: the latest release was created less than a year
/// before `now` (a unix timestamp).
pub fn check(gh_md: &MdRepository, now: i64) -> (r: Result<CheckOutput<()>, String>)
    ensures
        recent_outcome(
            r,
            match latest_release_of(*gh_md) {
                Some(rel) => Some((rel.created_at@, rel.url@)),
                None => None,
            },
            now as int,
        ),
{
    match latest_release(gh_md) {
        Some(rel) => recent_item(rel.created_at.as_str(), &rel.url, now),
        None => Ok(verdict_output(false, None)),
    }
}

} // verus!
