//! Website check: a website set up in GitHub.

use vstd::prelude::*;

use crate::check::CheckOutput;
use crate::checks::{opt_view, verdict, verdict_output};
use crate::github::MdRepository;

verus! {

/// Website set up in GitHub, when not empty.
pub open spec fn website_of(gh_md: MdRepository) -> Option<Seq<char>> {
    match gh_md.homepage_url {
        Some(url) => if url@.len() > 0 {
            Some(url@)
        } else {
            None
        },
        None => None,
    }
}

/// Return the website set up in GitHub, when not empty.
pub fn website_url(gh_md: &MdRepository) -> (r: Option<String>)
    ensures
        opt_view(r) == website_of(*gh_md),
{
    match &gh_md.homepage_url {
        Some(url) => if !url.as_str().is_empty() {
            Some(url.clone())
        } else {
            None
        },
        None => None,
    }
}

/// Check main function: passed with the website url when one is set up.
pub fn check(gh_md: &MdRepository) -> (r: CheckOutput<()>)
    ensures
        verdict(r, website_of(*gh_md) is Some, website_of(*gh_md)),
{
    let url = website_url(gh_md);
    let found = url.is_some();
    verdict_output(found, url)
}

} // verus!
