//! GitHub discussions check: a discussion opened in the last year.

use vstd::prelude::*;

use crate::check::CheckOutput;
use crate::checks::{recent_item, recent_outcome, verdict_output};
use crate::github::{MdRepository, MdRepositoryDiscussionsNodes};
use crate::search::{first_index, lemma_first_index_at, lemma_first_index_none};

verus! {

/// Discussion nodes that are present.
pub open spec fn present() -> spec_fn(Option<MdRepositoryDiscussionsNodes>) -> bool {
    |n: Option<MdRepositoryDiscussionsNodes>| n is Some
}

/// Latest discussion: the first one listed.
pub open spec fn latest_discussion(gh_md: MdRepository) -> Option<MdRepositoryDiscussionsNodes> {
    match gh_md.discussions.nodes {
        Some(nodes) => match first_index(nodes@, present()) {
            Some(i) => nodes@[i],
            None => None,
        },
        None => None,
    }
}

/// Return the latest discussion of the repository, when available.
fn latest(gh_md: &MdRepository) -> (r: Option<&MdRepositoryDiscussionsNodes>)
    ensures
        match r {
            Some(d) => latest_discussion(*gh_md) == Some(*d),
            None => latest_discussion(*gh_md) is None,
        },
{
    let nodes = match &gh_md.discussions.nodes {
        Some(nodes) => nodes,
        None => return None,
    };
    let mut i: usize = 0;
    while i < nodes.len()
        invariant
            i <= nodes@.len(),
            gh_md.discussions.nodes == Some(*nodes),
            forall|j: int| 0 <= j < i ==> !present()(#[trigger] nodes@[j]),
        decreases nodes@.len() - i,
    {
        if let Some(d) = &nodes[i] {
            proof {
                assert(present()(nodes@[i as int]));
                lemma_first_index_at(nodes@, present(), i as int);
            }
            return Some(d);
        }
        assert(!present()(nodes@[i as int]));
        i = i + 1;
    }
    proof {
        lemma_first_index_none(nodes@, present());
    }
    None
}

/// Check main function: the latest discussion was created less than a year
/// before `now` (a unix timestamp).
pub fn check(gh_md: &MdRepository, now: i64) -> (r: Result<CheckOutput<()>, String>)
    ensures
        recent_outcome(
            r,
            match latest_discussion(*gh_md) {
                Some(d) => Some((d.created_at@, d.url@)),
                None => None,
            },
            now as int,
        ),
{
    match latest(gh_md) {
        Some(d) => recent_item(d.created_at.as_str(), &d.url, now),
        None => Ok(verdict_output(false, None)),
    }
}

} // verus!
