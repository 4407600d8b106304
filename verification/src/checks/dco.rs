//! DCO check: the developer certificate of origin signature in the latest
//! commits, or a DCO check in GitHub.

use vstd::prelude::*;

use crate::check::CheckOutput;
use crate::checks::{verdict, verdict_output};
use crate::github::{has_check, repo_has_check, MdRepository};
use crate::matching::{any_matches, matches_any, views};
use crate::patterns;

verus! {

/// Maximum number of commits used to check if the repository requires DCO.
pub const DCO_MAX_COMMITS: usize = 20;

/// Regular expression matching a pull request merge commit message.
pub open spec fn merge_pr_patterns() -> Seq<Seq<char>> {
    seq![r"^Merge pull request "@]
}

/// Regular expression matching a branch merge commit message.
pub open spec fn merge_branch_patterns() -> Seq<Seq<char>> {
    seq![r"^Merge branch "@]
}

/// Regular expression matching a DCO signature.
pub open spec fn signature_patterns() -> Seq<Seq<char>> {
    seq![r"(?m)^Signed-off-by: "@]
}

/// The commit message is a merge commit message.
pub open spec fn is_merge(msg: Seq<char>) -> bool {
    any_matches(merge_pr_patterns(), msg) || any_matches(merge_branch_patterns(), msg)
}

/// The commit message carries a DCO signature.
pub open spec fn is_signed(msg: Seq<char>) -> bool {
    any_matches(signature_patterns(), msg)
}

/// Every commit counted (the latest ones, up to the maximum) has a message,
/// and each is a merge commit message or carries a DCO signature.
pub open spec fn dco_signed(messages: Seq<Option<String>>) -> bool {
    forall|i: int|
        0 <= i < counted_messages(messages).len() ==> accepted(#[trigger] counted_messages(messages)[i])
}

/// The messages of the commits counted: the latest ones, up to the maximum.
pub open spec fn counted_messages(messages: Seq<Option<String>>) -> Seq<Option<String>> {
    if messages.len() <= DCO_MAX_COMMITS {
        messages
    } else {
        messages.take(DCO_MAX_COMMITS as int)
    }
}

/// The commit message is present, and is a merge commit message or carries
/// a DCO signature.
pub open spec fn accepted(message: Option<String>) -> bool {
    message matches Some(m) && (is_merge(m@) || is_signed(m@))
}

/// The commit message, when present, is a merge commit message or carries a
/// DCO signature.
pub open spec fn acceptable(message: Option<String>) -> bool {
    message matches Some(m) ==> (is_merge(m@) || is_signed(m@))
}

/// Check if the latest commits (their messages, newest first; none for a
/// message that is not valid UTF-8) have the DCO signature, merge commits
/// aside.
pub fn commits_have_dco_signature(messages: &Vec<Option<String>>) -> (r: bool)
    ensures
        r == dco_signed(messages@),
{
    let merge_pr = [r"^Merge pull request "];
    let merge_branch = [r"^Merge branch "];
    let signature = [r"(?m)^Signed-off-by: "];
    proof {
        assert(views(merge_pr@) =~= merge_pr_patterns());
        assert(views(merge_branch@) =~= merge_branch_patterns());
        assert(views(signature@) =~= signature_patterns());
    }
    let n = if messages.len() <= DCO_MAX_COMMITS {
        messages.len()
    } else {
        DCO_MAX_COMMITS
    };
    let ghost counted = counted_messages(messages@);
    let mut processed: usize = 0;
    let mut signed_off: usize = 0;
    let mut merge: usize = 0;
    let mut i: usize = 0;
    while i < n
        invariant
            counted == counted_messages(messages@),
            n == counted.len(),
            n <= messages@.len(),
            forall|j: int| 0 <= j < n ==> counted[j] == messages@[j],
            i <= n,
            processed == i,
            signed_off + merge <= processed,
            views(merge_pr@) == merge_pr_patterns(),
            views(merge_branch@) == merge_branch_patterns(),
            views(signature@) == signature_patterns(),
            (signed_off + merge == processed) == forall|j: int|
                0 <= j < i ==> accepted(#[trigger] counted[j]),
            forall|j: int| 0 <= j < i ==> acceptable(#[trigger] counted[j]),
        decreases n - i,
    {
        processed = processed + 1;
        assert(counted[i as int] == messages@[i as int]);
        if let Some(msg) = &messages[i] {
            if matches_any(&merge_pr, msg.as_str()) || matches_any(&merge_branch, msg.as_str()) {
                merge = merge + 1;
                i = i + 1;
                continue;
            }
            if matches_any(&signature, msg.as_str()) {
                signed_off = signed_off + 1;
            } else {
                assert(!accepted(counted[i as int]));
                return false;
            }
        }
        i = i + 1;
    }
    proof {
        assert(dco_signed(messages@) == forall|j: int| 0 <= j < n ==> accepted(#[trigger] counted[j]));
    }
    signed_off == processed - merge
}

/// Check main function: the DCO signature in the latest commits (their
/// messages, when the repository history could be read), else a DCO check
/// in GitHub.
pub fn check(commit_messages: Option<&Vec<Option<String>>>, gh_md: &MdRepository) -> (r: CheckOutput<()>)
    ensures
        verdict(
            r,
            (commit_messages matches Some(ms) && dco_signed(ms@)) || repo_has_check(
                patterns::dco_in_gh_patterns(),
                *gh_md,
            ),
            None,
        ),
{
    // DCO signature in commits
    if let Some(messages) = commit_messages {
        if commits_have_dco_signature(messages) {
            return verdict_output(true, None);
        }
    }
    // DCO check in Github
    verdict_output(has_check(gh_md, &patterns::dco_in_gh()), None)
}


/// The latest commits (up to the maximum) have the DCO signature exactly
/// when each of them has a message that is a pull request merge (matching
/// `^Merge pull request `), a branch merge (matching `^Merge branch `) or
/// that carries a `Signed-off-by: ` line (matching `(?m)^Signed-off-by: `).
pub proof fn lemma_dco_signed_commits(messages: Seq<Option<String>>)
    ensures
        dco_signed(messages) <==> forall|i: int|
            0 <= i < messages.len() && i < DCO_MAX_COMMITS ==> (#[trigger] messages[i] matches Some(m)
                && (any_matches(seq!["^Merge pull request "@], m@) || any_matches(
                seq!["^Merge branch "@],
                m@,
            ) || any_matches(seq!["(?m)^Signed-off-by: "@], m@))),
{
    let counted = counted_messages(messages);
    assert forall|i: int| 0 <= i < messages.len() && i < DCO_MAX_COMMITS implies #[trigger] messages[i]
        == counted[i] by {}
    if dco_signed(messages) {
        assert forall|i: int| 0 <= i < messages.len() && i < DCO_MAX_COMMITS implies (
        #[trigger] messages[i] matches Some(m) && (any_matches(seq!["^Merge pull request "@], m@)
            || any_matches(seq!["^Merge branch "@], m@) || any_matches(
            seq!["(?m)^Signed-off-by: "@],
            m@,
        ))) by {
            assert(accepted(counted[i]));
        }
    }
}

/// Branch merge commits are set aside: adding branch merge commits (their
/// messages matching `^Merge branch `) before a signed history keeps it
/// signed, as long as the commits counted stay within the maximum.
pub proof fn lemma_branch_merges_set_aside(merges: Seq<Option<String>>, messages: Seq<Option<String>>)
    requires
        forall|i: int|
            0 <= i < merges.len() ==> (#[trigger] merges[i] matches Some(m) && any_matches(
                seq!["^Merge branch "@],
                m@,
            )),
        dco_signed(messages),
        merges.len() + messages.len() <= DCO_MAX_COMMITS,
    ensures
        dco_signed(merges + messages),
{
    lemma_dco_signed_commits(messages);
    lemma_dco_signed_commits(merges + messages);
    let all = merges + messages;
    assert forall|i: int| 0 <= i < all.len() && i < DCO_MAX_COMMITS implies (#[trigger] all[i] matches Some(m)
        && (any_matches(seq!["^Merge pull request "@], m@) || any_matches(seq!["^Merge branch "@], m@)
        || any_matches(seq!["(?m)^Signed-off-by: "@], m@))) by {
        if i >= merges.len() {
            assert(all[i] == messages[i - merges.len()]);
        } else {
            assert(all[i] == merges[i]);
        }
    }
}

} // verus!
