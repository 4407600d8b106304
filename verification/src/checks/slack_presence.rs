//! Slack presence check: a reference to a Slack workspace in the README file.

use vstd::prelude::*;

use crate::check::CheckOutput;
use crate::checks::{any_text_matches, text_views, texts_match, verdict, verdict_output};
use crate::matching::views;

verus! {

/// Regular expressions looking for a Slack workspace in the README file.
pub open spec fn readme_ref_patterns() -> Seq<Seq<char>> {
    seq![r"(?i)https?://cloud-native.slack.com"@, r"(?i)https?://slack.cncf.io"@, r"(?i)https?://kubernetes.slack.com"@, r"(?i)https?://slack.k8s.io"@]
}

/// Regular expressions looking for a Slack workspace in the README file.
pub fn readme_ref() -> (r: [&'static str; 4])
    ensures
        views(r@) == readme_ref_patterns(),
{
    let r = [r"(?i)https?://cloud-native.slack.com", r"(?i)https?://slack.cncf.io", r"(?i)https?://kubernetes.slack.com", r"(?i)https?://slack.k8s.io"];
    proof {
        assert(views(r@) =~= readme_ref_patterns());
    }
    r
}

/// Check main function: a reference to a Slack workspace in the README files.
pub fn check(readmes: &Vec<String>) -> (r: CheckOutput<()>)
    ensures
        verdict(r, any_text_matches(readme_ref_patterns(), text_views(readmes@)), None),
{
    verdict_output(texts_match(readmes, &readme_ref()), None)
}

} // verus!
