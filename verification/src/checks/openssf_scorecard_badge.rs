//! OpenSSF Scorecard badge check: a Scorecard project url in the README file.

use vstd::prelude::*;

use crate::check::CheckOutput;
use crate::checks::{capture_in_texts, text_views, texts_capture, verdict, verdict_output};
use crate::matching::views;

verus! {

/// Regular expressions capturing an OpenSSF Scorecard project url.
pub open spec fn url_patterns() -> Seq<Seq<char>> {
    seq![r"(https://api.scorecard.dev/projects/github.com/[^/]+/[^/]+)/badge"@, r"(https://api.securityscorecards.dev/projects/github.com/[^/]+/[^/]+)/badge"@]
}

/// Regular expressions capturing an OpenSSF Scorecard project url.
pub fn urls() -> (r: [&'static str; 2])
    ensures
        views(r@) == url_patterns(),
{
    let r = [r"(https://api.scorecard.dev/projects/github.com/[^/]+/[^/]+)/badge", r"(https://api.securityscorecards.dev/projects/github.com/[^/]+/[^/]+)/badge"];
    proof {
        assert(views(r@) =~= url_patterns());
    }
    r
}

/// Check main function: the url captured in the README files.
pub fn check(readmes: &Vec<String>) -> (r: CheckOutput<()>)
    ensures
        verdict(
            r,
            capture_in_texts(url_patterns(), text_views(readmes@), 0) is Some,
            capture_in_texts(url_patterns(), text_views(readmes@), 0),
        ),
{
    let url = texts_capture(readmes, &urls());
    let found = url.is_some();
    verdict_output(found, url)
}

} // verus!
