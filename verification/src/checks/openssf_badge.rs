//! OpenSSF best practices badge check: a best practices project url in the
//! README file.

use vstd::prelude::*;

use crate::check::CheckOutput;
use crate::checks::{
    capture_from, capture_in_texts, lemma_capture_in_texts_some, opt_view, text_views, texts_capture, verdict,
    verdict_output,
};
use crate::matching::first_group;
use crate::matching::views;

verus! {

/// Regular expressions capturing an OpenSSF best practices project url.
pub open spec fn url_patterns() -> Seq<Seq<char>> {
    seq![r"(https://www.bestpractices.dev/projects/\d+)"@, r"(https://bestpractices.coreinfrastructure.org/projects/\d+)"@]
}

/// Regular expressions capturing an OpenSSF best practices project url.
pub fn urls() -> (r: [&'static str; 2])
    ensures
        views(r@) == url_patterns(),
{
    let r = [r"(https://www.bestpractices.dev/projects/\d+)", r"(https://bestpractices.coreinfrastructure.org/projects/\d+)"];
    proof {
        assert(views(r@) =~= url_patterns());
    }
    r
}

/// Check main function: the url captured in the README files.
pub fn check(readmes: &Vec<String>) -> (r: CheckOutput<()>)
    ensures
        verdict(
            r,
            capture_in_texts(url_patterns(), text_views(readmes@), 0) is Some,
            capture_in_texts(url_patterns(), text_views(readmes@), 0),
        ),
{
    let url = texts_capture(readmes, &urls());
    let found = url.is_some();
    verdict_output(found, url)
}


/// The check passes exactly when some README holds an OpenSSF best practices
/// project url, on `www.bestpractices.dev` or on the former
/// `bestpractices.coreinfrastructure.org` site.
pub proof fn lemma_passes_on_project_url(readmes: Seq<String>, o: CheckOutput<()>)
    requires
        verdict(
            o,
            capture_in_texts(url_patterns(), text_views(readmes), 0) is Some,
            capture_in_texts(url_patterns(), text_views(readmes), 0),
        ),
    ensures
        o.passed <==> exists|i: int|
            0 <= i < readmes.len() && (first_group(
                r"(https://www.bestpractices.dev/projects/\d+)"@,
                #[trigger] readmes[i]@,
            ) is Some || first_group(
                r"(https://bestpractices.coreinfrastructure.org/projects/\d+)"@,
                readmes[i]@,
            ) is Some),
{
    let ts = text_views(readmes);
    let pats = url_patterns();
    lemma_capture_in_texts_some(pats, ts, 0);
    if o.passed {
        let (j, m) = choose|j: int, m: int|
            0 <= j < ts.len() && 0 <= m < pats.len() && #[trigger] first_group(pats[m], ts[j]) is Some;
        assert(ts[j] == readmes[j]@);
    }
    if exists|i: int|
        0 <= i < readmes.len() && (first_group(
            r"(https://www.bestpractices.dev/projects/\d+)"@,
            #[trigger] readmes[i]@,
        ) is Some || first_group(
            r"(https://bestpractices.coreinfrastructure.org/projects/\d+)"@,
            readmes[i]@,
        ) is Some) {
        let i = choose|i: int|
            0 <= i < readmes.len() && (first_group(
                r"(https://www.bestpractices.dev/projects/\d+)"@,
                #[trigger] readmes[i]@,
            ) is Some || first_group(
                r"(https://bestpractices.coreinfrastructure.org/projects/\d+)"@,
                readmes[i]@,
            ) is Some);
        assert(ts[i] == readmes[i]@);
        if first_group(pats[0], ts[i]) is Some {
            assert(first_group(pats[0], ts[i]) is Some);
        } else {
            assert(first_group(pats[1], ts[i]) is Some);
        }
    }
}

/// A `www.bestpractices.dev` project url in the first README is the url the
/// check reports.
pub proof fn lemma_reports_best_practices_url(readmes: Seq<String>, u: Seq<char>, o: CheckOutput<()>)
    requires
        readmes.len() > 0,
        first_group(r"(https://www.bestpractices.dev/projects/\d+)"@, readmes[0]@) == Some(u),
        verdict(
            o,
            capture_in_texts(url_patterns(), text_views(readmes), 0) is Some,
            capture_in_texts(url_patterns(), text_views(readmes), 0),
        ),
    ensures
        o.passed,
        opt_view(o.url) == Some(u),
{
    let ts = text_views(readmes);
    assert(ts[0] == readmes[0]@);
    assert(capture_from(url_patterns(), ts[0], 0) == Some(u));
}

} // verus!
