//! Artifact Hub badge check: an Artifact Hub package url in the README file.

use vstd::prelude::*;

use crate::check::CheckOutput;
use crate::checks::{
    capture_from, capture_in_texts, lemma_capture_in_texts_some, opt_view, text_views, texts_capture, verdict,
    verdict_output,
};
use crate::matching::first_group;
use crate::matching::views;

verus! {

/// Regular expressions capturing an Artifact Hub package url.
pub open spec fn url_patterns() -> Seq<Seq<char>> {
    seq![r#"(https://artifacthub.io/packages/[^"'\)]+)"#@]
}

/// Regular expressions capturing an Artifact Hub package url.
pub fn urls() -> (r: [&'static str; 1])
    ensures
        views(r@) == url_patterns(),
{
    let r = [r#"(https://artifacthub.io/packages/[^"'\)]+)"#];
    proof {
        assert(views(r@) =~= url_patterns());
    }
    r
}

/// Check main function: the url captured in the README files.
pub fn check(readmes: &Vec<String>) -> (r: CheckOutput<()>)
    ensures
        verdict(
            r,
            capture_in_texts(url_patterns(), text_views(readmes@), 0) is Some,
            capture_in_texts(url_patterns(), text_views(readmes@), 0),
        ),
{
    let url = texts_capture(readmes, &urls());
    let found = url.is_some();
    verdict_output(found, url)
}


/// The check passes exactly when some README holds an Artifact Hub package
/// url, and an url found in the first README is the one reported.
pub proof fn lemma_passes_on_package_url(readmes: Seq<String>, o: CheckOutput<()>)
    requires
        verdict(
            o,
            capture_in_texts(url_patterns(), text_views(readmes), 0) is Some,
            capture_in_texts(url_patterns(), text_views(readmes), 0),
        ),
    ensures
        o.passed <==> exists|i: int|
            0 <= i < readmes.len() && first_group(
                r#"(https://artifacthub.io/packages/[^"'\)]+)"#@,
                #[trigger] readmes[i]@,
            ) is Some,
        readmes.len() > 0 ==> (first_group(r#"(https://artifacthub.io/packages/[^"'\)]+)"#@, readmes[0]@) matches Some(u)
            ==> opt_view(o.url) == Some(u)),
{
    let ts = text_views(readmes);
    let pats = url_patterns();
    lemma_capture_in_texts_some(pats, ts, 0);
    if o.passed {
        let (j, m) = choose|j: int, m: int|
            0 <= j < ts.len() && 0 <= m < pats.len() && #[trigger] first_group(pats[m], ts[j]) is Some;
        assert(ts[j] == readmes[j]@);
    }
    if exists|i: int|
        0 <= i < readmes.len() && first_group(
            r#"(https://artifacthub.io/packages/[^"'\)]+)"#@,
            #[trigger] readmes[i]@,
        ) is Some {
        let i = choose|i: int|
            0 <= i < readmes.len() && first_group(
                r#"(https://artifacthub.io/packages/[^"'\)]+)"#@,
                #[trigger] readmes[i]@,
            ) is Some;
        assert(ts[i] == readmes[i]@);
        assert(first_group(pats[0], ts[i]) is Some);
    }
    if readmes.len() > 0 {
        assert(ts[0] == readmes[0]@);
        if first_group(pats[0], ts[0]) is Some {
            assert(capture_from(pats, ts[0], 0) == first_group(pats[0], ts[0]));
        }
    }
}

} // verus!
