//! License scanning check: a license scanning url in the metadata file or a
//! FOSSA or Snyk badge in the README file.

use vstd::prelude::*;

use crate::check::{CheckOutput, Metadata};
use crate::checks::{
    capture_in_texts, lemma_capture_in_texts_some, opt_view, text_views, texts_capture, verdict, verdict_output,
};
use crate::matching::first_group;
use crate::matching::views;

verus! {

/// Regular expressions capturing a FOSSA or Snyk project url.
pub open spec fn url_patterns() -> Seq<Seq<char>> {
    seq![
        r#"(https://app.fossa.(?:io|com)/projects/[^"'\)]+)"#@,
        r#"(https://snyk.io/test/github/[^/]+/[^/"]+)"#@,
    ]
}

/// Regular expressions capturing a FOSSA or Snyk project url.
pub fn urls() -> (r: [&'static str; 2])
    ensures
        views(r@) == url_patterns(),
{
    let r = [
        r#"(https://app.fossa.(?:io|com)/projects/[^"'\)]+)"#,
        r#"(https://snyk.io/test/github/[^/]+/[^/"]+)"#,
    ];
    proof {
        assert(views(r@) =~= url_patterns());
    }
    r
}

/// License scanning url declared in the metadata file.
pub open spec fn metadata_url(cm_md: Option<Metadata>) -> Option<Seq<char>> {
    match cm_md {
        Some(md) => match md.license_scanning {
            Some(ls) => opt_view(ls.url),
            None => None,
        },
        None => None,
    }
}

/// Check main function: the scanning url in the metadata file, else the
/// url captured in the README files.
pub fn check(cm_md: Option<&Metadata>, readmes: &Vec<String>) -> (r: CheckOutput<()>)
    ensures
        match metadata_url(
            match cm_md {
                Some(md) => Some(*md),
                None => None,
            },
        ) {
            Some(u) => verdict(r, true, Some(u)),
            None => verdict(
                r,
                capture_in_texts(url_patterns(), text_views(readmes@), 0) is Some,
                capture_in_texts(url_patterns(), text_views(readmes@), 0),
            ),
        },
{
    // Scanning url in metadata file
    if let Some(md) = cm_md {
        if let Some(ls) = &md.license_scanning {
            if let Some(url) = &ls.url {
                return verdict_output(true, Some(url.clone()));
            }
        }
    }
    // Reference in README file
    let url = texts_capture(readmes, &urls());
    let found = url.is_some();
    verdict_output(found, url)
}


/// Without a scanning url in the metadata file, the check passes exactly
/// when some README holds a FOSSA or a Snyk project url.
pub proof fn lemma_passes_on_scanning_url(readmes: Seq<String>, o: CheckOutput<()>)
    requires
        verdict(
            o,
            capture_in_texts(url_patterns(), text_views(readmes), 0) is Some,
            capture_in_texts(url_patterns(), text_views(readmes), 0),
        ),
    ensures
        o.passed <==> exists|i: int|
            0 <= i < readmes.len() && (first_group(
                r#"(https://app.fossa.(?:io|com)/projects/[^"'\)]+)"#@,
                #[trigger] readmes[i]@,
            ) is Some || first_group(r#"(https://snyk.io/test/github/[^/]+/[^/"]+)"#@, readmes[i]@) is Some),
{
    let ts = text_views(readmes);
    let pats = url_patterns();
    lemma_capture_in_texts_some(pats, ts, 0);
    if o.passed {
        let (j, m) = choose|j: int, m: int|
            0 <= j < ts.len() && 0 <= m < pats.len() && #[trigger] first_group(pats[m], ts[j]) is Some;
        assert(ts[j] == readmes[j]@);
    }
    if exists|i: int|
        0 <= i < readmes.len() && (first_group(
            r#"(https://app.fossa.(?:io|com)/projects/[^"'\)]+)"#@,
            #[trigger] readmes[i]@,
        ) is Some || first_group(r#"(https://snyk.io/test/github/[^/]+/[^/"]+)"#@, readmes[i]@) is Some) {
        let i = choose|i: int|
            0 <= i < readmes.len() && (first_group(
                r#"(https://app.fossa.(?:io|com)/projects/[^"'\)]+)"#@,
                #[trigger] readmes[i]@,
            ) is Some || first_group(r#"(https://snyk.io/test/github/[^/]+/[^/"]+)"#@, readmes[i]@) is Some);
        assert(ts[i] == readmes[i]@);
        if first_group(pats[0], ts[i]) is Some {
            assert(first_group(pats[0], ts[i]) is Some);
        } else {
            assert(first_group(pats[1], ts[i]) is Some);
        }
    }
}

} // verus!
