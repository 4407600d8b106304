//! Agent readiness check: an `llms.txt` (or `llms-full.txt`) file served by
//! the project website or stored in the repository.

use vstd::prelude::*;

use crate::check::CheckOutput;
use crate::checks::{opt_str_view, verdict, verdict_output};
use crate::github::{build_repo_url, repo_file_url, MdRepository};
use crate::matching::views;
use crate::text::{self, head, lowercase, trim};

verus! {

/// Names of the files probed on the project's website.
pub open spec fn website_file_names() -> Seq<Seq<char>> {
    seq!["llms.txt"@, "llms-full.txt"@]
}

/// Names of the files probed on the project's website.
pub fn website_files() -> (r: [&'static str; 2])
    ensures
        views(r@) == website_file_names(),
{
    let r = ["llms.txt", "llms-full.txt"];
    proof {
        assert(views(r@) =~= website_file_names());
    }
    r
}

/// Patterns used to locate a file in the repository.
pub open spec fn file_globs() -> Seq<Seq<char>> {
    seq!["llms.txt"@, "llms-full.txt"@, "docs/llms.txt"@, "docs/llms-full.txt"@]
}

/// Patterns used to locate a file in the repository.
pub fn file_patterns() -> (r: [&'static str; 4])
    ensures
        views(r@) == file_globs(),
{
    let r = ["llms.txt", "llms-full.txt", "docs/llms.txt", "docs/llms-full.txt"];
    proof {
        assert(views(r@) =~= file_globs());
    }
    r
}

/// The text without its trailing slashes.
pub open spec fn trim_slashes(s: Seq<char>) -> Seq<char>
    decreases s.len(),
{
    if s.len() > 0 && s.last() == '/' {
        trim_slashes(s.drop_last())
    } else {
        s
    }
}

/// Url of a file on the website provided.
pub open spec fn website_file(website: Seq<char>, file: Seq<char>) -> Seq<char> {
    trim_slashes(website) + "/"@ + file
}

/// Build the url of a file on the website provided.
pub fn website_file_url(website: &str, file: &str) -> (r: String)
    ensures
        r@ == website_file(website@, file@),
{
    let cs = text::chars_of(website);
    let mut n: usize = cs.len();
    proof {
        assert(cs@.take(n as int) =~= cs@);
    }
    while n > 0 && cs[n - 1] == '/'
        invariant
            n <= cs@.len(),
            cs@ == website@,
            trim_slashes(cs@.take(n as int)) == trim_slashes(website@),
        decreases n,
    {
        assert(cs@.take(n as int).drop_last() =~= cs@.take(n - 1));
        n = n - 1;
    }
    let mut kept: Vec<char> = Vec::new();
    let mut i: usize = 0;
    while i < n
        invariant
            i <= n <= cs@.len(),
            kept@ == cs@.take(i as int),
        decreases n - i,
    {
        kept.push(cs[i]);
        assert(cs@.take(i + 1) =~= cs@.take(i as int).push(cs@[i as int]));
        i = i + 1;
    }
    let mut r = text::string_of(&kept);
    text::push_str(&mut r, "/");
    text::push_str(&mut r, file);
    r
}

/// Markers of an HTML document.
pub open spec fn html_markers() -> Seq<Seq<char>> {
    seq!["<!doctype"@, "<html"@, "<head"@, "<body"@]
}

/// The content looks like an llms.txt file: not blank, and its first 16
/// characters, after trimming and lowercasing, do not start an HTML
/// document.
pub open spec fn llms_txt_content(content: Seq<char>) -> bool {
    let t = trim(content);
    &&& t.len() > 0
    &&& !exists|i: int|
        0 <= i < html_markers().len() && #[trigger] html_markers()[i].is_prefix_of(
            lowercase(head(t, 16)),
        )
}

/// Check if the content provided looks like an llms.txt file. Some websites
/// return an HTML page (e.g. a SPA fallback page) with a 200 status code for
/// any path requested, so we make sure the content isn't an HTML document.
pub fn is_llms_txt_content(content: &str) -> (r: bool)
    ensures
        r == llms_txt_content(content@),
{
    let cs = text::chars_of(content);
    let t = text::trim_chars(&cs);
    if t.len() == 0 {
        return false;
    }
    let start_chars = text::head_chars(&t, 16);
    let start_raw = text::string_of(&start_chars);
    let start = text::to_lowercase(start_raw.as_str());
    let markers: [&str; 4] = ["<!doctype", "<html", "<head", "<body"];
    proof {
        assert(views(markers@) =~= html_markers());
    }
    let mut i: usize = 0;
    while i < 4
        invariant
            i <= 4,
            views(markers@) == html_markers(),
            start@ == lowercase(head(trim(content@), 16)),
            forall|j: int| 0 <= j < i ==> !(#[trigger] html_markers()[j]).is_prefix_of(start@),
        decreases 4 - i,
    {
        assert(html_markers()[i as int] == markers@[i as int]@);
        if text::starts_with(start.as_str(), markers[i]) {
            return false;
        }
        i = i + 1;
    }
    true
}

/// First of the website files (url and content, when it was served with a
/// success status) that looks like an llms.txt file.
pub open spec fn first_llms_txt(files: Seq<(Seq<char>, Option<Seq<char>>)>, i: int) -> Option<
    Seq<char>,
>
    decreases files.len() - i,
{
    if i < 0 || i >= files.len() {
        None
    } else if files[i].1 matches Some(c) && llms_txt_content(c) {
        Some(files[i].0)
    } else {
        first_llms_txt(files, i + 1)
    }
}

/// Views of the website files provided.
pub open spec fn files_view(files: Seq<(String, Option<String>)>) -> Seq<(Seq<char>, Option<Seq<char>>)> {
    files.map_values(
        |f: (String, Option<String>)|
            (
                f.0@,
                match f.1 {
                    Some(c) => Some(c@),
                    None => None,
                },
            ),
    )
}

/// Check main function: the first of the files fetched from the website
/// (url and content, when it was served with a success status; see
/// `website_files` and `website_file_url`) that looks like an llms.txt
/// file, else a file found in the repository (its path is provided).
pub fn check(website: &Vec<(String, Option<String>)>, file: Option<&str>, gh_md: &MdRepository) -> (r:
    CheckOutput<()>)
    ensures
        match first_llms_txt(files_view(website@), 0) {
            Some(url) => verdict(r, true, Some(url)),
            None => match opt_str_view(file) {
                Some(path) => verdict(r, true, Some(repo_file_url(path, *gh_md))),
                None => verdict(r, false, None),
            },
        },
{
    let ghost fv = files_view(website@);
    let mut i: usize = 0;
    while i < website.len()
        invariant
            i <= website@.len() == fv.len(),
            fv == files_view(website@),
            first_llms_txt(fv, 0) == first_llms_txt(fv, i as int),
        decreases website@.len() - i,
    {
        let (url, content) = &website[i];
        proof {
            assert(fv[i as int].0 == url@);
        }
        if let Some(c) = content {
            if is_llms_txt_content(c.as_str()) {
                return verdict_output(true, Some(url.clone()));
            }
        }
        i = i + 1;
    }
    match file {
        Some(path) => verdict_output(true, Some(build_repo_url(path, gh_md))),
        None => verdict_output(false, None),
    }
}

} // verus!
