//! Patterns used by the checks: file globs locating a file in a repository
//! and regular expressions looking for references in text.

use vstd::prelude::*;

use crate::matching::views;

verus! {

/// Globs locating the adopters file in a repository.
pub open spec fn adopters_file_patterns() -> Seq<Seq<char>> {
    seq!["adopters*"@, "users*"@]
}

/// Globs locating the adopters file in a repository.
pub fn adopters_file() -> (r: [&'static str; 2])
    ensures
        views(r@) == adopters_file_patterns(),
{
    let r = ["adopters*", "users*"];
    proof {
        assert(views(r@) =~= adopters_file_patterns());
    }
    r
}

/// Globs locating the changelog file in a repository.
pub open spec fn changelog_file_patterns() -> Seq<Seq<char>> {
    seq!["changelog*"@]
}

/// Globs locating the changelog file in a repository.
pub fn changelog_file() -> (r: [&'static str; 1])
    ensures
        views(r@) == changelog_file_patterns(),
{
    let r = ["changelog*"];
    proof {
        assert(views(r@) =~= changelog_file_patterns());
    }
    r
}

/// Globs locating the code of conduct file in a repository.
pub open spec fn code_of_conduct_file_patterns() -> Seq<Seq<char>> {
    seq!["code*of*conduct*"@, ".github/code*of*conduct*"@, "docs/code*of*conduct*"@]
}

/// Globs locating the code of conduct file in a repository.
pub fn code_of_conduct_file() -> (r: [&'static str; 3])
    ensures
        views(r@) == code_of_conduct_file_patterns(),
{
    let r = ["code*of*conduct*", ".github/code*of*conduct*", "docs/code*of*conduct*"];
    proof {
        assert(views(r@) =~= code_of_conduct_file_patterns());
    }
    r
}

/// Globs locating the contributing file in a repository.
pub open spec fn contributing_file_patterns() -> Seq<Seq<char>> {
    seq!["contributing*"@, ".github/contributing*"@, "docs/contributing*"@]
}

/// Globs locating the contributing file in a repository.
pub fn contributing_file() -> (r: [&'static str; 3])
    ensures
        views(r@) == contributing_file_patterns(),
{
    let r = ["contributing*", ".github/contributing*", "docs/contributing*"];
    proof {
        assert(views(r@) =~= contributing_file_patterns());
    }
    r
}

/// Globs locating the governance file in a repository.
pub open spec fn governance_file_patterns() -> Seq<Seq<char>> {
    seq!["governance*"@, "docs/governance*"@]
}

/// Globs locating the governance file in a repository.
pub fn governance_file() -> (r: [&'static str; 2])
    ensures
        views(r@) == governance_file_patterns(),
{
    let r = ["governance*", "docs/governance*"];
    proof {
        assert(views(r@) =~= governance_file_patterns());
    }
    r
}

/// Globs locating the license file in a repository.
pub open spec fn license_file_patterns() -> Seq<Seq<char>> {
    seq!["LICENSE*"@, "COPYING*"@]
}

/// Globs locating the license file in a repository.
pub fn license_file() -> (r: [&'static str; 2])
    ensures
        views(r@) == license_file_patterns(),
{
    let r = ["LICENSE*", "COPYING*"];
    proof {
        assert(views(r@) =~= license_file_patterns());
    }
    r
}

/// Globs locating the maintainers file in a repository.
pub open spec fn maintainers_file_patterns() -> Seq<Seq<char>> {
    seq!["maintainers*"@, "docs/maintainers*"@, "owners*"@, "docs/owners*"@, "codeowners*"@, ".github/codeowners*"@, "docs/codeowners*"@]
}

/// Globs locating the maintainers file in a repository.
pub fn maintainers_file() -> (r: [&'static str; 7])
    ensures
        views(r@) == maintainers_file_patterns(),
{
    let r = ["maintainers*", "docs/maintainers*", "owners*", "docs/owners*", "codeowners*", ".github/codeowners*", "docs/codeowners*"];
    proof {
        assert(views(r@) =~= maintainers_file_patterns());
    }
    r
}

/// Globs locating the readme file in a repository.
pub open spec fn readme_file_patterns() -> Seq<Seq<char>> {
    seq!["README*"@, ".github/README*"@, "docs/README*"@]
}

/// Globs locating the readme file in a repository.
pub fn readme_file() -> (r: [&'static str; 3])
    ensures
        views(r@) == readme_file_patterns(),
{
    let r = ["README*", ".github/README*", "docs/README*"];
    proof {
        assert(views(r@) =~= readme_file_patterns());
    }
    r
}

/// Globs locating the roadmap file in a repository.
pub open spec fn roadmap_file_patterns() -> Seq<Seq<char>> {
    seq!["roadmap*"@]
}

/// Globs locating the roadmap file in a repository.
pub fn roadmap_file() -> (r: [&'static str; 1])
    ensures
        views(r@) == roadmap_file_patterns(),
{
    let r = ["roadmap*"];
    proof {
        assert(views(r@) =~= roadmap_file_patterns());
    }
    r
}

/// Globs locating the security policy file in a repository.
pub open spec fn security_policy_file_patterns() -> Seq<Seq<char>> {
    seq!["security*"@, ".github/security*"@, "docs/security*"@]
}

/// Globs locating the security policy file in a repository.
pub fn security_policy_file() -> (r: [&'static str; 3])
    ensures
        views(r@) == security_policy_file_patterns(),
{
    let r = ["security*", ".github/security*", "docs/security*"];
    proof {
        assert(views(r@) =~= security_policy_file_patterns());
    }
    r
}

/// Regular expressions looking for adopters in readme.
pub open spec fn adopters_in_readme_patterns() -> Seq<Seq<char>> {
    seq![r"(?im)^#+.*adopters.*$"@, r"(?im)^adopters$"@, r"(?i)\[.*adopters.*\]\(.*\)"@]
}

/// Regular expressions looking for adopters in readme.
pub fn adopters_in_readme() -> (r: [&'static str; 3])
    ensures
        views(r@) == adopters_in_readme_patterns(),
{
    let r = [r"(?im)^#+.*adopters.*$", r"(?im)^adopters$", r"(?i)\[.*adopters.*\]\(.*\)"];
    proof {
        assert(views(r@) =~= adopters_in_readme_patterns());
    }
    r
}

/// Regular expression capturing artifacthub url.
pub open spec fn artifacthub_url_patterns() -> Seq<Seq<char>> {
    seq![r#"(https://artifacthub.io/packages/[^"'\)]+)"#@]
}

/// Regular expression capturing artifacthub url.
pub fn artifacthub_url() -> (r: [&'static str; 1])
    ensures
        views(r@) == artifacthub_url_patterns(),
{
    let r = [r#"(https://artifacthub.io/packages/[^"'\)]+)"#];
    proof {
        assert(views(r@) =~= artifacthub_url_patterns());
    }
    r
}

/// Regular expressions looking for changelog in gh release.
pub open spec fn changelog_in_gh_release_patterns() -> Seq<Seq<char>> {
    seq![r"(?i)changelog"@, r"(?i)changes"@]
}

/// Regular expressions looking for changelog in gh release.
pub fn changelog_in_gh_release() -> (r: [&'static str; 2])
    ensures
        views(r@) == changelog_in_gh_release_patterns(),
{
    let r = [r"(?i)changelog", r"(?i)changes"];
    proof {
        assert(views(r@) =~= changelog_in_gh_release_patterns());
    }
    r
}

/// Regular expressions looking for changelog in readme.
pub open spec fn changelog_in_readme_patterns() -> Seq<Seq<char>> {
    seq![r"(?im)^#+.*changelog.*$"@, r"(?im)^changelog$"@, r"(?i)\[.*changelog.*\]\(.*\)"@]
}

/// Regular expressions looking for changelog in readme.
pub fn changelog_in_readme() -> (r: [&'static str; 3])
    ensures
        views(r@) == changelog_in_readme_patterns(),
{
    let r = [r"(?im)^#+.*changelog.*$", r"(?im)^changelog$", r"(?i)\[.*changelog.*\]\(.*\)"];
    proof {
        assert(views(r@) =~= changelog_in_readme_patterns());
    }
    r
}

/// Regular expressions looking for cla in gh.
pub open spec fn cla_in_gh_patterns() -> Seq<Seq<char>> {
    seq![r"(?i)cncf-cla"@, r"(?i)cla/linuxfoundation"@, r"(?i)easycla"@, r"(?i)license/cla"@, r"(?i)cla/google"@]
}

/// Regular expressions looking for cla in gh.
pub fn cla_in_gh() -> (r: [&'static str; 5])
    ensures
        views(r@) == cla_in_gh_patterns(),
{
    let r = [r"(?i)cncf-cla", r"(?i)cla/linuxfoundation", r"(?i)easycla", r"(?i)license/cla", r"(?i)cla/google"];
    proof {
        assert(views(r@) =~= cla_in_gh_patterns());
    }
    r
}

/// Regular expressions looking for code of conduct in readme.
pub open spec fn code_of_conduct_in_readme_patterns() -> Seq<Seq<char>> {
    seq![r"(?im)^#+.*code of conduct.*$"@, r"(?im)^code of conduct$"@, r"(?i)\[.*code of conduct.*\]\(.*\)"@]
}

/// Regular expressions looking for code of conduct in readme.
pub fn code_of_conduct_in_readme() -> (r: [&'static str; 3])
    ensures
        views(r@) == code_of_conduct_in_readme_patterns(),
{
    let r = [r"(?im)^#+.*code of conduct.*$", r"(?im)^code of conduct$", r"(?i)\[.*code of conduct.*\]\(.*\)"];
    proof {
        assert(views(r@) =~= code_of_conduct_in_readme_patterns());
    }
    r
}

/// Regular expressions looking for community meeting text.
pub open spec fn community_meeting_text_patterns() -> Seq<Seq<char>> {
    seq![r"(?im)^#+.*meeting.*$"@, r"(?i)(community|developer|development) \[?(call|event|meeting|session)"@, r"(?i)(weekly|biweekly|monthly) \[?meeting"@, r"(?i)meeting minutes"@]
}

/// Regular expressions looking for community meeting text.
pub fn community_meeting_text() -> (r: [&'static str; 4])
    ensures
        views(r@) == community_meeting_text_patterns(),
{
    let r = [r"(?im)^#+.*meeting.*$", r"(?i)(community|developer|development) \[?(call|event|meeting|session)", r"(?i)(weekly|biweekly|monthly) \[?meeting", r"(?i)meeting minutes"];
    proof {
        assert(views(r@) =~= community_meeting_text_patterns());
    }
    r
}

/// Regular expressions looking for contributing in readme.
pub open spec fn contributing_in_readme_patterns() -> Seq<Seq<char>> {
    seq![r"(?im)^#+.*contributing.*$"@, r"(?im)^contributing$"@, r"(?i)\[.*contributing.*\]\(.*\)"@]
}

/// Regular expressions looking for contributing in readme.
pub fn contributing_in_readme() -> (r: [&'static str; 3])
    ensures
        views(r@) == contributing_in_readme_patterns(),
{
    let r = [r"(?im)^#+.*contributing.*$", r"(?im)^contributing$", r"(?i)\[.*contributing.*\]\(.*\)"];
    proof {
        assert(views(r@) =~= contributing_in_readme_patterns());
    }
    r
}

/// Regular expressions looking for dco in gh.
pub open spec fn dco_in_gh_patterns() -> Seq<Seq<char>> {
    seq![r"(?i)dco"@]
}

/// Regular expressions looking for dco in gh.
pub fn dco_in_gh() -> (r: [&'static str; 1])
    ensures
        views(r@) == dco_in_gh_patterns(),
{
    let r = [r"(?i)dco"];
    proof {
        assert(views(r@) =~= dco_in_gh_patterns());
    }
    r
}

/// Regular expression capturing fossa url.
pub open spec fn fossa_url_patterns() -> Seq<Seq<char>> {
    seq![r#"(https://app.fossa.(?:io|com)/projects/[^"'\)]+)"#@]
}

/// Regular expression capturing fossa url.
pub fn fossa_url() -> (r: [&'static str; 1])
    ensures
        views(r@) == fossa_url_patterns(),
{
    let r = [r#"(https://app.fossa.(?:io|com)/projects/[^"'\)]+)"#];
    proof {
        assert(views(r@) =~= fossa_url_patterns());
    }
    r
}

/// Regular expression capturing github repo url.
pub open spec fn github_repo_url_patterns() -> Seq<Seq<char>> {
    seq!["^https://github.com/(?P<org>[^/]+)/(?P<repo>[^/]+)/?$"@]
}

/// Regular expression capturing github repo url.
pub fn github_repo_url() -> (r: [&'static str; 1])
    ensures
        views(r@) == github_repo_url_patterns(),
{
    let r = ["^https://github.com/(?P<org>[^/]+)/(?P<repo>[^/]+)/?$"];
    proof {
        assert(views(r@) =~= github_repo_url_patterns());
    }
    r
}

/// Regular expressions looking for governance in readme.
pub open spec fn governance_in_readme_patterns() -> Seq<Seq<char>> {
    seq![r"(?im)^#+.*governance.*$"@, r"(?im)^governance$"@, r"(?i)\[.*governance.*\]\(.*\)"@]
}

/// Regular expressions looking for governance in readme.
pub fn governance_in_readme() -> (r: [&'static str; 3])
    ensures
        views(r@) == governance_in_readme_patterns(),
{
    let r = [r"(?im)^#+.*governance.*$", r"(?im)^governance$", r"(?i)\[.*governance.*\]\(.*\)"];
    proof {
        assert(views(r@) =~= governance_in_readme_patterns());
    }
    r
}

/// Regular expressions looking for maintainers in readme.
pub open spec fn maintainers_in_readme_patterns() -> Seq<Seq<char>> {
    seq![r"(?im)^#+.*maintainers.*$"@, r"(?im)^maintainers$"@, r"(?i)\[.*maintainers.*\]\(.*\)"@]
}

/// Regular expressions looking for maintainers in readme.
pub fn maintainers_in_readme() -> (r: [&'static str; 3])
    ensures
        views(r@) == maintainers_in_readme_patterns(),
{
    let r = [r"(?im)^#+.*maintainers.*$", r"(?im)^maintainers$", r"(?i)\[.*maintainers.*\]\(.*\)"];
    proof {
        assert(views(r@) =~= maintainers_in_readme_patterns());
    }
    r
}

/// Regular expression capturing openssf url.
pub open spec fn openssf_url_patterns() -> Seq<Seq<char>> {
    seq![r"(https://bestpractices.coreinfrastructure.org/projects/\d+)"@]
}

/// Regular expression capturing openssf url.
pub fn openssf_url() -> (r: [&'static str; 1])
    ensures
        views(r@) == openssf_url_patterns(),
{
    let r = [r"(https://bestpractices.coreinfrastructure.org/projects/\d+)"];
    proof {
        assert(views(r@) =~= openssf_url_patterns());
    }
    r
}

/// Regular expressions looking for roadmap in readme.
pub open spec fn roadmap_in_readme_patterns() -> Seq<Seq<char>> {
    seq![r"(?im)^#+.*roadmap.*$"@, r"(?im)^roadmap$"@, r"(?i)\[.*roadmap.*\]\(.*\)"@]
}

/// Regular expressions looking for roadmap in readme.
pub fn roadmap_in_readme() -> (r: [&'static str; 3])
    ensures
        views(r@) == roadmap_in_readme_patterns(),
{
    let r = [r"(?im)^#+.*roadmap.*$", r"(?im)^roadmap$", r"(?i)\[.*roadmap.*\]\(.*\)"];
    proof {
        assert(views(r@) =~= roadmap_in_readme_patterns());
    }
    r
}

/// Regular expressions looking for sbom in gh release.
pub open spec fn sbom_in_gh_release_patterns() -> Seq<Seq<char>> {
    seq![r"(?i)sbom"@]
}

/// Regular expressions looking for sbom in gh release.
pub fn sbom_in_gh_release() -> (r: [&'static str; 1])
    ensures
        views(r@) == sbom_in_gh_release_patterns(),
{
    let r = [r"(?i)sbom"];
    proof {
        assert(views(r@) =~= sbom_in_gh_release_patterns());
    }
    r
}

/// Regular expressions looking for sbom in readme.
pub open spec fn sbom_in_readme_patterns() -> Seq<Seq<char>> {
    seq![r"(?im)^#+.*sbom.*$"@, r"(?im)^#+.*software bill of materials.*$"@, r"(?im)^sbom$"@, r"(?im)^software bill of materials$"@]
}

/// Regular expressions looking for sbom in readme.
pub fn sbom_in_readme() -> (r: [&'static str; 4])
    ensures
        views(r@) == sbom_in_readme_patterns(),
{
    let r = [r"(?im)^#+.*sbom.*$", r"(?im)^#+.*software bill of materials.*$", r"(?im)^sbom$", r"(?im)^software bill of materials$"];
    proof {
        assert(views(r@) =~= sbom_in_readme_patterns());
    }
    r
}

/// Regular expressions looking for security policy in readme.
pub open spec fn security_policy_in_readme_patterns() -> Seq<Seq<char>> {
    seq![r"(?im)^#+.*security.*$"@, r"(?im)^security$"@, r"(?i)\[.*security.*\]\(.*\)"@]
}

/// Regular expressions looking for security policy in readme.
pub fn security_policy_in_readme() -> (r: [&'static str; 3])
    ensures
        views(r@) == security_policy_in_readme_patterns(),
{
    let r = [r"(?im)^#+.*security.*$", r"(?im)^security$", r"(?i)\[.*security.*\]\(.*\)"];
    proof {
        assert(views(r@) =~= security_policy_in_readme_patterns());
    }
    r
}

/// Regular expressions looking for slack in readme.
pub open spec fn slack_in_readme_patterns() -> Seq<Seq<char>> {
    seq![r"(?i)https?://cloud-native.slack.com"@, r"(?i)https?://slack.cncf.io"@, r"(?i)https?://kubernetes.slack.com"@, r"(?i)https?://slack.k8s.io"@]
}

/// Regular expressions looking for slack in readme.
pub fn slack_in_readme() -> (r: [&'static str; 4])
    ensures
        views(r@) == slack_in_readme_patterns(),
{
    let r = [r"(?i)https?://cloud-native.slack.com", r"(?i)https?://slack.cncf.io", r"(?i)https?://kubernetes.slack.com", r"(?i)https?://slack.k8s.io"];
    proof {
        assert(views(r@) =~= slack_in_readme_patterns());
    }
    r
}

/// Regular expression capturing snyk url.
pub open spec fn snyk_url_patterns() -> Seq<Seq<char>> {
    seq![r#"(https://snyk.io/test/github/[^/]+/[^/"]+)"#@]
}

/// Regular expression capturing snyk url.
pub fn snyk_url() -> (r: [&'static str; 1])
    ensures
        views(r@) == snyk_url_patterns(),
{
    let r = [r#"(https://snyk.io/test/github/[^/]+/[^/"]+)"#];
    proof {
        assert(views(r@) =~= snyk_url_patterns());
    }
    r
}

/// Regular expressions looking for trademark disclaimer in website.
pub open spec fn trademark_disclaimer_in_website_patterns() -> Seq<Seq<char>> {
    seq![r"https://(?:w{3}\.)?linuxfoundation.org/trademark-usage"@, r"The Linux Foundation.* has registered trademarks and uses trademarks"@]
}

/// Regular expressions looking for trademark disclaimer in website.
pub fn trademark_disclaimer_in_website() -> (r: [&'static str; 2])
    ensures
        views(r@) == trademark_disclaimer_in_website_patterns(),
{
    let r = [r"https://(?:w{3}\.)?linuxfoundation.org/trademark-usage", r"The Linux Foundation.* has registered trademarks and uses trademarks"];
    proof {
        assert(views(r@) =~= trademark_disclaimer_in_website_patterns());
    }
    r
}

} // verus!
