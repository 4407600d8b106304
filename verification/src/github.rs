//! GitHub repository metadata and the decisions taken from it.

use vstd::prelude::*;

use crate::matching::{self, any_matches, named_group, views};
use crate::text;

verus! {

/// Kind of account owning a repository.
#[derive(Debug, Clone, Copy, PartialEq, Eq, Structural)]
pub enum MdRepositoryOwnerOn {
    Organization,
    User,
}

/// Repository owner.
#[derive(Debug, Clone, PartialEq)]
pub struct MdRepositoryOwner {
    pub login: String,
    pub on: MdRepositoryOwnerOn,
}

/// Default branch reference.
#[derive(Debug, Clone, PartialEq)]
pub struct MdRepositoryDefaultBranchRef {
    pub name: String,
}

/// Code of conduct detected by GitHub.
#[derive(Debug, Clone, PartialEq)]
pub struct MdRepositoryCodeOfConduct {
    pub url: Option<String>,
}

/// License detected by GitHub.
#[derive(Debug, Clone, PartialEq)]
pub struct MdRepositoryLicenseInfo {
    pub spdx_id: Option<String>,
}

/// A repository discussion.
#[derive(Debug, Clone, PartialEq)]
pub struct MdRepositoryDiscussionsNodes {
    pub created_at: String,
    pub url: String,
}

/// Latest repository discussions.
#[derive(Debug, Clone, PartialEq)]
pub struct MdRepositoryDiscussions {
    pub nodes: Option<Vec<Option<MdRepositoryDiscussionsNodes>>>,
}

/// A release asset.
#[derive(Debug, Clone, PartialEq)]
pub struct MdRepositoryReleasesNodesReleaseAssetsNodes {
    pub name: String,
}

/// Assets of a release.
#[derive(Debug, Clone, PartialEq)]
pub struct MdRepositoryReleasesNodesReleaseAssets {
    pub nodes: Option<Vec<Option<MdRepositoryReleasesNodesReleaseAssetsNodes>>>,
}

/// A repository release.
#[derive(Debug, Clone, PartialEq)]
pub struct MdRepositoryReleasesNodes {
    pub created_at: String,
    pub description: Option<String>,
    pub is_latest: bool,
    pub is_prerelease: bool,
    pub release_assets: MdRepositoryReleasesNodesReleaseAssets,
    pub url: String,
}

/// Latest repository releases.
#[derive(Debug, Clone, PartialEq)]
pub struct MdRepositoryReleases {
    pub nodes: Option<Vec<Option<MdRepositoryReleasesNodes>>>,
}

/// A check run.
#[derive(Debug, Clone, PartialEq)]
pub struct MdCheckRun {
    pub name: String,
}

/// Check runs of a check suite.
#[derive(Debug, Clone, PartialEq)]
pub struct MdCheckRuns {
    pub nodes: Option<Vec<Option<MdCheckRun>>>,
}

/// App that created a check suite.
#[derive(Debug, Clone, PartialEq)]
pub struct MdCheckSuiteApp {
    pub name: String,
}

/// A check suite.
#[derive(Debug, Clone, PartialEq)]
pub struct MdCheckSuite {
    pub app: Option<MdCheckSuiteApp>,
    pub check_runs: Option<MdCheckRuns>,
}

/// Check suites of a commit.
#[derive(Debug, Clone, PartialEq)]
pub struct MdCheckSuites {
    pub nodes: Option<Vec<Option<MdCheckSuite>>>,
}

/// A commit status context.
#[derive(Debug, Clone, PartialEq)]
pub struct MdStatusContext {
    pub context: String,
}

/// Commit status.
#[derive(Debug, Clone, PartialEq)]
pub struct MdStatus {
    pub contexts: Vec<MdStatusContext>,
}

/// A commit.
#[derive(Debug, Clone, PartialEq)]
pub struct MdCommit {
    pub check_suites: Option<MdCheckSuites>,
    pub status: Option<MdStatus>,
}

/// A pull request commit.
#[derive(Debug, Clone, PartialEq)]
pub struct MdPullRequestCommit {
    pub commit: MdCommit,
}

/// Commits of a pull request.
#[derive(Debug, Clone, PartialEq)]
pub struct MdPullRequestCommits {
    pub nodes: Option<Vec<Option<MdPullRequestCommit>>>,
}

/// A pull request.
#[derive(Debug, Clone, PartialEq)]
pub struct MdPullRequest {
    pub commits: MdPullRequestCommits,
}

/// Latest pull requests.
#[derive(Debug, Clone, PartialEq)]
pub struct MdPullRequests {
    pub nodes: Option<Vec<Option<MdPullRequest>>>,
}

/// Repository metadata obtained from the GitHub GraphQL API.
#[derive(Debug, Clone, PartialEq)]
pub struct MdRepository {
    pub name: String,
    pub owner: MdRepositoryOwner,
    pub default_branch_ref: Option<MdRepositoryDefaultBranchRef>,
    pub homepage_url: Option<String>,
    pub code_of_conduct: Option<MdRepositoryCodeOfConduct>,
    pub license_info: Option<MdRepositoryLicenseInfo>,
    pub security_policy_url: Option<String>,
    pub discussions: MdRepositoryDiscussions,
    pub releases: MdRepositoryReleases,
    pub pull_requests: MdPullRequests,
}

impl Default for MdRepository {
    /// Metadata with every field empty.
    fn default() -> (r: MdRepository)
        ensures
            r.name@ == Seq::<char>::empty(),
            r.owner.login@ == Seq::<char>::empty(),
            r.owner.on == MdRepositoryOwnerOn::Organization,
            r.default_branch_ref is None,
            r.homepage_url is None,
            r.code_of_conduct is None,
            r.license_info is None,
            r.security_policy_url is None,
            r.discussions.nodes is None,
            r.releases.nodes is None,
            r.pull_requests.nodes is None,
    {
        MdRepository::new_empty()
    }
}

impl MdRepository {
    /// Metadata with every field empty.
    pub fn new_empty() -> (r: MdRepository)
        ensures
            r.name@ == Seq::<char>::empty(),
            r.owner.login@ == Seq::<char>::empty(),
            r.owner.on == MdRepositoryOwnerOn::Organization,
            r.default_branch_ref is None,
            r.homepage_url is None,
            r.code_of_conduct is None,
            r.license_info is None,
            r.security_policy_url is None,
            r.discussions.nodes is None,
            r.releases.nodes is None,
            r.pull_requests.nodes is None,
    {
        MdRepository {
            name: String::new(),
            owner: MdRepositoryOwner { login: String::new(), on: MdRepositoryOwnerOn::Organization },
            default_branch_ref: None,
            homepage_url: None,
            code_of_conduct: None,
            license_info: None,
            security_policy_url: None,
            discussions: MdRepositoryDiscussions { nodes: None },
            releases: MdRepositoryReleases { nodes: None },
            pull_requests: MdPullRequests { nodes: None },
        }
    }
}

/// `https://github.com/{owner}/{repo}/blob/{branch}/{path}`.
pub open spec fn file_url(path: Seq<char>, owner: Seq<char>, repo: Seq<char>, branch: Seq<char>) -> Seq<
    char,
> {
    "https://github.com/"@ + owner + "/"@ + repo + "/blob/"@ + branch + "/"@ + path
}

/// Build a url from the path and metadata provided.
pub fn build_url(path: &str, owner: &str, repo: &str, branch: &str) -> (r: String)
    ensures
        r@ == file_url(path@, owner@, repo@, branch@),
{
    let mut r = text::to_owned_string("https://github.com/");
    text::push_str(&mut r, owner);
    text::push_str(&mut r, "/");
    text::push_str(&mut r, repo);
    text::push_str(&mut r, "/blob/");
    text::push_str(&mut r, branch);
    text::push_str(&mut r, "/");
    text::push_str(&mut r, path);
    r
}

/// Default branch name: the one referenced, or `master`.
pub open spec fn default_branch_name(r: Option<MdRepositoryDefaultBranchRef>) -> Seq<char> {
    match r {
        Some(r) => r.name@,
        None => "master"@,
    }
}

/// Returns the default branch to use from the default branch reference
/// provided.
pub fn default_branch(r: Option<&MdRepositoryDefaultBranchRef>) -> (b: String)
    ensures
        b@ == default_branch_name(
            match r {
                Some(r) => Some(*r),
                None => None,
            },
        ),
{
    match r {
        Some(r) => r.name.clone(),
        None => text::to_owned_string("master"),
    }
}

/// Url of a file in the repository described by the metadata provided.
pub open spec fn repo_file_url(path: Seq<char>, md: MdRepository) -> Seq<char> {
    file_url(path, md.owner.login@, md.name@, default_branch_name(md.default_branch_ref))
}

/// Build the url of a file in the repository described by the metadata.
pub fn build_repo_url(path: &str, md: &MdRepository) -> (r: String)
    ensures
        r@ == repo_file_url(path@, *md),
{
    let branch = default_branch(md.default_branch_ref.as_ref());
    build_url(path, md.owner.login.as_str(), md.name.as_str(), branch.as_str())
}

/// Pattern of a GitHub repository url.
pub open spec fn github_repo_url_pattern() -> Seq<char> {
    "^https://github.com/(?P<org>[^/]+)/(?P<repo>[^/]+)/?$"@
}

/// Does the url look like a GitHub repository url.
pub fn is_github_repo_url(url: &str) -> (r: bool)
    ensures
        r == any_matches(seq![github_repo_url_pattern()], url@),
{
    let ps: [&str; 1] = ["^https://github.com/(?P<org>[^/]+)/(?P<repo>[^/]+)/?$"];
    proof {
        assert(views(ps@) =~= seq![github_repo_url_pattern()]);
    }
    matching::matches_any(&ps, url)
}

/// Owner and repository named in the url, when it is a GitHub repository url.
pub open spec fn owner_and_repo(url: Seq<char>) -> Option<(Seq<char>, Seq<char>)> {
    let org = named_group(github_repo_url_pattern(), url, "org"@);
    let repo = named_group(github_repo_url_pattern(), url, "repo"@);
    if org is Some && repo is Some {
        Some((org->0, repo->0))
    } else {
        None
    }
}

/// Extract the owner and repository from the repository url provided.
pub fn get_owner_and_repo(repo_url: &str) -> (r: Result<(String, String), String>)
    ensures
        r is Ok <==> owner_and_repo(repo_url@) is Some,
        r matches Ok((o, p)) ==> owner_and_repo(repo_url@) == Some((o@, p@)),
        r matches Err(e) ==> e@ == "invalid repository url"@,
{
    let pattern = "^https://github.com/(?P<org>[^/]+)/(?P<repo>[^/]+)/?$";
    let org = matching::capture_named_group(pattern, repo_url, "org");
    let repo = matching::capture_named_group(pattern, repo_url, "repo");
    match (org, repo) {
        (Some(o), Some(p)) => Ok((o, p)),
        _ => Err(text::to_owned_string("invalid repository url")),
    }
}


/// First element of an optional list, when present and not null.
pub open spec fn first_node<T>(nodes: Option<Vec<Option<T>>>) -> Option<T> {
    match nodes {
        Some(v) => if v@.len() > 0 {
            v@[0]
        } else {
            None
        },
        None => None,
    }
}

/// Head commit of the latest pull request.
pub open spec fn latest_pr_head_commit(md: MdRepository) -> Option<MdCommit> {
    match first_node(md.pull_requests.nodes) {
        Some(pr) => match first_node(pr.commits.nodes) {
            Some(c) => Some(c.commit),
            None => None,
        },
        None => None,
    }
}

/// The check suite app name matches.
pub open spec fn suite_app_matches(ps: Seq<Seq<char>>, s: MdCheckSuite) -> bool {
    s.app matches Some(app) && any_matches(ps, app.name@)
}

/// The check run is present and its name matches.
pub open spec fn run_matches(ps: Seq<Seq<char>>, n: Option<MdCheckRun>) -> bool {
    n matches Some(run) && any_matches(ps, run.name@)
}

/// The check suite is present and its app name matches.
pub open spec fn suite_node_app_matches(ps: Seq<Seq<char>>, n: Option<MdCheckSuite>) -> bool {
    n matches Some(s) && suite_app_matches(ps, s)
}

/// The check suite is present and one of its check runs matches.
pub open spec fn suite_node_runs_match(ps: Seq<Seq<char>>, n: Option<MdCheckSuite>) -> bool {
    n matches Some(s) && suite_runs_match(ps, s)
}

/// A check run of the suite matches.
pub open spec fn suite_runs_match(ps: Seq<Seq<char>>, s: MdCheckSuite) -> bool {
    s.check_runs matches Some(runs) && runs.nodes matches Some(nodes) && exists|i: int|
        0 <= i < nodes@.len() && run_matches(ps, #[trigger] nodes@[i])
}

/// Check suites of a commit, when listed.
pub open spec fn commit_suites(c: MdCommit) -> Seq<Option<MdCheckSuite>> {
    match c.check_suites {
        Some(suites) => match suites.nodes {
            Some(nodes) => nodes@,
            None => Seq::empty(),
        },
        None => Seq::empty(),
    }
}

/// Does the commit have a check (suite app, check run or status context)
/// matching the patterns.
pub open spec fn commit_has_check(ps: Seq<Seq<char>>, c: MdCommit) -> bool {
    ||| exists|i: int|
        0 <= i < commit_suites(c).len() && suite_node_app_matches(ps, #[trigger] commit_suites(c)[i])
    ||| exists|i: int|
        0 <= i < commit_suites(c).len() && suite_node_runs_match(ps, #[trigger] commit_suites(c)[i])
    ||| c.status matches Some(st) && exists|i: int|
        0 <= i < st.contexts@.len() && any_matches(ps, #[trigger] st.contexts@[i].context@)
}

/// Does the head commit of the latest pull request have a check matching the
/// patterns.
pub open spec fn repo_has_check(ps: Seq<Seq<char>>, md: MdRepository) -> bool {
    latest_pr_head_commit(md) matches Some(c) && commit_has_check(ps, c)
}

/// Does any check run of the suite match the patterns.
fn suite_runs_match_exec(ps: &[&str], s: &MdCheckSuite) -> (r: bool)
    ensures
        r == suite_runs_match(views(ps@), *s),
{
    let runs = match &s.check_runs {
        Some(runs) => runs,
        None => return false,
    };
    let nodes = match &runs.nodes {
        Some(nodes) => nodes,
        None => return false,
    };
    let mut i: usize = 0;
    while i < nodes.len()
        invariant
            i <= nodes@.len(),
            s.check_runs == Some(*runs),
            runs.nodes == Some(*nodes),
            forall|j: int|
                0 <= j < i ==> !run_matches(views(ps@), #[trigger] nodes@[j]),
        decreases nodes@.len() - i,
    {
        if let Some(run) = &nodes[i] {
            if matching::matches_any(ps, run.name.as_str()) {
                assert(run_matches(views(ps@), nodes@[i as int]));
                assert(s.check_runs->0.nodes->0 == *nodes);
                assert(exists|k: int| 0 <= k < nodes@.len() && run_matches(views(ps@), #[trigger] nodes@[k]));
                assert(suite_runs_match(views(ps@), *s));
                return true;
            }
        }
        i = i + 1;
    }
    false
}

/// Does the commit have a check matching the patterns.
fn commit_has_check_exec(ps: &[&str], c: &MdCommit) -> (r: bool)
    ensures
        r == commit_has_check(views(ps@), *c),
{
    let ghost suites = commit_suites(*c);
    let empty: Vec<Option<MdCheckSuite>> = Vec::new();
    let nodes: &Vec<Option<MdCheckSuite>> = match &c.check_suites {
        Some(cs) => match &cs.nodes {
            Some(nodes) => nodes,
            None => &empty,
        },
        None => &empty,
    };
    assert(nodes@ == suites);
    // Check suites apps name
    let mut i: usize = 0;
    while i < nodes.len()
        invariant
            i <= nodes@.len(),
            nodes@ == suites,
            suites == commit_suites(*c),
            forall|j: int|
                0 <= j < i ==> !suite_node_app_matches(views(ps@), #[trigger] suites[j]),
        decreases nodes@.len() - i,
    {
        if let Some(s) = &nodes[i] {
            if let Some(app) = &s.app {
                if matching::matches_any(ps, app.name.as_str()) {
                    assert(suite_node_app_matches(views(ps@), suites[i as int]));
                    assert(exists|k: int|
                        0 <= k < suites.len() && suite_node_app_matches(views(ps@), #[trigger] suites[k]));
                    assert(commit_has_check(views(ps@), *c));
                    return true;
                }
            }
        }
        i = i + 1;
    }
    // Check runs name
    let mut i: usize = 0;
    while i < nodes.len()
        invariant
            i <= nodes@.len(),
            nodes@ == suites,
            suites == commit_suites(*c),
            forall|j: int|
                0 <= j < i ==> !suite_node_runs_match(views(ps@), #[trigger] suites[j]),
        decreases nodes@.len() - i,
    {
        if let Some(s) = &nodes[i] {
            if suite_runs_match_exec(ps, s) {
                assert(suite_node_runs_match(views(ps@), suites[i as int]));
                assert(exists|k: int|
                    0 <= k < suites.len() && suite_node_runs_match(views(ps@), #[trigger] suites[k]));
                assert(commit_has_check(views(ps@), *c));
                return true;
            }
        }
        i = i + 1;
    }
    // Commit statuses context
    if let Some(st) = &c.status {
        let mut i: usize = 0;
        while i < st.contexts.len()
            invariant
                i <= st.contexts@.len(),
                c.status == Some(*st),
                forall|j: int|
                    0 <= j < i ==> !any_matches(views(ps@), #[trigger] st.contexts@[j].context@),
            decreases st.contexts@.len() - i,
        {
            if matching::matches_any(ps, st.contexts[i].context.as_str()) {
                assert(any_matches(views(ps@), st.contexts@[i as int].context@));
                assert(c.status->0 == *st);
                assert(exists|k: int|
                    0 <= k < st.contexts@.len() && any_matches(views(ps@), #[trigger] st.contexts@[k].context@));
                assert(commit_has_check(views(ps@), *c));
                return true;
            }
            i = i + 1;
        }
    }
    false
}

/// Check if the repo has a check in the latest PR that matches any of the
/// patterns provided.
pub fn has_check(md: &MdRepository, ps: &[&str]) -> (r: bool)
    ensures
        r == repo_has_check(views(ps@), *md),
{
    let prs = match &md.pull_requests.nodes {
        Some(prs) => prs,
        None => return false,
    };
    if prs.len() == 0 {
        return false;
    }
    let pr = match &prs[0] {
        Some(pr) => pr,
        None => return false,
    };
    let commits = match &pr.commits.nodes {
        Some(commits) => commits,
        None => return false,
    };
    if commits.len() == 0 {
        return false;
    }
    match &commits[0] {
        Some(c) => commit_has_check_exec(ps, &c.commit),
        None => false,
    }
}


/// The release node is present and marked as the latest release.
pub open spec fn is_latest_node(n: Option<MdRepositoryReleasesNodes>) -> bool {
    n matches Some(r) && r.is_latest
}

/// Latest release: the first release listed that is marked as the latest
/// one.
pub open spec fn latest_release_of(md: MdRepository) -> Option<MdRepositoryReleasesNodes> {
    match md.releases.nodes {
        Some(nodes) => if exists|i: int| 0 <= i < nodes@.len() && is_latest_node(#[trigger] nodes@[i]) {
            nodes@[choose|i: int|
                0 <= i < nodes@.len() && is_latest_node(nodes@[i]) && forall|j: int|
                    0 <= j < i ==> !is_latest_node(#[trigger] nodes@[j])]
        } else {
            None
        },
        None => None,
    }
}

/// Return the latest release of the repository, when available.
pub fn latest_release(md: &MdRepository) -> (r: Option<&MdRepositoryReleasesNodes>)
    ensures
        r matches Some(rel) ==> latest_release_of(*md) == Some(*rel),
        r is None ==> latest_release_of(*md) is None,
{
    let nodes = match &md.releases.nodes {
        Some(nodes) => nodes,
        None => return None,
    };
    let mut i: usize = 0;
    while i < nodes.len()
        invariant
            i <= nodes@.len(),
            md.releases.nodes == Some(*nodes),
            forall|j: int| 0 <= j < i ==> !is_latest_node(#[trigger] nodes@[j]),
        decreases nodes@.len() - i,
    {
        if let Some(r) = &nodes[i] {
            if r.is_latest {
                proof {
                    assert(is_latest_node(nodes@[i as int]));
                    let c = choose|k: int|
                        0 <= k < nodes@.len() && is_latest_node(nodes@[k]) && forall|j: int|
                            0 <= j < k ==> !is_latest_node(#[trigger] nodes@[j]);
                    assert(forall|j: int| 0 <= j < i ==> !is_latest_node(#[trigger] nodes@[j]));
                    if c < i {
                        assert(!is_latest_node(nodes@[c]));
                    }
                    if c > i {
                        assert(!is_latest_node(nodes@[i as int]));
                    }
                }
                return Some(r);
            }
        }
        i = i + 1;
    }
    None
}

/// Does the latest release description match the patterns.
pub open spec fn latest_release_matches(md: MdRepository, ps: Seq<Seq<char>>) -> bool {
    latest_release_of(md) matches Some(r) && r.description matches Some(d) && any_matches(ps, d@)
}

/// Check if the latest release description matches any of the patterns
/// provided.
pub fn latest_release_description_matches(md: &MdRepository, ps: &[&str]) -> (r: bool)
    ensures
        r == latest_release_matches(*md, views(ps@)),
{
    match latest_release(md) {
        Some(rel) => match &rel.description {
            Some(d) => matching::matches_any(ps, d.as_str()),
            None => false,
        },
        None => false,
    }
}

/// Raw url of a default community health file in the owner's `.github`
/// repository.
pub open spec fn community_file_raw_url(file: Seq<char>, owner: Seq<char>) -> Seq<char> {
    "https://raw.githubusercontent.com/"@ + owner + "/.github/HEAD/"@ + file
}

/// Build the raw url used to check whether a default community health file
/// is available.
pub fn community_health_file_raw_url(file: &str, md: &MdRepository) -> (r: String)
    ensures
        r@ == community_file_raw_url(file@, md.owner.login@),
{
    let mut r = text::to_owned_string("https://raw.githubusercontent.com/");
    text::push_str(&mut r, md.owner.login.as_str());
    text::push_str(&mut r, "/.github/HEAD/");
    text::push_str(&mut r, file);
    r
}

/// Url reported for a default community health file, given whether its raw
/// url answered with a success status.
pub fn community_health_file_url(file: &str, md: &MdRepository, found: bool) -> (r: Option<String>)
    ensures
        found ==> (r matches Some(u) && u@ == file_url(file@, md.owner.login@, ".github"@, "HEAD"@)),
        !found ==> r is None,
{
    if found {
        Some(build_url(file, md.owner.login.as_str(), ".github", "HEAD"))
    } else {
        None
    }
}

} // verus!
