//! OpenSSF Security Insights datasource: the manifest versions the checks
//! read, the minimum shape a version 2 manifest must have, and which of the
//! manifests found in a repository is used.
//!
//! Reading the manifest files and parsing their YAML happen outside this
//! library; it receives, for each supported location where a file was
//! found, what could be parsed from it.

use vstd::prelude::*;

use crate::text;

verus! {

/// Error reported for a manifest that cannot be used.
pub open spec fn invalid_manifest_message() -> Seq<char> {
    "invalid security insights manifest"@
}

/// Version 2 manifest: high-level information about the manifest.
#[derive(Debug, Clone, PartialEq)]
pub struct Header {
    pub last_reviewed: String,
    pub last_updated: String,
    pub schema_version: String,
    pub url: String,
}

/// Version 2 manifest: contact information.
#[derive(Debug, Clone, PartialEq)]
pub struct Contact {
    pub name: String,
    pub primary: bool,
}

/// Version 2 manifest: license information.
#[derive(Debug, Clone, PartialEq)]
pub struct License {
    pub expression: String,
    pub url: String,
}

/// Version 2 manifest: project repository information.
#[derive(Debug, Clone, PartialEq)]
pub struct ProjectRepository {
    pub comment: String,
    pub name: String,
    pub url: String,
}

/// Version 2 manifest: vulnerability reporting information.
#[derive(Debug, Clone, PartialEq)]
pub struct VulnerabilityReporting {
    pub bug_bounty_available: bool,
    pub reports_accepted: bool,
}

/// Version 2 manifest: high-level information about the project.
#[derive(Debug, Clone, PartialEq)]
pub struct Project {
    pub administrators: Vec<Contact>,
    pub name: String,
    pub repositories: Vec<ProjectRepository>,
    pub vulnerability_reporting: VulnerabilityReporting,
}

/// Version 2 manifest: assessment information.
#[derive(Debug, Clone, PartialEq)]
pub struct Assessment {
    pub comment: String,
}

/// Version 2 manifest: assessments information.
#[derive(Debug, Clone, PartialEq)]
pub struct Assessments {
    pub self_assessment: Assessment,
}

/// Version 2 manifest: security posture information.
#[derive(Debug, Clone, PartialEq)]
pub struct SecurityPosture {
    pub assessments: Assessments,
}

/// Version 2 manifest: repository documentation information.
#[derive(Debug, Clone, PartialEq)]
pub struct RepositoryDocumentation {
    pub dependency_management_policy: Option<String>,
}

/// Version 2 manifest: repository information.
#[derive(Debug, Clone, PartialEq)]
pub struct Repository {
    pub accepts_automated_change_request: bool,
    pub accepts_change_request: bool,
    pub core_team: Vec<Contact>,
    pub license: License,
    pub security: SecurityPosture,
    pub status: String,
    pub url: String,
    pub documentation: Option<RepositoryDocumentation>,
}

/// OpenSSF Security Insights version 2 manifest (the fields the checks use
/// and the minimum required shape).
#[derive(Debug, Clone, PartialEq)]
pub struct SecurityInsightsV2 {
    pub header: Header,
    pub project: Option<Project>,
    pub repository: Option<Repository>,
}

/// Version 1 manifest: dependencies policy.
#[derive(Debug, Clone, PartialEq)]
pub struct EnvDependenciesPolicy {
    pub policy_url: Option<String>,
}

/// Version 1 manifest: dependencies information.
#[derive(Debug, Clone, PartialEq)]
pub struct Dependencies {
    pub env_dependencies_policy: Option<EnvDependenciesPolicy>,
}

/// OpenSSF Security Insights version 1 manifest (the fields the checks
/// use).
#[derive(Debug, Clone, PartialEq)]
pub struct SecurityInsightsV1 {
    pub dependencies: Option<Dependencies>,
}

/// The project description meets the required shape.
pub open spec fn project_valid(p: Project) -> bool {
    &&& p.name@.len() > 0
    &&& p.administrators@.len() > 0
    &&& forall|i: int| 0 <= i < p.administrators@.len() ==> (#[trigger] p.administrators@[i]).name@.len() > 0
    &&& p.repositories@.len() > 0
    &&& forall|i: int|
        0 <= i < p.repositories@.len() ==> {
            let r = #[trigger] p.repositories@[i];
            r.comment@.len() > 0 && r.name@.len() > 0 && r.url@.len() > 0
        }
}

/// The repository description meets the required shape.
pub open spec fn repository_valid(r: Repository) -> bool {
    &&& r.license.expression@.len() > 0
    &&& r.license.url@.len() > 0
    &&& r.security.assessments.self_assessment.comment@.len() > 0
    &&& r.status@.len() > 0
    &&& r.url@.len() > 0
    &&& r.core_team@.len() > 0
    &&& forall|i: int| 0 <= i < r.core_team@.len() ==> (#[trigger] r.core_team@[i]).name@.len() > 0
    &&& match r.documentation {
        Some(d) => match d.dependency_management_policy {
            Some(p) => p@.len() > 0,
            None => true,
        },
        None => true,
    }
}

/// The version 2 manifest meets the minimum required shape.
pub open spec fn v2_valid(m: SecurityInsightsV2) -> bool {
    &&& "2."@.is_prefix_of(m.header.schema_version@)
    &&& m.header.last_reviewed@.len() > 0
    &&& m.header.last_updated@.len() > 0
    &&& m.header.url@.len() > 0
    &&& (m.project is Some || m.repository is Some)
    &&& m.project matches Some(p) ==> project_valid(p)
    &&& m.repository matches Some(r) ==> repository_valid(r)
}

/// Are all the contacts named.
fn contacts_named(contacts: &Vec<Contact>) -> (r: bool)
    ensures
        r == forall|i: int| 0 <= i < contacts@.len() ==> (#[trigger] contacts@[i]).name@.len() > 0,
{
    let mut i: usize = 0;
    while i < contacts.len()
        invariant
            i <= contacts@.len(),
            forall|j: int| 0 <= j < i ==> (#[trigger] contacts@[j]).name@.len() > 0,
        decreases contacts@.len() - i,
    {
        if contacts[i].name.as_str().is_empty() {
            return false;
        }
        i = i + 1;
    }
    true
}

/// Does the project description meet the required shape.
fn project_is_valid(p: &Project) -> (r: bool)
    ensures
        r == project_valid(*p),
{
    if p.name.as_str().is_empty() || p.administrators.len() == 0 || !contacts_named(
        &p.administrators,
    ) || p.repositories.len() == 0 {
        return false;
    }
    let mut i: usize = 0;
    while i < p.repositories.len()
        invariant
            i <= p.repositories@.len(),
            forall|j: int|
                0 <= j < i ==> {
                    let r = #[trigger] p.repositories@[j];
                    r.comment@.len() > 0 && r.name@.len() > 0 && r.url@.len() > 0
                },
        decreases p.repositories@.len() - i,
    {
        let r = &p.repositories[i];
        if r.comment.as_str().is_empty() || r.name.as_str().is_empty() || r.url.as_str().is_empty() {
            return false;
        }
        i = i + 1;
    }
    true
}

/// Does the repository description meet the required shape.
fn repository_is_valid(r: &Repository) -> (v: bool)
    ensures
        v == repository_valid(*r),
{
    if r.license.expression.as_str().is_empty() || r.license.url.as_str().is_empty()
        || r.security.assessments.self_assessment.comment.as_str().is_empty()
        || r.status.as_str().is_empty() || r.url.as_str().is_empty() || r.core_team.len() == 0
        || !contacts_named(&r.core_team) {
        return false;
    }
    if let Some(d) = &r.documentation {
        if let Some(policy) = &d.dependency_management_policy {
            if policy.as_str().is_empty() {
                return false;
            }
        }
    }
    true
}

impl SecurityInsightsV2 {
    /// Check the manifest contains the minimum required version 2 structure.
    pub fn validate(&self) -> (r: Result<(), String>)
        ensures
            r is Ok <==> v2_valid(*self),
            r matches Err(e) ==> e@ == invalid_manifest_message(),
    {
        let ok = text::starts_with(self.header.schema_version.as_str(), "2.")
            && !self.header.last_reviewed.as_str().is_empty()
            && !self.header.last_updated.as_str().is_empty()
            && !self.header.url.as_str().is_empty() && (self.project.is_some()
            || self.repository.is_some()) && match &self.project {
            Some(p) => project_is_valid(p),
            None => true,
        } && match &self.repository {
            Some(r) => repository_is_valid(r),
            None => true,
        };
        if ok {
            Ok(())
        } else {
            Err(text::to_owned_string("invalid security insights manifest"))
        }
    }
}

/// Manifest version declared by `header.schema-version`.
#[derive(Debug, Clone, Copy, PartialEq, Eq, Structural)]
pub enum ManifestVersion {
    V1,
    V2,
}

/// Manifest version a schema version declares, if supported.
pub open spec fn version_of(schema_version: Seq<char>) -> Option<ManifestVersion> {
    if "1."@.is_prefix_of(schema_version) {
        Some(ManifestVersion::V1)
    } else if "2."@.is_prefix_of(schema_version) {
        Some(ManifestVersion::V2)
    } else {
        None
    }
}

/// Detect the manifest version from its `header.schema-version` field.
pub fn detect_manifest_version(schema_version: &str) -> (r: Result<ManifestVersion, String>)
    ensures
        match version_of(schema_version@) {
            Some(v) => r == Ok::<ManifestVersion, String>(v),
            None => r matches Err(e) && e@ == invalid_manifest_message(),
        },
{
    if text::starts_with(schema_version, "1.") {
        Ok(ManifestVersion::V1)
    } else if text::starts_with(schema_version, "2.") {
        Ok(ManifestVersion::V2)
    } else {
        Err(text::to_owned_string("invalid security insights manifest"))
    }
}

/// Version-specific manifest.
#[derive(Debug, Clone, PartialEq)]
pub enum Manifest {
    V1(SecurityInsightsV1),
    V2(SecurityInsightsV2),
}

/// OpenSSF Security Insights manifest used by the checks, with its path
/// relative to the repository root.
#[derive(Debug, Clone, PartialEq)]
pub struct SecurityInsights {
    pub manifest: Manifest,
    pub manifest_rel_path: String,
}

/// A manifest file found in one of the supported locations, with what could
/// be parsed from its content: the schema version of its header (none when
/// the header cannot be read) and the manifest read as each version (none
/// when it does not parse as that version).
#[derive(Debug, Clone, PartialEq)]
pub struct ManifestFile {
    pub rel_path: String,
    pub schema_version: Option<String>,
    pub v1: Option<SecurityInsightsV1>,
    pub v2: Option<SecurityInsightsV2>,
}

/// Primary manifest file name.
pub open spec fn primary_manifest_file() -> Seq<char> {
    "security-insights.yml"@
}

/// Supported manifest locations, in order of preference.
pub fn manifest_locations() -> (r: [&'static str; 3])
    ensures
        crate::matching::views(r@) == seq![
            "security-insights.yml"@,
            ".github/security-insights.yml"@,
            "SECURITY-INSIGHTS.yml"@,
        ],
{
    let r = ["security-insights.yml", ".github/security-insights.yml", "SECURITY-INSIGHTS.yml"];
    proof {
        assert(crate::matching::views(r@) =~= seq![
            "security-insights.yml"@,
            ".github/security-insights.yml"@,
            "SECURITY-INSIGHTS.yml"@,
        ]);
    }
    r
}

/// Outcome of scanning the manifest files from the index provided on, the
/// first version 1 manifest seen so far being given: the position and
/// version of the manifest used, none when no manifest was found, or an
/// error when a header cannot be read or declares an unsupported version,
/// when the first version 2 manifest found is invalid, or, with no version 2
/// manifest, when the first version 1 manifest does not parse.
pub open spec fn scan(files: Seq<ManifestFile>, i: int, first_v1: Option<int>) -> Result<
    Option<(int, ManifestVersion)>,
    (),
>
    decreases files.len() - i,
{
    if i < 0 || i >= files.len() {
        match first_v1 {
            Some(k) => if files[k].v1 is Some {
                Ok(Some((k, ManifestVersion::V1)))
            } else {
                Err(())
            },
            None => Ok(None),
        }
    } else {
        match files[i].schema_version {
            None => Err(()),
            Some(s) => match version_of(s@) {
                None => Err(()),
                Some(ManifestVersion::V1) => scan(
                    files,
                    i + 1,
                    if first_v1 is None {
                        Some(i)
                    } else {
                        first_v1
                    },
                ),
                Some(ManifestVersion::V2) => if files[i].v2 matches Some(m) && v2_valid(m) {
                    Ok(Some((i, ManifestVersion::V2)))
                } else {
                    Err(())
                },
            },
        }
    }
}

/// The manifest selected from the files provided.
pub open spec fn selection_outcome(
    files: Seq<ManifestFile>,
    r: Result<Option<SecurityInsights>, String>,
) -> bool {
    match scan(files, 0, None) {
        Err(()) => r matches Err(e) && e@ == invalid_manifest_message(),
        Ok(None) => r == Ok::<Option<SecurityInsights>, String>(None),
        Ok(Some((k, v))) => r matches Ok(Some(si)) && si.manifest_rel_path@ == files[k].rel_path@
            && match v {
            ManifestVersion::V1 => files[k].v1 matches Some(m) && si.manifest == Manifest::V1(m),
            ManifestVersion::V2 => files[k].v2 matches Some(m) && si.manifest == Manifest::V2(m),
        },
    }
}

/// Position and version of the manifest used among the files provided.
fn scan_files(files: &Vec<ManifestFile>) -> (r: Result<Option<(usize, ManifestVersion)>, String>)
    ensures
        match r {
            Err(e) => scan(files@, 0, None) is Err && e@ == invalid_manifest_message(),
            Ok(None) => scan(files@, 0, None) == Ok::<Option<(int, ManifestVersion)>, ()>(None),
            Ok(Some((k, v))) => scan(files@, 0, None) == Ok::<Option<(int, ManifestVersion)>, ()>(
                Some((k as int, v)),
            ) && k < files@.len() && match v {
                ManifestVersion::V1 => files@[k as int].v1 is Some,
                ManifestVersion::V2 => files@[k as int].v2 is Some,
            },
        },
{
    let mut first_v1: Option<usize> = None;
    let mut i: usize = 0;
    while i < files.len()
        invariant
            i <= files@.len(),
            scan(files@, 0, None) == scan(
                files@,
                i as int,
                match first_v1 {
                    Some(k) => Some(k as int),
                    None => None,
                },
            ),
            first_v1 matches Some(k) ==> k < i,
        decreases files@.len() - i,
    {
        let schema = match &files[i].schema_version {
            Some(s) => s,
            None => return Err(text::to_owned_string("invalid security insights manifest")),
        };
        match detect_manifest_version(schema.as_str()) {
            Ok(ManifestVersion::V1) => {
                // Store the first v1 manifest found in case no v2 manifest is found
                if first_v1.is_none() {
                    first_v1 = Some(i);
                }
            },
            Ok(ManifestVersion::V2) => {
                // Stop at the first v2 manifest found
                match &files[i].v2 {
                    Some(m) => match m.validate() {
                        Ok(()) => return Ok(Some((i, ManifestVersion::V2))),
                        Err(e) => return Err(e),
                    },
                    None => return Err(text::to_owned_string("invalid security insights manifest")),
                }
            },
            Err(e) => return Err(e),
        }
        i = i + 1;
    }
    // No v2 manifest found, fallback to v1 if available
    match first_v1 {
        Some(k) => if files[k].v1.is_some() {
            Ok(Some((k, ManifestVersion::V1)))
        } else {
            Err(text::to_owned_string("invalid security insights manifest"))
        },
        None => Ok(None),
    }
}

/// Select the manifest used among the files found in the supported
/// locations (given in order of preference): the first version 2 manifest
/// found, otherwise the first version 1 manifest found.
pub fn select_manifest(files: Vec<ManifestFile>) -> (r: Result<Option<SecurityInsights>, String>)
    ensures
        selection_outcome(files@, r),
{
    let ghost fs = files@;
    let position = scan_files(&files);
    let (k, version) = match position {
        Err(e) => return Err(e),
        Ok(None) => return Ok(None),
        Ok(Some(p)) => p,
    };
    let mut pool = files;
    let file = pool.remove(k);
    assert(file == fs[k as int]);
    match version {
        ManifestVersion::V1 => match file.v1 {
            Some(m) => Ok(
                Some(SecurityInsights { manifest: Manifest::V1(m), manifest_rel_path: file.rel_path }),
            ),
            None => Err(text::to_owned_string("invalid security insights manifest")),
        },
        ManifestVersion::V2 => match file.v2 {
            Some(m) => Ok(
                Some(SecurityInsights { manifest: Manifest::V2(m), manifest_rel_path: file.rel_path }),
            ),
            None => Err(text::to_owned_string("invalid security insights manifest")),
        },
    }
}

/// Dependencies policy url declared by the manifest, if any.
pub open spec fn dependencies_policy_of(si: SecurityInsights) -> Option<String> {
    match si.manifest {
        Manifest::V1(m) => match m.dependencies {
            Some(d) => match d.env_dependencies_policy {
                Some(p) => p.policy_url,
                None => None,
            },
            None => None,
        },
        Manifest::V2(m) => match m.repository {
            Some(r) => match r.documentation {
                Some(d) => d.dependency_management_policy,
                None => None,
            },
            None => None,
        },
    }
}

impl SecurityInsights {
    /// Return the dependencies policy url when it is available.
    pub fn dependencies_policy_url(&self) -> (r: Option<&String>)
        ensures
            match r {
                Some(u) => dependencies_policy_of(*self) == Some(*u),
                None => dependencies_policy_of(*self) is None,
            },
    {
        match &self.manifest {
            Manifest::V1(m) => match &m.dependencies {
                Some(d) => match &d.env_dependencies_policy {
                    Some(p) => match &p.policy_url {
                        Some(u) => Some(u),
                        None => None,
                    },
                    None => None,
                },
                None => None,
            },
            Manifest::V2(m) => match &m.repository {
                Some(r) => match &r.documentation {
                    Some(d) => match &d.dependency_management_policy {
                        Some(u) => Some(u),
                        None => None,
                    },
                    None => None,
                },
                None => None,
            },
        }
    }

    /// Return the relative path of the matched manifest.
    pub fn manifest_rel_path(&self) -> (r: &String)
        ensures
            *r == self.manifest_rel_path,
    {
        &self.manifest_rel_path
    }
}

/// The header declares version 2.
pub open spec fn declares_v2(f: ManifestFile) -> bool {
    f.schema_version matches Some(s) && version_of(s@) == Some(ManifestVersion::V2)
}

/// The header declares version 1.
pub open spec fn declares_v1(f: ManifestFile) -> bool {
    f.schema_version matches Some(s) && version_of(s@) == Some(ManifestVersion::V1)
}

proof fn lemma_scan_v1(files: Seq<ManifestFile>, i: int, first_v1: Option<int>, k: int)
    requires
        0 <= i,
        scan(files, i, first_v1) == Ok::<Option<(int, ManifestVersion)>, ()>(
            Some((k, ManifestVersion::V1)),
        ),
    ensures
        forall|j: int| i <= j < files.len() ==> !declares_v2(#[trigger] files[j]),
        first_v1 is None ==> i <= k < files.len() && declares_v1(files[k]) && forall|j: int|
            i <= j < k ==> !declares_v1(#[trigger] files[j]),
        first_v1 matches Some(f) ==> k == f,
    decreases files.len() - i,
{
    if i < files.len() {
        let next = if first_v1 is None {
            Some(i)
        } else {
            first_v1
        };
        lemma_scan_v1(files, i + 1, next, k);
    }
}

/// A version 1 manifest is used only when no manifest found declares
/// version 2, and it is the first one found.
pub proof fn lemma_v1_used_only_without_v2(files: Seq<ManifestFile>, k: int)
    requires
        scan(files, 0, None) == Ok::<Option<(int, ManifestVersion)>, ()>(
            Some((k, ManifestVersion::V1)),
        ),
    ensures
        forall|j: int| 0 <= j < files.len() ==> !declares_v2(#[trigger] files[j]),
        declares_v1(files[k]),
        forall|j: int| 0 <= j < k ==> !declares_v1(#[trigger] files[j]),
{
    lemma_scan_v1(files, 0, None, k);
}

proof fn lemma_scan_v2(files: Seq<ManifestFile>, i: int, first_v1: Option<int>, k: int)
    requires
        0 <= i,
        scan(files, i, first_v1) == Ok::<Option<(int, ManifestVersion)>, ()>(
            Some((k, ManifestVersion::V2)),
        ),
    ensures
        i <= k < files.len(),
        declares_v2(files[k]),
        files[k].v2 matches Some(m) && v2_valid(m),
        forall|j: int| i <= j < k ==> declares_v1(#[trigger] files[j]),
    decreases files.len() - i,
{
    if i < files.len() {
        if !declares_v2(files[i]) {
            let next = if first_v1 is None {
                Some(i)
            } else {
                first_v1
            };
            lemma_scan_v2(files, i + 1, next, k);
        }
    }
}

/// The version 2 manifest used is the first manifest found declaring
/// version 2, it is valid, and every manifest found before it declares
/// version 1.
pub proof fn lemma_first_v2_used(files: Seq<ManifestFile>, k: int)
    requires
        scan(files, 0, None) == Ok::<Option<(int, ManifestVersion)>, ()>(
            Some((k, ManifestVersion::V2)),
        ),
    ensures
        0 <= k < files.len(),
        declares_v2(files[k]),
        files[k].v2 matches Some(m) && v2_valid(m),
        forall|j: int| 0 <= j < k ==> declares_v1(#[trigger] files[j]),
{
    lemma_scan_v2(files, 0, None, k);
}

} // verus!
