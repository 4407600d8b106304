use clomonitor_core::badge::badge_config;
use clomonitor_core::check::{CheckOutput, Exemption, Metadata};
use clomonitor_core::checks::annual_review::{self, AnnualReview, ProjectInfo};
use clomonitor_core::checks::{
    adopters, agent_readiness, analytics, dco, github_discussions, license_approved,
    license_spdx_id, readme, recent_release, sbom, summary_table, website,
};
use clomonitor_core::github::{
    MdRepository, MdRepositoryDiscussionsNodes, MdRepositoryLicenseInfo, MdRepositoryOwner,
    MdRepositoryOwnerOn, MdRepositoryReleasesNodes, MdRepositoryReleasesNodesReleaseAssets,
    MdRepositoryReleasesNodesReleaseAssetsNodes,
};
use clomonitor_core::landscape::{Category, Item, ItemExtra, Landscape, SubCategory};
use clomonitor_core::registry::{plan_check, ran_check_output, CheckPlan, CheckSet};
use clomonitor_core::security_insights::{
    select_manifest, Assessment, Assessments, Contact, Dependencies, EnvDependenciesPolicy, Header,
    License, Manifest, ManifestFile, Project, ProjectRepository, Repository, RepositoryDocumentation, SecurityInsightsV1,
    SecurityInsightsV2, SecurityPosture, VulnerabilityReporting,
};

fn repo() -> MdRepository {
    MdRepository {
        name: "repo".to_string(),
        owner: MdRepositoryOwner {
            login: "owner".to_string(),
            on: MdRepositoryOwnerOn::Organization,
        },
        ..MdRepository::default()
    }
}

#[test]
fn adopters_check_prefers_file_then_readme() {
    let gh_md = repo();
    let readmes = vec!["# Project\n\n## Adopters\n".to_string()];
    assert_eq!(
        adopters::check(Some("ADOPTERS.md"), &gh_md, &readmes),
        CheckOutput::passed().url(Some(
            "https://github.com/owner/repo/blob/master/ADOPTERS.md".to_string()
        ))
    );
    assert_eq!(adopters::check(None, &gh_md, &readmes), CheckOutput::passed());
    assert_eq!(
        adopters::check(None, &gh_md, &vec!["# Project".to_string()]),
        CheckOutput::not_passed()
    );
}

#[test]
fn readme_check_reports_file_url() {
    assert_eq!(
        readme::check(Some("README.md"), &repo()).url.as_deref(),
        Some("https://github.com/owner/repo/blob/master/README.md")
    );
    assert!(!readme::check(None, &repo()).passed);
}

#[test]
fn analytics_check_lists_providers() {
    let content = "<script src=\"https://plausible.io/js/script.js\"></script> G-ABCDEFGHIJ";
    let output = analytics::check(Some(content));
    assert!(output.passed);
    assert_eq!(
        output.value,
        Some(vec!["GA4".to_string(), "Plausible".to_string()])
    );
    assert_eq!(
        output.details.as_deref(),
        Some("# Analytics providers detected in project's website \n\n· Google Analytics 4\n· Plausible Analytics\n")
    );
    assert_eq!(analytics::check(Some("nothing")), CheckOutput::not_passed());
    assert_eq!(analytics::check(None), CheckOutput::not_passed());
}

#[test]
fn agent_readiness_prefers_website_file() {
    let website = vec![
        ("https://example.org/llms.txt".to_string(), Some("<!DOCTYPE html>".to_string())),
        (
            "https://example.org/llms-full.txt".to_string(),
            Some("# Project\n\n- [Docs](https://example.org/docs.md)".to_string()),
        ),
    ];
    assert_eq!(
        agent_readiness::check(&website, Some("llms.txt"), &repo()).url.as_deref(),
        Some("https://example.org/llms-full.txt")
    );
    assert_eq!(
        agent_readiness::check(&vec![], Some("llms.txt"), &repo()).url.as_deref(),
        Some("https://github.com/owner/repo/blob/master/llms.txt")
    );
    assert!(!agent_readiness::check(&vec![], None, &repo()).passed);
    assert_eq!(
        agent_readiness::website_file_url("https://example.org//", "llms.txt"),
        "https://example.org/llms.txt"
    );
}

#[test]
fn license_checks() {
    let mut gh_md = repo();
    gh_md.license_info = Some(MdRepositoryLicenseInfo {
        spdx_id: Some("NOASSERTION".to_string()),
    });
    assert!(!license_spdx_id::check(None, &gh_md).passed);
    assert_eq!(
        license_spdx_id::check(Some("MIT".to_string()), &gh_md).value,
        Some("MIT".to_string())
    );
    gh_md.license_info = Some(MdRepositoryLicenseInfo {
        spdx_id: Some("Apache-2.0".to_string()),
    });
    assert_eq!(
        license_spdx_id::check(None, &gh_md).value,
        Some("Apache-2.0".to_string())
    );

    let sets = [CheckSet::Code];
    assert!(license_approved::check(&sets, None, Some("MIT".to_string())).unwrap().passed);
    assert!(!license_approved::check(&sets, None, Some("GPL-3.0".to_string())).unwrap().passed);
    assert!(license_approved::check(&[CheckSet::Community], None, None).is_none());
    let md = Metadata {
        exemptions: Some(vec![Exemption {
            check: "license_approved".to_string(),
            reason: "vendored".to_string(),
        }]),
        ..Metadata::default()
    };
    let output = license_approved::check(&sets, Some(&md), None).unwrap();
    assert!(output.exempt);
    assert_eq!(output.exemption_reason.as_deref(), Some("vendored"));
}

#[test]
fn recent_release_and_discussions() {
    let mut gh_md = repo();
    gh_md.releases.nodes = Some(vec![
        None,
        Some(MdRepositoryReleasesNodes {
            created_at: "2024-01-10T10:00:00Z".to_string(),
            description: Some("Changes".to_string()),
            is_latest: true,
            is_prerelease: false,
            release_assets: MdRepositoryReleasesNodesReleaseAssets {
                nodes: Some(vec![Some(MdRepositoryReleasesNodesReleaseAssetsNodes {
                    name: "app_sbom.spdx.json".to_string(),
                })]),
            },
            url: "https://github.com/owner/repo/releases/v1".to_string(),
        }),
    ]);
    // 2024-06-01T00:00:00Z
    let now = 1_717_200_000;
    assert_eq!(
        recent_release::check(&gh_md, now).unwrap().url.as_deref(),
        Some("https://github.com/owner/repo/releases/v1")
    );
    // Two years later
    assert!(!recent_release::check(&gh_md, now + 2 * 31_536_000).unwrap().passed);
    assert!(sbom::check(&gh_md, &vec![]).passed);

    gh_md.discussions.nodes = Some(vec![Some(MdRepositoryDiscussionsNodes {
        created_at: "not a date".to_string(),
        url: "https://github.com/owner/repo/discussions/1".to_string(),
    })]);
    assert!(github_discussions::check(&gh_md, now).is_err());
    assert!(!github_discussions::check(&repo(), now).unwrap().passed);
}

#[test]
fn dco_signatures() {
    let signed = Some("Fix\n\nSigned-off-by: Dev <dev@example.org>".to_string());
    let merge = Some("Merge pull request #1 from x/y".to_string());
    let unsigned = Some("Fix without signature".to_string());
    assert!(dco::commits_have_dco_signature(&vec![signed.clone(), merge.clone()]));
    assert!(!dco::commits_have_dco_signature(&vec![signed.clone(), unsigned.clone()]));
    assert!(!dco::commits_have_dco_signature(&vec![signed.clone(), None]));
    let mut many = vec![signed.clone(); 20];
    many.push(unsigned);
    assert!(dco::commits_have_dco_signature(&many));
    assert!(dco::check(Some(&vec![signed]), &repo()).passed);
    assert!(!dco::check(None, &repo()).passed);
}

#[test]
fn website_check() {
    let mut gh_md = repo();
    assert!(!website::check(&gh_md).passed);
    gh_md.homepage_url = Some(String::new());
    assert!(!website::check(&gh_md).passed);
    gh_md.homepage_url = Some("https://example.org".to_string());
    assert_eq!(
        website::check(&gh_md).url.as_deref(),
        Some("https://example.org")
    );
}

fn landscape() -> Landscape {
    let extra = |name: &str, personas: Option<&str>| ItemExtra {
        clomonitor_name: Some(name.to_string()),
        summary_business_use_case: None,
        summary_integration: None,
        summary_integrations: None,
        summary_intro_url: None,
        summary_use_case: None,
        summary_personas: personas.map(str::to_string),
        summary_release_rate: None,
        summary_tags: Some("tag".to_string()).filter(|_| personas.is_some()),
    };
    Landscape {
        landscape: vec![Category {
            subcategories: vec![
                SubCategory {
                    items: vec![Item { extra: None }, Item {
                        extra: Some(extra("empty", None)),
                    }],
                },
                SubCategory {
                    items: vec![Item {
                        extra: Some(extra("artifact-hub", Some("Developers"))),
                    }],
                },
            ],
        }],
    }
}

#[test]
fn summary_table_from_landscape() {
    let l = landscape();
    let output = summary_table::check(Some(&l), "artifact-hub");
    assert!(output.passed);
    assert_eq!(
        output.details.as_deref(),
        Some("# Summary table information\n\n**Personas**: Developers\n\n**Tags**: tag\n\n**Use case**: -\n\n**Business use case**: -\n\n**Release date**: -\n\n**Integrations**: -\n\n**Intro URL**: -\n")
    );
    assert!(!summary_table::check(Some(&l), "empty").passed);
    assert!(!summary_table::check(Some(&l), "unknown").passed);
    assert!(summary_table::check(None, "artifact-hub").exempt);
    assert!(l.get_project("artifact-hub").is_some());
    assert!(l.get_project("missing").is_none());
}

#[test]
fn annual_review_outcomes() {
    let project = ProjectInfo {
        name: "p".to_string(),
        foundation_id: "cncf".to_string(),
        maturity: Some("sandbox".to_string()),
        accepted_at: Some(2_459_000),
    };
    let review = Some(AnnualReview {
        date: 2_459_600,
        url: "https://example.org/review".to_string(),
    });
    let out = annual_review::check(Some(&project), 2_459_800, Some(&review));
    assert!(out.passed);
    assert_eq!(out.url.as_deref(), Some("https://example.org/review"));
    let out = annual_review::check(Some(&project), 2_460_100, Some(&review));
    assert!(!out.passed);
    assert_eq!(
        out.details.as_deref(),
        Some("Annual review information in landscape is outdated")
    );
    let out = annual_review::check(Some(&project), 2_459_100, Some(&review));
    assert!(out.exempt);
    let out = annual_review::check(Some(&project), 2_459_800, Some(&None));
    assert_eq!(
        out.details.as_deref(),
        Some("Annual review information not found in landscape")
    );
    assert!(annual_review::check(None, 2_459_800, None).exempt);
    let incubating = ProjectInfo {
        maturity: Some("incubating".to_string()),
        ..project
    };
    assert_eq!(
        annual_review::check(Some(&incubating), 2_459_800, None)
            .exemption_reason
            .as_deref(),
        Some("This check only applies to CNCF Sandbox projects")
    );
}

#[test]
fn check_plan_skips_exempts_and_runs() {
    assert!(matches!(
        plan_check::<()>("adopters", &[CheckSet::Code], None),
        CheckPlan::Skip
    ));
    assert!(matches!(
        plan_check::<()>("adopters", &[CheckSet::Community], None),
        CheckPlan::Run
    ));
    let md = Metadata {
        exemptions: Some(vec![Exemption {
            check: "adopters".to_string(),
            reason: "no adopters yet".to_string(),
        }]),
        ..Metadata::default()
    };
    match plan_check::<()>("adopters", &[CheckSet::Community], Some(&md)) {
        CheckPlan::Done(output) => {
            assert!(output.exempt);
            assert_eq!(output.exemption_reason.as_deref(), Some("no adopters yet"));
        }
        _ => panic!("exemption expected"),
    }
    let failed = ran_check_output::<()>(Err("boom".to_string()));
    assert!(failed.failed);
    assert_eq!(failed.fail_reason.as_deref(), Some("boom"));
}

#[test]
fn badge_configuration() {
    assert_eq!(badge_config(Some("a")), ("A".to_string(), "green"));
    assert_eq!(badge_config(Some("d")), ("D".to_string(), "red"));
    assert_eq!(badge_config(Some("x")), ("X".to_string(), "grey"));
    assert_eq!(
        badge_config(None),
        ("not processed yet".to_string(), "grey")
    );
}

fn v2(policy: Option<&str>) -> SecurityInsightsV2 {
    SecurityInsightsV2 {
        header: Header {
            last_reviewed: "2024-01-01".to_string(),
            last_updated: "2024-01-01".to_string(),
            schema_version: "2.0.0".to_string(),
            url: "https://example.org/security-insights.yml".to_string(),
        },
        project: None,
        repository: Some(Repository {
            accepts_automated_change_request: true,
            accepts_change_request: true,
            core_team: vec![Contact {
                name: "Dev".to_string(),
                primary: true,
            }],
            license: License {
                expression: "Apache-2.0".to_string(),
                url: "https://example.org/LICENSE".to_string(),
            },
            security: SecurityPosture {
                assessments: Assessments {
                    self_assessment: Assessment {
                        comment: "none".to_string(),
                    },
                },
            },
            status: "active".to_string(),
            url: "https://github.com/owner/repo".to_string(),
            documentation: Some(RepositoryDocumentation {
                dependency_management_policy: policy.map(str::to_string),
            }),
        }),
    }
}

fn file(path: &str, version: &str, v1: Option<SecurityInsightsV1>, v2: Option<SecurityInsightsV2>) -> ManifestFile {
    ManifestFile {
        rel_path: path.to_string(),
        schema_version: Some(version.to_string()),
        v1,
        v2,
    }
}

fn v1(policy: &str) -> SecurityInsightsV1 {
    SecurityInsightsV1 {
        dependencies: Some(Dependencies {
            env_dependencies_policy: Some(EnvDependenciesPolicy {
                policy_url: Some(policy.to_string()),
            }),
        }),
    }
}

#[test]
fn security_insights_prefers_first_v2_manifest() {
    let files = vec![
        file(".github/security-insights.yml", "1.0.0", Some(v1("https://example.org/v1")), None),
        file("SECURITY-INSIGHTS.yml", "2.0.0", None, Some(v2(Some("https://example.org/v2")))),
    ];
    let si = select_manifest(files).unwrap().unwrap();
    assert_eq!(si.manifest_rel_path(), "SECURITY-INSIGHTS.yml");
    assert_eq!(
        si.dependencies_policy_url().map(String::as_str),
        Some("https://example.org/v2")
    );
    assert!(matches!(si.manifest, Manifest::V2(_)));
}

#[test]
fn security_insights_falls_back_to_first_v1_manifest() {
    let files = vec![
        file("security-insights.yml", "1.0.0", Some(v1("https://example.org/first")), None),
        file("SECURITY-INSIGHTS.yml", "1.0.0", Some(v1("https://example.org/second")), None),
    ];
    let si = select_manifest(files).unwrap().unwrap();
    assert_eq!(si.manifest_rel_path(), "security-insights.yml");
    assert_eq!(
        si.dependencies_policy_url().map(String::as_str),
        Some("https://example.org/first")
    );
    assert_eq!(select_manifest(vec![]), Ok(None));
}

#[test]
fn security_insights_invalid_manifests() {
    let err = "invalid security insights manifest".to_string();
    let files = vec![file("security-insights.yml", "3.0.0", None, None)];
    assert_eq!(select_manifest(files), Err(err.clone()));
    let mut bad = v2(Some(""));
    assert!(bad.validate().is_err());
    bad = v2(None);
    assert!(bad.validate().is_ok());
    let files = vec![file("security-insights.yml", "2.0.0", None, Some(v2(Some(""))))];
    assert_eq!(select_manifest(files), Err(err.clone()));
    let files = vec![file("security-insights.yml", "1.2.0", None, None)];
    assert_eq!(select_manifest(files), Err(err));
}

#[test]
fn security_insights_later_v2_preferred_over_invalid_v1() {
    // The v1 manifest found first does not parse, but a v2 manifest follows.
    let files = vec![
        file("security-insights.yml", "1.0.0", None, None),
        file(".github/security-insights.yml", "2.0.0", None, Some(v2(Some("https://example.org/v2")))),
    ];
    let si = select_manifest(files).unwrap().unwrap();
    assert_eq!(si.manifest_rel_path(), ".github/security-insights.yml");
    assert!(matches!(si.manifest, Manifest::V2(_)));
    // With no v2 manifest, the invalid v1 one is an error.
    let files = vec![file("security-insights.yml", "1.0.0", None, None)];
    assert_eq!(
        select_manifest(files),
        Err("invalid security insights manifest".to_string())
    );
}

fn project() -> Project {
    Project {
        administrators: vec![Contact {
            name: "Admin".to_string(),
            primary: true,
        }],
        name: "project".to_string(),
        repositories: vec![ProjectRepository {
            comment: "main repository".to_string(),
            name: "repo".to_string(),
            url: "https://github.com/owner/repo".to_string(),
        }],
        vulnerability_reporting: VulnerabilityReporting {
            bug_bounty_available: false,
            reports_accepted: true,
        },
    }
}

#[test]
fn security_insights_v2_required_fields() {
    let mut m = v2(None);
    m.header.url = String::new();
    assert!(m.validate().is_err());
    let mut m = v2(None);
    m.header.last_reviewed = String::new();
    assert!(m.validate().is_err());
    let mut m = v2(None);
    m.header.schema_version = "1.0.0".to_string();
    assert!(m.validate().is_err());
    let mut m = v2(None);
    m.repository.as_mut().unwrap().core_team[0].name = String::new();
    assert!(m.validate().is_err());
    let mut m = v2(None);
    m.repository.as_mut().unwrap().core_team.clear();
    assert!(m.validate().is_err());
    let mut m = v2(None);
    m.repository.as_mut().unwrap().license.expression = String::new();
    assert!(m.validate().is_err());
    let mut m = v2(None);
    m.repository.as_mut().unwrap().security.assessments.self_assessment.comment = String::new();
    assert!(m.validate().is_err());

    let mut m = v2(None);
    m.project = Some(project());
    assert!(m.validate().is_ok());
    let mut p = project();
    p.administrators.clear();
    m.project = Some(p);
    assert!(m.validate().is_err());
    let mut p = project();
    p.repositories[0].url = String::new();
    m.project = Some(p);
    assert!(m.validate().is_err());
    let mut p = project();
    p.name = String::new();
    m.project = Some(p);
    assert!(m.validate().is_err());
}

#[test]
fn security_insights_v2_required_sections() {
    // A manifest must describe a project or a repository.
    let mut m = v2(None);
    m.repository = None;
    assert!(m.validate().is_err());
    m.project = Some(project());
    assert!(m.validate().is_ok());
    let files = vec![file("security-insights.yml", "2.0.0", None, Some(m))];
    assert!(select_manifest(files).unwrap().is_some());
}
