use clomonitor_core::check::{CheckOutput, CheckResult, Exemption, Metadata};
use clomonitor_core::github::{
    get_owner_and_repo, MdRepository, MdRepositoryDefaultBranchRef, MdRepositoryOwner,
    MdRepositoryOwnerOn,
};
use clomonitor_core::registry::{
    checks, datasource_needed, should_skip_check, CheckSet, Datasource, DatasourceKind,
};

fn repo(owner: &str, name: &str) -> MdRepository {
    MdRepository {
        name: name.to_string(),
        owner: MdRepositoryOwner {
            login: owner.to_string(),
            on: MdRepositoryOwnerOn::Organization,
        },
        ..MdRepository::default()
    }
}

#[test]
fn check_output_from_passed() {
    assert_eq!(
        CheckOutput::<()>::from(true),
        CheckOutput {
            passed: true,
            ..Default::default()
        }
    );
}

#[test]
fn check_output_from_value_none() {
    assert_eq!(
        CheckOutput::<()>::from(None),
        CheckOutput {
            passed: false,
            ..Default::default()
        }
    );
}

#[test]
fn check_output_from_value_some() {
    assert_eq!(
        CheckOutput::from(Some("value".to_string())),
        CheckOutput {
            passed: true,
            value: Some("value".to_string()),
            ..Default::default()
        }
    );
}

#[test]
fn check_output_from_exemption() {
    let exemption = Exemption {
        check: "test".to_string(),
        reason: "test".to_string(),
    };
    assert_eq!(
        CheckOutput::<()>::from(exemption),
        CheckOutput {
            exempt: true,
            exemption_reason: Some("test".to_string()),
            ..Default::default()
        }
    );
}

#[test]
fn check_output_from_url_some() {
    assert_eq!(
        CheckOutput::<()>::from_url(Some("url".to_string())),
        CheckOutput {
            passed: true,
            url: Some("url".to_string()),
            ..Default::default()
        }
    );
}

#[test]
fn check_output_from_url_none() {
    assert_eq!(
        CheckOutput::<()>::from_url(None),
        CheckOutput {
            passed: false,
            ..Default::default()
        }
    );
}

#[test]
fn check_output_from_path_some() {
    let gh_md = repo("owner", "repo");
    assert_eq!(
        CheckOutput::<()>::from_path(Some("path"), &gh_md),
        CheckOutput {
            passed: true,
            url: Some("https://github.com/owner/repo/blob/master/path".to_string()),
            ..Default::default()
        }
    );
}

#[test]
fn check_output_from_path_none() {
    assert_eq!(
        CheckOutput::<()>::from_path(None, &MdRepository::default()),
        CheckOutput {
            passed: false,
            ..Default::default()
        }
    );
}

#[test]
fn check_output_from_path_uses_default_branch() {
    let mut gh_md = repo("owner", "repo");
    gh_md.default_branch_ref = Some(MdRepositoryDefaultBranchRef {
        name: "main".to_string(),
    });
    assert_eq!(
        CheckOutput::<()>::from_path(Some("docs/README.md"), &gh_md).url,
        Some("https://github.com/owner/repo/blob/main/docs/README.md".to_string())
    );
}

#[test]
fn check_output_builders_set_each_field() {
    let output = CheckOutput::<u32>::not_passed()
        .url(Some("u".to_string()))
        .value(Some(3))
        .details(Some("d".to_string()))
        .exemption_reason(Some("e".to_string()))
        .fail_reason(Some("f".to_string()));
    assert!(!output.passed && !output.exempt && !output.failed);
    assert_eq!(output.url.as_deref(), Some("u"));
    assert_eq!(output.value, Some(3));
    assert_eq!(output.details.as_deref(), Some("d"));
    assert_eq!(output.exemption_reason.as_deref(), Some("e"));
    assert_eq!(output.fail_reason.as_deref(), Some("f"));
    assert!(CheckOutput::<()>::passed().passed);
    assert!(CheckOutput::<()>::exempt().exempt);
    assert!(CheckOutput::<()>::failed().failed);
}

fn result_fields<T: Clone>(r: &CheckResult<T>) -> (bool, Option<String>, Option<T>) {
    (r.passed, r.url.clone(), r.value.clone())
}

#[test]
fn check_result_from_passed() {
    assert_eq!(
        result_fields(&CheckResult::<()>::from(true)),
        (true, None, None)
    );
}

#[test]
fn check_result_from_value_none() {
    assert_eq!(
        result_fields(&CheckResult::<()>::from(None)),
        (false, None, None)
    );
}

#[test]
fn check_result_from_value_some() {
    assert_eq!(
        result_fields(&CheckResult::from(Some("value".to_string()))),
        (true, None, Some("value".to_string()))
    );
}

#[test]
fn check_result_from_tuple_passed_value_some() {
    assert_eq!(
        result_fields(&CheckResult::from((true, Some("value".to_string())))),
        (true, None, Some("value".to_string()))
    );
    assert_eq!(
        result_fields(&CheckResult::from((false, Some("value".to_string())))),
        (false, None, Some("value".to_string()))
    );
}

#[test]
fn check_result_from_tuple_passed_value_none() {
    assert_eq!(
        result_fields(&CheckResult::<(bool, String)>::from((true, None))),
        (true, None, None)
    );
    assert_eq!(
        result_fields(&CheckResult::<(bool, String)>::from((false, None))),
        (false, None, None)
    );
}

#[test]
fn check_result_from_url_some() {
    assert_eq!(
        result_fields(&CheckResult::<()>::from_url(Some("url".to_string()))),
        (true, Some("url".to_string()), None)
    );
}

#[test]
fn check_result_from_url_none() {
    assert_eq!(
        result_fields(&CheckResult::<()>::from_url(None)),
        (false, None, None)
    );
}

#[test]
fn github_get_owner_and_repo_invalid_url() {
    assert!(matches!(
        get_owner_and_repo("https://github.com/org"),
        Err(_)
    ));
}

#[test]
fn mod_get_owner_and_repo_invalid_url() {
    assert!(matches!(
        get_owner_and_repo("https://github.com/org"),
        Err(_)
    ));
}

#[test]
fn github_get_owner_and_repo_valid_url() {
    assert_eq!(
        get_owner_and_repo("https://github.com/org/repo").unwrap(),
        ("org".to_string(), "repo".to_string())
    );
}

#[test]
fn github_get_owner_and_repo_valid_url_trailing_slash() {
    assert_eq!(
        get_owner_and_repo("https://github.com/org/repo/").unwrap(),
        ("org".to_string(), "repo".to_string())
    );
}

#[test]
fn github_build_url_works() {
    assert_eq!(
        clomonitor_core::github::build_url("path/file.md", "owner", "repo", "master"),
        "https://github.com/owner/repo/blob/master/path/file.md"
    );
}

#[test]
fn datasource_needed_depends_on_check_sets() {
    let code = [CheckSet::Code];
    assert!(datasource_needed(&code, None, DatasourceKind::Scorecard));
    assert!(!datasource_needed(&code, None, DatasourceKind::Afdocs));

    let community = [CheckSet::Community];
    assert!(!datasource_needed(&community, None, DatasourceKind::Scorecard));
    assert!(datasource_needed(&community, None, DatasourceKind::Afdocs));

    let none: [CheckSet; 0] = [];
    assert!(!datasource_needed(&none, None, DatasourceKind::Scorecard));
    assert!(!datasource_needed(&none, None, DatasourceKind::Afdocs));
}

#[test]
fn datasource_needed_ignores_exempt_checks() {
    let community = [CheckSet::Community];

    // Exempting a single AFDocs check keeps the datasource needed
    let md = Metadata {
        exemptions: Some(vec![Exemption {
            check: "content_discoverability".to_string(),
            reason: "reason".to_string(),
        }]),
        ..Metadata::default()
    };
    assert!(datasource_needed(&community, Some(&md), DatasourceKind::Afdocs));

    // Exempting all AFDocs checks makes the datasource unneeded
    let md = Metadata {
        exemptions: Some(
            checks()
                .iter()
                .filter(|c| matches!(c.datasource, Some(Datasource::Afdocs { .. })))
                .map(|c| Exemption {
                    check: c.id.to_string(),
                    reason: "reason".to_string(),
                })
                .collect(),
        ),
        ..Metadata::default()
    };
    assert!(!datasource_needed(&community, Some(&md), DatasourceKind::Afdocs));

    // Exempting a scorecard check does not affect AFDocs
    let code = [CheckSet::Code];
    let md = Metadata {
        exemptions: Some(vec![Exemption {
            check: "code_review".to_string(),
            reason: "reason".to_string(),
        }]),
        ..Metadata::default()
    };
    assert!(datasource_needed(&code, Some(&md), DatasourceKind::Scorecard));
}

#[test]
fn exemption_without_reason_is_ignored() {
    let md = Metadata {
        exemptions: Some(vec![
            Exemption {
                check: "adopters".to_string(),
                reason: String::new(),
            },
            Exemption {
                check: "adopters".to_string(),
                reason: "later".to_string(),
            },
        ]),
        ..Metadata::default()
    };
    assert!(clomonitor_core::check::find_exemption("adopters", Some(&md)).is_none());
    assert!(clomonitor_core::check::find_exemption("readme", Some(&md)).is_none());
    assert!(clomonitor_core::check::find_exemption("adopters", None).is_none());
}

#[test]
fn should_skip_check_by_check_set() {
    assert!(!should_skip_check("readme", &[CheckSet::Docs]));
    assert!(should_skip_check("adopters", &[CheckSet::Code, CheckSet::Docs]));
    assert!(!should_skip_check("adopters", &[CheckSet::Code, CheckSet::Community]));
    assert!(should_skip_check("unknown", &[CheckSet::Code, CheckSet::Community]));
}

#[test]
fn more_check_sets_never_skip_more() {
    for c in checks() {
        if !should_skip_check(c.id, &[CheckSet::Docs]) {
            assert!(!should_skip_check(c.id, &[CheckSet::Code, CheckSet::Docs]));
        }
    }
    assert!(datasource_needed(&[CheckSet::Code, CheckSet::Community], None, DatasourceKind::Afdocs));
    assert!(datasource_needed(&[CheckSet::Code, CheckSet::Community], None, DatasourceKind::Scorecard));
}
