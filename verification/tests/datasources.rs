use clomonitor_core::afdocs::{
    afdocs_target, categories, category, check_output as category_output, get_category,
    AfdocsCategoryScore, AfdocsReport, AfdocsResult, AfdocsScore, AfdocsScoring, AfdocsTarget,
    AfdocsTargetSource, AfdocsTransport, AfdocsViolation,
};
use clomonitor_core::check::{AgentReadiness, CheckOutput, Metadata};
use clomonitor_core::github::MdRepository;
use clomonitor_core::registry::{checks, Datasource};
use clomonitor_core::scorecard::{
    check_output, get_check, Scorecard, ScorecardCheck, ScorecardCheckDocs, ScorecardScore,
};
use clomonitor_core::text::{code, escape_md};

fn score(value: f64, grade: &str) -> AfdocsCategoryScore {
    AfdocsCategoryScore {
        score: Some(AfdocsScore {
            rounded: value.round() as u64,
            in_range: (0.0..=100.0).contains(&value),
            passes: value >= 70.0,
            display: format!("{value}"),
        }),
        grade: Some(grade.to_string()),
    }
}

fn result(id: &str, category: &str, status: &str, message: &str) -> AfdocsResult {
    AfdocsResult {
        id: id.to_string(),
        category: category.to_string(),
        status: status.to_string(),
        message: message.to_string(),
    }
}

/// A report meeting the AFDocs contract, with a category for each outcome:
/// content discoverability passes with a warning, markdown availability fails
/// with a low score, page size has no score, content structure passes with an
/// errored check, URL stability fails with an errored check and
/// authentication passes with a skipped check.
fn report() -> AfdocsReport {
    let mut results = Vec::new();
    let mut category_scores = Vec::new();
    for c in categories() {
        for check in c.checks.iter() {
            let (status, message) = match *check {
                "llms-txt-exists" => ("pass", "llms.txt found at https://docs.example.org/llms.txt".to_string()),
                "llms-txt-size" => ("warn", "llms.txt is larger than recommended".to_string()),
                "markdown-url-support" => ("fail", "No markdown version found for pages".to_string()),
                "rendering-strategy" => ("skip", "Not enough pages to analyse".to_string()),
                "section-header-quality" => ("error", "Unexpected token < in JSON at position 0".to_string()),
                "redirect-behavior" => ("error", "Request timed out".to_string()),
                "auth-alternative-access" => ("skip", "No authentication gate found".to_string()),
                _ => ("pass", format!("{check} message")),
            };
            results.push(result(check, c.id, status, &message));
        }
        let s = match c.id {
            "content-discoverability" => score(82.4, "B"),
            "markdown-availability" => score(45.0, "F"),
            "page-size" => AfdocsCategoryScore::default_score(),
            "content-structure" => score(80.0, "B"),
            "url-stability" => score(40.0, "F"),
            _ => score(100.0, "A"),
        };
        category_scores.push((c.id.to_string(), s));
    }
    AfdocsReport {
        url: "https://docs.example.org/".to_string(),
        timestamp: "2026-09-14T10:15:30.000Z".to_string(),
        results,
        afdocs_version: Some("0.20.0".to_string()),
        sampling_strategy: None,
        scoring: Some(AfdocsScoring {
            category_scores,
            resolutions: vec![
                ("llms-txt-valid".to_string(), "Fix the llms.txt format".to_string()),
                ("llms-txt-size".to_string(), "Split llms.txt".to_string()),
            ],
        }),
        tested_pages: Some(3),
        transport: AfdocsTransport::Runner,
    }
}

trait NoScore {
    fn default_score() -> AfdocsCategoryScore;
}

impl NoScore for AfdocsCategoryScore {
    fn default_score() -> AfdocsCategoryScore {
        AfdocsCategoryScore {
            score: None,
            grade: None,
        }
    }
}

#[test]
fn categories_are_consistent_with_checks_registry() {
    let mut registered: Vec<&str> = checks()
        .iter()
        .filter_map(|c| c.datasource.as_ref().and_then(Datasource::afdocs_category))
        .collect();
    registered.sort_unstable();
    let mut known: Vec<&str> = categories().iter().map(|c| c.id).collect();
    known.sort_unstable();
    assert_eq!(registered, known);
    assert_eq!(
        category("content-discoverability").unwrap().docs_url(),
        "https://afdocs.dev/checks/content-discoverability"
    );
}

#[test]
fn escape_md_escapes_and_collapses() {
    assert_eq!(
        escape_md("a *b* [c](x)\n\n# d `e` <f> ~g~ h|i j_k"),
        "a \\*b\\* \\[c\\](x) \\# d \\`e\\` \\<f\\> \\~g\\~ h\\|i j\\_k"
    );
    assert_eq!(code("id`\n"), "id");
}

#[test]
fn afdocs_report_meets_contract() {
    assert_eq!(report().validate(), Ok(()));
}

#[test]
fn afdocs_contract_violations() {
    let mut r = report();
    r.scoring = None;
    assert_eq!(r.validate(), Err(AfdocsViolation::ScoringMissing));

    let mut r = report();
    let scoring = r.scoring.as_mut().unwrap();
    scoring.category_scores.retain(|(id, _)| id != "observability");
    scoring
        .category_scores
        .push(("zeta".to_string(), AfdocsCategoryScore::default_score()));
    scoring
        .category_scores
        .push(("alpha".to_string(), AfdocsCategoryScore::default_score()));
    assert_eq!(
        r.validate(),
        Err(AfdocsViolation::UnexpectedCategoryScores {
            missing: vec!["observability".to_string()],
            unexpected: vec!["alpha".to_string(), "zeta".to_string()],
        })
    );

    let mut r = report();
    r.scoring.as_mut().unwrap().category_scores[1].1 = score(120.0, "A");
    assert_eq!(
        r.validate(),
        Err(AfdocsViolation::ScoreOutOfRange {
            category: "markdown-availability".to_string(),
            score: "120".to_string(),
        })
    );

    let mut r = report();
    r.results[2].status = "unknown".to_string();
    assert_eq!(
        r.validate(),
        Err(AfdocsViolation::UnknownStatus {
            status: "unknown".to_string(),
            check: "llms-txt-size".to_string(),
        })
    );

    let mut r = report();
    r.results[0].category = "nowhere".to_string();
    assert_eq!(
        r.validate(),
        Err(AfdocsViolation::UnknownCategory {
            category: "nowhere".to_string(),
            check: "llms-txt-exists".to_string(),
        })
    );

    let mut r = report();
    r.results.retain(|res| res.id != "cache-header-hygiene");
    assert_eq!(
        r.validate(),
        Err(AfdocsViolation::CheckMissing {
            check: "cache-header-hygiene".to_string(),
        })
    );

    let mut r = report();
    let dup = r.results[3].clone();
    r.results.push(dup);
    assert_eq!(
        r.validate(),
        Err(AfdocsViolation::DuplicateCheck {
            check: "llms-txt-links-resolve".to_string(),
        })
    );

    let mut r = report();
    r.results[0].category = "page-size".to_string();
    assert_eq!(
        r.validate(),
        Err(AfdocsViolation::WrongCategory {
            check: "llms-txt-exists".to_string(),
            found: "page-size".to_string(),
            expected: "content-discoverability".to_string(),
        })
    );
}

#[test]
fn check_output_passed() {
    let afdocs: Option<Result<AfdocsReport, String>> = Some(Ok(report()));
    let output: CheckOutput = category_output(get_category(afdocs.as_ref(), "content_discoverability"));
    assert!(output.passed);
    assert!(!output.failed);
    assert_eq!(output.url.as_deref(), Some("https://docs.example.org/"));
    let details = output.details.unwrap();
    assert!(details.starts_with("# Content Discoverability AFDocs category\n\n"));
    assert!(details.contains("**Score**: 82/100 (B) (check passes with score >= 70)"));
    assert!(details.contains("- `PASS` `llms-txt-exists`: llms.txt found at"));
    assert!(details.contains("- `WARN` `llms-txt-size`:"));
    assert!(details.contains(
        "**Suggested fixes**:\n\n- `llms-txt-size`: Split llms.txt\n- `llms-txt-valid`: Fix the llms.txt format\n\n"
    ));
    assert!(details.contains(
        "**Run**: AFDocs 0.20.0, CLOMonitor runner, deterministic sampling, max 20 pages, 3 pages tested, 2026-09-14T10:15:30.000Z, target https://docs.example.org/"
    ));
    assert!(details.ends_with(
        "**Please see the [category documentation](https://afdocs.dev/checks/content-discoverability) in afdocs.dev for more details**"
    ));
    assert!(!details.to_lowercase().contains("advisory"));
    assert!(!details.contains("errored during collection"));
}

#[test]
fn check_output_warn_heavy_not_passed() {
    let afdocs: Option<Result<AfdocsReport, String>> = Some(Ok(report()));
    let output: CheckOutput = category_output(get_category(afdocs.as_ref(), "markdown_availability"));
    assert!(!output.passed);
    assert!(!output.failed);
    let details = output.details.unwrap();
    assert!(details.contains("**Score**: 45/100 (F)"));
    assert!(details.contains("- `FAIL` `markdown-url-support`"));
}

#[test]
fn check_output_passed_with_native_errors() {
    let afdocs: Option<Result<AfdocsReport, String>> = Some(Ok(report()));
    let output: CheckOutput = category_output(get_category(afdocs.as_ref(), "content_structure"));
    assert!(output.passed);
    assert!(!output.failed);
    let details = output.details.unwrap();
    assert!(details.contains("**Score**: 80/100 (B)"));
    assert!(details.contains("**Warning**: 1 check(s) errored during collection"));
    assert!(details.contains("- `ERROR` `section-header-quality`: Unexpected token \\< in JSON"));
}

#[test]
fn check_output_full_score_with_skips() {
    let afdocs: Option<Result<AfdocsReport, String>> = Some(Ok(report()));
    let output: CheckOutput = category_output(get_category(afdocs.as_ref(), "authentication"));
    assert!(output.passed);
    assert!(output.details.unwrap().contains("- `SKIP` `auth-alternative-access`"));
    let output: CheckOutput = category_output(get_category(afdocs.as_ref(), "observability"));
    assert!(output.passed);
}

#[test]
fn check_output_not_passed_with_native_errors() {
    let afdocs: Option<Result<AfdocsReport, String>> = Some(Ok(report()));
    let output: CheckOutput = category_output(get_category(afdocs.as_ref(), "url_stability"));
    assert!(!output.passed);
    assert!(!output.failed);
    let details = output.details.unwrap();
    assert!(details.contains("**Score**: 40/100 (F)"));
    assert!(details.contains("**Warning**: 1 check(s) errored"));
    assert!(details.contains("- `ERROR` `redirect-behavior`"));
}

#[test]
fn check_output_null_score_not_passed() {
    let afdocs: Option<Result<AfdocsReport, String>> = Some(Ok(report()));
    let output: CheckOutput = category_output(get_category(afdocs.as_ref(), "page_size"));
    assert!(!output.passed);
    assert!(!output.failed);
    let details = output.details.unwrap();
    assert!(details.contains("**Score**: n/a (insufficient data"));
    assert!(details.contains("- `SKIP` `rendering-strategy`"));
}

#[test]
fn check_output_no_target() {
    let afdocs: Option<Result<AfdocsReport, String>> = None;
    let output: CheckOutput = category_output(get_category(afdocs.as_ref(), "page_size"));
    assert!(!output.passed);
    assert!(!output.failed);
    assert!(output.url.is_none());
    assert!(output.details.unwrap().contains("agentReadiness.url"));
}

#[test]
fn check_output_failed() {
    let afdocs: Option<Result<AfdocsReport, String>> =
        Some(Err("AFDocs is not configured".to_string()));
    let output: CheckOutput = category_output(get_category(afdocs.as_ref(), "page_size"));
    assert!(!output.passed);
    assert!(output.failed);
    assert_eq!(output.fail_reason.as_deref(), Some("AFDocs is not configured"));
}

#[test]
fn afdocs_target_prefers_metadata_override() {
    let md = Metadata {
        agent_readiness: Some(AgentReadiness {
            url: Some(" https://docs.example.org/ ".to_string()),
        }),
        ..Metadata::default()
    };
    let gh_md = MdRepository {
        homepage_url: Some("https://example.org".to_string()),
        ..MdRepository::default()
    };
    assert_eq!(
        afdocs_target(Some(&md), &gh_md),
        Some(AfdocsTarget {
            source: AfdocsTargetSource::Metadata,
            url: "https://docs.example.org/".to_string(),
        })
    );
}

#[test]
fn afdocs_target_falls_back_to_homepage() {
    let md = Metadata {
        agent_readiness: Some(AgentReadiness {
            url: Some(String::new()),
        }),
        ..Metadata::default()
    };
    let gh_md = MdRepository {
        homepage_url: Some("https://example.org".to_string()),
        ..MdRepository::default()
    };
    let expected = Some(AfdocsTarget {
        source: AfdocsTargetSource::GithubHomepage,
        url: "https://example.org".to_string(),
    });
    assert_eq!(afdocs_target(Some(&md), &gh_md), expected);
    assert_eq!(afdocs_target(None, &gh_md), expected);
}

#[test]
fn afdocs_target_none_when_unavailable() {
    let gh_md = MdRepository {
        homepage_url: Some("  ".to_string()),
        ..MdRepository::default()
    };
    assert_eq!(afdocs_target(None, &gh_md), None);
    assert_eq!(afdocs_target(None, &MdRepository::default()), None);
}

fn sc_check(name: &str, value: f64, details: Option<Vec<String>>) -> ScorecardCheck {
    ScorecardCheck {
        name: name.to_string(),
        reason: "reason".to_string(),
        details,
        score: ScorecardScore {
            at_least_one: value >= 1.0,
            at_least_five: value >= 5.0,
            display: format!("{value}"),
        },
        documentation: ScorecardCheckDocs {
            url: "https://test.url".to_string(),
        },
    }
}

#[test]
fn check_output_from_scorecard_check_not_available() {
    assert_eq!(
        check_output::<()>(Ok(None)),
        CheckOutput {
            passed: false,
            ..Default::default()
        }
    );
}

#[test]
fn scorecard_check_output_from_scorecard_check_passed() {
    let sc = sc_check("Code-Review", 8.0, Some(vec!["details".to_string()]));
    assert_eq!(
        check_output::<()>(Ok(Some(&sc))),
        CheckOutput {
            passed: true,
            details: Some("# Code-Review OpenSSF Scorecard check\n\n**Score**: 8 (check passes with score >= 5)\n\n**Reason**: reason\n\n**Details**: \n\n>details\n\n**Please see the [check documentation](https://test.url) in the ossf/scorecard repository for more details**".to_string()),
            ..Default::default()
        }
    );
}

#[test]
fn scorecard_check_output_from_scorecard_check_not_passed() {
    let sc = sc_check("Code-Review", 4.0, Some(vec!["details".to_string()]));
    assert_eq!(
        check_output::<()>(Ok(Some(&sc))),
        CheckOutput {
            passed: false,
            details: Some("# Code-Review OpenSSF Scorecard check\n\n**Score**: 4 (check passes with score >= 5)\n\n**Reason**: reason\n\n**Details**: \n\n>details\n\n**Please see the [check documentation](https://test.url) in the ossf/scorecard repository for more details**".to_string()),
            ..Default::default()
        }
    );
}

#[test]
fn check_output_from_scorecard_signed_releases_threshold() {
    let sc = sc_check("Signed-Releases", 1.0, None);
    let output = check_output::<()>(Ok(Some(&sc)));
    assert!(output.passed);
    assert!(output.details.unwrap().contains("**Details**: -"));
}

#[test]
fn check_output_from_scorecard_check_failed() {
    let err = "fake error".to_string();
    assert_eq!(
        check_output::<()>(Err(&err)),
        CheckOutput {
            failed: true,
            fail_reason: Some("fake error".to_string()),
            ..Default::default()
        }
    );
}

#[test]
fn get_check_found() {
    let scorecard: Result<Scorecard, String> = Ok(Scorecard {
        checks: vec![sc_check("Code-Review", 8.0, None)],
    });
    assert_eq!(
        get_check(&scorecard, "code_review").unwrap().unwrap(),
        &scorecard.as_ref().unwrap().checks[0]
    );
}

#[test]
fn get_check_not_found() {
    let scorecard: Result<Scorecard, String> = Ok(Scorecard { checks: vec![] });
    assert!(get_check(&scorecard, "code_review").unwrap().is_none());
}

#[test]
fn scorecard_details_joins_lines() {
    let sc = sc_check(
        "Maintained",
        5.0,
        Some(vec!["a".to_string(), "b".to_string()]),
    );
    let output = check_output::<()>(Ok(Some(&sc)));
    assert!(output.passed);
    assert!(output.details.unwrap().contains("**Details**: \n\n>a\nb\n\n"));
}

#[test]
fn contract_violation_messages() {
    let mut r = report();
    r.results[2].status = "unknown".to_string();
    let msg = r.validate().unwrap_err().message();
    assert!(msg.starts_with("AFDocs output contract violation"));
    assert!(msg.contains("unknown status \"unknown\""));

    let mut r = report();
    r.scoring
        .as_mut()
        .unwrap()
        .category_scores
        .retain(|(id, _)| id != "observability");
    assert!(r
        .validate()
        .unwrap_err()
        .message()
        .contains("missing: [observability]"));

    let mut r = report();
    r.results.retain(|res| res.id != "cache-header-hygiene");
    assert_eq!(
        r.validate().unwrap_err().message(),
        "AFDocs output contract violation: check cache-header-hygiene missing"
    );
    assert_eq!(
        AfdocsViolation::ScoringMissing.message(),
        "AFDocs output contract violation: scoring information missing"
    );
}
