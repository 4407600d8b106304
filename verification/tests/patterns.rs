use clomonitor_core::matching::{capture_first_group, matches_any};
use clomonitor_core::patterns;

fn capture(re: &[&str; 1], text: &str) -> String {
    capture_first_group(re[0], text).unwrap()
}


// Regular expressions

#[test]
fn adopters_in_readme_match() {
    assert!(matches_any(&patterns::adopters_in_readme(), "# Adopters"));
    assert!(matches_any(&patterns::adopters_in_readme(), 
        r"
...
## Project adopters and others
...
        "
    ));
    assert!(matches_any(&patterns::adopters_in_readme(), 
        r"
...
Adopters
--------
...
        "
    ));
    assert!(matches_any(&patterns::adopters_in_readme(), "[Project adopters](...)"));
}

#[test]
fn patterns_artifacthub_url_extract() {
    assert_eq!(
        capture(&patterns::artifacthub_url(), r#"[![Artifact HUB]("https://img.shields.io/endpoint?url=https://artifacthub.io/badge/repository/artifact-hub)](https://artifacthub.io/packages/helm/artifact-hub/artifact-hub)"#),
        "https://artifacthub.io/packages/helm/artifact-hub/artifact-hub"
    );
}

#[test]
fn changelog_in_gh_release_match() {
    assert!(matches_any(&patterns::changelog_in_gh_release(), "# Changelog"));
    assert!(matches_any(&patterns::changelog_in_gh_release(), "Below you can find the changelog"));
}

#[test]
fn changelog_in_readme_match() {
    assert!(matches_any(&patterns::changelog_in_readme(), "# Changelog"));
    assert!(matches_any(&patterns::changelog_in_readme(), 
        r"
...
## Project changelog and others
...
        "
    ));
    assert!(matches_any(&patterns::changelog_in_readme(), 
        r"
...
Changelog
=========
...
        "
    ));
    assert!(matches_any(&patterns::changelog_in_readme(), "[Project changelog](...)"));
}

#[test]
fn cla_in_gh_match() {
    assert!(matches_any(&patterns::cla_in_gh(), r"EasyCLA"));
    assert!(matches_any(&patterns::cla_in_gh(), r"cncf-cla"));
    assert!(matches_any(&patterns::cla_in_gh(), r"cla/linuxfoundation"));
    assert!(matches_any(&patterns::cla_in_gh(), r"license/cla"));
    assert!(matches_any(&patterns::cla_in_gh(), r"cla/google"));
}

#[test]
fn code_of_conduct_in_readme_match() {
    assert!(matches_any(&patterns::code_of_conduct_in_readme(), "# Code of conduct"));
    assert!(matches_any(&patterns::code_of_conduct_in_readme(), 
        r"
...
## Project code of conduct and others
...
        "
    ));
    assert!(matches_any(&patterns::code_of_conduct_in_readme(), 
        r"
...
Code of Conduct
---------------
...
        "
    ));
    assert!(matches_any(&patterns::code_of_conduct_in_readme(), "[code of conduct](...)"));
}

#[test]
fn community_meeting_text_match() {
    assert!(matches_any(&patterns::community_meeting_text(), "# Project Status Meetings"));
    assert!(matches_any(&patterns::community_meeting_text(), "# Community meeting"));
    assert!(matches_any(&patterns::community_meeting_text(), "# Community [meeting](...)"));
    assert!(matches_any(&patterns::community_meeting_text(), "## Developer call"));
    assert!(matches_any(&patterns::community_meeting_text(), "development event"));
    assert!(matches_any(&patterns::community_meeting_text(), "community session"));
    assert!(matches_any(&patterns::community_meeting_text(), "the meeting minutes below"));
    assert!(matches_any(&patterns::community_meeting_text(), "Weekly meeting"));
}

#[test]
fn contributing_in_readme_match() {
    assert!(matches_any(&patterns::contributing_in_readme(), "# Contributing"));
    assert!(matches_any(&patterns::contributing_in_readme(), 
        r"
...
## Some stuff, contributing and others
...
        "
    ));
    assert!(matches_any(&patterns::contributing_in_readme(), 
        r"
...
Contributing
------------
...
        "
    ));
    assert!(matches_any(&patterns::contributing_in_readme(), "[Project contributing](...)"));
}

#[test]
fn dco_in_gh_match() {
    assert!(matches_any(&patterns::dco_in_gh(), r"DCO"));
}

#[test]
fn github_repo_url_match() {
    assert!(matches_any(&patterns::github_repo_url(), "https://github.com/owner/repo"));
    assert!(matches_any(&patterns::github_repo_url(), "https://github.com/owner/repo/"));
}

#[test]
fn governance_in_readme_match() {
    assert!(matches_any(&patterns::governance_in_readme(), "# Governance"));
    assert!(matches_any(&patterns::governance_in_readme(), 
        r"
...
## Project governance and others
...
        "
    ));
    assert!(matches_any(&patterns::governance_in_readme(), 
        r"
...
Governance
----------
...
        "
    ));
    assert!(matches_any(&patterns::governance_in_readme(), "[Project governance](...)"));
}

#[test]
fn license_scanning_url_extract_fossa() {
    assert_eq!(
        capture(&patterns::fossa_url(), "[![Licenses](https://app.fossa.io/api/projects/git%2Bhttps%3A%2F%2Fgithub.com%2Fartifacthub%2Fhub.svg?type=shield)](https://app.fossa.io/projects/git%2Bhttps%3A%2F%2Fgithub.com%2Fartifacthub%2Fhub?ref=badge_shield)"),
        "https://app.fossa.io/projects/git%2Bhttps%3A%2F%2Fgithub.com%2Fartifacthub%2Fhub?ref=badge_shield"
    );
    assert_eq!(
        capture(&patterns::fossa_url(), r#"<a href="https://app.fossa.io/projects/git%2Bhttps%3A%2F%2Fgithub.com%2Fkedacore%2Fkeda?ref=badge_shield"><img src="https://app.fossa.io/api/projects/git%2Bhttps%3A%2F%2Fgithub.com%2Fkedacore%2Fkeda.svg?type=shield"></a>"#),
        "https://app.fossa.io/projects/git%2Bhttps%3A%2F%2Fgithub.com%2Fkedacore%2Fkeda?ref=badge_shield"
    );
}

#[test]
fn license_scanning_url_extract_snyk() {
    assert_eq!(
        capture(&patterns::snyk_url(), "[![Known Vulnerabilities](https://snyk.io/test/github/{username}/{repo}/badge.svg)](https://snyk.io/test/github/{username}/{repo})"),
        "https://snyk.io/test/github/{username}/{repo}"
    );
    assert_eq!(
        capture(&patterns::snyk_url(), r#"<a href="https://snyk.io/test/github/{username}/{repo}">"#),
        "https://snyk.io/test/github/{username}/{repo}"
    );
}

#[test]
fn maintainers_in_readme_match() {
    assert!(matches_any(&patterns::maintainers_in_readme(), "# Maintainers"));
    assert!(matches_any(&patterns::maintainers_in_readme(), 
        r"
...
## Project maintainers and others
...
        "
    ));
    assert!(matches_any(&patterns::maintainers_in_readme(), 
        r"
...
Maintainers
----------
...
        "
    ));
    assert!(matches_any(&patterns::maintainers_in_readme(), "[Project maintainers](...)"));
}

#[test]
fn patterns_openssf_url_extract() {
    assert_eq!(
        capture(&patterns::openssf_url(), "[![CII Best Practices](https://bestpractices.coreinfrastructure.org/projects/4106/badge)](https://bestpractices.coreinfrastructure.org/projects/4106)"),
        "https://bestpractices.coreinfrastructure.org/projects/4106"
    );
}

#[test]
fn roadmap_in_readme_match() {
    assert!(matches_any(&patterns::roadmap_in_readme(), "# Roadmap"));
    assert!(matches_any(&patterns::roadmap_in_readme(), 
        r"
...
## Project roadmap and others
...
        "
    ));
    assert!(matches_any(&patterns::roadmap_in_readme(), 
        r"
...
Roadmap
-------
...
        "
    ));
    assert!(matches_any(&patterns::roadmap_in_readme(), "[Project roadmap](...)"));
}

#[test]
fn sbom_in_gh_release_match() {
    assert!(matches_any(&patterns::sbom_in_gh_release(), "flux_0.28.2_sbom.spdx.json"));
}

#[test]
fn sbom_in_readme_match() {
    assert!(matches_any(&patterns::sbom_in_readme(), "# SBOM"));
    assert!(matches_any(&patterns::sbom_in_readme(), "# Software Bill of Materials"));
    assert!(matches_any(&patterns::sbom_in_readme(), 
        r"
...
## Project SBOM
...
        "
    ));
    assert!(matches_any(&patterns::sbom_in_readme(), 
        r"
...
Software Bill of Materials
--------------------------
...
        "
    ));
}

#[test]
fn security_polity_in_readme_match() {
    assert!(matches_any(&patterns::security_policy_in_readme(), "# Security"));
    assert!(matches_any(&patterns::security_policy_in_readme(), 
        r"
...
## Project security and others
...
        "
    ));
    assert!(matches_any(&patterns::security_policy_in_readme(), 
        r"
...
Security
--------
...
        "
    ));
    assert!(matches_any(&patterns::security_policy_in_readme(), "[Project security policy](...)"));
}

#[test]
fn slack_match() {
    assert!(matches_any(&patterns::slack_in_readme(), "Joining [CNCF slack](https://cloud-native.slack.com)"));
    assert!(matches_any(&patterns::slack_in_readme(), "Visit [http://slack.cncf.io/](http://slack.cncf.io/)"));
    assert!(matches_any(&patterns::slack_in_readme(), "[KEDA](https://kubernetes.slack.com/messages/CKZJ36A5D)"));
    assert!(matches_any(&patterns::slack_in_readme(), "[Kubernetes Slack](https://slack.k8s.io/)"));
}

#[test]
fn patterns_trademark_disclaimer_match() {
    assert!(matches_any(&patterns::trademark_disclaimer_in_website(), "https://www.linuxfoundation.org/trademark-usage"));
    assert!(
        matches_any(&patterns::trademark_disclaimer_in_website(), "https://linuxfoundation.org/trademark-usage")
    );
    assert!(matches_any(&patterns::trademark_disclaimer_in_website(), 
        "The Linux Foundation® (TLF) has registered trademarks and uses trademarks."
    ));
}
