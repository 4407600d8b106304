use clomonitor_core::checks::{
    adopters, agent_readiness, analytics, changelog, cla, code_of_conduct, contributing,
    license_approved, roadmap, slack_presence, trademark_disclaimer,
};
use clomonitor_core::matching::matches_any;

const LLMS_TXT: &str = "# Project\n\n> Docs index for AI agents.\n\n## Docs\n\n- [Getting started](https://example.test/docs/getting-started.md)\n";

#[test]
fn adopters_readme_ref_match() {
    assert!(matches_any(&adopters::readme_ref(), "# Adopters"));
    assert!(matches_any(&adopters::readme_ref(), 
        r"
...
## Project adopters and others
...
        "
    ));
    assert!(matches_any(&adopters::readme_ref(), 
        r"
...
Adopters
--------
...
        "
    ));
    assert!(matches_any(&adopters::readme_ref(), "[Project adopters](...)"));
}

#[test]
fn ga4_match() {
    assert!(matches_any(&analytics::ga4(), "G-ABCDEFGHIJ"));
    assert!(matches_any(&analytics::ga4(), "G-1234567890"));
    assert!(matches_any(&analytics::ga4(), "G-NVMH1T3GEK"));
    assert!(matches_any(&analytics::ga4(), "https://www.googletagmanager.com/gtag/js?id=G-ABCDEFGHIJ"));
    assert!(matches_any(&analytics::ga4(), "http://googletagmanager.com/gtag/js?id=G-1234567890"));
    assert!(matches_any(&analytics::ga4(), "gtag('config', 'G-ABCDEFGHIJ')"));
    assert!(matches_any(&analytics::ga4(), "gtag ( \"config\" , \"G-1234567890\" )"));

    assert!(!matches_any(&analytics::ga4(), "G-ABC")); // Too short
    assert!(!matches_any(&analytics::ga4(), "G-ABCDEFGHIJK")); // Too long
    assert!(!matches_any(&analytics::ga4(), "UA-12345678-1")); // Universal Analytics format
}

#[test]
fn gtm_match() {
    assert!(matches_any(&analytics::gtm(), "GTM-ABCD"));
    assert!(matches_any(&analytics::gtm(), "GTM-ABC123"));
    assert!(matches_any(&analytics::gtm(), "GTM-12345678"));
    assert!(matches_any(&analytics::gtm(), "https://www.googletagmanager.com/gtm.js?id=GTM-ABC123"));
    assert!(matches_any(&analytics::gtm(), "http://googletagmanager.com/gtm.js?id=GTM-WXYZ"));
    assert!(matches_any(&analytics::gtm(), "https://www.googletagmanager.com/ns.html?id=GTM-ABC123"));
    assert!(matches_any(&analytics::gtm(), "http://googletagmanager.com/ns.html?id=GTM-12345"));

    assert!(!matches_any(&analytics::gtm(), "GTM-ABC")); // Too short
    assert!(!matches_any(&analytics::gtm(), "GTM-123456789")); // Too long
    assert!(!matches_any(&analytics::gtm(), "G-ABCDEFGHIJ")); // GA4 format
}

#[test]
fn hubspot_match() {
    assert!(matches_any(&analytics::hubspot(), "https://js.hs-scripts.com/123456.js"));
    assert!(matches_any(&analytics::hubspot(), "//js.hs-scripts.com/1234567890.js"));
    assert!(matches_any(&analytics::hubspot(), "https://js-na1.hs-scripts.com/987654.js"));
    assert!(matches_any(&analytics::hubspot(), "https://js-eu1.hs-scripts.com/123456789.js"));

    assert!(!matches_any(&analytics::hubspot(), "https://js.hs-scripts.com/12345.js")); // Too short Hub ID
    assert!(!matches_any(&analytics::hubspot(), "https://js.hs-scripts.com/12345678901.js")); // Too long Hub ID
}

#[test]
fn plausible_match() {
    assert!(matches_any(&analytics::plausible(), "https://plausible.io/js/script.js"));
    assert!(matches_any(&analytics::plausible(), "https://plausible.io/js/script.outbound-links.js"));
    assert!(
        matches_any(&analytics::plausible(), "data-domain=\"example.com\" src=\"https://plausible.io/js/script.js\"")
    );
}

#[test]
fn scarf_match() {
    assert!(
        matches_any(&analytics::scarf(), 
            "https://static.scarf.sh/a.png?x-pxid=a1b2c3d4-e5f6-7890-abcd-ef1234567890"
        )
    );
    assert!(
        matches_any(&analytics::scarf(), 
            "http://static.scarf.sh/a.png?x-pxid=12345678-1234-1234-1234-123456789012"
        )
    );

    assert!(!matches_any(&analytics::scarf(), "http://static.scarf.sh/a.png?x-pxid=1234")); // Too short pxid
    assert!(!matches_any(&analytics::scarf(), "http://static.scarf.sh/a.png?x-pxid=not-a-valid-uuid")); // Invalid UUID format
    assert!(
        !matches_any(&analytics::scarf(), 
            "http://static.scarf.sh/a.png?x-pxid=12345678-1234-1234-1234-12345678901"
        )
    );
    // Wrong segment lengths
}

#[test]
fn changelog_readme_ref_match() {
    assert!(matches_any(&changelog::readme_ref(), "# Changelog"));
    assert!(matches_any(&changelog::readme_ref(), 
        r"
...
## Project changelog and others
...
        "
    ));
    assert!(matches_any(&changelog::readme_ref(), 
        r"
...
Changelog
=========
...
        "
    ));
    assert!(matches_any(&changelog::readme_ref(), "[Project changelog](...)"));
}

#[test]
fn release_ref_match() {
    assert!(matches_any(&changelog::release_ref(), "# Changelog"));
    assert!(matches_any(&changelog::release_ref(), "Below you can find the changelog"));
}

#[test]
fn check_ref_match() {
    assert!(matches_any(&cla::check_ref(), r"EasyCLA"));
    assert!(matches_any(&cla::check_ref(), r"cncf-cla"));
    assert!(matches_any(&cla::check_ref(), r"cla/linuxfoundation"));
    assert!(matches_any(&cla::check_ref(), r"license/cla"));
    assert!(matches_any(&cla::check_ref(), r"cla/google"));
}

#[test]
fn code_of_conduct_readme_ref_match() {
    assert!(matches_any(&code_of_conduct::readme_ref(), "# Code of conduct"));
    assert!(matches_any(&code_of_conduct::readme_ref(), 
        r"
...
## Project code of conduct and others
...
        "
    ));
    assert!(matches_any(&code_of_conduct::readme_ref(), 
        r"
...
Code of Conduct
---------------
...
        "
    ));
    assert!(matches_any(&code_of_conduct::readme_ref(), "[code of conduct](...)"));
}

#[test]
fn contributing_readme_ref_match() {
    assert!(matches_any(&contributing::readme_ref(), "# Contributing"));
    assert!(matches_any(&contributing::readme_ref(), 
        r"
...
## Some stuff, contributing and others
...
        "
    ));
    assert!(matches_any(&contributing::readme_ref(), 
        r"
...
Contributing
------------
...
        "
    ));
    assert!(matches_any(&contributing::readme_ref(), "[Project contributing](...)"));
}

#[test]
fn roadmap_readme_ref_match() {
    assert!(matches_any(&roadmap::readme_ref(), "# Roadmap"));
    assert!(matches_any(&roadmap::readme_ref(), 
        r"
...
## Project roadmap and others
...
        "
    ));
    assert!(matches_any(&roadmap::readme_ref(), 
        r"
...
Roadmap
-------
...
        "
    ));
    assert!(matches_any(&roadmap::readme_ref(), "[Project roadmap](...)"));
}

#[test]
fn slack_presence_readme_ref_match() {
    assert!(matches_any(&slack_presence::readme_ref(), "Joining [CNCF slack](https://cloud-native.slack.com)"));
    assert!(matches_any(&slack_presence::readme_ref(), "Visit [http://slack.cncf.io/](http://slack.cncf.io/)"));
    assert!(matches_any(&slack_presence::readme_ref(), "[KEDA](https://kubernetes.slack.com/messages/CKZJ36A5D)"));
    assert!(matches_any(&slack_presence::readme_ref(), "[Kubernetes Slack](https://slack.k8s.io/)"));
}

#[test]
fn trademark_disclaimer_trademark_disclaimer_match() {
    assert!(matches_any(&trademark_disclaimer::trademark_disclaimer(), "https://www.linuxfoundation.org/trademark-usage"));
    assert!(
        matches_any(&trademark_disclaimer::trademark_disclaimer(), "https://www.linuxfoundation.org/legal/trademark-usage")
    );
    assert!(matches_any(&trademark_disclaimer::trademark_disclaimer(), "https://linuxfoundation.org/trademark-usage"));
    assert!(matches_any(&trademark_disclaimer::trademark_disclaimer(), "https://linuxfoundation.org/legal/trademark-usage"));
    assert!(matches_any(&trademark_disclaimer::trademark_disclaimer(), 
        "The Linux Foundation® (TLF) has registered trademarks and uses trademarks."
    ));
    assert!(
        matches_any(&trademark_disclaimer::trademark_disclaimer(), "Copyright © Kubernetes a Series of LF Projects, LLC")
    );
}

#[test]
fn license_approved_approved_license() {
    assert!(license_approved::is_approved("Apache-2.0"));
    assert!(license_approved::is_approved("MIT"));
}

#[test]
fn license_approved_non_approved_license() {
    assert!(!license_approved::is_approved("AGPL-1.0-only"));
}

#[test]
fn is_llms_txt_content_valid() {
    assert!(agent_readiness::is_llms_txt_content(LLMS_TXT));
    assert!(agent_readiness::is_llms_txt_content("# Title only"));
    assert!(agent_readiness::is_llms_txt_content("plain text index"));
}

#[test]
fn is_llms_txt_content_empty() {
    assert!(!agent_readiness::is_llms_txt_content(""));
    assert!(!agent_readiness::is_llms_txt_content("   \n\t  "));
}

#[test]
fn is_llms_txt_content_html() {
    assert!(!agent_readiness::is_llms_txt_content(
        "<!DOCTYPE html><html><body>404</body></html>"
    ));
    assert!(!agent_readiness::is_llms_txt_content("<!doctype html>"));
    assert!(!agent_readiness::is_llms_txt_content(
        "<html lang=\"en\"><head></head></html>"
    ));
    assert!(!agent_readiness::is_llms_txt_content(
        "\n  <HTML><BODY>SPA shell</BODY></HTML>"
    ));
    assert!(!agent_readiness::is_llms_txt_content(
        "<head><title>Not found</title></head>"
    ));
    assert!(!agent_readiness::is_llms_txt_content("<body>fallback</body>"));
}
