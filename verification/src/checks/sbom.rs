//! SBOM check: a software bill of materials attached to the latest release or
//! referenced in the README file.

use vstd::prelude::*;

use crate::check::CheckOutput;
use crate::checks::{any_text_matches, text_views, texts_match, verdict, verdict_output};
use crate::github::{latest_release, latest_release_of, MdRepository, MdRepositoryReleasesNodesReleaseAssetsNodes};
use crate::matching::{any_matches, matches_any};
use crate::patterns;

verus! {

/// The asset is present and its name looks like an SBOM.
pub open spec fn is_sbom_asset(asset: Option<MdRepositoryReleasesNodesReleaseAssetsNodes>) -> bool {
    asset matches Some(a) && any_matches(patterns::sbom_in_gh_release_patterns(), a.name@)
}

/// The latest release has an asset whose name looks like an SBOM.
pub open spec fn release_has_sbom(gh_md: MdRepository) -> bool {
    latest_release_of(gh_md) matches Some(rel) && rel.release_assets.nodes matches Some(assets)
        && exists|i: int| 0 <= i < assets@.len() && is_sbom_asset(#[trigger] assets@[i])
}

/// Does any of the assets provided look like an SBOM.
fn assets_have_sbom(assets: &Vec<Option<MdRepositoryReleasesNodesReleaseAssetsNodes>>) -> (r: bool)
    ensures
        r == exists|i: int| 0 <= i < assets@.len() && is_sbom_asset(#[trigger] assets@[i]),
{
    let mut i: usize = 0;
    while i < assets.len()
        invariant
            i <= assets@.len(),
            forall|j: int| 0 <= j < i ==> !is_sbom_asset(#[trigger] assets@[j]),
        decreases assets@.len() - i,
    {
        if let Some(a) = &assets[i] {
            if matches_any(&patterns::sbom_in_gh_release(), a.name.as_str()) {
                assert(is_sbom_asset(assets@[i as int]));
                return true;
            }
        }
        assert(!is_sbom_asset(assets@[i as int]));
        i = i + 1;
    }
    false
}

/// Check main function: an SBOM asset in the latest release, or a reference
/// in the README files.
pub fn check(gh_md: &MdRepository, readmes: &Vec<String>) -> (r: CheckOutput<()>)
    ensures
        verdict(
            r,
            release_has_sbom(*gh_md) || any_text_matches(patterns::sbom_in_readme_patterns(), text_views(readmes@)),
            None,
        ),
{
    // Asset in last release
    if let Some(rel) = latest_release(gh_md) {
        if let Some(assets) = &rel.release_assets.nodes {
            if assets_have_sbom(assets) {
                return verdict_output(true, None);
            }
        }
    }
    // Reference in README file
    verdict_output(texts_match(readmes, &patterns::sbom_in_readme()), None)
}

} // verus!
