//! License approved check: the repository license is one of the licenses
//! the CNCF approves.

use vstd::prelude::*;

use crate::check::{exemption_for, find_exemption, CheckOutput, Metadata};
use crate::checks::{verdict, verdict_output};
use crate::matching::views;
use crate::registry::{should_skip_check, skipped, CheckSet};
use crate::text;

verus! {

/// CNCF approved licenses
/// (<https://github.com/cncf/foundation/blob/master/allowed-third-party-license-policy.md>).
pub open spec fn approved_license_ids() -> Seq<Seq<char>> {
    seq![
        "Apache-2.0"@,
        "BSD-2-Clause"@,
        "BSD-2-Clause-FreeBSD"@,
        "BSD-3-Clause"@,
        "CC-BY-4.0"@,
        "ISC"@,
        "MIT"@,
        "PostgreSQL"@,
        "Python-2.0"@,
        "X11"@,
        "Zlib"@,
    ]
}

/// CNCF approved licenses.
pub fn approved_licenses() -> (r: [&'static str; 11])
    ensures
        views(r@) == approved_license_ids(),
{
    let r = [
        "Apache-2.0",
        "BSD-2-Clause",
        "BSD-2-Clause-FreeBSD",
        "BSD-3-Clause",
        "CC-BY-4.0",
        "ISC",
        "MIT",
        "PostgreSQL",
        "Python-2.0",
        "X11",
        "Zlib",
    ];
    proof {
        assert(views(r@) =~= approved_license_ids());
    }
    r
}

/// Check if the license provided is an approved one.
pub fn is_approved(spdx_id: &str) -> (r: bool)
    ensures
        r == approved_license_ids().contains(spdx_id@),
{
    let approved = approved_licenses();
    let mut i: usize = 0;
    while i < 11
        invariant
            i <= 11,
            views(approved@) == approved_license_ids(),
            forall|j: int| 0 <= j < i ==> #[trigger] approved_license_ids()[j] != spdx_id@,
        decreases 11 - i,
    {
        assert(approved_license_ids()[i as int] == approved@[i as int]@);
        if text::eq_str(approved[i], spdx_id) {
            assert(approved_license_ids()[i as int] == spdx_id@);
            return true;
        }
        i = i + 1;
    }
    false
}

/// Check main function: skipped (no output) when the check belongs to none
/// of the check sets requested, exempt when an exemption is declared, else
/// passed when the SPDX id provided is an approved license.
pub fn check(check_sets: &[CheckSet], cm_md: Option<&Metadata>, spdx_id: Option<String>) -> (r:
    Option<CheckOutput<()>>)
    ensures
        skipped("license_approved"@, check_sets@) ==> r is None,
        !skipped("license_approved"@, check_sets@) ==> match exemption_for(
            match cm_md {
                Some(md) => Some(*md),
                None => None,
            },
            "license_approved"@,
        ) {
            Some(e) => r == Some(
                CheckOutput::<()> {
                    exempt: true,
                    exemption_reason: Some(e.reason),
                    ..CheckOutput::<()>::empty()
                },
            ),
            None => r matches Some(o) && verdict(
                o,
                spdx_id matches Some(s) && approved_license_ids().contains(s@),
                None,
            ),
        },
{
    // Check if this check should be skipped
    if should_skip_check("license_approved", check_sets) {
        return None;
    }
    // Check if an exemption has been declared for this check
    if let Some(exemption) = find_exemption("license_approved", cm_md) {
        return Some(CheckOutput::exempt().exemption_reason(Some(exemption.reason)));
    }
    // SPDX id in list of approved licenses
    let passed = match &spdx_id {
        Some(s) => is_approved(s.as_str()),
        None => false,
    };
    Some(verdict_output(passed, None))
}

} // verus!
