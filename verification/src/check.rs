//! Check output information and the metadata that controls how checks run.

use vstd::prelude::*;
use vstd::std_specs::convert::FromSpecImpl;

use crate::github::{build_repo_url, repo_file_url, MdRepository};
use crate::text;

verus! {

/// Check output information.
#[derive(Debug, Clone, PartialEq)]
pub struct CheckOutput<T = ()> {
    pub passed: bool,
    pub url: Option<String>,
    pub value: Option<T>,
    pub details: Option<String>,
    pub exempt: bool,
    pub exemption_reason: Option<String>,
    pub failed: bool,
    pub fail_reason: Option<String>,
}

impl<T> CheckOutput<T> {
    /// All fields unset: not passed, not exempt, not failed.
    pub open spec fn empty() -> Self {
        CheckOutput {
            passed: false,
            url: None,
            value: None,
            details: None,
            exempt: false,
            exemption_reason: None,
            failed: false,
            fail_reason: None,
        }
    }

    /// Create a new CheckOutput instance with the passed field set to true.
    pub fn passed() -> (r: Self)
        ensures
            r == (CheckOutput::<T> { passed: true, ..Self::empty() }),
    {
        CheckOutput {
            passed: true,
            url: None,
            value: None,
            details: None,
            exempt: false,
            exemption_reason: None,
            failed: false,
            fail_reason: None,
        }
    }

    /// Create a new CheckOutput instance with the passed field set to false.
    pub fn not_passed() -> (r: Self)
        ensures
            r == Self::empty(),
    {
        CheckOutput {
            passed: false,
            url: None,
            value: None,
            details: None,
            exempt: false,
            exemption_reason: None,
            failed: false,
            fail_reason: None,
        }
    }

    /// Create a new CheckOutput instance with the exempt field set to true.
    pub fn exempt() -> (r: Self)
        ensures
            r == (CheckOutput::<T> { exempt: true, ..Self::empty() }),
    {
        CheckOutput {
            passed: false,
            url: None,
            value: None,
            details: None,
            exempt: true,
            exemption_reason: None,
            failed: false,
            fail_reason: None,
        }
    }

    /// Create a new CheckOutput instance with the failed field set to true.
    pub fn failed() -> (r: Self)
        ensures
            r == (CheckOutput::<T> { failed: true, ..Self::empty() }),
    {
        CheckOutput {
            passed: false,
            url: None,
            value: None,
            details: None,
            exempt: false,
            exemption_reason: None,
            failed: true,
            fail_reason: None,
        }
    }

    /// Url field setter.
    pub fn url(self, url: Option<String>) -> (r: Self)
        ensures
            r == (CheckOutput { url, ..self }),
    {
        CheckOutput { url, ..self }
    }

    /// Value field setter.
    pub fn value(self, value: Option<T>) -> (r: Self)
        ensures
            r == (CheckOutput { value, ..self }),
    {
        CheckOutput { value, ..self }
    }

    /// Details field setter.
    pub fn details(self, details: Option<String>) -> (r: Self)
        ensures
            r == (CheckOutput { details, ..self }),
    {
        CheckOutput { details, ..self }
    }

    /// Exemption reason field setter.
    pub fn exemption_reason(self, reason: Option<String>) -> (r: Self)
        ensures
            r == (CheckOutput { exemption_reason: reason, ..self }),
    {
        CheckOutput { exemption_reason: reason, ..self }
    }

    /// Fail reason field setter.
    pub fn fail_reason(self, reason: Option<String>) -> (r: Self)
        ensures
            r == (CheckOutput { fail_reason: reason, ..self }),
    {
        CheckOutput { fail_reason: reason, ..self }
    }
}


impl<T> Default for CheckOutput<T> {
    fn default() -> (r: Self)
        ensures
            r == Self::empty(),
    {
        Self::not_passed()
    }
}

impl<T> From<bool> for CheckOutput<T> {
    fn from(passed: bool) -> (r: Self) {
        CheckOutput { passed, ..Self::not_passed() }
    }
}

impl<T> FromSpecImpl<bool> for CheckOutput<T> {
    open spec fn obeys_from_spec() -> bool {
        true
    }

    open spec fn from_spec(passed: bool) -> Self {
        CheckOutput { passed, ..Self::empty() }
    }
}

impl<T> From<Option<T>> for CheckOutput<T> {
    fn from(value: Option<T>) -> (r: Self) {
        CheckOutput { passed: value.is_some(), value, ..Self::not_passed() }
    }
}

impl<T> FromSpecImpl<Option<T>> for CheckOutput<T> {
    open spec fn obeys_from_spec() -> bool {
        true
    }

    open spec fn from_spec(value: Option<T>) -> Self {
        CheckOutput { passed: value is Some, value, ..Self::empty() }
    }
}

impl<T> From<Exemption> for CheckOutput<T> {
    fn from(exemption: Exemption) -> (r: Self) {
        Self::exempt().exemption_reason(Some(exemption.reason))
    }
}

impl<T> FromSpecImpl<Exemption> for CheckOutput<T> {
    open spec fn obeys_from_spec() -> bool {
        true
    }

    open spec fn from_spec(exemption: Exemption) -> Self {
        CheckOutput { exempt: true, exemption_reason: Some(exemption.reason), ..Self::empty() }
    }
}

impl<T> CheckOutput<T> {
    /// Create a new CheckOutput instance from the url provided: passed when a
    /// url is available.
    pub fn from_url(url: Option<String>) -> (r: Self)
        ensures
            r == (CheckOutput::<T> { passed: url is Some, url, ..Self::empty() }),
    {
        CheckOutput { passed: url.is_some(), url, ..Self::not_passed() }
    }
}

impl<T> CheckOutput<T> {
    /// Create a new CheckOutput instance from the path of a file found in the
    /// repository: passed, with the file's url, when a path is provided.
    pub fn from_path(path: Option<&str>, gh_md: &MdRepository) -> (r: Self)
        ensures
            r.passed == path is Some,
            match path {
                Some(p) => r.url matches Some(u) && u@ == repo_file_url(p@, *gh_md),
                None => r.url is None,
            },
            r.value is None && r.details is None && !r.exempt && r.exemption_reason is None,
            !r.failed && r.fail_reason is None,
    {
        match path {
            Some(p) => Self::from_url(Some(build_repo_url(p, gh_md))),
            None => Self::not_passed(),
        }
    }
}

/// Check result information.
#[derive(Debug, PartialEq)]
#[non_exhaustive]
pub struct CheckResult<T = ()> {
    pub passed: bool,
    pub url: Option<String>,
    pub value: Option<T>,
}

impl<T> CheckResult<T> {
    /// Not passed, without url or value.
    pub open spec fn empty() -> Self {
        CheckResult { passed: false, url: None, value: None }
    }

    /// Create a new CheckResult instance from the url provided: passed when a
    /// url is available.
    pub fn from_url(url: Option<String>) -> (r: Self)
        ensures
            r == (CheckResult::<T> { passed: url is Some, url, value: None }),
    {
        CheckResult { passed: url.is_some(), url, value: None }
    }
}

impl<T> Default for CheckResult<T> {
    fn default() -> (r: Self)
        ensures
            r == Self::empty(),
    {
        CheckResult { passed: false, url: None, value: None }
    }
}

impl<T> From<bool> for CheckResult<T> {
    fn from(passed: bool) -> (r: Self) {
        CheckResult { passed, url: None, value: None }
    }
}

impl<T> FromSpecImpl<bool> for CheckResult<T> {
    open spec fn obeys_from_spec() -> bool {
        true
    }

    open spec fn from_spec(passed: bool) -> Self {
        CheckResult { passed, url: None, value: None }
    }
}

impl<T> From<Option<T>> for CheckResult<T> {
    fn from(value: Option<T>) -> (r: Self) {
        CheckResult { passed: value.is_some(), url: None, value }
    }
}

impl<T> FromSpecImpl<Option<T>> for CheckResult<T> {
    open spec fn obeys_from_spec() -> bool {
        true
    }

    open spec fn from_spec(value: Option<T>) -> Self {
        CheckResult { passed: value is Some, url: None, value }
    }
}

impl<T> From<(bool, Option<T>)> for CheckResult<T> {
    fn from(pv: (bool, Option<T>)) -> (r: Self) {
        let (passed, value) = pv;
        CheckResult { passed, url: None, value }
    }
}

impl<T> FromSpecImpl<(bool, Option<T>)> for CheckResult<T> {
    open spec fn obeys_from_spec() -> bool {
        true
    }

    open spec fn from_spec(pv: (bool, Option<T>)) -> Self {
        CheckResult { passed: pv.0, url: None, value: pv.1 }
    }
}

/// Metadata check exemption entry.
#[derive(Debug, Clone, PartialEq)]
pub struct Exemption {
    pub check: String,
    pub reason: String,
}

impl Exemption {
    /// A copy of this exemption.
    pub fn copied(&self) -> (r: Exemption)
        ensures
            r == *self,
    {
        Exemption { check: self.check.clone(), reason: self.reason.clone() }
    }
}

/// License scanning section of the metadata.
#[derive(Debug, Clone, PartialEq)]
pub struct LicenseScanning {
    pub url: Option<String>,
}

/// Agent readiness section of the metadata.
#[derive(Debug, Clone, PartialEq)]
pub struct AgentReadiness {
    pub url: Option<String>,
}

impl Default for Metadata {
    /// Metadata declaring nothing.
    fn default() -> (r: Metadata)
        ensures
            r.exemptions is None && r.license_scanning is None && r.agent_readiness is None,
    {
        Metadata { exemptions: None, license_scanning: None, agent_readiness: None }
    }
}

/// CLOMonitor metadata (`.clomonitor.yml`).
#[derive(Debug, Clone, PartialEq)]
pub struct Metadata {
    pub exemptions: Option<Vec<Exemption>>,
    pub license_scanning: Option<LicenseScanning>,
    pub agent_readiness: Option<AgentReadiness>,
}

/// Index of the first exemption declared for the check provided.
pub open spec fn first_exemption_index(exemptions: Seq<Exemption>, check_id: Seq<char>) -> Option<
    int,
> {
    if exists|i: int| 0 <= i < exemptions.len() && exemptions[i].check@ == check_id {
        Some(
            choose|i: int|
                0 <= i < exemptions.len() && exemptions[i].check@ == check_id && forall|j: int|
                    0 <= j < i ==> exemptions[j].check@ != check_id,
        )
    } else {
        None
    }
}

/// Exemption that applies to the check provided: the first one declared for
/// it in the metadata, when its reason is not empty.
pub open spec fn exemption_for(cm_md: Option<Metadata>, check_id: Seq<char>) -> Option<Exemption> {
    match cm_md {
        Some(md) => match md.exemptions {
            Some(exemptions) => match first_exemption_index(exemptions@, check_id) {
                Some(i) => if exemptions@[i].reason@.len() > 0 {
                    Some(exemptions@[i])
                } else {
                    None
                },
                None => None,
            },
            None => None,
        },
        None => None,
    }
}

/// Check if the repository is exempt from passing the provided check.
pub fn find_exemption(check_id: &str, cm_md: Option<&Metadata>) -> (r: Option<Exemption>)
    ensures
        r == exemption_for(
            match cm_md {
                Some(md) => Some(*md),
                None => None,
            },
            check_id@,
        ),
{
    let md = match cm_md {
        Some(md) => md,
        None => return None,
    };
    let exemptions = match &md.exemptions {
        Some(exemptions) => exemptions,
        None => return None,
    };
    let mut i: usize = 0;
    while i < exemptions.len()
        invariant
            i <= exemptions@.len(),
            cm_md == Some(md),
            md.exemptions == Some(*exemptions),
            forall|j: int| 0 <= j < i ==> exemptions@[j].check@ != check_id@,
        decreases exemptions@.len() - i,
    {
        let e = &exemptions[i];
        if text::eq_str(e.check.as_str(), check_id) {
            let ghost idx = first_exemption_index(exemptions@, check_id@);
            proof {
                assert(exists|k: int| 0 <= k < exemptions@.len() && exemptions@[k].check@ == check_id@);
                let c = idx->0;
                if c < i {
                    assert(exemptions@[c].check@ == check_id@);
                } else if c > i {
                    assert(exemptions@[i as int].check@ == check_id@);
                }
                assert(c == i);
            }
            if !e.reason.as_str().is_empty() {
                return Some(e.copied());
            } else {
                return None;
            }
        }
        i = i + 1;
    }
    None
}

} // verus!
