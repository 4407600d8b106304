//! Annual review check: CNCF Sandbox projects present an annual review,
//! recorded in the foundation landscape.

use vstd::prelude::*;

use crate::check::CheckOutput;
use crate::checks::opt_view;
use crate::text;

verus! {

/// Days in a year plus the 60 days grace period a project has to present
/// its annual review.
pub const REVIEW_PERIOD_DAYS: i64 = 425;

/// Project information the check reads.
#[derive(Debug, Clone, PartialEq)]
pub struct ProjectInfo {
    pub name: String,
    pub foundation_id: String,
    pub maturity: Option<String>,
    /// Day the project was accepted (Julian day number).
    pub accepted_at: Option<i32>,
}

/// Project's annual review information.
#[derive(Debug, Clone, PartialEq)]
pub struct AnnualReview {
    /// Day of the last annual review (Julian day number).
    pub date: i32,
    pub url: String,
}

/// The project is a CNCF Sandbox project.
pub open spec fn is_cncf_sandbox(p: ProjectInfo) -> bool {
    &&& p.foundation_id@ == "cncf"@
    &&& opt_view(p.maturity) == Some("sandbox"@)
}

/// The output is an exemption with the reason provided.
pub open spec fn exempt_with(o: CheckOutput<()>, reason: Seq<char>) -> bool {
    &&& o.exempt && opt_view(o.exemption_reason) == Some(reason)
    &&& !o.passed && o.url is None && o.value is None && o.details is None
    &&& !o.failed && o.fail_reason is None
}

/// Outcome of the check for the project provided, on the day provided
/// (Julian day number), the landscape review being given when a landscape
/// is available for the project.
pub open spec fn review_outcome(
    o: CheckOutput<()>,
    project: Option<ProjectInfo>,
    today: int,
    review: Option<Option<AnnualReview>>,
) -> bool {
    match project {
        None => exempt_with(o, "Project information not available"@),
        Some(p) => match p.accepted_at {
            None => exempt_with(o, "Project accepted date not available"@),
            Some(accepted) => if !is_cncf_sandbox(p) {
                exempt_with(o, "This check only applies to CNCF Sandbox projects"@)
            } else {
                match review {
                    None => exempt_with(o, "Landscape information not available"@),
                    Some(r) => if today - accepted < REVIEW_PERIOD_DAYS {
                        exempt_with(
                            o,
                            "The project has not been required to present the annual review yet"@,
                        )
                    } else {
                        &&& !o.exempt && o.exemption_reason is None && o.value is None
                        &&& !o.failed && o.fail_reason is None
                        &&& match r {
                            Some(last) => if today < last.date + REVIEW_PERIOD_DAYS {
                                o.passed && opt_view(o.url) == Some(last.url@) && o.details is None
                            } else {
                                !o.passed && opt_view(o.url) == Some(last.url@) && opt_view(
                                    o.details,
                                ) == Some("Annual review information in landscape is outdated"@)
                            },
                            None => !o.passed && o.url is None && opt_view(o.details) == Some(
                                "Annual review information not found in landscape"@,
                            ),
                        }
                    },
                }
            },
        },
    }
}

/// Exempt output with the reason provided.
fn exempt(reason: &str) -> (r: CheckOutput<()>)
    ensures
        exempt_with(r, reason@),
{
    CheckOutput::exempt().exemption_reason(Some(text::to_owned_string(reason)))
}

/// Check main function: for the project provided, on the day provided
/// (Julian day number), with the review found in the landscape when a
/// landscape is available for the project.
pub fn check(project: Option<&ProjectInfo>, today: i32, review: Option<&Option<AnnualReview>>) -> (r:
    CheckOutput<()>)
    ensures
        review_outcome(
            r,
            match project {
                Some(p) => Some(*p),
                None => None,
            },
            today as int,
            match review {
                Some(x) => Some(*x),
                None => None,
            },
        ),
{
    // Check if project information is available
    let project = match project {
        Some(p) => p,
        None => return exempt("Project information not available"),
    };
    let accepted = match project.accepted_at {
        Some(d) => d,
        None => return exempt("Project accepted date not available"),
    };

    // This check only applies to CNCF Sandbox projects
    let sandbox = text::eq_str(project.foundation_id.as_str(), "cncf") && match &project.maturity {
        Some(m) => text::eq_str(m.as_str(), "sandbox"),
        None => false,
    };
    if !sandbox {
        return exempt("This check only applies to CNCF Sandbox projects");
    }

    // Check if landscape information is available
    let review = match review {
        Some(r) => r,
        None => return exempt("Landscape information not available"),
    };

    // Check if the project has been required to present the annual review yet
    if (today as i64) - (accepted as i64) < REVIEW_PERIOD_DAYS {
        return exempt("The project has not been required to present the annual review yet");
    }

    // Check annual review info in landscape
    match review {
        Some(last) => {
            if (today as i64) < (last.date as i64) + REVIEW_PERIOD_DAYS {
                CheckOutput::passed().url(Some(last.url.clone()))
            } else {
                CheckOutput::not_passed().details(
                    Some(text::to_owned_string("Annual review information in landscape is outdated")),
                ).url(Some(last.url.clone()))
            }
        },
        None => CheckOutput::not_passed().details(
            Some(text::to_owned_string("Annual review information not found in landscape")),
        ),
    }
}

} // verus!
