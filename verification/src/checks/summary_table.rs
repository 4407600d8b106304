//! Summary table check: the project's summary table information in the
//! foundation landscape.

use vstd::prelude::*;

use crate::check::CheckOutput;
use crate::checks::opt_view;
use crate::landscape::{summary_markdown, summary_table_of, Landscape};
use crate::text;

verus! {

/// Check main function: exempt when no landscape is available for the
/// project, else passed with the summary table when the project has one in
/// the landscape.
pub fn check(landscape: Option<&Landscape>, project_name: &str) -> (r: CheckOutput<()>)
    ensures
        r.url is None && r.value is None && !r.failed && r.fail_reason is None,
        match landscape {
            None => r.exempt && !r.passed && r.details is None && opt_view(r.exemption_reason)
                == Some("Landscape information not available"@),
            Some(l) => !r.exempt && r.exemption_reason is None && match summary_table_of(
                *l,
                project_name@,
            ) {
                Some(st) => r.passed && opt_view(r.details) == Some(summary_markdown(st)),
                None => !r.passed && r.details is None,
            },
        },
{
    match landscape {
        None => CheckOutput::exempt().exemption_reason(
            Some(text::to_owned_string("Landscape information not available")),
        ),
        Some(l) => match l.get_summary_table_info(project_name) {
            Some(summary_table) => CheckOutput::passed().details(Some(summary_table.to_markdown())),
            None => CheckOutput::not_passed(),
        },
    }
}

} // verus!
