//! Community meeting check: a reference to the community meetings in the
//! README file.

use vstd::prelude::*;

use crate::check::CheckOutput;
use crate::checks::{any_text_matches, text_views, texts_match, verdict, verdict_output};
use crate::patterns;

verus! {

/// Check main function: a reference to the community meetings in the README
/// files.
pub fn check(readmes: &Vec<String>) -> (r: CheckOutput<()>)
    ensures
        verdict(r, any_text_matches(patterns::community_meeting_text_patterns(), text_views(readmes@)), None),
{
    verdict_output(texts_match(readmes, &patterns::community_meeting_text()), None)
}

} // verus!
