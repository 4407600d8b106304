//! Badge of a project: the message and color shown for its rating.

use vstd::prelude::*;

use crate::text::{self, uppercase};

verus! {

/// Color of the badge for the rating provided.
pub open spec fn badge_color(rating: Seq<char>) -> Seq<char> {
    if rating == "a"@ {
        "green"@
    } else if rating == "b"@ {
        "yellow"@
    } else if rating == "c"@ {
        "orange"@
    } else if rating == "d"@ {
        "red"@
    } else {
        "grey"@
    }
}

/// Message and color of the badge of a project with the rating provided
/// (none when the project has not been processed yet).
pub fn badge_config(rating: Option<&str>) -> (r: (String, &'static str))
    ensures
        match rating {
            Some(x) => r.0@ == uppercase(x@) && r.1@ == badge_color(x@),
            None => r.0@ == "not processed yet"@ && r.1@ == "grey"@,
        },
{
    match rating {
        Some(rating) => {
            let message = text::to_uppercase(rating);
            let color = if text::eq_str(rating, "a") {
                "green"
            } else if text::eq_str(rating, "b") {
                "yellow"
            } else if text::eq_str(rating, "c") {
                "orange"
            } else if text::eq_str(rating, "d") {
                "red"
            } else {
                "grey"
            };
            (message, color)
        },
        None => (text::to_owned_string("not processed yet"), "grey"),
    }
}

} // verus!
