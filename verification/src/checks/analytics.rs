//! Analytics check: analytics providers detected in the content of the
//! project website.

use vstd::prelude::*;

use crate::check::CheckOutput;
use crate::checks::{opt_view, text_views, verdict, verdict_output};
use crate::matching::{any_matches, matches_any, views};
use crate::text;

verus! {

/// Google Analytics 4 regular expressions.
pub open spec fn ga4_patterns() -> Seq<Seq<char>> {
    seq![r"\bG-[A-Z0-9]{10}\b"@]
}

/// Google Analytics 4 regular expressions.
pub fn ga4() -> (r: [&'static str; 1])
    ensures
        views(r@) == ga4_patterns(),
{
    let r = [r"\bG-[A-Z0-9]{10}\b"];
    proof {
        assert(views(r@) =~= ga4_patterns());
    }
    r
}

/// Google Tag Manager regular expressions.
pub open spec fn gtm_patterns() -> Seq<Seq<char>> {
    seq![r"\bGTM-[A-Z0-9]{4,8}\b"@]
}

/// Google Tag Manager regular expressions.
pub fn gtm() -> (r: [&'static str; 1])
    ensures
        views(r@) == gtm_patterns(),
{
    let r = [r"\bGTM-[A-Z0-9]{4,8}\b"];
    proof {
        assert(views(r@) =~= gtm_patterns());
    }
    r
}

/// HubSpot Analytics regular expressions.
pub open spec fn hubspot_patterns() -> Seq<Seq<char>> {
    seq![r"(?:js\.hs-scripts\.com|js-[a-z0-9]+\.hs-scripts\.com)/\d{6,10}\.js"@]
}

/// HubSpot Analytics regular expressions.
pub fn hubspot() -> (r: [&'static str; 1])
    ensures
        views(r@) == hubspot_patterns(),
{
    let r = [r"(?:js\.hs-scripts\.com|js-[a-z0-9]+\.hs-scripts\.com)/\d{6,10}\.js"];
    proof {
        assert(views(r@) =~= hubspot_patterns());
    }
    r
}

/// Plausible Analytics regular expressions.
pub open spec fn plausible_patterns() -> Seq<Seq<char>> {
    seq![r"plausible\.io/js/script(?:\.[a-z-]+)*\.js"@]
}

/// Plausible Analytics regular expressions.
pub fn plausible() -> (r: [&'static str; 1])
    ensures
        views(r@) == plausible_patterns(),
{
    let r = [r"plausible\.io/js/script(?:\.[a-z-]+)*\.js"];
    proof {
        assert(views(r@) =~= plausible_patterns());
    }
    r
}

/// Scarf Analytics regular expressions.
pub open spec fn scarf_patterns() -> Seq<Seq<char>> {
    seq![r"static\.scarf\.sh/a\.png\?x-pxid=[a-f0-9]{8}-[a-f0-9]{4}-[a-f0-9]{4}-[a-f0-9]{4}-[a-f0-9]{12}"@]
}

/// Scarf Analytics regular expressions.
pub fn scarf() -> (r: [&'static str; 1])
    ensures
        views(r@) == scarf_patterns(),
{
    let r = [r"static\.scarf\.sh/a\.png\?x-pxid=[a-f0-9]{8}-[a-f0-9]{4}-[a-f0-9]{4}-[a-f0-9]{4}-[a-f0-9]{12}"];
    proof {
        assert(views(r@) =~= scarf_patterns());
    }
    r
}

/// Providers detected so far, extended with the one provided when it was
/// detected.
pub open spec fn step(
    found: Seq<(Seq<char>, Seq<char>)>,
    hit: bool,
    name: Seq<char>,
    label: Seq<char>,
) -> Seq<(Seq<char>, Seq<char>)> {
    if hit {
        found.push((name, label))
    } else {
        found
    }
}

/// Providers detected in the content (name and label), in this order:
/// Google Analytics 4, Google Tag Manager, HubSpot, Plausible, Scarf.
pub open spec fn detected(content: Seq<char>) -> Seq<(Seq<char>, Seq<char>)> {
    let d1 = step(Seq::empty(), any_matches(ga4_patterns(), content), "GA4"@, "Google Analytics 4"@);
    let d2 = step(d1, any_matches(gtm_patterns(), content), "GTM"@, "Google Tag Manager"@);
    let d3 = step(d2, any_matches(hubspot_patterns(), content), "HubSpot"@, "HubSpot"@);
    let d4 = step(d3, any_matches(plausible_patterns(), content), "Plausible"@, "Plausible Analytics"@);
    step(d4, any_matches(scarf_patterns(), content), "Scarf"@, "Scarf Analytics"@)
}

/// Details listing the providers detected.
pub open spec fn details_text(found: Seq<(Seq<char>, Seq<char>)>) -> Seq<char>
    decreases found.len(),
{
    if found.len() == 0 {
        "# Analytics providers detected in project's website \n\n"@
    } else {
        details_text(found.drop_last()) + "· "@ + found.last().1 + "\n"@
    }
}

/// Record the provider provided when any of its patterns matches.
fn detect(
    content: &str,
    patterns: &[&str],
    name: &str,
    label: &str,
    names: &mut Vec<String>,
    details: &mut String,
    Ghost(found): Ghost<Seq<(Seq<char>, Seq<char>)>>,
) -> (hit: bool)
    requires
        text_views(old(names)@) == found.map_values(|p: (Seq<char>, Seq<char>)| p.0),
        old(details)@ == details_text(found),
    ensures
        hit == any_matches(views(patterns@), content@),
        text_views(final(names)@) == step(found, hit, name@, label@).map_values(
            |p: (Seq<char>, Seq<char>)| p.0,
        ),
        final(details)@ == details_text(step(found, hit, name@, label@)),
{
    let hit = matches_any(patterns, content);
    if hit {
        names.push(text::to_owned_string(name));
        text::push_str(details, "· ");
        text::push_str(details, label);
        text::push_str(details, "\n");
        proof {
            let f2 = found.push((name@, label@));
            assert(f2.drop_last() =~= found);
            assert(text_views(names@) =~= text_views(old(names)@).push(name@));
            assert(text_views(names@) =~= f2.map_values(|p: (Seq<char>, Seq<char>)| p.0));
        }
    }
    hit
}

/// Check main function: the analytics providers detected in the content of
/// the website (none when there is no website), reported by name and
/// listed in the details.
pub fn check(content: Option<&str>) -> (r: CheckOutput<Vec<String>>)
    ensures
        match content {
            None => verdict(r, false, None),
            Some(c) => if detected(c@).len() > 0 {
                &&& r.passed
                &&& r.value matches Some(v) && text_views(v@) == detected(c@).map_values(
                    |p: (Seq<char>, Seq<char>)| p.0,
                )
                &&& opt_view(r.details) == Some(details_text(detected(c@)))
                &&& r.url is None && !r.exempt && r.exemption_reason is None
                &&& !r.failed && r.fail_reason is None
            } else {
                verdict(r, false, None)
            },
        },
{
    let content = match content {
        Some(c) => c,
        None => return verdict_output(false, None),
    };
    let mut names: Vec<String> = Vec::new();
    let mut details = text::to_owned_string("# Analytics providers detected in project's website \n\n");
    let ghost d0: Seq<(Seq<char>, Seq<char>)> = Seq::empty();
    proof {
        assert(text_views(names@) =~= d0.map_values(|p: (Seq<char>, Seq<char>)| p.0));
    }
    let h1 = detect(content, &ga4(), "GA4", "Google Analytics 4", &mut names, &mut details, Ghost(d0));
    let ghost d1 = step(d0, h1, "GA4"@, "Google Analytics 4"@);
    let h2 = detect(content, &gtm(), "GTM", "Google Tag Manager", &mut names, &mut details, Ghost(d1));
    let ghost d2 = step(d1, h2, "GTM"@, "Google Tag Manager"@);
    let h3 = detect(content, &hubspot(), "HubSpot", "HubSpot", &mut names, &mut details, Ghost(d2));
    let ghost d3 = step(d2, h3, "HubSpot"@, "HubSpot"@);
    let h4 = detect(
        content,
        &plausible(),
        "Plausible",
        "Plausible Analytics",
        &mut names,
        &mut details,
        Ghost(d3),
    );
    let ghost d4 = step(d3, h4, "Plausible"@, "Plausible Analytics"@);
    let h5 = detect(content, &scarf(), "Scarf", "Scarf Analytics", &mut names, &mut details, Ghost(d4));
    proof {
        assert(step(d4, h5, "Scarf"@, "Scarf Analytics"@) == detected(content@));
    }
    proof {
        assert(text_views(names@).len() == names@.len());
        assert(detected(content@).map_values(|p: (Seq<char>, Seq<char>)| p.0).len() == detected(
            content@,
        ).len());
    }
    if names.len() > 0 {
        return CheckOutput::passed().value(Some(names)).details(Some(details));
    }
    verdict_output(false, None)
}

} // verus!
