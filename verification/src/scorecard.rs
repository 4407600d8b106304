//! OpenSSF Scorecard datasource: the checks of a scorecard report and the
//! check outputs built from them.

use vstd::prelude::*;

use crate::check::CheckOutput;
use crate::checks::opt_view;
use crate::registry::{check_config, check_index, check_table, Datasource, DatasourceModel};
use crate::text;

verus! {

/// Score of a scorecard check, as the checks read it: whether it reaches
/// each of the two pass thresholds (1 and 5) and how it is displayed.
#[derive(Debug, Clone, PartialEq)]
pub struct ScorecardScore {
    pub at_least_one: bool,
    pub at_least_five: bool,
    pub display: String,
}

/// Scorecard check documentation.
#[derive(Debug, Clone, PartialEq)]
pub struct ScorecardCheckDocs {
    pub url: String,
}

/// Scorecard check details.
#[derive(Debug, Clone, PartialEq)]
pub struct ScorecardCheck {
    pub name: String,
    pub reason: String,
    pub details: Option<Vec<String>>,
    pub score: ScorecardScore,
    pub documentation: ScorecardCheckDocs,
}

/// Scorecard report (list of checks).
#[derive(Debug, Clone, PartialEq)]
pub struct Scorecard {
    pub checks: Vec<ScorecardCheck>,
}

/// Scorecard check name the check provided is backed by, if any.
pub open spec fn scorecard_name_of(check_id: Seq<char>) -> Option<Seq<char>> {
    match check_index(check_id) {
        Some(k) => match check_table()[k].3 {
            Some(DatasourceModel::Scorecard(name)) => Some(name),
            _ => None,
        },
        None => None,
    }
}

/// Return the scorecard check name the check provided is backed by.
pub fn check_name(check_id: &str) -> (r: &'static str)
    requires
        scorecard_name_of(check_id@) is Some,
    ensures
        Some(r@) == scorecard_name_of(check_id@),
{
    let config = check_config(check_id);
    match config {
        Some(c) => match c.datasource {
            Some(Datasource::Scorecard { name }) => name,
            _ => {
                assert(false);
                ""
            },
        },
        None => {
            assert(false);
            ""
        },
    }
}

/// Checks with the name provided.
pub open spec fn named(name: Seq<char>) -> spec_fn(ScorecardCheck) -> bool {
    |c: ScorecardCheck| c.name@ == name
}

/// Position of the first check with the name provided.
pub open spec fn check_position(checks: Seq<ScorecardCheck>, name: Seq<char>) -> Option<int> {
    crate::search::first_index(checks, named(name))
}

/// The scorecard check the check provided is backed by, or the error met
/// getting the scorecard.
pub open spec fn scorecard_check_of(scorecard: Result<Scorecard, String>, check_id: Seq<char>) -> Result<
    Option<ScorecardCheck>,
    String,
> {
    match scorecard {
        Ok(s) => match check_position(s.checks@, scorecard_name_of(check_id)->0) {
            Some(i) => Ok(Some(s.checks@[i])),
            None => Ok(None),
        },
        Err(e) => Err(e),
    }
}

/// Get a check from the scorecard provided if available.
pub fn get_check<'a>(scorecard: &'a Result<Scorecard, String>, check_id: &str) -> (r: Result<
    Option<&'a ScorecardCheck>,
    &'a String,
>)
    requires
        scorecard_name_of(check_id@) is Some,
    ensures
        match r {
            Ok(Some(c)) => scorecard_check_of(*scorecard, check_id@) == Ok::<
                Option<ScorecardCheck>,
                String,
            >(Some(*c)),
            Ok(None) => scorecard_check_of(*scorecard, check_id@) == Ok::<
                Option<ScorecardCheck>,
                String,
            >(None),
            Err(e) => scorecard_check_of(*scorecard, check_id@) == Err::<
                Option<ScorecardCheck>,
                String,
            >(*e),
        },
{
    match scorecard {
        Ok(s) => {
            let name = check_name(check_id);
            let ghost p = named(name@);
            let mut i: usize = 0;
            while i < s.checks.len()
                invariant
                    i <= s.checks@.len(),
                    p == named(name@),
                    Some(name@) == scorecard_name_of(check_id@),
                    *scorecard == Ok::<Scorecard, String>(*s),
                    forall|j: int| 0 <= j < i ==> !p(#[trigger] s.checks@[j]),
                decreases s.checks@.len() - i,
            {
                if text::eq_str(s.checks[i].name.as_str(), name) {
                    proof {
                        assert(p(s.checks@[i as int]));
                        crate::search::lemma_first_index_at(s.checks@, p, i as int);
                        assert(scorecard_name_of(check_id@)->0 == name@);
                        assert(check_position(s.checks@, scorecard_name_of(check_id@)->0) == Some(
                            i as int,
                        ));
                    }
                    return Ok(Some(&s.checks[i]));
                }
                assert(!p(s.checks@[i as int]));
                i = i + 1;
            }
            proof {
                crate::search::lemma_first_index_none(s.checks@, p);
            }
            Ok(None)
        },
        Err(e) => Err(e),
    }
}

/// The lines provided joined with newlines.
pub open spec fn join_lines(lines: Seq<Seq<char>>) -> Seq<char>
    decreases lines.len(),
{
    if lines.len() == 0 {
        Seq::empty()
    } else if lines.len() == 1 {
        lines[0]
    } else {
        join_lines(lines.drop_last()) + "\n"@ + lines.last()
    }
}

/// Join the lines provided with newlines.
pub fn join(lines: &Vec<String>) -> (r: String)
    ensures
        r@ == join_lines(lines@.map_values(|l: String| l@)),
{
    let ghost ls = lines@.map_values(|l: String| l@);
    let mut r = String::new();
    let mut i: usize = 0;
    while i < lines.len()
        invariant
            i <= lines@.len(),
            ls == lines@.map_values(|l: String| l@),
            r@ == join_lines(ls.take(i as int)),
        decreases lines@.len() - i,
    {
        if i > 0 {
            text::push_str(&mut r, "\n");
        }
        text::push_str(&mut r, lines[i].as_str());
        proof {
            assert(ls.take(i + 1).drop_last() =~= ls.take(i as int));
            if i == 0 {
                assert(ls.take(1) =~= seq![ls[0]]);
            }
        }
        i = i + 1;
    }
    proof {
        assert(ls.take(lines@.len() as int) =~= ls);
    }
    r
}

/// Is this the check whose pass threshold is 1 (else 5).
pub open spec fn low_threshold(c: ScorecardCheck) -> bool {
    c.name@ == "Signed-Releases"@
}

/// Does the check reach its pass threshold.
pub open spec fn check_passes(c: ScorecardCheck) -> bool {
    if low_threshold(c) {
        c.score.at_least_one
    } else {
        c.score.at_least_five
    }
}

/// Pass threshold of a check, as displayed.
pub open spec fn threshold_text(c: ScorecardCheck) -> Seq<char> {
    if low_threshold(c) {
        "1"@
    } else {
        "5"@
    }
}

/// Details section of a check: its detail lines, or a dash.
pub open spec fn details_part(c: ScorecardCheck) -> Seq<char> {
    match c.details {
        Some(d) => "\n\n>"@ + join_lines(d@.map_values(|l: String| l@)),
        None => "-"@,
    }
}

/// Markdown details of a scorecard check.
pub open spec fn details_text(c: ScorecardCheck) -> Seq<char> {
    "# "@ + c.name@ + " OpenSSF Scorecard check\n\n**Score**: "@ + c.score.display@
        + " (check passes with score >= "@ + threshold_text(c) + ")\n\n**Reason**: "@ + c.reason@
        + "\n\n**Details**: "@ + details_part(c)
        + "\n\n**Please see the [check documentation]("@ + c.documentation.url@
        + ") in the ossf/scorecard repository for more details**"@
}

/// Output of a check backed by a scorecard check: failed with the error met
/// getting the scorecard, not passed when the check is not in it, else
/// passed when the score reaches the threshold, with the details.
pub open spec fn scorecard_outcome<T>(o: CheckOutput<T>, sc: Result<Option<ScorecardCheck>, String>) -> bool {
    match sc {
        Ok(Some(c)) => {
            &&& o.passed == check_passes(c)
            &&& opt_view(o.details) == Some(details_text(c))
            &&& o.url is None && o.value is None && !o.exempt && o.exemption_reason is None
            &&& !o.failed && o.fail_reason is None
        },
        Ok(None) => o == CheckOutput::<T>::empty(),
        Err(e) => {
            &&& o.failed
            &&& opt_view(o.fail_reason) == Some(e@)
            &&& !o.passed && o.url is None && o.value is None && o.details is None
            &&& !o.exempt && o.exemption_reason is None
        },
    }
}

/// Build the check output for the scorecard check provided.
pub fn check_output<T>(sc_check: Result<Option<&ScorecardCheck>, &String>) -> (r: CheckOutput<T>)
    ensures
        scorecard_outcome(
            r,
            match sc_check {
                Ok(Some(c)) => Ok(Some(*c)),
                Ok(None) => Ok(None),
                Err(e) => Err(*e),
            },
        ),
{
    match sc_check {
        Ok(Some(c)) => {
            let low = text::eq_str(c.name.as_str(), "Signed-Releases");
            let passed = if low {
                c.score.at_least_one
            } else {
                c.score.at_least_five
            };
            let mut d = text::to_owned_string("# ");
            text::push_str(&mut d, c.name.as_str());
            text::push_str(&mut d, " OpenSSF Scorecard check\n\n**Score**: ");
            text::push_str(&mut d, c.score.display.as_str());
            text::push_str(&mut d, " (check passes with score >= ");
            text::push_str(&mut d, if low { "1" } else { "5" });
            text::push_str(&mut d, ")\n\n**Reason**: ");
            text::push_str(&mut d, c.reason.as_str());
            text::push_str(&mut d, "\n\n**Details**: ");
            let part = match &c.details {
                Some(lines) => {
                    let mut part = text::to_owned_string("\n\n>");
                    let joined = join(lines);
                    text::push_str(&mut part, joined.as_str());
                    part
                },
                None => text::to_owned_string("-"),
            };
            text::push_str(&mut d, part.as_str());
            text::push_str(&mut d, "\n\n**Please see the [check documentation](");
            text::push_str(&mut d, c.documentation.url.as_str());
            text::push_str(&mut d, ") in the ossf/scorecard repository for more details**");
            let mut output = CheckOutput::not_passed();
            output.passed = passed;
            output.details = Some(d);
            output
        },
        Ok(None) => CheckOutput::not_passed(),
        Err(err) => CheckOutput::failed().fail_reason(Some(err.clone())),
    }
}

/// Check main function of the checks backed by a scorecard check.
pub fn check(scorecard: &Result<Scorecard, String>, check_id: &str) -> (r: CheckOutput<()>)
    requires
        scorecard_name_of(check_id@) is Some,
    ensures
        scorecard_outcome(r, scorecard_check_of(*scorecard, check_id@)),
{
    check_output(get_check(scorecard, check_id))
}

} // verus!
