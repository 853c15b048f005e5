//! Aggregation of per-agent outcomes into one combined report. Non-empty
//! successful reports are concatenated under sequential labels, numbered in
//! the order the outcomes are processed (completion order); blank successes
//! are dropped without taking a label; failures and task crashes contribute
//! an error line for the display sink instead of a section.

use vstd::prelude::*;
use vstd::string::StringExecFns;

use crate::text::dec_chars;
use crate::text::is_blank;
use crate::text::is_blank_str;
use crate::text::usize_to_string;

verus! {

/// What one runner's task ended in: a report, a reported failure, or an
/// abnormal termination of the task itself.
pub enum AgentOutcome {
    Success(String),
    Failure(String),
    TaskCrashed(String),
}

/// The label line that opens the `k`-th non-empty report section.
pub open spec fn section_header(k: nat) -> Seq<char> {
    "=== Agent "@ + dec_chars(k) + " Output ===\n"@
}

/// The combined report built from the outcomes, labelling non-empty
/// successes from `k` upward; blank successes and failures add nothing.
pub open spec fn combined_report(rs: Seq<AgentOutcome>, k: nat) -> Seq<char>
    decreases rs.len(),
{
    if rs.len() == 0 {
        Seq::<char>::empty()
    } else {
        match rs[0] {
            AgentOutcome::Success(s) => if is_blank(s@) {
                combined_report(rs.drop_first(), k)
            } else {
                section_header(k) + s@ + "\n\n"@ + combined_report(rs.drop_first(), k + 1)
            },
            _ => combined_report(rs.drop_first(), k),
        }
    }
}

/// The error line reported for an agent whose run failed.
pub open spec fn failure_line(e: Seq<char>) -> Seq<char> {
    "Failed to launch agent: "@ + e + "\n"@
}

/// The error line reported for an agent whose task terminated abnormally.
pub open spec fn crash_line(e: Seq<char>) -> Seq<char> {
    "Task join error: "@ + e + "\n"@
}

/// The error lines written to the display sink, one per failed outcome,
/// in processing order.
pub open spec fn error_lines(rs: Seq<AgentOutcome>) -> Seq<Seq<char>>
    decreases rs.len(),
{
    if rs.len() == 0 {
        Seq::<Seq<char>>::empty()
    } else {
        match rs[0] {
            AgentOutcome::Success(_) => error_lines(rs.drop_first()),
            AgentOutcome::Failure(e) => seq![failure_line(e@)] + error_lines(rs.drop_first()),
            AgentOutcome::TaskCrashed(e) => seq![crash_line(e@)] + error_lines(rs.drop_first()),
        }
    }
}

/// Format and join every agent's outcome: the combined report of all
/// non-empty successes, labelled from 1 in processing order, together with
/// one error line per failure or crash for the display sink.
pub fn process_agent_results(results: &Vec<AgentOutcome>) -> (r: (String, Vec<String>))
    requires
        results@.len() < usize::MAX,
    ensures
        r.0@ == combined_report(results@, 1),
        r.1.deep_view() == error_lines(results@),
{
    let mut combined = String::new();
    let mut errors: Vec<String> = Vec::new();
    let mut k: usize = 1;
    let mut idx: usize = 0;
    proof {
        assert(results@.skip(0) =~= results@);
        assert(combined@ + combined_report(results@, 1) =~= combined_report(results@, 1));
        assert(errors.deep_view() =~= Seq::<Seq<char>>::empty());
        assert(errors.deep_view() + error_lines(results@) =~= error_lines(results@));
    }
    while idx < results.len()
        invariant
            results@.len() < usize::MAX,
            0 <= idx <= results@.len(),
            1 <= k <= idx + 1,
            combined@ + combined_report(results@.skip(idx as int), k as nat) == combined_report(
                results@,
                1,
            ),
            errors.deep_view() + error_lines(results@.skip(idx as int)) == error_lines(results@),
        decreases results@.len() - idx,
    {
        proof {
            assert(results@.skip(idx as int)[0] == results@[idx as int]);
            assert(results@.skip(idx as int).drop_first() =~= results@.skip(idx as int + 1));
        }
        match &results[idx] {
            AgentOutcome::Success(s) => {
                if !is_blank_str(s.as_str()) {
                    let ghost pre = combined@;
                    combined.append("=== Agent ");
                    let ks = usize_to_string(k);
                    combined.append(ks.as_str());
                    combined.append(" Output ===\n");
                    combined.append(s.as_str());
                    combined.append("\n\n");
                    proof {
                        assert(combined@ + combined_report(results@.skip(idx as int + 1), (k
                            + 1) as nat) =~= pre + combined_report(
                            results@.skip(idx as int),
                            k as nat,
                        ));
                    }
                    k = k + 1;
                }
            },
            AgentOutcome::Failure(e) => {
                let mut line = "Failed to launch agent: ".to_owned();
                line.append(e.as_str());
                line.append("\n");
                let ghost pre = errors.deep_view();
                errors.push(line);
                proof {
                    assert(errors.deep_view() =~= pre + seq![failure_line(e@)]);
                    assert(errors.deep_view() + error_lines(results@.skip(idx as int + 1)) =~= pre
                        + error_lines(results@.skip(idx as int)));
                }
            },
            AgentOutcome::TaskCrashed(e) => {
                let mut line = "Task join error: ".to_owned();
                line.append(e.as_str());
                line.append("\n");
                let ghost pre = errors.deep_view();
                errors.push(line);
                proof {
                    assert(errors.deep_view() =~= pre + seq![crash_line(e@)]);
                    assert(errors.deep_view() + error_lines(results@.skip(idx as int + 1)) =~= pre
                        + error_lines(results@.skip(idx as int)));
                }
            },
        }
        idx = idx + 1;
    }
    proof {
        assert(results@.skip(results@.len() as int) =~= Seq::<AgentOutcome>::empty());
        assert(combined@ + combined_report(results@.skip(results@.len() as int), k as nat)
            =~= combined@);
        assert(errors.deep_view() + error_lines(results@.skip(results@.len() as int))
            =~= errors.deep_view());
    }
    (combined, errors)
}

/// A blank success is silently dropped: inserting a `Success` whose text is
/// empty or whitespace anywhere in the outcome list leaves both the combined
/// report (and so its numbering) and the error lines unchanged.
pub proof fn lemma_blank_success_dropped(rs: Seq<AgentOutcome>, i: int, s: String, k: nat)
    requires
        0 <= i <= rs.len(),
        is_blank(s@),
    ensures
        combined_report(rs.insert(i, AgentOutcome::Success(s)), k) == combined_report(rs, k),
        error_lines(rs.insert(i, AgentOutcome::Success(s))) == error_lines(rs),
    decreases i,
{
    let rs2 = rs.insert(i, AgentOutcome::Success(s));
    if i == 0 {
        assert(rs2[0] == AgentOutcome::Success(s));
        assert(rs2.drop_first() =~= rs);
    } else {
        assert(rs2[0] == rs[0]);
        assert(rs2.drop_first() =~= rs.drop_first().insert(i - 1, AgentOutcome::Success(s)));
        match rs[0] {
            AgentOutcome::Success(s0) => {
                if is_blank(s0@) {
                    lemma_blank_success_dropped(rs.drop_first(), i - 1, s, k);
                } else {
                    lemma_blank_success_dropped(rs.drop_first(), i - 1, s, k + 1);
                }
            },
            AgentOutcome::Failure(_) => {
                lemma_blank_success_dropped(rs.drop_first(), i - 1, s, k);
            },
            AgentOutcome::TaskCrashed(_) => {
                lemma_blank_success_dropped(rs.drop_first(), i - 1, s, k);
            },
        }
    }
}

} // verus!
