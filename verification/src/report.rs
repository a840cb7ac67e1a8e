//! The text that the operator reads: notices, the announcement of a selection and
//! the summary of a batch. Every text is a line without its line break.

use vstd::prelude::*;
use vstd::string::StringExecFns;
use crate::batch::{BatchResult, Failure, FailureView, Tally};
use crate::candidates::Name;

verus! {

/// A line of text as the contracts see it.
pub type Line = Seq<char>;

/// The decimal digit for `d`, which is below ten.
pub open spec fn digit(d: nat) -> char
    recommends
        d < 10,
{
    if d == 0 {
        '0'
    } else if d == 1 {
        '1'
    } else if d == 2 {
        '2'
    } else if d == 3 {
        '3'
    } else if d == 4 {
        '4'
    } else if d == 5 {
        '5'
    } else if d == 6 {
        '6'
    } else if d == 7 {
        '7'
    } else if d == 8 {
        '8'
    } else {
        '9'
    }
}

/// `n` written in decimal, without leading zeros.
pub open spec fn decimal(n: nat) -> Line
    decreases n,
{
    if n < 10 {
        seq![digit(n)]
    } else {
        decimal(n / 10).push(digit(n % 10))
    }
}

/// What the prompt for the selection asks.
pub open spec fn selection_prompt_text() -> Line {
    "Select branches to delete (Space to select, Enter to confirm)"@
}

/// What the prompt for the confirmation asks.
pub open spec fn confirmation_prompt_text() -> Line {
    "Are you sure you want to delete these branches?"@
}

/// The report of a run that found no branch but the current one.
pub open spec fn no_candidates_text() -> Line {
    "No branches available for deletion."@
}

/// The report of a run in which the operator selected nothing.
pub open spec fn nothing_selected_text() -> Line {
    "No branches selected."@
}

/// The report of a run in which the operator declined the confirmation.
pub open spec fn cancelled_text() -> Line {
    "Operation cancelled."@
}

/// The notice that branch `name` was deleted.
pub open spec fn deleted_notice(name: Name) -> Line {
    "Deleted '"@ + name + "'"@
}

/// The notice that branch `name` could not be deleted.
pub open spec fn failed_notice(name: Name) -> Line {
    "Failed to delete '"@ + name + "'"@
}

/// One item of a list: a dash, a blank and the name.
pub open spec fn list_item(name: Name) -> Line {
    "- "@ + name
}

/// What the operator is shown before confirming: a blank line, a heading and
/// every selected branch, in the order of the selection.
pub open spec fn announcement(selected: Seq<Name>) -> Seq<Line> {
    seq![Seq::empty(), "The following branches will be deleted:"@] + selected.map_values(
        |name: Name| list_item(name),
    )
}

/// The line that counts the successes.
pub open spec fn success_line(count: nat) -> Line {
    "Success: "@ + decimal(count) + " branch(es)"@
}

/// The line that counts the failures.
pub open spec fn failure_line(count: nat) -> Line {
    "Failed: "@ + decimal(count) + " branch(es)"@
}

/// The line that gives the reason of one failure.
pub open spec fn detail_line(failure: FailureView) -> Line {
    "- "@ + failure.name + ": "@ + failure.reason
}

/// The summary of a batch: a blank line, a heading and the number of
/// successes; where anything failed, also the number of failures, a blank
/// line, a heading and one line for each failure, in the order of the attempts.
pub open spec fn summary(tally: Tally) -> Seq<Line> {
    let counts = seq![Seq::empty(), "Results:"@, success_line(tally.successes)];
    if tally.failures.len() == 0 {
        counts
    } else {
        counts + seq![failure_line(tally.failures.len()), Seq::empty(), "Error details:"@]
            + tally.failures.map_values(|failure: FailureView| detail_line(failure))
    }
}

fn digit_text(d: usize) -> (text: &'static str)
    requires
        d < 10,
    ensures
        text@ == seq![digit(d as nat)],
{
    proof {
        reveal_strlit("0");
        reveal_strlit("1");
        reveal_strlit("2");
        reveal_strlit("3");
        reveal_strlit("4");
        reveal_strlit("5");
        reveal_strlit("6");
        reveal_strlit("7");
        reveal_strlit("8");
        reveal_strlit("9");
    }
    let text = if d == 0 {
        "0"
    } else if d == 1 {
        "1"
    } else if d == 2 {
        "2"
    } else if d == 3 {
        "3"
    } else if d == 4 {
        "4"
    } else if d == 5 {
        "5"
    } else if d == 6 {
        "6"
    } else if d == 7 {
        "7"
    } else if d == 8 {
        "8"
    } else {
        "9"
    };
    assert(text@ =~= seq![digit(d as nat)]);
    text
}

/// Writes `n` in decimal, without leading zeros.
pub fn decimal_string(n: usize) -> (text: String)
    ensures
        text@ == decimal(n as nat),
    decreases n,
{
    if n < 10 {
        String::from_str(digit_text(n))
    } else {
        let mut text = decimal_string(n / 10);
        text.append(digit_text(n % 10));
        text
    }
}

/// The prompt for the selection.
pub fn selection_prompt() -> (text: &'static str)
    ensures
        text@ == selection_prompt_text(),
{
    "Select branches to delete (Space to select, Enter to confirm)"
}

/// The prompt for the confirmation. The answer that it suggests is "no".
pub fn confirmation_prompt() -> (text: &'static str)
    ensures
        text@ == confirmation_prompt_text(),
{
    "Are you sure you want to delete these branches?"
}

/// The notice that branch `name` was deleted.
pub fn deleted_notice_string(name: &str) -> (text: String)
    ensures
        text@ == deleted_notice(name@),
{
    let mut text = String::from_str("Deleted '");
    text.append(name);
    text.append("'");
    text
}

/// The notice that branch `name` could not be deleted.
pub fn failed_notice_string(name: &str) -> (text: String)
    ensures
        text@ == failed_notice(name@),
{
    let mut text = String::from_str("Failed to delete '");
    text.append(name);
    text.append("'");
    text
}

/// The lines that the operator is shown before confirming the deletion of
/// `selected`.
pub fn announcement_lines(selected: &Vec<String>) -> (lines: Vec<String>)
    ensures
        lines.deep_view() == announcement(selected.deep_view()),
{
    let mut lines: Vec<String> = Vec::new();
    lines.push(String::new());
    lines.push(String::from_str("The following branches will be deleted:"));
    let mut i: usize = 0;
    while i < selected.len()
        invariant
            i <= selected.len(),
            lines.len() == 2 + i,
            lines[0]@ == Seq::<char>::empty(),
            lines[1]@ == "The following branches will be deleted:"@,
            forall|j: int| 0 <= j < i ==> (#[trigger] lines[2 + j])@ == list_item(selected[j]@),
        decreases selected.len() - i,
    {
        let mut item = String::from_str("- ");
        item.append(selected[i].as_str());
        lines.push(item);
        assert forall|j: int| 0 <= j < i + 1 implies (#[trigger] lines[2 + j])@ == list_item(
            selected[j]@,
        ) by {}
        i += 1;
    }
    assert(lines.deep_view() =~= announcement(selected.deep_view())) by {
        assert forall|k: int| 0 <= k < lines.len() implies lines.deep_view()[k] == announcement(
            selected.deep_view(),
        )[k] by {
            if k >= 2 {
                assert(lines[2 + (k - 2)]@ == list_item(selected[k - 2]@));
            }
        }
    }
    lines
}

fn detail_line_string(failure: &Failure) -> (text: String)
    ensures
        text@ == detail_line(failure@),
{
    let mut text = String::from_str("- ");
    text.append(failure.name.as_str());
    text.append(": ");
    text.append(failure.reason.as_str());
    text
}

fn count_line_string(label: &str, count: usize) -> (text: String)
    ensures
        text@ == label@ + decimal(count as nat) + " branch(es)"@,
{
    let mut text = String::from_str(label);
    let digits = decimal_string(count);
    text.append(digits.as_str());
    text.append(" branch(es)");
    text
}

/// The lines of the summary of a batch.
pub fn summary_lines(result: &BatchResult) -> (lines: Vec<String>)
    ensures
        lines.deep_view() == summary(result@),
{
    let failures = result.failures();
    let mut lines: Vec<String> = Vec::new();
    lines.push(String::new());
    lines.push(String::from_str("Results:"));
    lines.push(count_line_string("Success: ", result.successes()));
    if failures.len() == 0 {
        assert(lines.deep_view() =~= summary(result@));
        return lines;
    }
    lines.push(count_line_string("Failed: ", failures.len()));
    lines.push(String::new());
    lines.push(String::from_str("Error details:"));
    let ghost head = lines.deep_view();
    assert(head =~= seq![Seq::empty(), "Results:"@, success_line(result@.successes)] + seq![
        failure_line(result@.failures.len()),
        Seq::empty(),
        "Error details:"@,
    ]);
    let mut i: usize = 0;
    while i < failures.len()
        invariant
            i <= failures.len(),
            lines.len() == 6 + i,
            forall|k: int| 0 <= k < 6 ==> (#[trigger] lines[k])@ == head[k],
            head.len() == 6,
            forall|j: int| 0 <= j < i ==> (#[trigger] lines[6 + j])@ == detail_line(failures[j]@),
        decreases failures.len() - i,
    {
        lines.push(detail_line_string(&failures[i]));
        assert forall|j: int| 0 <= j < i + 1 implies (#[trigger] lines[6 + j])@ == detail_line(
            failures[j]@,
        ) by {}
        i += 1;
    }
    assert(lines.deep_view() =~= summary(result@)) by {
        assert forall|k: int| 0 <= k < lines.len() implies lines.deep_view()[k] == summary(
            result@,
        )[k] by {
            if k >= 6 {
                assert(lines[6 + (k - 6)]@ == detail_line(failures[k - 6]@));
                assert(failures.deep_view()[k - 6] == failures[k - 6]@);
            } else {
                assert(lines[k]@ == head[k]);
            }
        }
    }
    lines
}

} // verus!
