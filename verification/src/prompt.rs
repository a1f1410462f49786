//! The yes/no question that guards the removal.

use vstd::prelude::*;
use vstd::string::*;
use crate::text::{lowercased, same_text, to_lowercase, trim, trimmed};

verus! {

/// What is shown after an answer that is neither yes nor no.
pub open spec fn retry_notice() -> Seq<char> {
    "Please enter 'y' or 'n'"@
}

/// The line that puts a question to the user.
pub open spec fn question_line(question: Seq<char>) -> Seq<char> {
    question + " (y/n): "@
}

/// The meaning of an answer that has been trimmed and put in lower case:
/// `y` and `yes` affirm, `n` and `no` decline, anything else is no answer.
pub open spec fn answer_of(normalized: Seq<char>) -> Option<bool> {
    if normalized == "y"@ || normalized == "yes"@ {
        Some(true)
    } else if normalized == "n"@ || normalized == "no"@ {
        Some(false)
    } else {
        None
    }
}

/// The meaning of a line as the user typed it: white space around it and the
/// case of its letters play no part.
pub open spec fn answer_in(input: Seq<char>) -> Option<bool> {
    answer_of(lowercased(trimmed(input)))
}

/// Builds the line that puts a question to the user.
pub fn question_text(question: &str) -> (line: String)
    ensures
        line@ == question_line(question@),
{
    String::from_str(question).concat(" (y/n): ")
}

/// Reads the meaning of an answer that has been trimmed and put in lower
/// case.
pub fn classify_answer(normalized: &str) -> (answer: Option<bool>)
    ensures
        answer == answer_of(normalized@),
{
    if same_text(normalized, "y") || same_text(normalized, "yes") {
        Some(true)
    } else if same_text(normalized, "n") || same_text(normalized, "no") {
        Some(false)
    } else {
        None
    }
}

/// Reads the meaning of a line as the user typed it. `None` asks for the
/// question to be put again.
pub fn read_answer(input: &str) -> (answer: Option<bool>)
    ensures
        answer == answer_in(input@),
{
    let lower = to_lowercase(trim(input));
    classify_answer(lower.as_str())
}

} // verus!
