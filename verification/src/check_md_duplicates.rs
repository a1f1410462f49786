//! Finding the lines that a markdown file holds more than once.

use vstd::prelude::*;
use vstd::string::*;
use crate::text::{ends_with, has_ending, lines_of, split_lines, trim, trimmed};

verus! {

/// Why a path is not taken.
#[derive(Debug, Clone, Copy, PartialEq, Eq)]
pub enum MdPathError {
    /// The path does not end in `.md`.
    NotMarkdown,
}

/// A line that occurs more than once: its text, trimmed, and the numbers of
/// the lines that hold it, counted from one, in rising order.
#[derive(Debug, Clone, PartialEq)]
pub struct Duplicate {
    pub text: String,
    pub line_numbers: Vec<usize>,
}

impl DeepView for Duplicate {
    type V = (Seq<char>, Seq<nat>);

    open spec fn deep_view(&self) -> (Seq<char>, Seq<nat>) {
        (self.text@, self.line_numbers@.map_values(|number: usize| number as nat))
    }
}

/// The ending that a markdown file's path has.
pub open spec fn markdown_ending() -> Seq<char> {
    ".md"@
}

/// Each line, trimmed.
pub open spec fn trimmed_lines(lines: Seq<Seq<char>>) -> Seq<Seq<char>> {
    lines.map_values(|line: Seq<char>| trimmed(line))
}

/// The numbers of the lines that hold `text`, counted from one, in rising
/// order.
pub open spec fn occurrences(texts: Seq<Seq<char>>, text: Seq<char>) -> Seq<nat>
    decreases texts.len(),
{
    if texts.len() == 0 {
        Seq::empty()
    } else {
        let before = occurrences(texts.drop_last(), text);
        if texts.last() == text {
            before.push(texts.len())
        } else {
            before
        }
    }
}

/// No line before the one at `i` holds the same text.
pub open spec fn first_at(texts: Seq<Seq<char>>, i: int) -> bool {
    forall|j: int| 0 <= j < i ==> #[trigger] texts[j] != texts[i]
}

/// The line at `i` is where a duplicate is reported: it is not empty, it is
/// the first to hold its text, and it is not the only one.
pub open spec fn reported_at(texts: Seq<Seq<char>>, i: int) -> bool {
    &&& texts[i].len() > 0
    &&& first_at(texts, i)
    &&& occurrences(texts, texts[i]).len() > 1
}

/// The duplicates whose first line is among the first `n`, in the order of
/// their first lines.
pub open spec fn duplicates_before(texts: Seq<Seq<char>>, n: nat) -> Seq<(Seq<char>, Seq<nat>)>
    decreases n,
{
    if n == 0 {
        Seq::empty()
    } else {
        let before = duplicates_before(texts, (n - 1) as nat);
        if reported_at(texts, n - 1) {
            before.push((texts[n - 1], occurrences(texts, texts[n - 1])))
        } else {
            before
        }
    }
}

/// The duplicates among trimmed lines: every text that is not empty and
/// occurs more than once, with all its line numbers, in the order in which
/// the texts first occur.
pub open spec fn duplicates(texts: Seq<Seq<char>>) -> Seq<(Seq<char>, Seq<nat>)> {
    duplicates_before(texts, texts.len())
}

/// The search for duplicate lines in a markdown file.
#[derive(Debug, Clone, Copy, PartialEq, Eq)]
pub struct CheckMdDuplicates;

impl CheckMdDuplicates {
    pub fn new() -> (search: Self)
        ensures
            search == CheckMdDuplicates,
    {
        Self
    }

    /// Takes the path as the user typed it and gives the path of the file to
    /// read: the typed line, trimmed, which has to end in `.md`.
    pub fn run(&self, typed_path: &str) -> (path: Result<String, MdPathError>)
        ensures
            match path {
                Ok(path) => path@ == trimmed(typed_path@) && ends_with(path@, markdown_ending()),
                Err(error) => error == MdPathError::NotMarkdown && !ends_with(
                    trimmed(typed_path@),
                    markdown_ending(),
                ),
            },
    {
        checked_path(trim(typed_path))
    }

    /// Finds the duplicates among the lines of a file's content.
    pub fn check_duplicates(&self, content: &str) -> (report: Vec<Duplicate>)
        ensures
            report.deep_view() == duplicates(trimmed_lines(lines_of(content@))),
    {
        let lines = split_lines(content);
        let mut texts: Vec<String> = Vec::new();
        let mut i: usize = 0;
        while i < lines.len()
            invariant
                i <= lines.len(),
                texts.deep_view() == trimmed_lines(lines.deep_view().take(i as int)),
            decreases lines.len() - i,
        {
            let ghost before = texts.deep_view();
            let text = String::from_str(trim(lines[i].as_str()));
            texts.push(text);
            proof {
                let all = lines.deep_view();
                assert(texts.deep_view() =~= before.push(trimmed(all[i as int])));
                assert(all.take(i as int + 1) =~= all.take(i as int).push(all[i as int]));
                assert(trimmed_lines(all.take(i as int + 1)) =~= trimmed_lines(
                    all.take(i as int),
                ).push(trimmed(all[i as int])));
            }
            i = i + 1;
        }
        assert(lines.deep_view().take(i as int) =~= lines.deep_view());
        duplicates_among(&texts)
    }
}

/// Takes a path that has been trimmed: it has to end in `.md`.
pub fn checked_path(path: &str) -> (checked: Result<String, MdPathError>)
    ensures
        match checked {
            Ok(taken) => taken@ == path@ && ends_with(path@, markdown_ending()),
            Err(error) => error == MdPathError::NotMarkdown && !ends_with(
                path@,
                markdown_ending(),
            ),
        },
{
    if has_ending(path, ".md") {
        Ok(String::from_str(path))
    } else {
        Err(MdPathError::NotMarkdown)
    }
}

/// Whether a line before the one at `i` holds the same text.
fn seen_before(texts: &Vec<String>, i: usize) -> (seen: bool)
    requires
        i < texts.len(),
    ensures
        seen == !first_at(texts.deep_view(), i as int),
{
    let mut j: usize = 0;
    while j < i
        invariant
            j <= i < texts.len(),
            forall|k: int| 0 <= k < j ==> #[trigger] texts.deep_view()[k] != texts.deep_view()[i as int],
        decreases i - j,
    {
        if texts[j] == texts[i] {
            assert(texts.deep_view()[j as int] == texts.deep_view()[i as int]);
            return true;
        }
        j = j + 1;
    }
    false
}

/// The numbers of the lines that hold `text`.
fn occurrences_of(texts: &Vec<String>, text: &String) -> (numbers: Vec<usize>)
    ensures
        numbers@.map_values(|number: usize| number as nat) == occurrences(texts.deep_view(), text@),
{
    let mut numbers: Vec<usize> = Vec::new();
    let mut k: usize = 0;
    while k < texts.len()
        invariant
            k <= texts.len(),
            numbers@.map_values(|number: usize| number as nat) == occurrences(
                texts.deep_view().take(k as int),
                text@,
            ),
        decreases texts.len() - k,
    {
        proof {
            let all = texts.deep_view();
            assert(all.take(k as int + 1).drop_last() =~= all.take(k as int));
            assert(all.take(k as int + 1).last() == texts[k as int]@);
        }
        let ghost before = numbers@.map_values(|number: usize| number as nat);
        if texts[k] == *text {
            numbers.push(k + 1);
            assert(numbers@.map_values(|number: usize| number as nat) =~= before.push(
                (k + 1) as nat,
            ));
        }
        k = k + 1;
    }
    assert(texts.deep_view().take(k as int) =~= texts.deep_view());
    numbers
}

/// Finds the duplicates among lines that have been trimmed.
pub fn duplicates_among(texts: &Vec<String>) -> (report: Vec<Duplicate>)
    ensures
        report.deep_view() == duplicates(texts.deep_view()),
{
    let mut report: Vec<Duplicate> = Vec::new();
    let mut i: usize = 0;
    while i < texts.len()
        invariant
            i <= texts.len(),
            report.deep_view() == duplicates_before(texts.deep_view(), i as nat),
        decreases texts.len() - i,
    {
        let ghost before = report.deep_view();
        if !texts[i].as_str().is_empty() && !seen_before(texts, i) {
            let line_numbers = occurrences_of(texts, &texts[i]);
            if line_numbers.len() > 1 {
                let found = Duplicate { text: texts[i].clone(), line_numbers };
                report.push(found);
                assert(report.deep_view() =~= before.push(
                    (texts.deep_view()[i as int], occurrences(texts.deep_view(), texts[i as int]@)),
                ));
            }
        }
        i = i + 1;
    }
    report
}

} // verus!
