//! The history of command lines, and the choice of the command to run for
//! each line typed.
use vstd::prelude::*;

verus! {

/// The text of each line of a history.
pub open spec fn spec_lines(history: Seq<String>) -> Seq<Seq<char>> {
    history.map_values(|line: String| line@)
}

/// Appends `line` to the history.
pub fn add_history(history: &mut Vec<String>, line: &str)
    ensures
        spec_lines(final(history)@) == spec_lines(old(history)@).push(line@),
{
    history.push(line.to_owned());
    assert(spec_lines(history@) =~= spec_lines(old(history)@).push(line@));
}

/// A copy of the history.
pub fn history_list(history: &Vec<String>) -> (list: Vec<String>)
    ensures
        spec_lines(list@) == spec_lines(history@),
{
    let mut list: Vec<String> = Vec::new();
    let n = history.len();
    let mut i: usize = 0;
    while i < n
        invariant
            n == history@.len(),
            i <= n,
            spec_lines(list@) == spec_lines(history@.take(i as int)),
        decreases n - i,
    {
        let line = history[i].clone();
        assert(line@ == history@[i as int]@);
        let ghost before = list@;
        list.push(line);
        assert(spec_lines(list@) =~= spec_lines(before).push(line@));
        assert(history@.take(i + 1) =~= history@.take(i as int).push(history@[i as int]));
        assert(spec_lines(list@) =~= spec_lines(history@.take(i + 1)));
        i = i + 1;
    }
    assert(history@.take(n as int) =~= history@);
    list
}

/// The history after a line is typed, and the command that runs for it: an
/// empty line runs the last line of the history again, if there is one and
/// it is not empty; any other line is recorded and runs.
pub open spec fn spec_main_loop_step(history: Seq<Seq<char>>, line: Seq<char>) -> (
    Seq<Seq<char>>,
    Option<Seq<char>>,
) {
    if line.len() == 0 {
        if history.len() > 0 && history.last().len() > 0 {
            (history, Some(history.last()))
        } else {
            (history, None)
        }
    } else {
        (history.push(line), Some(line))
    }
}

/// Takes one line typed at the prompt; see `spec_main_loop_step`.
pub fn main_loop_step(history: &mut Vec<String>, line: String) -> (command: Option<String>)
    ensures
        spec_lines(final(history)@) == spec_main_loop_step(spec_lines(old(history)@), line@).0,
        match spec_main_loop_step(spec_lines(old(history)@), line@).1 {
            Some(text) => command matches Some(c) && c@ == text,
            None => command is None,
        },
{
    let mut line_str = String::new();
    if line.as_str().unicode_len() == 0 {
        let list = history_list(history);
        if list.len() > 0 {
            line_str = list[list.len() - 1].clone();
            assert(spec_lines(list@)[list@.len() - 1] == list@[list@.len() - 1]@);
        }
    } else {
        line_str = line;
        add_history(history, line_str.as_str());
    }
    if line_str.as_str().unicode_len() > 0 {
        Some(line_str)
    } else {
        None
    }
}

/// A non-empty line is recorded at the end of the history and runs as typed;
/// an empty line records nothing and runs nothing when there is no history.
pub proof fn lemma_line_handling(history: Seq<Seq<char>>, line: Seq<char>)
    ensures
        line.len() > 0 ==> spec_main_loop_step(history, line) == (history.push(line), Some(line)),
        line.len() == 0 ==> spec_main_loop_step(history, line).0 == history,
        line.len() == 0 && history.len() == 0 ==> spec_main_loop_step(history, line).1 is None,
        spec_main_loop_step(history, line).1 matches Some(c) ==> c.len() > 0,
{
}

/// An empty line repeats the last command: after a non-empty line, an empty
/// line runs that line again and leaves the history as it was.
pub proof fn lemma_empty_line_repeats(history: Seq<Seq<char>>, line: Seq<char>)
    requires
        line.len() > 0,
    ensures
        ({
            let after = spec_main_loop_step(history, line).0;
            &&& spec_main_loop_step(after, seq![]).1 == Some(line)
            &&& spec_main_loop_step(after, seq![]).0 == after
        }),
{
}

} // verus!
