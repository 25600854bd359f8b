use vstd::prelude::*;

verus! {

/// The words that `shell_words::split` makes of a command line, or `None` where it
/// reports a missing closing quote.
pub uninterp spec fn shell_words_of(s: Seq<char>) -> Option<Seq<Seq<char>>>;

/// Relies on `shell_words::split`: splits a command line into words as a Unix shell
/// would, with quote removal only; an unmatched quote is an error.
#[verifier::external_body]
fn split_words(line: &str) -> (r: Option<Vec<String>>)
    ensures
        match r {
            Some(v) => shell_words_of(line@) == Some(v@.map_values(|w: String| w@)),
            None => shell_words_of(line@) is None,
        },
{
    match shell_words::split(line) {
        Ok(words) => Some(words),
        Err(_) => None,
    }
}

/// A program to launch and its arguments.
pub struct CommandLine {
    pub program: String,
    pub args: Vec<String>,
}

/// What a command line's words make: the first is the program, the rest its arguments.
pub open spec fn command_spec(words: Option<Seq<Seq<char>>>, r: Option<CommandLine>) -> bool {
    match words {
        Some(ws) if ws.len() > 0 => r matches Some(c) && c.program@ == ws[0] && c.args@.map_values(
            |a: String| a@,
        ) == ws.drop_first(),
        _ => r is None,
    }
}

/// Turns split words into a command; no words give `None`.
pub fn command_from_words(words: Vec<String>) -> (r: Option<CommandLine>)
    ensures
        command_spec(Some(words@.map_values(|w: String| w@)), r),
{
    let ghost ws = words@.map_values(|w: String| w@);
    if words.len() == 0 {
        return None;
    }
    let mut words = words;
    let program = words.remove(0);
    proof {
        assert(words@.map_values(|w: String| w@) =~= ws.drop_first());
    }
    Some(CommandLine { program, args: words })
}

/// Reads a startup job or an exec binding's command line. `None` when the line has
/// an unmatched quote or no words at all.
pub fn parse_command(line: &str) -> (r: Option<CommandLine>)
    ensures
        command_spec(shell_words_of(line@), r),
{
    match split_words(line) {
        Some(words) => command_from_words(words),
        None => None,
    }
}

} // verus!
