//! The commands of the interactive prompt.

use crate::text::{chars_of, starts_with, string_of, trim, trimmed};
use vstd::prelude::*;

verus! {

/// What one line of input asks for.
#[derive(Debug)]
pub enum ReplCommand {
    /// Leave the prompt.
    Quit,
    /// Forget all declarations.
    Reset,
    /// Show the help.
    Help,
    /// Show the accumulated declarations.
    Context,
    /// An empty line: nothing to do.
    Nothing,
    /// Evaluate the text, which is the line without surrounding white space.
    Evaluate(String),
}

/// What a line asks for, by its text without surrounding white space.
pub open spec fn is_command_of(command: ReplCommand, line: Seq<char>) -> bool {
    let t = trimmed(line);
    if t == ":quit"@ || t == ":q"@ {
        command is Quit
    } else if t == ":reset"@ {
        command is Reset
    } else if t == ":help"@ || t == ":h"@ {
        command is Help
    } else if t == ":context"@ || t == ":ctx"@ {
        command is Context
    } else if t.len() == 0 {
        command is Nothing
    } else {
        command matches ReplCommand::Evaluate(code) && code@ == t
    }
}

/// Whether the text is exactly the characters of `word`.
pub fn equals_str(s: &[char], word: &str) -> (r: bool)
    ensures
        r == (s@ == word@),
{
    let w = chars_of(word);
    if w.len() != s.len() {
        return false;
    }
    let r = starts_with(s, w.as_slice());
    proof {
        if r {
            assert(s@.subrange(0, w@.len() as int) =~= s@);
        }
        if s@ == w@ {
            assert(s@.subrange(0, w@.len() as int) =~= w@);
        }
    }
    r
}

/// Reads one line of input as a command.
pub fn parse_command(line: &str) -> (command: ReplCommand)
    ensures
        is_command_of(command, line@),
{
    let chars = chars_of(line);
    let t = trim(chars.as_slice());
    if equals_str(t.as_slice(), ":quit") || equals_str(t.as_slice(), ":q") {
        ReplCommand::Quit
    } else if equals_str(t.as_slice(), ":reset") {
        ReplCommand::Reset
    } else if equals_str(t.as_slice(), ":help") || equals_str(t.as_slice(), ":h") {
        ReplCommand::Help
    } else if equals_str(t.as_slice(), ":context") || equals_str(t.as_slice(), ":ctx") {
        ReplCommand::Context
    } else if t.len() == 0 {
        ReplCommand::Nothing
    } else {
        ReplCommand::Evaluate(string_of(t.as_slice()))
    }
}

/// Whether an input goes into the history: it is not empty and is no
/// command, that is, it does not begin with a colon.
pub fn keeps_history(input: &str) -> (r: bool)
    ensures
        r == (input@.len() > 0 && input@[0] != ':'),
{
    let chars = chars_of(input);
    chars.len() > 0 && chars[0] != ':'
}

} // verus!
