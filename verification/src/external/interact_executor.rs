//! Talking to an interactive program: the command line it is started with,
//! split as a shell would, the text sent to it, and when its answer is
//! complete. The process itself is run by the caller.

use vstd::prelude::*;
use crate::external_program::program::texts;
use crate::util::text::{chars_of, push_char};

verus! {

/// The marker that ends an answer unless another is asked for.
pub const EOF: &'static str = "\0";

/// The words of a command line as a Unix shell splits them
/// (`shell_words::split`), `None` where a quote is left open.
pub uninterp spec fn shell_split(command: Seq<char>) -> Option<Seq<Seq<char>>>;

/// Splits a command line into words with `shell_words::split`. The contract
/// claims that the words depend on the command line alone, left to the
/// name `shell_split`, and that the crate's only error reads
/// `missing closing quote`.
#[verifier::external_body]
fn split_words(command: &str) -> (r: Result<Vec<String>, String>)
    ensures
        match r {
            Ok(words) => shell_split(command@) == Some(texts(words@)),
            Err(message) => shell_split(command@) is None && message@ == "missing closing quote"@,
        },
{
    match shell_words::split(command) {
        Ok(words) => Ok(words),
        Err(e) => Err(e.to_string()),
    }
}

/// A program and its arguments.
pub struct CommandLine {
    pub program: String,
    pub args: Vec<String>,
}

/// The program and arguments a command line names: its first word and the
/// rest. A command line without words names no program.
pub fn command_line(command: &str) -> (r: Result<CommandLine, String>)
    ensures
        match shell_split(command@) {
            Some(words) => if words.len() > 0 {
                r matches Ok(c) && c.program@ == words[0] && texts(c.args@) == words.drop_first()
            } else {
                r matches Err(m) && m@ == "empty command"@
            },
            None => r matches Err(m) && m@ == "missing closing quote"@,
        },
{
    let mut words = match split_words(command) {
        Ok(words) => words,
        Err(message) => {
            return Err(message);
        },
    };
    if words.len() == 0 {
        return Err(String::from_str("empty command"));
    }
    let ghost all = texts(words@);
    let program = words.remove(0);
    proof {
        assert(texts(words@) =~= all.drop_first());
    }
    Ok(CommandLine { program, args: words })
}

/// The text sent for an input: the input and a line break, or nothing.
pub fn input_text(input: Option<&str>) -> (s: String)
    ensures
        s@ == match input {
            Some(content) => content@.push('\n'),
            None => Seq::<char>::empty(),
        },
{
    match input {
        Some(content) => {
            let mut s = String::from_str(content);
            push_char(&mut s, '\n');
            s
        },
        None => String::new(),
    }
}

/// Whether the output read so far ends with the awaited marker.
pub fn reached(output: &str, wait_for: &str) -> (r: bool)
    ensures
        r == (wait_for@.len() <= output@.len()
            && output@.subrange(output@.len() - wait_for@.len(), output@.len() as int) == wait_for@),
{
    let o = chars_of(output);
    let w = chars_of(wait_for);
    if w.len() > o.len() {
        return false;
    }
    let start = o.len() - w.len();
    let mut i: usize = 0;
    while i < w.len()
        invariant
            o@ == output@,
            w@ == wait_for@,
            o@.len() == o.len(),
            w@.len() <= o@.len(),
            start == o@.len() - w@.len(),
            i <= w@.len(),
            forall|j: int| 0 <= j < i ==> o@[start + j] == w@[j],
        decreases w@.len() - i,
    {
        if o[start + i] != w[i] {
            assert(output@.subrange(start as int, output@.len() as int)[i as int] != wait_for@[i as int]);
            return false;
        }
        i = i + 1;
    }
    assert(output@.subrange(start as int, output@.len() as int) =~= wait_for@);
    true
}

} // verus!
