//! One turn of the interactive session: from a line of input to what the
//! driver has to do next.

use crate::exec::{effect, process_query, Outcome};
use crate::query::{parsed, ParseError, Query};
use crate::table::Table;
use crate::text::{same, trim, trimmed, words};
use vstd::prelude::*;
use vstd::string::*;

verus! {

/// What the driver does after a line.
#[derive(Debug)]
pub enum Step {
    /// The line asked to end the session.
    Quit,
    /// The line is no command; the table is as it was.
    Malformed(ParseError),
    /// The line was this command, and this is what it produced.
    Done(Query, Outcome),
}

/// Whether a line ends the session: apart from white space around it, it is
/// `quit` or `exit`, in lower case.
pub open spec fn is_quit(line: Seq<char>) -> bool {
    trimmed(line) == "quit"@ || trimmed(line) == "exit"@
}

/// Executable form of [`is_quit`].
pub fn quits(line: &str) -> (b: bool)
    ensures
        b == is_quit(line@),
{
    let inner = trim(line);
    same(inner, "quit") || same(inner, "exit")
}

/// Handles one line of input.
///
/// A line that ends the session is not read as a command. Any other line is
/// split into words and parsed; where that fails the table stays as it was,
/// and otherwise the command is applied to it.
pub fn step(line: &str, store: &mut Table) -> (next: Step)
    ensures
        is_quit(line@) ==> next is Quit && final(store)@ == old(store)@,
        !is_quit(line@) ==> match parsed(words(line@)) {
            Err(e) => next == Step::Malformed(e) && final(store)@ == old(store)@,
            Ok(q) => {
                &&& next is Done
                &&& next->Done_0@ == q
                &&& next->Done_1.text@ == effect(q, old(store)@).text
                &&& next->Done_1.warnings@ == effect(q, old(store)@).warnings
                &&& final(store)@ == effect(q, old(store)@).table
            },
        },
{
    if quits(line) {
        return Step::Quit;
    }
    match Query::parse_line(line) {
        Err(e) => Step::Malformed(e),
        Ok(query) => {
            let outcome = process_query(&query, store);
            Step::Done(query, outcome)
        },
    }
}

} // verus!
