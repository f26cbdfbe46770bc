//! A simple input logging node.
//!
//! This node writes the input to standard output and passes it through
//! unchanged.

use vstd::prelude::*;
use std::io::Write;
use vstd::string::StringExecFns;

use crate::error::{AnchorChainError, ErrorV};
use crate::node::{outcome_view, Node, Stateless};

verus! {

/// Relies on `std::io::Stdout` and its `Write` implementation: writes one
/// line to standard output; a write failure is ignored.
#[verifier::external_body]
fn write_log_line(line: &String) {
    let _ = writeln!(std::io::stdout(), "{}", line);
}

/// A simple input logging node.
///
/// The input passes through unchanged; as a side effect, a line of the form
/// `prefix: input` is written to standard output.
pub struct Logger<T> {
    /// The prefix written before the input.
    pub prefix: String,
    /// Phantom marker for the logged input type.
    pub _marker: core::marker::PhantomData<T>,
}

impl<T> Logger<T> {
    /// Creates a new Logger node with the given prefix.
    ///
    /// The prefix is prepended to the input in the format `prefix: input`.
    pub fn new(prefix: &str) -> (r: Self)
        ensures
            r.prefix@ == prefix@,
    {
        Logger { prefix: String::from_str(prefix), _marker: core::marker::PhantomData }
    }
}

impl Node for Logger<String> {
    type Input = String;

    type Output = String;

    open spec fn spec_result(&self, iv: Seq<char>) -> Result<Seq<char>, ErrorV> {
        Ok(iv)
    }

    open spec fn spec_advances(&self, iv: Seq<char>, post: Self) -> bool {
        post.prefix == self.prefix
    }

    /// Logs the input and passes it through unchanged.
    fn process(&mut self, input: String) -> (r: Result<String, AnchorChainError>)
        ensures
            outcome_view(r) == old(self).spec_result(input.deep_view()),
            old(self).spec_advances(input.deep_view(), *final(self)),
    {
        let mut line = self.prefix.clone();
        line.append(": ");
        line.append(input.as_str());
        write_log_line(&line);
        Ok(input)
    }
}

impl Stateless for Logger<String> {

}

impl<T> Default for Logger<T> {
    /// A logger with the default prefix.
    fn default() -> (r: Self)
        ensures
            r.prefix@ == "Input"@,
    {
        Logger::new("Input")
    }
}

} // verus!
