//! A configurable node that replays a fixed outcome and records how often it
//! was invoked.
//!
//! Useful for exercising pipelines: as a spy that shows whether a stage was
//! ever invoked, and as a child of a fan-out unit that deterministically
//! succeeds or fails.

use vstd::prelude::*;
use vstd::string::StringExecFns;

use crate::error::{AnchorChainError, ErrorV};
use crate::node::{outcome_view, Node, Stateless};

verus! {

/// A node that returns a copy of one fixed outcome on every invocation and
/// counts its invocations.
pub struct StubNode {
    /// The outcome returned on every invocation.
    pub reply: Result<String, AnchorChainError>,
    /// The number of invocations made so far.
    pub calls: u64,
}

impl StubNode {
    /// Creates a stub that always succeeds with the given text.
    pub fn succeeding(text: &str) -> (r: Self)
        ensures
            r.reply matches Ok(s) && s@ == text@,
            r.calls == 0,
    {
        StubNode { reply: Ok(String::from_str(text)), calls: 0 }
    }

    /// Creates a stub that always fails with a model error carrying the
    /// given message.
    pub fn failing(message: &str) -> (r: Self)
        ensures
            r.reply matches Err(e) && e.deep_view() == ErrorV::Model(message@),
            r.calls == 0,
    {
        StubNode { reply: Err(AnchorChainError::ModelError(String::from_str(message))), calls: 0 }
    }
}

impl Node for StubNode {
    type Input = String;

    type Output = String;

    open spec fn spec_result(&self, iv: Seq<char>) -> Result<Seq<char>, ErrorV> {
        outcome_view(self.reply)
    }

    open spec fn spec_advances(&self, iv: Seq<char>, post: Self) -> bool {
        &&& post.reply == self.reply
        &&& post.calls == if self.calls < u64::MAX {
            self.calls + 1
        } else {
            self.calls as int
        }
    }

    /// Returns a copy of the configured outcome and records the invocation.
    fn process(&mut self, input: String) -> (r: Result<String, AnchorChainError>)
        ensures
            outcome_view(r) == old(self).spec_result(input.deep_view()),
            old(self).spec_advances(input.deep_view(), *final(self)),
    {
        if self.calls < u64::MAX {
            self.calls = self.calls + 1;
        }
        match &self.reply {
            Ok(s) => Ok(s.clone()),
            Err(e) => Err(e.clone()),
        }
    }
}

impl Stateless for StubNode {

}

} // verus!
