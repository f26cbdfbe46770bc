//! A stateful node that records its inputs in a shared store.
//!
//! The node appends every input it processes to the history list kept under
//! its key in the shared store, and passes the input through unchanged.

use vstd::prelude::*;
use vstd::string::StringExecFns;

use crate::error::ErrorV;
use crate::node::Stateful;
use crate::shared_state::SharedState;

verus! {

/// A node that appends each input to a history list in the shared store and
/// passes it through unchanged.
pub struct RecorderNode {
    /// The store key the history list is kept under.
    pub key: String,
    /// The store handle, injected before processing.
    pub state: Option<SharedState<Vec<String>>>,
}

impl RecorderNode {
    /// Creates a recorder that appends under the given key, with no store
    /// wired yet.
    pub fn new(key: &str) -> (r: Self)
        ensures
            r.key@ == key@,
            r.state is None,
    {
        RecorderNode { key: String::from_str(key), state: None }
    }
}

impl Stateful<Vec<String>> for RecorderNode {
    type Input = String;

    type Output = String;

    /// Injecting a store keeps the key.
    open spec fn spec_set(&self, post: Self) -> bool {
        post.key == self.key
    }

    /// The input always passes through unchanged.
    open spec fn spec_outcome(&self, iv: Seq<char>, out: Result<Seq<char>, ErrorV>) -> bool {
        out == Ok::<Seq<char>, ErrorV>(iv)
    }

    /// Processing changes nothing about the node itself.
    open spec fn spec_advances(&self, iv: Seq<char>, post: Self) -> bool {
        post == *self
    }

    fn set_state(&mut self, state: SharedState<Vec<String>>)
        ensures
            old(self).spec_set(*final(self)),
    {
        self.state = Some(state);
    }

    /// Appends the input to the history list under the node's key, then
    /// returns the input unchanged.
    fn process(&mut self, input: String) -> (r: Result<String, crate::error::AnchorChainError>)
        ensures
            old(self).spec_outcome(input.deep_view(), crate::node::outcome_view(r)),
            old(self).spec_advances(input.deep_view(), *final(self)),
    {
        match &self.state {
            Some(state) => {
                state.push(self.key.clone(), input.clone());
            },
            None => {
            },
        }
        Ok(input)
    }
}

} // verus!
