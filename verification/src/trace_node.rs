//! A node that wraps another node and records its invocations.
//!
//! `TraceNode` passes every input through to the wrapped node unchanged and
//! counts how often the wrapped node was invoked, so a pipeline's execution
//! can be observed from outside.

use vstd::prelude::*;

use crate::error::{AnchorChainError, ErrorV};
use crate::node::{outcome_view, Node, Stateless};

verus! {

/// A node that delegates to the wrapped node and records each invocation.
pub struct TraceNode<N> {
    /// The wrapped node.
    pub node: N,
    /// The number of invocations made so far.
    pub invocations: u64,
}

impl<N> TraceNode<N> {
    /// Wraps `node`, with no invocations recorded yet.
    pub fn new(node: N) -> (r: Self)
        ensures
            r.node == node,
            r.invocations == 0,
    {
        TraceNode { node, invocations: 0 }
    }
}

impl<N: Node> Node for TraceNode<N> {
    type Input = N::Input;

    type Output = N::Output;

    open spec fn spec_result(&self, iv: <N::Input as DeepView>::V) -> Result<
        <N::Output as DeepView>::V,
        ErrorV,
    > {
        self.node.spec_result(iv)
    }

    open spec fn spec_advances(&self, iv: <N::Input as DeepView>::V, post: Self) -> bool {
        &&& self.node.spec_advances(iv, post.node)
        &&& post.invocations == if self.invocations < u64::MAX {
            self.invocations + 1
        } else {
            self.invocations as int
        }
    }

    /// Forwards the input to the wrapped node and records the invocation.
    fn process(&mut self, input: N::Input) -> (r: Result<N::Output, AnchorChainError>)
        ensures
            outcome_view(r) == old(self).spec_result(input.deep_view()),
            old(self).spec_advances(input.deep_view(), *final(self)),
    {
        if self.invocations < u64::MAX {
            self.invocations = self.invocations + 1;
        }
        self.node.process(input)
    }
}

impl<N: Stateless> Stateless for TraceNode<N> {

}

} // verus!
