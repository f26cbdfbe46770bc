//! The processing-unit abstraction from which pipelines are composed.
//!
//! A [`Node`] transforms one typed input into one typed output or fails.
//! Its contract is stated over mathematical views of the values: every node
//! carries a specification of the result it produces and of the state it is
//! left in, so that composed pipelines have exact, composable contracts.

use vstd::prelude::*;

use crate::error::{AnchorChainError, ErrorV};

verus! {

/// The view of a node outcome: either the view of the produced output or the
/// view of the error.
pub open spec fn outcome_view<T: DeepView>(r: Result<T, AnchorChainError>) -> Result<
    T::V,
    ErrorV,
> {
    match r {
        Ok(t) => Ok(t.deep_view()),
        Err(e) => Err(e.deep_view()),
    }
}

/// A value that can be duplicated without changing its mathematical view.
///
/// Inputs handed to several processing units at once (see
/// [`crate::parallel_node::ParallelNode`]) must implement this trait.
pub trait Duplicable: DeepView + Sized {
    /// Returns a value with the same view as `self`.
    fn dup(&self) -> (r: Self)
        ensures
            r.deep_view() == self.deep_view(),
    ;
}

impl Duplicable for String {
    fn dup(&self) -> (r: Self)
        ensures
            r.deep_view() == self.deep_view(),
    {
        self.clone()
    }
}

impl Duplicable for u64 {
    fn dup(&self) -> (r: Self)
        ensures
            r.deep_view() == self.deep_view(),
    {
        *self
    }
}

impl Duplicable for usize {
    fn dup(&self) -> (r: Self)
        ensures
            r.deep_view() == self.deep_view(),
    {
        *self
    }
}

/// Represents a node that can process an input to produce an output.
///
/// Implementors state, through [`Node::spec_result`] and
/// [`Node::spec_advances`], exactly which outcome `process` produces for an
/// input with a given view, and which state the node is left in. When chained
/// together, the output type of one node must match the input type of the
/// next node in the chain.
pub trait Node: Sized {
    /// The input type for the node.
    type Input: DeepView;

    /// The output type for the node.
    type Output: DeepView;

    /// The outcome `process` produces on an input with view `iv`.
    spec fn spec_result(&self, iv: <Self::Input as DeepView>::V) -> Result<
        <Self::Output as DeepView>::V,
        ErrorV,
    >;

    /// Relates the node's state before processing an input with view `iv` to
    /// its state afterwards.
    spec fn spec_advances(&self, iv: <Self::Input as DeepView>::V, post: Self) -> bool;

    /// Processes the given input, returning the output promised by
    /// [`Node::spec_result`] and advancing the node's state as described by
    /// [`Node::spec_advances`].
    fn process(&mut self, input: Self::Input) -> (r: Result<Self::Output, AnchorChainError>)
        ensures
            outcome_view(r) == old(self).spec_result(input.deep_view()),
            old(self).spec_advances(input.deep_view(), *final(self)),
    ;
}

/// Marker for nodes that hold no shared state.
pub trait Stateless: Node {

}

/// A node that reads or writes a shared state store while processing.
///
/// A shared store may be changed by other holders of its handle between any
/// two operations, so a stateful node's outcome is not a function of its
/// input: [`Stateful::spec_outcome`] describes which outcomes are possible
/// instead.
pub trait Stateful<V: DeepView>: Sized {
    /// The input type for the node.
    type Input: DeepView;

    /// The output type for the node.
    type Output: DeepView;

    /// Relates the node's state before a store handle is injected to its
    /// state afterwards.
    spec fn spec_set(&self, post: Self) -> bool;

    /// Which outcomes one `process` call may produce on an input with view
    /// `iv`.
    spec fn spec_outcome(
        &self,
        iv: <Self::Input as DeepView>::V,
        out: Result<<Self::Output as DeepView>::V, ErrorV>,
    ) -> bool;

    /// Relates the node's state before processing an input with view `iv` to
    /// its state afterwards.
    spec fn spec_advances(&self, iv: <Self::Input as DeepView>::V, post: Self) -> bool;

    /// Hands the node the store it works against, as described by
    /// [`Stateful::spec_set`].
    fn set_state(&mut self, state: crate::shared_state::SharedState<V>)
        ensures
            old(self).spec_set(*final(self)),
    ;

    /// Processes the given input, producing one of the outcomes
    /// [`Stateful::spec_outcome`] allows and advancing the node's state as
    /// described by [`Stateful::spec_advances`].
    fn process(&mut self, input: Self::Input) -> (r: Result<Self::Output, AnchorChainError>)
        ensures
            old(self).spec_outcome(input.deep_view(), outcome_view(r)),
            old(self).spec_advances(input.deep_view(), *final(self)),
    ;
}

/// A no-op node that passes input through unchanged.
pub struct NoOpNode<T> {
    _marker: core::marker::PhantomData<T>,
}

impl<T> NoOpNode<T> {
    /// Creates a new `NoOpNode`.
    pub fn new() -> (r: Self) {
        NoOpNode { _marker: core::marker::PhantomData }
    }
}

impl<T: DeepView> Node for NoOpNode<T> {
    type Input = T;

    type Output = T;

    open spec fn spec_result(&self, iv: T::V) -> Result<T::V, ErrorV> {
        Ok(iv)
    }

    open spec fn spec_advances(&self, iv: T::V, post: Self) -> bool {
        post == *self
    }

    /// Returns the input unchanged.
    fn process(&mut self, input: T) -> (r: Result<T, AnchorChainError>)
        ensures
            outcome_view(r) == old(self).spec_result(input.deep_view()),
            old(self).spec_advances(input.deep_view(), *final(self)),
    {
        Ok(input)
    }
}

impl<T: DeepView> Stateless for NoOpNode<T> {

}

impl<T> Default for NoOpNode<T> {
    fn default() -> (r: Self) {
        NoOpNode::new()
    }
}

} // verus!
