//! Structures for creating and executing chains.
//!
//! This module defines the [`Chain`], [`ChainBuilder`] and
//! [`LinkedChainBuilder`] structures for building chains of operations where
//! each operation is a [`Node`]. A finished chain is itself a `Node`, so
//! sub-chains, parallel branches and the top-level pipeline are
//! interchangeable.

use vstd::prelude::*;

use crate::error::{AnchorChainError, ErrorV};
use crate::node::{outcome_view, Node, NoOpNode, Stateful, Stateless};
use crate::link::{Link, StatefulBoth, StatefulLink, StatefulThen};
use crate::shared_state::SharedState;

verus! {

/// Represents a chain of nodes that can process data.
///
/// `Chain` is constructed from a sequence of `Node` instances, each taking an
/// input and producing an output. The output of one node serves as the input
/// to the next.
pub struct Chain<I, O, L> {
    /// The nested links making up the chain.
    pub link: L,
    /// Phantom marker for the chain input type.
    pub _input: core::marker::PhantomData<I>,
    /// Phantom marker for the chain output type.
    pub _output: core::marker::PhantomData<O>,
}

impl<I: DeepView, O: DeepView, L: Node<Input = I, Output = O>> Chain<I, O, L> {
    /// Creates a new `Chain` from the provided initial link.
    pub fn new(link: L) -> (r: Self)
        ensures
            r.link == link,
    {
        Chain { link, _input: core::marker::PhantomData, _output: core::marker::PhantomData }
    }

    /// Processes the provided input through the chain of nodes.
    ///
    /// The input is processed by each node in the chain, with the output of
    /// one node serving as the input to the next. If any node in the chain
    /// returns an error, the processing is halted and the error is returned.
    pub fn process(&mut self, input: I) -> (r: Result<O, AnchorChainError>)
        ensures
            outcome_view(r) == old(self).link.spec_result(input.deep_view()),
            old(self).link.spec_advances(input.deep_view(), final (self).link),
    {
        self.link.process(input)
    }
}

impl<I: DeepView, O: DeepView, L: Node<Input = I, Output = O>> Node for Chain<I, O, L> {
    type Input = I;

    type Output = O;

    open spec fn spec_result(&self, iv: I::V) -> Result<O::V, ErrorV> {
        self.link.spec_result(iv)
    }

    open spec fn spec_advances(&self, iv: I::V, post: Self) -> bool {
        self.link.spec_advances(iv, post.link)
    }

    fn process(&mut self, input: I) -> (r: Result<O, AnchorChainError>)
        ensures
            outcome_view(r) == old(self).spec_result(input.deep_view()),
            old(self).spec_advances(input.deep_view(), *final(self)),
    {
        self.link.process(input)
    }
}

impl<I: DeepView, O: DeepView, L: Stateless<Input = I, Output = O>> Stateless for Chain<I, O, L> {

}

/// A builder for constructing a `Chain` of nodes.
///
/// `ChainBuilder` allows for incremental construction of a processing chain,
/// adding one node at a time.
pub struct ChainBuilder {

}

impl ChainBuilder {
    /// Creates a new `ChainBuilder` instance.
    pub fn new() -> (r: Self) {
        ChainBuilder {  }
    }

    /// Adds the first node to the chain.
    pub fn link<N: Node + Stateless>(self, node: N) -> (r: LinkedChainBuilder<N::Input, N>)
        ensures
            r.link == node,
    {
        LinkedChainBuilder { link: node, _input: core::marker::PhantomData }
    }

    /// Adds the first node to the chain as a stateful node, wiring a fresh
    /// shared store to it.
    pub fn link_with_state<V: DeepView, N: Stateful<V>>(self, node: N) -> (r:
        StatefulLinkedChainBuilder<N::Input, NoOpNode<N::Input>, N, V>)
        ensures
            r.tail == node,
    {
        StatefulLinkedChainBuilder {
            prefix: NoOpNode::new(),
            tail: node,
            state: SharedState::<V>::new(),
            _input: core::marker::PhantomData,
        }
    }
}

impl Default for ChainBuilder {
    fn default() -> (r: Self) {
        ChainBuilder::new()
    }
}

/// A builder for constructing a `Chain` of nodes using [`Link`].
///
/// `LinkedChainBuilder` takes an initial node and allows for incremental
/// construction of a processing chain, adding nodes one at a time. New nodes
/// are linked to the previous nodes using nested `Link` instances.
pub struct LinkedChainBuilder<I, L> {
    /// The accumulated chain.
    pub link: L,
    /// Phantom marker for the chain input type.
    pub _input: core::marker::PhantomData<I>,
}

impl<I: DeepView, L: Node<Input = I>> LinkedChainBuilder<I, L> {
    /// Adds a new node to the chain, linking it to the previous node.
    pub fn link<N: Node<Input = L::Output> + Stateless>(self, next: N) -> (r: LinkedChainBuilder<
        I,
        Link<L, N>,
    >)
        ensures
            r.link == (Link { node: self.link, next }),
    {
        LinkedChainBuilder {
            link: Link::new(self.link, next),
            _input: core::marker::PhantomData,
        }
    }

    /// Adds a new stateful node to the chain, linking it to the previous
    /// nodes and wiring a fresh shared store to it.
    pub fn link_with_state<V: DeepView, N: Stateful<V, Input = L::Output>>(self, next: N) -> (r:
        StatefulLinkedChainBuilder<I, L, N, V>)
        ensures
            r.prefix == self.link,
            r.tail == next,
    {
        StatefulLinkedChainBuilder {
            prefix: self.link,
            tail: next,
            state: SharedState::<V>::new(),
            _input: core::marker::PhantomData,
        }
    }

    /// Finalizes the construction of the chain, returning a `Chain` instance
    /// ready for processing.
    pub fn build(self) -> (r: Chain<I, L::Output, L>)
        ensures
            r.link == self.link,
    {
        Chain {
            link: self.link,
            _input: core::marker::PhantomData,
            _output: core::marker::PhantomData,
        }
    }
}

/// A builder for a chain that has entered a stateful section.
///
/// The chain is a stateless prefix followed by a stateful tail; every
/// stateful stage added here shares the builder's one store, which the
/// finished chain hands to the tail before each processed input. The builder
/// keeps a handle to that store, so it can also be observed from outside.
#[verifier::reject_recursive_types(V)]
pub struct StatefulLinkedChainBuilder<I, P, T, V: DeepView> {
    /// The stateless prefix of the chain.
    pub prefix: P,
    /// The stateful tail accumulated so far.
    pub tail: T,
    /// A handle to the store wired into the chain.
    pub state: SharedState<V>,
    /// Phantom marker for the chain input type.
    pub _input: core::marker::PhantomData<I>,
}

impl<I: DeepView, V: DeepView, P: Node<Input = I>, T: Stateful<V, Input = P::Output>> StatefulLinkedChainBuilder<
    I,
    P,
    T,
    V,
> {
    /// Adds a new stateless node to the chain, linking it to the previous
    /// nodes.
    pub fn link<N: Node<Input = T::Output> + Stateless>(self, next: N) -> (r:
        StatefulLinkedChainBuilder<I, P, StatefulThen<T, N, V>, V>)
        ensures
            r.prefix == self.prefix,
            r.tail.first == self.tail,
            r.tail.second == next,
            r.state == self.state,
    {
        StatefulLinkedChainBuilder {
            prefix: self.prefix,
            tail: StatefulThen::new(self.tail, next),
            state: self.state,
            _input: core::marker::PhantomData,
        }
    }

    /// Adds a new stateful node to the chain, linking it to the previous
    /// nodes and wiring the chain's shared store to it.
    pub fn link_with_state<N: Stateful<V, Input = T::Output>>(self, next: N) -> (r:
        StatefulLinkedChainBuilder<I, P, StatefulBoth<T, N, V>, V>)
        ensures
            r.prefix == self.prefix,
            r.tail.first == self.tail,
            r.tail.second == next,
            r.state == self.state,
    {
        StatefulLinkedChainBuilder {
            prefix: self.prefix,
            tail: StatefulBoth::new(self.tail, next),
            state: self.state,
            _input: core::marker::PhantomData,
        }
    }

    /// Finalizes the construction of the chain, returning the composed
    /// stateful pipeline and a handle to its shared store.
    pub fn build(self) -> (r: (StatefulLink<P, T, V>, SharedState<V>))
        ensures
            r.0.node == self.prefix,
            r.0.next == self.tail,
            r.1 == self.state,
    {
        let link = StatefulLink::new(self.prefix, self.tail, self.state.clone());
        (link, self.state)
    }
}

} // verus!
