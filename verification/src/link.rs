//! A link in a processing chain that connects one [`Node`] to another.
//!
//! `Link` serves as a container for chaining two `Node` instances together,
//! where the output of the first node is fed as the input to the next. If the
//! first node fails, the link fails immediately without invoking the second
//! node.

use vstd::prelude::*;

use crate::error::{AnchorChainError, ErrorV};
use crate::node::{outcome_view, Node, Stateful, Stateless};
use crate::shared_state::SharedState;

verus! {

/// A link in a processing chain that connects one `Node` to another.
///
/// Output from `node` is passed as input to `next`. Either field can itself
/// be a `Link`, forming a nested chain of nodes.
pub struct Link<C, N> {
    /// The first node in the chain.
    pub node: C,
    /// The next node or link in the chain.
    pub next: N,
}

impl<C, N> Link<C, N> {
    /// Creates a new `Link` connecting the specified nodes.
    pub fn new(node: C, next: N) -> (r: Self)
        ensures
            r == (Link { node, next }),
    {
        Link { node, next }
    }
}

impl<C: Node, N: Node<Input = C::Output>> Node for Link<C, N> {
    type Input = C::Input;

    type Output = N::Output;

    /// The outcome of the first node, fed into the second when it succeeds;
    /// the first node's error otherwise.
    open spec fn spec_result(&self, iv: <C::Input as DeepView>::V) -> Result<
        <N::Output as DeepView>::V,
        ErrorV,
    > {
        match self.node.spec_result(iv) {
            Ok(mid) => self.next.spec_result(mid),
            Err(e) => Err(e),
        }
    }

    /// Both nodes advance when the first succeeds; when the first fails the
    /// second is left untouched.
    open spec fn spec_advances(&self, iv: <C::Input as DeepView>::V, post: Self) -> bool {
        &&& self.node.spec_advances(iv, post.node)
        &&& match self.node.spec_result(iv) {
            Ok(mid) => self.next.spec_advances(mid, post.next),
            Err(e) => post.next == self.next,
        }
    }

    /// Processes the given input through both nodes in order, failing fast if
    /// the first fails.
    fn process(&mut self, input: C::Input) -> (r: Result<N::Output, AnchorChainError>)
        ensures
            outcome_view(r) == old(self).spec_result(input.deep_view()),
            old(self).spec_advances(input.deep_view(), *final(self)),
    {
        match self.node.process(input) {
            Ok(mid) => self.next.process(mid),
            Err(e) => Err(e),
        }
    }
}

impl<C: Stateless, N: Stateless<Input = C::Output>> Stateless for Link<C, N> {

}

/// A stateful link in a processing chain that connects one [`Node`] to a
/// [`Stateful`] node.
///
/// The output of the first node is fed as the input to the next, and the
/// link's shared store is handed to the next node immediately before it
/// processes, so the node always observes the store as it exists at call
/// time. If the first node fails, the link fails without touching the next
/// node.
#[verifier::reject_recursive_types(V)]
pub struct StatefulLink<C, N, V: DeepView> {
    /// The first node in the chain.
    pub node: C,
    /// The stateful node processing the first node's output.
    pub next: N,
    /// The store handle handed to `next` before each of its invocations.
    pub state: SharedState<V>,
}

impl<C, N, V: DeepView> StatefulLink<C, N, V> {
    /// Creates a new `StatefulLink` connecting the specified nodes around
    /// the given store handle.
    pub fn new(node: C, next: N, memory: SharedState<V>) -> (r: Self)
        ensures
            r.node == node,
            r.next == next,
            r.state == memory,
    {
        StatefulLink { node, next, state: memory }
    }
}

impl<C: Node, V: DeepView, N: Stateful<V, Input = C::Output>> StatefulLink<C, N, V> {
    /// Processes the given input through the first node, hands the store to
    /// the stateful node, and runs it on the intermediate output, failing
    /// fast without touching the stateful node if the first node fails.
    pub fn process(&mut self, input: C::Input) -> (r: Result<N::Output, AnchorChainError>)
        ensures
            old(self).node.spec_advances(input.deep_view(), final (self).node),
            final (self).state == old(self).state,
            old(self).node.spec_result(input.deep_view()) matches Err(e) ==> outcome_view(r)
                == Err::<<N::Output as DeepView>::V, ErrorV>(e) && final (self).next == old(
                self,
            ).next,
            old(self).node.spec_result(input.deep_view()) matches Ok(mid) ==> (exists|staged: N|
                old(self).next.spec_set(staged) && #[trigger] staged.spec_outcome(
                    mid,
                    outcome_view(r),
                ) && staged.spec_advances(mid, final (self).next)),
    {
        let out = match self.node.process(input) {
            Ok(out) => out,
            Err(e) => {
                return Err(e);
            },
        };
        self.next.set_state(self.state.clone());
        let ghost staged = self.next;
        let r = self.next.process(out);
        proof {
            assert(old(self).next.spec_set(staged));
            assert(staged.spec_outcome(out.deep_view(), outcome_view(r)));
            assert(staged.spec_advances(out.deep_view(), self.next));
            assert(out.deep_view() == old(self).node.spec_result(input.deep_view())->Ok_0);
            assert(staged.spec_outcome(
                old(self).node.spec_result(input.deep_view())->Ok_0,
                outcome_view(r),
            ));
            assert(staged.spec_advances(
                old(self).node.spec_result(input.deep_view())->Ok_0,
                self.next,
            ));
        }
        r
    }
}


/// A stateful stage followed by a stateless node.
///
/// Lets a chain continue past a stateful stage: the pair is itself a
/// [`Stateful`] unit, so it can stand wherever a stateful node can. The
/// injected store reaches the stateful stage; the stateless node needs none.
#[verifier::reject_recursive_types(V)]
pub struct StatefulThen<L, N, V: DeepView> {
    /// The stateful stage processed first.
    pub first: L,
    /// The stateless node processing the stage's output.
    pub second: N,
    /// Phantom marker for the store value type.
    pub _marker: core::marker::PhantomData<V>,
}

impl<L, N, V: DeepView> StatefulThen<L, N, V> {
    /// Composes a stateful stage with a stateless node after it.
    pub fn new(first: L, second: N) -> (r: Self)
        ensures
            r.first == first,
            r.second == second,
    {
        StatefulThen { first, second, _marker: core::marker::PhantomData }
    }
}

impl<V: DeepView, L: Stateful<V>, N: Node<Input = L::Output> + Stateless> Stateful<V> for StatefulThen<
    L,
    N,
    V,
> {
    type Input = L::Input;

    type Output = N::Output;

    open spec fn spec_set(&self, post: Self) -> bool {
        &&& self.first.spec_set(post.first)
        &&& post.second == self.second
    }

    /// The stage's error, or the stateless node's outcome on the stage's
    /// output.
    open spec fn spec_outcome(
        &self,
        iv: <L::Input as DeepView>::V,
        out: Result<<N::Output as DeepView>::V, ErrorV>,
    ) -> bool {
        ||| (exists|e: ErrorV|
            #[trigger] self.first.spec_outcome(iv, Err(e)) && out == Err::<
                <N::Output as DeepView>::V,
                ErrorV,
            >(e))
        ||| (exists|mid: <L::Output as DeepView>::V|
            #[trigger] self.first.spec_outcome(iv, Ok(mid)) && out == self.second.spec_result(mid))
    }

    open spec fn spec_advances(&self, iv: <L::Input as DeepView>::V, post: Self) -> bool {
        &&& self.first.spec_advances(iv, post.first)
        &&& ((exists|mid: <L::Output as DeepView>::V|
            #[trigger] self.first.spec_outcome(iv, Ok(mid)) && self.second.spec_advances(
                mid,
                post.second,
            )) || post.second == self.second)
    }

    fn set_state(&mut self, state: SharedState<V>)
        ensures
            old(self).spec_set(*final(self)),
    {
        self.first.set_state(state);
    }

    fn process(&mut self, input: L::Input) -> (r: Result<N::Output, AnchorChainError>)
        ensures
            old(self).spec_outcome(input.deep_view(), outcome_view(r)),
            old(self).spec_advances(input.deep_view(), *final(self)),
    {
        let mid = match self.first.process(input) {
            Ok(mid) => mid,
            Err(e) => {
                proof {
                    assert(old(self).first.spec_outcome(
                        input.deep_view(),
                        Err(e.deep_view()),
                    ));
                }
                return Err(e);
            },
        };
        let r = self.second.process(mid);
        proof {
            assert(old(self).first.spec_outcome(input.deep_view(), Ok(mid.deep_view())));
            assert(outcome_view(r) == old(self).second.spec_result(mid.deep_view()));
        }
        r
    }
}

/// Two stateful stages in sequence, working against one shared store.
///
/// The injected store reaches both stages, so one store instance threads
/// through a whole stateful chain.
#[verifier::reject_recursive_types(V)]
pub struct StatefulBoth<A, B, V: DeepView> {
    /// The stage processed first.
    pub first: A,
    /// The stage processing the first stage's output.
    pub second: B,
    /// Phantom marker for the store value type.
    pub _marker: core::marker::PhantomData<V>,
}

impl<A, B, V: DeepView> StatefulBoth<A, B, V> {
    /// Composes two stateful stages around one store.
    pub fn new(first: A, second: B) -> (r: Self)
        ensures
            r.first == first,
            r.second == second,
    {
        StatefulBoth { first, second, _marker: core::marker::PhantomData }
    }
}

impl<V: DeepView, A: Stateful<V>, B: Stateful<V, Input = A::Output>> Stateful<V> for StatefulBoth<
    A,
    B,
    V,
> {
    type Input = A::Input;

    type Output = B::Output;

    open spec fn spec_set(&self, post: Self) -> bool {
        &&& self.first.spec_set(post.first)
        &&& self.second.spec_set(post.second)
    }

    /// The first stage's error, or one of the second stage's outcomes on the
    /// first stage's output.
    open spec fn spec_outcome(
        &self,
        iv: <A::Input as DeepView>::V,
        out: Result<<B::Output as DeepView>::V, ErrorV>,
    ) -> bool {
        ||| (exists|e: ErrorV|
            #[trigger] self.first.spec_outcome(iv, Err(e)) && out == Err::<
                <B::Output as DeepView>::V,
                ErrorV,
            >(e))
        ||| (exists|mid: <A::Output as DeepView>::V|
            #[trigger] self.first.spec_outcome(iv, Ok(mid)) && self.second.spec_outcome(mid, out))
    }

    open spec fn spec_advances(&self, iv: <A::Input as DeepView>::V, post: Self) -> bool {
        &&& self.first.spec_advances(iv, post.first)
        &&& ((exists|mid: <A::Output as DeepView>::V|
            #[trigger] self.first.spec_outcome(iv, Ok(mid)) && self.second.spec_advances(
                mid,
                post.second,
            )) || post.second == self.second)
    }

    fn set_state(&mut self, state: SharedState<V>)
        ensures
            old(self).spec_set(*final(self)),
    {
        self.first.set_state(state.clone());
        self.second.set_state(state);
    }

    fn process(&mut self, input: A::Input) -> (r: Result<B::Output, AnchorChainError>)
        ensures
            old(self).spec_outcome(input.deep_view(), outcome_view(r)),
            old(self).spec_advances(input.deep_view(), *final(self)),
    {
        let mid = match self.first.process(input) {
            Ok(mid) => mid,
            Err(e) => {
                proof {
                    assert(old(self).first.spec_outcome(
                        input.deep_view(),
                        Err(e.deep_view()),
                    ));
                }
                return Err(e);
            },
        };
        let r = self.second.process(mid);
        proof {
            assert(old(self).first.spec_outcome(input.deep_view(), Ok(mid.deep_view())));
            assert(old(self).second.spec_outcome(mid.deep_view(), outcome_view(r)));
            assert(old(self).second.spec_advances(mid.deep_view(), self.second));
        }
        r
    }
}

/// Composition is associative: linking `a` before the composition of `b` and
/// `c` produces the same outcome as linking the composition of `a` and `b`
/// before `c`, on every input.
pub proof fn lemma_link_associative<A: Node, B: Node<Input = A::Output>, C: Node<
    Input = B::Output,
>>(a: A, b: B, c: C, iv: <A::Input as DeepView>::V)
    ensures
        (Link { node: a, next: Link { node: b, next: c } }).spec_result(iv) == (Link {
            node: Link { node: a, next: b },
            next: c,
        }).spec_result(iv),
{
}

/// A link fails fast: when its first node fails, the link's outcome is that
/// node's error and the downstream node is never invoked — it is left in
/// exactly the state it had before the call.
pub proof fn lemma_link_fail_fast<C: Node, N: Node<Input = C::Output>>(
    l: Link<C, N>,
    iv: <C::Input as DeepView>::V,
)
    requires
        l.node.spec_result(iv) is Err,
    ensures
        l.spec_result(iv) == Result::<<N::Output as DeepView>::V, ErrorV>::Err(
            l.node.spec_result(iv)->Err_0,
        ),
        forall|post: Link<C, N>| #[trigger] l.spec_advances(iv, post) ==> post.next == l.next,
{
}

} // verus!
