//! A node that processes one input through multiple nodes and combines their
//! outputs.
//!
//! The [`ParallelNode`] struct owns a list of child nodes of one type and a
//! combination function. The input is duplicated once per child, every child
//! is run against its copy, and — when every child succeeds — the combination
//! function receives the outputs in registration order, never in completion
//! order. If any child fails, the whole operation fails with the error of the
//! first failing child in registration order; children registered after a
//! failing one are still run, but their results are discarded.

use vstd::prelude::*;

use crate::error::{AnchorChainError, ErrorV};
use crate::node::{outcome_view, Duplicable, Node, Stateless};

verus! {

/// A function that combines the outputs of multiple nodes.
///
/// The combination step of a [`ParallelNode`] is a value implementing this
/// trait; [`Combiner::spec_combine`] states exactly which outcome the step
/// produces for given items.
pub trait Combiner: Sized {
    /// The type of the items being combined.
    type Item: DeepView;

    /// The type of the combined output.
    type Output: DeepView;

    /// The outcome `combine` produces on items with the given views.
    spec fn spec_combine(&self, items: Seq<<Self::Item as DeepView>::V>) -> Result<
        <Self::Output as DeepView>::V,
        ErrorV,
    >;

    /// Combines the items into one output, as promised by
    /// [`Combiner::spec_combine`].
    fn combine(&self, items: Vec<Self::Item>) -> (r: Result<Self::Output, AnchorChainError>)
        ensures
            outcome_view(r) == self.spec_combine(items.deep_view()),
    ;
}

/// The outcomes of every child of a fan-out node, in registration order.
pub open spec fn spec_children_results<N: Node>(
    nodes: Seq<N>,
    iv: <N::Input as DeepView>::V,
) -> Seq<Result<<N::Output as DeepView>::V, ErrorV>> {
    nodes.map_values(|n: N| n.spec_result(iv))
}

/// The error of the first failing outcome, if any.
pub open spec fn first_error<OV>(rs: Seq<Result<OV, ErrorV>>) -> Option<ErrorV>
    decreases rs.len(),
{
    if rs.len() == 0 {
        None
    } else {
        match rs.first() {
            Err(e) => Some(e),
            Ok(_) => first_error(rs.drop_first()),
        }
    }
}

/// The payloads of a sequence of outcomes; meaningful when none failed.
pub open spec fn ok_outputs<OV>(rs: Seq<Result<OV, ErrorV>>) -> Seq<OV> {
    Seq::new(rs.len(), |i: int| rs[i]->Ok_0)
}

proof fn lemma_first_error_push<OV>(rs: Seq<Result<OV, ErrorV>>, r: Result<OV, ErrorV>)
    ensures
        first_error(rs) is Some ==> first_error(rs.push(r)) == first_error(rs),
        first_error(rs) is None && r is Ok ==> first_error(rs.push(r)) is None,
        first_error(rs) is None && r is Err ==> first_error(rs.push(r)) == Some(r->Err_0),
    decreases rs.len(),
{
    reveal_with_fuel(first_error, 2);
    let p = rs.push(r);
    if rs.len() == 0 {
        assert(p.first() == r);
        assert(p.drop_first() =~= Seq::<Result<OV, ErrorV>>::empty());
        if r is Ok {
            assert(first_error(p) is None);
        } else {
            assert(first_error(p) == Some(r->Err_0));
        }
    } else {
        assert(p.first() == rs.first());
        assert(p.drop_first() =~= rs.drop_first().push(r));
        lemma_first_error_push(rs.drop_first(), r);
        if rs.first() is Err {
            assert(first_error(p) == first_error(rs));
        } else {
            assert(first_error(p) == first_error(rs.drop_first().push(r)));
            assert(first_error(rs) == first_error(rs.drop_first()));
        }
    }
}

proof fn lemma_first_error_none<OV>(rs: Seq<Result<OV, ErrorV>>)
    requires
        forall|i: int| 0 <= i < rs.len() ==> rs[i] is Ok,
    ensures
        first_error(rs) is None,
    decreases rs.len(),
{
    if rs.len() > 0 {
        lemma_first_error_none(rs.drop_first());
    }
}

proof fn lemma_first_error_at<OV>(rs: Seq<Result<OV, ErrorV>>, k: int)
    requires
        0 <= k < rs.len(),
        rs[k] is Err,
        forall|j: int| 0 <= j < k ==> rs[j] is Ok,
    ensures
        first_error(rs) == Some(rs[k]->Err_0),
    decreases rs.len(),
{
    if k > 0 {
        lemma_first_error_at(rs.drop_first(), k - 1);
    }
}

/// A node that processes input through multiple child nodes.
///
/// The input is duplicated for each child; each child is run against its own
/// copy; the outputs are then combined by `function`.
pub struct ParallelNode<N, F> {
    /// The nodes that will process the input.
    pub nodes: Vec<N>,
    /// The function that combines the outputs of the nodes.
    pub function: F,
}

impl<N, F> ParallelNode<N, F> {
    /// Creates a new `ParallelNode` with the provided nodes and combination
    /// function.
    pub fn new(nodes: Vec<N>, function: F) -> (r: Self)
        ensures
            r.nodes == nodes,
            r.function == function,
    {
        ParallelNode { nodes, function }
    }
}

impl<N: Node, F: Combiner<Item = N::Output>> Node for ParallelNode<N, F> where
    N::Input: Duplicable,
 {
    type Input = N::Input;

    type Output = F::Output;

    /// The first failing child's error, or the combination of all outputs in
    /// registration order when every child succeeds.
    open spec fn spec_result(&self, iv: <N::Input as DeepView>::V) -> Result<
        <F::Output as DeepView>::V,
        ErrorV,
    > {
        let rs = spec_children_results(self.nodes@, iv);
        match first_error(rs) {
            Some(e) => Err(e),
            None => self.function.spec_combine(ok_outputs(rs)),
        }
    }

    /// Every child is run exactly once, whether or not a sibling failed.
    open spec fn spec_advances(&self, iv: <N::Input as DeepView>::V, post: Self) -> bool {
        &&& post.function == self.function
        &&& post.nodes@.len() == self.nodes@.len()
        &&& forall|i: int| 0 <= i < self.nodes@.len() ==> self.nodes@[i].spec_advances(
            iv,
            #[trigger] post.nodes@[i],
        )
    }

    /// Runs every child on its own copy of the input, then combines the
    /// outputs in registration order, failing with the first failing child's
    /// error if there is one.
    fn process(&mut self, input: N::Input) -> (r: Result<F::Output, AnchorChainError>)
        ensures
            outcome_view(r) == old(self).spec_result(input.deep_view()),
            old(self).spec_advances(input.deep_view(), *final(self)),
    {
        let ghost iv = input.deep_view();
        let ghost orig = self.nodes@;
        let ghost rs = spec_children_results(orig, iv);
        let mut processed: Vec<N> = Vec::new();
        let mut outputs: Vec<N::Output> = Vec::new();
        let mut err: Option<AnchorChainError> = None;
        while self.nodes.len() > 0
            invariant
                iv == input.deep_view(),
                orig == old(self).nodes@,
                self.function == old(self).function,
                processed@.len() + self.nodes@.len() == orig.len(),
                self.nodes@ =~= orig.skip(processed@.len() as int),
                rs == spec_children_results(orig, iv),
                forall|j: int| 0 <= j < processed@.len() ==> orig[j].spec_advances(
                    iv,
                    #[trigger] processed@[j],
                ),
                match err {
                    Some(e) => first_error(rs.take(processed@.len() as int)) == Some(
                        e.deep_view(),
                    ),
                    None => {
                        &&& first_error(rs.take(processed@.len() as int)) is None
                        &&& outputs.deep_view() =~= ok_outputs(rs.take(processed@.len() as int))
                    },
                },
            decreases self.nodes@.len(),
        {
            let ghost done = processed@.len() as int;
            let mut node = self.nodes.remove(0);
            proof {
                assert(orig.skip(done)[0] == orig[done]);
                assert(orig[done] == node);
                assert(self.nodes@ =~= orig.skip(done + 1));
                assert(rs[done] == node.spec_result(iv));
            }
            let ghost prev_outputs = outputs.deep_view();
            let copy = input.dup();
            let ghost before = node;
            let out = node.process(copy);
            let ghost advanced = node;
            processed.push(node);
            proof {
                assert(before.spec_advances(iv, advanced));
                assert(processed@ =~= processed@.take(done).push(advanced));
                assert(processed@[done] == advanced);
                assert(outcome_view(out) == rs[done]);
                assert(rs.take(done + 1) =~= rs.take(done).push(rs[done]));
                lemma_first_error_push(rs.take(done), rs[done]);
            }
            match out {
                Ok(o) => {
                    let ghost ov = o.deep_view();
                    outputs.push(o);
                    proof {
                        if err is None {
                            assert(outputs.deep_view() =~= prev_outputs.push(ov));
                            assert(ov == rs[done]->Ok_0);
                            assert(outputs.deep_view() =~= ok_outputs(rs.take(done + 1)));
                        }
                    }
                },
                Err(e) => {
                    if err.is_none() {
                        err = Some(e);
                    }
                },
            }
        }
        proof {
            assert(rs.take(processed@.len() as int) =~= rs);
        }
        self.nodes = processed;
        match err {
            Some(e) => Err(e),
            None => self.function.combine(outputs),
        }
    }
}

impl<N: Stateless, F: Combiner<Item = N::Output>> Stateless for ParallelNode<N, F> where
    N::Input: Duplicable,
 {

}

/// When every child of a fan-out node succeeds, the combination function
/// receives the children's outputs in registration order — the order of
/// `nodes` — regardless of how their executions interleave.
pub proof fn lemma_parallel_registration_order<N: Node, F: Combiner<Item = N::Output>>(
    p: ParallelNode<N, F>,
    iv: <N::Input as DeepView>::V,
) where N::Input: Duplicable
    requires
        forall|i: int| 0 <= i < p.nodes@.len() ==> (#[trigger] p.nodes@[i].spec_result(
            iv,
        )) is Ok,
    ensures
        p.spec_result(iv) == p.function.spec_combine(
            Seq::new(p.nodes@.len(), |i: int| p.nodes@[i].spec_result(iv)->Ok_0),
        ),
{
    let rs = spec_children_results(p.nodes@, iv);
    lemma_first_error_none(rs);
    assert(ok_outputs(rs) =~= Seq::new(
        p.nodes@.len(),
        |i: int| p.nodes@[i].spec_result(iv)->Ok_0,
    ));
}

/// When exactly one child of a fan-out node fails, the node's outcome is that
/// child's error, whatever the other children produce.
pub proof fn lemma_parallel_fail_fast<N: Node, F: Combiner<Item = N::Output>>(
    p: ParallelNode<N, F>,
    iv: <N::Input as DeepView>::V,
    k: int,
) where N::Input: Duplicable
    requires
        0 <= k < p.nodes@.len(),
        p.nodes@[k].spec_result(iv) is Err,
        forall|j: int| 0 <= j < k ==> (#[trigger] p.nodes@[j].spec_result(iv)) is Ok,
    ensures
        p.spec_result(iv) == Result::<<F::Output as DeepView>::V, ErrorV>::Err(
            p.nodes@[k].spec_result(iv)->Err_0,
        ),
{
    let rs = spec_children_results(p.nodes@, iv);
    lemma_first_error_at(rs, k);
}

/// The sequence-of-characters concatenation of a sequence of strings.
pub open spec fn concat_views(s: Seq<Seq<char>>) -> Seq<char>
    decreases s.len(),
{
    if s.len() == 0 {
        Seq::empty()
    } else {
        concat_views(s.drop_last()) + s.last()
    }
}

/// Concatenates the outputs of several nodes into one string.
pub fn concat(outputs: Vec<String>) -> (r: Result<String, AnchorChainError>)
    ensures
        r matches Ok(s) && s@ == concat_views(outputs.deep_view()),
{
    let n = outputs.len();
    let mut acc = String::new();
    let mut i: usize = 0;
    while i < n
        invariant
            n == outputs@.len(),
            i <= n,
            acc@ =~= concat_views(outputs.deep_view().take(i as int)),
        decreases n - i,
    {
        acc.append(outputs[i].as_str());
        proof {
            assert(outputs.deep_view().take(i + 1).drop_last() =~= outputs.deep_view().take(
                i as int,
            ));
        }
        i += 1;
    }
    proof {
        assert(outputs.deep_view().take(n as int) =~= outputs.deep_view());
    }
    Ok(acc)
}

/// A combination function that concatenates string outputs.
pub struct ConcatCombiner {

}

impl Combiner for ConcatCombiner {
    type Item = String;

    type Output = String;

    open spec fn spec_combine(&self, items: Seq<Seq<char>>) -> Result<Seq<char>, ErrorV> {
        Ok(concat_views(items))
    }

    fn combine(&self, items: Vec<String>) -> (r: Result<String, AnchorChainError>)
        ensures
            outcome_view(r) == self.spec_combine(items.deep_view()),
    {
        crate::parallel_node::concat(items)
    }
}

} // verus!
