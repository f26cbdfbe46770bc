//! The bounded, tool-using agent control loop.
//!
//! The loop repeatedly invokes a model unit, scans the response's content
//! blocks, executes requested tools through the [`ToolRegistry`], feeds the
//! results back as a user turn, and terminates when a response carries no
//! tool call (a fixed point) or when the iteration bound is reached. Text
//! blocks accumulate across turns and are joined into the final output.

use vstd::prelude::*;
use vstd::string::StringExecFns;

use crate::agents::tool_registry::{ToolCallable, ToolRegistry};
use crate::content::{
    generate_tool_result_block, spec_tool_results_content, ContentBlock, ContentBlockV, Role,
    ToolResultBlock, ToolResultV, ToolUseV, Turn, TurnV,
};
use crate::error::{AnchorChainError, ErrorV};
use crate::node::{outcome_view, Node};
use crate::value::ValueV;

verus! {

/// A unit that produces one model response per invocation.
///
/// [`ModelUnit::spec_response`] states which outcome the next invocation
/// produces, and [`ModelUnit::spec_step`] which state the unit is left in.
/// A unit whose next response depends on the conversation it is shown — a
/// live model behind a network — cannot state such a contract; a program
/// around the library drives the same loop through
/// [`handle_model_response`] and [`join_strings`] instead.
pub trait ModelUnit: Sized {
    /// The outcome of the next invocation.
    spec fn spec_response(&self) -> Result<Seq<ContentBlockV>, ErrorV>;

    /// The state the unit is left in after one invocation.
    spec fn spec_step(&self) -> Self;

    /// Produces the next model response for the given conversation.
    fn invoke(&mut self, conversation: &Vec<Turn>) -> (r: Result<
        Vec<ContentBlock>,
        AnchorChainError,
    >)
        ensures
            outcome_view(r) == old(self).spec_response(),
            *final(self) == old(self).spec_step(),
    ;
}

/// A model unit that replays a fixed script of responses, one per
/// invocation, and fails with an empty-response error when the script is
/// exhausted.
pub struct ScriptedModel {
    /// The scripted responses, in the order they are returned.
    pub script: Vec<Vec<ContentBlock>>,
    /// The number of invocations made so far.
    pub index: usize,
}

impl ScriptedModel {
    /// Creates a scripted model that has made no invocations yet.
    pub fn new(script: Vec<Vec<ContentBlock>>) -> (r: Self)
        ensures
            r.script == script,
            r.index == 0,
    {
        ScriptedModel { script, index: 0 }
    }
}

impl ModelUnit for ScriptedModel {
    open spec fn spec_response(&self) -> Result<Seq<ContentBlockV>, ErrorV> {
        if self.index < self.script@.len() {
            Ok(self.script@[self.index as int].deep_view())
        } else {
            Err(ErrorV::EmptyResponse)
        }
    }

    open spec fn spec_step(&self) -> Self {
        if self.index < self.script@.len() && self.index < usize::MAX {
            ScriptedModel { script: self.script, index: (self.index + 1) as usize }
        } else {
            *self
        }
    }

    fn invoke(&mut self, conversation: &Vec<Turn>) -> (r: Result<
        Vec<ContentBlock>,
        AnchorChainError,
    >)
        ensures
            outcome_view(r) == old(self).spec_response(),
            *final(self) == old(self).spec_step(),
    {
        if self.index < self.script.len() {
            let blocks = self.script[self.index].clone();
            proof {
                assert(blocks.deep_view() =~= self.script@[self.index as int].deep_view());
            }
            self.index += 1;
            Ok(blocks)
        } else {
            Err(AnchorChainError::EmptyResponseError)
        }
    }
}

/// The text payloads of a response's blocks, in order.
pub open spec fn spec_texts(blocks: Seq<ContentBlockV>) -> Seq<Seq<char>>
    decreases blocks.len(),
{
    if blocks.len() == 0 {
        Seq::empty()
    } else {
        match blocks.last() {
            ContentBlockV::Text(t) => spec_texts(blocks.drop_last()).push(t),
            _ => spec_texts(blocks.drop_last()),
        }
    }
}

/// The tool-call requests of a response's blocks, in order.
pub open spec fn spec_tool_uses(blocks: Seq<ContentBlockV>) -> Seq<ToolUseV>
    decreases blocks.len(),
{
    if blocks.len() == 0 {
        Seq::empty()
    } else {
        match blocks.last() {
            ContentBlockV::ToolUse(u) => spec_tool_uses(blocks.drop_last()).push(u),
            _ => spec_tool_uses(blocks.drop_last()),
        }
    }
}

/// Whether every block of a model response is one the agent loop supports:
/// text or a tool-call request.
pub open spec fn spec_blocks_supported(blocks: Seq<ContentBlockV>) -> bool {
    forall|i: int|
        0 <= i < blocks.len() ==> (blocks[i] is Text || blocks[i] is ToolUse)
}

/// The tool result the agent loop reports for one tool-call request: the
/// registered callable's return value with success status, or the lookup
/// error message with error status. Tool failures are recovered here, never
/// surfaced as loop failures.
pub open spec fn spec_tool_result_of<F: ToolCallable>(
    registry: ToolRegistry<F>,
    u: ToolUseV,
) -> ToolResultV {
    match registry.spec_lookup(u.name) {
        Some(entry) => ToolResultV {
            tool_use_id: u.tool_use_id,
            content: ValueV::Object(seq![("return"@, entry.function.spec_call(u.input))]),
            success: true,
        },
        None => ToolResultV {
            tool_use_id: u.tool_use_id,
            content: ValueV::Object(
                seq![("return"@, ValueV::Text("Tool "@ + u.name + " not found"@))],
            ),
            success: false,
        },
    }
}

/// The tool results for a sequence of tool-call requests, in request order.
pub open spec fn spec_tool_results<F: ToolCallable>(
    registry: ToolRegistry<F>,
    uses: Seq<ToolUseV>,
) -> Seq<ToolResultV> {
    Seq::new(uses.len(), |i: int| spec_tool_result_of(registry, uses[i]))
}

/// The message of the error raised on a model response holding a block the
/// loop does not support.
pub open spec fn spec_unsupported_message() -> Seq<char> {
    "unsupported content block in model response"@
}

/// Text accumulated across turns, joined with a blank line.
pub open spec fn spec_join(texts: Seq<Seq<char>>) -> Seq<char>
    decreases texts.len(),
{
    if texts.len() == 0 {
        Seq::empty()
    } else if texts.len() == 1 {
        texts.first()
    } else {
        spec_join(texts.drop_last()) + "\n\n"@ + texts.last()
    }
}

/// Joins accumulated text with a blank line between entries, as
/// [`spec_join`] describes.
pub fn join_strings(texts: &Vec<String>) -> (r: String)
    ensures
        r@ == spec_join(texts.deep_view()),
{
    let n = texts.len();
    let mut acc = String::new();
    let mut i: usize = 0;
    while i < n
        invariant
            n == texts@.len(),
            i <= n,
            acc@ =~= spec_join(texts.deep_view().take(i as int)),
        decreases n - i,
    {
        if i > 0 {
            acc.append("\n\n");
        }
        acc.append(texts[i].as_str());
        proof {
            assert(texts.deep_view().take(i + 1).drop_last() =~= texts.deep_view().take(i as int));
            assert(texts.deep_view().take(i + 1).last() == texts@[i as int]@);
            if i == 0 {
                assert(acc@ =~= texts.deep_view().take(1).first());
            }
        }
        i += 1;
    }
    proof {
        assert(texts.deep_view().take(n as int) =~= texts.deep_view());
    }
    acc
}

/// Scans one model response: text blocks are appended to `output`, tool-call
/// blocks are executed through the registry and wrapped as tool results, and
/// any other block kind is a fatal error that leaves `output` untouched.
pub fn handle_model_response<F: ToolCallable>(
    registry: &ToolRegistry<F>,
    blocks: &Vec<ContentBlock>,
    output: &mut Vec<String>,
) -> (r: Result<Vec<ToolResultBlock>, AnchorChainError>)
    ensures
        spec_blocks_supported(blocks.deep_view()) ==> {
            &&& r matches Ok(results) && results.deep_view() == spec_tool_results(
                *registry,
                spec_tool_uses(blocks.deep_view()),
            )
            &&& final (output).deep_view() == old(output).deep_view() + spec_texts(
                blocks.deep_view(),
            )
        },
        !spec_blocks_supported(blocks.deep_view()) ==> {
            &&& r matches Err(e) && e.deep_view() == ErrorV::Model(spec_unsupported_message())
            &&& *final(output) == *old(output)
        },
{
    let ghost bv = blocks.deep_view();
    let n = blocks.len();
    let mut i: usize = 0;
    while i < n
        invariant
            n == blocks@.len(),
            bv == blocks.deep_view(),
            i <= n,
            forall|j: int| 0 <= j < i ==> (bv[j] is Text || bv[j] is ToolUse),
        decreases n - i,
    {
        match &blocks[i] {
            ContentBlock::Text(_) => {
            },
            ContentBlock::ToolUse(_) => {
            },
            _ => {
                let mut m = String::new();
                m.append("unsupported content block in model response");
                proof {
                    assert(bv[i as int] == blocks@[i as int].deep_view());
                    assert(!(bv[i as int] is Text) && !(bv[i as int] is ToolUse));
                    assert(!spec_blocks_supported(bv));
                    assert(m@ =~= spec_unsupported_message());
                }
                return Err(AnchorChainError::ModelError(m));
            },
        }
        i += 1;
    }
    proof {
        assert(spec_blocks_supported(bv));
    }
    let mut results: Vec<ToolResultBlock> = Vec::new();
    let ghost out0 = output.deep_view();
    let mut i: usize = 0;
    while i < n
        invariant
            n == blocks@.len(),
            bv == blocks.deep_view(),
            spec_blocks_supported(bv),
            i <= n,
            output.deep_view() =~= out0 + spec_texts(bv.take(i as int)),
            results.deep_view() =~= spec_tool_results(*registry, spec_tool_uses(bv.take(i as int))),
        decreases n - i,
    {
        proof {
            assert(bv.take(i + 1).drop_last() =~= bv.take(i as int));
            assert(bv.take(i + 1).last() == bv[i as int]);
        }
        match &blocks[i] {
            ContentBlock::Text(t) => {
                let ghost prev = output.deep_view();
                output.push(t.clone());
                proof {
                    assert(output.deep_view() =~= prev.push(t@));
                    assert(output.deep_view() =~= out0 + spec_texts(bv.take(i + 1)));
                }
            },
            ContentBlock::ToolUse(u) => {
                let ghost prev = results.deep_view();
                let params = u.input.clone();
                let outcome = registry.execute_tool(&u.name, params);
                let block = match outcome {
                    Ok(v) => generate_tool_result_block(u.tool_use_id.clone(), v, true),
                    Err(m) => generate_tool_result_block(
                        u.tool_use_id.clone(),
                        crate::value::Value::Text(m),
                        false,
                    ),
                };
                proof {
                    assert(block.deep_view() == spec_tool_result_of(*registry, u.deep_view()));
                }
                results.push(block);
                proof {
                    assert(results.deep_view() =~= prev.push(
                        spec_tool_result_of(*registry, u.deep_view()),
                    ));
                    assert(spec_tool_uses(bv.take(i + 1)) =~= spec_tool_uses(bv.take(
                        i as int,
                    )).push(u.deep_view()));
                    assert(results.deep_view() =~= spec_tool_results(
                        *registry,
                        spec_tool_uses(bv.take(i + 1)),
                    ));
                }
            },
            _ => {
                proof {
                    assert(false);
                }
                return Err(AnchorChainError::EmptyResponseError);
            },
        }
        i += 1;
    }
    proof {
        assert(bv.take(n as int) =~= bv);
    }
    Ok(results)
}

/// The instruction the loop builds around the user's question for the first
/// conversation turn.
pub open spec fn spec_instruction(input: Seq<char>) -> Seq<char> {
    "Given the tools available, answer the user's question: "@ + input
}

/// The first conversation turn: the instruction, spoken by the user.
pub open spec fn spec_initial_turn(input: Seq<char>) -> TurnV {
    TurnV { role: Role::User, content: seq![ContentBlockV::Text(spec_instruction(input))] }
}

/// One simulation of the whole agent loop, from a model state, the registry,
/// an accumulator of text collected so far, and the number of turns still
/// allowed: the loop's outcome, the model's final state, the number of model
/// invocations made, and the conversation turns the loop records — after
/// each supported response, the model's turn, and, when it requested tools,
/// one user turn holding exactly the tool results, in request order.
pub open spec fn spec_agent_run<M: ModelUnit, F: ToolCallable>(
    model: M,
    registry: ToolRegistry<F>,
    acc: Seq<Seq<char>>,
    remaining: nat,
) -> (Result<Seq<char>, ErrorV>, M, nat, Seq<TurnV>)
    decreases remaining,
{
    if remaining == 0 {
        (Ok(spec_join(acc)), model, 0, Seq::empty())
    } else {
        match model.spec_response() {
            Err(e) => (Err(e), model.spec_step(), 1, Seq::empty()),
            Ok(blocks) => {
                if !spec_blocks_supported(blocks) {
                    (
                        Err(ErrorV::Model(spec_unsupported_message())),
                        model.spec_step(),
                        1,
                        Seq::empty(),
                    )
                } else {
                    let acc2 = acc + spec_texts(blocks);
                    let assistant = TurnV { role: Role::Assistant, content: blocks };
                    if spec_tool_uses(blocks).len() == 0 {
                        (Ok(spec_join(acc2)), model.spec_step(), 1, seq![assistant])
                    } else {
                        let submitted = TurnV {
                            role: Role::User,
                            content: spec_tool_results_content(
                                spec_tool_results(registry, spec_tool_uses(blocks)),
                            ),
                        };
                        let rest = spec_agent_run(
                            model.spec_step(),
                            registry,
                            acc2,
                            (remaining - 1) as nat,
                        );
                        (rest.0, rest.1, rest.2 + 1, seq![assistant, submitted] + rest.3)
                    }
                }
            },
        }
    }
}

/// Runs the agent control loop: the model is invoked with the conversation
/// so far; text blocks of its response accumulate; tool-call blocks are
/// executed through the registry and their results appended to the
/// conversation as one user turn for the next invocation. The loop ends when
/// a response carries no tool call or after `max_iterations` invocations,
/// returning the accumulated text; a model failure or an unsupported content
/// block aborts it with that error.
///
/// `history` is the conversation: the loop first appends the instruction
/// turn built from `input`, then the turns of [`spec_agent_run`], and every
/// model invocation receives exactly the conversation recorded so far. The
/// conversation is appended to, never truncated.
#[verifier::loop_isolation(false)]
pub fn run_agent<M: ModelUnit, F: ToolCallable>(
    model: &mut M,
    registry: &ToolRegistry<F>,
    input: String,
    max_iterations: usize,
    history: &mut Vec<Turn>,
) -> (r: Result<String, AnchorChainError>)
    ensures
        ({
            let run = spec_agent_run(
                *old(model),
                *registry,
                Seq::<Seq<char>>::empty(),
                max_iterations as nat,
            );
            &&& match r {
                Ok(s) => run.0 == Ok::<Seq<char>, ErrorV>(s@),
                Err(e) => run.0 == Err::<Seq<char>, ErrorV>(e.deep_view()),
            }
            &&& *final(model) == run.1
            &&& final (history).deep_view() == old(history).deep_view() + seq![
                spec_initial_turn(input.deep_view()),
            ] + run.3
        }),
{
    let ghost goal = spec_agent_run(
        *old(model),
        *registry,
        Seq::<Seq<char>>::empty(),
        max_iterations as nat,
    );
    let ghost base = old(history).deep_view() + seq![spec_initial_turn(input.deep_view())];
    let mut formatted = String::new();
    formatted.append("Given the tools available, answer the user's question: ");
    formatted.append(input.as_str());
    proof {
        assert(formatted@ =~= spec_instruction(input.deep_view()));
    }
    let ghost fv = formatted@;
    let mut first_content: Vec<ContentBlock> = Vec::new();
    first_content.push(ContentBlock::Text(formatted));
    proof {
        assert(first_content.deep_view() =~= seq![ContentBlockV::Text(fv)]);
    }
    let ghost pre_history = history.deep_view();
    history.push(Turn { role: Role::User, content: first_content });
    proof {
        assert(history.deep_view() =~= pre_history.push(
            TurnV { role: Role::User, content: seq![ContentBlockV::Text(fv)] },
        ));
        assert(history.deep_view() =~= base);
    }
    let mut output: Vec<String> = Vec::new();
    let mut turns: usize = 0;
    let ghost mut recorded: Seq<TurnV> = Seq::empty();
    proof {
        assert(history.deep_view() =~= base + recorded);
    }
    while turns < max_iterations
        invariant
            turns <= max_iterations,
            history.deep_view() == base + recorded,
            ({
                let cur = spec_agent_run(
                    *model,
                    *registry,
                    output.deep_view(),
                    (max_iterations - turns) as nat,
                );
                &&& goal.0 == cur.0
                &&& goal.1 == cur.1
                &&& goal.2 == cur.2 + turns
                &&& goal.3 == recorded + cur.3
            }),
        decreases max_iterations - turns,
    {
        let ghost acc = output.deep_view();
        let resp = match model.invoke(&history) {
            Ok(blocks) => blocks,
            Err(e) => {
                proof {
                    assert(goal.3 =~= recorded);
                }
                return Err(e);
            },
        };
        let ghost bv = resp.deep_view();
        turns += 1;
        let results = match handle_model_response(registry, &resp, &mut output) {
            Ok(results) => results,
            Err(e) => {
                proof {
                    assert(goal.3 =~= recorded);
                }
                return Err(e);
            },
        };
        proof {
            assert(output.deep_view() == acc + spec_texts(bv));
            assert(results.deep_view() == spec_tool_results(*registry, spec_tool_uses(bv)));
        }
        let ghost prev_history = history.deep_view();
        history.push(Turn { role: Role::Assistant, content: resp });
        let ghost assistant = TurnV { role: Role::Assistant, content: bv };
        proof {
            assert(history.deep_view() =~= prev_history.push(assistant));
        }
        if results.len() == 0 {
            proof {
                recorded = recorded + seq![assistant];
                assert(history.deep_view() =~= base + recorded);
                assert(goal.3 =~= recorded);
            }
            return Ok(join_strings(&output));
        }
        let submitted = crate::content::tool_results_turn(results);
        let ghost submitted_view = TurnV {
            role: Role::User,
            content: spec_tool_results_content(spec_tool_results(*registry, spec_tool_uses(bv))),
        };
        proof {
            assert(submitted.deep_view() == submitted_view);
        }
        let ghost mid_history = history.deep_view();
        history.push(submitted);
        proof {
            assert(history.deep_view() =~= mid_history.push(submitted_view));
            recorded = recorded + seq![assistant, submitted_view];
            assert(history.deep_view() =~= base + recorded);
            assert(goal.3 =~= recorded + spec_agent_run(
                *model,
                *registry,
                output.deep_view(),
                (max_iterations - turns) as nat,
            ).3);
        }
    }
    proof {
        assert(goal.3 =~= recorded);
    }
    Ok(join_strings(&output))
}

/// A processing unit that answers a question by driving the agent control
/// loop over a model unit and a tool registry. The conversation assembled by
/// every processed input accumulates in `history`, never truncated.
pub struct AgentExecutor<M, F> {
    /// The model unit the loop invokes.
    pub llm: M,
    /// The largest number of model invocations one `process` call makes.
    pub max_iterations: usize,
    /// The registry the loop executes requested tools through.
    pub tool_registry: ToolRegistry<F>,
    /// The conversation recorded across processed inputs.
    pub history: Vec<Turn>,
}

impl<M, F> AgentExecutor<M, F> {
    /// Creates an agent around the given model unit and tool registry,
    /// bounded to `max_iterations` model invocations per processed input,
    /// with an empty conversation.
    pub fn new(llm: M, tool_registry: ToolRegistry<F>, max_iterations: usize) -> (r: Self)
        ensures
            r.llm == llm,
            r.tool_registry == tool_registry,
            r.max_iterations == max_iterations,
            r.history.deep_view() == Seq::<TurnV>::empty(),
    {
        let history: Vec<Turn> = Vec::new();
        proof {
            assert(history.deep_view() =~= Seq::<TurnV>::empty());
        }
        AgentExecutor { llm, max_iterations, tool_registry, history }
    }
}

impl<M: ModelUnit, F: ToolCallable> Node for AgentExecutor<M, F> {
    type Input = String;

    type Output = String;

    /// The outcome of the agent loop run against the model unit's current
    /// state.
    open spec fn spec_result(&self, iv: Seq<char>) -> Result<Seq<char>, ErrorV> {
        spec_agent_run(
            self.llm,
            self.tool_registry,
            Seq::<Seq<char>>::empty(),
            self.max_iterations as nat,
        ).0
    }

    /// The model unit advances by as many invocations as the loop made; the
    /// conversation grows by the instruction turn and the loop's recorded
    /// turns; the registry and the bound are left untouched.
    open spec fn spec_advances(&self, iv: Seq<char>, post: Self) -> bool {
        let run = spec_agent_run(
            self.llm,
            self.tool_registry,
            Seq::<Seq<char>>::empty(),
            self.max_iterations as nat,
        );
        &&& post.llm == run.1
        &&& post.history.deep_view() == self.history.deep_view() + seq![spec_initial_turn(iv)]
            + run.3
        &&& post.max_iterations == self.max_iterations
        &&& post.tool_registry == self.tool_registry
    }

    fn process(&mut self, input: String) -> (r: Result<String, AnchorChainError>)
        ensures
            outcome_view(r) == old(self).spec_result(input.deep_view()),
            old(self).spec_advances(input.deep_view(), *final(self)),
    {
        run_agent(
            &mut self.llm,
            &self.tool_registry,
            input,
            self.max_iterations,
            &mut self.history,
        )
    }
}

/// Agent loop termination: a scripted model that requests a tool call on its
/// first turn and returns only text on its second drives the loop to exactly
/// two model invocations, and the loop returns the second turn's text.
pub proof fn lemma_agent_loop_termination<F: ToolCallable>(
    m: ScriptedModel,
    registry: ToolRegistry<F>,
    max_iterations: nat,
)
    requires
        m.index == 0,
        m.script@.len() == 2,
        spec_blocks_supported(m.script@[0].deep_view()),
        spec_tool_uses(m.script@[0].deep_view()).len() > 0,
        spec_texts(m.script@[0].deep_view()).len() == 0,
        spec_blocks_supported(m.script@[1].deep_view()),
        spec_tool_uses(m.script@[1].deep_view()).len() == 0,
        2 <= max_iterations,
    ensures
        spec_agent_run(m, registry, Seq::empty(), max_iterations).2 == 2,
        spec_agent_run(m, registry, Seq::empty(), max_iterations).1.index == 2,
        spec_agent_run(m, registry, Seq::empty(), max_iterations).0 == Ok::<Seq<char>, ErrorV>(
            spec_join(spec_texts(m.script@[1].deep_view())),
        ),
{
    let texts0 = spec_texts(m.script@[0].deep_view());
    let texts1 = spec_texts(m.script@[1].deep_view());
    let step1 = m.spec_step();
    assert(step1.index == 1);
    assert(Seq::<Seq<char>>::empty() + texts0 =~= Seq::<Seq<char>>::empty());
    assert(Seq::<Seq<char>>::empty() + texts1 =~= texts1);
    assert(spec_agent_run(step1, registry, Seq::<Seq<char>>::empty(), (max_iterations - 1) as nat).0
        == Ok::<Seq<char>, ErrorV>(spec_join(texts1)));
}

/// Agent loop bound: a scripted model that requests a tool call on every
/// turn drives the loop to exactly `max_iterations` model invocations, after
/// which the loop still returns successfully.
pub proof fn lemma_agent_loop_bound<F: ToolCallable>(
    m: ScriptedModel,
    registry: ToolRegistry<F>,
    max_iterations: nat,
)
    requires
        m.index == 0,
        m.script@.len() <= usize::MAX,
        max_iterations <= m.script@.len(),
        forall|j: int|
            0 <= j < max_iterations ==> spec_blocks_supported(
                #[trigger] m.script@[j].deep_view(),
            ) && spec_tool_uses(m.script@[j].deep_view()).len() > 0,
    ensures
        spec_agent_run(m, registry, Seq::empty(), max_iterations).2 == max_iterations,
        spec_agent_run(m, registry, Seq::empty(), max_iterations).1.index == max_iterations,
        spec_agent_run(m, registry, Seq::empty(), max_iterations).0 is Ok,
{
    lemma_agent_all_tool_turns(m, registry, Seq::empty(), max_iterations);
}

proof fn lemma_agent_all_tool_turns<F: ToolCallable>(
    m: ScriptedModel,
    registry: ToolRegistry<F>,
    acc: Seq<Seq<char>>,
    remaining: nat,
)
    requires
        m.script@.len() <= usize::MAX,
        m.index + remaining <= m.script@.len(),
        forall|j: int|
            m.index <= j < m.index + remaining ==> spec_blocks_supported(
                #[trigger] m.script@[j].deep_view(),
            ) && spec_tool_uses(m.script@[j].deep_view()).len() > 0,
    ensures
        spec_agent_run(m, registry, acc, remaining).2 == remaining,
        spec_agent_run(m, registry, acc, remaining).1.index == m.index + remaining,
        spec_agent_run(m, registry, acc, remaining).0 is Ok,
    decreases remaining,
{
    if remaining > 0 {
        let step = m.spec_step();
        assert(m.index < m.script@.len());
        assert(step.index == m.index + 1 && step.script == m.script);
        assert(spec_blocks_supported(m.script@[m.index as int].deep_view()));
        assert(m.spec_response() == Ok::<Seq<ContentBlockV>, ErrorV>(
            m.script@[m.index as int].deep_view(),
        ));
        lemma_agent_all_tool_turns(
            step,
            registry,
            acc + spec_texts(m.script@[m.index as int].deep_view()),
            (remaining - 1) as nat,
        );
        assert(spec_agent_run(m, registry, acc, remaining).2 == remaining);
    }
}

} // verus!
