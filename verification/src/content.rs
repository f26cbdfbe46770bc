//! Conversation turns and their content blocks.
//!
//! A model response is a sequence of content blocks: text, a tool-call
//! request, a tool result, or an unsupported variant. A conversation is a
//! sequence of turns, each holding a role and its content blocks.

use vstd::prelude::*;
use vstd::string::StringExecFns;

use crate::value::{Value, ValueV};

verus! {

/// Mathematical mirror of [`ToolUseBlock`].
pub ghost struct ToolUseV {
    /// The identifier of the tool request.
    pub tool_use_id: Seq<char>,
    /// The name of the requested tool.
    pub name: Seq<char>,
    /// The structured parameters handed to the tool.
    pub input: ValueV,
}

/// Mathematical mirror of [`ToolResultBlock`].
pub ghost struct ToolResultV {
    /// The identifier of the tool request being answered.
    pub tool_use_id: Seq<char>,
    /// The structured result.
    pub content: ValueV,
    /// Whether the tool executed successfully.
    pub success: bool,
}

/// Mathematical mirror of [`ContentBlock`].
pub ghost enum ContentBlockV {
    /// Plain text.
    Text(Seq<char>),
    /// A request to invoke a tool.
    ToolUse(ToolUseV),
    /// The result of a tool invocation.
    ToolResult(ToolResultV),
    /// A block the pipeline has no semantics for.
    Unsupported,
}

/// A model's request to invoke a tool.
pub struct ToolUseBlock {
    /// The identifier of the tool request.
    pub tool_use_id: String,
    /// The name of the requested tool.
    pub name: String,
    /// The structured parameters handed to the tool.
    pub input: Value,
}

/// The result of a tool invocation, reported back to the model.
pub struct ToolResultBlock {
    /// The identifier of the tool request being answered.
    pub tool_use_id: String,
    /// The structured result.
    pub content: Value,
    /// Whether the tool executed successfully.
    pub success: bool,
}

/// One content block of a conversation turn.
pub enum ContentBlock {
    /// Plain text.
    Text(String),
    /// A request to invoke a tool.
    ToolUse(ToolUseBlock),
    /// The result of a tool invocation.
    ToolResult(ToolResultBlock),
    /// A block the pipeline has no semantics for.
    Unsupported,
}

/// The role a conversation turn is spoken in.
#[derive(Clone, Copy, PartialEq, Eq, Structural, Debug)]
pub enum Role {
    /// The user side of the conversation, including tool results.
    User,
    /// The model side of the conversation.
    Assistant,
}

/// One conversation turn: a role and its content blocks.
pub struct Turn {
    /// The role the turn is spoken in.
    pub role: Role,
    /// The turn's content blocks.
    pub content: Vec<ContentBlock>,
}

/// Mathematical mirror of [`Turn`].
pub ghost struct TurnV {
    /// The role the turn is spoken in.
    pub role: Role,
    /// The turn's content blocks.
    pub content: Seq<ContentBlockV>,
}

impl DeepView for ToolUseBlock {
    type V = ToolUseV;

    open spec fn deep_view(&self) -> ToolUseV {
        ToolUseV {
            tool_use_id: self.tool_use_id@,
            name: self.name@,
            input: self.input.deep_view(),
        }
    }
}

impl DeepView for ToolResultBlock {
    type V = ToolResultV;

    open spec fn deep_view(&self) -> ToolResultV {
        ToolResultV {
            tool_use_id: self.tool_use_id@,
            content: self.content.deep_view(),
            success: self.success,
        }
    }
}

impl DeepView for ContentBlock {
    type V = ContentBlockV;

    open spec fn deep_view(&self) -> ContentBlockV {
        match self {
            ContentBlock::Text(t) => ContentBlockV::Text(t@),
            ContentBlock::ToolUse(u) => ContentBlockV::ToolUse(u.deep_view()),
            ContentBlock::ToolResult(r) => ContentBlockV::ToolResult(r.deep_view()),
            ContentBlock::Unsupported => ContentBlockV::Unsupported,
        }
    }
}

impl DeepView for Turn {
    type V = TurnV;

    open spec fn deep_view(&self) -> TurnV {
        TurnV { role: self.role, content: self.content.deep_view() }
    }
}

impl Clone for ToolUseBlock {
    fn clone(&self) -> (r: Self)
        ensures
            r.deep_view() == self.deep_view(),
    {
        ToolUseBlock {
            tool_use_id: self.tool_use_id.clone(),
            name: self.name.clone(),
            input: self.input.clone(),
        }
    }
}

impl Clone for ToolResultBlock {
    fn clone(&self) -> (r: Self)
        ensures
            r.deep_view() == self.deep_view(),
    {
        ToolResultBlock {
            tool_use_id: self.tool_use_id.clone(),
            content: self.content.clone(),
            success: self.success,
        }
    }
}

impl Clone for ContentBlock {
    fn clone(&self) -> (r: Self)
        ensures
            r.deep_view() == self.deep_view(),
    {
        match self {
            ContentBlock::Text(t) => ContentBlock::Text(t.clone()),
            ContentBlock::ToolUse(u) => ContentBlock::ToolUse(u.clone()),
            ContentBlock::ToolResult(r) => ContentBlock::ToolResult(r.clone()),
            ContentBlock::Unsupported => ContentBlock::Unsupported,
        }
    }
}

/// The content blocks of a tool-result turn: one tool-result block per
/// result, in result order.
pub open spec fn spec_tool_results_content(rs: Seq<ToolResultV>) -> Seq<ContentBlockV> {
    Seq::new(rs.len(), |i: int| ContentBlockV::ToolResult(rs[i]))
}

/// Wraps the given tool results as one user-role turn whose content is
/// exactly the results, in order. The agent control loop submits such a turn
/// back to the model after executing the tools of one response.
pub fn tool_results_turn(results: Vec<ToolResultBlock>) -> (r: Turn)
    ensures
        r.role == Role::User,
        r.content.deep_view() == spec_tool_results_content(results.deep_view()),
{
    let ghost rv = results.deep_view();
    let mut rest = results;
    let mut content: Vec<ContentBlock> = Vec::new();
    while rest.len() > 0
        invariant
            content@.len() + rest@.len() == rv.len(),
            rest.deep_view() =~= rv.skip(content@.len() as int),
            forall|j: int| 0 <= j < content@.len() ==> #[trigger] content@[j].deep_view()
                == ContentBlockV::ToolResult(rv[j]),
        decreases rest@.len(),
    {
        let ghost done = content@.len() as int;
        let ghost prev_rest = rest.deep_view();
        let block = rest.remove(0);
        proof {
            assert(rv.skip(done)[0] == rv[done]);
            assert(block.deep_view() == prev_rest[0]);
            assert forall|j: int| 0 <= j < rest@.len() implies #[trigger] rest.deep_view()[j]
                == prev_rest[j + 1] by {
                assert(rest@[j].deep_view() == rest.deep_view()[j]);
            }
            assert(rest.deep_view() =~= rv.skip(done + 1));
        }
        content.push(ContentBlock::ToolResult(block));
    }
    proof {
        assert(content.deep_view() =~= spec_tool_results_content(rv));
    }
    Turn { role: Role::User, content }
}

/// Wraps a tool invocation outcome as a tool-result block, carrying the
/// result under a `return` field, with success or error status.
///
/// Relied on by the agent control loop to report tool outcomes back to the
/// model.
pub fn generate_tool_result_block(tool_use_id: String, tool_result: Value, success: bool) -> (r:
    ToolResultBlock)
    ensures
        r.deep_view() == (ToolResultV {
            tool_use_id: tool_use_id@,
            content: ValueV::Object(seq![("return"@, tool_result.deep_view())]),
            success,
        }),
{
    let ghost rv = tool_result.deep_view();
    let mut fields: Vec<(String, Value)> = Vec::new();
    fields.push((String::from_str("return"), tool_result));
    let content = Value::Object(fields);
    proof {
        assert(content.deep_view() matches ValueV::Object(f) && f =~= seq![("return"@, rv)]);
    }
    ToolResultBlock { tool_use_id, content, success }
}

} // verus!
