use anchor_chain::agents::agent_executor::{
    handle_model_response, join_strings, run_agent, AgentExecutor, ScriptedModel,
};
use anchor_chain::agents::tool_registry::{AddTool, ToolEntry};
use anchor_chain::content::{ContentBlock, Role, ToolUseBlock, Turn};
use anchor_chain::node::Node;
use anchor_chain::{AnchorChainError, ToolRegistry, Value};

fn add_registry() -> ToolRegistry<AddTool> {
    let mut registry = ToolRegistry::new();
    registry.register_tool(ToolEntry::new(
        "add".to_string(),
        "Adds two numbers".to_string(),
        AddTool {},
        Value::Null,
    ));
    registry
}

fn add_call(id: &str, x: i64, y: i64) -> ContentBlock {
    ContentBlock::ToolUse(ToolUseBlock {
        tool_use_id: id.to_string(),
        name: "add".to_string(),
        input: Value::Object(vec![
            ("x".to_string(), Value::Int(x)),
            ("y".to_string(), Value::Int(y)),
        ]),
    })
}

#[test]
fn loop_terminates_on_fixed_point() {
    // Turn 1 requests a tool call; turn 2 returns only text.
    let script = vec![
        vec![add_call("req-1", 2, 3)],
        vec![ContentBlock::Text("the answer is 5".to_string())],
    ];
    let mut agent = AgentExecutor::new(ScriptedModel::new(script), add_registry(), 10);
    let out = agent.process("what is 2 + 3?".to_string()).unwrap();
    assert_eq!(out, "the answer is 5");
    // Exactly two model calls were made.
    assert_eq!(agent.llm.index, 2);
}

#[test]
fn loop_stops_at_iteration_bound() {
    // Every turn requests a tool call; the loop must stop after
    // max_iterations model calls and still succeed.
    let script = vec![
        vec![add_call("req-1", 1, 1)],
        vec![add_call("req-2", 2, 2)],
        vec![add_call("req-3", 3, 3)],
        vec![add_call("req-4", 4, 4)],
    ];
    let mut agent = AgentExecutor::new(ScriptedModel::new(script), add_registry(), 3);
    let out = agent.process("keep going".to_string()).unwrap();
    assert_eq!(out, "");
    assert_eq!(agent.llm.index, 3);
}

#[test]
fn text_accumulates_across_turns() {
    let script = vec![
        vec![
            ContentBlock::Text("thinking".to_string()),
            add_call("req-1", 2, 3),
        ],
        vec![ContentBlock::Text("done".to_string())],
    ];
    let mut agent = AgentExecutor::new(ScriptedModel::new(script), add_registry(), 10);
    let out = agent.process("question".to_string()).unwrap();
    assert_eq!(out, "thinking\n\ndone");
}

#[test]
fn unsupported_block_is_fatal() {
    let script = vec![vec![ContentBlock::Unsupported]];
    let mut agent = AgentExecutor::new(ScriptedModel::new(script), add_registry(), 10);
    match agent.process("question".to_string()) {
        Err(AnchorChainError::ModelError(m)) => {
            assert_eq!(m, "unsupported content block in model response");
        }
        _ => panic!("expected a fatal model error"),
    }
}

#[test]
fn exhausted_model_propagates_its_error() {
    let mut model = ScriptedModel::new(Vec::new());
    let registry = add_registry();
    let mut history: Vec<Turn> = Vec::new();
    match run_agent(&mut model, &registry, "question".to_string(), 5, &mut history) {
        Err(AnchorChainError::EmptyResponseError) => {}
        _ => panic!("expected the model's error"),
    }
    // The instruction turn was recorded before the model failed.
    assert_eq!(history.len(), 1);
}

#[test]
fn zero_iterations_returns_empty_output() {
    let script = vec![vec![ContentBlock::Text("never seen".to_string())]];
    let mut model = ScriptedModel::new(script);
    let registry = add_registry();
    let mut history: Vec<Turn> = Vec::new();
    let out = run_agent(&mut model, &registry, "question".to_string(), 0, &mut history).unwrap();
    assert_eq!(out, "");
    assert_eq!(model.index, 0);
    assert_eq!(history.len(), 1);
}

#[test]
fn conversation_records_every_turn() {
    let script = vec![
        vec![add_call("req-1", 2, 3)],
        vec![ContentBlock::Text("the answer is 5".to_string())],
    ];
    let mut agent = AgentExecutor::new(ScriptedModel::new(script), add_registry(), 10);
    agent.process("what is 2 + 3?".to_string()).unwrap();
    // Instruction, first model turn, tool results, final model turn.
    assert_eq!(agent.history.len(), 4);
    assert!(matches!(agent.history[0].role, Role::User));
    match &agent.history[0].content[0] {
        ContentBlock::Text(t) => {
            assert_eq!(t, "Given the tools available, answer the user's question: what is 2 + 3?");
        }
        _ => panic!("expected the instruction text"),
    }
    assert!(matches!(agent.history[1].role, Role::Assistant));
    assert!(matches!(agent.history[1].content[0], ContentBlock::ToolUse(_)));
    assert!(matches!(agent.history[2].role, Role::User));
    match &agent.history[2].content[0] {
        ContentBlock::ToolResult(r) => {
            assert_eq!(r.tool_use_id, "req-1");
            assert!(r.success);
            match r.content.get(&"return".to_string()) {
                Some(Value::Int(n)) => assert_eq!(*n, 5),
                _ => panic!("expected the tool's return value in the submitted turn"),
            }
        }
        _ => panic!("expected the tool result in the submitted turn"),
    }
    assert!(matches!(agent.history[3].role, Role::Assistant));
    match &agent.history[3].content[0] {
        ContentBlock::Text(t) => assert_eq!(t, "the answer is 5"),
        _ => panic!("expected the final text turn"),
    }
}

#[test]
fn tool_failures_are_reported_not_raised() {
    // A request for an unknown tool is answered with an error tool-result,
    // not a loop failure.
    let registry = add_registry();
    let blocks = vec![ContentBlock::ToolUse(ToolUseBlock {
        tool_use_id: "req-1".to_string(),
        name: "missing".to_string(),
        input: Value::Null,
    })];
    let mut output: Vec<String> = Vec::new();
    let results = handle_model_response(&registry, &blocks, &mut output).unwrap();
    assert_eq!(results.len(), 1);
    assert!(!results[0].success);
    assert_eq!(results[0].tool_use_id, "req-1");
    match results[0].content.get(&"return".to_string()) {
        Some(Value::Text(m)) => assert_eq!(m, "Tool missing not found"),
        _ => panic!("expected the lookup error as the result"),
    }
}

#[test]
fn successful_tool_result_carries_return_value() {
    let registry = add_registry();
    let blocks = vec![add_call("req-9", 20, 22)];
    let mut output: Vec<String> = Vec::new();
    let results = handle_model_response(&registry, &blocks, &mut output).unwrap();
    assert_eq!(results.len(), 1);
    assert!(results[0].success);
    match results[0].content.get(&"return".to_string()) {
        Some(Value::Int(n)) => assert_eq!(*n, 42),
        _ => panic!("expected the tool's return value"),
    }
}

#[test]
fn join_strings_uses_blank_lines() {
    assert_eq!(join_strings(&Vec::new()), "");
    assert_eq!(join_strings(&vec!["a".to_string()]), "a");
    assert_eq!(
        join_strings(&vec!["a".to_string(), "b".to_string(), "c".to_string()]),
        "a\n\nb\n\nc"
    );
}
