use anchor_chain::chain::ChainBuilder;
use anchor_chain::link::Link;
use anchor_chain::node::Node;
use anchor_chain::nodes::stub::StubNode;
use anchor_chain::nodes::text::{AsteriskGenerator, LineCounter};
use anchor_chain::trace_node::TraceNode;
use anchor_chain::{AnchorChainError, NoOpNode};

#[test]
fn noop_passes_input_through() {
    let mut node = NoOpNode::<String>::new();
    let out = node.process("hello".to_string()).unwrap();
    assert_eq!(out, "hello");
}

#[test]
fn line_counter_counts_lines() {
    let mut node = LineCounter::new();
    assert_eq!(node.process("a\nb\nc".to_string()).unwrap(), 3);
    assert_eq!(node.process("a\nb\n".to_string()).unwrap(), 2);
    assert_eq!(node.process(String::new()).unwrap(), 0);
    assert_eq!(node.process("\n".to_string()).unwrap(), 1);
}

#[test]
fn asterisk_generator_repeats() {
    let mut node = AsteriskGenerator::new();
    assert_eq!(node.process(4).unwrap(), "****");
    assert_eq!(node.process(0).unwrap(), "");
}

#[test]
fn chain_processes_in_order() {
    let mut chain = ChainBuilder::new()
        .link(NoOpNode::<String>::new())
        .link(LineCounter::new())
        .link(AsteriskGenerator::new())
        .build();
    let out = chain.process("one\ntwo\nthree".to_string()).unwrap();
    assert_eq!(out, "***");
}

#[test]
fn composition_is_associative() {
    // Left-nested: build(A).link(B).link(C).
    let mut flat = ChainBuilder::new()
        .link(NoOpNode::<String>::new())
        .link(LineCounter::new())
        .link(AsteriskGenerator::new())
        .build();
    // Pre-composed sub-pipeline: build(A.link(B)).link(C).
    let mut nested = ChainBuilder::new()
        .link(Link::new(NoOpNode::<String>::new(), LineCounter::new()))
        .link(AsteriskGenerator::new())
        .build();
    let input = "x\ny".to_string();
    let a = flat.process(input.clone()).unwrap();
    let b = nested.process(input).unwrap();
    assert_eq!(a, b);
    assert_eq!(a, "**");
}

#[test]
fn failing_node_aborts_chain() {
    let mut chain = ChainBuilder::new()
        .link(StubNode::failing("boom"))
        .link(NoOpNode::<String>::new())
        .build();
    match chain.process("input".to_string()) {
        Err(AnchorChainError::ModelError(m)) => assert_eq!(m, "boom"),
        _ => panic!("expected the first node's error"),
    }
}

#[test]
fn downstream_never_invoked_after_failure() {
    let spy = TraceNode::new(StubNode::succeeding("fine"));
    let mut chain = ChainBuilder::new().link(StubNode::failing("boom")).link(spy).build();
    assert!(chain.process("input".to_string()).is_err());
    assert_eq!(chain.link.next.invocations, 0);
    assert_eq!(chain.link.node.calls, 1);
}

#[test]
fn downstream_invoked_after_success() {
    let spy = TraceNode::new(StubNode::succeeding("fine"));
    let mut chain = ChainBuilder::new().link(StubNode::succeeding("ok")).link(spy).build();
    assert_eq!(chain.process("input".to_string()).unwrap(), "fine");
    assert_eq!(chain.link.next.invocations, 1);
}

#[test]
fn chain_new_wraps_link() {
    let mut chain = anchor_chain::chain::Chain::new(Link::new(
        LineCounter::new(),
        AsteriskGenerator::new(),
    ));
    assert_eq!(chain.process("a\nb".to_string()).unwrap(), "**");
}
