use anchor_chain::node::Node;
use anchor_chain::nodes::stub::StubNode;
use anchor_chain::{AnchorChainError, ConcatCombiner, ParallelNode};

#[test]
fn combiner_sees_outputs_in_registration_order() {
    let children = vec![
        StubNode::succeeding("x"),
        StubNode::succeeding("y"),
        StubNode::succeeding("z"),
    ];
    let mut node = ParallelNode::new(children, ConcatCombiner {});
    let out = node.process("input".to_string()).unwrap();
    assert_eq!(out, "xyz");
}

#[test]
fn failing_child_fails_the_fan_out() {
    let children = vec![
        StubNode::succeeding("x"),
        StubNode::failing("y exploded"),
        StubNode::succeeding("z"),
    ];
    let mut node = ParallelNode::new(children, ConcatCombiner {});
    match node.process("input".to_string()) {
        Err(AnchorChainError::ModelError(m)) => assert_eq!(m, "y exploded"),
        _ => panic!("expected the failing child's error"),
    }
    // Siblings are not cancelled: every child ran exactly once.
    for child in &node.nodes {
        assert_eq!(child.calls, 1);
    }
}

#[test]
fn first_failing_child_in_registration_order_wins() {
    let children = vec![
        StubNode::failing("first"),
        StubNode::failing("second"),
    ];
    let mut node = ParallelNode::new(children, ConcatCombiner {});
    match node.process("input".to_string()) {
        Err(AnchorChainError::ModelError(m)) => assert_eq!(m, "first"),
        _ => panic!("expected the first child's error"),
    }
}

#[test]
fn fan_out_with_no_children_combines_nothing() {
    let children: Vec<StubNode> = Vec::new();
    let mut node = ParallelNode::new(children, ConcatCombiner {});
    assert_eq!(node.process("input".to_string()).unwrap(), "");
}

#[test]
fn concat_joins_outputs() {
    let joined = anchor_chain::parallel_node::concat(vec!["a".to_string(), "bc".to_string(), "".to_string(), "d".to_string()])
        .unwrap();
    assert_eq!(joined, "abcd");
    assert_eq!(anchor_chain::parallel_node::concat(Vec::new()).unwrap(), "");
}
