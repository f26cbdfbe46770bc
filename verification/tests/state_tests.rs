use anchor_chain::chain::ChainBuilder;
use anchor_chain::nodes::recorder::RecorderNode;
use anchor_chain::nodes::text::LineCounter;
use anchor_chain::{NoOpNode, SharedState, StateManager};

#[test]
fn insert_get_remove_round_trip() {
    let mut store: StateManager<String> = StateManager::new();
    assert!(store.is_empty());
    store.insert("k".to_string(), "v1".to_string());
    assert_eq!(store.get(&"k".to_string()), Some(&"v1".to_string()));
    assert!(store.contains_key(&"k".to_string()));
    assert_eq!(store.len(), 1);
    store.insert("k".to_string(), "v2".to_string());
    assert_eq!(store.get(&"k".to_string()), Some(&"v2".to_string()));
    assert_eq!(store.len(), 1);
    assert_eq!(store.remove(&"k".to_string()), Some("v2".to_string()));
    assert_eq!(store.get(&"k".to_string()), None);
    assert!(store.is_empty());
}

#[test]
fn push_accumulates_in_order() {
    let mut store: StateManager<Vec<String>> = StateManager::new();
    store.push("k".to_string(), "v1".to_string());
    store.push("k".to_string(), "v2".to_string());
    assert_eq!(
        store.get(&"k".to_string()),
        Some(&vec!["v1".to_string(), "v2".to_string()])
    );
}

#[test]
fn keys_and_values_in_insertion_order() {
    let mut store: StateManager<String> = StateManager::new();
    store.insert("a".to_string(), "1".to_string());
    store.insert("b".to_string(), "2".to_string());
    assert_eq!(store.keys(), vec!["a".to_string(), "b".to_string()]);
    assert_eq!(store.values(), vec!["1".to_string(), "2".to_string()]);
    store.clear();
    assert_eq!(store.len(), 0);
}

#[test]
fn cloned_handle_shares_the_store() {
    let first: SharedState<String> = SharedState::new();
    let second = first.clone();
    first.insert("k".to_string(), "v".to_string());
    assert_eq!(second.get(&"k".to_string()), Some("v".to_string()));
}

#[test]
fn shared_pushes_are_all_kept() {
    let first: SharedState<Vec<String>> = SharedState::new();
    let second = first.clone();
    first.push("k".to_string(), "v1".to_string());
    second.push("k".to_string(), "v2".to_string());
    assert_eq!(
        first.get(&"k".to_string()),
        Some(vec!["v1".to_string(), "v2".to_string()])
    );
}

#[test]
fn stateful_chain_records_history() {
    let (mut link, state) = ChainBuilder::new()
        .link(NoOpNode::<String>::new())
        .link_with_state(RecorderNode::new("history"))
        .build();
    assert_eq!(link.process("a".to_string()).unwrap(), "a");
    assert_eq!(link.process("b".to_string()).unwrap(), "b");
    assert_eq!(
        state.get(&"history".to_string()),
        Some(vec!["a".to_string(), "b".to_string()])
    );
}

#[test]
fn chain_continues_past_a_stateful_node() {
    let (mut link, state) = ChainBuilder::new()
        .link(NoOpNode::<String>::new())
        .link_with_state(RecorderNode::new("history"))
        .link(LineCounter::new())
        .build();
    assert_eq!(link.process("a\nb".to_string()).unwrap(), 2);
    assert_eq!(state.get(&"history".to_string()), Some(vec!["a\nb".to_string()]));
}

#[test]
fn stateful_stages_share_one_store() {
    let (mut link, state) = ChainBuilder::new()
        .link(NoOpNode::<String>::new())
        .link_with_state(RecorderNode::new("first"))
        .link_with_state(RecorderNode::new("second"))
        .build();
    assert_eq!(link.process("x".to_string()).unwrap(), "x");
    assert_eq!(link.process("y".to_string()).unwrap(), "y");
    assert_eq!(
        state.get(&"first".to_string()),
        Some(vec!["x".to_string(), "y".to_string()])
    );
    assert_eq!(
        state.get(&"second".to_string()),
        Some(vec!["x".to_string(), "y".to_string()])
    );
}
