use anchor_chain::chain::ChainBuilder;
use anchor_chain::node::Stateful;
use anchor_chain::nodes::text::LineCounter;
use anchor_chain::{AnchorChainError, Prompt, StateManager};

#[test]
fn template_substitutes_context_values() {
    let mut prompt = Prompt::new("Hello {{ name }}!");
    let mut context: StateManager<String> = StateManager::new();
    context.insert("name".to_string(), "World".to_string());
    assert_eq!(prompt.process(context).unwrap(), "Hello World!");
}

#[test]
fn template_without_placeholders_is_returned_verbatim() {
    let mut prompt = Prompt::new("plain text");
    let context: StateManager<String> = StateManager::new();
    assert_eq!(prompt.process(context).unwrap(), "plain text");
}

#[test]
fn later_insert_for_a_key_wins() {
    let mut prompt = Prompt::new("{{ language }}");
    let mut context: StateManager<String> = StateManager::new();
    context.insert("language".to_string(), "C".to_string());
    context.insert("language".to_string(), "Rust".to_string());
    assert_eq!(prompt.process(context).unwrap(), "Rust");
}

#[test]
fn malformed_template_is_a_template_error() {
    let mut prompt = Prompt::new("{{ unclosed");
    let context: StateManager<String> = StateManager::new();
    match prompt.process(context) {
        Err(AnchorChainError::TeraTemplateError(_)) => {}
        _ => panic!("expected a template error"),
    }
}

#[test]
fn prompt_links_into_a_chain() {
    let (mut chain, _state) = ChainBuilder::new()
        .link_with_state::<String, _>(Prompt::new("{{ first }}\n{{ second }}"))
        .link(LineCounter::new())
        .build();
    let mut context: StateManager<String> = StateManager::new();
    context.insert("first".to_string(), "one".to_string());
    context.insert("second".to_string(), "two".to_string());
    assert_eq!(chain.process(context).unwrap(), 2);
}
