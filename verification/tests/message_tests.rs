use anchor_chain::content::generate_tool_result_block;
use anchor_chain::message::{AssistantChatMessage, ChatMessage, UserChatMessage};
use anchor_chain::models::bedrock_converse::BedrockModel;
use anchor_chain::models::claude_3::{extract_first_text, text_message};
use anchor_chain::{AnchorChainError, Value};

#[test]
fn user_message_converts_to_claude_shape() {
    let message = ChatMessage::User(UserChatMessage::new_text("hi there".to_string()));
    let claude = message.into_claude_message();
    assert_eq!(claude.role, Some("user".to_string()));
    assert_eq!(claude.content.len(), 1);
    assert_eq!(claude.content[0].content_type, "text");
    assert_eq!(claude.content[0].text, Some("hi there".to_string()));
    assert!(claude.content[0].source.is_none());
}

#[test]
fn assistant_message_converts_to_claude_shape() {
    let message = ChatMessage::Assistant(AssistantChatMessage::new_text("sure".to_string()));
    let claude = message.into_claude_message();
    assert_eq!(claude.role, Some("assistant".to_string()));
    assert_eq!(claude.content[0].text, Some("sure".to_string()));
}

#[test]
fn first_text_is_extracted() {
    let message = text_message("assistant", "the reply".to_string());
    assert_eq!(extract_first_text(&message.content).unwrap(), "the reply");
}

#[test]
fn empty_content_is_an_empty_response() {
    match extract_first_text(&Vec::new()) {
        Err(AnchorChainError::EmptyResponseError) => {}
        _ => panic!("expected an empty-response error"),
    }
}

#[test]
fn bedrock_model_identifiers() {
    assert_eq!(BedrockModel::Claude3.as_str(), "bedrock-chat-model-v3");
    assert_eq!(BedrockModel::Claude3_5.as_str(), "bedrock-chat-model-v3-5");
}

#[test]
fn tool_result_block_wraps_value_under_return() {
    let block = generate_tool_result_block("req-1".to_string(), Value::Int(7), true);
    assert_eq!(block.tool_use_id, "req-1");
    assert!(block.success);
    match block.content.get(&"return".to_string()) {
        Some(Value::Int(n)) => assert_eq!(*n, 7),
        _ => panic!("expected the wrapped value"),
    }
}

#[test]
fn error_tool_result_block_has_error_status() {
    let block = generate_tool_result_block(
        "req-2".to_string(),
        Value::Text("it broke".to_string()),
        false,
    );
    assert!(!block.success);
    match block.content.get(&"return".to_string()) {
        Some(Value::Text(m)) => assert_eq!(m, "it broke"),
        _ => panic!("expected the wrapped message"),
    }
}

#[test]
fn value_clone_preserves_structure() {
    let v = Value::Object(vec![
        ("items".to_string(), Value::Array(vec![Value::Int(1), Value::Bool(true), Value::Null])),
        ("name".to_string(), Value::Text("x".to_string())),
    ]);
    let c = v.clone();
    match c.get(&"name".to_string()) {
        Some(Value::Text(t)) => assert_eq!(t, "x"),
        _ => panic!("expected the cloned field"),
    }
    match c.get(&"items".to_string()) {
        Some(Value::Array(items)) => assert_eq!(items.len(), 3),
        _ => panic!("expected the cloned array"),
    }
}

#[test]
fn tagging_marks_objects_and_untagging_removes_the_marks() {
    let v = Value::Object(vec![
        ("a".to_string(), Value::Int(1)),
        (
            "nested".to_string(),
            Value::Object(vec![("b".to_string(), Value::Bool(true))]),
        ),
    ]);
    let tagged = v.tag_objects();
    match tagged.get(&"type".to_string()) {
        Some(Value::Text(t)) => assert_eq!(t, "object"),
        _ => panic!("expected the object marker"),
    }
    match tagged.get(&"nested".to_string()).unwrap().get(&"type".to_string()) {
        Some(Value::Text(t)) => assert_eq!(t, "object"),
        _ => panic!("expected the nested object marker"),
    }
    let untagged = tagged.untag_objects();
    assert!(untagged.get(&"type".to_string()).is_none());
    match untagged.get(&"a".to_string()) {
        Some(Value::Int(n)) => assert_eq!(*n, 1),
        _ => panic!("expected the original field"),
    }
    assert!(
        untagged
            .get(&"nested".to_string())
            .unwrap()
            .get(&"type".to_string())
            .is_none()
    );
}

#[test]
fn tagging_replaces_an_existing_marker_field() {
    let v = Value::Object(vec![
        ("type".to_string(), Value::Text("something".to_string())),
        ("a".to_string(), Value::Int(1)),
    ]);
    let tagged = v.tag_objects();
    match tagged {
        Value::Object(ref fields) => {
            let markers: Vec<_> = fields.iter().filter(|(k, _)| k == "type").collect();
            assert_eq!(markers.len(), 1);
            match &markers[0].1 {
                Value::Text(t) => assert_eq!(t, "object"),
                _ => panic!("expected the object marker"),
            }
        }
        _ => panic!("expected an object"),
    }
}
