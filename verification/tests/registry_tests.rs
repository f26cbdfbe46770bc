use anchor_chain::agents::tool_registry::{AddTool, ToolEntry};
use anchor_chain::tool_schema::build_tool_schema;
use anchor_chain::{AnchorChainError, ToolRegistry, Value};

fn add_params(x: i64, y: i64) -> Value {
    Value::Object(vec![
        ("x".to_string(), Value::Int(x)),
        ("y".to_string(), Value::Int(y)),
    ])
}

fn add_entry() -> ToolEntry<AddTool> {
    let schema = build_tool_schema(
        "add".to_string(),
        "Adds two numbers".to_string(),
        vec![
            ("x".to_string(), "i64".to_string()),
            ("y".to_string(), "i64".to_string()),
        ],
    )
    .unwrap();
    ToolEntry::new(
        "add".to_string(),
        "Adds two numbers".to_string(),
        AddTool {},
        schema,
    )
}

#[test]
fn registered_tool_executes() {
    let mut registry: ToolRegistry<AddTool> = ToolRegistry::new();
    registry.register_tool(add_entry());
    match registry.execute_tool(&"add".to_string(), add_params(2, 3)) {
        Ok(Value::Int(n)) => assert_eq!(n, 5),
        _ => panic!("expected the sum"),
    }
}

#[test]
fn missing_tool_reports_not_found() {
    let registry: ToolRegistry<AddTool> = ToolRegistry::new();
    match registry.execute_tool(&"missing".to_string(), Value::Object(Vec::new())) {
        Err(m) => assert_eq!(m, "Tool missing not found"),
        Ok(_) => panic!("expected a not-found error"),
    }
}

#[test]
fn missing_schema_reports_not_found() {
    let registry: ToolRegistry<AddTool> = ToolRegistry::new();
    match registry.get_tool_spec(&"missing".to_string()) {
        Err(m) => assert_eq!(m, "Schema for tool missing not found"),
        Ok(_) => panic!("expected a not-found error"),
    }
}

#[test]
fn schema_round_trips_through_registry() {
    let mut registry: ToolRegistry<AddTool> = ToolRegistry::new();
    registry.register_tool(add_entry());
    let schema = registry.get_tool_spec(&"add".to_string()).unwrap();
    match schema.get(&"name".to_string()) {
        Some(Value::Text(name)) => assert_eq!(name, "add"),
        _ => panic!("expected the tool name in the schema"),
    }
    match schema.get(&"input_schema".to_string()) {
        Some(input_schema) => match input_schema.get(&"type".to_string()) {
            Some(Value::Text(t)) => assert_eq!(t, "object"),
            _ => panic!("expected an object input schema"),
        },
        None => panic!("expected an input schema"),
    }
    assert_eq!(registry.schemas().len(), 1);
}

#[test]
fn add_tool_handles_bad_parameters() {
    let mut registry: ToolRegistry<AddTool> = ToolRegistry::new();
    registry.register_tool(add_entry());
    match registry.execute_tool(&"add".to_string(), Value::Null) {
        Ok(Value::Null) => {}
        _ => panic!("expected null for parameters that are not two integers"),
    }
    match registry.execute_tool(&"add".to_string(), add_params(i64::MAX, 1)) {
        Ok(Value::Null) => {}
        _ => panic!("expected null on overflow"),
    }
}

#[test]
fn unsupported_parameter_type_is_rejected() {
    let r = build_tool_schema(
        "bad".to_string(),
        "A tool with an unsupported parameter".to_string(),
        vec![("data".to_string(), "Vec<u8>".to_string())],
    );
    match r {
        Err(AnchorChainError::InvalidInputError(m)) => {
            assert_eq!(m, "Unsupported argument type: Vec<u8>");
        }
        _ => panic!("expected an invalid-input error"),
    }
}

#[test]
fn schema_lists_properties_and_required_fields() {
    let schema = build_tool_schema(
        "echo".to_string(),
        "Echoes".to_string(),
        vec![("text".to_string(), "String".to_string()), ("flag".to_string(), "bool".to_string())],
    )
    .unwrap();
    let input_schema = schema.get(&"input_schema".to_string()).unwrap();
    let properties = input_schema.get(&"properties".to_string()).unwrap();
    match properties.get(&"text".to_string()).unwrap().get(&"type".to_string()) {
        Some(Value::Text(t)) => assert_eq!(t, "string"),
        _ => panic!("expected a string property"),
    }
    match properties.get(&"flag".to_string()).unwrap().get(&"type".to_string()) {
        Some(Value::Text(t)) => assert_eq!(t, "boolean"),
        _ => panic!("expected a boolean property"),
    }
    match input_schema.get(&"required".to_string()) {
        Some(Value::Array(required)) => {
            assert_eq!(required.len(), 2);
            match &required[0] {
                Value::Text(t) => assert_eq!(t, "text"),
                _ => panic!("expected a name"),
            }
        }
        _ => panic!("expected a required list"),
    }
}
