use httpmcp_rust::json::JsonValue;
use httpmcp_rust::{
    HttpMcpServer, McpError, RequestContext, Resource, ResourceContents, ResourceMeta, ToolMeta,
};

// Test resource handlers (the handlers themselves live with the embedding
// application; here they are plain functions over library types).
fn test_list_resources(
    _cursor: Option<String>,
    _ctx: RequestContext,
) -> Result<(Vec<Resource>, Option<String>), McpError> {
    Ok((
        vec![Resource {
            uri: "test://resource".to_string(),
            name: "Test Resource".to_string(),
            description: Some("A test resource".to_string()),
            mime_type: Some("text/plain".to_string()),
        }],
        None,
    ))
}

fn test_read_resource(
    _uri: String,
    _ctx: RequestContext,
) -> Result<Vec<ResourceContents>, McpError> {
    Ok(vec![ResourceContents {
        uri: "test://resource".to_string(),
        mime_type: Some("text/plain".to_string()),
        text: Some("Test content".to_string()),
        blob: None,
    }])
}

// Test tool handler
fn test_tool(
    args: Vec<(String, JsonValue)>,
    _ctx: RequestContext,
) -> Result<JsonValue, McpError> {
    let message = args
        .iter()
        .find(|(k, _)| k == "message")
        .and_then(|(_, v)| match v {
            JsonValue::Str(s) => Some(s.as_str()),
            _ => None,
        })
        .unwrap_or("default");
    Ok(JsonValue::Object(vec![(
        "result".to_string(),
        JsonValue::Str(message.to_string()),
    )]))
}

#[test]
fn test_server_builder() {
    let result = HttpMcpServer::builder()
        .name("test-server")
        .version("0.1.0")
        .resource(
            "test://resource",
            ResourceMeta::new()
                .name("Test Resource")
                .mime_type("text/plain"),
        )
        .tool(
            "test_tool",
            ToolMeta::new()
                .description("Test tool")
                .param("message", "string", "Test message")
                .required(&["message"]),
        )
        .enable_cors(true)
        .build();

    assert!(result.is_ok(), "Server should build successfully");
}

#[test]
fn test_metadata_builders() {
    // Test ResourceMeta
    let resource_meta = ResourceMeta::new()
        .name("Test")
        .description("Test description")
        .mime_type("application/json");
    let resource = resource_meta.to_resource("test://uri");
    assert_eq!(resource.uri, "test://uri");
    assert_eq!(resource.name, "Test");
    assert_eq!(resource.description, Some("Test description".to_string()));
    assert_eq!(resource.mime_type, Some("application/json".to_string()));

    // Test ToolMeta
    let tool_meta = ToolMeta::new()
        .description("Test tool")
        .param("arg1", "string", "Argument 1")
        .param("arg2", "number", "Argument 2")
        .required(&["arg1"]);
    let tool = tool_meta.to_tool("test_tool");
    assert_eq!(tool.name, "test_tool");
    assert_eq!(tool.description, Some("Test tool".to_string()));
    let properties = httpmcp_rust::json::json_get(&tool.input_schema, "properties");
    assert!(matches!(properties, Some(JsonValue::Object(_))));
    let required = httpmcp_rust::json::json_get(&tool.input_schema, "required");
    match required {
        Some(JsonValue::Array(names)) => {
            assert_eq!(names[0], JsonValue::Str("arg1".to_string()));
        }
        other => panic!("expected a required list, got {:?}", other),
    }
}

#[test]
fn test_resource_handlers() {
    let ctx = RequestContext {
        request_id: "test-123".to_string(),
        method: "POST".to_string(),
        path: "/mcp".to_string(),
        remote_addr: None,
        headers: Vec::new(),
    };

    // Test list
    let result = test_list_resources(None, ctx.clone());
    assert!(result.is_ok());
    let (resources, cursor) = result.unwrap();
    assert_eq!(resources.len(), 1);
    assert_eq!(resources[0].uri, "test://resource");
    assert!(cursor.is_none());

    // Test read
    let result = test_read_resource("test://resource".to_string(), ctx);
    assert!(result.is_ok());
    let contents = result.unwrap();
    assert_eq!(contents.len(), 1);
    assert_eq!(contents[0].uri, "test://resource");
    assert_eq!(contents[0].text, Some("Test content".to_string()));
}

#[test]
fn test_tool_handler() {
    let ctx = RequestContext {
        request_id: "test-123".to_string(),
        method: "POST".to_string(),
        path: "/mcp".to_string(),
        remote_addr: None,
        headers: Vec::new(),
    };

    let args = vec![("message".to_string(), JsonValue::Str("Hello".to_string()))];

    let result = test_tool(args, ctx);
    assert!(result.is_ok());
    let value = result.unwrap();
    match value {
        JsonValue::Object(members) => {
            assert_eq!(members[0].0, "result");
            assert_eq!(members[0].1, JsonValue::Str("Hello".to_string()));
        }
        other => panic!("expected an object, got {:?}", other),
    }
}
