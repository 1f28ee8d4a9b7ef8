use httpmcp_rust::auth::OAuthConfig;
use httpmcp_rust::error::StatusClass;
use httpmcp_rust::json::{json_get, JsonValue};
use httpmcp_rust::{McpError, RequestContext};

#[test]
fn error_codes_match_the_table() {
    let cases = vec![
        (McpError::ParseError("p".to_string()), -32700),
        (McpError::InvalidRequest("i".to_string()), -32600),
        (McpError::MethodNotFound("m".to_string()), -32601),
        (McpError::InvalidParams("i".to_string()), -32602),
        (McpError::InternalError("x".to_string()), -32603),
        (McpError::ResourceNotFound("u".to_string()), -32002),
        (McpError::ToolNotFound("t".to_string()), -32601),
        (McpError::PromptNotFound("p".to_string()), -32601),
        (McpError::AuthenticationRequired, -32600),
        (McpError::AuthorizationFailed("a".to_string()), -32600),
        (McpError::SerializationError("s".to_string()), -32603),
        (McpError::IoError("io".to_string()), -32603),
        (McpError::JsonRpcError("j".to_string()), -32603),
    ];
    for (err, code) in cases {
        assert_eq!(err.to_jsonrpc_error().code, code, "{:?}", err);
    }
}

#[test]
fn error_messages_and_data() {
    let e = McpError::ResourceNotFound("file:///x".to_string()).to_jsonrpc_error();
    assert_eq!(e.message, "Resource not found: file:///x");
    assert_eq!(
        json_get(&e.data.unwrap(), "uri"),
        Some(&JsonValue::Str("file:///x".to_string()))
    );

    let e = McpError::ToolNotFound("saw".to_string()).to_jsonrpc_error();
    assert_eq!(e.message, "Tool not found: saw");
    assert_eq!(
        json_get(&e.data.unwrap(), "tool"),
        Some(&JsonValue::Str("saw".to_string()))
    );

    let e = McpError::PromptNotFound("poem".to_string()).to_jsonrpc_error();
    assert_eq!(e.message, "Prompt not found: poem");
    assert_eq!(
        json_get(&e.data.unwrap(), "prompt"),
        Some(&JsonValue::Str("poem".to_string()))
    );

    let e = McpError::AuthorizationFailed("bad".to_string()).to_jsonrpc_error();
    assert_eq!(e.message, "Authorization failed: bad");
    assert!(e.data.is_none());
}

#[test]
fn status_classes_match_the_taxonomy() {
    assert_eq!(
        McpError::ParseError("p".to_string()).status_code(),
        StatusClass::BadRequest
    );
    assert_eq!(
        McpError::MethodNotFound("m".to_string()).status_code(),
        StatusClass::NotFound
    );
    assert_eq!(
        McpError::ResourceNotFound("u".to_string()).status_code(),
        StatusClass::NotFound
    );
    assert_eq!(
        McpError::AuthenticationRequired.status_code(),
        StatusClass::Unauthorized
    );
    assert_eq!(
        McpError::AuthorizationFailed("a".to_string()).status_code(),
        StatusClass::Forbidden
    );
    assert_eq!(
        McpError::IoError("io".to_string()).status_code(),
        StatusClass::Internal
    );
}

#[test]
fn auth_stub_checks_presence_only() {
    let config = OAuthConfig {
        client_id: "id".to_string(),
        client_secret: "unused".to_string(),
    };

    let no_token = RequestContext::new(Vec::new(), "POST".to_string(), "/mcp".to_string(), None);
    assert_eq!(
        config.validate_token(&no_token),
        Err(McpError::AuthenticationRequired)
    );

    let empty = RequestContext::new(
        vec![("authorization".to_string(), "Bearer ".to_string())],
        "POST".to_string(),
        "/mcp".to_string(),
        None,
    );
    assert_eq!(
        config.validate_token(&empty),
        Err(McpError::AuthorizationFailed("Invalid token".to_string()))
    );

    let ok = RequestContext::new(
        vec![("authorization".to_string(), "Bearer token".to_string())],
        "POST".to_string(),
        "/mcp".to_string(),
        None,
    );
    assert_eq!(config.validate_token(&ok), Ok(()));
}
