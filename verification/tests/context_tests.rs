use httpmcp_rust::RequestContext;

#[test]
fn test_get_bearer_token() {
    let headers = vec![("authorization".to_string(), "Bearer test_token_123".to_string())];

    let ctx = RequestContext::new(headers, "POST".to_string(), "/mcp".to_string(), None);

    assert_eq!(ctx.get_bearer_token(), Some("test_token_123".to_string()));
}

#[test]
fn test_get_custom_header() {
    let headers = vec![("x-tenant-id".to_string(), "tenant-123".to_string())];

    let ctx = RequestContext::new(headers, "POST".to_string(), "/mcp".to_string(), None);

    assert_eq!(ctx.get_custom_header("x-tenant-id"), Some("tenant-123".to_string()));
}

#[test]
fn test_header_lookup_is_case_insensitive() {
    let headers = vec![("Content-Type".to_string(), "application/json".to_string())];
    let ctx = RequestContext::new(headers, "POST".to_string(), "/mcp".to_string(), None);

    assert_eq!(ctx.get_header("content-type"), Some("application/json".to_string()));
    assert_eq!(ctx.get_header("CONTENT-TYPE"), Some("application/json".to_string()));
    assert_eq!(ctx.get_header("content-length"), None);
}

#[test]
fn test_request_id_is_a_uuid_string() {
    let ctx = RequestContext::new(Vec::new(), "GET".to_string(), "/mcp".to_string(), None);
    assert_eq!(ctx.request_id.chars().count(), 36);
}

#[test]
fn test_bearer_token_requires_prefix() {
    let headers = vec![("authorization".to_string(), "Basic abc".to_string())];
    let ctx = RequestContext::new(headers, "POST".to_string(), "/mcp".to_string(), None);
    assert_eq!(ctx.get_bearer_token(), None);
}
