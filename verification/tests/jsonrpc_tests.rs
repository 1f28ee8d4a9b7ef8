use httpmcp_rust::jsonrpc::{JsonRpcRequest, RequestId};

#[test]
fn test_request_validation() {
    let req = JsonRpcRequest::new("test".to_string(), None, Some(RequestId::Number(1)));
    assert!(req.validate().is_ok());

    let invalid = JsonRpcRequest {
        jsonrpc: "1.0".to_string(),
        method: "test".to_string(),
        params: None,
        id: None,
    };
    assert!(invalid.validate().is_err());
}

#[test]
fn test_is_notification() {
    let req = JsonRpcRequest::new("test".to_string(), None, None);
    assert!(req.is_notification());

    let req = JsonRpcRequest::new("test".to_string(), None, Some(RequestId::Number(1)));
    assert!(!req.is_notification());
}
