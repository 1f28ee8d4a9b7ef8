use httpmcp_rust::json::{json_get, to_text, JsonValue};
use httpmcp_rust::jsonrpc::{
    request_from_json, response_to_json, JsonRpcRequest, JsonRpcResponse, RequestId,
};
use httpmcp_rust::stream::{respond, subscribe_to, DeliveryOutcome};
use httpmcp_rust::transport::{
    resources_read_response, route_request, tools_call_response, RouteStep,
};
use httpmcp_rust::{HttpMcpServer, ResourceContents, ResourceMeta, ToolMeta};

fn request(method: &str, params: Option<JsonValue>, id: Option<RequestId>) -> JsonRpcRequest {
    JsonRpcRequest::new(method.to_string(), params, id)
}

fn obj(members: Vec<(&str, JsonValue)>) -> JsonValue {
    JsonValue::Object(members.into_iter().map(|(k, v)| (k.to_string(), v)).collect())
}

fn expect_done(step: RouteStep) -> JsonRpcResponse {
    match step {
        RouteStep::Done(resp) => resp,
        other => panic!("expected a finished response, got {:?}", other),
    }
}

fn tool_names_of(resp: &JsonRpcResponse) -> Vec<String> {
    let result = resp.result.as_ref().expect("tools/list should succeed");
    let tools = match json_get(result, "tools") {
        Some(JsonValue::Array(tools)) => tools,
        other => panic!("expected a tools array, got {:?}", other),
    };
    tools
        .iter()
        .map(|t| match json_get(t, "name") {
            Some(JsonValue::Str(s)) => s.clone(),
            other => panic!("expected a name, got {:?}", other),
        })
        .collect()
}

/// `tools/list` returns exactly the registered names, without duplicates,
/// independent of registration order.
#[test]
fn tools_list_is_the_registered_name_set() {
    let server_ab = HttpMcpServer::builder()
        .tool("alpha", ToolMeta::new())
        .tool("beta", ToolMeta::new())
        .build()
        .unwrap();
    let server_ba = HttpMcpServer::builder()
        .tool("beta", ToolMeta::new())
        .tool("alpha", ToolMeta::new())
        .tool("beta", ToolMeta::new())
        .build()
        .unwrap();

    let req = request("tools/list", None, Some(RequestId::Number(1)));
    let mut names_ab = tool_names_of(&expect_done(route_request(&server_ab, &req)));
    let mut names_ba = tool_names_of(&expect_done(route_request(&server_ba, &req)));

    assert_eq!(names_ab.len(), 2);
    assert_eq!(names_ba.len(), 2);
    names_ab.sort();
    names_ba.sort();
    assert_eq!(names_ab, vec!["alpha".to_string(), "beta".to_string()]);
    assert_eq!(names_ab, names_ba);
}

/// `tools/call` with an unregistered name fails with the method-not-found
/// code and data identifying the tool.
#[test]
fn unknown_tool_uses_method_not_found_code() {
    let server = HttpMcpServer::builder().tool("alpha", ToolMeta::new()).build().unwrap();
    let params = obj(vec![("name", JsonValue::Str("nope".to_string()))]);
    let req = request("tools/call", Some(params), Some(RequestId::Number(7)));
    let resp = expect_done(route_request(&server, &req));

    let err = resp.error.expect("the call must fail");
    assert_eq!(err.code, -32601);
    let data = err.data.expect("the error must carry data");
    assert_eq!(
        json_get(&data, "tool"),
        Some(&JsonValue::Str("nope".to_string()))
    );
    assert_eq!(resp.id, Some(RequestId::Number(7)));
}

/// A message with no identifier never produces a response body, success or
/// failure.
#[test]
fn notifications_never_get_a_body() {
    let server = HttpMcpServer::builder().build().unwrap();

    for method in ["ping", "tools/list", "no/such/method", "notifications/initialized"] {
        let req = request(method, None, None);
        let step = route_request(&server, &req);
        let resp = expect_done(step);
        let outcome = respond(&req, resp, false, &server.response_tx);
        assert_eq!(outcome, DeliveryOutcome::NoBody, "method {}", method);
    }

    // Streaming preference changes nothing for notifications.
    let req = request("ping", None, None);
    let resp = expect_done(route_request(&server, &req));
    assert_eq!(respond(&req, resp, true, &server.response_tx), DeliveryOutcome::NoBody);
}

/// A message whose version tag is not the fixed literal is rejected with
/// InvalidRequest before any method-specific logic.
#[test]
fn wrong_version_is_rejected_first() {
    let server = HttpMcpServer::builder().tool("alpha", ToolMeta::new()).build().unwrap();

    for method in ["tools/call", "ping", "no/such/method"] {
        let req = JsonRpcRequest {
            jsonrpc: "1.0".to_string(),
            method: method.to_string(),
            params: None,
            id: Some(RequestId::Number(1)),
        };
        let resp = expect_done(route_request(&server, &req));
        let err = resp.error.expect("the message must be rejected");
        assert_eq!(err.code, -32600, "method {}", method);
        assert_eq!(err.message, "Invalid JSON-RPC version");
        assert!(resp.result.is_none());
    }
}

fn contents_for(uri: &str, text: &str) -> ResourceContents {
    ResourceContents {
        uri: uri.to_string(),
        mime_type: Some("text/plain".to_string()),
        text: Some(text.to_string()),
        blob: None,
    }
}

/// With three providers of which exactly one recognizes the URI,
/// `resources/read` returns exactly that provider's contents; with none,
/// it fails with the resource-not-found error naming the URI.
#[test]
fn three_providers_one_recognizes() {
    let server = HttpMcpServer::builder()
        .resource("p://one", ResourceMeta::new().name("one"))
        .resource("p://two", ResourceMeta::new().name("two"))
        .resource("p://three", ResourceMeta::new().name("three"))
        .build()
        .unwrap();

    let uri = "p://two/data";
    let params = obj(vec![("uri", JsonValue::Str(uri.to_string()))]);
    let req = request("resources/read", Some(params), Some(RequestId::Number(3)));

    let step = route_request(&server, &req);
    let asked = match step {
        RouteStep::NeedResourceRead { uri } => uri,
        other => panic!("expected a read fan-out, got {:?}", other),
    };
    assert_eq!(asked, uri);

    // Provider two recognizes the URI; one and three return nothing.
    let parts = vec![
        Vec::new(),
        vec![contents_for(uri, "the payload")],
        Vec::new(),
    ];
    let resp = resources_read_response(asked.clone(), parts, &req.id);
    let result = resp.result.expect("the read must succeed");
    match json_get(&result, "contents") {
        Some(JsonValue::Array(items)) => {
            assert_eq!(items.len(), 1);
            assert_eq!(
                json_get(&items[0], "text"),
                Some(&JsonValue::Str("the payload".to_string()))
            );
        }
        other => panic!("expected contents, got {:?}", other),
    }

    // No provider recognizes the URI.
    let parts: Vec<Vec<ResourceContents>> = vec![Vec::new(), Vec::new(), Vec::new()];
    let resp = resources_read_response(asked, parts, &req.id);
    let err = resp.error.expect("the read must fail");
    assert_eq!(err.code, -32002);
    let data = err.data.expect("the error must carry data");
    assert_eq!(json_get(&data, "uri"), Some(&JsonValue::Str(uri.to_string())));
}

fn initialize_params(version: &str) -> JsonValue {
    obj(vec![
        ("protocolVersion", JsonValue::Str(version.to_string())),
        ("capabilities", JsonValue::Object(Vec::new())),
        (
            "clientInfo",
            obj(vec![
                ("name", JsonValue::Str("client".to_string())),
                ("version", JsonValue::Str("0.1".to_string())),
            ]),
        ),
    ])
}

/// `initialize` rejects an unsupported protocol version with
/// InvalidRequest and, on a supported one, advertises `tools` exactly when
/// a tool was registered before build.
#[test]
fn initialize_version_and_capabilities() {
    let with_tool = HttpMcpServer::builder().tool("alpha", ToolMeta::new()).build().unwrap();
    let without_tool = HttpMcpServer::builder().build().unwrap();

    let old = request(
        "initialize",
        Some(initialize_params("2023-01-01")),
        Some(RequestId::Number(1)),
    );
    let resp = expect_done(route_request(&with_tool, &old));
    let err = resp.error.expect("the old version must be rejected");
    assert_eq!(err.code, -32600);
    assert_eq!(err.message, "Unsupported protocol version: 2023-01-01");

    let good = request(
        "initialize",
        Some(initialize_params("2024-11-05")),
        Some(RequestId::Number(2)),
    );

    let resp = expect_done(route_request(&with_tool, &good));
    let result = resp.result.expect("the handshake must succeed");
    assert_eq!(
        json_get(&result, "protocolVersion"),
        Some(&JsonValue::Str("2024-11-05".to_string()))
    );
    let caps = json_get(&result, "capabilities").expect("capabilities must be present");
    assert!(json_get(caps, "tools").is_some());
    assert!(json_get(caps, "logging").is_some());
    assert!(json_get(caps, "prompts").is_none());

    let resp = expect_done(route_request(&without_tool, &good));
    let result = resp.result.expect("the handshake must succeed");
    let caps = json_get(&result, "capabilities").expect("capabilities must be present");
    assert!(json_get(caps, "tools").is_none());
    assert!(json_get(caps, "logging").is_some());
}

/// The `add` scenario: calling a tool that sums two integer arguments
/// yields a single text content item holding the stringified JSON
/// `{"result":5}`, with the identifier echoed.
#[test]
fn add_tool_scenario() {
    let server = HttpMcpServer::builder()
        .tool(
            "add",
            ToolMeta::new()
                .description("Sum two numbers")
                .param("a", "number", "First addend")
                .param("b", "number", "Second addend")
                .required(&["a", "b"]),
        )
        .build()
        .unwrap();

    // The wire message, decoded.
    let wire = obj(vec![
        ("jsonrpc", JsonValue::Str("2.0".to_string())),
        ("method", JsonValue::Str("tools/call".to_string())),
        (
            "params",
            obj(vec![
                ("name", JsonValue::Str("add".to_string())),
                (
                    "arguments",
                    obj(vec![("a", JsonValue::Int(2)), ("b", JsonValue::Int(3))]),
                ),
            ]),
        ),
        ("id", JsonValue::Int(1)),
    ]);
    let req = request_from_json(&wire).expect("the message parses");
    assert_eq!(req.id, Some(RequestId::Number(1)));

    let (name, arguments) = match route_request(&server, &req) {
        RouteStep::NeedTool { name, arguments } => (name, arguments),
        other => panic!("expected a tool invocation, got {:?}", other),
    };
    assert_eq!(name, "add");

    // The registered handler: sums the two integer arguments.
    let mut sum: i64 = 0;
    for (_, v) in &arguments {
        match v {
            JsonValue::Int(n) => sum += n,
            other => panic!("expected an integer argument, got {:?}", other),
        }
    }
    let value = JsonValue::Object(vec![("result".to_string(), JsonValue::Int(sum))]);

    let resp = tools_call_response(&value, &req.id);
    let body = to_text(&response_to_json(&resp));
    assert_eq!(
        body,
        "{\"jsonrpc\":\"2.0\",\"result\":{\"content\":[{\"type\":\"text\",\"text\":\"{\\\"result\\\":5}\"}]},\"id\":1}"
    );
}

/// One open subscription and a streaming-preferred request: the
/// subscription receives exactly the one computed response; the caller
/// gets only an "accepted" acknowledgment.
#[test]
fn streaming_delivers_to_the_subscription() {
    let server = HttpMcpServer::builder().build().unwrap();
    let mut rx = subscribe_to(&server.response_tx);

    let req = request("ping", None, Some(RequestId::Number(9)));
    let resp = expect_done(route_request(&server, &req));
    let expected = resp.clone();

    let outcome = respond(&req, resp, true, &server.response_tx);
    assert_eq!(outcome, DeliveryOutcome::Accepted);

    let received = rx.try_recv().expect("one event must have been published");
    assert_eq!(received, expected);
    assert!(rx.try_recv().is_err(), "exactly one event is published");
}

/// A streaming-preferred request with no active subscription falls back to
/// direct delivery; nothing is ever published for it.
#[test]
fn streaming_without_subscribers_falls_back() {
    let server = HttpMcpServer::builder().build().unwrap();

    let req = request("ping", None, Some(RequestId::Number(4)));
    let resp = expect_done(route_request(&server, &req));
    let expected = resp.clone();

    let outcome = respond(&req, resp, true, &server.response_tx);
    assert_eq!(outcome, DeliveryOutcome::Direct(expected));

    // A subscription opened afterwards sees nothing.
    let mut rx = subscribe_to(&server.response_tx);
    assert!(rx.try_recv().is_err());
}
