use httpmcp_rust::json::{json_get, to_text, JsonValue};
use httpmcp_rust::jsonrpc::{request_from_json, response_to_json, JsonRpcRequest, RequestId};
use httpmcp_rust::transport::{
    prompts_get_response, resources_list_response, route_request, RouteStep,
};
use httpmcp_rust::{
    HttpMcpServer, PromptContent, PromptMessage, PromptMeta, Resource, ResourceMeta, ToolMeta,
};

fn request(method: &str, params: Option<JsonValue>, id: Option<RequestId>) -> JsonRpcRequest {
    JsonRpcRequest::new(method.to_string(), params, id)
}

fn obj(members: Vec<(&str, JsonValue)>) -> JsonValue {
    JsonValue::Object(members.into_iter().map(|(k, v)| (k.to_string(), v)).collect())
}

fn done(step: RouteStep) -> httpmcp_rust::jsonrpc::JsonRpcResponse {
    match step {
        RouteStep::Done(resp) => resp,
        other => panic!("expected a finished response, got {:?}", other),
    }
}

#[test]
fn ping_returns_an_empty_object() {
    let server = HttpMcpServer::builder().build().unwrap();
    let req = request("ping", None, Some(RequestId::String("a".to_string())));
    let resp = done(route_request(&server, &req));
    assert_eq!(resp.result, Some(JsonValue::Object(Vec::new())));
    assert_eq!(resp.id, Some(RequestId::String("a".to_string())));
    assert_eq!(
        to_text(&response_to_json(&resp)),
        "{\"jsonrpc\":\"2.0\",\"result\":{},\"id\":\"a\"}"
    );
}

#[test]
fn unknown_method_fails_with_its_name() {
    let server = HttpMcpServer::builder().build().unwrap();
    let req = request("wibble", None, Some(RequestId::Number(1)));
    let resp = done(route_request(&server, &req));
    let err = resp.error.unwrap();
    assert_eq!(err.code, -32601);
    assert_eq!(err.message, "wibble");
}

#[test]
fn empty_method_is_invalid() {
    let server = HttpMcpServer::builder().build().unwrap();
    let req = request("", None, Some(RequestId::Number(1)));
    let resp = done(route_request(&server, &req));
    let err = resp.error.unwrap();
    assert_eq!(err.code, -32600);
    assert_eq!(err.message, "Method cannot be empty");
}

#[test]
fn subscribe_and_templates_are_stubs() {
    let server = HttpMcpServer::builder().build().unwrap();

    let req = request("resources/subscribe", None, Some(RequestId::Number(1)));
    let resp = done(route_request(&server, &req));
    assert_eq!(resp.result, Some(JsonValue::Null));

    let req = request("resources/templates/list", None, Some(RequestId::Number(2)));
    let resp = done(route_request(&server, &req));
    let result = resp.result.unwrap();
    assert_eq!(
        json_get(&result, "resourceTemplates"),
        Some(&JsonValue::Array(Vec::new()))
    );
}

#[test]
fn set_level_accepts_known_levels_only() {
    let server = HttpMcpServer::builder().build().unwrap();

    let ok = request(
        "logging/setLevel",
        Some(obj(vec![("level", JsonValue::Str("debug".to_string()))])),
        Some(RequestId::Number(1)),
    );
    let resp = done(route_request(&server, &ok));
    assert_eq!(resp.result, Some(JsonValue::Object(Vec::new())));

    let bad = request(
        "logging/setLevel",
        Some(obj(vec![("level", JsonValue::Str("loud".to_string()))])),
        Some(RequestId::Number(2)),
    );
    let resp = done(route_request(&server, &bad));
    assert_eq!(resp.error.unwrap().code, -32602);

    let missing = request("logging/setLevel", None, Some(RequestId::Number(3)));
    let resp = done(route_request(&server, &missing));
    assert_eq!(resp.error.unwrap().code, -32602);
}

#[test]
fn tools_call_requires_well_formed_params() {
    let server = HttpMcpServer::builder().tool("alpha", ToolMeta::new()).build().unwrap();

    let missing_name = request(
        "tools/call",
        Some(obj(vec![("arguments", JsonValue::Object(Vec::new()))])),
        Some(RequestId::Number(1)),
    );
    let resp = done(route_request(&server, &missing_name));
    assert_eq!(resp.error.unwrap().code, -32602);

    let no_params = request("tools/call", None, Some(RequestId::Number(2)));
    let resp = done(route_request(&server, &no_params));
    assert_eq!(resp.error.unwrap().code, -32602);

    let absent_arguments = request(
        "tools/call",
        Some(obj(vec![("name", JsonValue::Str("alpha".to_string()))])),
        Some(RequestId::Number(3)),
    );
    match route_request(&server, &absent_arguments) {
        RouteStep::NeedTool { name, arguments } => {
            assert_eq!(name, "alpha");
            assert!(arguments.is_empty());
        }
        other => panic!("expected a tool invocation, got {:?}", other),
    }
}

#[test]
fn resources_list_concatenates_provider_order() {
    let server = HttpMcpServer::builder()
        .resource("p://one", ResourceMeta::new().name("one"))
        .resource("p://two", ResourceMeta::new().name("two"))
        .build()
        .unwrap();

    let req = request("resources/list", None, Some(RequestId::Number(1)));
    match route_request(&server, &req) {
        RouteStep::NeedResourceList { cursor } => assert!(cursor.is_none()),
        other => panic!("expected a list fan-out, got {:?}", other),
    }

    let with_cursor = request(
        "resources/list",
        Some(obj(vec![("cursor", JsonValue::Str("c1".to_string()))])),
        Some(RequestId::Number(2)),
    );
    match route_request(&server, &with_cursor) {
        RouteStep::NeedResourceList { cursor } => assert_eq!(cursor, Some("c1".to_string())),
        other => panic!("expected a list fan-out, got {:?}", other),
    }

    // A provider fan-out result keeps provider order and never pages.
    let parts = vec![
        vec![Resource {
            uri: "p://one/a".to_string(),
            name: "a".to_string(),
            description: None,
            mime_type: None,
        }],
        vec![Resource {
            uri: "p://two/b".to_string(),
            name: "b".to_string(),
            description: None,
            mime_type: None,
        }],
    ];
    let resp = resources_list_response(parts, &req.id);
    let result = resp.result.unwrap();
    assert!(json_get(&result, "nextCursor").is_none());
    match json_get(&result, "resources") {
        Some(JsonValue::Array(items)) => {
            assert_eq!(items.len(), 2);
            assert_eq!(
                json_get(&items[0], "uri"),
                Some(&JsonValue::Str("p://one/a".to_string()))
            );
            assert_eq!(
                json_get(&items[1], "uri"),
                Some(&JsonValue::Str("p://two/b".to_string()))
            );
        }
        other => panic!("expected resources, got {:?}", other),
    }
}

#[test]
fn prompts_flow() {
    let server = HttpMcpServer::builder()
        .prompt(
            "greet",
            PromptMeta::new()
                .description("A greeting")
                .arg("who", "Whom to greet", true),
        )
        .build()
        .unwrap();

    let listed = done(route_request(
        &server,
        &request("prompts/list", None, Some(RequestId::Number(1))),
    ));
    let result = listed.result.unwrap();
    match json_get(&result, "prompts") {
        Some(JsonValue::Array(items)) => {
            assert_eq!(items.len(), 1);
            assert_eq!(
                json_get(&items[0], "name"),
                Some(&JsonValue::Str("greet".to_string()))
            );
        }
        other => panic!("expected prompts, got {:?}", other),
    }

    let get = request(
        "prompts/get",
        Some(obj(vec![
            ("name", JsonValue::Str("greet".to_string())),
            (
                "arguments",
                obj(vec![("who", JsonValue::Str("world".to_string()))]),
            ),
        ])),
        Some(RequestId::Number(2)),
    );
    let (name, arguments) = match route_request(&server, &get) {
        RouteStep::NeedPrompt { name, arguments } => (name, arguments),
        other => panic!("expected a prompt invocation, got {:?}", other),
    };
    assert_eq!(name, "greet");
    assert_eq!(
        arguments,
        Some(vec![("who".to_string(), "world".to_string())])
    );

    let messages = vec![PromptMessage {
        role: "user".to_string(),
        content: PromptContent::Text { text: "Greet world".to_string() },
    }];
    let resp = prompts_get_response(Some("A greeting".to_string()), messages, &get.id);
    assert_eq!(
        to_text(&response_to_json(&resp)),
        "{\"jsonrpc\":\"2.0\",\"result\":{\"description\":\"A greeting\",\"messages\":[{\"role\":\"user\",\"content\":{\"type\":\"text\",\"text\":\"Greet world\"}}]},\"id\":2}"
    );

    let missing = request(
        "prompts/get",
        Some(obj(vec![("name", JsonValue::Str("other".to_string()))])),
        Some(RequestId::Number(3)),
    );
    let resp = done(route_request(&server, &missing));
    let err = resp.error.unwrap();
    assert_eq!(err.code, -32601);
    assert_eq!(
        json_get(&err.data.unwrap(), "prompt"),
        Some(&JsonValue::Str("other".to_string()))
    );
}

#[test]
fn request_parsing_accepts_ids_and_rejects_junk() {
    let with_string_id = obj(vec![
        ("jsonrpc", JsonValue::Str("2.0".to_string())),
        ("method", JsonValue::Str("ping".to_string())),
        ("id", JsonValue::Str("k".to_string())),
    ]);
    let req = request_from_json(&with_string_id).unwrap();
    assert_eq!(req.id, Some(RequestId::String("k".to_string())));

    let null_id = obj(vec![
        ("jsonrpc", JsonValue::Str("2.0".to_string())),
        ("method", JsonValue::Str("ping".to_string())),
        ("id", JsonValue::Null),
    ]);
    let req = request_from_json(&null_id).unwrap();
    assert_eq!(req.id, None);
    assert!(req.is_notification());

    let bad_id = obj(vec![
        ("jsonrpc", JsonValue::Str("2.0".to_string())),
        ("method", JsonValue::Str("ping".to_string())),
        ("id", JsonValue::Bool(true)),
    ]);
    assert!(request_from_json(&bad_id).is_none());

    let no_method = obj(vec![("jsonrpc", JsonValue::Str("2.0".to_string()))]);
    assert!(request_from_json(&no_method).is_none());

    assert!(request_from_json(&JsonValue::Array(Vec::new())).is_none());
}

#[test]
fn tools_list_empty_registry() {
    let server = HttpMcpServer::builder().build().unwrap();
    let req = request("tools/list", None, Some(RequestId::Number(1)));
    let resp = done(route_request(&server, &req));
    assert_eq!(
        to_text(&response_to_json(&resp)),
        "{\"jsonrpc\":\"2.0\",\"result\":{\"tools\":[]},\"id\":1}"
    );
}

#[test]
fn reregistering_a_tool_replaces_it() {
    let server = HttpMcpServer::builder()
        .tool("alpha", ToolMeta::new().description("first"))
        .tool("alpha", ToolMeta::new().description("second"))
        .build()
        .unwrap();
    let req = request("tools/list", None, Some(RequestId::Number(1)));
    let resp = done(route_request(&server, &req));
    let result = resp.result.unwrap();
    match json_get(&result, "tools") {
        Some(JsonValue::Array(tools)) => {
            assert_eq!(tools.len(), 1);
            assert_eq!(
                json_get(&tools[0], "description"),
                Some(&JsonValue::Str("second".to_string()))
            );
        }
        other => panic!("expected tools, got {:?}", other),
    }
}

#[test]
fn next_year_prefix_is_supported() {
    let server = HttpMcpServer::builder().build().unwrap();
    let params = obj(vec![
        ("protocolVersion", JsonValue::Str("2025-03-26".to_string())),
        ("capabilities", JsonValue::Object(Vec::new())),
        (
            "clientInfo",
            obj(vec![
                ("name", JsonValue::Str("c".to_string())),
                ("version", JsonValue::Str("1".to_string())),
            ]),
        ),
    ]);
    let req = request("initialize", Some(params), Some(RequestId::Number(1)));
    let resp = done(route_request(&server, &req));
    assert!(resp.error.is_none());
    let result = resp.result.unwrap();
    assert_eq!(
        json_get(&result, "protocolVersion"),
        Some(&JsonValue::Str("2025-03-26".to_string()))
    );
}

#[test]
fn initialize_rejects_malformed_params() {
    let server = HttpMcpServer::builder().build().unwrap();

    let no_params = request("initialize", None, Some(RequestId::Number(1)));
    let resp = done(route_request(&server, &no_params));
    let err = resp.error.unwrap();
    assert_eq!(err.code, -32602);
    assert_eq!(err.message, "Invalid initialize params");

    let missing_info = request(
        "initialize",
        Some(obj(vec![
            ("protocolVersion", JsonValue::Str("2024-11-05".to_string())),
            ("capabilities", JsonValue::Object(Vec::new())),
        ])),
        Some(RequestId::Number(2)),
    );
    let resp = done(route_request(&server, &missing_info));
    assert_eq!(resp.error.unwrap().code, -32602);
}
