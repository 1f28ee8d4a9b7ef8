//! The protocol dispatcher: structural validation, method routing, the
//! parameter parsers, the response builders that finish a call after its
//! handlers ran, and the laws this layer guarantees.
//!
//! Handlers are asynchronous and live with the embedding application, so a
//! call is processed in two verified halves. `route_request` takes a parsed
//! message and either finishes it (`Done`) or names the handler work that
//! is owed (`NeedTool`, `NeedPrompt`, `NeedResourceList`,
//! `NeedResourceRead`). The application invokes its handlers and hands the
//! plain results to the matching response builder; delivery then goes
//! through `crate::stream`.
//!
//! No method requires that `initialize` happened first: `ping`,
//! `tools/call`, and the rest are callable before or without a handshake.
//! The ordering is deliberately permissive.

use vstd::prelude::*;
use vstd::string::*;

use crate::error::{jsonrpc_error_of, McpError, McpErrData};
use crate::json::{
    clone_members, jd_members, json_field, json_get, str_eq, str_starts_with, JsonData, JsonValue,
};
use crate::jsonrpc::{
    error_data, plain_err, req_structurally_valid, success_data, JsonRpcRequest, JsonRpcResponse,
    ReqData, RequestId,
};
use crate::protocol::{
    implementation_json, resource_contents_json, resource_json, server_caps_json, tool_content_json, tool_json,
    prompt_json, prompts_get_result_json, tools_call_result_json, ClientCapabilities,
    Implementation, InitializeParams, LogLevel, PromptMessage, PromptsGetResult, Resource,
    ResourceContents, RootsCapability, SamplingCapability, Tool, ToolContent, ToolsCallResult,
};
use crate::server::{has_id, prompt_names, tool_names, HttpMcpServer};

verus! {

broadcast use
    crate::json::lemma_jd_seq_index,
    crate::json::lemma_jd_seq_len,
    crate::json::lemma_jd_members_index,
    crate::json::lemma_jd_members_len,
    vstd::std_specs::vec::group_vec_axioms,
;

// ===========================================================================
// Parameter parsing
// ===========================================================================

/// What a `tools/call` parameter object describes: the tool name and the
/// argument members (empty when `arguments` is absent or null). `None` when
/// the parameters do not have that shape.
pub open spec fn parse_tools_call_spec(params: Option<JsonData>) -> Option<
    (Seq<char>, Seq<(Seq<char>, JsonData)>),
> {
    match params {
        Some(d) => match d {
            JsonData::Obj(_) => match json_field(d, "name"@) {
                Some(JsonData::Str(name)) => match json_field(d, "arguments"@) {
                    None => Some((name, Seq::empty())),
                    Some(JsonData::Null) => Some((name, Seq::empty())),
                    Some(JsonData::Obj(args)) => Some((name, args)),
                    Some(_) => None,
                },
                _ => None,
            },
            _ => None,
        },
        None => None,
    }
}

/// Reads `tools/call` parameters: the name and the argument members.
pub fn parse_tools_call(params: &Option<JsonValue>) -> (r: Option<
    (String, Vec<(String, JsonValue)>),
>)
    ensures
        match r {
            Some(p) => parse_tools_call_spec(params.deep_view()) == Some(
                (p.0@, jd_members(p.1@)),
            ),
            None => parse_tools_call_spec(params.deep_view()) is None,
        },
{
    let v = match params {
        Some(v) => v,
        None => {
            return None;
        },
    };
    match v {
        JsonValue::Object(_) => {},
        _ => {
            return None;
        },
    }
    let name: String = match json_get(v, "name") {
        Some(JsonValue::Str(s)) => s.clone(),
        _ => {
            return None;
        },
    };
    let arguments: Vec<(String, JsonValue)> = match json_get(v, "arguments") {
        None => Vec::new(),
        Some(JsonValue::Null) => Vec::new(),
        Some(JsonValue::Object(args)) => clone_members(args),
        Some(_) => {
            return None;
        },
    };
    proof {
        assert(jd_members(Seq::<(String, JsonValue)>::empty())
            =~= Seq::<(Seq<char>, JsonData)>::empty());
    }
    Some((name, arguments))
}

/// What a `resources/read` parameter object describes: the URI. `None` when
/// the parameters do not have that shape.
pub open spec fn parse_resources_read_spec(params: Option<JsonData>) -> Option<Seq<char>> {
    match params {
        Some(d) => match d {
            JsonData::Obj(_) => match json_field(d, "uri"@) {
                Some(JsonData::Str(uri)) => Some(uri),
                _ => None,
            },
            _ => None,
        },
        None => None,
    }
}

/// Reads `resources/read` parameters: the URI.
pub fn parse_resources_read(params: &Option<JsonValue>) -> (r: Option<String>)
    ensures
        match r {
            Some(uri) => parse_resources_read_spec(params.deep_view()) == Some(uri@),
            None => parse_resources_read_spec(params.deep_view()) is None,
        },
{
    let v = match params {
        Some(v) => v,
        None => {
            return None;
        },
    };
    match v {
        JsonValue::Object(_) => {},
        _ => {
            return None;
        },
    }
    match json_get(v, "uri") {
        Some(JsonValue::Str(s)) => Some(s.clone()),
        _ => None,
    }
}

/// The cursor a `resources/list` (or `prompts/list`) parameter object
/// carries. Parsing never fails: anything but an object holding a string
/// cursor means no cursor, matching a deserializer whose failure falls back
/// to the default parameters.
pub open spec fn parse_cursor_spec(params: Option<JsonData>) -> Option<Seq<char>> {
    match params {
        Some(d) => match d {
            JsonData::Obj(_) => match json_field(d, "cursor"@) {
                Some(JsonData::Str(c)) => Some(c),
                _ => None,
            },
            _ => None,
        },
        None => None,
    }
}

/// Reads the pagination cursor, total.
pub fn parse_cursor(params: &Option<JsonValue>) -> (r: Option<String>)
    ensures
        match r {
            Some(c) => parse_cursor_spec(params.deep_view()) == Some(c@),
            None => parse_cursor_spec(params.deep_view()) is None,
        },
{
    let v = match params {
        Some(v) => v,
        None => {
            return None;
        },
    };
    match v {
        JsonValue::Object(_) => {},
        _ => {
            return None;
        },
    }
    match json_get(v, "cursor") {
        Some(JsonValue::Str(s)) => Some(s.clone()),
        _ => None,
    }
}

/// Whether every member's value is a string.
pub open spec fn all_string_values(m: Seq<(Seq<char>, JsonData)>) -> bool {
    forall|i: int| 0 <= i < m.len() ==> (#[trigger] m[i]).1 is Str
}

/// The members of a string-to-string object, as character pairs.
pub open spec fn string_pairs(m: Seq<(Seq<char>, JsonData)>) -> Seq<(Seq<char>, Seq<char>)> {
    Seq::new(m.len(), |i: int| (m[i].0, m[i].1->Str_0))
}

/// What a `prompts/get` parameter object describes: the prompt name and,
/// when present, the string-valued argument map. `None` when the
/// parameters do not have that shape (a non-string argument value
/// included).
pub open spec fn parse_prompts_get_spec(params: Option<JsonData>) -> Option<
    (Seq<char>, Option<Seq<(Seq<char>, Seq<char>)>>),
> {
    match params {
        Some(d) => match d {
            JsonData::Obj(_) => match json_field(d, "name"@) {
                Some(JsonData::Str(name)) => match json_field(d, "arguments"@) {
                    None => Some((name, None)),
                    Some(JsonData::Null) => Some((name, None)),
                    Some(JsonData::Obj(args)) => if all_string_values(args) {
                        Some((name, Some(string_pairs(args))))
                    } else {
                        None
                    },
                    Some(_) => None,
                },
                _ => None,
            },
            _ => None,
        },
        None => None,
    }
}

/// Reads `prompts/get` parameters: the name and the optional string
/// arguments.
#[verifier::loop_isolation(false)]
pub fn parse_prompts_get(params: &Option<JsonValue>) -> (r: Option<
    (String, Option<Vec<(String, String)>>),
>)
    ensures
        match r {
            Some(p) => parse_prompts_get_spec(params.deep_view()) == Some(
                (
                    p.0@,
                    match p.1 {
                        Some(pairs) => Some(
                            Seq::new(
                                pairs@.len(),
                                |i: int| (pairs@[i].0@, pairs@[i].1@),
                            ),
                        ),
                        None => None,
                    },
                ),
            ),
            None => parse_prompts_get_spec(params.deep_view()) is None,
        },
{
    let v = match params {
        Some(v) => v,
        None => {
            return None;
        },
    };
    match v {
        JsonValue::Object(_) => {},
        _ => {
            return None;
        },
    }
    let name: String = match json_get(v, "name") {
        Some(JsonValue::Str(s)) => s.clone(),
        _ => {
            return None;
        },
    };
    let arguments: Option<Vec<(String, String)>> = match json_get(v, "arguments") {
        None => None,
        Some(JsonValue::Null) => None,
        Some(JsonValue::Object(args)) => {
            let mut pairs: Vec<(String, String)> = Vec::new();
            let n = args.len();
            for i in 0..n
                invariant
                    n == args.len(),
                    pairs.len() == i,
                    forall|k: int| 0 <= k < i ==> (#[trigger] jd_members(args@)[k]).1 is Str,
                    forall|k: int|
                        0 <= k < i ==> (#[trigger] pairs@[k]).0@ == jd_members(args@)[k].0
                            && pairs@[k].1@ == jd_members(args@)[k].1->Str_0,
                decreases n - i,
            {
                let pair = &args[i];
                match &pair.1 {
                    JsonValue::Str(s) => {
                        pairs.push((pair.0.clone(), s.clone()));
                    },
                    _ => {
                        proof {
                            assert(!(jd_members(args@)[i as int].1 is Str));
                        }
                        return None;
                    },
                }
            }
            proof {
                assert(all_string_values(jd_members(args@)));
            }
            Some(pairs)
        },
        Some(_) => {
            return None;
        },
    };
    proof {
        match &arguments {
            Some(pairs) => {
                assert(parse_prompts_get_spec(params.deep_view()) matches Some(p) && p.1
                    matches Some(sp) && sp =~= Seq::new(
                    pairs@.len(),
                    |i: int| (pairs@[i].0@, pairs@[i].1@),
                ));
            },
            None => {},
        }
    }
    Some((name, arguments))
}

/// Whether a capabilities document has the accepted shape, and which
/// capability set it describes. The two groups are independently optional;
/// null counts as absent; a boolean `listChanged` is honored; any other
/// shape is refused.
pub open spec fn parse_client_caps_spec(d: JsonData) -> Option<ClientCapabilities> {
    match d {
        JsonData::Obj(_) => {
            let roots = match json_field(d, "roots"@) {
                None => Some(Option::<RootsCapability>::None),
                Some(JsonData::Null) => Some(Option::<RootsCapability>::None),
                Some(rd) => match rd {
                    JsonData::Obj(_) => match json_field(rd, "listChanged"@) {
                        None => Some(Some(RootsCapability { list_changed: None })),
                        Some(JsonData::Null) => Some(Some(RootsCapability { list_changed: None })),
                        Some(JsonData::Bool(b)) => Some(
                            Some(RootsCapability { list_changed: Some(b) }),
                        ),
                        Some(_) => None,
                    },
                    _ => None,
                },
            };
            let sampling = match json_field(d, "sampling"@) {
                None => Some(Option::<SamplingCapability>::None),
                Some(JsonData::Null) => Some(Option::<SamplingCapability>::None),
                Some(sd) => match sd {
                    JsonData::Obj(_) => Some(Some(SamplingCapability {  })),
                    _ => None,
                },
            };
            match (roots, sampling) {
                (Some(r), Some(s)) => Some(ClientCapabilities { roots: r, sampling: s }),
                _ => None,
            }
        },
        _ => None,
    }
}

/// What an `initialize` parameter object describes: the protocol version,
/// the client capabilities, and the client identity. `None` when the
/// parameters do not have that shape.
pub open spec fn parse_initialize_spec(params: Option<JsonData>) -> Option<
    (Seq<char>, ClientCapabilities, Seq<char>, Seq<char>),
> {
    match params {
        Some(d) => match d {
            JsonData::Obj(_) => match (
                json_field(d, "protocolVersion"@),
                json_field(d, "capabilities"@),
                json_field(d, "clientInfo"@),
            ) {
                (Some(JsonData::Str(version)), Some(cd), Some(ci)) => match (
                    parse_client_caps_spec(cd),
                    json_field(ci, "name"@),
                    json_field(ci, "version"@),
                ) {
                    (Some(caps), Some(JsonData::Str(cn)), Some(JsonData::Str(cv))) => match ci {
                        JsonData::Obj(_) => Some((version, caps, cn, cv)),
                        _ => None,
                    },
                    _ => None,
                },
                _ => None,
            },
            _ => None,
        },
        None => None,
    }
}

/// Reads `initialize` parameters.
pub fn parse_initialize(params: &Option<JsonValue>) -> (r: Option<InitializeParams>)
    ensures
        match r {
            Some(p) => parse_initialize_spec(params.deep_view()) == Some(
                (p.protocol_version@, p.capabilities, p.client_info.name@, p.client_info.version@),
            ),
            None => parse_initialize_spec(params.deep_view()) is None,
        },
{
    let v = match params {
        Some(v) => v,
        None => {
            return None;
        },
    };
    match v {
        JsonValue::Object(_) => {},
        _ => {
            return None;
        },
    }
    let protocol_version: String = match json_get(v, "protocolVersion") {
        Some(JsonValue::Str(s)) => s.clone(),
        _ => {
            return None;
        },
    };
    let cd = match json_get(v, "capabilities") {
        Some(c) => c,
        None => {
            return None;
        },
    };
    match cd {
        JsonValue::Object(_) => {},
        _ => {
            return None;
        },
    }
    let roots: Option<RootsCapability> = match json_get(cd, "roots") {
        None => None,
        Some(JsonValue::Null) => None,
        Some(rd) => {
            match rd {
                JsonValue::Object(_) => {},
                _ => {
                    return None;
                },
            }
            match json_get(rd, "listChanged") {
                None => Some(RootsCapability { list_changed: None }),
                Some(JsonValue::Null) => Some(RootsCapability { list_changed: None }),
                Some(JsonValue::Bool(b)) => Some(RootsCapability { list_changed: Some(*b) }),
                Some(_) => {
                    return None;
                },
            }
        },
    };
    let sampling: Option<SamplingCapability> = match json_get(cd, "sampling") {
        None => None,
        Some(JsonValue::Null) => None,
        Some(sd) => match sd {
            JsonValue::Object(_) => Some(SamplingCapability {  }),
            _ => {
                return None;
            },
        },
    };
    let ci = match json_get(v, "clientInfo") {
        Some(c) => c,
        None => {
            return None;
        },
    };
    match ci {
        JsonValue::Object(_) => {},
        _ => {
            return None;
        },
    }
    let client_name: String = match json_get(ci, "name") {
        Some(JsonValue::Str(s)) => s.clone(),
        _ => {
            return None;
        },
    };
    let client_version: String = match json_get(ci, "version") {
        Some(JsonValue::Str(s)) => s.clone(),
        _ => {
            return None;
        },
    };
    Some(
        InitializeParams {
            protocol_version,
            capabilities: ClientCapabilities { roots, sampling },
            client_info: Implementation { name: client_name, version: client_version },
        },
    )
}

/// What a `logging/setLevel` parameter object describes: the level, spelled
/// in lower case. `None` when the parameters do not have that shape.
pub open spec fn parse_log_level_spec(params: Option<JsonData>) -> Option<LogLevel> {
    match params {
        Some(d) => match d {
            JsonData::Obj(_) => match json_field(d, "level"@) {
                Some(JsonData::Str(s)) => if s == "debug"@ {
                    Some(LogLevel::Debug)
                } else if s == "info"@ {
                    Some(LogLevel::Info)
                } else if s == "warning"@ {
                    Some(LogLevel::Warning)
                } else if s == "error"@ {
                    Some(LogLevel::Error)
                } else {
                    None
                },
                _ => None,
            },
            _ => None,
        },
        None => None,
    }
}

/// Reads `logging/setLevel` parameters.
pub fn parse_log_level(params: &Option<JsonValue>) -> (r: Option<LogLevel>)
    ensures
        r == parse_log_level_spec(params.deep_view()),
{
    let v = match params {
        Some(v) => v,
        None => {
            return None;
        },
    };
    match v {
        JsonValue::Object(_) => {},
        _ => {
            return None;
        },
    }
    let s: &String = match json_get(v, "level") {
        Some(JsonValue::Str(s)) => s,
        _ => {
            return None;
        },
    };
    if str_eq(s.as_str(), "debug") {
        Some(LogLevel::Debug)
    } else if str_eq(s.as_str(), "info") {
        Some(LogLevel::Info)
    } else if str_eq(s.as_str(), "warning") {
        Some(LogLevel::Warning)
    } else if str_eq(s.as_str(), "error") {
        Some(LogLevel::Error)
    } else {
        None
    }
}

// ===========================================================================
// Response builders
// ===========================================================================

/// An empty JSON object.
pub open spec fn empty_obj() -> JsonData {
    JsonData::Obj(Seq::empty())
}

/// Copies an identifier option; the copy has the same model.
pub fn clone_id(id: &Option<RequestId>) -> (r: Option<RequestId>)
    ensures
        r.deep_view() == id.deep_view(),
{
    match id {
        Some(i) => Some(i.clone()),
        None => None,
    }
}

/// A success response echoing `id`.
pub fn ok_response(result: JsonValue, id: &Option<RequestId>) -> (r: JsonRpcResponse)
    ensures
        r@ == success_data(result@, id.deep_view()),
{
    JsonRpcResponse::success(result, clone_id(id))
}

/// The error response a taxonomy member produces, echoing `id`.
pub fn error_response(e: &McpError, id: &Option<RequestId>) -> (r: JsonRpcResponse)
    ensures
        r@ == error_data(jsonrpc_error_of(e@), id.deep_view()),
{
    JsonRpcResponse::error(e.to_jsonrpc_error(), clone_id(id))
}

/// The result document of a successful `tools/call`: one text-typed content
/// item holding the compact JSON text of the handler's value, with no error
/// flag.
pub open spec fn tool_call_success_json(v: JsonData) -> JsonData {
    JsonData::Obj(
        seq![
            (
                "content"@,
                JsonData::Arr(
                    seq![
                        JsonData::Obj(
                            seq![
                                ("type"@, JsonData::Str("text"@)),
                                ("text"@, JsonData::Str(crate::json::json_text(v))),
                            ],
                        ),
                    ],
                ),
            ),
        ],
    )
}

/// Finishes `tools/call`: wraps the handler's value as a single text
/// content item and echoes `id`.
pub fn tools_call_response(value: &JsonValue, id: &Option<RequestId>) -> (r: JsonRpcResponse)
    ensures
        r@ == success_data(tool_call_success_json(value@), id.deep_view()),
{
    let text = crate::json::to_text(value);
    let mut content: Vec<ToolContent> = Vec::new();
    content.push(ToolContent::Text { text });
    let result = ToolsCallResult { content, is_error: None };
    let doc = result.to_json();
    proof {
        let cs = result.content@;
        assert(cs.len() == 1);
        assert(tool_content_json(cs[0]) =~= JsonData::Obj(
            seq![
                ("type"@, JsonData::Str("text"@)),
                ("text"@, JsonData::Str(crate::json::json_text(value@))),
            ],
        ));
        assert(Seq::new(cs.len(), |i: int| tool_content_json(cs[i])) =~= seq![
            tool_content_json(cs[0]),
        ]);
        assert(tools_call_result_json(result) =~~= tool_call_success_json(value@));
    }
    ok_response(doc, id)
}

/// Finishes `prompts/get`: the handler's description and messages, echoing
/// `id`.
pub fn prompts_get_response(
    description: Option<String>,
    messages: Vec<PromptMessage>,
    id: &Option<RequestId>,
) -> (r: JsonRpcResponse)
    ensures
        r@ == success_data(
            prompts_get_result_json(PromptsGetResult { description, messages }),
            id.deep_view(),
        ),
{
    let result = PromptsGetResult { description, messages };
    let doc = result.to_json();
    ok_response(doc, id)
}

/// The documents of a run of resource descriptors.
pub open spec fn resource_docs(rs: Seq<Resource>) -> Seq<JsonData> {
    Seq::new(rs.len(), |i: int| resource_json(rs[i]))
}

/// The documents of all providers' descriptors, concatenated in provider
/// order.
pub open spec fn flat_resource_docs(parts: Seq<Vec<Resource>>) -> Seq<JsonData>
    decreases parts,
{
    if parts.len() == 0 {
        Seq::empty()
    } else {
        flat_resource_docs(parts.drop_last()) + resource_docs(parts.last()@)
    }
}

/// The result document of `resources/list`: every provider's descriptors
/// concatenated, no deduplication, and never a next cursor.
pub open spec fn resources_list_json(parts: Seq<Vec<Resource>>) -> JsonData {
    JsonData::Obj(seq![("resources"@, JsonData::Arr(flat_resource_docs(parts)))])
}

proof fn lemma_flat_resource_step(parts: Seq<Vec<Resource>>, i: int)
    requires
        0 <= i < parts.len(),
    ensures
        flat_resource_docs(parts.take(i + 1)) == flat_resource_docs(parts.take(i))
            + resource_docs(parts[i]@),
{
    assert(parts.take(i + 1).drop_last() =~= parts.take(i));
    assert(parts.take(i + 1).last() == parts[i]);
}

/// Finishes `resources/list`: concatenates every provider's descriptors in
/// provider order and echoes `id`. The next-cursor field is always absent.
#[verifier::loop_isolation(false)]
pub fn resources_list_response(parts: Vec<Vec<Resource>>, id: &Option<RequestId>) -> (r:
    JsonRpcResponse)
    ensures
        r@ == success_data(resources_list_json(parts@), id.deep_view()),
{
    let mut all: Vec<Resource> = Vec::new();
    let n = parts.len();
    proof {
        assert(resource_docs(all@) =~= flat_resource_docs(parts@.take(0)));
    }
    for i in 0..n
        invariant
            n == parts.len(),
            resource_docs(all@) =~= flat_resource_docs(parts@.take(i as int)),
        decreases n - i,
    {
        let part = &parts[i];
        let m = part.len();
        let ghost before = resource_docs(all@);
        for j in 0..m
            invariant
                m == part.len(),
                resource_docs(all@) =~= before + resource_docs(part@.take(j as int)),
            decreases m - j,
        {
            let ghost prev = all@;
            all.push(part[j].clone());
            proof {
                assert(resource_docs(all@) =~= resource_docs(prev).push(
                    resource_json(part@[j as int]),
                ));
                assert(resource_docs(part@.take(j + 1)) =~= resource_docs(
                    part@.take(j as int),
                ).push(resource_json(part@[j as int])));
                assert(resource_docs(all@) =~= before + resource_docs(part@.take(j + 1)));
            }
        }
        proof {
            assert(part@.take(m as int) =~= part@);
            lemma_flat_resource_step(parts@, i as int);
            assert(resource_docs(all@) =~= flat_resource_docs(parts@.take(i + 1)));
        }
    }
    proof {
        assert(parts@.take(n as int) =~= parts@);
    }
    let result = crate::protocol::ResourcesListResult { resources: all, next_cursor: None };
    let doc = result.to_json();
    proof {
        assert(crate::protocol::resources_list_result_json(result) =~~= resources_list_json(
            parts@,
        ));
    }
    ok_response(doc, id)
}

/// The documents of a run of resource contents.
pub open spec fn contents_docs(cs: Seq<ResourceContents>) -> Seq<JsonData> {
    Seq::new(cs.len(), |i: int| resource_contents_json(cs[i]))
}

/// The documents of all providers' contents, concatenated in provider
/// order.
pub open spec fn flat_contents_docs(parts: Seq<Vec<ResourceContents>>) -> Seq<JsonData>
    decreases parts,
{
    if parts.len() == 0 {
        Seq::empty()
    } else {
        flat_contents_docs(parts.drop_last()) + contents_docs(parts.last()@)
    }
}

/// The result document of a successful `resources/read`.
pub open spec fn resources_read_json(parts: Seq<Vec<ResourceContents>>) -> JsonData {
    JsonData::Obj(seq![("contents"@, JsonData::Arr(flat_contents_docs(parts)))])
}

proof fn lemma_flat_contents_step(parts: Seq<Vec<ResourceContents>>, i: int)
    requires
        0 <= i < parts.len(),
    ensures
        flat_contents_docs(parts.take(i + 1)) == flat_contents_docs(parts.take(i))
            + contents_docs(parts[i]@),
{
    assert(parts.take(i + 1).drop_last() =~= parts.take(i));
    assert(parts.take(i + 1).last() == parts[i]);
}

/// Finishes `resources/read`: concatenates every provider's contents in
/// provider order; when the aggregate is empty, the resource was not found
/// and the error carries the URI, else the concatenated contents are
/// returned. Either way `id` is echoed.
#[verifier::loop_isolation(false)]
pub fn resources_read_response(
    uri: String,
    parts: Vec<Vec<ResourceContents>>,
    id: &Option<RequestId>,
) -> (r: JsonRpcResponse)
    ensures
        flat_contents_docs(parts@).len() == 0 ==> r@ == error_data(
            jsonrpc_error_of(McpErrData::ResourceNotFnd(uri@)),
            id.deep_view(),
        ),
        flat_contents_docs(parts@).len() > 0 ==> r@ == success_data(
            resources_read_json(parts@),
            id.deep_view(),
        ),
{
    let mut all: Vec<ResourceContents> = Vec::new();
    let n = parts.len();
    proof {
        assert(contents_docs(all@) =~= flat_contents_docs(parts@.take(0)));
    }
    for i in 0..n
        invariant
            n == parts.len(),
            contents_docs(all@) =~= flat_contents_docs(parts@.take(i as int)),
        decreases n - i,
    {
        let part = &parts[i];
        let m = part.len();
        let ghost before = contents_docs(all@);
        for j in 0..m
            invariant
                m == part.len(),
                contents_docs(all@) =~= before + contents_docs(part@.take(j as int)),
            decreases m - j,
        {
            let ghost prev = all@;
            all.push(part[j].clone());
            proof {
                assert(contents_docs(all@) =~= contents_docs(prev).push(
                    resource_contents_json(part@[j as int]),
                ));
                assert(contents_docs(part@.take(j + 1)) =~= contents_docs(
                    part@.take(j as int),
                ).push(resource_contents_json(part@[j as int])));
                assert(contents_docs(all@) =~= before + contents_docs(part@.take(j + 1)));
            }
        }
        proof {
            assert(part@.take(m as int) =~= part@);
            lemma_flat_contents_step(parts@, i as int);
            assert(contents_docs(all@) =~= flat_contents_docs(parts@.take(i + 1)));
        }
    }
    proof {
        assert(parts@.take(n as int) =~= parts@);
    }
    if all.len() == 0 {
        return error_response(&McpError::ResourceNotFound(uri), id);
    }
    let result = crate::protocol::ResourcesReadResult { contents: all };
    let doc = result.to_json();
    proof {
        assert(crate::protocol::resources_read_result_json(result) =~~= resources_read_json(
            parts@,
        ));
    }
    ok_response(doc, id)
}

/// The result document of `tools/list`: every registered tool, in
/// registration order, and never a next cursor.
pub open spec fn tools_list_json(ts: Seq<Tool>) -> JsonData {
    JsonData::Obj(seq![("tools"@, JsonData::Arr(Seq::new(ts.len(), |i: int| tool_json(ts[i]))))])
}

/// Finishes `tools/list` from the registry.
#[verifier::loop_isolation(false)]
pub fn tools_list_response(tools: &Vec<Tool>, id: &Option<RequestId>) -> (r: JsonRpcResponse)
    ensures
        r@ == success_data(tools_list_json(tools@), id.deep_view()),
{
    let mut elems: Vec<JsonValue> = Vec::new();
    let n = tools.len();
    for i in 0..n
        invariant
            n == tools.len(),
            elems.len() == i,
            forall|k: int| 0 <= k < i ==> (#[trigger] elems@[k])@ == tool_json(tools@[k]),
        decreases n - i,
    {
        elems.push(tools[i].to_json());
    }
    let mut members: Vec<(String, JsonValue)> = Vec::new();
    proof {
        assert(crate::json::jd_seq(elems@) =~= Seq::new(
            tools@.len(),
            |i: int| tool_json(tools@[i]),
        ));
    }
    let arr = JsonValue::Array(elems);
    members.push(("tools".to_owned(), arr));
    let doc = JsonValue::Object(members);
    proof {
        assert(jd_members(doc->Object_0@) =~= tools_list_json(tools@)->Obj_0);
    }
    ok_response(doc, id)
}

/// The result document of `prompts/list`: every registered prompt, in
/// registration order, and never a next cursor.
pub open spec fn prompts_list_json(ps: Seq<crate::protocol::Prompt>) -> JsonData {
    JsonData::Obj(
        seq![("prompts"@, JsonData::Arr(Seq::new(ps.len(), |i: int| prompt_json(ps[i]))))],
    )
}

/// Finishes `prompts/list` from the registry.
#[verifier::loop_isolation(false)]
pub fn prompts_list_response(prompts: &Vec<crate::protocol::Prompt>, id: &Option<RequestId>) -> (r:
    JsonRpcResponse)
    ensures
        r@ == success_data(prompts_list_json(prompts@), id.deep_view()),
{
    let mut elems: Vec<JsonValue> = Vec::new();
    let n = prompts.len();
    for i in 0..n
        invariant
            n == prompts.len(),
            elems.len() == i,
            forall|k: int| 0 <= k < i ==> (#[trigger] elems@[k])@ == prompt_json(prompts@[k]),
        decreases n - i,
    {
        elems.push(prompts[i].to_json());
    }
    let mut members: Vec<(String, JsonValue)> = Vec::new();
    proof {
        assert(crate::json::jd_seq(elems@) =~= Seq::new(
            prompts@.len(),
            |i: int| prompt_json(prompts@[i]),
        ));
    }
    let arr = JsonValue::Array(elems);
    members.push(("prompts".to_owned(), arr));
    let doc = JsonValue::Object(members);
    proof {
        assert(jd_members(doc->Object_0@) =~= prompts_list_json(prompts@)->Obj_0);
    }
    ok_response(doc, id)
}

// ===========================================================================
// Routing
// ===========================================================================

/// What the dispatcher decided for one message: either a finished response
/// or the handler invocation the application owes before one of the
/// response builders above can finish the call.
#[derive(Debug, PartialEq, Eq)]
pub enum RouteStep {
    /// The response is complete.
    Done(JsonRpcResponse),
    /// Invoke the tool handler registered under `name` with these
    /// arguments, then call `tools_call_response`.
    NeedTool { name: String, arguments: Vec<(String, JsonValue)> },
    /// Invoke the prompt handler registered under `name`, then call
    /// `prompts_get_response`.
    NeedPrompt { name: String, arguments: Option<Vec<(String, String)>> },
    /// Invoke every provider's list handler with this cursor, in
    /// registration order, then call `resources_list_response`.
    NeedResourceList { cursor: Option<String> },
    /// Invoke every provider's read handler with this URI, in registration
    /// order, then call `resources_read_response`.
    NeedResourceRead { uri: String },
}

/// The error a structurally invalid message is rejected with: a bad
/// version tag outranks an empty method.
pub open spec fn validate_err(req: ReqData) -> crate::jsonrpc::ErrData {
    if req.jsonrpc != "2.0"@ {
        plain_err(crate::error_codes::INVALID_REQUEST as int, "Invalid JSON-RPC version"@)
    } else {
        plain_err(crate::error_codes::INVALID_REQUEST as int, "Method cannot be empty"@)
    }
}

/// A protocol version the handshake accepts: one of the two supported
/// year prefixes.
pub open spec fn version_supported(v: Seq<char>) -> bool {
    (v.len() >= 5 && v.take(5) == "2024-"@) || (v.len() >= 5 && v.take(5) == "2025-"@)
}

/// The result document of a successful `initialize`: the echoed protocol
/// version, the frozen capability set, and the server identity.
pub open spec fn init_success_json(server: HttpMcpServer, version: Seq<char>) -> JsonData {
    JsonData::Obj(
        seq![
            ("protocolVersion"@, JsonData::Str(version)),
            ("capabilities"@, server_caps_json(server.capabilities)),
            ("serverInfo"@, implementation_json(server.server_info)),
        ],
    )
}

/// The response `initialize` produces: invalid parameters are rejected
/// with the invalid-params error; an unsupported protocol version with
/// InvalidRequest naming the version; a supported one succeeds with the
/// capability set and server identity.
pub open spec fn initialize_data(server: HttpMcpServer, req: ReqData) -> crate::jsonrpc::RespData {
    match parse_initialize_spec(req.params) {
        None => error_data(
            plain_err(crate::error_codes::INVALID_PARAMS as int, "Invalid initialize params"@),
            req.id,
        ),
        Some(p) => if version_supported(p.0) {
            success_data(init_success_json(server, p.0), req.id)
        } else {
            error_data(
                plain_err(
                    crate::error_codes::INVALID_REQUEST as int,
                    "Unsupported protocol version: "@ + p.0,
                ),
                req.id,
            )
        },
    }
}

/// Whether some registered tool bears this name.
fn find_tool(tools: &Vec<Tool>, name: &str) -> (r: bool)
    ensures
        r == has_id(tool_names(tools@), name@),
{
    let n = tools.len();
    for i in 0..n
        invariant
            n == tools.len(),
            forall|j: int| 0 <= j < i ==> (#[trigger] tools@[j]).name@ != name@,
        decreases n - i,
    {
        if str_eq(tools[i].name.as_str(), name) {
            proof {
                assert(tool_names(tools@)[i as int] == name@);
            }
            return true;
        }
    }
    proof {
        assert(!has_id(tool_names(tools@), name@)) by {
            if has_id(tool_names(tools@), name@) {
                let i = choose|i: int|
                    0 <= i < tool_names(tools@).len() && tool_names(tools@)[i] == name@;
                assert(tools@[i].name@ != name@);
            }
        }
    }
    false
}

/// Whether some registered prompt bears this name.
fn find_prompt(prompts: &Vec<crate::protocol::Prompt>, name: &str) -> (r: bool)
    ensures
        r == has_id(prompt_names(prompts@), name@),
{
    let n = prompts.len();
    for i in 0..n
        invariant
            n == prompts.len(),
            forall|j: int| 0 <= j < i ==> (#[trigger] prompts@[j]).name@ != name@,
        decreases n - i,
    {
        if str_eq(prompts[i].name.as_str(), name) {
            proof {
                assert(prompt_names(prompts@)[i as int] == name@);
            }
            return true;
        }
    }
    proof {
        assert(!has_id(prompt_names(prompts@), name@)) by {
            if has_id(prompt_names(prompts@), name@) {
                let i = choose|i: int|
                    0 <= i < prompt_names(prompts@).len() && prompt_names(prompts@)[i] == name@;
                assert(prompts@[i].name@ != name@);
            }
        }
    }
    false
}

/// An empty-object success response echoing `id`.
fn empty_ok(id: &Option<RequestId>) -> (r: JsonRpcResponse)
    ensures
        r@ == success_data(empty_obj(), id.deep_view()),
{
    let members: Vec<(String, JsonValue)> = Vec::new();
    let doc = JsonValue::Object(members);
    proof {
        assert(jd_members(doc->Object_0@) =~= Seq::<(Seq<char>, JsonData)>::empty());
    }
    ok_response(doc, id)
}

/// The dispatcher's guarantee for `resources/read`.
pub open spec fn resources_read_post(req: ReqData, r: RouteStep) -> bool {
    match parse_resources_read_spec(req.params) {
        Some(uri) => r matches RouteStep::NeedResourceRead { uri: u } && u@ == uri,
        None => r matches RouteStep::Done(resp) && resp@ == error_data(
            plain_err(crate::error_codes::INVALID_PARAMS as int, "Invalid params"@),
            req.id,
        ),
    }
}

/// The dispatcher's guarantee for `tools/list`.
pub open spec fn tools_list_post(server: HttpMcpServer, req: ReqData, r: RouteStep) -> bool {
    r matches RouteStep::Done(resp) && resp@ == success_data(tools_list_json(server.tools@), req.id)
}

/// The dispatcher's guarantee for `tools/call`: bad parameters are
/// rejected; an unregistered name yields the tool-not-found error, whose
/// code is the method-not-found code and whose data identifies the
/// requested tool name; a registered one is handed to the application.
pub open spec fn tools_call_post(server: HttpMcpServer, req: ReqData, r: RouteStep) -> bool {
    match parse_tools_call_spec(req.params) {
        Some(p) => if has_id(tool_names(server.tools@), p.0) {
            r matches RouteStep::NeedTool { name, arguments } && name@ == p.0 && jd_members(
                arguments@,
            ) == p.1
        } else {
            r matches RouteStep::Done(resp) && resp@ == error_data(
                jsonrpc_error_of(McpErrData::ToolNotFnd(p.0)),
                req.id,
            )
        },
        None => r matches RouteStep::Done(resp) && resp@ == error_data(
            plain_err(crate::error_codes::INVALID_PARAMS as int, "Invalid params"@),
            req.id,
        ),
    }
}

/// The method names of equal length are still distinct character
/// sequences.
proof fn lemma_method_names_distinct()
    ensures
        "initialize"@ != "tools/list"@,
        "initialize"@ != "tools/call"@,
        "tools/list"@ != "tools/call"@,
        "resources/list"@ != "resources/read"@,
{
    reveal_strlit("initialize");
    reveal_strlit("tools/list");
    reveal_strlit("tools/call");
    reveal_strlit("resources/list");
    reveal_strlit("resources/read");
    assert("initialize"@[0] != "tools/list"@[0]);
    assert("initialize"@[0] != "tools/call"@[0]);
    assert("tools/list"@[6] != "tools/call"@[6]);
    assert("resources/list"@[10] != "resources/read"@[10]);
}

/// Routes one parsed message. Structural validation comes first: a message
/// whose version tag is not the fixed literal, or whose method is empty,
/// is rejected with InvalidRequest before any method-specific logic runs.
/// A valid message is dispatched on its method name; an unrecognized
/// method fails with the method-not-found error carrying the method name,
/// and an unregistered tool or prompt with the corresponding not-found
/// error whose data identifies the requested name.
#[verifier::rlimit(100)]
pub fn route_request(server: &HttpMcpServer, req: &JsonRpcRequest) -> (r: RouteStep)
    ensures
        !req_structurally_valid(req@) ==> (r matches RouteStep::Done(resp) && resp@ == error_data(
            validate_err(req@),
            req@.id,
        )),
        req_structurally_valid(req@) && req@.method == "initialize"@ ==> (r
            matches RouteStep::Done(resp) && resp@ == initialize_data(*server, req@)),
        req_structurally_valid(req@) && req@.method == "ping"@ ==> (r matches RouteStep::Done(resp)
            && resp@ == success_data(empty_obj(), req@.id)),
        req_structurally_valid(req@) && req@.method == "notifications/initialized"@ ==> (r
            matches RouteStep::Done(resp) && resp@ == success_data(empty_obj(), req@.id)),
        req_structurally_valid(req@) && req@.method == "resources/list"@ ==> (r
            matches RouteStep::NeedResourceList { cursor } && cursor.deep_view()
            == parse_cursor_spec(req@.params)),
        req_structurally_valid(req@) && req@.method == "resources/read"@ ==> resources_read_post(
            req@,
            r,
        ),
        req_structurally_valid(req@) && req@.method == "resources/templates/list"@ ==> (r
            matches RouteStep::Done(resp) && resp@ == success_data(
            JsonData::Obj(seq![("resourceTemplates"@, JsonData::Arr(Seq::empty()))]),
            req@.id,
        )),
        req_structurally_valid(req@) && req@.method == "resources/subscribe"@ ==> (r
            matches RouteStep::Done(resp) && resp@ == success_data(JsonData::Null, req@.id)),
        req_structurally_valid(req@) && req@.method == "tools/list"@ ==> tools_list_post(
            *server,
            req@,
            r,
        ),
        req_structurally_valid(req@) && req@.method == "tools/call"@ ==> tools_call_post(
            *server,
            req@,
            r,
        ),
        req_structurally_valid(req@) && req@.method == "prompts/list"@ ==> (r
            matches RouteStep::Done(resp) && resp@ == success_data(
            prompts_list_json(server.prompts@),
            req@.id,
        )),
        req_structurally_valid(req@) && req@.method == "prompts/get"@ ==> (match
            parse_prompts_get_spec(req@.params) {
            Some(p) => if has_id(prompt_names(server.prompts@), p.0) {
                r matches RouteStep::NeedPrompt { name, arguments } && name@ == p.0 && (match (
                    arguments,
                    p.1,
                ) {
                    (Some(pairs), Some(sp)) => Seq::new(
                        pairs@.len(),
                        |i: int| (pairs@[i].0@, pairs@[i].1@),
                    ) == sp,
                    (None, None) => true,
                    _ => false,
                })
            } else {
                r matches RouteStep::Done(resp) && resp@ == error_data(
                    jsonrpc_error_of(McpErrData::PromptNotFnd(p.0)),
                    req@.id,
                )
            },
            None => r matches RouteStep::Done(resp) && resp@ == error_data(
                plain_err(crate::error_codes::INVALID_PARAMS as int, "Invalid params"@),
                req@.id,
            ),
        }),
        req_structurally_valid(req@) && req@.method == "logging/setLevel"@ ==> (match
            parse_log_level_spec(req@.params) {
            Some(_) => r matches RouteStep::Done(resp) && resp@ == success_data(
                empty_obj(),
                req@.id,
            ),
            None => r matches RouteStep::Done(resp) && resp@ == error_data(
                plain_err(crate::error_codes::INVALID_PARAMS as int, "Invalid params"@),
                req@.id,
            ),
        }),
        req_structurally_valid(req@) && !recognized_method(req@.method) ==> (r
            matches RouteStep::Done(resp) && resp@ == error_data(
            jsonrpc_error_of(McpErrData::MethodNotFnd(req@.method)),
            req@.id,
        )),
{
    proof {
        lemma_method_names_distinct();
        reveal_strlit("initialize");
        reveal_strlit("ping");
        reveal_strlit("notifications/initialized");
        reveal_strlit("resources/list");
        reveal_strlit("resources/read");
        reveal_strlit("resources/templates/list");
        reveal_strlit("resources/subscribe");
        reveal_strlit("tools/list");
        reveal_strlit("tools/call");
        reveal_strlit("prompts/list");
        reveal_strlit("prompts/get");
        reveal_strlit("logging/setLevel");
    }
    match req.validate() {
        Ok(_) => {},
        Err(e) => {
            return RouteStep::Done(JsonRpcResponse::error(e, clone_id(&req.id)));
        },
    }
    let m = req.method.as_str();
    if str_eq(m, "initialize") {
        RouteStep::Done(initialize_response(server, req))
    } else if str_eq(m, "ping") {
        RouteStep::Done(empty_ok(&req.id))
    } else if str_eq(m, "notifications/initialized") {
        RouteStep::Done(empty_ok(&req.id))
    } else if str_eq(m, "resources/list") {
        RouteStep::NeedResourceList { cursor: parse_cursor(&req.params) }
    } else if str_eq(m, "resources/read") {
        resources_read_step(req)
    } else if str_eq(m, "resources/templates/list") {
        RouteStep::Done(templates_response(&req.id))
    } else if str_eq(m, "resources/subscribe") {
        RouteStep::Done(ok_response(JsonValue::Null, &req.id))
    } else if str_eq(m, "tools/list") {
        RouteStep::Done(tools_list_response(&server.tools, &req.id))
    } else if str_eq(m, "tools/call") {
        tools_call_step(server, req)
    } else if str_eq(m, "prompts/list") {
        RouteStep::Done(prompts_list_response(&server.prompts, &req.id))
    } else if str_eq(m, "prompts/get") {
        prompts_get_step(server, req)
    } else if str_eq(m, "logging/setLevel") {
        match parse_log_level(&req.params) {
            Some(_) => RouteStep::Done(empty_ok(&req.id)),
            None => RouteStep::Done(
                error_response(&McpError::InvalidParams("Invalid params".to_owned()), &req.id),
            ),
        }
    } else {
        RouteStep::Done(error_response(&McpError::MethodNotFound(req.method.clone()), &req.id))
    }
}

/// Handles `initialize`: parses the parameters, checks the protocol
/// version against the two supported year prefixes, and returns the
/// capability set and server identity on success.
pub fn initialize_response(server: &HttpMcpServer, req: &JsonRpcRequest) -> (r: JsonRpcResponse)
    ensures
        r@ == initialize_data(*server, req@),
{
    proof {
        reveal_strlit("2024-");
        reveal_strlit("2025-");
    }
    match parse_initialize(&req.params) {
        None => error_response(
            &McpError::InvalidParams("Invalid initialize params".to_owned()),
            &req.id,
        ),
        Some(p) => {
            if str_starts_with(p.protocol_version.as_str(), "2024-") || str_starts_with(
                p.protocol_version.as_str(),
                "2025-",
            ) {
                let mut members: Vec<(String, JsonValue)> = Vec::new();
                members.push(("protocolVersion".to_owned(), JsonValue::Str(p.protocol_version)));
                members.push(("capabilities".to_owned(), server.capabilities.to_json()));
                members.push(("serverInfo".to_owned(), server.server_info.to_json()));
                let doc = JsonValue::Object(members);
                proof {
                    assert(jd_members(doc->Object_0@) =~= init_success_json(
                        *server,
                        parse_initialize_spec(req@.params).unwrap().0,
                    )->Obj_0);
                }
                ok_response(doc, &req.id)
            } else {
                let message = "Unsupported protocol version: ".to_owned().concat(
                    p.protocol_version.as_str(),
                );
                error_response(&McpError::InvalidRequest(message), &req.id)
            }
        },
    }
}

/// Handles `resources/read` up to the handler boundary.
pub fn resources_read_step(req: &JsonRpcRequest) -> (r: RouteStep)
    ensures
        match parse_resources_read_spec(req@.params) {
            Some(uri) => r matches RouteStep::NeedResourceRead { uri: u } && u@ == uri,
            None => r matches RouteStep::Done(resp) && resp@ == error_data(
                plain_err(crate::error_codes::INVALID_PARAMS as int, "Invalid params"@),
                req@.id,
            ),
        },
{
    match parse_resources_read(&req.params) {
        Some(uri) => RouteStep::NeedResourceRead { uri },
        None => RouteStep::Done(
            error_response(&McpError::InvalidParams("Invalid params".to_owned()), &req.id),
        ),
    }
}

/// The constant `resources/templates/list` result: templates are not
/// supported, so the list is empty.
pub fn templates_response(id: &Option<RequestId>) -> (r: JsonRpcResponse)
    ensures
        r@ == success_data(
            JsonData::Obj(seq![("resourceTemplates"@, JsonData::Arr(Seq::empty()))]),
            id.deep_view(),
        ),
{
    let mut members: Vec<(String, JsonValue)> = Vec::new();
    let inner: Vec<JsonValue> = Vec::new();
    proof {
        assert(crate::json::jd_seq(inner@) =~= Seq::<JsonData>::empty());
    }
    members.push(("resourceTemplates".to_owned(), JsonValue::Array(inner)));
    let doc = JsonValue::Object(members);
    proof {
        assert(jd_members(doc->Object_0@) =~= seq![
            ("resourceTemplates"@, JsonData::Arr(Seq::<JsonData>::empty())),
        ]);
    }
    ok_response(doc, id)
}

/// Handles `tools/call` up to the handler boundary: bad parameters are
/// rejected, an unregistered name fails with the tool-not-found error
/// naming the tool, and a registered one is handed to the application.
pub fn tools_call_step(server: &HttpMcpServer, req: &JsonRpcRequest) -> (r: RouteStep)
    ensures
        match parse_tools_call_spec(req@.params) {
            Some(p) => if has_id(tool_names(server.tools@), p.0) {
                r matches RouteStep::NeedTool { name, arguments } && name@ == p.0 && jd_members(
                    arguments@,
                ) == p.1
            } else {
                r matches RouteStep::Done(resp) && resp@ == error_data(
                    jsonrpc_error_of(McpErrData::ToolNotFnd(p.0)),
                    req@.id,
                )
            },
            None => r matches RouteStep::Done(resp) && resp@ == error_data(
                plain_err(crate::error_codes::INVALID_PARAMS as int, "Invalid params"@),
                req@.id,
            ),
        },
{
    match parse_tools_call(&req.params) {
        Some(p) => {
            if find_tool(&server.tools, p.0.as_str()) {
                RouteStep::NeedTool { name: p.0, arguments: p.1 }
            } else {
                RouteStep::Done(error_response(&McpError::ToolNotFound(p.0), &req.id))
            }
        },
        None => RouteStep::Done(
            error_response(&McpError::InvalidParams("Invalid params".to_owned()), &req.id),
        ),
    }
}

/// Handles `prompts/get` up to the handler boundary, in the same shape as
/// `tools_call_step`.
pub fn prompts_get_step(server: &HttpMcpServer, req: &JsonRpcRequest) -> (r: RouteStep)
    ensures
        match parse_prompts_get_spec(req@.params) {
            Some(p) => if has_id(prompt_names(server.prompts@), p.0) {
                r matches RouteStep::NeedPrompt { name, arguments } && name@ == p.0 && (match (
                    arguments,
                    p.1,
                ) {
                    (Some(pairs), Some(sp)) => Seq::new(
                        pairs@.len(),
                        |i: int| (pairs@[i].0@, pairs@[i].1@),
                    ) == sp,
                    (None, None) => true,
                    _ => false,
                })
            } else {
                r matches RouteStep::Done(resp) && resp@ == error_data(
                    jsonrpc_error_of(McpErrData::PromptNotFnd(p.0)),
                    req@.id,
                )
            },
            None => r matches RouteStep::Done(resp) && resp@ == error_data(
                plain_err(crate::error_codes::INVALID_PARAMS as int, "Invalid params"@),
                req@.id,
            ),
        },
{
    match parse_prompts_get(&req.params) {
        Some(p) => {
            if find_prompt(&server.prompts, p.0.as_str()) {
                RouteStep::NeedPrompt { name: p.0, arguments: p.1 }
            } else {
                RouteStep::Done(error_response(&McpError::PromptNotFound(p.0), &req.id))
            }
        },
        None => RouteStep::Done(
            error_response(&McpError::InvalidParams("Invalid params".to_owned()), &req.id),
        ),
    }
}



/// The method names the dispatcher recognizes.
pub open spec fn recognized_method(m: Seq<char>) -> bool {
    ||| m == "initialize"@
    ||| m == "ping"@
    ||| m == "notifications/initialized"@
    ||| m == "resources/list"@
    ||| m == "resources/read"@
    ||| m == "resources/templates/list"@
    ||| m == "resources/subscribe"@
    ||| m == "tools/list"@
    ||| m == "tools/call"@
    ||| m == "prompts/list"@
    ||| m == "prompts/get"@
    ||| m == "logging/setLevel"@
}

// ===========================================================================
// Laws
// ===========================================================================

/// For any set of registered tool names, `tools/list` returns exactly that
/// set, with no duplicates, independent of registration order: the i-th
/// listed document's `name` field is the i-th registered name, no name is
/// listed twice, and the set of listed names is precisely the set of names
/// some registered tool bears.
pub proof fn lemma_tools_list_names(server: HttpMcpServer)
    requires
        server.wf(),
    ensures
        forall|i: int|
            0 <= i < server.tools@.len() ==> json_field(
                #[trigger] tool_json(server.tools@[i]),
                "name"@,
            ) == Some(JsonData::Str(tool_names(server.tools@)[i])),
        forall|i: int, j: int|
            0 <= i < j < server.tools@.len() ==> tool_names(server.tools@)[i] != tool_names(
                server.tools@,
            )[j],
        forall|n: Seq<char>|
            #[trigger] tool_names(server.tools@).to_set().contains(n) <==> has_id(
                tool_names(server.tools@),
                n,
            ),
{
    assert forall|i: int| 0 <= i < server.tools@.len() implies json_field(
        #[trigger] tool_json(server.tools@[i]),
        "name"@,
    ) == Some(JsonData::Str(tool_names(server.tools@)[i])) by {
        let t = server.tools@[i];
        let d = tool_json(t);
        assert(d->Obj_0[0] == ("name"@, JsonData::Str(t.name@)));
    }
    assert forall|n: Seq<char>|
        #[trigger] tool_names(server.tools@).to_set().contains(n) <==> has_id(
        tool_names(server.tools@),
        n,
    ) by {
        let names = tool_names(server.tools@);
        if names.to_set().contains(n) {
            let i = choose|i: int| 0 <= i < names.len() && names[i] == n;
            assert(has_id(names, n));
        }
        if has_id(names, n) {
            let i = choose|i: int| 0 <= i < names.len() && names[i] == n;
            assert(names.contains(n));
        }
    }
}

/// `tools/call` with an unregistered name returns an error whose code is
/// the method-not-found code and whose data identifies the requested tool
/// name.
pub proof fn lemma_unknown_tool_error(name: Seq<char>)
    ensures
        jsonrpc_error_of(McpErrData::ToolNotFnd(name)).code
            == crate::error_codes::METHOD_NOT_FOUND as int,
        jsonrpc_error_of(McpErrData::ToolNotFnd(name)).data == Some(
            crate::error::one_member_obj("tool"@, name),
        ),
{
}

// ===========================================================================
// Content negotiation
// ===========================================================================

/// Whether an `accept` header value asks for streaming delivery: it
/// mentions the event-stream media type.
pub fn wants_event_stream(accept: &str) -> (r: bool)
    ensures
        r == crate::json::has_substring(accept@, "text/event-stream"@),
{
    crate::json::str_contains(accept, "text/event-stream")
}

/// Whether a `content-type` header value is acceptable for the protocol
/// endpoint: it mentions the JSON media type.
pub fn content_type_acceptable(content_type: &str) -> (r: bool)
    ensures
        r == crate::json::has_substring(content_type@, "application/json"@),
{
    crate::json::str_contains(content_type, "application/json")
}

} // verus!
