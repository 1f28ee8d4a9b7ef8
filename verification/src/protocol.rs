//! The protocol's data shapes: initialization, capabilities, resources,
//! tools, prompts, and logging. Each response shape knows how to render
//! itself as a JSON document; the contracts pin the exact member lists.

use vstd::prelude::*;
use vstd::string::*;

use crate::json::{jd_seq, jd_members, JsonData, JsonValue};

verus! {

broadcast use
    crate::json::lemma_jd_seq_index,
    crate::json::lemma_jd_seq_len,
    crate::json::lemma_jd_members_index,
    crate::json::lemma_jd_members_len,
    vstd::std_specs::vec::group_vec_axioms,
;

// ===========================================================================
// Initialization
// ===========================================================================

/// The parameters of an `initialize` request.
#[derive(Debug, Clone, PartialEq, Eq)]
pub struct InitializeParams {
    pub protocol_version: String,
    pub capabilities: ClientCapabilities,
    pub client_info: Implementation,
}

/// The result of a successful `initialize` request.
#[derive(Debug, Clone, PartialEq, Eq)]
pub struct InitializeResult {
    pub protocol_version: String,
    pub capabilities: ServerCapabilities,
    pub server_info: Implementation,
}

/// A party's identity: name and version.
#[derive(Debug, PartialEq, Eq)]
pub struct Implementation {
    pub name: String,
    pub version: String,
}

impl Clone for Implementation {
    /// A clone reads the same and renders the same document.
    fn clone(&self) -> (r: Self)
        ensures
            r.name@ == self.name@,
            r.version@ == self.version@,
            implementation_json(r) == implementation_json(*self),
    {
        let r = Implementation { name: self.name.clone(), version: self.version.clone() };
        proof {
            assert(implementation_json(r) =~~= implementation_json(*self));
        }
        r
    }
}

// ===========================================================================
// Capabilities
// ===========================================================================

/// What the client declares it supports.
#[derive(Debug, Clone, Copy, PartialEq, Eq, Default, Structural)]
pub struct ClientCapabilities {
    pub roots: Option<RootsCapability>,
    pub sampling: Option<SamplingCapability>,
}

/// The frozen capability snapshot the server advertises.
#[derive(Debug, Clone, Copy, PartialEq, Eq, Default, Structural)]
pub struct ServerCapabilities {
    pub logging: Option<LoggingCapability>,
    pub prompts: Option<PromptsCapability>,
    pub resources: Option<ResourcesCapability>,
    pub tools: Option<ToolsCapability>,
}

#[derive(Debug, Clone, Copy, PartialEq, Eq, Default, Structural)]
pub struct RootsCapability {
    pub list_changed: Option<bool>,
}

#[derive(Debug, Clone, Copy, PartialEq, Eq, Default, Structural)]
pub struct SamplingCapability {}

#[derive(Debug, Clone, Copy, PartialEq, Eq, Default, Structural)]
pub struct LoggingCapability {}

#[derive(Debug, Clone, Copy, PartialEq, Eq, Default, Structural)]
pub struct PromptsCapability {
    pub list_changed: Option<bool>,
}

#[derive(Debug, Clone, Copy, PartialEq, Eq, Default, Structural)]
pub struct ResourcesCapability {
    pub subscribe: Option<bool>,
    pub list_changed: Option<bool>,
}

#[derive(Debug, Clone, Copy, PartialEq, Eq, Default, Structural)]
pub struct ToolsCapability {
    pub list_changed: Option<bool>,
}

// ===========================================================================
// Resources
// ===========================================================================

/// The parameters of `resources/list`.
#[derive(Debug, Clone, PartialEq, Eq)]
pub struct ResourcesListParams {
    pub cursor: Option<String>,
}

/// The result of `resources/list`.
#[derive(Debug, Clone, PartialEq, Eq)]
pub struct ResourcesListResult {
    pub resources: Vec<Resource>,
    pub next_cursor: Option<String>,
}

/// One listable resource.
#[derive(Debug, PartialEq, Eq)]
pub struct Resource {
    pub uri: String,
    pub name: String,
    pub description: Option<String>,
    pub mime_type: Option<String>,
}

impl Clone for Resource {
    /// A clone reads the same and renders the same document.
    fn clone(&self) -> (r: Self)
        ensures
            r.uri@ == self.uri@,
            r.name@ == self.name@,
            r.description.deep_view() == self.description.deep_view(),
            r.mime_type.deep_view() == self.mime_type.deep_view(),
            resource_json(r) == resource_json(*self),
    {
        let r = Resource {
            uri: self.uri.clone(),
            name: self.name.clone(),
            description: match &self.description {
                Some(d) => Some(d.clone()),
                None => None,
            },
            mime_type: match &self.mime_type {
                Some(m) => Some(m.clone()),
                None => None,
            },
        };
        proof {
            assert(resource_json(r) =~~= resource_json(*self));
        }
        r
    }
}

/// The parameters of `resources/read`.
#[derive(Debug, Clone, PartialEq, Eq)]
pub struct ResourcesReadParams {
    pub uri: String,
}

/// The result of `resources/read`.
#[derive(Debug, Clone, PartialEq, Eq)]
pub struct ResourcesReadResult {
    pub contents: Vec<ResourceContents>,
}

/// The contents of one resource: text or a base64 blob.
#[derive(Debug, PartialEq, Eq)]
pub struct ResourceContents {
    pub uri: String,
    pub mime_type: Option<String>,
    pub text: Option<String>,
    pub blob: Option<String>,
}

impl Clone for ResourceContents {
    /// A clone reads the same and renders the same document.
    fn clone(&self) -> (r: Self)
        ensures
            r.uri@ == self.uri@,
            r.mime_type.deep_view() == self.mime_type.deep_view(),
            r.text.deep_view() == self.text.deep_view(),
            r.blob.deep_view() == self.blob.deep_view(),
            resource_contents_json(r) == resource_contents_json(*self),
    {
        let r = ResourceContents {
            uri: self.uri.clone(),
            mime_type: match &self.mime_type {
                Some(m) => Some(m.clone()),
                None => None,
            },
            text: match &self.text {
                Some(t) => Some(t.clone()),
                None => None,
            },
            blob: match &self.blob {
                Some(b) => Some(b.clone()),
                None => None,
            },
        };
        proof {
            assert(resource_contents_json(r) =~~= resource_contents_json(*self));
        }
        r
    }
}

/// A URI template for dynamic resources.
#[derive(Debug, Clone, PartialEq, Eq)]
pub struct ResourceTemplate {
    pub uri_template: String,
    pub name: String,
    pub description: Option<String>,
    pub mime_type: Option<String>,
}

// ===========================================================================
// Tools
// ===========================================================================

/// The result of `tools/list`.
#[derive(Debug, Clone, PartialEq, Eq)]
pub struct ToolsListResult {
    pub tools: Vec<Tool>,
    pub next_cursor: Option<String>,
}

/// One callable tool: its name, description, and input schema.
#[derive(Debug, Clone, PartialEq, Eq)]
pub struct Tool {
    pub name: String,
    pub description: Option<String>,
    pub input_schema: JsonValue,
}

/// The parameters of `tools/call`.
#[derive(Debug, Clone, PartialEq, Eq)]
pub struct ToolsCallParams {
    pub name: String,
    pub arguments: Option<Vec<(String, JsonValue)>>,
}

/// The result of `tools/call`.
#[derive(Debug, Clone, PartialEq, Eq)]
pub struct ToolsCallResult {
    pub content: Vec<ToolContent>,
    pub is_error: Option<bool>,
}

/// One item of tool output.
#[derive(Debug, Clone, PartialEq, Eq)]
pub enum ToolContent {
    Text { text: String },
    Image { data: String, mime_type: String },
    Resource { resource: ResourceContents },
}

// ===========================================================================
// Prompts
// ===========================================================================

/// The parameters of `prompts/list`.
#[derive(Debug, Clone, PartialEq, Eq)]
pub struct PromptsListParams {
    pub cursor: Option<String>,
}

/// The result of `prompts/list`.
#[derive(Debug, Clone, PartialEq, Eq)]
pub struct PromptsListResult {
    pub prompts: Vec<Prompt>,
    pub next_cursor: Option<String>,
}

/// One retrievable prompt.
#[derive(Debug, Clone, PartialEq, Eq)]
pub struct Prompt {
    pub name: String,
    pub description: Option<String>,
    pub arguments: Option<Vec<PromptArgument>>,
}

/// One declared prompt argument.
#[derive(Debug, Clone, PartialEq, Eq)]
pub struct PromptArgument {
    pub name: String,
    pub description: Option<String>,
    pub required: Option<bool>,
}

/// The parameters of `prompts/get`.
#[derive(Debug, Clone, PartialEq, Eq)]
pub struct PromptsGetParams {
    pub name: String,
    pub arguments: Option<Vec<(String, String)>>,
}

/// The result of `prompts/get`.
#[derive(Debug, Clone, PartialEq, Eq)]
pub struct PromptsGetResult {
    pub description: Option<String>,
    pub messages: Vec<PromptMessage>,
}

/// One role-tagged prompt message.
#[derive(Debug, Clone, PartialEq, Eq)]
pub struct PromptMessage {
    pub role: String,
    pub content: PromptContent,
}

/// The content of one prompt message: text or an inline image.
#[derive(Debug, Clone, PartialEq, Eq)]
pub enum PromptContent {
    Text { text: String },
    Image { data: String, mime_type: String },
}

// ===========================================================================
// JSON rendering
// ===========================================================================

/// Appends an optional member: the list unchanged when the value is absent.
pub open spec fn opt_member(
    m: Seq<(Seq<char>, JsonData)>,
    key: Seq<char>,
    v: Option<JsonData>,
) -> Seq<(Seq<char>, JsonData)> {
    match v {
        Some(d) => m.push((key, d)),
        None => m,
    }
}

/// An optional boolean member's document.
pub open spec fn opt_bool_json(b: Option<bool>) -> Option<JsonData> {
    match b {
        Some(v) => Some(JsonData::Bool(v)),
        None => None,
    }
}

/// The document of a party identity: `name` and `version`.
pub open spec fn implementation_json(i: Implementation) -> JsonData {
    JsonData::Obj(
        seq![("name"@, JsonData::Str(i.name@)), ("version"@, JsonData::Str(i.version@))],
    )
}

/// The logging capability document: an empty object.
pub open spec fn logging_cap_json(c: LoggingCapability) -> JsonData {
    JsonData::Obj(Seq::empty())
}

/// The prompts capability document: `listChanged` when set.
pub open spec fn prompts_cap_json(c: PromptsCapability) -> JsonData {
    JsonData::Obj(opt_member(Seq::empty(), "listChanged"@, opt_bool_json(c.list_changed)))
}

/// The resources capability document: `subscribe` and `listChanged` when set.
pub open spec fn resources_cap_json(c: ResourcesCapability) -> JsonData {
    JsonData::Obj(
        opt_member(
            opt_member(Seq::empty(), "subscribe"@, opt_bool_json(c.subscribe)),
            "listChanged"@,
            opt_bool_json(c.list_changed),
        ),
    )
}

/// The tools capability document: `listChanged` when set.
pub open spec fn tools_cap_json(c: ToolsCapability) -> JsonData {
    JsonData::Obj(opt_member(Seq::empty(), "listChanged"@, opt_bool_json(c.list_changed)))
}

/// The advertised capability set's document: each group present exactly when
/// advertised.
pub open spec fn server_caps_json(c: ServerCapabilities) -> JsonData {
    JsonData::Obj(
        opt_member(
            opt_member(
                opt_member(
                    opt_member(
                        Seq::empty(),
                        "logging"@,
                        match c.logging {
                            Some(l) => Some(logging_cap_json(l)),
                            None => None,
                        },
                    ),
                    "prompts"@,
                    match c.prompts {
                        Some(p) => Some(prompts_cap_json(p)),
                        None => None,
                    },
                ),
                "resources"@,
                match c.resources {
                    Some(r) => Some(resources_cap_json(r)),
                    None => None,
                },
            ),
            "tools"@,
            match c.tools {
                Some(t) => Some(tools_cap_json(t)),
                None => None,
            },
        ),
    )
}

/// The document of an `initialize` result: the echoed protocol version, the
/// capability set, and the server identity.
pub open spec fn initialize_result_json(r: InitializeResult) -> JsonData {
    JsonData::Obj(
        seq![
            ("protocolVersion"@, JsonData::Str(r.protocol_version@)),
            ("capabilities"@, server_caps_json(r.capabilities)),
            ("serverInfo"@, implementation_json(r.server_info)),
        ],
    )
}

impl Implementation {
    /// Renders this identity as a JSON document.
    pub fn to_json(&self) -> (r: JsonValue)
        ensures
            r@ == implementation_json(*self),
    {
        let mut members: Vec<(String, JsonValue)> = Vec::new();
        members.push(("name".to_owned(), JsonValue::Str(self.name.clone())));
        members.push(("version".to_owned(), JsonValue::Str(self.version.clone())));
        let r = JsonValue::Object(members);
        proof {
            assert(jd_members(r->Object_0@) =~= implementation_json(*self)->Obj_0);
        }
        r
    }
}

fn push_opt_bool(members: &mut Vec<(String, JsonValue)>, key: &str, v: &Option<bool>)
    ensures
        jd_members(final(members)@) == opt_member(
            jd_members(old(members)@),
            key@,
            opt_bool_json(*v),
        ),
{
    match v {
        Some(b) => {
            members.push((key.to_owned(), JsonValue::Bool(*b)));
            proof {
                assert(jd_members(members@) =~= opt_member(
                    jd_members(old(members)@),
                    key@,
                    opt_bool_json(*v),
                ));
            }
        },
        None => {},
    }
}

impl ServerCapabilities {
    /// Renders the capability set as a JSON document.
    pub fn to_json(&self) -> (r: JsonValue)
        ensures
            r@ == server_caps_json(*self),
    {
        let mut members: Vec<(String, JsonValue)> = Vec::new();
        match &self.logging {
            Some(_) => {
                let empty: Vec<(String, JsonValue)> = Vec::new();
                proof {
                    assert(jd_members(empty@) =~= Seq::<(Seq<char>, JsonData)>::empty());
                }
                members.push(("logging".to_owned(), JsonValue::Object(empty)));
            },
            None => {},
        }
        let ghost after_logging = jd_members(members@);
        match &self.prompts {
            Some(p) => {
                let mut inner: Vec<(String, JsonValue)> = Vec::new();
                proof {
                    assert(jd_members(inner@) =~= Seq::<(Seq<char>, JsonData)>::empty());
                }
                push_opt_bool(&mut inner, "listChanged", &p.list_changed);
                let cap = JsonValue::Object(inner);
                proof {
                    assert(cap@ == prompts_cap_json(*p));
                }
                members.push(("prompts".to_owned(), cap));
            },
            None => {},
        }
        let ghost after_prompts = jd_members(members@);
        match &self.resources {
            Some(rc) => {
                let mut inner: Vec<(String, JsonValue)> = Vec::new();
                proof {
                    assert(jd_members(inner@) =~= Seq::<(Seq<char>, JsonData)>::empty());
                }
                push_opt_bool(&mut inner, "subscribe", &rc.subscribe);
                push_opt_bool(&mut inner, "listChanged", &rc.list_changed);
                let cap = JsonValue::Object(inner);
                proof {
                    assert(cap@ == resources_cap_json(*rc));
                }
                members.push(("resources".to_owned(), cap));
            },
            None => {},
        }
        let ghost after_resources = jd_members(members@);
        match &self.tools {
            Some(tc) => {
                let mut inner: Vec<(String, JsonValue)> = Vec::new();
                proof {
                    assert(jd_members(inner@) =~= Seq::<(Seq<char>, JsonData)>::empty());
                }
                push_opt_bool(&mut inner, "listChanged", &tc.list_changed);
                let cap = JsonValue::Object(inner);
                proof {
                    assert(cap@ == tools_cap_json(*tc));
                }
                members.push(("tools".to_owned(), cap));
            },
            None => {},
        }
        let r = JsonValue::Object(members);
        proof {
            assert(jd_members(r->Object_0@) =~= server_caps_json(*self)->Obj_0);
        }
        r
    }
}

impl InitializeResult {
    /// Renders the `initialize` result as a JSON document.
    pub fn to_json(&self) -> (r: JsonValue)
        ensures
            r@ == initialize_result_json(*self),
    {
        let mut members: Vec<(String, JsonValue)> = Vec::new();
        members.push(
            ("protocolVersion".to_owned(), JsonValue::Str(self.protocol_version.clone())),
        );
        members.push(("capabilities".to_owned(), self.capabilities.to_json()));
        members.push(("serverInfo".to_owned(), self.server_info.to_json()));
        let r = JsonValue::Object(members);
        proof {
            assert(jd_members(r->Object_0@) =~= initialize_result_json(*self)->Obj_0);
        }
        r
    }
}

/// An optional string member's document.
pub open spec fn opt_str_json(s: Option<String>) -> Option<JsonData> {
    match s {
        Some(v) => Some(JsonData::Str(v@)),
        None => None,
    }
}

fn push_opt_str(members: &mut Vec<(String, JsonValue)>, key: &str, v: &Option<String>)
    ensures
        jd_members(final(members)@) == opt_member(
            jd_members(old(members)@),
            key@,
            opt_str_json(*v),
        ),
{
    match v {
        Some(s) => {
            members.push((key.to_owned(), JsonValue::Str(s.clone())));
            proof {
                assert(jd_members(members@) =~= opt_member(
                    jd_members(old(members)@),
                    key@,
                    opt_str_json(*v),
                ));
            }
        },
        None => {},
    }
}

/// The document of one listable resource: `uri`, `name`, then `description`
/// and `mimeType` when set.
pub open spec fn resource_json(r: Resource) -> JsonData {
    JsonData::Obj(
        opt_member(
            opt_member(
                seq![("uri"@, JsonData::Str(r.uri@)), ("name"@, JsonData::Str(r.name@))],
                "description"@,
                opt_str_json(r.description),
            ),
            "mimeType"@,
            opt_str_json(r.mime_type),
        ),
    )
}

/// The document of one resource's contents: `uri`, then `mimeType`, `text`,
/// and `blob` when set.
pub open spec fn resource_contents_json(c: ResourceContents) -> JsonData {
    JsonData::Obj(
        opt_member(
            opt_member(
                opt_member(
                    seq![("uri"@, JsonData::Str(c.uri@))],
                    "mimeType"@,
                    opt_str_json(c.mime_type),
                ),
                "text"@,
                opt_str_json(c.text),
            ),
            "blob"@,
            opt_str_json(c.blob),
        ),
    )
}

/// The document of one tool: `name`, `description` when set, `inputSchema`.
pub open spec fn tool_json(t: Tool) -> JsonData {
    JsonData::Obj(
        opt_member(
            seq![("name"@, JsonData::Str(t.name@))],
            "description"@,
            opt_str_json(t.description),
        ).push(("inputSchema"@, t.input_schema@)),
    )
}

/// The document of one item of tool output, tagged by its `type` member.
pub open spec fn tool_content_json(c: ToolContent) -> JsonData {
    match c {
        ToolContent::Text { text } => JsonData::Obj(
            seq![("type"@, JsonData::Str("text"@)), ("text"@, JsonData::Str(text@))],
        ),
        ToolContent::Image { data, mime_type } => JsonData::Obj(
            seq![
                ("type"@, JsonData::Str("image"@)),
                ("data"@, JsonData::Str(data@)),
                ("mimeType"@, JsonData::Str(mime_type@)),
            ],
        ),
        ToolContent::Resource { resource } => JsonData::Obj(
            seq![
                ("type"@, JsonData::Str("resource"@)),
                ("resource"@, resource_contents_json(resource)),
            ],
        ),
    }
}

/// The document of one declared prompt argument.
pub open spec fn prompt_argument_json(a: PromptArgument) -> JsonData {
    JsonData::Obj(
        opt_member(
            opt_member(
                seq![("name"@, JsonData::Str(a.name@))],
                "description"@,
                opt_str_json(a.description),
            ),
            "required"@,
            opt_bool_json(a.required),
        ),
    )
}

/// The document of one prompt: `name`, then `description` and the argument
/// list when set.
pub open spec fn prompt_json(p: Prompt) -> JsonData {
    JsonData::Obj(
        opt_member(
            opt_member(
                seq![("name"@, JsonData::Str(p.name@))],
                "description"@,
                opt_str_json(p.description),
            ),
            "arguments"@,
            match p.arguments {
                Some(args) => Some(
                    JsonData::Arr(
                        Seq::new(args@.len(), |i: int| prompt_argument_json(args@[i])),
                    ),
                ),
                None => None,
            },
        ),
    )
}

/// The document of one prompt message's content, tagged by its `type`
/// member.
pub open spec fn prompt_content_json(c: PromptContent) -> JsonData {
    match c {
        PromptContent::Text { text } => JsonData::Obj(
            seq![("type"@, JsonData::Str("text"@)), ("text"@, JsonData::Str(text@))],
        ),
        PromptContent::Image { data, mime_type } => JsonData::Obj(
            seq![
                ("type"@, JsonData::Str("image"@)),
                ("data"@, JsonData::Str(data@)),
                ("mimeType"@, JsonData::Str(mime_type@)),
            ],
        ),
    }
}

/// The document of one role-tagged prompt message.
pub open spec fn prompt_message_json(m: PromptMessage) -> JsonData {
    JsonData::Obj(
        seq![("role"@, JsonData::Str(m.role@)), ("content"@, prompt_content_json(m.content))],
    )
}

/// The document of a `resources/list` result: all descriptors, and a next
/// cursor only when one is set.
pub open spec fn resources_list_result_json(r: ResourcesListResult) -> JsonData {
    JsonData::Obj(
        opt_member(
            seq![
                (
                    "resources"@,
                    JsonData::Arr(
                        Seq::new(r.resources@.len(), |i: int| resource_json(r.resources@[i])),
                    ),
                ),
            ],
            "nextCursor"@,
            opt_str_json(r.next_cursor),
        ),
    )
}

/// The document of a `resources/read` result: the concatenated contents.
pub open spec fn resources_read_result_json(r: ResourcesReadResult) -> JsonData {
    JsonData::Obj(
        seq![
            (
                "contents"@,
                JsonData::Arr(
                    Seq::new(
                        r.contents@.len(),
                        |i: int| resource_contents_json(r.contents@[i]),
                    ),
                ),
            ),
        ],
    )
}

/// The document of a `tools/list` result.
pub open spec fn tools_list_result_json(r: ToolsListResult) -> JsonData {
    JsonData::Obj(
        opt_member(
            seq![
                ("tools"@, JsonData::Arr(Seq::new(r.tools@.len(), |i: int| tool_json(r.tools@[i])))),
            ],
            "nextCursor"@,
            opt_str_json(r.next_cursor),
        ),
    )
}

/// The document of a `tools/call` result: the content items, and `isError`
/// only when set.
pub open spec fn tools_call_result_json(r: ToolsCallResult) -> JsonData {
    JsonData::Obj(
        opt_member(
            seq![
                (
                    "content"@,
                    JsonData::Arr(
                        Seq::new(r.content@.len(), |i: int| tool_content_json(r.content@[i])),
                    ),
                ),
            ],
            "isError"@,
            opt_bool_json(r.is_error),
        ),
    )
}

/// The document of a `prompts/list` result.
pub open spec fn prompts_list_result_json(r: PromptsListResult) -> JsonData {
    JsonData::Obj(
        opt_member(
            seq![
                (
                    "prompts"@,
                    JsonData::Arr(Seq::new(r.prompts@.len(), |i: int| prompt_json(r.prompts@[i]))),
                ),
            ],
            "nextCursor"@,
            opt_str_json(r.next_cursor),
        ),
    )
}

/// The document of a `prompts/get` result: the description when set, then
/// the ordered messages.
pub open spec fn prompts_get_result_json(r: PromptsGetResult) -> JsonData {
    JsonData::Obj(
        opt_member(Seq::empty(), "description"@, opt_str_json(r.description)).push(
            (
                "messages"@,
                JsonData::Arr(
                    Seq::new(r.messages@.len(), |i: int| prompt_message_json(r.messages@[i])),
                ),
            ),
        ),
    )
}

impl Resource {
    /// Renders this descriptor as a JSON document.
    pub fn to_json(&self) -> (r: JsonValue)
        ensures
            r@ == resource_json(*self),
    {
        let mut members: Vec<(String, JsonValue)> = Vec::new();
        members.push(("uri".to_owned(), JsonValue::Str(self.uri.clone())));
        members.push(("name".to_owned(), JsonValue::Str(self.name.clone())));
        push_opt_str(&mut members, "description", &self.description);
        push_opt_str(&mut members, "mimeType", &self.mime_type);
        let r = JsonValue::Object(members);
        proof {
            assert(jd_members(r->Object_0@) =~= resource_json(*self)->Obj_0);
        }
        r
    }
}

impl ResourceContents {
    /// Renders these contents as a JSON document.
    pub fn to_json(&self) -> (r: JsonValue)
        ensures
            r@ == resource_contents_json(*self),
    {
        let mut members: Vec<(String, JsonValue)> = Vec::new();
        members.push(("uri".to_owned(), JsonValue::Str(self.uri.clone())));
        push_opt_str(&mut members, "mimeType", &self.mime_type);
        push_opt_str(&mut members, "text", &self.text);
        push_opt_str(&mut members, "blob", &self.blob);
        let r = JsonValue::Object(members);
        proof {
            assert(jd_members(r->Object_0@) =~= resource_contents_json(*self)->Obj_0);
        }
        r
    }
}

impl Tool {
    /// Renders this tool as a JSON document.
    pub fn to_json(&self) -> (r: JsonValue)
        ensures
            r@ == tool_json(*self),
    {
        let mut members: Vec<(String, JsonValue)> = Vec::new();
        members.push(("name".to_owned(), JsonValue::Str(self.name.clone())));
        proof {
            assert(jd_members(members@) =~= seq![("name"@, JsonData::Str(self.name@))]);
        }
        push_opt_str(&mut members, "description", &self.description);
        let ghost with_description = jd_members(members@);
        members.push(("inputSchema".to_owned(), self.input_schema.clone()));
        proof {
            assert(jd_members(members@) =~= with_description.push(
                ("inputSchema"@, self.input_schema@),
            ));
        }
        let r = JsonValue::Object(members);
        proof {
            assert(jd_members(r->Object_0@) =~= tool_json(*self)->Obj_0);
        }
        r
    }
}

impl ToolContent {
    /// Renders this output item as a JSON document.
    pub fn to_json(&self) -> (r: JsonValue)
        ensures
            r@ == tool_content_json(*self),
    {
        let mut members: Vec<(String, JsonValue)> = Vec::new();
        match self {
            ToolContent::Text { text } => {
                members.push(("type".to_owned(), JsonValue::Str("text".to_owned())));
                members.push(("text".to_owned(), JsonValue::Str(text.clone())));
            },
            ToolContent::Image { data, mime_type } => {
                members.push(("type".to_owned(), JsonValue::Str("image".to_owned())));
                members.push(("data".to_owned(), JsonValue::Str(data.clone())));
                members.push(("mimeType".to_owned(), JsonValue::Str(mime_type.clone())));
            },
            ToolContent::Resource { resource } => {
                members.push(("type".to_owned(), JsonValue::Str("resource".to_owned())));
                members.push(("resource".to_owned(), resource.to_json()));
            },
        }
        let r = JsonValue::Object(members);
        proof {
            assert(jd_members(r->Object_0@) =~= tool_content_json(*self)->Obj_0);
        }
        r
    }
}

impl PromptArgument {
    /// Renders this declared argument as a JSON document.
    pub fn to_json(&self) -> (r: JsonValue)
        ensures
            r@ == prompt_argument_json(*self),
    {
        let mut members: Vec<(String, JsonValue)> = Vec::new();
        members.push(("name".to_owned(), JsonValue::Str(self.name.clone())));
        push_opt_str(&mut members, "description", &self.description);
        push_opt_bool(&mut members, "required", &self.required);
        let r = JsonValue::Object(members);
        proof {
            assert(jd_members(r->Object_0@) =~= prompt_argument_json(*self)->Obj_0);
        }
        r
    }
}

impl Prompt {
    /// Renders this prompt as a JSON document.
    #[verifier::loop_isolation(false)]
    pub fn to_json(&self) -> (r: JsonValue)
        ensures
            r@ == prompt_json(*self),
    {
        let mut members: Vec<(String, JsonValue)> = Vec::new();
        members.push(("name".to_owned(), JsonValue::Str(self.name.clone())));
        proof {
            assert(jd_members(members@) =~= seq![("name"@, JsonData::Str(self.name@))]);
        }
        push_opt_str(&mut members, "description", &self.description);
        let ghost with_description = jd_members(members@);
        match &self.arguments {
            Some(args) => {
                let mut elems: Vec<JsonValue> = Vec::new();
                let n = args.len();
                for i in 0..n
                    invariant
                        n == args.len(),
                        elems.len() == i,
                        forall|k: int|
                            0 <= k < i ==> (#[trigger] elems@[k])@ == prompt_argument_json(
                                args@[k],
                            ),
                    decreases n - i,
                {
                    elems.push(args[i].to_json());
                }
                proof {
                    assert(jd_seq(elems@) =~= Seq::new(
                        args@.len(),
                        |i: int| prompt_argument_json(args@[i]),
                    ));
                }
                let arr = JsonValue::Array(elems);
                members.push(("arguments".to_owned(), arr));
                proof {
                    assert(jd_members(members@) =~= with_description.push(
                        ("arguments"@, arr@),
                    ));
                }
            },
            None => {},
        }
        let r = JsonValue::Object(members);
        proof {
            assert(jd_members(r->Object_0@) =~= prompt_json(*self)->Obj_0);
        }
        r
    }
}

impl PromptContent {
    /// Renders this message content as a JSON document.
    pub fn to_json(&self) -> (r: JsonValue)
        ensures
            r@ == prompt_content_json(*self),
    {
        let mut members: Vec<(String, JsonValue)> = Vec::new();
        match self {
            PromptContent::Text { text } => {
                members.push(("type".to_owned(), JsonValue::Str("text".to_owned())));
                members.push(("text".to_owned(), JsonValue::Str(text.clone())));
            },
            PromptContent::Image { data, mime_type } => {
                members.push(("type".to_owned(), JsonValue::Str("image".to_owned())));
                members.push(("data".to_owned(), JsonValue::Str(data.clone())));
                members.push(("mimeType".to_owned(), JsonValue::Str(mime_type.clone())));
            },
        }
        let r = JsonValue::Object(members);
        proof {
            assert(jd_members(r->Object_0@) =~= prompt_content_json(*self)->Obj_0);
        }
        r
    }
}

impl PromptMessage {
    /// Renders this message as a JSON document.
    pub fn to_json(&self) -> (r: JsonValue)
        ensures
            r@ == prompt_message_json(*self),
    {
        let mut members: Vec<(String, JsonValue)> = Vec::new();
        members.push(("role".to_owned(), JsonValue::Str(self.role.clone())));
        members.push(("content".to_owned(), self.content.to_json()));
        let r = JsonValue::Object(members);
        proof {
            assert(jd_members(r->Object_0@) =~= prompt_message_json(*self)->Obj_0);
        }
        r
    }
}

impl ResourcesListResult {
    /// Renders this result as a JSON document.
    #[verifier::loop_isolation(false)]
    pub fn to_json(&self) -> (r: JsonValue)
        ensures
            r@ == resources_list_result_json(*self),
    {
        let mut elems: Vec<JsonValue> = Vec::new();
        let n = self.resources.len();
        for i in 0..n
            invariant
                n == self.resources.len(),
                elems.len() == i,
                forall|k: int|
                    0 <= k < i ==> (#[trigger] elems@[k])@ == resource_json(self.resources@[k]),
            decreases n - i,
        {
            elems.push(self.resources[i].to_json());
        }
        proof {
            assert(jd_seq(elems@) =~= Seq::new(
                self.resources@.len(),
                |i: int| resource_json(self.resources@[i]),
            ));
        }
        let mut members: Vec<(String, JsonValue)> = Vec::new();
        members.push(("resources".to_owned(), JsonValue::Array(elems)));
        push_opt_str(&mut members, "nextCursor", &self.next_cursor);
        let r = JsonValue::Object(members);
        proof {
            assert(jd_members(r->Object_0@) =~= resources_list_result_json(*self)->Obj_0);
        }
        r
    }
}

impl ResourcesReadResult {
    /// Renders this result as a JSON document.
    #[verifier::loop_isolation(false)]
    pub fn to_json(&self) -> (r: JsonValue)
        ensures
            r@ == resources_read_result_json(*self),
    {
        let mut elems: Vec<JsonValue> = Vec::new();
        let n = self.contents.len();
        for i in 0..n
            invariant
                n == self.contents.len(),
                elems.len() == i,
                forall|k: int|
                    0 <= k < i ==> (#[trigger] elems@[k])@ == resource_contents_json(
                        self.contents@[k],
                    ),
            decreases n - i,
        {
            elems.push(self.contents[i].to_json());
        }
        proof {
            assert(jd_seq(elems@) =~= Seq::new(
                self.contents@.len(),
                |i: int| resource_contents_json(self.contents@[i]),
            ));
        }
        let mut members: Vec<(String, JsonValue)> = Vec::new();
        members.push(("contents".to_owned(), JsonValue::Array(elems)));
        let r = JsonValue::Object(members);
        proof {
            assert(jd_members(r->Object_0@) =~= resources_read_result_json(*self)->Obj_0);
        }
        r
    }
}

impl ToolsListResult {
    /// Renders this result as a JSON document.
    #[verifier::loop_isolation(false)]
    pub fn to_json(&self) -> (r: JsonValue)
        ensures
            r@ == tools_list_result_json(*self),
    {
        let mut elems: Vec<JsonValue> = Vec::new();
        let n = self.tools.len();
        for i in 0..n
            invariant
                n == self.tools.len(),
                elems.len() == i,
                forall|k: int|
                    0 <= k < i ==> (#[trigger] elems@[k])@ == tool_json(self.tools@[k]),
            decreases n - i,
        {
            elems.push(self.tools[i].to_json());
        }
        proof {
            assert(jd_seq(elems@) =~= Seq::new(
                self.tools@.len(),
                |i: int| tool_json(self.tools@[i]),
            ));
        }
        let mut members: Vec<(String, JsonValue)> = Vec::new();
        members.push(("tools".to_owned(), JsonValue::Array(elems)));
        push_opt_str(&mut members, "nextCursor", &self.next_cursor);
        let r = JsonValue::Object(members);
        proof {
            assert(jd_members(r->Object_0@) =~= tools_list_result_json(*self)->Obj_0);
        }
        r
    }
}

impl ToolsCallResult {
    /// Renders this result as a JSON document.
    #[verifier::loop_isolation(false)]
    pub fn to_json(&self) -> (r: JsonValue)
        ensures
            r@ == tools_call_result_json(*self),
    {
        let mut elems: Vec<JsonValue> = Vec::new();
        let n = self.content.len();
        for i in 0..n
            invariant
                n == self.content.len(),
                elems.len() == i,
                forall|k: int|
                    0 <= k < i ==> (#[trigger] elems@[k])@ == tool_content_json(self.content@[k]),
            decreases n - i,
        {
            elems.push(self.content[i].to_json());
        }
        proof {
            assert(jd_seq(elems@) =~= Seq::new(
                self.content@.len(),
                |i: int| tool_content_json(self.content@[i]),
            ));
        }
        let mut members: Vec<(String, JsonValue)> = Vec::new();
        members.push(("content".to_owned(), JsonValue::Array(elems)));
        push_opt_bool(&mut members, "isError", &self.is_error);
        let r = JsonValue::Object(members);
        proof {
            assert(jd_members(r->Object_0@) =~= tools_call_result_json(*self)->Obj_0);
        }
        r
    }
}

impl PromptsListResult {
    /// Renders this result as a JSON document.
    #[verifier::loop_isolation(false)]
    pub fn to_json(&self) -> (r: JsonValue)
        ensures
            r@ == prompts_list_result_json(*self),
    {
        let mut elems: Vec<JsonValue> = Vec::new();
        let n = self.prompts.len();
        for i in 0..n
            invariant
                n == self.prompts.len(),
                elems.len() == i,
                forall|k: int|
                    0 <= k < i ==> (#[trigger] elems@[k])@ == prompt_json(self.prompts@[k]),
            decreases n - i,
        {
            elems.push(self.prompts[i].to_json());
        }
        proof {
            assert(jd_seq(elems@) =~= Seq::new(
                self.prompts@.len(),
                |i: int| prompt_json(self.prompts@[i]),
            ));
        }
        let mut members: Vec<(String, JsonValue)> = Vec::new();
        members.push(("prompts".to_owned(), JsonValue::Array(elems)));
        push_opt_str(&mut members, "nextCursor", &self.next_cursor);
        let r = JsonValue::Object(members);
        proof {
            assert(jd_members(r->Object_0@) =~= prompts_list_result_json(*self)->Obj_0);
        }
        r
    }
}

impl PromptsGetResult {
    /// Renders this result as a JSON document.
    #[verifier::loop_isolation(false)]
    pub fn to_json(&self) -> (r: JsonValue)
        ensures
            r@ == prompts_get_result_json(*self),
    {
        let mut members: Vec<(String, JsonValue)> = Vec::new();
        push_opt_str(&mut members, "description", &self.description);
        let mut elems: Vec<JsonValue> = Vec::new();
        let n = self.messages.len();
        for i in 0..n
            invariant
                n == self.messages.len(),
                elems.len() == i,
                forall|k: int|
                    0 <= k < i ==> (#[trigger] elems@[k])@ == prompt_message_json(
                        self.messages@[k],
                    ),
            decreases n - i,
        {
            elems.push(self.messages[i].to_json());
        }
        proof {
            assert(jd_seq(elems@) =~= Seq::new(
                self.messages@.len(),
                |i: int| prompt_message_json(self.messages@[i]),
            ));
        }
        members.push(("messages".to_owned(), JsonValue::Array(elems)));
        let r = JsonValue::Object(members);
        proof {
            assert(jd_members(r->Object_0@) =~= prompts_get_result_json(*self)->Obj_0);
        }
        r
    }
}

// ===========================================================================
// Logging
// ===========================================================================

/// The parameters of `logging/setLevel`.
#[derive(Debug, Clone, Copy, PartialEq, Eq, Structural)]
pub struct LoggingSetLevelParams {
    pub level: LogLevel,
}

/// A log severity, as the wire spells it.
#[derive(Debug, Clone, Copy, PartialEq, Eq, Structural)]
pub enum LogLevel {
    Debug,
    Info,
    Warning,
    Error,
}

} // verus!
