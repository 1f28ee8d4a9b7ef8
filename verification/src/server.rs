//! The server value and its builder. Registries are built once, before
//! serving, and are immutable afterwards; the capability set is a frozen
//! snapshot computed at build time from the registries' emptiness.

use vstd::prelude::*;
use vstd::string::*;

use crate::auth::OAuthConfig;
use crate::jsonrpc::JsonRpcResponse;
use crate::metadata::{PromptMeta, ResourceMeta, ToolMeta};
use crate::protocol::{
    Implementation, LoggingCapability, Prompt, PromptsCapability, Resource, ResourcesCapability,
    ServerCapabilities, Tool, ToolsCapability,
};
use crate::stream::{response_channel, RESPONSE_CHANNEL_CAPACITY};

verus! {

/// The names of a tool registry, in registration order.
pub open spec fn tool_names(tools: Seq<Tool>) -> Seq<Seq<char>> {
    Seq::new(tools.len(), |i: int| tools[i].name@)
}

/// The URIs of a resource registry, in registration order.
pub open spec fn resource_uris(resources: Seq<Resource>) -> Seq<Seq<char>> {
    Seq::new(resources.len(), |i: int| resources[i].uri@)
}

/// The names of a prompt registry, in registration order.
pub open spec fn prompt_names(prompts: Seq<Prompt>) -> Seq<Seq<char>> {
    Seq::new(prompts.len(), |i: int| prompts[i].name@)
}

/// No identifier occurs twice.
pub open spec fn unique_ids(ids: Seq<Seq<char>>) -> bool {
    forall|i: int, j: int| 0 <= i < j < ids.len() ==> ids[i] != ids[j]
}

/// Whether some identifier in the list reads `id`.
pub open spec fn has_id(ids: Seq<Seq<char>>, id: Seq<char>) -> bool {
    exists|i: int| 0 <= i < ids.len() && ids[i] == id
}

/// The capability snapshot the registries dictate: logging is always
/// advertised; prompts, resources, and tools exactly when the respective
/// registry is non-empty.
pub open spec fn caps_for(
    caps: ServerCapabilities,
    n_tools: nat,
    n_resources: nat,
    n_prompts: nat,
) -> bool {
    &&& caps.logging == Some(LoggingCapability {  })
    &&& caps.prompts == (if n_prompts == 0 {
        Option::<PromptsCapability>::None
    } else {
        Some(PromptsCapability { list_changed: None })
    })
    &&& caps.resources == (if n_resources == 0 {
        Option::<ResourcesCapability>::None
    } else {
        Some(ResourcesCapability { subscribe: None, list_changed: None })
    })
    &&& caps.tools == (if n_tools == 0 {
        Option::<ToolsCapability>::None
    } else {
        Some(ToolsCapability { list_changed: None })
    })
}

/// The protocol server: identity, frozen capability snapshot, the three
/// registries, the auth stub's configuration, and the streaming delivery
/// channel's send end.
pub struct HttpMcpServer {
    pub server_info: Implementation,
    pub capabilities: ServerCapabilities,
    pub tools: Vec<Tool>,
    pub resources: Vec<Resource>,
    pub prompts: Vec<Prompt>,
    pub oauth_config: Option<OAuthConfig>,
    pub enable_cors: bool,
    pub response_tx: tokio::sync::broadcast::Sender<JsonRpcResponse>,
}

impl HttpMcpServer {
    /// A well-formed server: unique identifiers per registry and a
    /// capability snapshot that matches the registries.
    pub open spec fn wf(&self) -> bool {
        &&& unique_ids(tool_names(self.tools@))
        &&& unique_ids(resource_uris(self.resources@))
        &&& unique_ids(prompt_names(self.prompts@))
        &&& caps_for(
            self.capabilities,
            self.tools@.len(),
            self.resources@.len(),
            self.prompts@.len(),
        )
    }

    /// A fresh builder.
    pub fn builder() -> (r: HttpMcpServerBuilder)
        ensures
            r.wf(),
            r.name@ == "httpmcp-server"@,
            r.version@ == "1.0.0"@,
            r.tools@.len() == 0,
            r.resources@.len() == 0,
            r.prompts@.len() == 0,
            r.oauth_config is None,
            r.enable_cors == true,
    {
        HttpMcpServerBuilder::new()
    }
}

/// Replaces the first entry matching the new tool's name, or appends it.
#[verifier::loop_isolation(false)]
fn upsert_tool(tools: &mut Vec<Tool>, tool: Tool)
    requires
        unique_ids(tool_names(old(tools)@)),
    ensures
        unique_ids(tool_names(final(tools)@)),
        has_id(tool_names(old(tools)@), tool.name@) ==> (exists|j: int|
            0 <= j < old(tools)@.len() && old(tools)@[j].name@ == tool.name@ && final(tools)@
                == old(tools)@.update(j, tool)),
        !has_id(tool_names(old(tools)@), tool.name@) ==> final(tools)@ == old(tools)@.push(tool),
        tool_names(final(tools)@) =~= (if has_id(tool_names(old(tools)@), tool.name@) {
            tool_names(old(tools)@)
        } else {
            tool_names(old(tools)@).push(tool.name@)
        }),
{
    let n = tools.len();
    for i in 0..n
        invariant
            n == tools@.len(),
            tools@ == old(tools)@,
            forall|j: int| 0 <= j < i ==> (#[trigger] old(tools)@[j]).name@ != tool.name@,
        decreases n - i,
    {
        if crate::json::str_eq(tools[i].name.as_str(), tool.name.as_str()) {
            proof {
                assert(tool_names(tools@)[i as int] == tool.name@);
            }
            tools.set(i, tool);
            proof {
                assert(tool_names(tools@) =~= tool_names(old(tools)@));
            }
            return ;
        }
    }
    tools.push(tool);
    proof {
        assert(tool_names(tools@) =~= tool_names(old(tools)@).push(tool.name@));
    }
}

/// Replaces the first entry matching the new resource's URI, or appends it.
#[verifier::loop_isolation(false)]
fn upsert_resource(resources: &mut Vec<Resource>, resource: Resource)
    requires
        unique_ids(resource_uris(old(resources)@)),
    ensures
        unique_ids(resource_uris(final(resources)@)),
        has_id(resource_uris(old(resources)@), resource.uri@) ==> (exists|j: int|
            0 <= j < old(resources)@.len() && old(resources)@[j].uri@ == resource.uri@
                && final(resources)@ == old(resources)@.update(j, resource)),
        !has_id(resource_uris(old(resources)@), resource.uri@) ==> final(resources)@ == old(
            resources,
        )@.push(resource),
        resource_uris(final(resources)@) =~= (if has_id(
            resource_uris(old(resources)@),
            resource.uri@,
        ) {
            resource_uris(old(resources)@)
        } else {
            resource_uris(old(resources)@).push(resource.uri@)
        }),
{
    let n = resources.len();
    for i in 0..n
        invariant
            n == resources@.len(),
            resources@ == old(resources)@,
            forall|j: int| 0 <= j < i ==> (#[trigger] old(resources)@[j]).uri@ != resource.uri@,
        decreases n - i,
    {
        if crate::json::str_eq(resources[i].uri.as_str(), resource.uri.as_str()) {
            proof {
                assert(resource_uris(resources@)[i as int] == resource.uri@);
            }
            resources.set(i, resource);
            proof {
                assert(resource_uris(resources@) =~= resource_uris(old(resources)@));
            }
            return ;
        }
    }
    resources.push(resource);
    proof {
        assert(resource_uris(resources@) =~= resource_uris(old(resources)@).push(resource.uri@));
    }
}

/// Replaces the first entry matching the new prompt's name, or appends it.
#[verifier::loop_isolation(false)]
fn upsert_prompt(prompts: &mut Vec<Prompt>, prompt: Prompt)
    requires
        unique_ids(prompt_names(old(prompts)@)),
    ensures
        unique_ids(prompt_names(final(prompts)@)),
        has_id(prompt_names(old(prompts)@), prompt.name@) ==> (exists|j: int|
            0 <= j < old(prompts)@.len() && old(prompts)@[j].name@ == prompt.name@
                && final(prompts)@ == old(prompts)@.update(j, prompt)),
        !has_id(prompt_names(old(prompts)@), prompt.name@) ==> final(prompts)@ == old(
            prompts,
        )@.push(prompt),
        prompt_names(final(prompts)@) =~= (if has_id(prompt_names(old(prompts)@), prompt.name@) {
            prompt_names(old(prompts)@)
        } else {
            prompt_names(old(prompts)@).push(prompt.name@)
        }),
{
    let n = prompts.len();
    for i in 0..n
        invariant
            n == prompts@.len(),
            prompts@ == old(prompts)@,
            forall|j: int| 0 <= j < i ==> (#[trigger] old(prompts)@[j]).name@ != prompt.name@,
        decreases n - i,
    {
        if crate::json::str_eq(prompts[i].name.as_str(), prompt.name.as_str()) {
            proof {
                assert(prompt_names(prompts@)[i as int] == prompt.name@);
            }
            prompts.set(i, prompt);
            proof {
                assert(prompt_names(prompts@) =~= prompt_names(old(prompts)@));
            }
            return ;
        }
    }
    prompts.push(prompt);
    proof {
        assert(prompt_names(prompts@) =~= prompt_names(old(prompts)@).push(prompt.name@));
    }
}

/// Accumulates the server's configuration; `build` freezes it.
pub struct HttpMcpServerBuilder {
    pub name: String,
    pub version: String,
    pub tools: Vec<Tool>,
    pub resources: Vec<Resource>,
    pub prompts: Vec<Prompt>,
    pub oauth_config: Option<OAuthConfig>,
    pub enable_cors: bool,
}

impl HttpMcpServerBuilder {
    /// A well-formed builder: unique identifiers per registry.
    pub open spec fn wf(&self) -> bool {
        &&& unique_ids(tool_names(self.tools@))
        &&& unique_ids(resource_uris(self.resources@))
        &&& unique_ids(prompt_names(self.prompts@))
    }

    /// The default configuration: placeholder identity, no capabilities
    /// registered, CORS on.
    pub fn new() -> (r: Self)
        ensures
            r.wf(),
            r.name@ == "httpmcp-server"@,
            r.version@ == "1.0.0"@,
            r.tools@.len() == 0,
            r.resources@.len() == 0,
            r.prompts@.len() == 0,
            r.oauth_config is None,
            r.enable_cors == true,
    {
        HttpMcpServerBuilder {
            name: "httpmcp-server".to_owned(),
            version: "1.0.0".to_owned(),
            tools: Vec::new(),
            resources: Vec::new(),
            prompts: Vec::new(),
            oauth_config: None,
            enable_cors: true,
        }
    }

    /// Sets the server name.
    pub fn name(self, name: &str) -> (r: Self)
        ensures
            r == (Self { name: r.name, ..self }),
            r.name@ == name@,
    {
        HttpMcpServerBuilder { name: name.to_owned(), ..self }
    }

    /// Sets the server version.
    pub fn version(self, version: &str) -> (r: Self)
        ensures
            r == (Self { version: r.version, ..self }),
            r.version@ == version@,
    {
        HttpMcpServerBuilder { version: version.to_owned(), ..self }
    }

    /// Registers a tool under `name`: an upsert that replaces any prior
    /// tool of the same name and appends otherwise. The handler itself
    /// lives with the embedding application, keyed by the same name.
    pub fn tool(self, name: &str, meta: ToolMeta) -> (r: Self)
        requires
            self.wf(),
        ensures
            r.wf(),
            r == (Self { tools: r.tools, ..self }),
            tool_names(r.tools@) =~= (if has_id(tool_names(self.tools@), name@) {
                tool_names(self.tools@)
            } else {
                tool_names(self.tools@).push(name@)
            }),
            has_id(tool_names(r.tools@), name@),
    {
        let tool = meta.to_tool(name);
        let mut tools = self.tools;
        upsert_tool(&mut tools, tool);
        proof {
            if has_id(tool_names(self.tools@), name@) {
                let j = choose|j: int|
                    0 <= j < self.tools@.len() && self.tools@[j].name@ == name@ && tools@
                        == self.tools@.update(j, tool);
                assert(tool_names(tools@)[j] == name@);
            } else {
                assert(tool_names(tools@)[self.tools@.len() as int] == name@);
            }
        }
        HttpMcpServerBuilder { tools, ..self }
    }

    /// Registers a resource provider under `uri`, same upsert shape as
    /// `tool`. Its list and read handlers live with the embedding
    /// application, keyed by the same URI.
    pub fn resource(self, uri: &str, meta: ResourceMeta) -> (r: Self)
        requires
            self.wf(),
        ensures
            r.wf(),
            r == (Self { resources: r.resources, ..self }),
            resource_uris(r.resources@) =~= (if has_id(resource_uris(self.resources@), uri@) {
                resource_uris(self.resources@)
            } else {
                resource_uris(self.resources@).push(uri@)
            }),
            has_id(resource_uris(r.resources@), uri@),
    {
        let resource = meta.to_resource(uri);
        let mut resources = self.resources;
        upsert_resource(&mut resources, resource);
        proof {
            if has_id(resource_uris(self.resources@), uri@) {
                let j = choose|j: int|
                    0 <= j < self.resources@.len() && self.resources@[j].uri@ == uri@ && resources@
                        == self.resources@.update(j, resource);
                assert(resource_uris(resources@)[j] == uri@);
            } else {
                assert(resource_uris(resources@)[self.resources@.len() as int] == uri@);
            }
        }
        HttpMcpServerBuilder { resources, ..self }
    }

    /// Registers a prompt under `name`, same upsert shape as `tool`. Its
    /// handler lives with the embedding application, keyed by the same
    /// name.
    pub fn prompt(self, name: &str, meta: PromptMeta) -> (r: Self)
        requires
            self.wf(),
        ensures
            r.wf(),
            r == (Self { prompts: r.prompts, ..self }),
            prompt_names(r.prompts@) =~= (if has_id(prompt_names(self.prompts@), name@) {
                prompt_names(self.prompts@)
            } else {
                prompt_names(self.prompts@).push(name@)
            }),
            has_id(prompt_names(r.prompts@), name@),
    {
        let prompt = meta.to_prompt(name);
        let mut prompts = self.prompts;
        upsert_prompt(&mut prompts, prompt);
        proof {
            if has_id(prompt_names(self.prompts@), name@) {
                let j = choose|j: int|
                    0 <= j < self.prompts@.len() && self.prompts@[j].name@ == name@ && prompts@
                        == self.prompts@.update(j, prompt);
                assert(prompt_names(prompts@)[j] == name@);
            } else {
                assert(prompt_names(prompts@)[self.prompts@.len() as int] == name@);
            }
        }
        HttpMcpServerBuilder { prompts, ..self }
    }

    /// Configures the bearer-token presence check. The token and
    /// authorization endpoint URLs are accepted for interface parity and
    /// not used: the check never calls out.
    pub fn with_oauth(
        self,
        client_id: &str,
        client_secret: &str,
        _token_url: &str,
        _auth_url: &str,
    ) -> (r: Self)
        ensures
            r == (Self { oauth_config: r.oauth_config, ..self }),
            r.oauth_config matches Some(c) && c.client_id@ == client_id@ && c.client_secret@
                == client_secret@,
    {
        HttpMcpServerBuilder {
            oauth_config: Some(
                OAuthConfig {
                    client_id: client_id.to_owned(),
                    client_secret: client_secret.to_owned(),
                },
            ),
            ..self
        }
    }

    /// Enables or disables the CORS headers.
    pub fn enable_cors(self, enable: bool) -> (r: Self)
        ensures
            r == (Self { enable_cors: enable, ..self }),
    {
        HttpMcpServerBuilder { enable_cors: enable, ..self }
    }

    /// Freezes the configuration into a server. Always succeeds; the
    /// capability snapshot advertises logging unconditionally and each
    /// capability group exactly when its registry is non-empty, and never
    /// changes afterwards.
    pub fn build(self) -> (r: Result<HttpMcpServer, crate::error::McpError>)
        requires
            self.wf(),
        ensures
            r matches Ok(server) && server.wf() && server.server_info.name == self.name
                && server.server_info.version == self.version && server.tools == self.tools
                && server.resources == self.resources && server.prompts == self.prompts
                && server.oauth_config == self.oauth_config && server.enable_cors
                == self.enable_cors,
    {
        let capabilities = ServerCapabilities {
            logging: Some(LoggingCapability {  }),
            prompts: if self.prompts.len() == 0 {
                None
            } else {
                Some(PromptsCapability { list_changed: None })
            },
            resources: if self.resources.len() == 0 {
                None
            } else {
                Some(ResourcesCapability { subscribe: None, list_changed: None })
            },
            tools: if self.tools.len() == 0 {
                None
            } else {
                Some(ToolsCapability { list_changed: None })
            },
        };
        let response_tx = response_channel(RESPONSE_CHANNEL_CAPACITY);
        Ok(
            HttpMcpServer {
                server_info: Implementation { name: self.name, version: self.version },
                capabilities,
                tools: self.tools,
                resources: self.resources,
                prompts: self.prompts,
                oauth_config: self.oauth_config,
                enable_cors: self.enable_cors,
                response_tx,
            },
        )
    }
}

impl Default for HttpMcpServerBuilder {
    /// The default configuration, as `new` makes it.
    fn default() -> (r: Self)
        ensures
            r.wf(),
            r.name@ == "httpmcp-server"@,
            r.version@ == "1.0.0"@,
            r.tools@.len() == 0,
            r.resources@.len() == 0,
            r.prompts@.len() == 0,
            r.oauth_config is None,
            r.enable_cors == true,
    {
        HttpMcpServerBuilder::new()
    }
}

/// The frozen capability snapshot: a well-formed server advertises logging
/// unconditionally, and tools, resources, and prompts exactly when the
/// respective registry was non-empty at build time. The snapshot never
/// changes after `build`.
pub proof fn lemma_capability_snapshot(server: HttpMcpServer)
    requires
        server.wf(),
    ensures
        server.capabilities.logging is Some,
        server.capabilities.tools is Some <==> server.tools@.len() > 0,
        server.capabilities.resources is Some <==> server.resources@.len() > 0,
        server.capabilities.prompts is Some <==> server.prompts@.len() > 0,
{
}

} // verus!
