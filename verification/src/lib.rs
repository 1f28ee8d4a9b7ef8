//! A library for building MCP (Model Context Protocol) servers that speak
//! JSON-RPC 2.0 over a request/response transport with an optional
//! server-to-client event-streaming channel.
//!
//! The crate models JSON documents with its own [`json::JsonValue`] type,
//! routes validated JSON-RPC messages to capability handlers, negotiates
//! capabilities during `initialize`, maps an internal error taxonomy to
//! JSON-RPC error objects and transport status classes, and decides how
//! each computed response is delivered: directly, suppressed for
//! notifications, or published to a bounded broadcast channel feeding the
//! streaming connections.
//!
//! Handlers are asynchronous and belong to the embedding application. The
//! dispatcher therefore works in two halves: [`transport::route_request`]
//! finishes what it can and otherwise names the handler work owed; the
//! response builders in [`transport`] finish the call from the handlers'
//! plain results; [`stream::respond`] delivers the outcome.

pub mod auth;
pub mod context;
pub mod error;
pub mod error_codes;
pub mod json;
pub mod jsonrpc;
pub mod metadata;
pub mod protocol;
pub mod server;
pub mod stream;
pub mod transport;

pub use context::RequestContext;
pub use error::McpError;
pub use json::JsonValue;
pub use metadata::{EndpointMeta, PromptMeta, ResourceMeta, ToolMeta};
pub use server::{HttpMcpServer, HttpMcpServerBuilder};

pub use protocol::{
    Implementation, Prompt, PromptArgument, PromptContent, PromptMessage, PromptsGetParams,
    PromptsGetResult, PromptsListParams, PromptsListResult, Resource, ResourceContents,
    ResourceTemplate, ResourcesListParams, ResourcesListResult, ResourcesReadParams,
    ResourcesReadResult, ServerCapabilities, Tool, ToolContent, ToolsCallParams, ToolsCallResult,
    ToolsListResult,
};
