//! The closed error taxonomy and its two translations: to a JSON-RPC error
//! object and to a transport status class. Every component raises taxonomy
//! members; this module is the single point where they become wire-visible.

use vstd::prelude::*;
use vstd::string::*;

use crate::error_codes;
use crate::json::{JsonData, JsonValue};
use crate::jsonrpc::{ErrData, JsonRpcError};

verus! {

broadcast use
    crate::json::lemma_jd_members_index,
    crate::json::lemma_jd_members_len,
    vstd::std_specs::vec::group_vec_axioms,
;

/// The error taxonomy. Outside failures (serialization, I/O) are carried as
/// their message text.
#[derive(Debug, PartialEq, Eq)]
pub enum McpError {
    ParseError(String),
    InvalidRequest(String),
    MethodNotFound(String),
    InvalidParams(String),
    InternalError(String),
    ResourceNotFound(String),
    ToolNotFound(String),
    PromptNotFound(String),
    AuthenticationRequired,
    AuthorizationFailed(String),
    SerializationError(String),
    IoError(String),
    JsonRpcError(String),
}

/// Ghost model of a taxonomy member.
pub enum McpErrData {
    ParseErr(Seq<char>),
    InvalidReq(Seq<char>),
    MethodNotFnd(Seq<char>),
    InvalidPar(Seq<char>),
    InternalErr(Seq<char>),
    ResourceNotFnd(Seq<char>),
    ToolNotFnd(Seq<char>),
    PromptNotFnd(Seq<char>),
    AuthRequired,
    AuthFailed(Seq<char>),
    SerializationErr(Seq<char>),
    IoErr(Seq<char>),
    WrappedJsonRpc(Seq<char>),
}

impl View for McpError {
    type V = McpErrData;

    open spec fn view(&self) -> McpErrData {
        match self {
            McpError::ParseError(s) => McpErrData::ParseErr(s@),
            McpError::InvalidRequest(s) => McpErrData::InvalidReq(s@),
            McpError::MethodNotFound(s) => McpErrData::MethodNotFnd(s@),
            McpError::InvalidParams(s) => McpErrData::InvalidPar(s@),
            McpError::InternalError(s) => McpErrData::InternalErr(s@),
            McpError::ResourceNotFound(s) => McpErrData::ResourceNotFnd(s@),
            McpError::ToolNotFound(s) => McpErrData::ToolNotFnd(s@),
            McpError::PromptNotFound(s) => McpErrData::PromptNotFnd(s@),
            McpError::AuthenticationRequired => McpErrData::AuthRequired,
            McpError::AuthorizationFailed(s) => McpErrData::AuthFailed(s@),
            McpError::SerializationError(s) => McpErrData::SerializationErr(s@),
            McpError::IoError(s) => McpErrData::IoErr(s@),
            McpError::JsonRpcError(s) => McpErrData::WrappedJsonRpc(s@),
        }
    }
}

impl DeepView for McpError {
    type V = McpErrData;

    open spec fn deep_view(&self) -> McpErrData {
        self.view()
    }
}

impl Clone for McpError {
    /// A clone has the same model as the original.
    fn clone(&self) -> (r: Self)
        ensures
            r@ == self@,
    {
        match self {
            McpError::ParseError(s) => McpError::ParseError(s.clone()),
            McpError::InvalidRequest(s) => McpError::InvalidRequest(s.clone()),
            McpError::MethodNotFound(s) => McpError::MethodNotFound(s.clone()),
            McpError::InvalidParams(s) => McpError::InvalidParams(s.clone()),
            McpError::InternalError(s) => McpError::InternalError(s.clone()),
            McpError::ResourceNotFound(s) => McpError::ResourceNotFound(s.clone()),
            McpError::ToolNotFound(s) => McpError::ToolNotFound(s.clone()),
            McpError::PromptNotFound(s) => McpError::PromptNotFound(s.clone()),
            McpError::AuthenticationRequired => McpError::AuthenticationRequired,
            McpError::AuthorizationFailed(s) => McpError::AuthorizationFailed(s.clone()),
            McpError::SerializationError(s) => McpError::SerializationError(s.clone()),
            McpError::IoError(s) => McpError::IoError(s.clone()),
            McpError::JsonRpcError(s) => McpError::JsonRpcError(s.clone()),
        }
    }
}

/// A one-member JSON object, used for the `data` field of not-found errors.
pub open spec fn one_member_obj(key: Seq<char>, value: Seq<char>) -> JsonData {
    JsonData::Obj(seq![(key, JsonData::Str(value))])
}

/// The JSON-RPC error object each taxonomy member maps to: the standard
/// codes for the standard members, the protocol-specific code for
/// resource-not-found (which carries the URI in `data`), and the
/// method-not-found code with the offending name in `data` for missing
/// tools and prompts.
pub open spec fn jsonrpc_error_of(m: McpErrData) -> ErrData {
    match m {
        McpErrData::ParseErr(msg) => ErrData {
            code: error_codes::PARSE_ERROR as int,
            message: msg,
            data: None,
        },
        McpErrData::InvalidReq(msg) => ErrData {
            code: error_codes::INVALID_REQUEST as int,
            message: msg,
            data: None,
        },
        McpErrData::MethodNotFnd(msg) => ErrData {
            code: error_codes::METHOD_NOT_FOUND as int,
            message: msg,
            data: None,
        },
        McpErrData::InvalidPar(msg) => ErrData {
            code: error_codes::INVALID_PARAMS as int,
            message: msg,
            data: None,
        },
        McpErrData::InternalErr(msg) => ErrData {
            code: error_codes::INTERNAL_ERROR as int,
            message: msg,
            data: None,
        },
        McpErrData::ResourceNotFnd(uri) => ErrData {
            code: error_codes::RESOURCE_NOT_FOUND as int,
            message: "Resource not found: "@ + uri,
            data: Some(one_member_obj("uri"@, uri)),
        },
        McpErrData::ToolNotFnd(name) => ErrData {
            code: error_codes::METHOD_NOT_FOUND as int,
            message: "Tool not found: "@ + name,
            data: Some(one_member_obj("tool"@, name)),
        },
        McpErrData::PromptNotFnd(name) => ErrData {
            code: error_codes::METHOD_NOT_FOUND as int,
            message: "Prompt not found: "@ + name,
            data: Some(one_member_obj("prompt"@, name)),
        },
        McpErrData::AuthRequired => ErrData {
            code: error_codes::INVALID_REQUEST as int,
            message: "Authentication required"@,
            data: None,
        },
        McpErrData::AuthFailed(msg) => ErrData {
            code: error_codes::INVALID_REQUEST as int,
            message: "Authorization failed: "@ + msg,
            data: None,
        },
        McpErrData::SerializationErr(msg) => ErrData {
            code: error_codes::INTERNAL_ERROR as int,
            message: "Serialization error: "@ + msg,
            data: None,
        },
        McpErrData::IoErr(msg) => ErrData {
            code: error_codes::INTERNAL_ERROR as int,
            message: "IO error: "@ + msg,
            data: None,
        },
        McpErrData::WrappedJsonRpc(msg) => ErrData {
            code: error_codes::INTERNAL_ERROR as int,
            message: msg,
            data: None,
        },
    }
}

/// The transport-level status class each taxonomy member maps to.
#[derive(Debug, Clone, Copy, PartialEq, Eq, Structural)]
pub enum StatusClass {
    BadRequest,
    NotFound,
    Unauthorized,
    Forbidden,
    Internal,
}

/// The status class of a taxonomy member: bad-request for malformed input,
/// not-found for missing methods and capabilities, unauthorized and
/// forbidden for the two auth failures, internal for everything else.
pub open spec fn status_class_of(m: McpErrData) -> StatusClass {
    match m {
        McpErrData::ParseErr(_) => StatusClass::BadRequest,
        McpErrData::InvalidReq(_) => StatusClass::BadRequest,
        McpErrData::MethodNotFnd(_) => StatusClass::NotFound,
        McpErrData::InvalidPar(_) => StatusClass::BadRequest,
        McpErrData::ResourceNotFnd(_) => StatusClass::NotFound,
        McpErrData::ToolNotFnd(_) => StatusClass::NotFound,
        McpErrData::PromptNotFnd(_) => StatusClass::NotFound,
        McpErrData::AuthRequired => StatusClass::Unauthorized,
        McpErrData::AuthFailed(_) => StatusClass::Forbidden,
        _ => StatusClass::Internal,
    }
}

fn one_member_value(key: &str, value: &String) -> (r: JsonValue)
    ensures
        r@ == one_member_obj(key@, value@),
{
    let mut members: Vec<(String, JsonValue)> = Vec::new();
    members.push((key.to_owned(), JsonValue::Str(value.clone())));
    let r = JsonValue::Object(members);
    proof {
        assert(crate::json::jd_members(r->Object_0@) =~= one_member_obj(key@, value@)->Obj_0);
    }
    r
}

impl McpError {
    /// Translates this taxonomy member to its JSON-RPC error object.
    pub fn to_jsonrpc_error(&self) -> (r: JsonRpcError)
        ensures
            r@ == jsonrpc_error_of(self@),
    {
        match self {
            McpError::ParseError(msg) => JsonRpcError {
                code: error_codes::PARSE_ERROR,
                message: msg.clone(),
                data: None,
            },
            McpError::InvalidRequest(msg) => JsonRpcError {
                code: error_codes::INVALID_REQUEST,
                message: msg.clone(),
                data: None,
            },
            McpError::MethodNotFound(msg) => JsonRpcError {
                code: error_codes::METHOD_NOT_FOUND,
                message: msg.clone(),
                data: None,
            },
            McpError::InvalidParams(msg) => JsonRpcError {
                code: error_codes::INVALID_PARAMS,
                message: msg.clone(),
                data: None,
            },
            McpError::InternalError(msg) => JsonRpcError {
                code: error_codes::INTERNAL_ERROR,
                message: msg.clone(),
                data: None,
            },
            McpError::ResourceNotFound(uri) => JsonRpcError {
                code: error_codes::RESOURCE_NOT_FOUND,
                message: "Resource not found: ".to_owned().concat(uri.as_str()),
                data: Some(one_member_value("uri", uri)),
            },
            McpError::ToolNotFound(name) => JsonRpcError {
                code: error_codes::METHOD_NOT_FOUND,
                message: "Tool not found: ".to_owned().concat(name.as_str()),
                data: Some(one_member_value("tool", name)),
            },
            McpError::PromptNotFound(name) => JsonRpcError {
                code: error_codes::METHOD_NOT_FOUND,
                message: "Prompt not found: ".to_owned().concat(name.as_str()),
                data: Some(one_member_value("prompt", name)),
            },
            McpError::AuthenticationRequired => JsonRpcError {
                code: error_codes::INVALID_REQUEST,
                message: "Authentication required".to_owned(),
                data: None,
            },
            McpError::AuthorizationFailed(msg) => JsonRpcError {
                code: error_codes::INVALID_REQUEST,
                message: "Authorization failed: ".to_owned().concat(msg.as_str()),
                data: None,
            },
            McpError::SerializationError(msg) => JsonRpcError {
                code: error_codes::INTERNAL_ERROR,
                message: "Serialization error: ".to_owned().concat(msg.as_str()),
                data: None,
            },
            McpError::IoError(msg) => JsonRpcError {
                code: error_codes::INTERNAL_ERROR,
                message: "IO error: ".to_owned().concat(msg.as_str()),
                data: None,
            },
            McpError::JsonRpcError(msg) => JsonRpcError {
                code: error_codes::INTERNAL_ERROR,
                message: msg.clone(),
                data: None,
            },
        }
    }

    /// The transport status class of this taxonomy member.
    pub fn status_code(&self) -> (r: StatusClass)
        ensures
            r == status_class_of(self@),
    {
        match self {
            McpError::ParseError(_) => StatusClass::BadRequest,
            McpError::InvalidRequest(_) => StatusClass::BadRequest,
            McpError::MethodNotFound(_) => StatusClass::NotFound,
            McpError::InvalidParams(_) => StatusClass::BadRequest,
            McpError::ResourceNotFound(_) => StatusClass::NotFound,
            McpError::ToolNotFound(_) => StatusClass::NotFound,
            McpError::PromptNotFound(_) => StatusClass::NotFound,
            McpError::AuthenticationRequired => StatusClass::Unauthorized,
            McpError::AuthorizationFailed(_) => StatusClass::Forbidden,
            _ => StatusClass::Internal,
        }
    }
}

impl From<JsonRpcError> for McpError {
    /// A raw JSON-RPC error is wrapped, keeping its message.
    fn from(err: JsonRpcError) -> (r: McpError) {
        McpError::JsonRpcError(err.message)
    }
}

impl vstd::std_specs::convert::FromSpecImpl<JsonRpcError> for McpError {
    open spec fn obeys_from_spec() -> bool {
        true
    }

    open spec fn from_spec(err: JsonRpcError) -> McpError {
        McpError::JsonRpcError(err.message)
    }
}

impl McpError {
    /// The complete JSON body the transport writes when a call fails
    /// outside the normal response path: a response whose error is this
    /// member's JSON-RPC error object and whose identifier is null.
    pub fn error_body(&self) -> (r: String)
        ensures
            r@ == crate::json::json_text(
                crate::jsonrpc::resp_json(
                    crate::jsonrpc::error_data(jsonrpc_error_of(self@), None),
                ),
            ),
    {
        let response = crate::jsonrpc::JsonRpcResponse::error(self.to_jsonrpc_error(), None);
        let doc = crate::jsonrpc::response_to_json(&response);
        crate::json::to_text(&doc)
    }
}

} // verus!
