//! JSON-RPC 2.0 message types: requests, responses, error objects, and the
//! structural validation that precedes any routing.
//!
//! Each type has a ghost counterpart (`ReqData`, `RespData`, `ErrData`,
//! `IdData`) over which all contracts are stated.

use vstd::prelude::*;
use vstd::string::*;

use crate::error_codes;
use crate::json::{jd_members, json_field, json_get, JsonData, JsonValue};

verus! {

broadcast use
    crate::json::lemma_jd_members_index,
    crate::json::lemma_jd_members_len,
    vstd::std_specs::vec::group_vec_axioms,
;

/// A request identifier: a string or an integer.
#[derive(Debug, PartialEq, Eq, Hash)]
pub enum RequestId {
    String(String),
    Number(i64),
}

/// Ghost model of a request identifier.
pub enum IdData {
    StrId(Seq<char>),
    NumId(int),
}

impl View for RequestId {
    type V = IdData;

    open spec fn view(&self) -> IdData {
        match self {
            RequestId::String(s) => IdData::StrId(s@),
            RequestId::Number(n) => IdData::NumId(*n as int),
        }
    }
}

impl DeepView for RequestId {
    type V = IdData;

    open spec fn deep_view(&self) -> IdData {
        self.view()
    }
}

impl Clone for RequestId {
    /// A clone has the same model as the original.
    fn clone(&self) -> (r: Self)
        ensures
            r@ == self@,
    {
        match self {
            RequestId::String(s) => RequestId::String(s.clone()),
            RequestId::Number(n) => RequestId::Number(*n),
        }
    }
}

/// A JSON-RPC error object.
#[derive(Debug, PartialEq, Eq)]
pub struct JsonRpcError {
    pub code: i32,
    pub message: String,
    pub data: Option<JsonValue>,
}

/// Ghost model of a JSON-RPC error object.
pub struct ErrData {
    pub code: int,
    pub message: Seq<char>,
    pub data: Option<JsonData>,
}

impl View for JsonRpcError {
    type V = ErrData;

    open spec fn view(&self) -> ErrData {
        ErrData { code: self.code as int, message: self.message@, data: self.data.deep_view() }
    }
}

impl DeepView for JsonRpcError {
    type V = ErrData;

    open spec fn deep_view(&self) -> ErrData {
        self.view()
    }
}

impl Clone for JsonRpcError {
    /// A clone has the same model as the original.
    fn clone(&self) -> (r: Self)
        ensures
            r@ == self@,
    {
        JsonRpcError {
            code: self.code,
            message: self.message.clone(),
            data: match &self.data {
                Some(d) => Some(d.clone()),
                None => None,
            },
        }
    }
}

/// A JSON-RPC request (or, when `id` is absent, a notification).
#[derive(Debug, PartialEq, Eq)]
pub struct JsonRpcRequest {
    pub jsonrpc: String,
    pub method: String,
    pub params: Option<JsonValue>,
    pub id: Option<RequestId>,
}

/// Ghost model of a JSON-RPC request.
pub struct ReqData {
    pub jsonrpc: Seq<char>,
    pub method: Seq<char>,
    pub params: Option<JsonData>,
    pub id: Option<IdData>,
}

impl View for JsonRpcRequest {
    type V = ReqData;

    open spec fn view(&self) -> ReqData {
        ReqData {
            jsonrpc: self.jsonrpc@,
            method: self.method@,
            params: self.params.deep_view(),
            id: self.id.deep_view(),
        }
    }
}

impl DeepView for JsonRpcRequest {
    type V = ReqData;

    open spec fn deep_view(&self) -> ReqData {
        self.view()
    }
}

impl Clone for JsonRpcRequest {
    /// A clone has the same model as the original.
    fn clone(&self) -> (r: Self)
        ensures
            r@ == self@,
    {
        JsonRpcRequest {
            jsonrpc: self.jsonrpc.clone(),
            method: self.method.clone(),
            params: match &self.params {
                Some(p) => Some(p.clone()),
                None => None,
            },
            id: match &self.id {
                Some(i) => Some(i.clone()),
                None => None,
            },
        }
    }
}

/// A JSON-RPC response: exactly one of `result` and `error` is set by the
/// constructors below.
#[derive(Debug, PartialEq, Eq)]
pub struct JsonRpcResponse {
    pub jsonrpc: String,
    pub result: Option<JsonValue>,
    pub error: Option<JsonRpcError>,
    pub id: Option<RequestId>,
}

/// Ghost model of a JSON-RPC response.
pub struct RespData {
    pub jsonrpc: Seq<char>,
    pub result: Option<JsonData>,
    pub error: Option<ErrData>,
    pub id: Option<IdData>,
}

impl View for JsonRpcResponse {
    type V = RespData;

    open spec fn view(&self) -> RespData {
        RespData {
            jsonrpc: self.jsonrpc@,
            result: self.result.deep_view(),
            error: self.error.deep_view(),
            id: self.id.deep_view(),
        }
    }
}

impl DeepView for JsonRpcResponse {
    type V = RespData;

    open spec fn deep_view(&self) -> RespData {
        self.view()
    }
}

impl Clone for JsonRpcResponse {
    /// A clone has the same model as the original.
    fn clone(&self) -> (r: Self)
        ensures
            r@ == self@,
    {
        JsonRpcResponse {
            jsonrpc: self.jsonrpc.clone(),
            result: match &self.result {
                Some(v) => Some(v.clone()),
                None => None,
            },
            error: match &self.error {
                Some(e) => Some(e.clone()),
                None => None,
            },
            id: match &self.id {
                Some(i) => Some(i.clone()),
                None => None,
            },
        }
    }
}

/// A structurally valid message: the fixed version tag and a non-empty
/// method name.
pub open spec fn req_structurally_valid(r: ReqData) -> bool {
    r.jsonrpc == "2.0"@ && r.method.len() > 0
}

/// A success response: the given result, no error, the given identifier.
pub open spec fn success_data(result: JsonData, id: Option<IdData>) -> RespData {
    RespData { jsonrpc: "2.0"@, result: Some(result), error: None, id }
}

/// An error response: no result, the given error object, the given
/// identifier.
pub open spec fn error_data(error: ErrData, id: Option<IdData>) -> RespData {
    RespData { jsonrpc: "2.0"@, result: None, error: Some(error), id }
}

/// An error object without attached data.
pub open spec fn plain_err(code: int, message: Seq<char>) -> ErrData {
    ErrData { code, message, data: None }
}

impl JsonRpcRequest {
    /// A fresh request carrying the fixed version tag.
    pub fn new(method: String, params: Option<JsonValue>, id: Option<RequestId>) -> (r: Self)
        ensures
            r@ == (ReqData {
                jsonrpc: "2.0"@,
                method: method@,
                params: params.deep_view(),
                id: id.deep_view(),
            }),
    {
        JsonRpcRequest { jsonrpc: "2.0".to_owned(), method, params, id }
    }

    /// A message without an identifier is a notification and must never
    /// receive a response.
    pub fn is_notification(&self) -> (r: bool)
        ensures
            r == (self@.id is None),
    {
        self.id.is_none()
    }

    /// Structural validation: the version tag must read `2.0` and the method
    /// must be non-empty; each violation yields the invalid-request error
    /// stated below, and validation succeeds on exactly the other messages.
    pub fn validate(&self) -> (r: Result<(), JsonRpcError>)
        ensures
            self@.jsonrpc != "2.0"@ ==> (r matches Err(e) && e@ == plain_err(
                error_codes::INVALID_REQUEST as int,
                "Invalid JSON-RPC version"@,
            )),
            self@.jsonrpc == "2.0"@ && self@.method.len() == 0 ==> (r matches Err(e) && e@
                == plain_err(error_codes::INVALID_REQUEST as int, "Method cannot be empty"@)),
            req_structurally_valid(self@) ==> r is Ok,
    {
        if !crate::json::str_eq(self.jsonrpc.as_str(), "2.0") {
            return Err(
                JsonRpcError {
                    code: error_codes::INVALID_REQUEST,
                    message: "Invalid JSON-RPC version".to_owned(),
                    data: None,
                },
            );
        }
        if self.method.as_str().unicode_len() == 0 {
            return Err(
                JsonRpcError {
                    code: error_codes::INVALID_REQUEST,
                    message: "Method cannot be empty".to_owned(),
                    data: None,
                },
            );
        }
        Ok(())
    }
}

impl JsonRpcResponse {
    /// A success response echoing `id`.
    pub fn success(result: JsonValue, id: Option<RequestId>) -> (r: Self)
        ensures
            r@ == success_data(result@, id.deep_view()),
    {
        JsonRpcResponse { jsonrpc: "2.0".to_owned(), result: Some(result), error: None, id }
    }

    /// An error response echoing `id`.
    pub fn error(error: JsonRpcError, id: Option<RequestId>) -> (r: Self)
        ensures
            r@ == error_data(error@, id.deep_view()),
    {
        JsonRpcResponse { jsonrpc: "2.0".to_owned(), result: None, error: Some(error), id }
    }
}

impl JsonRpcError {
    /// The fixed parse-error object.
    pub fn parse_error() -> (r: Self)
        ensures
            r@ == plain_err(error_codes::PARSE_ERROR as int, "Parse error"@),
    {
        JsonRpcError {
            code: error_codes::PARSE_ERROR,
            message: "Parse error".to_owned(),
            data: None,
        }
    }

    /// An invalid-request error with the given message.
    pub fn invalid_request(message: &str) -> (r: Self)
        ensures
            r@ == plain_err(error_codes::INVALID_REQUEST as int, message@),
    {
        JsonRpcError {
            code: error_codes::INVALID_REQUEST,
            message: message.to_owned(),
            data: None,
        }
    }

    /// A method-not-found error naming the offending method.
    pub fn method_not_found(method: &str) -> (r: Self)
        ensures
            r@ == plain_err(
                error_codes::METHOD_NOT_FOUND as int,
                "Method not found: "@ + method@,
            ),
    {
        JsonRpcError {
            code: error_codes::METHOD_NOT_FOUND,
            message: "Method not found: ".to_owned().concat(method),
            data: None,
        }
    }

    /// An invalid-params error with the given message.
    pub fn invalid_params(message: &str) -> (r: Self)
        ensures
            r@ == plain_err(error_codes::INVALID_PARAMS as int, message@),
    {
        JsonRpcError {
            code: error_codes::INVALID_PARAMS,
            message: message.to_owned(),
            data: None,
        }
    }

    /// An internal error with the given message.
    pub fn internal_error(message: &str) -> (r: Self)
        ensures
            r@ == plain_err(error_codes::INTERNAL_ERROR as int, message@),
    {
        JsonRpcError {
            code: error_codes::INTERNAL_ERROR,
            message: message.to_owned(),
            data: None,
        }
    }
}

/// The request a JSON document describes: an object whose `jsonrpc` and
/// `method` fields are strings, whose `params` field (when present) may be
/// anything, and whose `id` field (when present) is a string, an integer, or
/// null (null counts as no identifier). Anything else is no request.
pub open spec fn parse_request(d: JsonData) -> Option<ReqData> {
    match d {
        JsonData::Obj(_) => match (json_field(d, "jsonrpc"@), json_field(d, "method"@)) {
            (Some(JsonData::Str(j)), Some(JsonData::Str(m))) => match parse_id_field(
                json_field(d, "id"@),
            ) {
                Some(id) => Some(
                    ReqData { jsonrpc: j, method: m, params: json_field(d, "params"@), id },
                ),
                None => None,
            },
            _ => None,
        },
        _ => None,
    }
}

/// The identifier an `id` field describes; `None` when the field's shape is
/// not accepted.
pub open spec fn parse_id_field(f: Option<JsonData>) -> Option<Option<IdData>> {
    match f {
        None => Some(None),
        Some(JsonData::Null) => Some(None),
        Some(JsonData::Str(s)) => Some(Some(IdData::StrId(s))),
        Some(JsonData::Int(i)) => Some(Some(IdData::NumId(i))),
        Some(_) => None,
    }
}

/// Reads a JSON-RPC request out of a decoded JSON document; `None` when the
/// document does not have the request shape.
pub fn request_from_json(v: &JsonValue) -> (r: Option<JsonRpcRequest>)
    ensures
        match r {
            Some(req) => parse_request(v@) == Some(req@),
            None => parse_request(v@) is None,
        },
{
    match v {
        JsonValue::Object(_) => {},
        _ => {
            return None;
        },
    }
    let jsonrpc: String = match json_get(v, "jsonrpc") {
        Some(JsonValue::Str(s)) => s.clone(),
        _ => {
            return None;
        },
    };
    let method: String = match json_get(v, "method") {
        Some(JsonValue::Str(s)) => s.clone(),
        _ => {
            return None;
        },
    };
    let id: Option<RequestId> = match json_get(v, "id") {
        None => None,
        Some(JsonValue::Null) => None,
        Some(JsonValue::Str(s)) => Some(RequestId::String(s.clone())),
        Some(JsonValue::Int(i)) => Some(RequestId::Number(*i)),
        Some(_) => {
            return None;
        },
    };
    let params: Option<JsonValue> = match json_get(v, "params") {
        Some(p) => Some(p.clone()),
        None => None,
    };
    Some(JsonRpcRequest { jsonrpc, method, params, id })
}

/// The JSON document of an error object: `code`, `message`, and `data` when
/// present, in that order.
pub open spec fn err_json(e: ErrData) -> JsonData {
    match e.data {
        Some(d) => JsonData::Obj(
            seq![
                ("code"@, JsonData::Int(e.code)),
                ("message"@, JsonData::Str(e.message)),
                ("data"@, d),
            ],
        ),
        None => JsonData::Obj(
            seq![("code"@, JsonData::Int(e.code)), ("message"@, JsonData::Str(e.message))],
        ),
    }
}

/// The JSON document of an identifier; an absent identifier serializes as
/// null.
pub open spec fn id_json(id: Option<IdData>) -> JsonData {
    match id {
        Some(IdData::StrId(s)) => JsonData::Str(s),
        Some(IdData::NumId(n)) => JsonData::Int(n),
        None => JsonData::Null,
    }
}

/// The JSON document of a whole response: the version tag, then `result` or
/// `error` (only the one that is set), then the echoed identifier.
pub open spec fn resp_json(r: RespData) -> JsonData {
    JsonData::Obj(resp_members(r))
}

/// The member list of a response document.
pub open spec fn resp_members(r: RespData) -> Seq<(Seq<char>, JsonData)> {
    let head = seq![("jsonrpc"@, JsonData::Str(r.jsonrpc))];
    let with_result = match r.result {
        Some(v) => head.push(("result"@, v)),
        None => head,
    };
    let with_error = match r.error {
        Some(e) => with_result.push(("error"@, err_json(e))),
        None => with_result,
    };
    with_error.push(("id"@, id_json(r.id)))
}

/// Builds the JSON document of an error object.
pub fn error_to_json(e: &JsonRpcError) -> (r: JsonValue)
    ensures
        r@ == err_json(e@),
{
    let mut members: Vec<(String, JsonValue)> = Vec::new();
    members.push(("code".to_owned(), JsonValue::Int(e.code as i64)));
    members.push(("message".to_owned(), JsonValue::Str(e.message.clone())));
    match &e.data {
        Some(d) => {
            members.push(("data".to_owned(), d.clone()));
        },
        None => {},
    }
    let r = JsonValue::Object(members);
    proof {
        match e@.data {
            Some(_) => {
                assert(jd_members(r->Object_0@) =~= err_json(e@)->Obj_0);
            },
            None => {
                assert(jd_members(r->Object_0@) =~= err_json(e@)->Obj_0);
            },
        }
    }
    r
}

/// Builds the JSON document of a whole response, ready for encoding onto the
/// wire.
pub fn response_to_json(resp: &JsonRpcResponse) -> (r: JsonValue)
    ensures
        r@ == resp_json(resp@),
{
    let mut members: Vec<(String, JsonValue)> = Vec::new();
    members.push(("jsonrpc".to_owned(), JsonValue::Str(resp.jsonrpc.clone())));
    match &resp.result {
        Some(v) => {
            members.push(("result".to_owned(), v.clone()));
        },
        None => {},
    }
    match &resp.error {
        Some(e) => {
            members.push(("error".to_owned(), error_to_json(e)));
        },
        None => {},
    }
    let id_value: JsonValue = match &resp.id {
        Some(RequestId::String(s)) => JsonValue::Str(s.clone()),
        Some(RequestId::Number(n)) => JsonValue::Int(*n),
        None => JsonValue::Null,
    };
    members.push(("id".to_owned(), id_value));
    let r = JsonValue::Object(members);
    proof {
        assert(jd_members(r->Object_0@) =~= resp_members(resp@));
    }
    r
}

} // verus!
