use vstd::prelude::*;
use crate::json::{Json, JsonModel};
use crate::text::joined;

verus! {

/// The version that every envelope names.
pub const JSONRPC_VERSION: &'static str = "2.0";

/// The body was no JSON document, or the document was no request.
pub const PARSE_ERROR: i32 = -32700;

/// The request names a method that the server does not have.
pub const METHOD_NOT_FOUND: i32 = -32601;

/// The request lacks a parameter, or one of its parameters is not accepted.
pub const INVALID_PARAMS: i32 = -32602;

/// The server failed while it put the answer together.
pub const INTERNAL_ERROR: i32 = -32603;

/// A request as the client sent it. A request without `id`, or with the
/// `id` `null`, is a notification: the client expects no answer to it.
#[derive(Debug, PartialEq, Eq)]
pub struct JsonRpcRequest {
    pub jsonrpc: String,
    pub id: Option<Json>,
    pub method: String,
    pub params: Option<Json>,
}

/// Why a request was not served.
#[derive(Debug, PartialEq, Eq)]
pub struct JsonRpcError {
    pub code: i32,
    pub message: String,
    pub data: Option<Json>,
}

/// The answer to a request: a result or an error, never both.
#[derive(Debug, PartialEq, Eq)]
pub struct JsonRpcResponse {
    pub jsonrpc: String,
    pub id: Option<Json>,
    pub result: Option<Json>,
    pub error: Option<JsonRpcError>,
}

pub struct RequestModel {
    pub jsonrpc: Seq<char>,
    pub id: Option<JsonModel>,
    pub method: Seq<char>,
    pub params: Option<JsonModel>,
}

pub struct ErrorModel {
    pub code: int,
    pub message: Seq<char>,
    pub data: Option<JsonModel>,
}

pub struct ResponseModel {
    pub jsonrpc: Seq<char>,
    pub id: Option<JsonModel>,
    pub result: Option<JsonModel>,
    pub error: Option<ErrorModel>,
}

/// The document of an optional value.
pub open spec fn opt_json(j: Option<Json>) -> Option<JsonModel> {
    match j {
        Some(v) => Some(v@),
        None => None,
    }
}

impl JsonRpcRequest {
    pub open spec fn view(&self) -> RequestModel {
        RequestModel {
            jsonrpc: self.jsonrpc@,
            id: opt_json(self.id),
            method: self.method@,
            params: opt_json(self.params),
        }
    }
}

impl JsonRpcError {
    pub open spec fn view(&self) -> ErrorModel {
        ErrorModel { code: self.code as int, message: self.message@, data: opt_json(self.data) }
    }
}

impl JsonRpcResponse {
    pub open spec fn view(&self) -> ResponseModel {
        ResponseModel {
            jsonrpc: self.jsonrpc@,
            id: opt_json(self.id),
            result: opt_json(self.result),
            error: match self.error {
                Some(e) => Some(e@),
                None => None,
            },
        }
    }

    /// The answer that carries `result`.
    pub fn success(id: Option<Json>, result: Json) -> (r: JsonRpcResponse)
        ensures
            r@ == success_model(opt_json(id), result@),
    {
        JsonRpcResponse {
            jsonrpc: String::from_str(JSONRPC_VERSION),
            id,
            result: Some(result),
            error: None,
        }
    }

    /// The answer that reports an error by its code and message.
    pub fn failure(id: Option<Json>, code: i32, message: String) -> (r: JsonRpcResponse)
        ensures
            r@ == failure_model(opt_json(id), code as int, message@),
    {
        JsonRpcResponse {
            jsonrpc: String::from_str(JSONRPC_VERSION),
            id,
            result: None,
            error: Some(JsonRpcError { code, message, data: None }),
        }
    }

    /// Whether this answer reports an error.
    pub fn is_error(&self) -> (yes: bool)
        ensures
            yes == self@.error.is_some(),
    {
        self.error.is_some()
    }
}

impl ResponseModel {
    /// An answer holds a result or an error, never both, and names the
    /// envelope version.
    pub open spec fn well_formed(self) -> bool {
        &&& self.jsonrpc == JSONRPC_VERSION@
        &&& self.result.is_some() != self.error.is_some()
    }
}

/// The answer to `id` that carries `result`.
pub open spec fn success_model(id: Option<JsonModel>, result: JsonModel) -> ResponseModel {
    ResponseModel { jsonrpc: JSONRPC_VERSION@, id, result: Some(result), error: None }
}

/// The answer to `id` that reports the error `code` with `message`.
pub open spec fn failure_model(
    id: Option<JsonModel>,
    code: int,
    message: Seq<char>,
) -> ResponseModel {
    ResponseModel {
        jsonrpc: JSONRPC_VERSION@,
        id,
        result: None,
        error: Some(ErrorModel { code, message, data: None }),
    }
}

/// The member `params` of a request document; a `null` counts as absent.
pub open spec fn params_of(doc: JsonModel) -> Option<JsonModel> {
    match doc.field("params"@) {
        Some(JsonModel::Null) => None,
        other => other,
    }
}

/// The member `id` of a request document; a `null` counts as absent, so
/// that the request is a notification.
pub open spec fn id_of(doc: JsonModel) -> Option<JsonModel> {
    match doc.field("id"@) {
        Some(JsonModel::Null) => None,
        other => other,
    }
}

/// How a document reads as a request. It must be an object with a string
/// `jsonrpc` and a string `method`; `id` and `params` are taken as they
/// are, but that a `null` counts as absent. The error is the reason why the
/// document is no request.
pub open spec fn decode_request(doc: JsonModel) -> Result<RequestModel, Seq<char>> {
    if !doc.is_object() {
        Err("invalid type: expected a request object"@)
    } else if doc.field("jsonrpc"@) is None {
        Err("missing field `jsonrpc`"@)
    } else if doc.text_field("jsonrpc"@) is None {
        Err("invalid type: field `jsonrpc` must be a string"@)
    } else if doc.field("method"@) is None {
        Err("missing field `method`"@)
    } else if doc.text_field("method"@) is None {
        Err("invalid type: field `method` must be a string"@)
    } else {
        Ok(
            RequestModel {
                jsonrpc: doc.text_field("jsonrpc"@).unwrap(),
                id: id_of(doc),
                method: doc.text_field("method"@).unwrap(),
                params: params_of(doc),
            },
        )
    }
}

/// The text of the error code -32700 for this reason.
pub open spec fn parse_error_message(reason: Seq<char>) -> Seq<char> {
    "Parse error: "@ + reason
}

/// The answer to a body that could not be read as a request.
pub open spec fn parse_failure_model(reason: Seq<char>) -> ResponseModel {
    failure_model(None, PARSE_ERROR as int, parse_error_message(reason))
}

/// The answer to a body that could not be read as a request.
pub fn parse_failure(reason: &str) -> (r: JsonRpcResponse)
    ensures
        r@ == parse_failure_model(reason@),
{
    JsonRpcResponse::failure(None, PARSE_ERROR, joined("Parse error: ", reason))
}

impl JsonRpcRequest {
    /// Reads a document as a request.
    pub fn from_json(doc: &Json) -> (out: Result<JsonRpcRequest, String>)
        ensures
            match out {
                Ok(req) => decode_request(doc@) == Ok::<RequestModel, Seq<char>>(req@),
                Err(why) => decode_request(doc@) == Err::<RequestModel, Seq<char>>(why@),
            },
    {
        if !doc.is_object() {
            return Err(String::from_str("invalid type: expected a request object"));
        }
        let jsonrpc = match doc.get("jsonrpc") {
            None => {
                return Err(String::from_str("missing field `jsonrpc`"));
            },
            Some(v) => match v.as_str() {
                None => {
                    return Err(
                        String::from_str("invalid type: field `jsonrpc` must be a string"),
                    );
                },
                Some(s) => String::from_str(s),
            },
        };
        let method = match doc.get("method") {
            None => {
                return Err(String::from_str("missing field `method`"));
            },
            Some(v) => match v.as_str() {
                None => {
                    return Err(String::from_str("invalid type: field `method` must be a string"));
                },
                Some(s) => String::from_str(s),
            },
        };
        let id = match doc.get("id") {
            Some(Json::Null) => None,
            Some(v) => Some(v.duplicate()),
            None => None,
        };
        let params = match doc.get("params") {
            Some(Json::Null) => None,
            Some(v) => Some(v.duplicate()),
            None => None,
        };
        Ok(JsonRpcRequest { jsonrpc, id, method, params })
    }

    /// Whether the client expects no answer.
    pub fn is_notification(&self) -> (yes: bool)
        ensures
            yes == self@.id.is_none(),
    {
        self.id.is_none()
    }
}

} // verus!
