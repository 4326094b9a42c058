//! The envelope of the protocol: requests, responses and errors.

use crate::json::{object, signed, Json, JsonView, Members};
use vstd::prelude::*;

verus! {

/// A request. Its id is never looked into: it is handed back as it came.
#[derive(Debug)]
pub struct JsonRpcRequest {
    pub jsonrpc: String,
    pub id: Json,
    pub method: String,
    pub params: Option<Json>,
}

/// A response: to the request that bore `id`, with either a result or an
/// error.
#[derive(Debug)]
pub struct JsonRpcResponse {
    pub jsonrpc: String,
    pub id: Json,
    pub result: Option<Json>,
    pub error: Option<JsonRpcError>,
}

#[derive(Debug)]
/// An error: a code, a message for people, and data where there is any.
pub struct JsonRpcError {
    pub code: i32,
    pub message: String,
    pub data: Option<Json>,
}

/// What a request holds.
pub ghost struct RequestView {
    pub jsonrpc: Seq<char>,
    pub id: JsonView,
    pub method: Seq<char>,
    pub params: Option<JsonView>,
}

/// What an error holds.
pub ghost struct ErrorView {
    pub code: int,
    pub message: Seq<char>,
    pub data: Option<JsonView>,
}

/// What a response holds.
pub ghost struct ResponseView {
    pub jsonrpc: Seq<char>,
    pub id: JsonView,
    pub result: Option<JsonView>,
    pub error: Option<ErrorView>,
}

/// The view of a document that may be absent.
pub open spec fn opt_view(j: Option<Json>) -> Option<JsonView> {
    match j {
        Some(x) => Some(x@),
        None => None,
    }
}

impl View for JsonRpcRequest {
    type V = RequestView;

    open spec fn view(&self) -> RequestView {
        RequestView {
            jsonrpc: self.jsonrpc@,
            id: self.id@,
            method: self.method@,
            params: opt_view(self.params),
        }
    }
}

impl View for JsonRpcError {
    type V = ErrorView;

    open spec fn view(&self) -> ErrorView {
        ErrorView { code: self.code as int, message: self.message@, data: opt_view(self.data) }
    }
}

impl View for JsonRpcResponse {
    type V = ResponseView;

    open spec fn view(&self) -> ResponseView {
        ResponseView {
            jsonrpc: self.jsonrpc@,
            id: self.id@,
            result: opt_view(self.result),
            error: match self.error {
                Some(e) => Some(e@),
                None => None,
            },
        }
    }
}

/// The code of a line that is no request.
pub const PARSE_ERROR: i32 = -32700;

/// The code of a request for a method that there is not.
pub const METHOD_NOT_FOUND: i32 = -32601;

/// The code of a request whose parameters cannot be used.
pub const INVALID_PARAMS: i32 = -32602;

/// The code of a tool that failed.
pub const TOOL_FAILURE: i32 = -32000;

/// The request that a document holds. A request is an object whose member
/// `method` is a string and whose member `jsonrpc`, where it has one, is a
/// string. Its id is the member `id`, and null where there is none. Its
/// parameters are the member `params`, unless that is null or absent.
pub open spec fn request_of(j: JsonView) -> Result<RequestView, Seq<char>> {
    if !(j is Object) {
        Err("invalid type: expected a request object"@)
    } else {
        match j.text_member("method"@) {
            None => Err("missing field `method`"@),
            Some(method) => {
                let id = match j.member("id"@) {
                    Some(i) => i,
                    None => JsonView::Null,
                };
                let params = match j.member("params"@) {
                    Some(JsonView::Null) => None,
                    other => other,
                };
                match j.member("jsonrpc"@) {
                    None => Ok(RequestView { jsonrpc: "2.0"@, id, method, params }),
                    Some(JsonView::Str(tag)) => Ok(RequestView { jsonrpc: tag, id, method, params }),
                    Some(_) => Err("invalid type: `jsonrpc` must be a string"@),
                }
            },
        }
    }
}

/// The response that gives a result.
pub open spec fn success(id: JsonView, result: JsonView) -> ResponseView {
    ResponseView { jsonrpc: "2.0"@, id, result: Some(result), error: None }
}

/// The response that tells an error.
pub open spec fn failure(id: JsonView, code: int, message: Seq<char>, data: Option<JsonView>) -> ResponseView {
    ResponseView {
        jsonrpc: "2.0"@,
        id,
        result: None,
        error: Some(ErrorView { code, message, data }),
    }
}

/// The members of a document, and one more where there is something to add.
pub open spec fn with(
    entries: Seq<(Seq<char>, JsonView)>,
    key: Seq<char>,
    value: Option<JsonView>,
) -> Seq<(Seq<char>, JsonView)> {
    match value {
        Some(v) => entries.push((key, v)),
        None => entries,
    }
}

impl ErrorView {
    /// The error as a document: its data is left out where there is none.
    pub open spec fn document(self) -> JsonView {
        object(
            with(
                Seq::empty().push(("code"@, signed(self.code as i64))).push(
                    ("message"@, JsonView::Str(self.message)),
                ),
                "data"@,
                self.data,
            ),
        )
    }
}

impl ResponseView {
    /// A response has a result or an error, and not both.
    pub open spec fn well_formed(self) -> bool {
        self.result is Some <==> self.error is None
    }

    /// The response as a document: of the result and the error, the one
    /// that is there.
    pub open spec fn document(self) -> JsonView {
        object(
            with(
                with(
                    Seq::empty().push(("jsonrpc"@, JsonView::Str(self.jsonrpc))).push(
                        ("id"@, self.id),
                    ),
                    "result"@,
                    self.result,
                ),
                "error"@,
                match self.error {
                    Some(e) => Some(e.document()),
                    None => None,
                },
            ),
        )
    }
}

impl JsonRpcRequest {
    /// Reads a request from a document; where the document holds none, says
    /// why.
    pub fn from_json(j: &Json) -> (r: Result<JsonRpcRequest, String>)
        ensures
            match r {
                Ok(req) => request_of(j@) == Ok::<RequestView, Seq<char>>(req@),
                Err(e) => request_of(j@) == Err::<RequestView, Seq<char>>(e@),
            },
    {
        match j {
            Json::Object(_) => {},
            _ => {
                return Err("invalid type: expected a request object".to_owned());
            },
        }
        let method = match j.get_str("method") {
            Some(m) => m.to_owned(),
            None => {
                return Err("missing field `method`".to_owned());
            },
        };
        let id = match j.get("id") {
            Some(i) => i.duplicate(),
            None => Json::Null,
        };
        let params = match j.get("params") {
            None => None,
            Some(Json::Null) => None,
            Some(p) => Some(p.duplicate()),
        };
        let jsonrpc = match j.get("jsonrpc") {
            None => "2.0".to_owned(),
            Some(Json::Str(tag)) => tag.clone(),
            Some(_) => {
                return Err("invalid type: `jsonrpc` must be a string".to_owned());
            },
        };
        Ok(JsonRpcRequest { jsonrpc, id, method, params })
    }
}

impl JsonRpcError {
    /// The error as a document.
    pub fn to_json(&self) -> (j: Json)
        ensures
            j@ == self@.document(),
    {
        let mut m = Members::new();
        m.put("code", Json::from_i64(self.code as i64));
        m.put("message", Json::text(self.message.as_str()));
        match &self.data {
            Some(d) => {
                m.put("data", d.duplicate());
            },
            None => {},
        }
        m.finish()
    }
}

impl JsonRpcResponse {
    /// The response that gives `result` to the request that bore `id`.
    pub fn success(id: Json, result: Json) -> (r: JsonRpcResponse)
        ensures
            r@ == success(id@, result@),
            r@.well_formed(),
    {
        JsonRpcResponse { jsonrpc: "2.0".to_owned(), id, result: Some(result), error: None }
    }

    /// The response that tells an error to the request that bore `id`.
    pub fn failure(id: Json, code: i32, message: &str, data: Option<Json>) -> (r: JsonRpcResponse)
        ensures
            r@ == failure(id@, code as int, message@, opt_view(data)),
            r@.well_formed(),
    {
        JsonRpcResponse {
            jsonrpc: "2.0".to_owned(),
            id,
            result: None,
            error: Some(JsonRpcError { code, message: message.to_owned(), data }),
        }
    }

    /// The response as a document.
    pub fn to_json(&self) -> (j: Json)
        ensures
            j@ == self@.document(),
    {
        let mut m = Members::new();
        m.put("jsonrpc", Json::text(self.jsonrpc.as_str()));
        m.put("id", self.id.duplicate());
        match &self.result {
            Some(r) => {
                m.put("result", r.duplicate());
            },
            None => {},
        }
        match &self.error {
            Some(e) => {
                m.put("error", e.to_json());
            },
            None => {},
        }
        m.finish()
    }
}

} // verus!
