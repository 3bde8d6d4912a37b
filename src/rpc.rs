//! JSON-RPC 2.0 requests and responses, as plain values.
use vstd::prelude::*;
use crate::model::{PromptDescriptor, PromptExecutionResult, ResourceDescriptor, ResourceReadResult};
use crate::text::same_text;

verus! {

/// Invalid JSON was received.
pub const PARSE_ERROR: i64 = -32700;

/// The JSON sent is not a valid request object.
pub const INVALID_REQUEST: i64 = -32600;

/// The method does not exist.
pub const METHOD_NOT_FOUND: i64 = -32601;

/// Invalid method parameters, or an unknown resource or prompt.
pub const INVALID_PARAMS: i64 = -32602;

/// A handler failed.
pub const INTERNAL_ERROR: i64 = -32603;

/// The `id` of a request; `Null` where none could be read.
#[derive(Debug)]
pub enum RequestId {
    Null,
    Number(i64),
    Text(String),
}

impl Clone for RequestId {
    fn clone(&self) -> (r: Self)
        ensures
            r == *self,
    {
        match self {
            RequestId::Null => RequestId::Null,
            RequestId::Number(n) => RequestId::Number(*n),
            RequestId::Text(s) => RequestId::Text(s.clone()),
        }
    }
}

/// The parameters this server reads; absent ones are `None` or empty.
pub struct Params {
    pub uri: Option<String>,
    pub name: Option<String>,
    /// String-valued prompt arguments, in the order they were sent.
    pub arguments: Vec<(String, String)>,
}

/// A decoded request envelope. Without an `id` it is a notification.
pub struct Request {
    pub jsonrpc: String,
    pub id: Option<RequestId>,
    pub method: String,
    pub params: Params,
}

/// What arrived on the wire.
pub enum Incoming {
    /// The body is not JSON.
    Malformed,
    /// JSON, but not a request object; `id` is what could be read of it.
    Invalid { id: RequestId },
    /// A request or notification.
    Call(Request),
}

/// A JSON-RPC error object.
#[derive(Debug)]
pub struct RpcError {
    pub code: i64,
    pub message: String,
}

/// What `initialize` reports, and what the server-info document holds.
#[derive(Debug)]
pub struct ServerInfo {
    pub name: String,
    pub version: String,
    pub description: String,
    pub protocol_version: String,
}

impl Clone for ServerInfo {
    fn clone(&self) -> (r: Self)
        ensures
            r == *self,
    {
        ServerInfo {
            name: self.name.clone(),
            version: self.version.clone(),
            description: self.description.clone(),
            protocol_version: self.protocol_version.clone(),
        }
    }
}

/// The result of a successful call.
pub enum RpcResult {
    /// `initialize`: protocol version, capabilities for resources and
    /// prompts, and server info.
    Initialize(ServerInfo),
    /// `ping`: an empty object.
    Pong,
    /// `resources/list`.
    Resources(Vec<ResourceDescriptor>),
    /// `resources/read`.
    Contents(ResourceReadResult),
    /// `prompts/list`.
    Prompts(Vec<PromptDescriptor>),
    /// `prompts/get`: the message is sent as one user-role text message.
    PromptMessage(PromptExecutionResult),
}

/// A response envelope.
pub struct Response {
    pub id: RequestId,
    pub body: Result<RpcResult, RpcError>,
}

/// The methods this server answers.
pub enum Method {
    Initialize,
    Ping,
    ResourcesList,
    ResourcesRead,
    PromptsList,
    PromptsGet,
    Unknown,
}

/// The method a name denotes.
pub open spec fn method_of(m: Seq<char>) -> Method {
    if m == "initialize"@ {
        Method::Initialize
    } else if m == "ping"@ {
        Method::Ping
    } else if m == "resources/list"@ {
        Method::ResourcesList
    } else if m == "resources/read"@ {
        Method::ResourcesRead
    } else if m == "prompts/list"@ {
        Method::PromptsList
    } else if m == "prompts/get"@ {
        Method::PromptsGet
    } else {
        Method::Unknown
    }
}

/// Recognises a method name.
pub fn parse_method(m: &str) -> (r: Method)
    ensures
        r == method_of(m@),
{
    if same_text(m, "initialize") {
        Method::Initialize
    } else if same_text(m, "ping") {
        Method::Ping
    } else if same_text(m, "resources/list") {
        Method::ResourcesList
    } else if same_text(m, "resources/read") {
        Method::ResourcesRead
    } else if same_text(m, "prompts/list") {
        Method::PromptsList
    } else if same_text(m, "prompts/get") {
        Method::PromptsGet
    } else {
        Method::Unknown
    }
}

/// `out` is the error response `{id, error: {code, message}}`.
pub open spec fn is_error_response(r: Response, id: RequestId, code: i64, message: Seq<char>) -> bool {
    &&& r.id == id
    &&& r.body is Err
    &&& r.body->Err_0.code == code
    &&& r.body->Err_0.message@ == message
}

/// The message of a parse error.
pub open spec fn parse_error_text() -> Seq<char> {
    "Parse error"@
}

/// The response to a body that is not JSON: `id` is null.
pub fn parse_error_response() -> (r: Response)
    ensures
        is_error_response(r, RequestId::Null, PARSE_ERROR, parse_error_text()),
{
    Response {
        id: RequestId::Null,
        body: Err(RpcError { code: PARSE_ERROR, message: String::from_str("Parse error") }),
    }
}

/// An error response.
pub fn error_response(id: RequestId, code: i64, message: String) -> (r: Response)
    ensures
        is_error_response(r, id, code, message@),
{
    Response { id, body: Err(RpcError { code, message }) }
}

} // verus!
