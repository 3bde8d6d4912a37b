//! The MCP dispatcher: a state machine over decoded requests.
//!
//! `handle` answers a request from the registry, or, where a handler's body
//! lives at a URL, returns a pending fetch. Its caller performs the fetch and
//! hands the outcome to `complete_fetch`, which builds the response.
use vstd::prelude::*;
use vstd::string::*;
use crate::handler::{
    fetch_error_text, finish_prompt_fetch, is_missing, load_resource_by_http,
    missing_argument_text, prompt_fetch_error_text, prompt_result, render_spec, unknown_uri_message,
    unknown_uri_text,
    FetchError, PromptEntry, PromptSource, ResourceEntry, ResourceSource, Step,
};
use crate::model::{is_text_result, same_prompt, PromptDescriptor};
use crate::registry::{has_prompt, has_uri, Registry, RegistryView};
use crate::rpc::{
    error_response, is_error_response, method_of, parse_error_response, parse_error_text,
    parse_method, Incoming, Method, Params, Request, RequestId, Response, RpcResult, ServerInfo,
    INTERNAL_ERROR, INVALID_PARAMS, INVALID_REQUEST, METHOD_NOT_FOUND, PARSE_ERROR,
};
use crate::text::{join, same_text};

verus! {

/// The protocol state of a server.
#[derive(PartialEq, Eq, Structural, Clone, Copy, Debug)]
pub enum ServerState {
    New,
    Initialized,
    Shutdown,
}

/// Whose body a pending fetch will become.
pub enum FetchTarget {
    Resource { uri: String, mime_type: String },
    Prompt { descriptor: PromptDescriptor },
}

/// A request waiting for a remote body.
pub struct PendingFetch {
    pub id: RequestId,
    pub url: String,
    pub target: FetchTarget,
}

/// What to do after a request.
pub enum Outcome {
    /// A notification: nothing is sent back.
    Silent,
    /// Send this response.
    Reply(Response),
    /// Fetch the URL, then pass the outcome to `complete_fetch`.
    Fetch(PendingFetch),
}

/// What a server holds.
pub struct ServerView {
    pub info: ServerInfo,
    pub registry: RegistryView,
    pub state: ServerState,
}

/// The version string a valid envelope carries.
pub open spec fn jsonrpc_version() -> Seq<char> {
    "2.0"@
}

/// `out` replies to `id` with the error `code` and `message`.
pub open spec fn error_out(out: Outcome, id: RequestId, code: i64, message: Seq<char>) -> bool {
    out is Reply && is_error_response(out->Reply_0, id, code, message)
}

/// `out` replies to `id` with a result.
pub open spec fn ok_out(out: Outcome, id: RequestId) -> bool {
    out is Reply && out->Reply_0.id == id && out->Reply_0.body is Ok
}

/// The result that `out` carries.
pub open spec fn result_of(out: Outcome) -> RpcResult {
    out->Reply_0.body->Ok_0
}

/// The message for a missing parameter.
pub open spec fn missing_param_text(param: Seq<char>) -> Seq<char> {
    "Missing required parameter: "@ + param
}

/// The message for an unknown prompt.
pub open spec fn unknown_prompt_text(name: Seq<char>) -> Seq<char> {
    "Unknown prompt: "@ + name
}

/// The message for an unknown method.
pub open spec fn unknown_method_text(method: Seq<char>) -> Seq<char> {
    "Method not found: "@ + method
}

/// The message for a second `initialize`.
pub open spec fn already_initialized_text() -> Seq<char> {
    "Server already initialized"@
}

/// The message for an envelope that is not a valid request.
pub open spec fn invalid_request_text() -> Seq<char> {
    "Invalid request"@
}

/// `out` answers `resources/read` of entry `e` under request `id`.
pub open spec fn read_entry_out(e: ResourceEntry, id: RequestId, out: Outcome) -> bool {
    match e.source {
        ResourceSource::Static { text } => ok_out(out, id) && result_of(out) is Contents
            && is_text_result(result_of(out)->Contents_0, e.descriptor.uri, e.descriptor.mime_type, text),
        ResourceSource::Http { url } => out is Fetch && out->Fetch_0.id == id && out->Fetch_0.url == url
            && out->Fetch_0.target == (FetchTarget::Resource {
                uri: e.descriptor.uri,
                mime_type: e.descriptor.mime_type,
            }),
    }
}

/// `out` answers `resources/read` with parameter `uri`.
pub open spec fn read_out(reg: RegistryView, id: RequestId, uri: Option<String>, out: Outcome) -> bool {
    match uri {
        None => error_out(out, id, INVALID_PARAMS, missing_param_text("uri"@)),
        Some(u) => if !has_uri(reg, u@) {
            error_out(out, id, INVALID_PARAMS, unknown_uri_text(u@))
        } else {
            forall|i: int| 0 <= i < reg.resources.len() && #[trigger] reg.resources[i].descriptor.uri@ == u@
                ==> read_entry_out(reg.resources[i], id, out)
        },
    }
}

/// Some declared argument of `e` is required and was not supplied.
pub open spec fn lacks_argument(e: PromptEntry, args: Seq<(String, String)>) -> bool {
    exists|k: int| 0 <= k < e.descriptor.arguments@.len() && is_missing(#[trigger] e.descriptor.arguments@[k], args)
}

/// `out` answers `prompts/get` of entry `e` with `args` under request `id`.
pub open spec fn get_entry_out(e: PromptEntry, id: RequestId, args: Seq<(String, String)>, out: Outcome) -> bool {
    if lacks_argument(e, args) {
        exists|k: int| 0 <= k < e.descriptor.arguments@.len()
            && is_missing(#[trigger] e.descriptor.arguments@[k], args)
            && error_out(out, id, INVALID_PARAMS, missing_argument_text(e.descriptor.arguments@[k].name@))
    } else {
        match e.source {
            PromptSource::Static { text } => ok_out(out, id) && result_of(out) is PromptMessage
                && prompt_result(e.descriptor.description, text@, result_of(out)->PromptMessage_0),
            PromptSource::Template { segments } => ok_out(out, id) && result_of(out) is PromptMessage
                && prompt_result(
                e.descriptor.description,
                render_spec(segments@, args),
                result_of(out)->PromptMessage_0,
            ),
            PromptSource::Http { url } => out is Fetch && out->Fetch_0.id == id && out->Fetch_0.url == url
                && out->Fetch_0.target is Prompt
                && same_prompt(out->Fetch_0.target->Prompt_descriptor, e.descriptor),
        }
    }
}

/// `out` answers `prompts/get` with parameters `name` and `args`.
pub open spec fn get_out(
    reg: RegistryView,
    id: RequestId,
    name: Option<String>,
    args: Seq<(String, String)>,
    out: Outcome,
) -> bool {
    match name {
        None => error_out(out, id, INVALID_PARAMS, missing_param_text("name"@)),
        Some(n) => if !has_prompt(reg, n@) {
            error_out(out, id, INVALID_PARAMS, unknown_prompt_text(n@))
        } else {
            forall|i: int| 0 <= i < reg.prompts.len() && #[trigger] reg.prompts[i].descriptor.name@ == n@
                ==> get_entry_out(reg.prompts[i], id, args, out)
        },
    }
}

/// `out` answers a call of `method` with `params` under request `id`, and
/// `post` is the server afterwards.
pub open spec fn call_out(pre: ServerView, id: RequestId, method: Seq<char>, params: Params, post: ServerView, out: Outcome) -> bool {
    match method_of(method) {
        Method::Initialize => if pre.state == ServerState::New {
            post == (ServerView { state: ServerState::Initialized, ..pre }) && ok_out(out, id)
                && result_of(out) == RpcResult::Initialize(pre.info)
        } else {
            post == pre && error_out(out, id, INVALID_REQUEST, already_initialized_text())
        },
        Method::Ping => post == pre && ok_out(out, id) && result_of(out) is Pong,
        Method::ResourcesList => post == pre && ok_out(out, id) && result_of(out) is Resources && {
            let l = result_of(out)->Resources_0@;
            &&& l.len() == pre.registry.resources.len()
            &&& forall|i: int| 0 <= i < l.len() ==> #[trigger] l[i] == pre.registry.resources[i].descriptor
        },
        Method::ResourcesRead => post == pre && read_out(pre.registry, id, params.uri, out),
        Method::PromptsList => post == pre && ok_out(out, id) && result_of(out) is Prompts && {
            let l = result_of(out)->Prompts_0@;
            &&& l.len() == pre.registry.prompts.len()
            &&& forall|i: int| 0 <= i < l.len() ==> same_prompt(#[trigger] l[i], pre.registry.prompts[i].descriptor)
        },
        Method::PromptsGet => post == pre && get_out(pre.registry, id, params.name, params.arguments@, out),
        Method::Unknown => post == pre && error_out(out, id, METHOD_NOT_FOUND, unknown_method_text(method)),
    }
}

/// How the server answers `inc` from `pre`, ending in `post`.
pub open spec fn handle_spec(pre: ServerView, inc: Incoming, post: ServerView, out: Outcome) -> bool {
    match inc {
        Incoming::Malformed => post == pre && error_out(out, RequestId::Null, PARSE_ERROR, parse_error_text()),
        Incoming::Invalid { id } => post == pre && error_out(out, id, INVALID_REQUEST, invalid_request_text()),
        Incoming::Call(req) => match req.id {
            None => post == pre && out is Silent,
            Some(id) => if req.jsonrpc@ != jsonrpc_version() {
                post == pre && error_out(out, id, INVALID_REQUEST, invalid_request_text())
            } else {
                call_out(pre, id, req.method@, req.params, post, out)
            },
        },
    }
}

/// The response that completes `p` once its fetch ended with `fetched`.
pub open spec fn complete_spec(p: PendingFetch, fetched: Result<String, FetchError>, r: Response) -> bool {
    &&& r.id == p.id
    &&& fetched is Ok <==> r.body is Ok
    &&& match p.target {
        FetchTarget::Resource { uri, mime_type } => match fetched {
            Ok(body) => r.body->Ok_0 is Contents && is_text_result(r.body->Ok_0->Contents_0, uri, mime_type, body),
            Err(e) => r.body->Err_0.code == INTERNAL_ERROR && r.body->Err_0.message@ == fetch_error_text(uri@, p.url@, e),
        },
        FetchTarget::Prompt { descriptor } => match fetched {
            Ok(body) => r.body->Ok_0 is PromptMessage && prompt_result(descriptor.description, body@, r.body->Ok_0->PromptMessage_0),
            Err(e) => r.body->Err_0.code == INTERNAL_ERROR
                && r.body->Err_0.message@ == prompt_fetch_error_text(descriptor.name@, p.url@, e),
        },
    }
}

/// Builds the response to a pending fetch from its outcome: the body on
/// success, an internal error naming the URL otherwise.
pub fn complete_fetch(pending: PendingFetch, fetched: Result<String, FetchError>) -> (r: Response)
    ensures
        complete_spec(pending, fetched, r),
{
    let PendingFetch { id, url, target } = pending;
    match target {
        FetchTarget::Resource { uri, mime_type } => match load_resource_by_http(&uri, &mime_type, &url, fetched) {
            Ok(c) => Response { id, body: Ok(RpcResult::Contents(c)) },
            Err(m) => error_response(id, INTERNAL_ERROR, m),
        },
        FetchTarget::Prompt { descriptor } => match finish_prompt_fetch(&descriptor, &url, fetched) {
            Ok(p) => Response { id, body: Ok(RpcResult::PromptMessage(p)) },
            Err(m) => error_response(id, INTERNAL_ERROR, m),
        },
    }
}

/// An MCP server over a registry.
pub struct Server {
    info: ServerInfo,
    registry: Registry,
    state: ServerState,
}

impl View for Server {
    type V = ServerView;

    closed spec fn view(&self) -> ServerView {
        ServerView { info: self.info, registry: self.registry@, state: self.state }
    }
}

impl Server {
    /// The server's invariant: its registry is well formed.
    pub open spec fn wf(&self) -> bool {
        crate::registry::registry_wf(self@.registry)
    }

    /// A server in state `New` over a filled registry.
    pub fn new(info: ServerInfo, registry: Registry) -> (r: Server)
        requires
            registry.wf(),
        ensures
            r.wf(),
            r@ == (ServerView { info, registry: registry@, state: ServerState::New }),
    {
        Server { info, registry, state: ServerState::New }
    }

    /// The protocol state.
    pub fn state(&self) -> (r: ServerState)
        ensures
            r == self@.state,
    {
        self.state
    }

    /// The server's name, version, description and protocol version.
    pub fn info(&self) -> (r: &ServerInfo)
        ensures
            *r == self@.info,
    {
        &self.info
    }

    /// The registry served.
    pub fn registry(&self) -> (r: &Registry)
        ensures
            r@ == self@.registry,
    {
        &self.registry
    }

    /// Marks the server as shutting down; it is never initialised again.
    pub fn shutdown(&mut self)
        ensures
            final(self)@ == (ServerView { state: ServerState::Shutdown, ..old(self)@ }),
    {
        self.state = ServerState::Shutdown;
    }

    fn read_resource(&self, id: RequestId, uri: &Option<String>) -> (out: Outcome)
        requires
            self.wf(),
        ensures
            read_out(self@.registry, id, *uri, out),
    {
        match uri {
            None => Outcome::Reply(
                error_response(id, INVALID_PARAMS, join("Missing required parameter: ", "uri")),
            ),
            Some(u) => match self.registry.find_resource(u) {
                None => Outcome::Reply(error_response(id, INVALID_PARAMS, unknown_uri_message(u))),
                Some(i) => {
                    let e = self.registry.resource_at(i);
                    let out = match e.read(u) {
                        Step::Ready(c) => Outcome::Reply(Response { id, body: Ok(RpcResult::Contents(c)) }),
                        Step::Fetch { url } => Outcome::Fetch(
                            PendingFetch {
                                id,
                                url,
                                target: FetchTarget::Resource {
                                    uri: e.descriptor.uri.clone(),
                                    mime_type: e.descriptor.mime_type.clone(),
                                },
                            },
                        ),
                        Step::Failed(m) => Outcome::Reply(error_response(id, INVALID_PARAMS, m)),
                    };
                    proof {
                        let reg = self@.registry;
                        assert forall|j: int|
                            0 <= j < reg.resources.len() && #[trigger] reg.resources[j].descriptor.uri@ == u@
                            implies read_entry_out(reg.resources[j], id, out) by {
                            if j != i {
                                assert(reg.resources[i as int].descriptor.uri@ == u@);
                            }
                        }
                    }
                    out
                },
            },
        }
    }

    fn get_prompt(&self, id: RequestId, name: &Option<String>, args: &Vec<(String, String)>) -> (out: Outcome)
        requires
            self.wf(),
        ensures
            get_out(self@.registry, id, *name, args@, out),
    {
        match name {
            None => Outcome::Reply(
                error_response(id, INVALID_PARAMS, join("Missing required parameter: ", "name")),
            ),
            Some(n) => match self.registry.find_prompt(n) {
                None => Outcome::Reply(error_response(id, INVALID_PARAMS, join("Unknown prompt: ", n.as_str()))),
                Some(i) => {
                    let e = self.registry.prompt_at(i);
                    let out = match e.execute(args) {
                        Step::Ready(p) => Outcome::Reply(Response { id, body: Ok(RpcResult::PromptMessage(p)) }),
                        Step::Fetch { url } => Outcome::Fetch(
                            PendingFetch {
                                id,
                                url,
                                target: FetchTarget::Prompt { descriptor: e.descriptor.duplicate() },
                            },
                        ),
                        Step::Failed(m) => Outcome::Reply(error_response(id, INVALID_PARAMS, m)),
                    };
                    proof {
                        let reg = self@.registry;
                        assert forall|j: int|
                            0 <= j < reg.prompts.len() && #[trigger] reg.prompts[j].descriptor.name@ == n@
                            implies get_entry_out(reg.prompts[j], id, args@, out) by {
                            if j != i {
                                assert(reg.prompts[i as int].descriptor.name@ == n@);
                            }
                        }
                    }
                    out
                },
            },
        }
    }

    fn call(&mut self, id: RequestId, method: &String, params: &Params) -> (out: Outcome)
        requires
            old(self).wf(),
        ensures
            final(self).wf(),
            call_out(old(self)@, id, method@, *params, final(self)@, out),
    {
        match parse_method(method.as_str()) {
            Method::Initialize => {
                if self.state == ServerState::New {
                    self.state = ServerState::Initialized;
                    Outcome::Reply(Response { id, body: Ok(RpcResult::Initialize(self.info.clone())) })
                } else {
                    Outcome::Reply(
                        error_response(id, INVALID_REQUEST, String::from_str("Server already initialized")),
                    )
                }
            },
            Method::Ping => Outcome::Reply(Response { id, body: Ok(RpcResult::Pong) }),
            Method::ResourcesList => Outcome::Reply(
                Response { id, body: Ok(RpcResult::Resources(self.registry.list_resources())) },
            ),
            Method::ResourcesRead => self.read_resource(id, &params.uri),
            Method::PromptsList => Outcome::Reply(
                Response { id, body: Ok(RpcResult::Prompts(self.registry.list_prompts())) },
            ),
            Method::PromptsGet => self.get_prompt(id, &params.name, &params.arguments),
            Method::Unknown => Outcome::Reply(
                error_response(id, METHOD_NOT_FOUND, join("Method not found: ", method.as_str())),
            ),
        }
    }

    /// Answers one decoded request. A body that is not JSON gets a parse
    /// error with a null id; a notification gets no answer; every other
    /// answer carries the request's id.
    pub fn handle(&mut self, incoming: Incoming) -> (out: Outcome)
        requires
            old(self).wf(),
        ensures
            final(self).wf(),
            handle_spec(old(self)@, incoming, final(self)@, out),
    {
        match incoming {
            Incoming::Malformed => Outcome::Reply(parse_error_response()),
            Incoming::Invalid { id } => Outcome::Reply(
                error_response(id, INVALID_REQUEST, String::from_str("Invalid request")),
            ),
            Incoming::Call(req) => {
                let Request { jsonrpc, id, method, params } = req;
                match id {
                    None => Outcome::Silent,
                    Some(id) => {
                        if !same_text(jsonrpc.as_str(), "2.0") {
                            Outcome::Reply(
                                error_response(id, INVALID_REQUEST, String::from_str("Invalid request")),
                            )
                        } else {
                            self.call(id, &method, &params)
                        }
                    },
                }
            },
        }
    }
}

} // verus!
