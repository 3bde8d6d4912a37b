//! Guarantees that relate several calls of the dispatcher, proved from the
//! contracts of `Server::handle` and `complete_fetch`.
use vstd::prelude::*;
use crate::handler::{fetch_error_text, is_missing, missing_argument_text, unknown_uri_text, FetchError, ResourceSource};
use crate::envelope::{envelope_spec, id_of, member_spec, Json};
use crate::model::is_text_result;
use crate::wire::{is_member, response_json_spec};
use crate::registry::{has_uri, registry_wf};
use crate::rpc::{method_of, parse_error_text, Incoming, Method, Request, RequestId, Response, INTERNAL_ERROR, INVALID_PARAMS, METHOD_NOT_FOUND, PARSE_ERROR};
use crate::server::{
    complete_spec, error_out, handle_spec, jsonrpc_version, lacks_argument, ok_out, result_of,
    unknown_method_text, Outcome, ServerView,
};

verus! {

/// Each name this server answers denotes its own method.
pub proof fn lemma_method_names()
    ensures
        method_of("initialize"@) is Initialize,
        method_of("ping"@) is Ping,
        method_of("resources/list"@) is ResourcesList,
        method_of("resources/read"@) is ResourcesRead,
        method_of("prompts/list"@) is PromptsList,
        method_of("prompts/get"@) is PromptsGet,
{
    reveal_strlit("initialize");
    reveal_strlit("ping");
    reveal_strlit("resources/list");
    reveal_strlit("resources/read");
    reveal_strlit("prompts/list");
    reveal_strlit("prompts/get");
    assert("ping"@.len() != "initialize"@.len());
    assert("resources/list"@.len() != "initialize"@.len());
    assert("resources/list"@.len() != "ping"@.len());
    assert("resources/read"@.len() != "initialize"@.len());
    assert("resources/read"@.len() != "ping"@.len());
    assert("resources/list"@[10] != "resources/read"@[10]);
    assert("prompts/list"@.len() != "initialize"@.len());
    assert("prompts/list"@.len() != "ping"@.len());
    assert("prompts/list"@.len() != "resources/list"@.len());
    assert("prompts/list"@.len() != "resources/read"@.len());
    assert("prompts/get"@.len() != "initialize"@.len());
    assert("prompts/get"@.len() != "ping"@.len());
    assert("prompts/get"@.len() != "resources/list"@.len());
    assert("prompts/get"@.len() != "resources/read"@.len());
    assert("prompts/list"@[8] != "prompts/get"@[8]);
}

/// A well-formed call of `method` with id `id`.
pub open spec fn is_call(req: Request, id: RequestId, method: Seq<char>) -> bool {
    req.id == Some(id) && req.jsonrpc@ == jsonrpc_version() && req.method@ == method
}

/// `resources/list` returns every registered descriptor exactly once, in
/// registration order, and changes nothing.
pub proof fn lemma_list_has_each_resource_once(pre: ServerView, req: Request, id: RequestId, post: ServerView, out: Outcome)
    requires
        registry_wf(pre.registry),
        is_call(req, id, "resources/list"@),
        handle_spec(pre, Incoming::Call(req), post, out),
    ensures
        post == pre,
        ok_out(out, id),
        result_of(out) is Resources,
        result_of(out)->Resources_0@.len() == pre.registry.resources.len(),
        forall|i: int| 0 <= i < pre.registry.resources.len() ==> {
            &&& #[trigger] result_of(out)->Resources_0@[i] == pre.registry.resources[i].descriptor
            &&& forall|j: int| 0 <= j < result_of(out)->Resources_0@.len()
                && result_of(out)->Resources_0@[j] == pre.registry.resources[i].descriptor ==> j == i
        },
{
    lemma_method_names();
    let l = result_of(out)->Resources_0@;
    assert forall|i: int| 0 <= i < pre.registry.resources.len() implies {
        &&& #[trigger] l[i] == pre.registry.resources[i].descriptor
        &&& forall|j: int| 0 <= j < l.len() && l[j] == pre.registry.resources[i].descriptor ==> j == i
    } by {
        assert(l[i] == pre.registry.resources[i].descriptor);
        assert forall|j: int| 0 <= j < l.len() && l[j] == pre.registry.resources[i].descriptor implies j == i by {
            assert(l[j] == pre.registry.resources[j].descriptor);
            if j != i {
                assert(pre.registry.resources[i].descriptor.uri@ != pre.registry.resources[j].descriptor.uri@);
            }
        }
    }
}

/// Reading a URI that no resource is registered under answers
/// invalid-params with `Unknown resource URI: <uri>`.
pub proof fn lemma_read_of_unregistered_uri(
    pre: ServerView,
    req: Request,
    id: RequestId,
    uri: String,
    post: ServerView,
    out: Outcome,
)
    requires
        is_call(req, id, "resources/read"@),
        req.params.uri == Some(uri),
        !has_uri(pre.registry, uri@),
        handle_spec(pre, Incoming::Call(req), post, out),
    ensures
        post == pre,
        error_out(out, id, INVALID_PARAMS, unknown_uri_text(uri@)),
{
    lemma_method_names();
}

/// Reading a static resource under its URI returns its body as the single
/// text content, and leaves the server as it was: a second read returns
/// the same.
pub proof fn lemma_static_read_is_stable(
    pre: ServerView,
    req: Request,
    id: RequestId,
    i: int,
    text: String,
    post1: ServerView,
    out1: Outcome,
    post2: ServerView,
    out2: Outcome,
)
    requires
        registry_wf(pre.registry),
        0 <= i < pre.registry.resources.len(),
        pre.registry.resources[i].source == (ResourceSource::Static { text }),
        is_call(req, id, "resources/read"@),
        req.params.uri is Some,
        req.params.uri->Some_0@ == pre.registry.resources[i].descriptor.uri@,
        handle_spec(pre, Incoming::Call(req), post1, out1),
        handle_spec(post1, Incoming::Call(req), post2, out2),
    ensures
        post1 == pre,
        post2 == pre,
        ok_out(out1, id),
        ok_out(out2, id),
        result_of(out1) is Contents,
        result_of(out2) is Contents,
        is_text_result(
            result_of(out1)->Contents_0,
            pre.registry.resources[i].descriptor.uri,
            pre.registry.resources[i].descriptor.mime_type,
            text,
        ),
        is_text_result(
            result_of(out2)->Contents_0,
            pre.registry.resources[i].descriptor.uri,
            pre.registry.resources[i].descriptor.mime_type,
            text,
        ),
{
    lemma_method_names();
    assert(has_uri(pre.registry, req.params.uri->Some_0@));
}

/// Reading an HTTP-backed resource asks for its URL and changes nothing, so
/// listings stay as they were. Completed with a body, the read returns that
/// body; completed with a failure such as an upstream status 500, it answers
/// an internal error whose message holds the URL.
pub proof fn lemma_http_read_follows_upstream(
    pre: ServerView,
    req: Request,
    id: RequestId,
    i: int,
    url: String,
    post: ServerView,
    out: Outcome,
    body: String,
    ok_response: Response,
    failure: FetchError,
    err_response: Response,
)
    requires
        registry_wf(pre.registry),
        0 <= i < pre.registry.resources.len(),
        pre.registry.resources[i].source == (ResourceSource::Http { url }),
        is_call(req, id, "resources/read"@),
        req.params.uri is Some,
        req.params.uri->Some_0@ == pre.registry.resources[i].descriptor.uri@,
        handle_spec(pre, Incoming::Call(req), post, out),
        out is Fetch,
        complete_spec(out->Fetch_0, Ok(body), ok_response),
        complete_spec(out->Fetch_0, Err(failure), err_response),
    ensures
        post == pre,
        out->Fetch_0.url == url,
        ok_response.id == id,
        ok_response.body is Ok,
        ok_response.body->Ok_0 is Contents,
        is_text_result(
            ok_response.body->Ok_0->Contents_0,
            pre.registry.resources[i].descriptor.uri,
            pre.registry.resources[i].descriptor.mime_type,
            body,
        ),
        err_response.id == id,
        err_response.body is Err,
        err_response.body->Err_0.code == INTERNAL_ERROR,
        exists|k: int| 0 <= k && k + url@.len() <= err_response.body->Err_0.message@.len()
            && #[trigger] err_response.body->Err_0.message@.subrange(k, k + url@.len()) == url@,
{
    lemma_method_names();
    let uri = pre.registry.resources[i].descriptor.uri;
    assert(has_uri(pre.registry, req.params.uri->Some_0@));
    let m = err_response.body->Err_0.message@;
    assert(m == fetch_error_text(uri@, url@, failure));
    let k = ("Failed to load "@ + uri@ + " from "@).len() as int;
    assert(m.subrange(k, k + url@.len()) =~= url@);
}

/// A prompt fetched with a required argument missing answers invalid-params
/// naming that argument; no message is rendered or fetched.
pub proof fn lemma_missing_argument_rejected(
    pre: ServerView,
    req: Request,
    id: RequestId,
    i: int,
    post: ServerView,
    out: Outcome,
)
    requires
        registry_wf(pre.registry),
        0 <= i < pre.registry.prompts.len(),
        is_call(req, id, "prompts/get"@),
        req.params.name is Some,
        req.params.name->Some_0@ == pre.registry.prompts[i].descriptor.name@,
        lacks_argument(pre.registry.prompts[i], req.params.arguments@),
        handle_spec(pre, Incoming::Call(req), post, out),
    ensures
        post == pre,
        out is Reply,
        out->Reply_0.body is Err,
        exists|k: int|
            0 <= k < pre.registry.prompts[i].descriptor.arguments@.len()
            && is_missing(#[trigger] pre.registry.prompts[i].descriptor.arguments@[k], req.params.arguments@)
            && error_out(out, id, INVALID_PARAMS, missing_argument_text(pre.registry.prompts[i].descriptor.arguments@[k].name@)),
{
    lemma_method_names();
    assert(crate::registry::has_prompt(pre.registry, req.params.name->Some_0@));
}

/// A well-formed call of a name this server does not answer gets
/// method-not-found.
pub proof fn lemma_unknown_method(pre: ServerView, req: Request, id: RequestId, post: ServerView, out: Outcome)
    requires
        req.id == Some(id),
        req.jsonrpc@ == jsonrpc_version(),
        method_of(req.method@) is Unknown,
        handle_spec(pre, Incoming::Call(req), post, out),
    ensures
        post == pre,
        error_out(out, id, METHOD_NOT_FOUND, unknown_method_text(req.method@)),
{
}

/// A body that is not JSON gets a parse error with a null id.
pub proof fn lemma_malformed_body(pre: ServerView, post: ServerView, out: Outcome)
    requires
        handle_spec(pre, Incoming::Malformed, post, out),
    ensures
        post == pre,
        error_out(out, RequestId::Null, PARSE_ERROR, parse_error_text()),
{
}

/// Every answer to a request carries the request's id, also once a pending
/// fetch completes; a notification gets no answer.
pub proof fn lemma_response_id_matches(
    pre: ServerView,
    req: Request,
    post: ServerView,
    out: Outcome,
    fetched: Result<String, FetchError>,
    completed: Response,
)
    requires
        registry_wf(pre.registry),
        handle_spec(pre, Incoming::Call(req), post, out),
        out is Fetch ==> complete_spec(out->Fetch_0, fetched, completed),
    ensures
        req.id is None ==> out is Silent,
        req.id is Some ==> out is Reply || out is Fetch,
        req.id is Some && out is Reply ==> out->Reply_0.id == req.id->Some_0,
        req.id is Some && out is Fetch ==> out->Fetch_0.id == req.id->Some_0 && completed.id == req.id->Some_0,
{
    if req.id is Some && req.jsonrpc@ == jsonrpc_version() {
        let id = req.id->Some_0;
        match method_of(req.method@) {
            Method::ResourcesRead => {
                match req.params.uri {
                    Some(u) => {
                        if has_uri(pre.registry, u@) {
                            let k = choose|k: int| 0 <= k < pre.registry.resources.len()
                                && #[trigger] pre.registry.resources[k].descriptor.uri@ == u@;
                            assert(pre.registry.resources[k].descriptor.uri@ == u@);
                        }
                    },
                    None => {},
                }
            },
            Method::PromptsGet => {
                match req.params.name {
                    Some(n) => {
                        if crate::registry::has_prompt(pre.registry, n@) {
                            let k = choose|k: int| 0 <= k < pre.registry.prompts.len()
                                && #[trigger] pre.registry.prompts[k].descriptor.name@ == n@;
                            assert(pre.registry.prompts[k].descriptor.name@ == n@);
                        }
                    },
                    None => {},
                }
            },
            _ => {},
        }
    }
}

/// An answer to a JSON body carries the body's `id` where it is a valid id,
/// also once a pending fetch completes; a body that is no object gets an
/// answer with a null id.
pub proof fn lemma_answer_carries_body_id(
    pre: ServerView,
    v: Json,
    inc: Incoming,
    post: ServerView,
    out: Outcome,
    fetched: Result<String, FetchError>,
    completed: Response,
)
    requires
        registry_wf(pre.registry),
        envelope_spec(v, inc),
        handle_spec(pre, inc, post, out),
        out is Fetch ==> complete_spec(out->Fetch_0, fetched, completed),
    ensures
        !(v is Object) ==> out is Reply && out->Reply_0.id == RequestId::Null,
        v is Object && member_spec(v->Object_0@, "id"@) is Some && id_of(
            member_spec(v->Object_0@, "id"@)->Some_0,
        ) is Some ==> {
            let id = id_of(member_spec(v->Object_0@, "id"@)->Some_0)->Some_0;
            &&& out is Reply || out is Fetch
            &&& out is Reply ==> out->Reply_0.id == id
            &&& out is Fetch ==> out->Fetch_0.id == id && completed.id == id
        },
{
    match inc {
        Incoming::Call(req) => {
            lemma_response_id_matches(pre, req, post, out, fetched, completed);
        },
        _ => {},
    }
}

/// On the wire, the answer to a body that is not JSON has a null `id` and
/// an error with code -32700.
pub proof fn lemma_malformed_body_on_the_wire(pre: ServerView, post: ServerView, out: Outcome, v: Json)
    requires
        handle_spec(pre, Incoming::Malformed, post, out),
        out is Reply,
        response_json_spec(v, out->Reply_0),
    ensures
        v is Object,
        v->Object_0@.len() == 3,
        is_member(v->Object_0@[1], "id"@, Json::Null),
        v->Object_0@[2].0@ == "error"@,
        v->Object_0@[2].1 is Object,
        is_member(v->Object_0@[2].1->Object_0@[0], "code"@, Json::Int(PARSE_ERROR)),
{
}

} // verus!
