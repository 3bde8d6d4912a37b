//! How responses and the server-info document are laid out as JSON.
use vstd::prelude::*;
use vstd::string::*;
use crate::envelope::Json;
use crate::model::{PromptArgument, PromptDescriptor, PromptExecutionResult, ResourceContent, ResourceDescriptor};
use crate::rpc::{RequestId, Response, RpcError, RpcResult, ServerInfo};

verus! {

/// Member `m` is named `key` and holds `v`.
pub open spec fn is_member(m: (String, Json), key: Seq<char>, v: Json) -> bool {
    m.0@ == key && m.1 == v
}

/// Member `m` is named `key` and holds the string `s`.
pub open spec fn is_text_member(m: (String, Json), key: Seq<char>, s: Seq<char>) -> bool {
    m.0@ == key && m.1 is Str && m.1->Str_0@ == s
}

/// The JSON form of a request id.
pub open spec fn id_json(id: RequestId) -> Json {
    match id {
        RequestId::Null => Json::Null,
        RequestId::Number(n) => Json::Int(n),
        RequestId::Text(s) => Json::Str(s),
    }
}

/// `{uri, name, description, mimeType}`.
pub open spec fn descriptor_json(v: Json, d: ResourceDescriptor) -> bool {
    v is Object && {
        let f = v->Object_0@;
        &&& f.len() == 4
        &&& is_member(f[0], "uri"@, Json::Str(d.uri))
        &&& is_member(f[1], "name"@, Json::Str(d.name))
        &&& is_member(f[2], "description"@, Json::Str(d.description))
        &&& is_member(f[3], "mimeType"@, Json::Str(d.mime_type))
    }
}

/// `{uri, mimeType}` followed by `text` and `blob` where present.
pub open spec fn content_json(v: Json, c: ResourceContent) -> bool {
    v is Object && {
        let f = v->Object_0@;
        let t: int = if c.text is Some { 1 } else { 0 };
        let b: int = if c.blob is Some { 1 } else { 0 };
        &&& f.len() == 2 + t + b
        &&& is_member(f[0], "uri"@, Json::Str(c.uri))
        &&& is_member(f[1], "mimeType"@, Json::Str(c.mime_type))
        &&& c.text is Some ==> is_member(f[2], "text"@, Json::Str(c.text->Some_0))
        &&& c.blob is Some ==> is_member(f[2 + t], "blob"@, Json::Str(c.blob->Some_0))
    }
}

/// `{name, description, required}`.
pub open spec fn argument_json(v: Json, a: PromptArgument) -> bool {
    v is Object && {
        let f = v->Object_0@;
        &&& f.len() == 3
        &&& is_member(f[0], "name"@, Json::Str(a.name))
        &&& is_member(f[1], "description"@, Json::Str(a.description))
        &&& is_member(f[2], "required"@, Json::Bool(a.required))
    }
}

/// `{name, description, arguments: [...]}`.
pub open spec fn prompt_json(v: Json, p: PromptDescriptor) -> bool {
    v is Object && {
        let f = v->Object_0@;
        &&& f.len() == 3
        &&& is_member(f[0], "name"@, Json::Str(p.name))
        &&& is_member(f[1], "description"@, Json::Str(p.description))
        &&& f[2].0@ == "arguments"@
        &&& f[2].1 is Array
        &&& f[2].1->Array_0@.len() == p.arguments@.len()
        &&& forall|i: int| 0 <= i < p.arguments@.len() ==> argument_json(#[trigger] f[2].1->Array_0@[i], p.arguments@[i])
    }
}

/// An object whose only member is `key`, an array of one JSON form per item.
pub open spec fn list_json<T>(v: Json, key: Seq<char>, items: Seq<T>, item_json: spec_fn(Json, T) -> bool) -> bool {
    v is Object && {
        let f = v->Object_0@;
        &&& f.len() == 1
        &&& f[0].0@ == key
        &&& f[0].1 is Array
        &&& f[0].1->Array_0@.len() == items.len()
        &&& forall|i: int| 0 <= i < items.len() ==> #[trigger] item_json(f[0].1->Array_0@[i], items[i])
    }
}

/// An object without members.
pub open spec fn is_empty_object(v: Json) -> bool {
    v is Object && v->Object_0@.len() == 0
}

/// `{protocolVersion, capabilities: {resources: {}, prompts: {}}, serverInfo: {name, version, description}}`.
pub open spec fn initialize_json(v: Json, info: ServerInfo) -> bool {
    v is Object && {
        let f = v->Object_0@;
        &&& f.len() == 3
        &&& is_member(f[0], "protocolVersion"@, Json::Str(info.protocol_version))
        &&& f[1].0@ == "capabilities"@ && f[1].1 is Object && {
            let c = f[1].1->Object_0@;
            &&& c.len() == 2
            &&& c[0].0@ == "resources"@ && is_empty_object(c[0].1)
            &&& c[1].0@ == "prompts"@ && is_empty_object(c[1].1)
        }
        &&& f[2].0@ == "serverInfo"@ && f[2].1 is Object && {
            let s = f[2].1->Object_0@;
            &&& s.len() == 3
            &&& is_member(s[0], "name"@, Json::Str(info.name))
            &&& is_member(s[1], "version"@, Json::Str(info.version))
            &&& is_member(s[2], "description"@, Json::Str(info.description))
        }
    }
}

/// `{description, messages: [{role: "user", content: {type: "text", text}}]}`.
pub open spec fn prompt_message_json(v: Json, p: PromptExecutionResult) -> bool {
    v is Object && {
        let f = v->Object_0@;
        &&& f.len() == 2
        &&& is_member(f[0], "description"@, Json::Str(p.description))
        &&& f[1].0@ == "messages"@ && f[1].1 is Array && f[1].1->Array_0@.len() == 1 && {
            let m = f[1].1->Array_0@[0];
            m is Object && {
                let mf = m->Object_0@;
                &&& mf.len() == 2
                &&& is_text_member(mf[0], "role"@, "user"@)
                &&& mf[1].0@ == "content"@ && mf[1].1 is Object && {
                    let c = mf[1].1->Object_0@;
                    &&& c.len() == 2
                    &&& is_text_member(c[0], "type"@, "text"@)
                    &&& is_member(c[1], "text"@, Json::Str(p.message))
                }
            }
        }
    }
}

/// The JSON form of a call's result.
pub open spec fn result_json(v: Json, r: RpcResult) -> bool {
    match r {
        RpcResult::Initialize(info) => initialize_json(v, info),
        RpcResult::Pong => is_empty_object(v),
        RpcResult::Resources(l) => list_json(v, "resources"@, l@, |j: Json, d: ResourceDescriptor| descriptor_json(j, d)),
        RpcResult::Contents(c) => list_json(v, "contents"@, c.contents@, |j: Json, x: ResourceContent| content_json(j, x)),
        RpcResult::Prompts(l) => list_json(v, "prompts"@, l@, |j: Json, p: PromptDescriptor| prompt_json(j, p)),
        RpcResult::PromptMessage(p) => prompt_message_json(v, p),
    }
}

/// `{code, message}`.
pub open spec fn error_json(v: Json, e: RpcError) -> bool {
    v is Object && {
        let f = v->Object_0@;
        &&& f.len() == 2
        &&& is_member(f[0], "code"@, Json::Int(e.code))
        &&& is_member(f[1], "message"@, Json::Str(e.message))
    }
}

/// `{jsonrpc: "2.0", id, result}` or `{jsonrpc: "2.0", id, error}`.
pub open spec fn response_json_spec(v: Json, r: Response) -> bool {
    v is Object && {
        let f = v->Object_0@;
        &&& f.len() == 3
        &&& is_text_member(f[0], "jsonrpc"@, "2.0"@)
        &&& is_member(f[1], "id"@, id_json(r.id))
        &&& match r.body {
            Ok(res) => f[2].0@ == "result"@ && result_json(f[2].1, res),
            Err(e) => f[2].0@ == "error"@ && error_json(f[2].1, e),
        }
    }
}

/// `{name, version, description, protocolVersion}`.
pub open spec fn server_info_json(v: Json, info: ServerInfo) -> bool {
    v is Object && {
        let f = v->Object_0@;
        &&& f.len() == 4
        &&& is_member(f[0], "name"@, Json::Str(info.name))
        &&& is_member(f[1], "version"@, Json::Str(info.version))
        &&& is_member(f[2], "description"@, Json::Str(info.description))
        &&& is_member(f[3], "protocolVersion"@, Json::Str(info.protocol_version))
    }
}

fn member(key: &str, v: Json) -> (r: (String, Json))
    ensures
        r.0@ == key@,
        r.1 == v,
{
    (String::from_str(key), v)
}

fn text(s: &String) -> (r: Json)
    ensures
        r == Json::Str(*s),
{
    Json::Str(s.clone())
}

fn literal(s: &str) -> (r: Json)
    ensures
        r is Str && r->Str_0@ == s@,
{
    Json::Str(String::from_str(s))
}

fn empty_object() -> (r: Json)
    ensures
        is_empty_object(r),
{
    Json::Object(Vec::new())
}

fn id_to_json(id: &RequestId) -> (r: Json)
    ensures
        r == id_json(*id),
{
    match id {
        RequestId::Null => Json::Null,
        RequestId::Number(n) => Json::Int(*n),
        RequestId::Text(s) => Json::Str(s.clone()),
    }
}

fn descriptor_to_json(d: &ResourceDescriptor) -> (r: Json)
    ensures
        descriptor_json(r, *d),
{
    let mut f: Vec<(String, Json)> = Vec::new();
    f.push(member("uri", text(&d.uri)));
    f.push(member("name", text(&d.name)));
    f.push(member("description", text(&d.description)));
    f.push(member("mimeType", text(&d.mime_type)));
    Json::Object(f)
}

fn content_to_json(c: &ResourceContent) -> (r: Json)
    ensures
        content_json(r, *c),
{
    let mut f: Vec<(String, Json)> = Vec::new();
    f.push(member("uri", text(&c.uri)));
    f.push(member("mimeType", text(&c.mime_type)));
    match &c.text {
        Some(t) => f.push(member("text", text(t))),
        None => {},
    }
    match &c.blob {
        Some(b) => f.push(member("blob", text(b))),
        None => {},
    }
    Json::Object(f)
}

fn argument_to_json(a: &PromptArgument) -> (r: Json)
    ensures
        argument_json(r, *a),
{
    let mut f: Vec<(String, Json)> = Vec::new();
    f.push(member("name", text(&a.name)));
    f.push(member("description", text(&a.description)));
    f.push(member("required", Json::Bool(a.required)));
    Json::Object(f)
}

fn prompt_to_json(p: &PromptDescriptor) -> (r: Json)
    ensures
        prompt_json(r, *p),
{
    let mut args: Vec<Json> = Vec::new();
    let mut i: usize = 0;
    while i < p.arguments.len()
        invariant
            i <= p.arguments@.len(),
            args@.len() == i,
            forall|k: int| 0 <= k < i ==> argument_json(#[trigger] args@[k], p.arguments@[k]),
        decreases p.arguments@.len() - i,
    {
        args.push(argument_to_json(&p.arguments[i]));
        i = i + 1;
    }
    let mut f: Vec<(String, Json)> = Vec::new();
    f.push(member("name", text(&p.name)));
    f.push(member("description", text(&p.description)));
    f.push(member("arguments", Json::Array(args)));
    Json::Object(f)
}

fn list_to_json<T>(key: &str, items: Vec<Json>, src: Ghost<Seq<T>>, item_json: Ghost<spec_fn(Json, T) -> bool>) -> (r: Json)
    requires
        items@.len() == src@.len(),
        forall|i: int| 0 <= i < src@.len() ==> #[trigger] (item_json@)(items@[i], src@[i]),
    ensures
        list_json(r, key@, src@, item_json@),
{
    let mut f: Vec<(String, Json)> = Vec::new();
    f.push(member(key, Json::Array(items)));
    Json::Object(f)
}

fn initialize_to_json(info: &ServerInfo) -> (r: Json)
    ensures
        initialize_json(r, *info),
{
    let mut caps: Vec<(String, Json)> = Vec::new();
    caps.push(member("resources", empty_object()));
    caps.push(member("prompts", empty_object()));
    let mut si: Vec<(String, Json)> = Vec::new();
    si.push(member("name", text(&info.name)));
    si.push(member("version", text(&info.version)));
    si.push(member("description", text(&info.description)));
    let mut f: Vec<(String, Json)> = Vec::new();
    f.push(member("protocolVersion", text(&info.protocol_version)));
    f.push(member("capabilities", Json::Object(caps)));
    f.push(member("serverInfo", Json::Object(si)));
    Json::Object(f)
}

fn prompt_message_to_json(p: &PromptExecutionResult) -> (r: Json)
    ensures
        prompt_message_json(r, *p),
{
    let mut content: Vec<(String, Json)> = Vec::new();
    content.push(member("type", literal("text")));
    content.push(member("text", text(&p.message)));
    let mut message: Vec<(String, Json)> = Vec::new();
    message.push(member("role", literal("user")));
    message.push(member("content", Json::Object(content)));
    let mut messages: Vec<Json> = Vec::new();
    messages.push(Json::Object(message));
    let mut f: Vec<(String, Json)> = Vec::new();
    f.push(member("description", text(&p.description)));
    f.push(member("messages", Json::Array(messages)));
    Json::Object(f)
}

fn result_to_json(r: &RpcResult) -> (v: Json)
    ensures
        result_json(v, *r),
{
    match r {
        RpcResult::Initialize(info) => initialize_to_json(info),
        RpcResult::Pong => empty_object(),
        RpcResult::Resources(l) => {
            let mut items: Vec<Json> = Vec::new();
            let mut i: usize = 0;
            while i < l.len()
                invariant
                    i <= l@.len(),
                    items@.len() == i,
                    forall|k: int| 0 <= k < i ==> descriptor_json(#[trigger] items@[k], l@[k]),
                decreases l@.len() - i,
            {
                items.push(descriptor_to_json(&l[i]));
                i = i + 1;
            }
            list_to_json::<ResourceDescriptor>(
                "resources",
                items,
                Ghost(l@),
                Ghost(|j: Json, d: ResourceDescriptor| descriptor_json(j, d)),
            )
        },
        RpcResult::Contents(c) => {
            let mut items: Vec<Json> = Vec::new();
            let mut i: usize = 0;
            while i < c.contents.len()
                invariant
                    i <= c.contents@.len(),
                    items@.len() == i,
                    forall|k: int| 0 <= k < i ==> content_json(#[trigger] items@[k], c.contents@[k]),
                decreases c.contents@.len() - i,
            {
                items.push(content_to_json(&c.contents[i]));
                i = i + 1;
            }
            list_to_json::<ResourceContent>(
                "contents",
                items,
                Ghost(c.contents@),
                Ghost(|j: Json, x: ResourceContent| content_json(j, x)),
            )
        },
        RpcResult::Prompts(l) => {
            let mut items: Vec<Json> = Vec::new();
            let mut i: usize = 0;
            while i < l.len()
                invariant
                    i <= l@.len(),
                    items@.len() == i,
                    forall|k: int| 0 <= k < i ==> prompt_json(#[trigger] items@[k], l@[k]),
                decreases l@.len() - i,
            {
                items.push(prompt_to_json(&l[i]));
                i = i + 1;
            }
            list_to_json::<PromptDescriptor>(
                "prompts",
                items,
                Ghost(l@),
                Ghost(|j: Json, p: PromptDescriptor| prompt_json(j, p)),
            )
        },
        RpcResult::PromptMessage(p) => prompt_message_to_json(p),
    }
}

/// The JSON form of a response envelope.
pub fn response_to_json(r: &Response) -> (v: Json)
    ensures
        response_json_spec(v, *r),
{
    let mut f: Vec<(String, Json)> = Vec::new();
    f.push(member("jsonrpc", literal("2.0")));
    f.push(member("id", id_to_json(&r.id)));
    match &r.body {
        Ok(res) => f.push(member("result", result_to_json(res))),
        Err(e) => {
            let mut ef: Vec<(String, Json)> = Vec::new();
            ef.push(member("code", Json::Int(e.code)));
            ef.push(member("message", text(&e.message)));
            f.push(member("error", Json::Object(ef)));
        },
    }
    Json::Object(f)
}

/// The server-info document.
pub fn server_info_to_json(info: &ServerInfo) -> (v: Json)
    ensures
        server_info_json(v, *info),
{
    let mut f: Vec<(String, Json)> = Vec::new();
    f.push(member("name", text(&info.name)));
    f.push(member("version", text(&info.version)));
    f.push(member("description", text(&info.description)));
    f.push(member("protocolVersion", text(&info.protocol_version)));
    Json::Object(f)
}

} // verus!
