use devops_mcp::handler::{FetchError, PromptSource, ResourceSource, Segment};
use devops_mcp::model::{PromptArgument, PromptDescriptor, ResourceDescriptor};
use devops_mcp::registry::Registry;
use devops_mcp::rpc::{Incoming, Params, Request, RequestId, Response, RpcResult, ServerInfo};
use devops_mcp::server::{complete_fetch, Outcome, PendingFetch, Server, ServerState};

fn info() -> ServerInfo {
    ServerInfo {
        name: "devops-mcp".to_string(),
        version: "0.1.0".to_string(),
        description: "Provides access to devops tools".to_string(),
        protocol_version: "2024-11-05".to_string(),
    }
}

fn descriptor(uri: &str, name: &str) -> ResourceDescriptor {
    ResourceDescriptor {
        uri: uri.to_string(),
        name: name.to_string(),
        description: "...".to_string(),
        mime_type: "text/markdown".to_string(),
    }
}

fn no_params() -> Params {
    Params { uri: None, name: None, arguments: Vec::new() }
}

fn call(id: i64, method: &str, params: Params) -> Incoming {
    Incoming::Call(Request {
        jsonrpc: "2.0".to_string(),
        id: Some(RequestId::Number(id)),
        method: method.to_string(),
        params,
    })
}

fn read(id: i64, uri: &str) -> Incoming {
    call(id, "resources/read", Params { uri: Some(uri.to_string()), name: None, arguments: Vec::new() })
}

fn get_prompt(id: i64, name: &str, args: &[(&str, &str)]) -> Incoming {
    let arguments = args.iter().map(|(k, v)| (k.to_string(), v.to_string())).collect();
    call(id, "prompts/get", Params { uri: None, name: Some(name.to_string()), arguments })
}

fn guide_server() -> Server {
    let mut reg = Registry::new();
    reg.add_resource(
        descriptor("resource://mcp-development-guide", "MCP Development Guide"),
        ResourceSource::Static { text: "# Guide\n".to_string() },
    )
    .unwrap();
    Server::new(info(), reg)
}

fn reply(out: Outcome) -> Response {
    match out {
        Outcome::Reply(r) => r,
        _ => panic!("expected a reply"),
    }
}

fn pending(out: Outcome) -> PendingFetch {
    match out {
        Outcome::Fetch(p) => p,
        _ => panic!("expected a pending fetch"),
    }
}

fn error_of(r: &Response) -> (i64, String) {
    match &r.body {
        Err(e) => (e.code, e.message.clone()),
        Ok(_) => panic!("expected an error"),
    }
}

fn id_number(r: &Response) -> i64 {
    match r.id {
        RequestId::Number(n) => n,
        _ => panic!("expected a numeric id"),
    }
}

fn text_of(r: &Response) -> (String, String, String) {
    match &r.body {
        Ok(RpcResult::Contents(c)) => {
            assert_eq!(c.contents.len(), 1);
            assert!(c.contents[0].blob.is_none());
            (
                c.contents[0].uri.clone(),
                c.contents[0].mime_type.clone(),
                c.contents[0].text.clone().unwrap(),
            )
        }
        _ => panic!("expected contents"),
    }
}

fn listed_uris(r: &Response) -> Vec<String> {
    match &r.body {
        Ok(RpcResult::Resources(l)) => l.iter().map(|d| d.uri.clone()).collect(),
        _ => panic!("expected a resource list"),
    }
}

#[test]
fn static_resource_is_listed_and_read() {
    let mut s = guide_server();
    let r = reply(s.handle(call(1, "resources/list", no_params())));
    assert_eq!(id_number(&r), 1);
    match &r.body {
        Ok(RpcResult::Resources(l)) => {
            assert_eq!(l.len(), 1);
            assert_eq!(l[0].uri, "resource://mcp-development-guide");
            assert_eq!(l[0].name, "MCP Development Guide");
            assert_eq!(l[0].description, "...");
            assert_eq!(l[0].mime_type, "text/markdown");
        }
        _ => panic!("expected a resource list"),
    }
    let r = reply(s.handle(read(2, "resource://mcp-development-guide")));
    assert_eq!(id_number(&r), 2);
    let (uri, mime, text) = text_of(&r);
    assert_eq!(uri, "resource://mcp-development-guide");
    assert_eq!(mime, "text/markdown");
    assert_eq!(text, "# Guide\n");
}

#[test]
fn unknown_uri_is_invalid_params() {
    let mut s = guide_server();
    let r = reply(s.handle(read(3, "resource://missing")));
    assert_eq!(id_number(&r), 3);
    assert_eq!(error_of(&r), (-32602, "Unknown resource URI: resource://missing".to_string()));
}

#[test]
fn uri_with_junk_after_a_registered_one_is_unknown() {
    let mut s = guide_server();
    let r = reply(s.handle(read(4, "resource://mcp-development-guide-junk")));
    assert_eq!(error_of(&r).0, -32602);
    let r = reply(s.handle(read(5, "resource://mcp-development")));
    assert_eq!(error_of(&r).0, -32602);
}

#[test]
fn missing_uri_parameter_is_invalid_params() {
    let mut s = guide_server();
    let r = reply(s.handle(call(6, "resources/read", no_params())));
    assert_eq!(error_of(&r), (-32602, "Missing required parameter: uri".to_string()));
}

#[test]
fn static_read_is_the_same_every_time() {
    let mut s = guide_server();
    for i in 0..5 {
        let r = reply(s.handle(read(i, "resource://mcp-development-guide")));
        assert_eq!(id_number(&r), i);
        assert_eq!(text_of(&r).2, "# Guide\n");
    }
    assert_eq!(s.state(), ServerState::New);
}

fn http_server() -> Server {
    let mut reg = Registry::new();
    reg.add_resource(
        descriptor("resource://remote", "Remote"),
        ResourceSource::Http { url: "http://127.0.0.1:9/doc.md".to_string() },
    )
    .unwrap();
    Server::new(info(), reg)
}

#[test]
fn http_resource_follows_upstream() {
    let mut s = http_server();
    let p = pending(s.handle(read(7, "resource://remote")));
    assert_eq!(p.url, "http://127.0.0.1:9/doc.md");
    let r = complete_fetch(p, Ok("hello".to_string()));
    assert_eq!(id_number(&r), 7);
    let (uri, mime, text) = text_of(&r);
    assert_eq!((uri.as_str(), mime.as_str(), text.as_str()), ("resource://remote", "text/markdown", "hello"));

    let p = pending(s.handle(read(8, "resource://remote")));
    let r = complete_fetch(p, Err(FetchError::HttpStatus { status: 500 }));
    assert_eq!(id_number(&r), 8);
    let (code, message) = error_of(&r);
    assert_eq!(code, -32603);
    assert!(message.contains("http://127.0.0.1:9/doc.md"));
    assert_eq!(
        message,
        "Failed to load resource://remote from http://127.0.0.1:9/doc.md: HTTP status 500"
    );

    let r = reply(s.handle(call(9, "resources/list", no_params())));
    assert_eq!(listed_uris(&r), vec!["resource://remote".to_string()]);
}

#[test]
fn fetch_failures_name_their_cause() {
    let cases = vec![
        (FetchError::Network { cause: "connection refused".to_string() }, "network error: connection refused"),
        (FetchError::Decode, "response body is not valid UTF-8"),
        (FetchError::Timeout, "deadline exceeded"),
        (FetchError::HttpStatus { status: 404 }, "HTTP status 404"),
    ];
    for (e, cause) in cases {
        let mut s = http_server();
        let p = pending(s.handle(read(1, "resource://remote")));
        let r = complete_fetch(p, Err(e));
        let (code, message) = error_of(&r);
        assert_eq!(code, -32603);
        assert_eq!(
            message,
            format!("Failed to load resource://remote from http://127.0.0.1:9/doc.md: {}", cause)
        );
    }
}

#[test]
fn initialize_reports_server_info_once() {
    let mut s = guide_server();
    let params = no_params();
    let r = reply(s.handle(call(1, "initialize", params)));
    match &r.body {
        Ok(RpcResult::Initialize(i)) => {
            assert_eq!(i.name, "devops-mcp");
            assert_eq!(i.version, "0.1.0");
            assert_eq!(i.protocol_version, "2024-11-05");
        }
        _ => panic!("expected initialize result"),
    }
    assert_eq!(s.state(), ServerState::Initialized);
    let r = reply(s.handle(call(2, "initialize", no_params())));
    assert_eq!(error_of(&r), (-32600, "Server already initialized".to_string()));
    assert_eq!(s.state(), ServerState::Initialized);
}

#[test]
fn initialize_after_shutdown_is_refused() {
    let mut s = guide_server();
    s.shutdown();
    assert_eq!(s.state(), ServerState::Shutdown);
    let r = reply(s.handle(call(1, "initialize", no_params())));
    assert_eq!(error_of(&r).0, -32600);
}

fn prompt_server() -> Server {
    let mut reg = Registry::new();
    reg.add_prompt(
        PromptDescriptor {
            name: "user_guide".to_string(),
            description: "Provides a comprehensive guide for users".to_string(),
            arguments: vec![PromptArgument {
                name: "topic".to_string(),
                description: "Specific topic to focus on".to_string(),
                required: true,
            }],
        },
        PromptSource::Template {
            segments: vec![
                Segment::Text("# User Guide: ".to_string()),
                Segment::Arg("topic".to_string()),
                Segment::Text("\nThis guide covers ".to_string()),
                Segment::Arg("topic".to_string()),
                Segment::Text(" in detail.\n".to_string()),
            ],
        },
    )
    .unwrap();
    reg.add_prompt(
        PromptDescriptor {
            name: "remote_prompt".to_string(),
            description: "Fetched".to_string(),
            arguments: vec![PromptArgument {
                name: "lang".to_string(),
                description: "Language".to_string(),
                required: true,
            }],
        },
        PromptSource::Http { url: "http://127.0.0.1:9/prompt.md".to_string() },
    )
    .unwrap();
    Server::new(info(), reg)
}

#[test]
fn prompt_requires_its_arguments() {
    let mut s = prompt_server();
    let r = reply(s.handle(get_prompt(1, "user_guide", &[])));
    let (code, message) = error_of(&r);
    assert_eq!(code, -32602);
    assert!(message.contains("topic"));
    assert_eq!(message, "Missing required argument: topic");

    let r = reply(s.handle(get_prompt(2, "user_guide", &[("topic", "x"), ("extra", "ignored")])));
    match &r.body {
        Ok(RpcResult::PromptMessage(p)) => {
            assert_eq!(p.description, "Provides a comprehensive guide for users");
            assert_eq!(p.message, "# User Guide: x\nThis guide covers x in detail.\n");
        }
        _ => panic!("expected a prompt message"),
    }
}

#[test]
fn missing_argument_never_fetches() {
    let mut s = prompt_server();
    let out = s.handle(get_prompt(1, "remote_prompt", &[("other", "v")]));
    let r = reply(out);
    assert_eq!(error_of(&r), (-32602, "Missing required argument: lang".to_string()));
    let p = pending(s.handle(get_prompt(2, "remote_prompt", &[("lang", "rust")])));
    assert_eq!(p.url, "http://127.0.0.1:9/prompt.md");
    let r = complete_fetch(p, Ok("body".to_string()));
    match &r.body {
        Ok(RpcResult::PromptMessage(m)) => {
            assert_eq!(m.description, "Fetched");
            assert_eq!(m.message, "body");
        }
        _ => panic!("expected a prompt message"),
    }
    let p = pending(s.handle(get_prompt(3, "remote_prompt", &[("lang", "rust")])));
    let r = complete_fetch(p, Err(FetchError::Timeout));
    assert_eq!(
        error_of(&r),
        (
            -32603,
            "Failed to load prompt remote_prompt from http://127.0.0.1:9/prompt.md: deadline exceeded"
                .to_string()
        )
    );
}

#[test]
fn unknown_prompt_and_missing_name() {
    let mut s = prompt_server();
    let r = reply(s.handle(get_prompt(1, "nope", &[])));
    assert_eq!(error_of(&r), (-32602, "Unknown prompt: nope".to_string()));
    let r = reply(s.handle(call(2, "prompts/get", no_params())));
    assert_eq!(error_of(&r), (-32602, "Missing required parameter: name".to_string()));
}

#[test]
fn prompts_are_listed_in_order() {
    let mut s = prompt_server();
    let r = reply(s.handle(call(1, "prompts/list", no_params())));
    match &r.body {
        Ok(RpcResult::Prompts(l)) => {
            let names: Vec<&str> = l.iter().map(|p| p.name.as_str()).collect();
            assert_eq!(names, vec!["user_guide", "remote_prompt"]);
            assert_eq!(l[0].arguments.len(), 1);
            assert!(l[0].arguments[0].required);
        }
        _ => panic!("expected a prompt list"),
    }
}

#[test]
fn unknown_method_is_not_found() {
    let mut s = guide_server();
    let r = reply(s.handle(call(11, "tools/list", no_params())));
    assert_eq!(id_number(&r), 11);
    assert_eq!(error_of(&r), (-32601, "Method not found: tools/list".to_string()));
    let r = reply(s.handle(call(12, "", no_params())));
    assert_eq!(error_of(&r).0, -32601);
}

#[test]
fn malformed_body_gets_parse_error_with_null_id() {
    let mut s = guide_server();
    let r = reply(s.handle(Incoming::Malformed));
    assert!(matches!(r.id, RequestId::Null));
    assert_eq!(error_of(&r), (-32700, "Parse error".to_string()));
}

#[test]
fn invalid_envelopes_get_invalid_request() {
    let mut s = guide_server();
    let r = reply(s.handle(Incoming::Invalid { id: RequestId::Number(4) }));
    assert_eq!(id_number(&r), 4);
    assert_eq!(error_of(&r), (-32600, "Invalid request".to_string()));
    let r = reply(s.handle(Incoming::Call(Request {
        jsonrpc: "1.0".to_string(),
        id: Some(RequestId::Text("a".to_string())),
        method: "ping".to_string(),
        params: no_params(),
    })));
    assert!(matches!(&r.id, RequestId::Text(t) if t == "a"));
    assert_eq!(error_of(&r).0, -32600);
}

#[test]
fn response_id_echoes_request_id() {
    let mut s = guide_server();
    let r = reply(s.handle(Incoming::Call(Request {
        jsonrpc: "2.0".to_string(),
        id: Some(RequestId::Text("req-9".to_string())),
        method: "ping".to_string(),
        params: no_params(),
    })));
    assert!(matches!(&r.id, RequestId::Text(t) if t == "req-9"));
    assert!(matches!(r.body, Ok(RpcResult::Pong)));
    let r = reply(s.handle(call(-3, "resources/list", no_params())));
    assert_eq!(id_number(&r), -3);
}

#[test]
fn notifications_get_no_answer() {
    let mut s = guide_server();
    let out = s.handle(Incoming::Call(Request {
        jsonrpc: "2.0".to_string(),
        id: None,
        method: "notifications/initialized".to_string(),
        params: no_params(),
    }));
    assert!(matches!(out, Outcome::Silent));
    let out = s.handle(Incoming::Call(Request {
        jsonrpc: "2.0".to_string(),
        id: None,
        method: "initialize".to_string(),
        params: no_params(),
    }));
    assert!(matches!(out, Outcome::Silent));
    assert_eq!(s.state(), ServerState::New);
}

#[test]
fn listing_keeps_registration_order() {
    let mut reg = Registry::new();
    for u in ["resource://c", "resource://a", "resource://b"] {
        reg.add_resource(descriptor(u, u), ResourceSource::Static { text: u.to_string() }).unwrap();
    }
    let mut s = Server::new(info(), reg);
    for i in 0..3 {
        let r = reply(s.handle(call(i, "resources/list", no_params())));
        assert_eq!(
            listed_uris(&r),
            vec!["resource://c".to_string(), "resource://a".to_string(), "resource://b".to_string()]
        );
    }
}
