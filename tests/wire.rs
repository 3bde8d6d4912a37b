use devops_mcp::envelope::Json;
use devops_mcp::handler::{PromptSource, ResourceSource, Segment};
use devops_mcp::model::{PromptArgument, PromptDescriptor, ResourceContent, ResourceDescriptor, ResourceReadResult};
use devops_mcp::registry::Registry;
use devops_mcp::rpc::{error_response, parse_error_response, Incoming, Params, Request, RequestId, Response, RpcResult, ServerInfo};
use devops_mcp::server::{Outcome, Server};
use devops_mcp::wire::{response_to_json, server_info_to_json};

fn render(j: &Json) -> String {
    match j {
        Json::Null | Json::OtherNumber => "null".to_string(),
        Json::Bool(b) => b.to_string(),
        Json::Int(i) => i.to_string(),
        Json::Str(s) => format!("{:?}", s),
        Json::Array(items) => format!("[{}]", items.iter().map(render).collect::<Vec<_>>().join(",")),
        Json::Object(members) => format!(
            "{{{}}}",
            members.iter().map(|(k, v)| format!("{:?}:{}", k, render(v))).collect::<Vec<_>>().join(",")
        ),
    }
}

fn info() -> ServerInfo {
    ServerInfo {
        name: "devops-mcp".to_string(),
        version: "0.1.0".to_string(),
        description: "Provides access to devops tools".to_string(),
        protocol_version: "2024-11-05".to_string(),
    }
}

fn server() -> Server {
    let mut reg = Registry::new();
    reg.add_resource(
        ResourceDescriptor {
            uri: "resource://mcp-development-guide".to_string(),
            name: "MCP Development Guide".to_string(),
            description: "...".to_string(),
            mime_type: "text/markdown".to_string(),
        },
        ResourceSource::Static { text: "# Guide\n".to_string() },
    )
    .unwrap();
    reg.add_prompt(
        PromptDescriptor {
            name: "user_guide".to_string(),
            description: "Guide".to_string(),
            arguments: vec![PromptArgument {
                name: "topic".to_string(),
                description: "Topic".to_string(),
                required: true,
            }],
        },
        PromptSource::Template {
            segments: vec![Segment::Text("About ".to_string()), Segment::Arg("topic".to_string())],
        },
    )
    .unwrap();
    Server::new(info(), reg)
}

fn answer(s: &mut Server, id: i64, method: &str, params: Params) -> String {
    let inc = Incoming::Call(Request {
        jsonrpc: "2.0".to_string(),
        id: Some(RequestId::Number(id)),
        method: method.to_string(),
        params,
    });
    match s.handle(inc) {
        Outcome::Reply(r) => render(&response_to_json(&r)),
        _ => panic!("expected a reply"),
    }
}

fn none() -> Params {
    Params { uri: None, name: None, arguments: Vec::new() }
}

#[test]
fn resource_list_layout() {
    let mut s = server();
    assert_eq!(
        answer(&mut s, 1, "resources/list", none()),
        r#"{"jsonrpc":"2.0","id":1,"result":{"resources":[{"uri":"resource://mcp-development-guide","name":"MCP Development Guide","description":"...","mimeType":"text/markdown"}]}}"#
    );
}

#[test]
fn resource_read_layout() {
    let mut s = server();
    let p = Params { uri: Some("resource://mcp-development-guide".to_string()), name: None, arguments: Vec::new() };
    assert_eq!(
        answer(&mut s, 2, "resources/read", p),
        r##"{"jsonrpc":"2.0","id":2,"result":{"contents":[{"uri":"resource://mcp-development-guide","mimeType":"text/markdown","text":"# Guide\n"}]}}"##
    );
}

#[test]
fn unknown_uri_layout() {
    let mut s = server();
    let p = Params { uri: Some("resource://missing".to_string()), name: None, arguments: Vec::new() };
    assert_eq!(
        answer(&mut s, 3, "resources/read", p),
        r#"{"jsonrpc":"2.0","id":3,"error":{"code":-32602,"message":"Unknown resource URI: resource://missing"}}"#
    );
}

#[test]
fn initialize_layout() {
    let mut s = server();
    assert_eq!(
        answer(&mut s, 4, "initialize", none()),
        r#"{"jsonrpc":"2.0","id":4,"result":{"protocolVersion":"2024-11-05","capabilities":{"resources":{},"prompts":{}},"serverInfo":{"name":"devops-mcp","version":"0.1.0","description":"Provides access to devops tools"}}}"#
    );
}

#[test]
fn ping_layout() {
    let mut s = server();
    assert_eq!(answer(&mut s, 5, "ping", none()), r#"{"jsonrpc":"2.0","id":5,"result":{}}"#);
}

#[test]
fn prompt_layouts() {
    let mut s = server();
    assert_eq!(
        answer(&mut s, 6, "prompts/list", none()),
        r#"{"jsonrpc":"2.0","id":6,"result":{"prompts":[{"name":"user_guide","description":"Guide","arguments":[{"name":"topic","description":"Topic","required":true}]}]}}"#
    );
    let p = Params {
        uri: None,
        name: Some("user_guide".to_string()),
        arguments: vec![("topic".to_string(), "x".to_string())],
    };
    assert_eq!(
        answer(&mut s, 7, "prompts/get", p),
        r#"{"jsonrpc":"2.0","id":7,"result":{"description":"Guide","messages":[{"role":"user","content":{"type":"text","text":"About x"}}]}}"#
    );
}

#[test]
fn parse_error_layout() {
    assert_eq!(
        render(&response_to_json(&parse_error_response())),
        r#"{"jsonrpc":"2.0","id":null,"error":{"code":-32700,"message":"Parse error"}}"#
    );
    let r = error_response(RequestId::Text("a".to_string()), -32601, "Method not found: x".to_string());
    assert_eq!(
        render(&response_to_json(&r)),
        r#"{"jsonrpc":"2.0","id":"a","error":{"code":-32601,"message":"Method not found: x"}}"#
    );
}

#[test]
fn blob_content_layout() {
    let r = Response {
        id: RequestId::Number(9),
        body: Ok(RpcResult::Contents(ResourceReadResult {
            contents: vec![ResourceContent {
                uri: "resource://img".to_string(),
                mime_type: "image/png".to_string(),
                text: None,
                blob: Some("AAEC".to_string()),
            }],
        })),
    };
    assert_eq!(
        render(&response_to_json(&r)),
        r#"{"jsonrpc":"2.0","id":9,"result":{"contents":[{"uri":"resource://img","mimeType":"image/png","blob":"AAEC"}]}}"#
    );
}

#[test]
fn server_info_layout() {
    assert_eq!(
        render(&server_info_to_json(&info())),
        r#"{"name":"devops-mcp","version":"0.1.0","description":"Provides access to devops tools","protocolVersion":"2024-11-05"}"#
    );
}
