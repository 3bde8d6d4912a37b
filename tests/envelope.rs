use devops_mcp::envelope::{member, read_envelope, string_members_of, Json};
use devops_mcp::handler::ResourceSource;
use devops_mcp::model::ResourceDescriptor;
use devops_mcp::registry::Registry;
use devops_mcp::rpc::{Incoming, RequestId, RpcResult, ServerInfo};
use devops_mcp::server::{Outcome, Server};

fn s(t: &str) -> Json {
    Json::Str(t.to_string())
}

fn obj(members: Vec<(&str, Json)>) -> Json {
    Json::Object(members.into_iter().map(|(k, v)| (k.to_string(), v)).collect())
}

#[test]
fn non_objects_are_invalid_requests() {
    for v in [Json::Null, Json::Int(1), s("x"), Json::Array(vec![]), Json::Bool(true)] {
        assert!(matches!(read_envelope(&v), Incoming::Invalid { id: RequestId::Null }));
    }
}

#[test]
fn call_with_numeric_id() {
    let v = obj(vec![("jsonrpc", s("2.0")), ("id", Json::Int(5)), ("method", s("ping"))]);
    match read_envelope(&v) {
        Incoming::Call(r) => {
            assert_eq!(r.jsonrpc, "2.0");
            assert!(matches!(r.id, Some(RequestId::Number(5))));
            assert_eq!(r.method, "ping");
            assert!(r.params.uri.is_none());
            assert!(r.params.name.is_none());
            assert!(r.params.arguments.is_empty());
        }
        _ => panic!("expected a call"),
    }
}

#[test]
fn bad_ids_and_missing_methods() {
    let v = obj(vec![("id", obj(vec![])), ("method", s("ping"))]);
    assert!(matches!(read_envelope(&v), Incoming::Invalid { id: RequestId::Null }));
    let v = obj(vec![("id", Json::OtherNumber), ("method", s("ping"))]);
    assert!(matches!(read_envelope(&v), Incoming::Invalid { id: RequestId::Null }));
    let v = obj(vec![("id", s("q")), ("method", Json::Int(3))]);
    assert!(matches!(read_envelope(&v), Incoming::Invalid { id: RequestId::Text(t) } if t == "q"));
    let v = obj(vec![("id", Json::Int(2))]);
    assert!(matches!(read_envelope(&v), Incoming::Invalid { id: RequestId::Number(2) }));
    let v = obj(vec![("id", Json::Null), ("method", s("ping"))]);
    assert!(matches!(read_envelope(&v), Incoming::Call(r) if matches!(r.id, Some(RequestId::Null))));
}

#[test]
fn notification_has_no_id_and_no_version() {
    let v = obj(vec![("method", s("notifications/initialized"))]);
    match read_envelope(&v) {
        Incoming::Call(r) => {
            assert!(r.id.is_none());
            assert_eq!(r.jsonrpc, "");
        }
        _ => panic!("expected a call"),
    }
}

#[test]
fn params_are_read() {
    let params = obj(vec![
        ("uri", s("resource://a")),
        ("name", Json::Int(1)),
        ("arguments", obj(vec![("topic", s("x")), ("n", Json::Int(3)), ("lang", s("rust"))])),
    ]);
    let v = obj(vec![("jsonrpc", s("2.0")), ("id", Json::Int(1)), ("method", s("prompts/get")), ("params", params)]);
    match read_envelope(&v) {
        Incoming::Call(r) => {
            assert_eq!(r.params.uri.as_deref(), Some("resource://a"));
            assert!(r.params.name.is_none());
            assert_eq!(
                r.params.arguments,
                vec![("topic".to_string(), "x".to_string()), ("lang".to_string(), "rust".to_string())]
            );
        }
        _ => panic!("expected a call"),
    }
    let v = obj(vec![("id", Json::Int(1)), ("method", s("x")), ("params", Json::Array(vec![]))]);
    assert!(matches!(read_envelope(&v), Incoming::Call(r) if r.params.uri.is_none() && r.params.arguments.is_empty()));
}

#[test]
fn members_are_found_first_first() {
    let f = vec![("a".to_string(), Json::Int(1)), ("a".to_string(), Json::Int(2)), ("b".to_string(), s("x"))];
    assert!(matches!(member(&f, "a"), Some(Json::Int(1))));
    assert!(member(&f, "c").is_none());
    assert_eq!(string_members_of(&f), vec![("b".to_string(), "x".to_string())]);
}

#[test]
fn read_request_from_json_end_to_end() {
    let mut reg = Registry::new();
    reg.add_resource(
        ResourceDescriptor {
            uri: "resource://mcp-development-guide".to_string(),
            name: "MCP Development Guide".to_string(),
            description: "...".to_string(),
            mime_type: "text/markdown".to_string(),
        },
        ResourceSource::Static { text: "# Guide\n".to_string() },
    )
    .unwrap();
    let info = ServerInfo {
        name: "n".to_string(),
        version: "v".to_string(),
        description: "d".to_string(),
        protocol_version: "2024-11-05".to_string(),
    };
    let mut server = Server::new(info, reg);
    let v = obj(vec![
        ("jsonrpc", s("2.0")),
        ("id", Json::Int(2)),
        ("method", s("resources/read")),
        ("params", obj(vec![("uri", s("resource://mcp-development-guide"))])),
    ]);
    match server.handle(read_envelope(&v)) {
        Outcome::Reply(r) => {
            assert!(matches!(r.id, RequestId::Number(2)));
            match r.body {
                Ok(RpcResult::Contents(c)) => assert_eq!(c.contents[0].text.as_deref(), Some("# Guide\n")),
                _ => panic!("expected contents"),
            }
        }
        _ => panic!("expected a reply"),
    }
}
