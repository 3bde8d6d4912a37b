use devops_mcp::catalog::{
    default_registry, AppBootstrapResource, CargoDependenciesResource, CiUtilsResource,
    DioxusBootstrapResource, DioxusFullstackPatternsResource, DioxusUtilsResource, FlUrlPrompt,
    FlUrlResource, HttpActionsResource, McpResource, MyGrpcExtensionsResource,
    MyNoSqlEntityPatternsResource, MyPostgresResource, MySshResource, MyTcpSocketsResource,
    RustExtensionsResource,
};
use devops_mcp::guides::{CARGO_DEPENDENCIES_GUIDE, MCP_GUIDE};
use devops_mcp::handler::{
    fetch_error_message, find_argument, first_missing, load_resource_by_http, render,
    FetchError, PromptSource, ResourceEntry, ResourceSource, Segment, Step,
};
use devops_mcp::model::{PromptArgument, PromptDescriptor, ResourceDescriptor};
use devops_mcp::registry::{Registry, RegistryError};
use devops_mcp::rpc::{parse_method, Method};
use devops_mcp::text::{decimal, join, same_text, starts_with};
use devops_mcp::transport::{route, Route, DEFAULT_MAX_BODY};

fn descriptor(uri: &str) -> ResourceDescriptor {
    ResourceDescriptor {
        uri: uri.to_string(),
        name: "n".to_string(),
        description: "d".to_string(),
        mime_type: "text/markdown".to_string(),
    }
}

fn prompt(name: &str) -> PromptDescriptor {
    PromptDescriptor { name: name.to_string(), description: "d".to_string(), arguments: Vec::new() }
}

#[test]
fn decimal_renders_numbers() {
    assert_eq!(decimal(0), "0");
    assert_eq!(decimal(7), "7");
    assert_eq!(decimal(500), "500");
    assert_eq!(decimal(10), "10");
    assert_eq!(decimal(u64::MAX), "18446744073709551615");
}

#[test]
fn text_helpers() {
    assert_eq!(join("ab", "cd"), "abcd");
    assert_eq!(join("", ""), "");
    assert!(starts_with("resource://x", "resource://"));
    assert!(starts_with("abc", ""));
    assert!(!starts_with("resource:/", "resource://"));
    assert!(!starts_with("xresource://", "resource://"));
    assert!(same_text("ping", "ping"));
    assert!(!same_text("ping", "pin"));
    assert!(!same_text("ping", "pong"));
    assert!(same_text("", ""));
    assert!(starts_with("héllo wörld", "héllo"));
}

#[test]
fn method_names() {
    assert!(matches!(parse_method("initialize"), Method::Initialize));
    assert!(matches!(parse_method("ping"), Method::Ping));
    assert!(matches!(parse_method("resources/list"), Method::ResourcesList));
    assert!(matches!(parse_method("resources/read"), Method::ResourcesRead));
    assert!(matches!(parse_method("prompts/list"), Method::PromptsList));
    assert!(matches!(parse_method("prompts/get"), Method::PromptsGet));
    assert!(matches!(parse_method("Ping"), Method::Unknown));
    assert!(matches!(parse_method("resources/list "), Method::Unknown));
}

#[test]
fn registry_rejects_bad_and_duplicate_entries() {
    let mut reg = Registry::new();
    let e = reg.add_resource(descriptor("http://x"), ResourceSource::Static { text: String::new() });
    assert!(matches!(&e, Err(RegistryError::InvalidUri(u)) if u == "http://x"));
    assert_eq!(e.unwrap_err().message(), "Resource URI must start with resource://: http://x");
    reg.add_resource(descriptor("resource://a"), ResourceSource::Static { text: String::new() }).unwrap();
    let e = reg.add_resource(descriptor("resource://a"), ResourceSource::Http { url: "u".to_string() });
    assert!(matches!(&e, Err(RegistryError::DuplicateUri(u)) if u == "resource://a"));
    assert_eq!(e.unwrap_err().message(), "Duplicate resource URI: resource://a");
    assert_eq!(reg.list_resources().len(), 1);

    reg.add_prompt(prompt("p"), PromptSource::Static { text: String::new() }).unwrap();
    let e = reg.add_prompt(prompt("p"), PromptSource::Static { text: String::new() });
    assert!(matches!(&e, Err(RegistryError::DuplicateName(n)) if n == "p"));
    assert_eq!(e.unwrap_err().message(), "Duplicate prompt name: p");
    assert_eq!(reg.list_prompts().len(), 1);
}

#[test]
fn registry_lookups() {
    let mut reg = Registry::new();
    reg.add_resource(descriptor("resource://a"), ResourceSource::Static { text: "A".to_string() }).unwrap();
    reg.add_resource(descriptor("resource://b"), ResourceSource::Http { url: "http://b".to_string() }).unwrap();
    reg.add_prompt(prompt("q"), PromptSource::Static { text: "Q".to_string() }).unwrap();
    assert_eq!(reg.find_resource(&"resource://b".to_string()), Some(1));
    assert_eq!(reg.find_resource(&"resource://c".to_string()), None);
    assert!(reg.get_resource(&"resource://a".to_string()).is_some());
    assert!(reg.get_resource(&"resource://".to_string()).is_none());
    assert_eq!(reg.find_prompt(&"q".to_string()), Some(0));
    assert!(reg.get_prompt(&"r".to_string()).is_none());
    assert_eq!(reg.resource_at(1).descriptor.uri, "resource://b");
    assert_eq!(reg.prompt_at(0).descriptor.name, "q");
}

#[test]
fn entry_read_checks_its_uri() {
    let e = ResourceEntry {
        descriptor: descriptor("resource://a"),
        source: ResourceSource::Static { text: "A".to_string() },
    };
    match e.read(&"resource://b".to_string()) {
        Step::Failed(m) => assert_eq!(m, "Unknown resource URI: resource://b"),
        _ => panic!("expected a refusal"),
    }
    match e.read(&"resource://a".to_string()) {
        Step::Ready(r) => assert_eq!(r.contents[0].text.as_deref(), Some("A")),
        _ => panic!("expected contents"),
    }
}

#[test]
fn loader_wraps_body_or_error() {
    let uri = "resource://a".to_string();
    let mime = "text/plain".to_string();
    let url = "https://example.org/a.md".to_string();
    let r = load_resource_by_http(&uri, &mime, &url, Ok("body".to_string())).unwrap();
    assert_eq!(r.contents.len(), 1);
    assert_eq!(r.contents[0].uri, "resource://a");
    assert_eq!(r.contents[0].mime_type, "text/plain");
    assert_eq!(r.contents[0].text.as_deref(), Some("body"));
    assert!(r.contents[0].blob.is_none());
    let e = load_resource_by_http(&uri, &mime, &url, Err(FetchError::Decode)).unwrap_err();
    assert_eq!(e, "Failed to load resource://a from https://example.org/a.md: response body is not valid UTF-8");
    let m = fetch_error_message(&uri, &url, &FetchError::HttpStatus { status: 503 });
    assert_eq!(m, "Failed to load resource://a from https://example.org/a.md: HTTP status 503");
}

#[test]
fn arguments_and_templates() {
    let args = vec![
        ("a".to_string(), "1".to_string()),
        ("b".to_string(), "2".to_string()),
        ("a".to_string(), "3".to_string()),
    ];
    assert_eq!(find_argument(&args, &"a".to_string()).map(|s| s.as_str()), Some("1"));
    assert_eq!(find_argument(&args, &"c".to_string()), None);
    let segs = vec![
        Segment::Text("<".to_string()),
        Segment::Arg("a".to_string()),
        Segment::Arg("missing".to_string()),
        Segment::Text("|".to_string()),
        Segment::Arg("b".to_string()),
        Segment::Text(">".to_string()),
    ];
    assert_eq!(render(&segs, &args), "<1|2>");
    assert_eq!(render(&Vec::new(), &args), "");
    let declared = vec![
        PromptArgument { name: "a".to_string(), description: String::new(), required: true },
        PromptArgument { name: "x".to_string(), description: String::new(), required: false },
        PromptArgument { name: "y".to_string(), description: String::new(), required: true },
    ];
    assert_eq!(first_missing(&declared, &args), Some(2));
    assert_eq!(first_missing(&declared[..2].to_vec(), &args), None);
}

#[test]
fn routes() {
    let json = Some("application/json");
    assert_eq!(route("POST", "/", "/", json, 10, DEFAULT_MAX_BODY), Route::Rpc);
    assert_eq!(route("POST", "/", "/", Some("application/json; charset=utf-8"), 10, DEFAULT_MAX_BODY), Route::Rpc);
    assert_eq!(route("GET", "/", "/", None, 0, DEFAULT_MAX_BODY), Route::Info);
    assert_eq!(route("POST", "/other", "/", json, 10, DEFAULT_MAX_BODY), Route::NotFound);
    assert_eq!(route("PUT", "/", "/", json, 10, DEFAULT_MAX_BODY), Route::NotFound);
    assert_eq!(route("POST", "/", "/", json, DEFAULT_MAX_BODY + 1, DEFAULT_MAX_BODY), Route::PayloadTooLarge);
    assert_eq!(route("POST", "/", "/", json, DEFAULT_MAX_BODY, DEFAULT_MAX_BODY), Route::Rpc);
    assert_eq!(route("POST", "/", "/", Some("text/plain"), 10, DEFAULT_MAX_BODY), Route::UnsupportedMediaType);
    assert_eq!(route("POST", "/", "/", Some("application/jsonx"), 10, DEFAULT_MAX_BODY), Route::UnsupportedMediaType);
    assert_eq!(route("POST", "/", "/", None, 10, DEFAULT_MAX_BODY), Route::UnsupportedMediaType);
    assert_eq!(Route::Rpc.status(), 200);
    assert_eq!(Route::Info.status(), 200);
    assert_eq!(Route::NotFound.status(), 404);
    assert_eq!(Route::PayloadTooLarge.status(), 413);
    assert_eq!(Route::UnsupportedMediaType.status(), 415);
}

#[test]
fn shipped_catalog() {
    let reg = default_registry().unwrap();
    let uris: Vec<String> = reg.list_resources().iter().map(|d| d.uri.clone()).collect();
    assert_eq!(
        uris,
        vec![
            "resource://mcp-development-guide",
            "resource://flurl-usage-guide",
            "resource://http-actions-design-guide",
            "resource://app-bootstrap",
            "resource://development/dioxus-bootstrap",
            "resource://cargo-dependencies-guide",
            "resource://my-ssh-readme",
            "resource://tcp-sockets-design-library",
            "resource://rust-extensions",
        ]
    );
    assert!(reg.list_prompts().is_empty());
    for d in reg.list_resources() {
        assert_eq!(d.mime_type, "text/markdown");
    }
}

#[test]
fn catalog_entries() {
    let e = McpResource::entry();
    assert_eq!(e.descriptor.name, "MCP Development Guide");
    assert!(matches!(&e.source, ResourceSource::Static { text } if text == MCP_GUIDE));
    let e = CargoDependenciesResource::entry();
    assert!(matches!(&e.source, ResourceSource::Static { text } if text == CARGO_DEPENDENCIES_GUIDE));
    assert!(CARGO_DEPENDENCIES_GUIDE.contains("# Cargo Dependencies Guide"));
    let e = FlUrlResource::entry();
    assert!(matches!(&e.source, ResourceSource::Http { url } if url == "https://raw.githubusercontent.com/MyJetTools/fl-url/refs/heads/main/README.md"));
    let remote = vec![
        AppBootstrapResource::entry(),
        CiUtilsResource::entry(),
        DioxusBootstrapResource::entry(),
        DioxusFullstackPatternsResource::entry(),
        DioxusUtilsResource::entry(),
        HttpActionsResource::entry(),
        MyGrpcExtensionsResource::entry(),
        MyNoSqlEntityPatternsResource::entry(),
        MyPostgresResource::entry(),
        MySshResource::entry(),
        MyTcpSocketsResource::entry(),
        RustExtensionsResource::entry(),
    ];
    for e in remote {
        assert!(e.descriptor.uri.starts_with("resource://"));
        assert!(matches!(&e.source, ResourceSource::Http { url } if url.starts_with("https://raw.githubusercontent.com/")));
    }
    assert_eq!(CiUtilsResource::entry().descriptor.uri, "resource://ci-utils-readme");
    let p = FlUrlPrompt::entry();
    assert_eq!(p.descriptor.name, "flurl_usage");
    assert!(FlUrlPrompt::get_argument_descriptions().is_empty());
    assert!(matches!(&p.source, PromptSource::Http { .. }));
}
