//! The shipped catalog: documentation guides, most of them fetched from
//! GitHub at read time.
use vstd::prelude::*;
use vstd::string::*;
use crate::guides::{CARGO_DEPENDENCIES_GUIDE, MCP_GUIDE};
use crate::handler::{PromptEntry, PromptSource, ResourceEntry, ResourceSource};
use crate::model::{PromptArgument, PromptDescriptor, ResourceDescriptor};
use crate::registry::{has_uri, resource_scheme, Registry, RegistryError};

verus! {

fn descriptor(uri: &str, name: &str, description: &str) -> (r: ResourceDescriptor)
    ensures
        r.uri@ == uri@,
        r.name@ == name@,
        r.description@ == description@,
        r.mime_type@ == "text/markdown"@,
{
    ResourceDescriptor {
        uri: String::from_str(uri),
        name: String::from_str(name),
        description: String::from_str(description),
        mime_type: String::from_str("text/markdown"),
    }
}

fn http_entry(uri: &str, name: &str, description: &str, url: &str) -> (r: ResourceEntry)
    ensures
        r.descriptor.uri@ == uri@,
        r.descriptor.name@ == name@,
        r.descriptor.description@ == description@,
        r.descriptor.mime_type@ == "text/markdown"@,
        r.source is Http && r.source->url@ == url@,
{
    ResourceEntry {
        descriptor: descriptor(uri, name, description),
        source: ResourceSource::Http { url: String::from_str(url) },
    }
}

fn static_entry(uri: &str, name: &str, description: &str, text: &str) -> (r: ResourceEntry)
    ensures
        r.descriptor.uri@ == uri@,
        r.descriptor.name@ == name@,
        r.descriptor.description@ == description@,
        r.descriptor.mime_type@ == "text/markdown"@,
        r.source is Static && r.source->text@ == text@,
{
    ResourceEntry {
        descriptor: descriptor(uri, name, description),
        source: ResourceSource::Static { text: String::from_str(text) },
    }
}

/// The remote guide at `resource://app-bootstrap`.
pub struct AppBootstrapResource;

impl AppBootstrapResource {
    /// Its catalog entry.
    pub fn entry() -> (r: ResourceEntry)
        ensures
            r.descriptor.uri@ == "resource://app-bootstrap"@,
            r.descriptor.name@ == "App Bootstrap Guide"@,
            r.descriptor.description@ == "Step-by-step instructions for bootstrapping a new project"@,
            r.descriptor.mime_type@ == "text/markdown"@,
            r.source is Http && r.source->url@ == "https://raw.githubusercontent.com/amigin/ai-templates/refs/heads/main/cursor/APP_BOOTSTRAP.mdc"@,
    {
        http_entry(
            "resource://app-bootstrap",
            "App Bootstrap Guide",
            "Step-by-step instructions for bootstrapping a new project",
            "https://raw.githubusercontent.com/amigin/ai-templates/refs/heads/main/cursor/APP_BOOTSTRAP.mdc",
        )
    }
}

/// The embedded guide at `resource://cargo-dependencies-guide`.
pub struct CargoDependenciesResource;

impl CargoDependenciesResource {
    /// Its catalog entry.
    pub fn entry() -> (r: ResourceEntry)
        ensures
            r.descriptor.uri@ == "resource://cargo-dependencies-guide"@,
            r.descriptor.name@ == "Cargo Dependencies Guide"@,
            r.descriptor.description@ == "How to add dependencies to Cargo.toml"@,
            r.descriptor.mime_type@ == "text/markdown"@,
            r.source is Static && r.source->text@ == CARGO_DEPENDENCIES_GUIDE@,
    {
        static_entry(
            "resource://cargo-dependencies-guide",
            "Cargo Dependencies Guide",
            "How to add dependencies to Cargo.toml",
            CARGO_DEPENDENCIES_GUIDE,
        )
    }
}

/// The remote guide at `resource://ci-utils-readme`.
pub struct CiUtilsResource;

impl CiUtilsResource {
    /// Its catalog entry.
    pub fn entry() -> (r: ResourceEntry)
        ensures
            r.descriptor.uri@ == "resource://ci-utils-readme"@,
            r.descriptor.name@ == "ci-utils for each project"@,
            r.descriptor.description@ == "Utility crate for build-time helpers"@,
            r.descriptor.mime_type@ == "text/markdown"@,
            r.source is Http && r.source->url@ == "https://raw.githubusercontent.com/MyJetTools/ci-utils/refs/heads/main/README.md"@,
    {
        http_entry(
            "resource://ci-utils-readme",
            "ci-utils for each project",
            "Utility crate for build-time helpers",
            "https://raw.githubusercontent.com/MyJetTools/ci-utils/refs/heads/main/README.md",
        )
    }
}

/// The remote guide at `resource://development/dioxus-bootstrap`.
pub struct DioxusBootstrapResource;

impl DioxusBootstrapResource {
    /// Its catalog entry.
    pub fn entry() -> (r: ResourceEntry)
        ensures
            r.descriptor.uri@ == "resource://development/dioxus-bootstrap"@,
            r.descriptor.name@ == "Dioxus Fullstack Bootstrap Guide"@,
            r.descriptor.description@ == "Step-by-step instructions for bootstrapping a new empty Dioxus fullstack web application"@,
            r.descriptor.mime_type@ == "text/markdown"@,
            r.source is Http && r.source->url@ == "https://raw.githubusercontent.com/amigin/ai-templates/refs/heads/main/cursor/bootstrap-empty-dioxus-fullstack-project.mdc"@,
    {
        http_entry(
            "resource://development/dioxus-bootstrap",
            "Dioxus Fullstack Bootstrap Guide",
            "Step-by-step instructions for bootstrapping a new empty Dioxus fullstack web application",
            "https://raw.githubusercontent.com/amigin/ai-templates/refs/heads/main/cursor/bootstrap-empty-dioxus-fullstack-project.mdc",
        )
    }
}

/// The remote guide at `resource://dioxus-fullstack-design-patterns`.
pub struct DioxusFullstackPatternsResource;

impl DioxusFullstackPatternsResource {
    /// Its catalog entry.
    pub fn entry() -> (r: ResourceEntry)
        ensures
            r.descriptor.uri@ == "resource://dioxus-fullstack-design-patterns"@,
            r.descriptor.name@ == "Dioxus Fullstack Design Patterns"@,
            r.descriptor.description@ == "Project playbook for dialogs, forms, lists, and server functions"@,
            r.descriptor.mime_type@ == "text/markdown"@,
            r.source is Http && r.source->url@ == "https://raw.githubusercontent.com/MyJetTools/development-mcp/main/docs/DIOXUS_FULLSTACK_DESIGN_PATTERS.md"@,
    {
        http_entry(
            "resource://dioxus-fullstack-design-patterns",
            "Dioxus Fullstack Design Patterns",
            "Project playbook for dialogs, forms, lists, and server functions",
            "https://raw.githubusercontent.com/MyJetTools/development-mcp/main/docs/DIOXUS_FULLSTACK_DESIGN_PATTERS.md",
        )
    }
}

/// The remote guide at `resource://dioxus-utils-readme`.
pub struct DioxusUtilsResource;

impl DioxusUtilsResource {
    /// Its catalog entry.
    pub fn entry() -> (r: ResourceEntry)
        ensures
            r.descriptor.uri@ == "resource://dioxus-utils-readme"@,
            r.descriptor.name@ == "dioxus-utils Usage Cases Guide"@,
            r.descriptor.description@ == "Utilities for Dioxus apps: data state, dialogs, JS helpers"@,
            r.descriptor.mime_type@ == "text/markdown"@,
            r.source is Http && r.source->url@ == "https://raw.githubusercontent.com/MyJetTools/dioxus-utils/refs/heads/main/README.md"@,
    {
        http_entry(
            "resource://dioxus-utils-readme",
            "dioxus-utils Usage Cases Guide",
            "Utilities for Dioxus apps: data state, dialogs, JS helpers",
            "https://raw.githubusercontent.com/MyJetTools/dioxus-utils/refs/heads/main/README.md",
        )
    }
}

/// The remote guide at `resource://flurl-usage-guide`.
pub struct FlUrlResource;

impl FlUrlResource {
    /// Its catalog entry.
    pub fn entry() -> (r: ResourceEntry)
        ensures
            r.descriptor.uri@ == "resource://flurl-usage-guide"@,
            r.descriptor.name@ == "FlUrl Usage Guide"@,
            r.descriptor.description@ == "How to use FlUrl library"@,
            r.descriptor.mime_type@ == "text/markdown"@,
            r.source is Http && r.source->url@ == "https://raw.githubusercontent.com/MyJetTools/fl-url/refs/heads/main/README.md"@,
    {
        http_entry(
            "resource://flurl-usage-guide",
            "FlUrl Usage Guide",
            "How to use FlUrl library",
            "https://raw.githubusercontent.com/MyJetTools/fl-url/refs/heads/main/README.md",
        )
    }
}

/// The remote guide at `resource://http-actions-design-guide`.
pub struct HttpActionsResource;

impl HttpActionsResource {
    /// Its catalog entry.
    pub fn entry() -> (r: ResourceEntry)
        ensures
            r.descriptor.uri@ == "resource://http-actions-design-guide"@,
            r.descriptor.name@ == "HTTP Actions Design Guide"@,
            r.descriptor.description@ == "Guide for HTTP action architecture and patterns"@,
            r.descriptor.mime_type@ == "text/markdown"@,
            r.source is Http && r.source->url@ == "https://raw.githubusercontent.com/MyJetTools/my-http-server/refs/heads/main/HTTP_ACTIONS_DESIGN.md"@,
    {
        http_entry(
            "resource://http-actions-design-guide",
            "HTTP Actions Design Guide",
            "Guide for HTTP action architecture and patterns",
            "https://raw.githubusercontent.com/MyJetTools/my-http-server/refs/heads/main/HTTP_ACTIONS_DESIGN.md",
        )
    }
}

/// The embedded guide at `resource://mcp-development-guide`.
pub struct McpResource;

impl McpResource {
    /// Its catalog entry.
    pub fn entry() -> (r: ResourceEntry)
        ensures
            r.descriptor.uri@ == "resource://mcp-development-guide"@,
            r.descriptor.name@ == "MCP Development Guide"@,
            r.descriptor.description@ == "Guide for creating Prompts and Tool Calls"@,
            r.descriptor.mime_type@ == "text/markdown"@,
            r.source is Static && r.source->text@ == MCP_GUIDE@,
    {
        static_entry(
            "resource://mcp-development-guide",
            "MCP Development Guide",
            "Guide for creating Prompts and Tool Calls",
            MCP_GUIDE,
        )
    }
}

/// The remote guide at `resource://my-grpc-extensions.md`.
pub struct MyGrpcExtensionsResource;

impl MyGrpcExtensionsResource {
    /// Its catalog entry.
    pub fn entry() -> (r: ResourceEntry)
        ensures
            r.descriptor.uri@ == "resource://my-grpc-extensions.md"@,
            r.descriptor.name@ == "Grpc extensions"@,
            r.descriptor.description@ == "Utilities and macros for building gRPC clients and servers"@,
            r.descriptor.mime_type@ == "text/markdown"@,
            r.source is Http && r.source->url@ == "https://raw.githubusercontent.com/MyJetTools/my-grpc-extensions/main/README.md"@,
    {
        http_entry(
            "resource://my-grpc-extensions.md",
            "Grpc extensions",
            "Utilities and macros for building gRPC clients and servers",
            "https://raw.githubusercontent.com/MyJetTools/my-grpc-extensions/main/README.md",
        )
    }
}

/// The remote guide at `resource://my-no-sql-entity-design-patterns`.
pub struct MyNoSqlEntityPatternsResource;

impl MyNoSqlEntityPatternsResource {
    /// Its catalog entry.
    pub fn entry() -> (r: ResourceEntry)
        ensures
            r.descriptor.uri@ == "resource://my-no-sql-entity-design-patterns"@,
            r.descriptor.name@ == "MyNoSql Entity Design Patterns"@,
            r.descriptor.description@ == "Design patterns for MyNoSql entities and enums"@,
            r.descriptor.mime_type@ == "text/markdown"@,
            r.source is Http && r.source->url@ == "https://raw.githubusercontent.com/MyJetTools/my-no-sql-sdk/refs/heads/main/MY_NO_SQL_ENTITY_DESIGN_PATTERNS.md"@,
    {
        http_entry(
            "resource://my-no-sql-entity-design-patterns",
            "MyNoSql Entity Design Patterns",
            "Design patterns for MyNoSql entities and enums",
            "https://raw.githubusercontent.com/MyJetTools/my-no-sql-sdk/refs/heads/main/MY_NO_SQL_ENTITY_DESIGN_PATTERNS.md",
        )
    }
}

/// The remote guide at `resource://my-postgres-readme`.
pub struct MyPostgresResource;

impl MyPostgresResource {
    /// Its catalog entry.
    pub fn entry() -> (r: ResourceEntry)
        ensures
            r.descriptor.uri@ == "resource://my-postgres-readme"@,
            r.descriptor.name@ == "Postgres Design Library"@,
            r.descriptor.description@ == "Documentation for my-postgres library"@,
            r.descriptor.mime_type@ == "text/markdown"@,
            r.source is Http && r.source->url@ == "https://raw.githubusercontent.com/MyJetTools/my-postgres/refs/heads/main/README.md"@,
    {
        http_entry(
            "resource://my-postgres-readme",
            "Postgres Design Library",
            "Documentation for my-postgres library",
            "https://raw.githubusercontent.com/MyJetTools/my-postgres/refs/heads/main/README.md",
        )
    }
}

/// The remote guide at `resource://my-ssh-readme`.
pub struct MySshResource;

impl MySshResource {
    /// Its catalog entry.
    pub fn entry() -> (r: ResourceEntry)
        ensures
            r.descriptor.uri@ == "resource://my-ssh-readme"@,
            r.descriptor.name@ == "My SSH README"@,
            r.descriptor.description@ == "Async SSH helpers for commands, file transfer, and port forwarding"@,
            r.descriptor.mime_type@ == "text/markdown"@,
            r.source is Http && r.source->url@ == "https://raw.githubusercontent.com/MyJetTools/my-ssh/main/README.md"@,
    {
        http_entry(
            "resource://my-ssh-readme",
            "My SSH README",
            "Async SSH helpers for commands, file transfer, and port forwarding",
            "https://raw.githubusercontent.com/MyJetTools/my-ssh/main/README.md",
        )
    }
}

/// The remote guide at `resource://tcp-sockets-design-library`.
pub struct MyTcpSocketsResource;

impl MyTcpSocketsResource {
    /// Its catalog entry.
    pub fn entry() -> (r: ResourceEntry)
        ensures
            r.descriptor.uri@ == "resource://tcp-sockets-design-library"@,
            r.descriptor.name@ == "TcpSockets design library"@,
            r.descriptor.description@ == "Async TCP server/client building blocks with ping/pong and TLS options"@,
            r.descriptor.mime_type@ == "text/markdown"@,
            r.source is Http && r.source->url@ == "https://raw.githubusercontent.com/MyJetTools/my-tcp-sockets/refs/heads/main/README.md"@,
    {
        http_entry(
            "resource://tcp-sockets-design-library",
            "TcpSockets design library",
            "Async TCP server/client building blocks with ping/pong and TLS options",
            "https://raw.githubusercontent.com/MyJetTools/my-tcp-sockets/refs/heads/main/README.md",
        )
    }
}

/// The remote guide at `resource://rust-extensions`.
pub struct RustExtensionsResource;

impl RustExtensionsResource {
    /// Its catalog entry.
    pub fn entry() -> (r: ResourceEntry)
        ensures
            r.descriptor.uri@ == "resource://rust-extensions"@,
            r.descriptor.name@ == "rust-extensions for each project"@,
            r.descriptor.description@ == "Low-level utils, queues and other helpers to glue together Rust code"@,
            r.descriptor.mime_type@ == "text/markdown"@,
            r.source is Http && r.source->url@ == "https://raw.githubusercontent.com/MyJetTools/rust-extensions/main/README.md"@,
    {
        http_entry(
            "resource://rust-extensions",
            "rust-extensions for each project",
            "Low-level utils, queues and other helpers to glue together Rust code",
            "https://raw.githubusercontent.com/MyJetTools/rust-extensions/main/README.md",
        )
    }
}

/// The FlUrl README as a prompt.
pub struct FlUrlPrompt;

impl FlUrlPrompt {
    /// The prompt takes no arguments.
    pub fn get_argument_descriptions() -> (r: Vec<PromptArgument>)
        ensures
            r@.len() == 0,
    {
        Vec::new()
    }

    /// Its catalog entry.
    pub fn entry() -> (r: PromptEntry)
        ensures
            r.descriptor.name@ == "flurl_usage"@,
            r.descriptor.description@ == "How to use FlUrl library"@,
            r.descriptor.arguments@.len() == 0,
            r.source is Http && r.source->url@
                == "https://raw.githubusercontent.com/MyJetTools/fl-url/refs/heads/main/README.md"@,
    {
        PromptEntry {
            descriptor: PromptDescriptor {
                name: String::from_str("flurl_usage"),
                description: String::from_str("How to use FlUrl library"),
                arguments: FlUrlPrompt::get_argument_descriptions(),
            },
            source: PromptSource::Http {
                url: String::from_str(
                    "https://raw.githubusercontent.com/MyJetTools/fl-url/refs/heads/main/README.md",
                ),
            },
        }
    }
}

fn add_entry(reg: &mut Registry, e: ResourceEntry) -> (r: Result<(), RegistryError>)
    requires
        old(reg).wf(),
    ensures
        final(reg).wf(),
        r is Ok <==> resource_scheme().is_prefix_of(e.descriptor.uri@) && !has_uri(old(reg)@, e.descriptor.uri@),
        r is Ok ==> final(reg)@.resources == old(reg)@.resources.push(e) && final(reg)@.prompts
            == old(reg)@.prompts,
{
    let ResourceEntry { descriptor, source } = e;
    reg.add_resource(descriptor, source)
}

/// The registry the server ships with: nine guides, in this order. Their
/// URIs carry the scheme and are distinct, so it is always built.
pub fn default_registry() -> (r: Result<Registry, RegistryError>)
    ensures
        r is Ok,
        r is Ok ==> r->Ok_0.wf(),
        r is Ok ==> r->Ok_0@.prompts.len() == 0,
        r is Ok ==> r->Ok_0@.resources.len() == 9,
        r is Ok ==> r->Ok_0@.resources[0].descriptor.uri@ == "resource://mcp-development-guide"@,
        r is Ok ==> r->Ok_0@.resources[1].descriptor.uri@ == "resource://flurl-usage-guide"@,
        r is Ok ==> r->Ok_0@.resources[2].descriptor.uri@ == "resource://http-actions-design-guide"@,
        r is Ok ==> r->Ok_0@.resources[3].descriptor.uri@ == "resource://app-bootstrap"@,
        r is Ok ==> r->Ok_0@.resources[4].descriptor.uri@ == "resource://development/dioxus-bootstrap"@,
        r is Ok ==> r->Ok_0@.resources[5].descriptor.uri@ == "resource://cargo-dependencies-guide"@,
        r is Ok ==> r->Ok_0@.resources[6].descriptor.uri@ == "resource://my-ssh-readme"@,
        r is Ok ==> r->Ok_0@.resources[7].descriptor.uri@ == "resource://tcp-sockets-design-library"@,
        r is Ok ==> r->Ok_0@.resources[8].descriptor.uri@ == "resource://rust-extensions"@,
{
    let mut reg = Registry::new();
    proof {
        reveal_strlit("resource://");
        reveal_strlit("resource://mcp-development-guide");
        reveal_strlit("resource://flurl-usage-guide");
        reveal_strlit("resource://http-actions-design-guide");
        reveal_strlit("resource://app-bootstrap");
        reveal_strlit("resource://development/dioxus-bootstrap");
        reveal_strlit("resource://cargo-dependencies-guide");
        reveal_strlit("resource://my-ssh-readme");
        reveal_strlit("resource://tcp-sockets-design-library");
        reveal_strlit("resource://rust-extensions");
    }
    let e0 = McpResource::entry();
    proof {
        assert(e0.descriptor.uri@.subrange(0, 11) =~= "resource://"@);
    }
    add_entry(&mut reg, e0)?;
    proof {
        assert(reg@.resources[0].descriptor.uri@ == "resource://mcp-development-guide"@);
    }
    let e1 = FlUrlResource::entry();
    proof {
        assert(e1.descriptor.uri@.subrange(0, 11) =~= "resource://"@);
        assert forall|i: int| 0 <= i < reg@.resources.len() implies #[trigger] reg@.resources[i].descriptor.uri@ != e1.descriptor.uri@ by {
            if i == 0 {
                assert("resource://mcp-development-guide"@.len() != "resource://flurl-usage-guide"@.len());
            }
        }
    }
    add_entry(&mut reg, e1)?;
    proof {
        assert(reg@.resources[0].descriptor.uri@ == "resource://mcp-development-guide"@);
        assert(reg@.resources[1].descriptor.uri@ == "resource://flurl-usage-guide"@);
    }
    let e2 = HttpActionsResource::entry();
    proof {
        assert(e2.descriptor.uri@.subrange(0, 11) =~= "resource://"@);
        assert forall|i: int| 0 <= i < reg@.resources.len() implies #[trigger] reg@.resources[i].descriptor.uri@ != e2.descriptor.uri@ by {
            if i == 0 {
                assert("resource://mcp-development-guide"@.len() != "resource://http-actions-design-guide"@.len());
            } else if i == 1 {
                assert("resource://flurl-usage-guide"@.len() != "resource://http-actions-design-guide"@.len());
            }
        }
    }
    add_entry(&mut reg, e2)?;
    proof {
        assert(reg@.resources[0].descriptor.uri@ == "resource://mcp-development-guide"@);
        assert(reg@.resources[1].descriptor.uri@ == "resource://flurl-usage-guide"@);
        assert(reg@.resources[2].descriptor.uri@ == "resource://http-actions-design-guide"@);
    }
    let e3 = AppBootstrapResource::entry();
    proof {
        assert(e3.descriptor.uri@.subrange(0, 11) =~= "resource://"@);
        assert forall|i: int| 0 <= i < reg@.resources.len() implies #[trigger] reg@.resources[i].descriptor.uri@ != e3.descriptor.uri@ by {
            if i == 0 {
                assert("resource://mcp-development-guide"@.len() != "resource://app-bootstrap"@.len());
            } else if i == 1 {
                assert("resource://flurl-usage-guide"@.len() != "resource://app-bootstrap"@.len());
            } else if i == 2 {
                assert("resource://http-actions-design-guide"@.len() != "resource://app-bootstrap"@.len());
            }
        }
    }
    add_entry(&mut reg, e3)?;
    proof {
        assert(reg@.resources[0].descriptor.uri@ == "resource://mcp-development-guide"@);
        assert(reg@.resources[1].descriptor.uri@ == "resource://flurl-usage-guide"@);
        assert(reg@.resources[2].descriptor.uri@ == "resource://http-actions-design-guide"@);
        assert(reg@.resources[3].descriptor.uri@ == "resource://app-bootstrap"@);
    }
    let e4 = DioxusBootstrapResource::entry();
    proof {
        assert(e4.descriptor.uri@.subrange(0, 11) =~= "resource://"@);
        assert forall|i: int| 0 <= i < reg@.resources.len() implies #[trigger] reg@.resources[i].descriptor.uri@ != e4.descriptor.uri@ by {
            if i == 0 {
                assert("resource://mcp-development-guide"@.len() != "resource://development/dioxus-bootstrap"@.len());
            } else if i == 1 {
                assert("resource://flurl-usage-guide"@.len() != "resource://development/dioxus-bootstrap"@.len());
            } else if i == 2 {
                assert("resource://http-actions-design-guide"@.len() != "resource://development/dioxus-bootstrap"@.len());
            } else if i == 3 {
                assert("resource://app-bootstrap"@.len() != "resource://development/dioxus-bootstrap"@.len());
            }
        }
    }
    add_entry(&mut reg, e4)?;
    proof {
        assert(reg@.resources[0].descriptor.uri@ == "resource://mcp-development-guide"@);
        assert(reg@.resources[1].descriptor.uri@ == "resource://flurl-usage-guide"@);
        assert(reg@.resources[2].descriptor.uri@ == "resource://http-actions-design-guide"@);
        assert(reg@.resources[3].descriptor.uri@ == "resource://app-bootstrap"@);
        assert(reg@.resources[4].descriptor.uri@ == "resource://development/dioxus-bootstrap"@);
    }
    let e5 = CargoDependenciesResource::entry();
    proof {
        assert(e5.descriptor.uri@.subrange(0, 11) =~= "resource://"@);
        assert forall|i: int| 0 <= i < reg@.resources.len() implies #[trigger] reg@.resources[i].descriptor.uri@ != e5.descriptor.uri@ by {
            if i == 0 {
                assert("resource://mcp-development-guide"@.len() != "resource://cargo-dependencies-guide"@.len());
            } else if i == 1 {
                assert("resource://flurl-usage-guide"@.len() != "resource://cargo-dependencies-guide"@.len());
            } else if i == 2 {
                assert("resource://http-actions-design-guide"@.len() != "resource://cargo-dependencies-guide"@.len());
            } else if i == 3 {
                assert("resource://app-bootstrap"@.len() != "resource://cargo-dependencies-guide"@.len());
            } else if i == 4 {
                assert("resource://development/dioxus-bootstrap"@.len() != "resource://cargo-dependencies-guide"@.len());
            }
        }
    }
    add_entry(&mut reg, e5)?;
    proof {
        assert(reg@.resources[0].descriptor.uri@ == "resource://mcp-development-guide"@);
        assert(reg@.resources[1].descriptor.uri@ == "resource://flurl-usage-guide"@);
        assert(reg@.resources[2].descriptor.uri@ == "resource://http-actions-design-guide"@);
        assert(reg@.resources[3].descriptor.uri@ == "resource://app-bootstrap"@);
        assert(reg@.resources[4].descriptor.uri@ == "resource://development/dioxus-bootstrap"@);
        assert(reg@.resources[5].descriptor.uri@ == "resource://cargo-dependencies-guide"@);
    }
    let e6 = MySshResource::entry();
    proof {
        assert(e6.descriptor.uri@.subrange(0, 11) =~= "resource://"@);
        assert forall|i: int| 0 <= i < reg@.resources.len() implies #[trigger] reg@.resources[i].descriptor.uri@ != e6.descriptor.uri@ by {
            if i == 0 {
                assert("resource://mcp-development-guide"@.len() != "resource://my-ssh-readme"@.len());
            } else if i == 1 {
                assert("resource://flurl-usage-guide"@.len() != "resource://my-ssh-readme"@.len());
            } else if i == 2 {
                assert("resource://http-actions-design-guide"@.len() != "resource://my-ssh-readme"@.len());
            } else if i == 3 {
                assert("resource://app-bootstrap"@[11] != "resource://my-ssh-readme"@[11]);
            } else if i == 4 {
                assert("resource://development/dioxus-bootstrap"@.len() != "resource://my-ssh-readme"@.len());
            } else if i == 5 {
                assert("resource://cargo-dependencies-guide"@.len() != "resource://my-ssh-readme"@.len());
            }
        }
    }
    add_entry(&mut reg, e6)?;
    proof {
        assert(reg@.resources[0].descriptor.uri@ == "resource://mcp-development-guide"@);
        assert(reg@.resources[1].descriptor.uri@ == "resource://flurl-usage-guide"@);
        assert(reg@.resources[2].descriptor.uri@ == "resource://http-actions-design-guide"@);
        assert(reg@.resources[3].descriptor.uri@ == "resource://app-bootstrap"@);
        assert(reg@.resources[4].descriptor.uri@ == "resource://development/dioxus-bootstrap"@);
        assert(reg@.resources[5].descriptor.uri@ == "resource://cargo-dependencies-guide"@);
        assert(reg@.resources[6].descriptor.uri@ == "resource://my-ssh-readme"@);
    }
    let e7 = MyTcpSocketsResource::entry();
    proof {
        assert(e7.descriptor.uri@.subrange(0, 11) =~= "resource://"@);
        assert forall|i: int| 0 <= i < reg@.resources.len() implies #[trigger] reg@.resources[i].descriptor.uri@ != e7.descriptor.uri@ by {
            if i == 0 {
                assert("resource://mcp-development-guide"@.len() != "resource://tcp-sockets-design-library"@.len());
            } else if i == 1 {
                assert("resource://flurl-usage-guide"@.len() != "resource://tcp-sockets-design-library"@.len());
            } else if i == 2 {
                assert("resource://http-actions-design-guide"@.len() != "resource://tcp-sockets-design-library"@.len());
            } else if i == 3 {
                assert("resource://app-bootstrap"@.len() != "resource://tcp-sockets-design-library"@.len());
            } else if i == 4 {
                assert("resource://development/dioxus-bootstrap"@.len() != "resource://tcp-sockets-design-library"@.len());
            } else if i == 5 {
                assert("resource://cargo-dependencies-guide"@.len() != "resource://tcp-sockets-design-library"@.len());
            } else if i == 6 {
                assert("resource://my-ssh-readme"@.len() != "resource://tcp-sockets-design-library"@.len());
            }
        }
    }
    add_entry(&mut reg, e7)?;
    proof {
        assert(reg@.resources[0].descriptor.uri@ == "resource://mcp-development-guide"@);
        assert(reg@.resources[1].descriptor.uri@ == "resource://flurl-usage-guide"@);
        assert(reg@.resources[2].descriptor.uri@ == "resource://http-actions-design-guide"@);
        assert(reg@.resources[3].descriptor.uri@ == "resource://app-bootstrap"@);
        assert(reg@.resources[4].descriptor.uri@ == "resource://development/dioxus-bootstrap"@);
        assert(reg@.resources[5].descriptor.uri@ == "resource://cargo-dependencies-guide"@);
        assert(reg@.resources[6].descriptor.uri@ == "resource://my-ssh-readme"@);
        assert(reg@.resources[7].descriptor.uri@ == "resource://tcp-sockets-design-library"@);
    }
    let e8 = RustExtensionsResource::entry();
    proof {
        assert(e8.descriptor.uri@.subrange(0, 11) =~= "resource://"@);
        assert forall|i: int| 0 <= i < reg@.resources.len() implies #[trigger] reg@.resources[i].descriptor.uri@ != e8.descriptor.uri@ by {
            if i == 0 {
                assert("resource://mcp-development-guide"@.len() != "resource://rust-extensions"@.len());
            } else if i == 1 {
                assert("resource://flurl-usage-guide"@.len() != "resource://rust-extensions"@.len());
            } else if i == 2 {
                assert("resource://http-actions-design-guide"@.len() != "resource://rust-extensions"@.len());
            } else if i == 3 {
                assert("resource://app-bootstrap"@.len() != "resource://rust-extensions"@.len());
            } else if i == 4 {
                assert("resource://development/dioxus-bootstrap"@.len() != "resource://rust-extensions"@.len());
            } else if i == 5 {
                assert("resource://cargo-dependencies-guide"@.len() != "resource://rust-extensions"@.len());
            } else if i == 6 {
                assert("resource://my-ssh-readme"@.len() != "resource://rust-extensions"@.len());
            } else if i == 7 {
                assert("resource://tcp-sockets-design-library"@.len() != "resource://rust-extensions"@.len());
            }
        }
    }
    add_entry(&mut reg, e8)?;
    proof {
        assert(reg@.resources[0].descriptor.uri@ == "resource://mcp-development-guide"@);
        assert(reg@.resources[1].descriptor.uri@ == "resource://flurl-usage-guide"@);
        assert(reg@.resources[2].descriptor.uri@ == "resource://http-actions-design-guide"@);
        assert(reg@.resources[3].descriptor.uri@ == "resource://app-bootstrap"@);
        assert(reg@.resources[4].descriptor.uri@ == "resource://development/dioxus-bootstrap"@);
        assert(reg@.resources[5].descriptor.uri@ == "resource://cargo-dependencies-guide"@);
        assert(reg@.resources[6].descriptor.uri@ == "resource://my-ssh-readme"@);
        assert(reg@.resources[7].descriptor.uri@ == "resource://tcp-sockets-design-library"@);
        assert(reg@.resources[8].descriptor.uri@ == "resource://rust-extensions"@);
    }
    Ok(reg)
}

} // verus!
