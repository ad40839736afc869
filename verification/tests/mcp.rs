use mosaic_core::config::toml_types::{McpServerConfig, McpServerTransportConfig, McpToolFilter};
use mosaic_core::mcp::client;
use mosaic_core::mcp::connection_manager;
use mosaic_core::mcp::hashing::sha1_hex_of;
use mosaic_core::mcp::skill_dependencies::{
    canonical_dependency_key, collect_missing_mcp_dependencies, SkillDependencies, SkillMetadata,
    SkillToolDependency,
};
use mosaic_core::strmap::StrMap;

// ── tool naming (client) ────────────────────────────────────────

#[test]
fn mcp_client_qualify_short_name() {
    assert_eq!(client::qualify_tool_name("srv", "fetch"), "mcp__srv__fetch");
}

#[test]
fn mcp_client_qualify_name_exceeds_limit_uses_hash() {
    let server = "a".repeat(30);
    let tool = "b".repeat(30);
    let result = client::qualify_tool_name(&server, &tool);
    assert!(result.len() <= client::MAX_QUALIFIED_NAME_LEN);
    let result2 = client::qualify_tool_name(&server, &"c".repeat(30));
    assert_ne!(result, result2);
    assert_eq!(result, "mcp__aaaaaaaaaaaaaaaaaaaaaaaaaaaaaa__bbbbbbbbbbbbbbbbbb_9c73cd2f");
}

#[test]
fn qualify_name_never_exceeds_max_len() {
    for s in 1..50 {
        for t in [1usize, 10, 25, 50] {
            let result = client::qualify_tool_name(&"s".repeat(s), &"t".repeat(t));
            assert!(result.len() <= client::MAX_QUALIFIED_NAME_LEN);
            let result = connection_manager::qualify_tool_name(&"s".repeat(s), &"t".repeat(t));
            assert!(result.len() <= connection_manager::MAX_QUALIFIED_NAME_LEN);
        }
    }
}

#[test]
fn mcp_client_no_filter_allows_all() {
    assert!(client::is_tool_allowed("anything", None));
}

#[test]
fn mcp_client_enabled_list_allows_only_listed() {
    let filter = McpToolFilter { enabled: Some(vec!["fetch".to_string()]), disabled: None };
    assert!(client::is_tool_allowed("fetch", Some(&filter)));
    assert!(!client::is_tool_allowed("delete", Some(&filter)));
}

#[test]
fn enabled_list_takes_precedence_over_disabled() {
    let filter = McpToolFilter {
        enabled: Some(vec!["fetch".to_string()]),
        disabled: Some(vec!["fetch".to_string()]),
    };
    assert!(client::is_tool_allowed("fetch", Some(&filter)));
    let only_disabled = McpToolFilter { enabled: None, disabled: Some(vec!["fetch".to_string()]) };
    assert!(!client::is_tool_allowed("fetch", Some(&only_disabled)));
    assert!(client::is_tool_allowed("other", Some(&only_disabled)));
}

// ── tool naming (connection manager) ───────────────────────────

#[test]
fn connection_manager_qualify_short_name() {
    assert_eq!(connection_manager::qualify_tool_name("srv", "fetch"), "mcp__srv__fetch");
}

#[test]
fn connection_manager_qualify_name_exceeds_limit_uses_hash() {
    let server = "a".repeat(30);
    let tool = "b".repeat(30);
    let result = connection_manager::qualify_tool_name(&server, &tool);
    assert!(result.len() <= connection_manager::MAX_QUALIFIED_NAME_LEN);
    let result2 = connection_manager::qualify_tool_name(&server, &"c".repeat(30));
    assert_ne!(result, result2);
    assert_eq!(result, "mcp__aaaaaaaaaaaaaaaaaaa9c73cd2f3d800b7994c1ef9efecd589b692c1f8c");
}

#[test]
fn names_are_sanitized() {
    assert_eq!(connection_manager::sanitize_tool_name("a.b c-d_e"), "a_b_c-d_e");
    assert_eq!(connection_manager::qualify_tool_name("my srv", "do.it"), "mcp__my_srv__do_it");
}

#[test]
fn connection_manager_no_filter_allows_all() {
    assert!(connection_manager::is_tool_allowed("anything", None, None));
}

#[test]
fn connection_manager_enabled_list_allows_only_listed() {
    let enabled = vec!["fetch".to_string()];
    assert!(connection_manager::is_tool_allowed("fetch", Some(&enabled), None));
    assert!(!connection_manager::is_tool_allowed("delete", Some(&enabled), None));
}

#[test]
fn disabled_list_blocks_listed() {
    let disabled = vec!["delete".to_string()];
    assert!(connection_manager::is_tool_allowed("fetch", None, Some(&disabled)));
    assert!(!connection_manager::is_tool_allowed("delete", None, Some(&disabled)));
}

#[test]
fn split_qualified_name() {
    assert_eq!(
        connection_manager::split_qualified_tool_name("mcp__alpha__do_thing"),
        Some(("alpha".to_string(), "do_thing".to_string()))
    );
    assert_eq!(connection_manager::split_qualified_tool_name("other__alpha__do_thing"), None);
    assert_eq!(connection_manager::split_qualified_tool_name("mcp__alpha__"), None);
}

#[test]
fn sha1_of_text_is_lowercase_hex() {
    assert_eq!(sha1_hex_of("hello"), "aaf4c61ddcc5e8a2dabede0f3b482cd9aea9434d");
}

// ── skill dependencies ──────────────────────────────────────────

fn skill_with_tools(tools: Vec<SkillToolDependency>) -> SkillMetadata {
    SkillMetadata { name: "skill".into(), dependencies: Some(SkillDependencies { tools }) }
}

fn http_server(url: &str) -> McpServerConfig {
    McpServerConfig {
        transport: McpServerTransportConfig::StreamableHttp {
            url: url.to_string(),
            bearer_token_env_var: None,
            http_headers: None,
            env_http_headers: None,
        },
        enabled: true,
        required: false,
        disabled_reason: None,
        startup_timeout_sec: None,
        tool_timeout_sec: None,
        enabled_tools: None,
        disabled_tools: None,
        scopes: None,
        oauth_resource: None,
    }
}

fn mcp_dep(value: &str, url: &str) -> SkillToolDependency {
    SkillToolDependency {
        tool_type: "mcp".into(),
        value: value.into(),
        description: None,
        transport: Some("streamable_http".into()),
        command: None,
        url: Some(url.into()),
    }
}

#[test]
fn collect_missing_respects_canonical_key() {
    let url = "https://example.com/mcp";
    let skills = vec![skill_with_tools(vec![mcp_dep("github", url)])];
    let mut installed = StrMap::new();
    installed.insert("alias".to_string(), http_server(url));
    assert!(collect_missing_mcp_dependencies(&skills, &installed).is_empty());
}

#[test]
fn collect_missing_dedupes_by_canonical_key() {
    let url = "https://example.com/one";
    let skills = vec![skill_with_tools(vec![mcp_dep("alias-one", url), mcp_dep("alias-two", url)])];
    let missing = collect_missing_mcp_dependencies(&skills, &StrMap::new());
    assert_eq!(missing.len(), 1);
    assert!(missing.contains_key("alias-one"));
    match &missing.get("alias-one").unwrap().transport {
        McpServerTransportConfig::StreamableHttp { url: u, .. } => assert_eq!(u, url),
        other => panic!("unexpected {:?}", other),
    }
}

#[test]
fn non_mcp_deps_ignored() {
    let skills = vec![skill_with_tools(vec![SkillToolDependency {
        tool_type: "builtin".into(),
        value: "shell".into(),
        description: None,
        transport: None,
        command: None,
        url: None,
    }])];
    assert!(collect_missing_mcp_dependencies(&skills, &StrMap::new()).is_empty());
}

#[test]
fn dependency_without_url_is_an_error() {
    let dep = SkillToolDependency {
        tool_type: "mcp".into(),
        value: "x".into(),
        description: None,
        transport: None,
        command: None,
        url: None,
    };
    assert!(canonical_dependency_key(&dep).is_err());
    let ok = mcp_dep("x", "https://example.com/a");
    assert_eq!(canonical_dependency_key(&ok).unwrap(), "mcp__streamable_http__https://example.com/a");
}

// ── connections ─────────────────────────────────────────────────

use mosaic_core::mcp::connection_manager::{ConnectOutcome, McpConnectionState, McpConnections};
use mosaic_core::protocol::ErrorCode;

#[test]
fn connection_manager_connect_disabled_server_records_state() {
    let mut conns = McpConnections::new();
    let mut config = http_server("https://example.com/mcp");
    config.transport = McpServerTransportConfig::Stdio { command: "node".into(), args: vec![], env: StrMap::new() };
    config.enabled = false;
    config.disabled_reason = Some("test".into());
    assert_eq!(conns.begin_connect("srv", &config), None);
    assert!(conns.is_disabled("srv"));
    assert!(conns.connected_servers().is_empty());
    assert_eq!(conns.state("srv"), McpConnectionState::Disconnected);
    assert_eq!(conns.state("unknown"), McpConnectionState::Disconnected);
}

#[test]
fn connect_outcomes_set_state() {
    let mut conns = McpConnections::new();
    let mut config = http_server("https://example.com/mcp");
    config.startup_timeout_sec = Some(5);
    config.tool_timeout_sec = Some(30);
    assert_eq!(conns.begin_connect("srv", &config), Some(5));
    assert_eq!(conns.state("srv"), McpConnectionState::Connecting);
    assert_eq!(conns.tool_timeout_secs("srv"), 30);
    assert!(conns.finish_connect("srv", ConnectOutcome::Connected).is_ok());
    assert_eq!(conns.state("srv"), McpConnectionState::Ready);
    conns.disconnect("srv");
    assert_eq!(conns.state("srv"), McpConnectionState::Disconnected);

    assert_eq!(conns.begin_connect("slow", &http_server("https://x")), Some(10));
    let err = conns.finish_connect("slow", ConnectOutcome::TimedOut(10)).unwrap_err();
    assert_eq!(err.code, ErrorCode::McpServerUnavailable);
    assert_eq!(err.message, "MCP connect 'slow' timed out after 10s");
    assert_eq!(conns.state("slow"), McpConnectionState::Failed(err.message.clone()));
    let err = conns.finish_connect("slow", ConnectOutcome::Failed("refused".into())).unwrap_err();
    assert_eq!(err.message, "MCP connect 'slow' failed: refused");
    assert_eq!(conns.tool_timeout_secs("unknown"), 120);
}

// ── OAuth status ────────────────────────────────────────────────

use mosaic_core::mcp::auth::{compute_auth_statuses, McpAuthStatus};

fn stdio_config() -> McpServerConfig {
    let mut c = http_server("unused");
    c.transport = McpServerTransportConfig::Stdio { command: "node".into(), args: vec![], env: StrMap::new() };
    c
}

fn http_config(bearer: Option<&str>, oauth_resource: Option<&str>) -> McpServerConfig {
    let mut c = http_server("https://example.com/mcp");
    c.transport = McpServerTransportConfig::StreamableHttp {
        url: "https://example.com/mcp".into(),
        bearer_token_env_var: bearer.map(String::from),
        http_headers: None,
        env_http_headers: None,
    };
    c.oauth_resource = oauth_resource.map(String::from);
    c
}

fn status_of(config: McpServerConfig) -> McpAuthStatus {
    let mut servers = StrMap::new();
    servers.insert("srv".to_string(), config);
    let statuses = compute_auth_statuses(servers);
    assert_eq!(statuses.len(), 1);
    statuses.get("srv").unwrap().auth_status
}

#[test]
fn stdio_is_unsupported() {
    assert_eq!(status_of(stdio_config()), McpAuthStatus::Unsupported);
}

#[test]
fn http_with_bearer_is_authenticated() {
    assert_eq!(status_of(http_config(Some("MY_TOKEN"), None)), McpAuthStatus::Authenticated);
}

#[test]
fn http_with_oauth_resource_needs_auth() {
    assert_eq!(status_of(http_config(None, Some("https://api.example.com"))), McpAuthStatus::NeedsAuth);
}

#[test]
fn http_plain_is_unsupported() {
    assert_eq!(status_of(http_config(None, None)), McpAuthStatus::Unsupported);
}

// ── tools of connected servers ──────────────────────────────────

use mosaic_core::mcp::connection_manager::{
    check_tool_args, tool_call_error, tool_list_error, ListedTool, ToolArgs, ToolCallFailure, ToolListFailure,
};

fn listed(name: &str, description: Option<&str>) -> ListedTool {
    ListedTool {
        name: name.into(),
        description: description.map(String::from),
        input_schema: Some("{\"type\":\"object\"}".into()),
    }
}

fn ready(conns: &mut McpConnections, name: &str, config: &McpServerConfig) {
    conns.begin_connect(name, config);
    conns.finish_connect(name, ConnectOutcome::Connected).unwrap();
}

#[test]
fn discovered_tools_are_filtered_qualified_and_found() {
    let mut conns = McpConnections::new();
    let mut config = http_server("https://example.com/mcp");
    config.disabled_tools = Some(vec!["delete".into()]);
    ready(&mut conns, "alpha", &config);
    let tools = conns.record_tools("alpha", vec![listed("fetch", Some("Fetch a page")), listed("delete", None), listed("list", None)]);
    assert_eq!(tools.len(), 2);
    assert_eq!(tools[0].qualified_name, "mcp__alpha__fetch");
    assert_eq!(tools[0].description, "Fetch a page");
    assert_eq!(tools[0].server_name, "alpha");
    assert_eq!(tools[1].name, "list");
    assert_eq!(tools[1].description, "");
    assert_eq!(conns.find_server_for_tool("mcp__alpha__fetch"), Some("alpha".to_string()));
    assert_eq!(conns.find_server_for_tool("mcp__alpha__delete"), None);
    assert_eq!(conns.all_tools().len(), 2);
    assert_eq!(conns.connected_servers(), vec!["alpha".to_string()]);
}

#[test]
fn tools_of_servers_that_are_not_ready_are_not_recorded() {
    let mut conns = McpConnections::new();
    conns.begin_connect("beta", &http_server("https://b"));
    assert!(conns.record_tools("beta", vec![listed("fetch", None)]).is_empty());
    assert!(conns.record_tools("unknown", vec![listed("fetch", None)]).is_empty());
    assert_eq!(conns.find_server_for_tool("mcp__beta__fetch"), None);
    assert!(conns.connected_servers().is_empty());
}

#[test]
fn disconnect_forgets_tools() {
    let mut conns = McpConnections::new();
    ready(&mut conns, "alpha", &http_server("https://a"));
    conns.record_tools("alpha", vec![listed("fetch", None)]);
    conns.disconnect("alpha");
    assert!(conns.all_tools().is_empty());
    assert_eq!(conns.find_server_for_tool("mcp__alpha__fetch"), None);
}

#[test]
fn call_needs_a_ready_registered_server() {
    let mut conns = McpConnections::new();
    let err = conns.call_timeout_secs("nope").unwrap_err();
    assert_eq!(err.code, ErrorCode::McpServerUnavailable);
    assert_eq!(err.message, "MCP server 'nope' not registered");
    conns.begin_connect("srv", &http_server("https://a"));
    assert_eq!(conns.call_timeout_secs("srv").unwrap_err().message, "MCP server 'srv' not ready");
    conns.finish_connect("srv", ConnectOutcome::Connected).unwrap();
    assert_eq!(conns.call_timeout_secs("srv").unwrap(), 120);
}

#[test]
fn disabled_servers_and_required_failures() {
    let mut conns = McpConnections::new();
    let mut off = http_server("https://off");
    off.enabled = false;
    off.disabled_reason = Some("not needed".into());
    conns.begin_connect("off", &off);
    assert!(conns.is_disabled("off"));
    assert_eq!(conns.disabled_reason("off"), Some("not needed".to_string()));
    assert!(!conns.is_disabled("unknown"));
    let mut req = http_server("https://req");
    req.required = true;
    conns.begin_connect("req", &req);
    conns.finish_connect("req", ConnectOutcome::Failed("refused".into())).unwrap_err();
    conns.begin_connect("opt", &http_server("https://opt"));
    conns.finish_connect("opt", ConnectOutcome::Failed("refused".into())).unwrap_err();
    assert_eq!(
        conns.required_startup_failures(),
        vec![("req".to_string(), "MCP connect 'req' failed: refused".to_string())]
    );
}

#[test]
fn tool_call_errors() {
    assert_eq!(check_tool_args(&ToolArgs::Object).unwrap(), true);
    assert_eq!(check_tool_args(&ToolArgs::Null).unwrap(), false);
    let err = check_tool_args(&ToolArgs::Other("[1,2]".into())).unwrap_err();
    assert_eq!(err.code, ErrorCode::InvalidInput);
    assert_eq!(err.message, "tool args must be object, got [1,2]");
    let err = tool_call_error(&ToolCallFailure::TimedOut(120));
    assert_eq!(err.code, ErrorCode::ToolExecutionFailed);
    assert_eq!(err.message, "tool call timed out after 120s");
    assert_eq!(tool_call_error(&ToolCallFailure::Failed("boom".into())).message, "tools/call failed: boom");
    assert_eq!(tool_call_error(&ToolCallFailure::UnexpectedResponse).message, "unexpected response to tools/call");
    assert_eq!(tool_list_error(&ToolListFailure::Failed("x".into())).message, "tools/list failed: x");
    assert_eq!(tool_list_error(&ToolListFailure::UnexpectedResponse).code, ErrorCode::McpServerUnavailable);
}
