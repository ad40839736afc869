use mosaic_core::config::constraint::{
    ConstraintError, Constrained, Normalizer, RequirementSource, Validator,
};
use mosaic_core::config::diagnostics::{
    format_config_error, position_for_offset, ConfigError, TextPosition, TextRange,
};
use mosaic_core::config::edit::{ConfigEdit, EditableSettings};
use mosaic_core::config::permissions::NetworkToml;
use mosaic_core::config::requirements::{
    ConfigRequirements, ConfigRequirementsToml, SandboxModeRequirement, WebSearchModeRequirement,
};
use mosaic_core::config::service::ConfigService;
use mosaic_core::config::toml_types::{McpServerConfig, McpServerTransportConfig};
use mosaic_core::protocol::{AskForApproval, Effort, Personality, SandboxMode, WebSearchMode};
use mosaic_core::strmap::StrMap;

fn invalid_value(candidate: &str, allowed: &str) -> ConstraintError {
    ConstraintError::InvalidValue {
        field_name: "<unknown>".to_string(),
        candidate: candidate.to_string(),
        allowed: allowed.to_string(),
        requirement_source: RequirementSource::Unknown,
    }
}

// ── requirements ────────────────────────────────────────────────

#[test]
fn empty_requirements_allows_all() {
    let reqs = ConfigRequirements::default_requirements();
    reqs.approval_policy.value.can_set(&AskForApproval::Never).unwrap();
    reqs.sandbox_mode.value.can_set(&SandboxMode::DangerFullAccess).unwrap();
}

#[test]
fn constrained_approval_rejects_unlisted() {
    let mut toml = ConfigRequirementsToml::default();
    toml.allowed_approval_policies = Some(vec![AskForApproval::OnRequest]);
    let reqs = ConfigRequirements::try_from(toml).unwrap();
    assert!(reqs.approval_policy.value.can_set(&AskForApproval::Never).is_err());
    reqs.approval_policy.value.can_set(&AskForApproval::OnRequest).unwrap();
}

#[test]
fn constrained_sandbox_rejects_unlisted() {
    let mut toml = ConfigRequirementsToml::default();
    toml.allowed_sandbox_modes = Some(vec![SandboxModeRequirement::ReadOnly]);
    let reqs = ConfigRequirements::try_from(toml).unwrap();
    assert!(reqs.sandbox_mode.value.can_set(&SandboxMode::DangerFullAccess).is_err());
}

#[test]
fn requirements_toml_is_empty() {
    assert!(ConfigRequirementsToml::default().is_empty());
}

#[test]
fn requirements_with_a_field_are_not_empty() {
    let mut toml = ConfigRequirementsToml::default();
    toml.allowed_web_search_modes = Some(vec![WebSearchModeRequirement::Live]);
    assert!(!toml.is_empty());
}

#[test]
fn empty_allowed_list_is_an_error() {
    let mut toml = ConfigRequirementsToml::default();
    toml.allowed_approval_policies = Some(vec![]);
    let err = ConfigRequirements::try_from(toml).unwrap_err();
    assert!(matches!(err, ConstraintError::EmptyField { .. }));
}

#[test]
fn first_allowed_policy_is_the_initial_value() {
    let mut toml = ConfigRequirementsToml::default();
    toml.allowed_approval_policies = Some(vec![AskForApproval::Never, AskForApproval::OnRequest]);
    let reqs = ConfigRequirements::try_from(toml).unwrap();
    assert_eq!(reqs.approval_policy.value.value(), AskForApproval::Never);
}

#[test]
fn load_requirements_defaults_when_missing() {
    let svc = ConfigService::new("/home/user/.codex".to_string());
    let reqs = svc.load_requirements(None, None).ok().unwrap();
    assert_eq!(reqs.web_search_mode.value.value(), WebSearchMode::Cached);
    assert_eq!(reqs.approval_policy.value.value(), AskForApproval::OnRequest);
    assert!(reqs.mcp_servers.is_none());
}

#[test]
fn load_requirements_reads_user_requirements() {
    let svc = ConfigService::new("/home/user/.codex".to_string());
    let mut user = ConfigRequirementsToml::default();
    user.allowed_web_search_modes = Some(vec![WebSearchModeRequirement::Live]);
    let reqs = svc.load_requirements(Some(user), None).ok().unwrap();
    assert_eq!(reqs.web_search_mode.value.value(), WebSearchMode::Live);
}

#[test]
fn load_requirements_project_overrides_user() {
    let svc = ConfigService::new("/home/user/.codex".to_string());
    let mut user = ConfigRequirementsToml::default();
    user.allowed_web_search_modes = Some(vec![WebSearchModeRequirement::Live]);
    let mut project = ConfigRequirementsToml::default();
    project.allowed_web_search_modes = Some(vec![WebSearchModeRequirement::Cached]);
    let reqs = svc.load_requirements(Some(user), Some(project)).ok().unwrap();
    assert_eq!(reqs.web_search_mode.value.value(), WebSearchMode::Cached);
}

// ── constraint ──────────────────────────────────────────────────

#[test]
fn allow_any_accepts_all() {
    let mut c = Constrained::allow_any(5i64);
    c.set(-10).unwrap();
    assert_eq!(c.value(), -10);
}

#[test]
fn allow_only_rejects_different() {
    let mut c = Constrained::allow_only(5i64);
    c.set(5).unwrap();
    let err = c.set(6).unwrap_err();
    assert_eq!(err, invalid_value("6", "[5]"));
}

#[test]
fn normalizer_applies() {
    let mut c = Constrained::normalized(-1i64, Normalizer::ClampMin(0)).unwrap();
    assert_eq!(c.value(), 0);
    c.set(-5).unwrap();
    assert_eq!(c.value(), 0);
    c.set(10).unwrap();
    assert_eq!(c.value(), 10);
}

#[test]
fn can_set_probes_without_setting() {
    let c = Constrained::new(
        1i64,
        Validator::AtLeast { bound: 1, description: "positive values".to_string() },
    )
    .unwrap();
    c.can_set(&2).unwrap();
    assert_eq!(c.can_set(&-1).unwrap_err(), invalid_value("-1", "positive values"));
    assert_eq!(c.value(), 1);
}

#[test]
fn refused_set_keeps_the_old_value() {
    let mut c = Constrained::allow_only(3i32);
    assert!(c.set(4).is_err());
    assert_eq!(c.value(), 3);
}

#[test]
fn constraint_error_messages() {
    assert_eq!(
        invalid_value("6", "[5]").to_message(),
        "invalid value for `<unknown>`: `6` is not in the allowed set [5] (set by <unspecified>)"
    );
    assert_eq!(
        ConstraintError::empty_field("allowed_sandbox_modes".to_string()).to_message(),
        "field `allowed_sandbox_modes` cannot be empty"
    );
}

// ── diagnostics ─────────────────────────────────────────────────

#[test]
fn position_for_first_char() {
    let pos = position_for_offset("hello", 0);
    assert_eq!(pos, TextPosition { line: 1, column: 1 });
}

#[test]
fn position_for_second_line() {
    let pos = position_for_offset("abc\ndef", 4);
    assert_eq!(pos, TextPosition { line: 2, column: 1 });
}

#[test]
fn position_past_the_end_is_clamped() {
    let pos = position_for_offset("ab\ncd", 99);
    assert_eq!(pos, TextPosition { line: 2, column: 2 });
}

#[test]
fn format_error_shows_caret() {
    let error = ConfigError::new(
        "config.toml".to_string(),
        TextRange {
            start: TextPosition { line: 1, column: 3 },
            end: TextPosition { line: 1, column: 5 },
        },
        "bad value".to_string(),
    );
    let formatted = format_config_error(&error, "model = 123");
    assert!(formatted.contains("^^^"));
    assert!(formatted.contains("bad value"));
}

// ── permissions ─────────────────────────────────────────────────

#[test]
fn empty_policy_allows_all() {
    let net = NetworkToml::default();
    assert!(net.is_domain_allowed("example.com"));
}

#[test]
fn denied_domain_blocked() {
    let net = NetworkToml { denied_domains: Some(vec!["evil.com".into()]), ..Default::default() };
    assert!(!net.is_domain_allowed("evil.com"));
    assert!(net.is_domain_allowed("good.com"));
}

#[test]
fn allow_list_restricts() {
    let net = NetworkToml {
        allowed_domains: Some(vec!["api.openai.com".into()]),
        ..Default::default()
    };
    assert!(net.is_domain_allowed("api.openai.com"));
    assert!(!net.is_domain_allowed("other.com"));
}

#[test]
fn wildcard_allows_all() {
    let net = NetworkToml { allowed_domains: Some(vec!["*".into()]), ..Default::default() };
    assert!(net.is_domain_allowed("anything.com"));
}

#[test]
fn deny_takes_precedence_over_allow() {
    let net = NetworkToml {
        allowed_domains: Some(vec!["*".into()]),
        denied_domains: Some(vec!["blocked.com".into()]),
        ..Default::default()
    };
    assert!(!net.is_domain_allowed("blocked.com"));
    assert!(net.is_domain_allowed("other.com"));
}

// ── edits ───────────────────────────────────────────────────────

fn settings() -> EditableSettings {
    EditableSettings {
        model: None,
        approval_policy: None,
        sandbox_mode: None,
        model_reasoning_effort: None,
        model_reasoning_summary: None,
        model_verbosity: None,
        personality: None,
        service_tier: None,
        instructions: None,
        developer_instructions: None,
        web_search: None,
        mcp_servers: StrMap::new(),
    }
}

fn node_server() -> McpServerConfig {
    McpServerConfig {
        transport: McpServerTransportConfig::Stdio {
            command: "node".into(),
            args: vec![],
            env: StrMap::new(),
        },
        enabled: true,
        required: false,
        disabled_reason: None,
        startup_timeout_sec: None,
        tool_timeout_sec: None,
        enabled_tools: None,
        disabled_tools: None,
        scopes: None,
        oauth_resource: None,
    }
}

#[test]
fn no_edits_returns_clone() {
    let mut config = settings();
    config.model = Some("gpt-4".into());
    ConfigEdit::new().apply(&mut config);
    assert_eq!(config.model, Some("gpt-4".to_string()));
    assert_eq!(config.approval_policy, None);
    assert!(config.mcp_servers.is_empty());
}

#[test]
fn set_model() {
    let mut config = settings();
    ConfigEdit::new().set_model("gpt-4o".to_string()).apply(&mut config);
    assert_eq!(config.model, Some("gpt-4o".to_string()));
}

#[test]
fn clear_model() {
    let mut config = settings();
    config.model = Some("gpt-4".into());
    ConfigEdit::new().clear_model().apply(&mut config);
    assert_eq!(config.model, None);
}

#[test]
fn set_new_fields() {
    let mut config = settings();
    ConfigEdit::new()
        .set_reasoning_effort(Effort::High)
        .set_web_search(WebSearchMode::Live)
        .set_personality(Personality::Friendly)
        .apply(&mut config);
    assert_eq!(config.model_reasoning_effort, Some(Effort::High));
    assert_eq!(config.web_search, Some(WebSearchMode::Live));
    assert_eq!(config.personality, Some(Personality::Friendly));
}

#[test]
fn add_mcp_server() {
    let mut config = settings();
    ConfigEdit::new().set_mcp_server("my-server".to_string(), node_server()).apply(&mut config);
    let got = config.mcp_servers.get("my-server").unwrap();
    assert!(matches!(&got.transport, McpServerTransportConfig::Stdio { command, .. } if command == "node"));
    assert!(got.enabled);
    assert_eq!(config.mcp_servers.len(), 1);
}

#[test]
fn remove_mcp_server() {
    let mut config = settings();
    config.mcp_servers.insert("srv".to_string(), node_server());
    ConfigEdit::new().remove_mcp_server("srv".to_string()).apply(&mut config);
    assert!(config.mcp_servers.is_empty());
}

#[test]
fn later_server_edit_wins() {
    let mut config = settings();
    ConfigEdit::new()
        .set_mcp_server("a".to_string(), node_server())
        .remove_mcp_server("a".to_string())
        .set_mcp_server("b".to_string(), node_server())
        .apply(&mut config);
    assert!(!config.mcp_servers.contains_key("a"));
    assert!(config.mcp_servers.contains_key("b"));
}
