//! Feature flags: the registry of known features and the set that is enabled.
use vstd::prelude::*;

use crate::strmap::StrMap;
use crate::text::str_eq;

pub mod legacy;

verus! {

/// Lifecycle stage of a feature.
#[derive(Debug, Clone, Copy, PartialEq, Eq)]
pub enum Stage {
    /// Still under development, not ready for external use.
    UnderDevelopment,
    /// Offered to users in an experimental menu.
    Experimental { name: &'static str, description: &'static str },
    /// Stable; the flag stays for ad-hoc toggling.
    Stable,
    /// Deprecated; should not be used.
    Deprecated,
    /// Without effect; kept for backward compatibility.
    Removed,
}

/// Stage kinds, without the texts of experimental features.
#[derive(Debug, Clone, Copy, PartialEq, Eq, Structural)]
pub enum StageKind {
    UnderDevelopment,
    Experimental,
    Stable,
    Deprecated,
    Removed,
}

/// The kind of a stage.
pub open spec fn stage_kind(s: Stage) -> StageKind {
    match s {
        Stage::UnderDevelopment => StageKind::UnderDevelopment,
        Stage::Experimental { .. } => StageKind::Experimental,
        Stage::Stable => StageKind::Stable,
        Stage::Deprecated => StageKind::Deprecated,
        Stage::Removed => StageKind::Removed,
    }
}

/// The kind of a stage.
pub fn stage_kind_of(s: Stage) -> (r: StageKind)
    ensures
        r == stage_kind(s),
{
    match s {
        Stage::UnderDevelopment => StageKind::UnderDevelopment,
        Stage::Experimental { .. } => StageKind::Experimental,
        Stage::Stable => StageKind::Stable,
        Stage::Deprecated => StageKind::Deprecated,
        Stage::Removed => StageKind::Removed,
    }
}

/// A feature that configuration can toggle.
#[derive(Debug, Clone, Copy, PartialEq, Eq, Structural, PartialOrd, Ord, Hash)]
pub enum Feature {
    GhostCommit,
    ShellTool,
    JsRepl,
    JsReplToolsOnly,
    UnifiedExec,
    ShellZshFork,
    ApplyPatchFreeform,
    RequestPermissions,
    WebSearchRequest,
    WebSearchCached,
    SearchTool,
    UseLinuxSandboxBwrap,
    RequestRule,
    WindowsSandbox,
    WindowsSandboxElevated,
    RemoteModels,
    ShellSnapshot,
    CodexGitCommit,
    RuntimeMetrics,
    Sqlite,
    MemoryTool,
    ChildAgentsMd,
    PowershellUtf8,
    EnableRequestCompression,
    Collab,
    Apps,
    Plugins,
    AppsMcpGateway,
    SkillMcpDependencyInstall,
    SkillEnvVarDependencyPrompt,
    Steer,
    DefaultModeRequestUserInput,
    CollaborationModes,
    Personality,
    Artifact,
    FastMode,
    VoiceTranscription,
    RealtimeConversation,
    PreventIdleSleep,
    ResponsesWebsockets,
    ResponsesWebsocketsV2,
}

/// Position of a feature in declaration order, which is also its sort order.
pub open spec fn feature_index(f: Feature) -> int {
    match f {
        Feature::GhostCommit => 0,
        Feature::ShellTool => 1,
        Feature::JsRepl => 2,
        Feature::JsReplToolsOnly => 3,
        Feature::UnifiedExec => 4,
        Feature::ShellZshFork => 5,
        Feature::ApplyPatchFreeform => 6,
        Feature::RequestPermissions => 7,
        Feature::WebSearchRequest => 8,
        Feature::WebSearchCached => 9,
        Feature::SearchTool => 10,
        Feature::UseLinuxSandboxBwrap => 11,
        Feature::RequestRule => 12,
        Feature::WindowsSandbox => 13,
        Feature::WindowsSandboxElevated => 14,
        Feature::RemoteModels => 15,
        Feature::ShellSnapshot => 16,
        Feature::CodexGitCommit => 17,
        Feature::RuntimeMetrics => 18,
        Feature::Sqlite => 19,
        Feature::MemoryTool => 20,
        Feature::ChildAgentsMd => 21,
        Feature::PowershellUtf8 => 22,
        Feature::EnableRequestCompression => 23,
        Feature::Collab => 24,
        Feature::Apps => 25,
        Feature::Plugins => 26,
        Feature::AppsMcpGateway => 27,
        Feature::SkillMcpDependencyInstall => 28,
        Feature::SkillEnvVarDependencyPrompt => 29,
        Feature::Steer => 30,
        Feature::DefaultModeRequestUserInput => 31,
        Feature::CollaborationModes => 32,
        Feature::Personality => 33,
        Feature::Artifact => 34,
        Feature::FastMode => 35,
        Feature::VoiceTranscription => 36,
        Feature::RealtimeConversation => 37,
        Feature::PreventIdleSleep => 38,
        Feature::ResponsesWebsockets => 39,
        Feature::ResponsesWebsocketsV2 => 40,
    }
}

/// The feature at a position in declaration order.
pub open spec fn feature_at_spec(i: int) -> Feature {
    if i == 0 {
        Feature::GhostCommit
    } else if i == 1 {
        Feature::ShellTool
    } else if i == 2 {
        Feature::JsRepl
    } else if i == 3 {
        Feature::JsReplToolsOnly
    } else if i == 4 {
        Feature::UnifiedExec
    } else if i == 5 {
        Feature::ShellZshFork
    } else if i == 6 {
        Feature::ApplyPatchFreeform
    } else if i == 7 {
        Feature::RequestPermissions
    } else if i == 8 {
        Feature::WebSearchRequest
    } else if i == 9 {
        Feature::WebSearchCached
    } else if i == 10 {
        Feature::SearchTool
    } else if i == 11 {
        Feature::UseLinuxSandboxBwrap
    } else if i == 12 {
        Feature::RequestRule
    } else if i == 13 {
        Feature::WindowsSandbox
    } else if i == 14 {
        Feature::WindowsSandboxElevated
    } else if i == 15 {
        Feature::RemoteModels
    } else if i == 16 {
        Feature::ShellSnapshot
    } else if i == 17 {
        Feature::CodexGitCommit
    } else if i == 18 {
        Feature::RuntimeMetrics
    } else if i == 19 {
        Feature::Sqlite
    } else if i == 20 {
        Feature::MemoryTool
    } else if i == 21 {
        Feature::ChildAgentsMd
    } else if i == 22 {
        Feature::PowershellUtf8
    } else if i == 23 {
        Feature::EnableRequestCompression
    } else if i == 24 {
        Feature::Collab
    } else if i == 25 {
        Feature::Apps
    } else if i == 26 {
        Feature::Plugins
    } else if i == 27 {
        Feature::AppsMcpGateway
    } else if i == 28 {
        Feature::SkillMcpDependencyInstall
    } else if i == 29 {
        Feature::SkillEnvVarDependencyPrompt
    } else if i == 30 {
        Feature::Steer
    } else if i == 31 {
        Feature::DefaultModeRequestUserInput
    } else if i == 32 {
        Feature::CollaborationModes
    } else if i == 33 {
        Feature::Personality
    } else if i == 34 {
        Feature::Artifact
    } else if i == 35 {
        Feature::FastMode
    } else if i == 36 {
        Feature::VoiceTranscription
    } else if i == 37 {
        Feature::RealtimeConversation
    } else if i == 38 {
        Feature::PreventIdleSleep
    } else if i == 39 {
        Feature::ResponsesWebsockets
    } else {
        Feature::ResponsesWebsocketsV2
    }
}

/// The feature at a position in declaration order.
pub fn feature_at(i: usize) -> (r: Feature)
    requires
        i < 41,
    ensures
        feature_index(r) == i,
        r == feature_at_spec(i as int),
{
    if i == 0 {
        Feature::GhostCommit
    } else if i == 1 {
        Feature::ShellTool
    } else if i == 2 {
        Feature::JsRepl
    } else if i == 3 {
        Feature::JsReplToolsOnly
    } else if i == 4 {
        Feature::UnifiedExec
    } else if i == 5 {
        Feature::ShellZshFork
    } else if i == 6 {
        Feature::ApplyPatchFreeform
    } else if i == 7 {
        Feature::RequestPermissions
    } else if i == 8 {
        Feature::WebSearchRequest
    } else if i == 9 {
        Feature::WebSearchCached
    } else if i == 10 {
        Feature::SearchTool
    } else if i == 11 {
        Feature::UseLinuxSandboxBwrap
    } else if i == 12 {
        Feature::RequestRule
    } else if i == 13 {
        Feature::WindowsSandbox
    } else if i == 14 {
        Feature::WindowsSandboxElevated
    } else if i == 15 {
        Feature::RemoteModels
    } else if i == 16 {
        Feature::ShellSnapshot
    } else if i == 17 {
        Feature::CodexGitCommit
    } else if i == 18 {
        Feature::RuntimeMetrics
    } else if i == 19 {
        Feature::Sqlite
    } else if i == 20 {
        Feature::MemoryTool
    } else if i == 21 {
        Feature::ChildAgentsMd
    } else if i == 22 {
        Feature::PowershellUtf8
    } else if i == 23 {
        Feature::EnableRequestCompression
    } else if i == 24 {
        Feature::Collab
    } else if i == 25 {
        Feature::Apps
    } else if i == 26 {
        Feature::Plugins
    } else if i == 27 {
        Feature::AppsMcpGateway
    } else if i == 28 {
        Feature::SkillMcpDependencyInstall
    } else if i == 29 {
        Feature::SkillEnvVarDependencyPrompt
    } else if i == 30 {
        Feature::Steer
    } else if i == 31 {
        Feature::DefaultModeRequestUserInput
    } else if i == 32 {
        Feature::CollaborationModes
    } else if i == 33 {
        Feature::Personality
    } else if i == 34 {
        Feature::Artifact
    } else if i == 35 {
        Feature::FastMode
    } else if i == 36 {
        Feature::VoiceTranscription
    } else if i == 37 {
        Feature::RealtimeConversation
    } else if i == 38 {
        Feature::PreventIdleSleep
    } else if i == 39 {
        Feature::ResponsesWebsockets
    } else {
        Feature::ResponsesWebsocketsV2
    }
}

/// Registry key of a feature.
pub open spec fn feature_key(f: Feature) -> Seq<char> {
    match f {
        Feature::GhostCommit => "undo"@,
        Feature::ShellTool => "shell_tool"@,
        Feature::JsRepl => "js_repl"@,
        Feature::JsReplToolsOnly => "js_repl_tools_only"@,
        Feature::UnifiedExec => "unified_exec"@,
        Feature::ShellZshFork => "shell_zsh_fork"@,
        Feature::ApplyPatchFreeform => "apply_patch_freeform"@,
        Feature::RequestPermissions => "request_permissions"@,
        Feature::WebSearchRequest => "web_search_request"@,
        Feature::WebSearchCached => "web_search_cached"@,
        Feature::SearchTool => "search_tool"@,
        Feature::UseLinuxSandboxBwrap => "use_linux_sandbox_bwrap"@,
        Feature::RequestRule => "request_rule"@,
        Feature::WindowsSandbox => "experimental_windows_sandbox"@,
        Feature::WindowsSandboxElevated => "elevated_windows_sandbox"@,
        Feature::RemoteModels => "remote_models"@,
        Feature::ShellSnapshot => "shell_snapshot"@,
        Feature::CodexGitCommit => "codex_git_commit"@,
        Feature::RuntimeMetrics => "runtime_metrics"@,
        Feature::Sqlite => "sqlite"@,
        Feature::MemoryTool => "memories"@,
        Feature::ChildAgentsMd => "child_agents_md"@,
        Feature::PowershellUtf8 => "powershell_utf8"@,
        Feature::EnableRequestCompression => "enable_request_compression"@,
        Feature::Collab => "multi_agent"@,
        Feature::Apps => "apps"@,
        Feature::Plugins => "plugins"@,
        Feature::AppsMcpGateway => "apps_mcp_gateway"@,
        Feature::SkillMcpDependencyInstall => "skill_mcp_dependency_install"@,
        Feature::SkillEnvVarDependencyPrompt => "skill_env_var_dependency_prompt"@,
        Feature::Steer => "steer"@,
        Feature::DefaultModeRequestUserInput => "default_mode_request_user_input"@,
        Feature::CollaborationModes => "collaboration_modes"@,
        Feature::Personality => "personality"@,
        Feature::Artifact => "artifact"@,
        Feature::FastMode => "fast_mode"@,
        Feature::VoiceTranscription => "voice_transcription"@,
        Feature::RealtimeConversation => "realtime_conversation"@,
        Feature::PreventIdleSleep => "prevent_idle_sleep"@,
        Feature::ResponsesWebsockets => "responses_websockets"@,
        Feature::ResponsesWebsocketsV2 => "responses_websockets_v2"@,
    }
}

/// Whether a feature is on by default.
pub open spec fn feature_default(f: Feature) -> bool {
    match f {
        Feature::GhostCommit => false,
        Feature::ShellTool => true,
        Feature::JsRepl => false,
        Feature::JsReplToolsOnly => false,
        Feature::UnifiedExec => true,
        Feature::ShellZshFork => false,
        Feature::ApplyPatchFreeform => false,
        Feature::RequestPermissions => false,
        Feature::WebSearchRequest => false,
        Feature::WebSearchCached => false,
        Feature::SearchTool => false,
        Feature::UseLinuxSandboxBwrap => false,
        Feature::RequestRule => false,
        Feature::WindowsSandbox => false,
        Feature::WindowsSandboxElevated => false,
        Feature::RemoteModels => false,
        Feature::ShellSnapshot => true,
        Feature::CodexGitCommit => false,
        Feature::RuntimeMetrics => false,
        Feature::Sqlite => true,
        Feature::MemoryTool => false,
        Feature::ChildAgentsMd => false,
        Feature::PowershellUtf8 => false,
        Feature::EnableRequestCompression => true,
        Feature::Collab => false,
        Feature::Apps => false,
        Feature::Plugins => false,
        Feature::AppsMcpGateway => false,
        Feature::SkillMcpDependencyInstall => true,
        Feature::SkillEnvVarDependencyPrompt => false,
        Feature::Steer => true,
        Feature::DefaultModeRequestUserInput => false,
        Feature::CollaborationModes => true,
        Feature::Personality => true,
        Feature::Artifact => false,
        Feature::FastMode => false,
        Feature::VoiceTranscription => false,
        Feature::RealtimeConversation => false,
        Feature::PreventIdleSleep => false,
        Feature::ResponsesWebsockets => false,
        Feature::ResponsesWebsocketsV2 => false,
    }
}

/// Stage kind of a feature.
pub open spec fn feature_stage_kind(f: Feature) -> StageKind {
    match f {
        Feature::GhostCommit => StageKind::Stable,
        Feature::ShellTool => StageKind::Stable,
        Feature::JsRepl => StageKind::Experimental,
        Feature::JsReplToolsOnly => StageKind::UnderDevelopment,
        Feature::UnifiedExec => StageKind::Stable,
        Feature::ShellZshFork => StageKind::UnderDevelopment,
        Feature::ApplyPatchFreeform => StageKind::UnderDevelopment,
        Feature::RequestPermissions => StageKind::UnderDevelopment,
        Feature::WebSearchRequest => StageKind::Deprecated,
        Feature::WebSearchCached => StageKind::Deprecated,
        Feature::SearchTool => StageKind::Removed,
        Feature::UseLinuxSandboxBwrap => StageKind::UnderDevelopment,
        Feature::RequestRule => StageKind::Removed,
        Feature::WindowsSandbox => StageKind::Removed,
        Feature::WindowsSandboxElevated => StageKind::Removed,
        Feature::RemoteModels => StageKind::Removed,
        Feature::ShellSnapshot => StageKind::Stable,
        Feature::CodexGitCommit => StageKind::UnderDevelopment,
        Feature::RuntimeMetrics => StageKind::UnderDevelopment,
        Feature::Sqlite => StageKind::Stable,
        Feature::MemoryTool => StageKind::UnderDevelopment,
        Feature::ChildAgentsMd => StageKind::UnderDevelopment,
        Feature::PowershellUtf8 => StageKind::UnderDevelopment,
        Feature::EnableRequestCompression => StageKind::Stable,
        Feature::Collab => StageKind::Experimental,
        Feature::Apps => StageKind::Experimental,
        Feature::Plugins => StageKind::UnderDevelopment,
        Feature::AppsMcpGateway => StageKind::UnderDevelopment,
        Feature::SkillMcpDependencyInstall => StageKind::Stable,
        Feature::SkillEnvVarDependencyPrompt => StageKind::UnderDevelopment,
        Feature::Steer => StageKind::Removed,
        Feature::DefaultModeRequestUserInput => StageKind::UnderDevelopment,
        Feature::CollaborationModes => StageKind::Removed,
        Feature::Personality => StageKind::Stable,
        Feature::Artifact => StageKind::UnderDevelopment,
        Feature::FastMode => StageKind::UnderDevelopment,
        Feature::VoiceTranscription => StageKind::UnderDevelopment,
        Feature::RealtimeConversation => StageKind::UnderDevelopment,
        Feature::PreventIdleSleep => StageKind::Experimental,
        Feature::ResponsesWebsockets => StageKind::UnderDevelopment,
        Feature::ResponsesWebsocketsV2 => StageKind::UnderDevelopment,
    }
}

/// One registry entry.
#[derive(Debug, Clone, Copy)]
pub struct FeatureSpec {
    pub id: Feature,
    pub key: &'static str,
    pub stage: Stage,
    pub default_enabled: bool,
}

/// The entry describes feature `f`.
pub open spec fn describes(s: FeatureSpec, f: Feature) -> bool {
    &&& s.id == f
    &&& s.key@ == feature_key(f)
    &&& s.default_enabled == feature_default(f)
    &&& stage_kind(s.stage) == feature_stage_kind(f)
}

/// The feature of registry entry `i`.
pub open spec fn registry_feature(i: int) -> Feature {
    if i == 0 {
        Feature::GhostCommit
    } else if i == 1 {
        Feature::ShellTool
    } else if i == 2 {
        Feature::UnifiedExec
    } else if i == 3 {
        Feature::ShellZshFork
    } else if i == 4 {
        Feature::ShellSnapshot
    } else if i == 5 {
        Feature::JsRepl
    } else if i == 6 {
        Feature::JsReplToolsOnly
    } else if i == 7 {
        Feature::WebSearchRequest
    } else if i == 8 {
        Feature::WebSearchCached
    } else if i == 9 {
        Feature::SearchTool
    } else if i == 10 {
        Feature::CodexGitCommit
    } else if i == 11 {
        Feature::RuntimeMetrics
    } else if i == 12 {
        Feature::Sqlite
    } else if i == 13 {
        Feature::MemoryTool
    } else if i == 14 {
        Feature::ChildAgentsMd
    } else if i == 15 {
        Feature::ApplyPatchFreeform
    } else if i == 16 {
        Feature::RequestPermissions
    } else if i == 17 {
        Feature::UseLinuxSandboxBwrap
    } else if i == 18 {
        Feature::RequestRule
    } else if i == 19 {
        Feature::WindowsSandbox
    } else if i == 20 {
        Feature::WindowsSandboxElevated
    } else if i == 21 {
        Feature::RemoteModels
    } else if i == 22 {
        Feature::PowershellUtf8
    } else if i == 23 {
        Feature::EnableRequestCompression
    } else if i == 24 {
        Feature::Collab
    } else if i == 25 {
        Feature::Apps
    } else if i == 26 {
        Feature::Plugins
    } else if i == 27 {
        Feature::AppsMcpGateway
    } else if i == 28 {
        Feature::SkillMcpDependencyInstall
    } else if i == 29 {
        Feature::SkillEnvVarDependencyPrompt
    } else if i == 30 {
        Feature::Steer
    } else if i == 31 {
        Feature::DefaultModeRequestUserInput
    } else if i == 32 {
        Feature::CollaborationModes
    } else if i == 33 {
        Feature::Personality
    } else if i == 34 {
        Feature::Artifact
    } else if i == 35 {
        Feature::FastMode
    } else if i == 36 {
        Feature::VoiceTranscription
    } else if i == 37 {
        Feature::RealtimeConversation
    } else if i == 38 {
        Feature::PreventIdleSleep
    } else if i == 39 {
        Feature::ResponsesWebsockets
    } else {
        Feature::ResponsesWebsocketsV2
    }
}

/// The feature of registry entry `i`.
fn registry_feature_at(i: usize) -> (r: Feature)
    requires
        i < 41,
    ensures
        r == registry_feature(i as int),
{
    if i == 0 {
        Feature::GhostCommit
    } else if i == 1 {
        Feature::ShellTool
    } else if i == 2 {
        Feature::UnifiedExec
    } else if i == 3 {
        Feature::ShellZshFork
    } else if i == 4 {
        Feature::ShellSnapshot
    } else if i == 5 {
        Feature::JsRepl
    } else if i == 6 {
        Feature::JsReplToolsOnly
    } else if i == 7 {
        Feature::WebSearchRequest
    } else if i == 8 {
        Feature::WebSearchCached
    } else if i == 9 {
        Feature::SearchTool
    } else if i == 10 {
        Feature::CodexGitCommit
    } else if i == 11 {
        Feature::RuntimeMetrics
    } else if i == 12 {
        Feature::Sqlite
    } else if i == 13 {
        Feature::MemoryTool
    } else if i == 14 {
        Feature::ChildAgentsMd
    } else if i == 15 {
        Feature::ApplyPatchFreeform
    } else if i == 16 {
        Feature::RequestPermissions
    } else if i == 17 {
        Feature::UseLinuxSandboxBwrap
    } else if i == 18 {
        Feature::RequestRule
    } else if i == 19 {
        Feature::WindowsSandbox
    } else if i == 20 {
        Feature::WindowsSandboxElevated
    } else if i == 21 {
        Feature::RemoteModels
    } else if i == 22 {
        Feature::PowershellUtf8
    } else if i == 23 {
        Feature::EnableRequestCompression
    } else if i == 24 {
        Feature::Collab
    } else if i == 25 {
        Feature::Apps
    } else if i == 26 {
        Feature::Plugins
    } else if i == 27 {
        Feature::AppsMcpGateway
    } else if i == 28 {
        Feature::SkillMcpDependencyInstall
    } else if i == 29 {
        Feature::SkillEnvVarDependencyPrompt
    } else if i == 30 {
        Feature::Steer
    } else if i == 31 {
        Feature::DefaultModeRequestUserInput
    } else if i == 32 {
        Feature::CollaborationModes
    } else if i == 33 {
        Feature::Personality
    } else if i == 34 {
        Feature::Artifact
    } else if i == 35 {
        Feature::FastMode
    } else if i == 36 {
        Feature::VoiceTranscription
    } else if i == 37 {
        Feature::RealtimeConversation
    } else if i == 38 {
        Feature::PreventIdleSleep
    } else if i == 39 {
        Feature::ResponsesWebsockets
    } else {
        Feature::ResponsesWebsocketsV2
    }
}

impl Feature {
    /// The registry entry of this feature.
    pub fn spec(self) -> (r: FeatureSpec)
        ensures
            describes(r, self),
    {
        match self {
            Feature::GhostCommit => FeatureSpec { id: Feature::GhostCommit, key: "undo", stage: Stage::Stable, default_enabled: false },
            Feature::ShellTool => FeatureSpec { id: Feature::ShellTool, key: "shell_tool", stage: Stage::Stable, default_enabled: true },
            Feature::JsRepl => FeatureSpec { id: Feature::JsRepl, key: "js_repl", stage: Stage::Experimental { name: "JavaScript REPL", description: "Enable a persistent Node-backed JavaScript REPL." }, default_enabled: false },
            Feature::JsReplToolsOnly => FeatureSpec { id: Feature::JsReplToolsOnly, key: "js_repl_tools_only", stage: Stage::UnderDevelopment, default_enabled: false },
            Feature::UnifiedExec => FeatureSpec { id: Feature::UnifiedExec, key: "unified_exec", stage: Stage::Stable, default_enabled: true },
            Feature::ShellZshFork => FeatureSpec { id: Feature::ShellZshFork, key: "shell_zsh_fork", stage: Stage::UnderDevelopment, default_enabled: false },
            Feature::ApplyPatchFreeform => FeatureSpec { id: Feature::ApplyPatchFreeform, key: "apply_patch_freeform", stage: Stage::UnderDevelopment, default_enabled: false },
            Feature::RequestPermissions => FeatureSpec { id: Feature::RequestPermissions, key: "request_permissions", stage: Stage::UnderDevelopment, default_enabled: false },
            Feature::WebSearchRequest => FeatureSpec { id: Feature::WebSearchRequest, key: "web_search_request", stage: Stage::Deprecated, default_enabled: false },
            Feature::WebSearchCached => FeatureSpec { id: Feature::WebSearchCached, key: "web_search_cached", stage: Stage::Deprecated, default_enabled: false },
            Feature::SearchTool => FeatureSpec { id: Feature::SearchTool, key: "search_tool", stage: Stage::Removed, default_enabled: false },
            Feature::UseLinuxSandboxBwrap => FeatureSpec { id: Feature::UseLinuxSandboxBwrap, key: "use_linux_sandbox_bwrap", stage: Stage::UnderDevelopment, default_enabled: false },
            Feature::RequestRule => FeatureSpec { id: Feature::RequestRule, key: "request_rule", stage: Stage::Removed, default_enabled: false },
            Feature::WindowsSandbox => FeatureSpec { id: Feature::WindowsSandbox, key: "experimental_windows_sandbox", stage: Stage::Removed, default_enabled: false },
            Feature::WindowsSandboxElevated => FeatureSpec { id: Feature::WindowsSandboxElevated, key: "elevated_windows_sandbox", stage: Stage::Removed, default_enabled: false },
            Feature::RemoteModels => FeatureSpec { id: Feature::RemoteModels, key: "remote_models", stage: Stage::Removed, default_enabled: false },
            Feature::ShellSnapshot => FeatureSpec { id: Feature::ShellSnapshot, key: "shell_snapshot", stage: Stage::Stable, default_enabled: true },
            Feature::CodexGitCommit => FeatureSpec { id: Feature::CodexGitCommit, key: "codex_git_commit", stage: Stage::UnderDevelopment, default_enabled: false },
            Feature::RuntimeMetrics => FeatureSpec { id: Feature::RuntimeMetrics, key: "runtime_metrics", stage: Stage::UnderDevelopment, default_enabled: false },
            Feature::Sqlite => FeatureSpec { id: Feature::Sqlite, key: "sqlite", stage: Stage::Stable, default_enabled: true },
            Feature::MemoryTool => FeatureSpec { id: Feature::MemoryTool, key: "memories", stage: Stage::UnderDevelopment, default_enabled: false },
            Feature::ChildAgentsMd => FeatureSpec { id: Feature::ChildAgentsMd, key: "child_agents_md", stage: Stage::UnderDevelopment, default_enabled: false },
            Feature::PowershellUtf8 => FeatureSpec { id: Feature::PowershellUtf8, key: "powershell_utf8", stage: Stage::UnderDevelopment, default_enabled: false },
            Feature::EnableRequestCompression => FeatureSpec { id: Feature::EnableRequestCompression, key: "enable_request_compression", stage: Stage::Stable, default_enabled: true },
            Feature::Collab => FeatureSpec { id: Feature::Collab, key: "multi_agent", stage: Stage::Experimental { name: "Multi-agents", description: "Spawn multiple agents to parallelize work." }, default_enabled: false },
            Feature::Apps => FeatureSpec { id: Feature::Apps, key: "apps", stage: Stage::Experimental { name: "Apps", description: "Use connected ChatGPT Apps via $ mentions." }, default_enabled: false },
            Feature::Plugins => FeatureSpec { id: Feature::Plugins, key: "plugins", stage: Stage::UnderDevelopment, default_enabled: false },
            Feature::AppsMcpGateway => FeatureSpec { id: Feature::AppsMcpGateway, key: "apps_mcp_gateway", stage: Stage::UnderDevelopment, default_enabled: false },
            Feature::SkillMcpDependencyInstall => FeatureSpec { id: Feature::SkillMcpDependencyInstall, key: "skill_mcp_dependency_install", stage: Stage::Stable, default_enabled: true },
            Feature::SkillEnvVarDependencyPrompt => FeatureSpec { id: Feature::SkillEnvVarDependencyPrompt, key: "skill_env_var_dependency_prompt", stage: Stage::UnderDevelopment, default_enabled: false },
            Feature::Steer => FeatureSpec { id: Feature::Steer, key: "steer", stage: Stage::Removed, default_enabled: true },
            Feature::DefaultModeRequestUserInput => FeatureSpec { id: Feature::DefaultModeRequestUserInput, key: "default_mode_request_user_input", stage: Stage::UnderDevelopment, default_enabled: false },
            Feature::CollaborationModes => FeatureSpec { id: Feature::CollaborationModes, key: "collaboration_modes", stage: Stage::Removed, default_enabled: true },
            Feature::Personality => FeatureSpec { id: Feature::Personality, key: "personality", stage: Stage::Stable, default_enabled: true },
            Feature::Artifact => FeatureSpec { id: Feature::Artifact, key: "artifact", stage: Stage::UnderDevelopment, default_enabled: false },
            Feature::FastMode => FeatureSpec { id: Feature::FastMode, key: "fast_mode", stage: Stage::UnderDevelopment, default_enabled: false },
            Feature::VoiceTranscription => FeatureSpec { id: Feature::VoiceTranscription, key: "voice_transcription", stage: Stage::UnderDevelopment, default_enabled: false },
            Feature::RealtimeConversation => FeatureSpec { id: Feature::RealtimeConversation, key: "realtime_conversation", stage: Stage::UnderDevelopment, default_enabled: false },
            Feature::PreventIdleSleep => FeatureSpec { id: Feature::PreventIdleSleep, key: "prevent_idle_sleep", stage: Stage::Experimental { name: "Prevent sleep while running", description: "Keep computer awake while running." }, default_enabled: false },
            Feature::ResponsesWebsockets => FeatureSpec { id: Feature::ResponsesWebsockets, key: "responses_websockets", stage: Stage::UnderDevelopment, default_enabled: false },
            Feature::ResponsesWebsocketsV2 => FeatureSpec { id: Feature::ResponsesWebsocketsV2, key: "responses_websockets_v2", stage: Stage::UnderDevelopment, default_enabled: false },
        }
    }

    /// The registry key.
    pub fn key(self) -> (r: &'static str)
        ensures
            r@ == feature_key(self),
    {
        self.spec().key
    }

    /// The lifecycle stage.
    pub fn stage(self) -> (r: Stage)
        ensures
            stage_kind(r) == feature_stage_kind(self),
    {
        self.spec().stage
    }

    /// Whether the feature is on by default.
    pub fn default_enabled(self) -> (r: bool)
        ensures
            r == feature_default(self),
    {
        self.spec().default_enabled
    }
}

/// All registry entries, in registry order.
pub fn feature_specs() -> (r: Vec<FeatureSpec>)
    ensures
        r@.len() == 41,
        forall|i: int| 0 <= i < 41 ==> describes(#[trigger] r@[i], registry_feature(i)),
{
    let mut v: Vec<FeatureSpec> = Vec::new();
    let mut i: usize = 0;
    while i < 41
        invariant
            i <= 41,
            v@.len() == i,
            forall|k: int| 0 <= k < i ==> describes(#[trigger] v@[k], registry_feature(k)),
        decreases 41 - i,
    {
        v.push(registry_feature_at(i).spec());
        i = i + 1;
    }
    v
}

/// Feature toggles as written in the `[features]` table, by key.
#[derive(Debug)]
pub struct FeaturesToml {
    pub entries: StrMap<bool>,
}

/// The set of enabled features.
#[derive(Debug)]
pub struct Features {
    flags: Vec<bool>,
}

impl View for Features {
    type V = Set<Feature>;

    closed spec fn view(&self) -> Set<Feature> {
        Set::new(|f: Feature| self.flags@[feature_index(f)])
    }
}

/// The features that are on by default.
pub open spec fn default_features() -> Set<Feature> {
    Set::new(|f: Feature| feature_default(f))
}

/// Whether `f` is on after the entries: the last entry naming it, else its default.
pub open spec fn toggled_on(keys: Seq<Seq<char>>, values: Seq<bool>, f: Feature) -> bool {
    match last_toggle(keys, values, f) {
        Some(on) => on,
        None => feature_default(f),
    }
}

/// The features that configuration entries give: defaults, then the entries,
/// then the rule that the tools-only REPL mode needs the REPL itself.
pub open spec fn features_from_entries(keys: Seq<Seq<char>>, values: Seq<bool>) -> Set<Feature> {
    Set::new(
        |f: Feature|
            if f == Feature::JsReplToolsOnly {
                toggled_on(keys, values, f) && toggled_on(keys, values, Feature::JsRepl)
            } else {
                toggled_on(keys, values, f)
            },
    )
}

/// Whatever the entries say, the tools-only REPL mode is never on without the REPL.
pub proof fn law_tools_only_repl_needs_repl(keys: Seq<Seq<char>>, values: Seq<bool>)
    ensures
        features_from_entries(keys, values).contains(Feature::JsReplToolsOnly)
            ==> features_from_entries(keys, values).contains(Feature::JsRepl),
{
}

/// Every feature on by default is stable or removed; none under development is on.
pub proof fn law_default_features_are_released(f: Feature)
    ensures
        feature_default(f) ==> (feature_stage_kind(f) == StageKind::Stable || feature_stage_kind(f)
            == StageKind::Removed),
        feature_stage_kind(f) == StageKind::UnderDevelopment ==> !feature_default(f),
{
}

proof fn lemma_feature_index_bounds(f: Feature)
    ensures
        0 <= feature_index(f) < 41,
{
}

impl Features {
    #[verifier::type_invariant]
    spec fn inv(self) -> bool {
        self.flags@.len() == 41
    }

    /// The features that are on by default.
    pub fn with_defaults() -> (r: Self)
        ensures
            r@ == default_features(),
    {
        let mut flags: Vec<bool> = Vec::new();
        let mut i: usize = 0;
        while i < 41
            invariant
                i <= 41,
                flags@.len() == i,
                forall|f: Feature|
                    feature_index(f) < i ==> flags@[#[trigger] feature_index(f)] == feature_default(f),
            decreases 41 - i,
        {
            let f = feature_at(i);
            flags.push(f.default_enabled());
            i = i + 1;
        }
        let r = Features { flags };
        assert forall|f: Feature| r@.contains(f) == default_features().contains(f) by {
            lemma_feature_index_bounds(f);
        }
        assert(r@ =~= default_features());
        r
    }

    /// Whether `f` is enabled.
    pub fn enabled(&self, f: Feature) -> (r: bool)
        ensures
            r == self@.contains(f),
    {
        proof {
            use_type_invariant(self);
            lemma_feature_index_bounds(f);
        }
        self.flags[index_of(f)]
    }

    /// Enables `f`.
    pub fn enable(&mut self, f: Feature)
        ensures
            final(self)@ == old(self)@.insert(f),
    {
        self.set(f, true);
    }

    /// Disables `f`.
    pub fn disable(&mut self, f: Feature)
        ensures
            final(self)@ == old(self)@.remove(f),
    {
        self.set(f, false);
    }

    fn set(&mut self, f: Feature, on: bool)
        ensures
            final(self)@ == if on {
                old(self)@.insert(f)
            } else {
                old(self)@.remove(f)
            },
    {
        proof {
            use_type_invariant(&*self);
            lemma_feature_index_bounds(f);
        }
        let ghost before = self@;
        let i = index_of(f);
        self.flags = with_flag(&self.flags, i, on);
        assert forall|g: Feature| self@.contains(g) == (if on {
            before.insert(f)
        } else {
            before.remove(f)
        }).contains(g) by {
            lemma_feature_index_bounds(g);
            if g != f {
                assert(feature_index(g) != feature_index(f));
            }
        }
        assert(self@ =~= if on {
            before.insert(f)
        } else {
            before.remove(f)
        });
    }

    /// Applies key-to-toggle entries in key order; unknown keys are ignored.
    pub fn apply_map(&mut self, m: &StrMap<bool>)
        ensures
            forall|f: Feature|
                #[trigger] final(self)@.contains(f) == match last_toggle(m.keys(), m.values(), f) {
                    Some(on) => on,
                    None => old(self)@.contains(f),
                },
    {
        let n = m.len();
        let mut i: usize = 0;
        while i < n
            invariant
                n == m.keys().len(),
                m.values().len() == n,
                i <= n,
                forall|f: Feature|
                    #[trigger] self@.contains(f) == match last_toggle(
                        m.keys().take(i as int),
                        m.values().take(i as int),
                        f,
                    ) {
                        Some(on) => on,
                        None => old(self)@.contains(f),
                    },
            decreases n - i,
        {
            let k = m.key_at(i);
            let v = *m.value_at(i);
            let ghost before = self@;
            assert(m.keys().take(i + 1).drop_last() =~= m.keys().take(i as int));
            assert(m.values().take(i + 1).drop_last() =~= m.values().take(i as int));
            match feature_for_key(k.as_str()) {
                Some(feat) => {
                    if v {
                        self.enable(feat);
                    } else {
                        self.disable(feat);
                    }
                },
                None => {},
            }
            i = i + 1;
        }
        assert(m.keys().take(n as int) =~= m.keys());
        assert(m.values().take(n as int) =~= m.values());
    }

    /// Defaults, then the `[features]` table, then the rule that the tools-only
    /// REPL mode needs the REPL itself.
    pub fn from_features_toml(ft: &FeaturesToml) -> (r: Self)
        ensures
            r@ == features_from_entries(ft.entries.keys(), ft.entries.values()),
    {
        let mut features = Features::with_defaults();
        features.apply_map(&ft.entries);
        if features.enabled(Feature::JsReplToolsOnly) && !features.enabled(Feature::JsRepl) {
            features.disable(Feature::JsReplToolsOnly);
        }
        assert(features@ =~= features_from_entries(ft.entries.keys(), ft.entries.values()));
        features
    }

    /// The enabled features, in sort order.
    pub fn enabled_features(&self) -> (r: Vec<Feature>)
        ensures
            forall|f: Feature| r@.contains(f) <==> self@.contains(f),
            forall|i: int, j: int|
                0 <= i < j < r@.len() ==> feature_index(#[trigger] r@[i]) < feature_index(#[trigger] r@[j]),
    {
        proof {
            use_type_invariant(self);
        }
        let mut out: Vec<Feature> = Vec::new();
        let mut i: usize = 0;
        while i < 41
            invariant
                i <= 41,
                self.flags@.len() == 41,
                forall|k: int| 0 <= k < out@.len() ==> feature_index(#[trigger] out@[k]) < i,
                forall|a: int, b: int|
                    0 <= a < b < out@.len() ==> feature_index(#[trigger] out@[a]) < feature_index(
                        #[trigger] out@[b],
                    ),
                forall|f: Feature|
                    feature_index(f) < i ==> (out@.contains(f) <==> #[trigger] self@.contains(f)),
                forall|k: int| 0 <= k < out@.len() ==> self@.contains(#[trigger] out@[k]),
            decreases 41 - i,
        {
            let f = feature_at(i);
            let ghost before = out@;
            if self.flags[i] {
                out.push(f);
                assert(out@[out@.len() - 1] == f);
            }
            assert forall|g: Feature| feature_index(g) < i + 1 implies (out@.contains(g) <==> #[trigger] self@.contains(g)) by {
                if feature_index(g) < i {
                    if out@.contains(g) && !before.contains(g) {
                        assert(g == f);
                    }
                    if before.contains(g) {
                        let k = choose|k: int| 0 <= k < before.len() && before[k] == g;
                        assert(out@[k] == g);
                    }
                } else {
                    assert(g == f);
                    if self@.contains(g) {
                        assert(out@[out@.len() - 1] == g);
                    }
                    if out@.contains(g) {
                        let k = choose|k: int| 0 <= k < out@.len() && out@[k] == g;
                        if k < before.len() {
                            assert(feature_index(before[k]) < i);
                        }
                    }
                }
            }
            i = i + 1;
        }
        assert forall|f: Feature| out@.contains(f) <==> self@.contains(f) by {
            lemma_feature_index_bounds(f);
        }
        out
    }
}

/// A copy of `v` with entry `i` set to `on`.
fn with_flag(v: &Vec<bool>, i: usize, on: bool) -> (r: Vec<bool>)
    requires
        i < v@.len(),
    ensures
        r@ == v@.update(i as int, on),
{
    let mut out: Vec<bool> = Vec::new();
    let mut k: usize = 0;
    while k < v.len()
        invariant
            k <= v@.len(),
            i < v@.len(),
            out@ == v@.update(i as int, on).take(k as int),
        decreases v@.len() - k,
    {
        if k == i {
            out.push(on);
        } else {
            out.push(v[k]);
        }
        k = k + 1;
        assert(out@ =~= v@.update(i as int, on).take(k as int));
    }
    assert(v@.update(i as int, on).take(k as int) =~= v@.update(i as int, on));
    out
}

/// Position of a feature in declaration order.
fn index_of(f: Feature) -> (r: usize)
    ensures
        r == feature_index(f),
{
    match f {
        Feature::GhostCommit => 0,
        Feature::ShellTool => 1,
        Feature::JsRepl => 2,
        Feature::JsReplToolsOnly => 3,
        Feature::UnifiedExec => 4,
        Feature::ShellZshFork => 5,
        Feature::ApplyPatchFreeform => 6,
        Feature::RequestPermissions => 7,
        Feature::WebSearchRequest => 8,
        Feature::WebSearchCached => 9,
        Feature::SearchTool => 10,
        Feature::UseLinuxSandboxBwrap => 11,
        Feature::RequestRule => 12,
        Feature::WindowsSandbox => 13,
        Feature::WindowsSandboxElevated => 14,
        Feature::RemoteModels => 15,
        Feature::ShellSnapshot => 16,
        Feature::CodexGitCommit => 17,
        Feature::RuntimeMetrics => 18,
        Feature::Sqlite => 19,
        Feature::MemoryTool => 20,
        Feature::ChildAgentsMd => 21,
        Feature::PowershellUtf8 => 22,
        Feature::EnableRequestCompression => 23,
        Feature::Collab => 24,
        Feature::Apps => 25,
        Feature::Plugins => 26,
        Feature::AppsMcpGateway => 27,
        Feature::SkillMcpDependencyInstall => 28,
        Feature::SkillEnvVarDependencyPrompt => 29,
        Feature::Steer => 30,
        Feature::DefaultModeRequestUserInput => 31,
        Feature::CollaborationModes => 32,
        Feature::Personality => 33,
        Feature::Artifact => 34,
        Feature::FastMode => 35,
        Feature::VoiceTranscription => 36,
        Feature::RealtimeConversation => 37,
        Feature::PreventIdleSleep => 38,
        Feature::ResponsesWebsockets => 39,
        Feature::ResponsesWebsocketsV2 => 40,
    }
}

/// The toggle that the last entry naming a key of `f` gives, among `keys`/`values`.
pub open spec fn last_toggle(keys: Seq<Seq<char>>, values: Seq<bool>, f: Feature) -> Option<bool>
    decreases keys.len(),
{
    if keys.len() == 0 || values.len() == 0 {
        None
    } else if key_feature(keys.last()) == Some(f) {
        Some(values.last())
    } else {
        last_toggle(keys.drop_last(), values.drop_last(), f)
    }
}

/// The first feature, from position `i` on in declaration order, whose registry key is `key`.
pub open spec fn key_feature_from(key: Seq<char>, i: int) -> Option<Feature>
    decreases 41 - i,
{
    if i >= 41 || i < 0 {
        None
    } else if feature_key(feature_at_spec(i)) == key {
        Some(feature_at_spec(i))
    } else {
        key_feature_from(key, i + 1)
    }
}

/// The feature a key names: the feature with that registry key, else the
/// feature of a legacy alias.
pub open spec fn key_feature(key: Seq<char>) -> Option<Feature> {
    match key_feature_from(key, 0) {
        Some(f) => Some(f),
        None => legacy::legacy_alias(key),
    }
}

/// The feature a configuration key names, by registry key or legacy alias.
pub fn feature_for_key(key: &str) -> (r: Option<Feature>)
    ensures
        r == key_feature(key@),
{
    let mut i: usize = 0;
    while i < 41
        invariant
            i <= 41,
            key_feature_from(key@, 0) == key_feature_from(key@, i as int),
        decreases 41 - i,
    {
        let f = feature_at(i);
        if str_eq(f.key(), key) {
            return Some(f);
        }
        i = i + 1;
    }
    legacy::feature_for_key(key)
}

/// Whether a configuration key names a known feature.
pub fn is_known_feature_key(key: &str) -> (r: bool)
    ensures
        r == key_feature(key@) is Some,
{
    feature_for_key(key).is_some()
}

} // verus!
