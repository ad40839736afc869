//! Typed tables of `config.toml`.
use vstd::prelude::*;

use crate::protocol::{AskForApproval, Effort, Personality, ReasoningSummary, SandboxMode, ServiceTier};
use crate::strmap::{Duplicate, StrMap};
use crate::text::{clone_opt_string, clone_strings};

verus! {

/// How an MCP server is reached.
#[derive(Debug)]
pub enum McpServerTransportConfig {
    /// A local process speaking over standard input and output.
    Stdio { command: String, args: Vec<String>, env: StrMap<String> },
    /// A server reached over streamable HTTP.
    StreamableHttp {
        url: String,
        bearer_token_env_var: Option<String>,
        http_headers: Option<StrMap<String>>,
        env_http_headers: Option<StrMap<String>>,
    },
}

/// Configuration of one MCP server.
#[derive(Debug)]
pub struct McpServerConfig {
    pub transport: McpServerTransportConfig,
    pub enabled: bool,
    pub required: bool,
    pub disabled_reason: Option<String>,
    /// Startup timeout, in seconds.
    pub startup_timeout_sec: Option<u64>,
    /// Tool call timeout, in seconds.
    pub tool_timeout_sec: Option<u64>,
    pub enabled_tools: Option<Vec<String>>,
    pub disabled_tools: Option<Vec<String>>,
    pub scopes: Option<Vec<String>>,
    pub oauth_resource: Option<String>,
}

/// Value of `enabled` when the table does not give one.
pub fn default_true() -> (r: bool)
    ensures
        r,
{
    true
}

/// Which tools of a server are offered.
#[derive(Debug, Clone)]
pub struct McpToolFilter {
    pub enabled: Option<Vec<String>>,
    pub disabled: Option<Vec<String>>,
}

/// A named profile: a subset of the top-level settings.
#[derive(Debug)]
pub struct ConfigProfile {
    pub model: Option<String>,
    pub model_provider: Option<String>,
    pub approval_policy: Option<AskForApproval>,
    pub sandbox_mode: Option<SandboxMode>,
    pub model_reasoning_effort: Option<Effort>,
    pub model_reasoning_summary: Option<ReasoningSummary>,
    pub personality: Option<Personality>,
    pub service_tier: Option<ServiceTier>,
    pub instructions: Option<String>,
    pub developer_instructions: Option<String>,
    pub mcp_servers: StrMap<McpServerConfig>,
}

/// The `[sandbox_workspace_write]` table.
#[derive(Debug, Clone, Default)]
pub struct SandboxWorkspaceWrite {
    pub writable_roots: Vec<String>,
    pub network_access: bool,
}

/// The `[permissions]` table: readable and writable paths, and network rules.
#[derive(Debug, Clone, Default)]
pub struct PermissionsToml {
    pub read: Vec<String>,
    pub write: Vec<String>,
    pub network: Option<crate::config::permissions::NetworkToml>,
}

/// The `[shell_environment_policy]` table.
#[derive(Debug)]
pub struct ShellEnvironmentPolicyToml {
    pub inherit: Vec<String>,
    pub set: StrMap<String>,
}

/// The `[history]` table.
#[derive(Debug, Clone, Default)]
pub struct HistoryToml {
    pub persistence: Option<String>,
    pub max_entries: Option<usize>,
    pub save_on_exit: Option<bool>,
}

/// The `[tools]` table.
#[derive(Debug, Clone, Copy, Default)]
pub struct ToolsToml {
    pub enable_apply_patch: Option<bool>,
    pub enable_web_search: Option<bool>,
    pub enable_js_repl: Option<bool>,
}

/// The `[tui]` table.
#[derive(Debug, Clone, Default)]
pub struct TuiToml {
    pub alt_screen: Option<String>,
    pub theme: Option<String>,
}

/// The `[agents]` table.
#[derive(Debug, Clone, Copy, Default)]
pub struct AgentsToml {
    pub max_concurrent_threads: Option<usize>,
}

/// The `[memories]` table as written.
#[derive(Debug, Clone, Default)]
pub struct MemoriesToml {
    pub enabled: Option<bool>,
    pub max_entries: Option<usize>,
    pub generate_memories: Option<bool>,
    pub use_memories: Option<bool>,
    pub max_raw_memories_for_consolidation: Option<usize>,
    pub max_unused_days: Option<i64>,
    pub max_rollout_age_days: Option<i64>,
    pub max_rollouts_per_startup: Option<usize>,
    pub min_rollout_idle_hours: Option<i64>,
    pub extract_model: Option<String>,
    pub consolidation_model: Option<String>,
}

/// Memory settings with defaults applied and limits enforced.
#[derive(Debug, Clone)]
pub struct MemoriesConfig {
    pub generate_memories: bool,
    pub use_memories: bool,
    pub max_raw_memories_for_consolidation: usize,
    pub max_unused_days: i64,
    pub max_rollout_age_days: i64,
    pub max_rollouts_per_startup: usize,
    pub min_rollout_idle_hours: i64,
    pub extract_model: Option<String>,
    pub consolidation_model: Option<String>,
}

impl Default for MemoriesConfig {
    /// Memories on, 256 raw memories, 90 unused days, 30 days of rollouts,
    /// 16 rollouts per startup, 12 idle hours.
    fn default() -> (r: Self)
        ensures
            r.generate_memories && r.use_memories,
            r.max_raw_memories_for_consolidation == 256,
            r.max_unused_days == 90,
            r.max_rollout_age_days == 30,
            r.max_rollouts_per_startup == 16,
            r.min_rollout_idle_hours == 12,
            r.extract_model is None && r.consolidation_model is None,
    {
        MemoriesConfig {
            generate_memories: true,
            use_memories: true,
            max_raw_memories_for_consolidation: 256,
            max_unused_days: 90,
            max_rollout_age_days: 30,
            max_rollouts_per_startup: 16,
            min_rollout_idle_hours: 12,
            extract_model: None,
            consolidation_model: None,
        }
    }
}

/// `v` clamped into `[lo, hi]`.
pub open spec fn clamp_spec(v: int, lo: int, hi: int) -> int {
    if v < lo {
        lo
    } else if v > hi {
        hi
    } else {
        v
    }
}

/// The value given, or the default.
pub open spec fn or_default<T>(v: Option<T>, d: T) -> T {
    match v {
        Some(x) => x,
        None => d,
    }
}

fn clamp_i64(v: i64, lo: i64, hi: i64) -> (r: i64)
    requires
        lo <= hi,
    ensures
        r == clamp_spec(v as int, lo as int, hi as int),
{
    if v < lo {
        lo
    } else if v > hi {
        hi
    } else {
        v
    }
}

impl MemoriesConfig {
    /// The settings of a `[memories]` table: defaults for what it leaves out, at
    /// most 4096 raw memories and 128 rollouts per startup, unused days within
    /// 0..=365, rollout age within 0..=90 days, idle hours within 1..=48.
    pub fn from_toml(toml: &MemoriesToml) -> (r: Self)
        ensures
            r.generate_memories == or_default(toml.generate_memories, true),
            r.use_memories == or_default(toml.use_memories, true),
            r.max_raw_memories_for_consolidation == clamp_spec(
                or_default(toml.max_raw_memories_for_consolidation, 256usize) as int,
                0,
                4096,
            ),
            r.max_unused_days == clamp_spec(or_default(toml.max_unused_days, 90i64) as int, 0, 365),
            r.max_rollout_age_days == clamp_spec(
                or_default(toml.max_rollout_age_days, 30i64) as int,
                0,
                90,
            ),
            r.max_rollouts_per_startup == clamp_spec(
                or_default(toml.max_rollouts_per_startup, 16usize) as int,
                0,
                128,
            ),
            r.min_rollout_idle_hours == clamp_spec(
                or_default(toml.min_rollout_idle_hours, 12i64) as int,
                1,
                48,
            ),
            r.extract_model == toml.extract_model,
            r.consolidation_model == toml.consolidation_model,
    {
        let d = MemoriesConfig::default();
        let raw = match toml.max_raw_memories_for_consolidation {
            Some(v) => v,
            None => d.max_raw_memories_for_consolidation,
        };
        let per_startup = match toml.max_rollouts_per_startup {
            Some(v) => v,
            None => d.max_rollouts_per_startup,
        };
        MemoriesConfig {
            generate_memories: match toml.generate_memories {
                Some(v) => v,
                None => d.generate_memories,
            },
            use_memories: match toml.use_memories {
                Some(v) => v,
                None => d.use_memories,
            },
            max_raw_memories_for_consolidation: if raw < 4096 {
                raw
            } else {
                4096
            },
            max_unused_days: clamp_i64(
                match toml.max_unused_days {
                    Some(v) => v,
                    None => d.max_unused_days,
                },
                0,
                365,
            ),
            max_rollout_age_days: clamp_i64(
                match toml.max_rollout_age_days {
                    Some(v) => v,
                    None => d.max_rollout_age_days,
                },
                0,
                90,
            ),
            max_rollouts_per_startup: if per_startup < 128 {
                per_startup
            } else {
                128
            },
            min_rollout_idle_hours: clamp_i64(
                match toml.min_rollout_idle_hours {
                    Some(v) => v,
                    None => d.min_rollout_idle_hours,
                },
                1,
                48,
            ),
            extract_model: clone_opt_string(&toml.extract_model),
            consolidation_model: clone_opt_string(&toml.consolidation_model),
        }
    }
}

} // verus!
