//! Whether configured MCP servers need OAuth sign-in.
use vstd::prelude::*;

use crate::config::toml_types::{McpServerConfig, McpServerTransportConfig};
use crate::strmap::StrMap;

verus! {

/// OAuth status of an MCP server.
#[derive(Debug, Clone, Copy, PartialEq, Eq, Structural)]
pub enum McpAuthStatus {
    /// The server does not use OAuth.
    Unsupported,
    /// OAuth is used and credentials are configured.
    Authenticated,
    /// OAuth is used but credentials are missing.
    NeedsAuth,
    /// The status could not be determined.
    Unknown,
}

/// A server's configuration with its OAuth status.
#[derive(Debug)]
pub struct McpAuthStatusEntry {
    pub config: McpServerConfig,
    pub auth_status: McpAuthStatus,
}

/// Local servers do not use OAuth; an HTTP server is authenticated when a
/// bearer token variable is configured, needs sign-in when only an OAuth
/// resource is, and otherwise does not use OAuth.
pub open spec fn auth_status_of(config: McpServerConfig) -> McpAuthStatus {
    match config.transport {
        McpServerTransportConfig::Stdio { .. } => McpAuthStatus::Unsupported,
        McpServerTransportConfig::StreamableHttp { bearer_token_env_var, .. } => if bearer_token_env_var is Some {
            McpAuthStatus::Authenticated
        } else if config.oauth_resource is Some {
            McpAuthStatus::NeedsAuth
        } else {
            McpAuthStatus::Unsupported
        },
    }
}

/// The OAuth status of one server.
pub fn auth_status(config: &McpServerConfig) -> (r: McpAuthStatus)
    ensures
        r == auth_status_of(*config),
{
    match &config.transport {
        McpServerTransportConfig::Stdio { .. } => McpAuthStatus::Unsupported,
        McpServerTransportConfig::StreamableHttp { bearer_token_env_var, .. } => {
            if bearer_token_env_var.is_some() {
                McpAuthStatus::Authenticated
            } else if config.oauth_resource.is_some() {
                McpAuthStatus::NeedsAuth
            } else {
                McpAuthStatus::Unsupported
            }
        },
    }
}

/// The OAuth status of every server, by name, each with its configuration.
pub fn compute_auth_statuses(servers: StrMap<McpServerConfig>) -> (r: StrMap<McpAuthStatusEntry>)
    ensures
        r.to_map().dom() == servers.to_map().dom(),
        forall|k: Seq<char>|
            #[trigger] r.to_map().contains_key(k) ==> r.to_map()[k].config == servers.to_map()[k]
                && r.to_map()[k].auth_status == auth_status_of(servers.to_map()[k]),
{
    let ghost all = servers.to_map();
    let mut left = servers;
    let mut out: StrMap<McpAuthStatusEntry> = StrMap::new();
    while !left.is_empty()
        invariant
            forall|k: Seq<char>| #[trigger] left.to_map().contains_key(k) ==> all.contains_key(k)
                && left.to_map()[k] == all[k],
            forall|k: Seq<char>| all.contains_key(k) ==> (left.to_map().contains_key(k)
                || out.to_map().contains_key(k)),
            forall|k: Seq<char>| #[trigger] out.to_map().contains_key(k) ==> all.contains_key(k)
                && !left.to_map().contains_key(k) && out.to_map()[k].config == all[k]
                && out.to_map()[k].auth_status == auth_status_of(all[k]),
        decreases left.keys().len(),
    {
        match left.pop_first() {
            Some((name, config)) => {
                let auth_status = auth_status(&config);
                out.insert(name, McpAuthStatusEntry { config, auth_status });
            },
            None => {},
        }
    }
    let _ = left.sorted();
    proof {
        left.lemma_view();
    }
    assert(out.to_map().dom() =~= all.dom());
    out
}

} // verus!
