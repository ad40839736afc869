//! Edits of configuration, collected and then applied at once.
use vstd::prelude::*;

use crate::config::toml_types::McpServerConfig;
use crate::protocol::{
    AskForApproval, Effort, Personality, ReasoningSummary, SandboxMode, ServiceTier, Verbosity,
    WebSearchMode,
};
use crate::strmap::StrMap;

verus! {

/// A change to one MCP server.
#[derive(Debug)]
pub enum McpServerUpdate {
    Put(McpServerConfig),
    Remove,
}

/// The settings an edit can change.
#[derive(Debug)]
pub struct EditableSettings {
    pub model: Option<String>,
    pub approval_policy: Option<AskForApproval>,
    pub sandbox_mode: Option<SandboxMode>,
    pub model_reasoning_effort: Option<Effort>,
    pub model_reasoning_summary: Option<ReasoningSummary>,
    pub model_verbosity: Option<Verbosity>,
    pub personality: Option<Personality>,
    pub service_tier: Option<ServiceTier>,
    pub instructions: Option<String>,
    pub developer_instructions: Option<String>,
    pub web_search: Option<WebSearchMode>,
    pub mcp_servers: StrMap<McpServerConfig>,
}

/// Collected configuration edits: for each setting, nothing, a new value, or
/// its removal; and per server a replacement or a removal.
#[derive(Debug)]
pub struct ConfigEdit {
    model: Option<Option<String>>,
    approval_policy: Option<Option<AskForApproval>>,
    sandbox_mode: Option<Option<SandboxMode>>,
    model_reasoning_effort: Option<Option<Effort>>,
    model_reasoning_summary: Option<Option<ReasoningSummary>>,
    model_verbosity: Option<Option<Verbosity>>,
    personality: Option<Option<Personality>>,
    service_tier: Option<Option<ServiceTier>>,
    instructions: Option<Option<String>>,
    developer_instructions: Option<Option<String>>,
    web_search: Option<Option<WebSearchMode>>,
    mcp_server_updates: StrMap<McpServerUpdate>,
}

/// `value` after an edit of it.
pub open spec fn edited<T>(value: Option<T>, edit: Option<Option<T>>) -> Option<T> {
    match edit {
        Some(v) => v,
        None => value,
    }
}

/// The servers after the updates: replaced or added, removed, or kept.
pub open spec fn servers_after(
    servers: Map<Seq<char>, McpServerConfig>,
    updates: Map<Seq<char>, McpServerUpdate>,
) -> Map<Seq<char>, McpServerConfig> {
    Map::new(
        |k: Seq<char>|
            if updates.contains_key(k) {
                updates[k] is Put
            } else {
                servers.contains_key(k)
            },
        |k: Seq<char>|
            if updates.contains_key(k) {
                match updates[k] {
                    McpServerUpdate::Put(c) => c,
                    McpServerUpdate::Remove => servers[k],
                }
            } else {
                servers[k]
            },
    )
}

impl ConfigEdit {
    /// The edit of `model`.
    pub closed spec fn spec_model(&self) -> Option<Option<String>> {
        self.model
    }

    /// The edit of `approval_policy`.
    pub closed spec fn spec_approval_policy(&self) -> Option<Option<AskForApproval>> {
        self.approval_policy
    }

    /// The edit of `sandbox_mode`.
    pub closed spec fn spec_sandbox_mode(&self) -> Option<Option<SandboxMode>> {
        self.sandbox_mode
    }

    /// The edit of `model_reasoning_effort`.
    pub closed spec fn spec_model_reasoning_effort(&self) -> Option<Option<Effort>> {
        self.model_reasoning_effort
    }

    /// The edit of `model_reasoning_summary`.
    pub closed spec fn spec_model_reasoning_summary(&self) -> Option<Option<ReasoningSummary>> {
        self.model_reasoning_summary
    }

    /// The edit of `model_verbosity`.
    pub closed spec fn spec_model_verbosity(&self) -> Option<Option<Verbosity>> {
        self.model_verbosity
    }

    /// The edit of `personality`.
    pub closed spec fn spec_personality(&self) -> Option<Option<Personality>> {
        self.personality
    }

    /// The edit of `service_tier`.
    pub closed spec fn spec_service_tier(&self) -> Option<Option<ServiceTier>> {
        self.service_tier
    }

    /// The edit of `instructions`.
    pub closed spec fn spec_instructions(&self) -> Option<Option<String>> {
        self.instructions
    }

    /// The edit of `developer_instructions`.
    pub closed spec fn spec_developer_instructions(&self) -> Option<Option<String>> {
        self.developer_instructions
    }

    /// The edit of `web_search`.
    pub closed spec fn spec_web_search(&self) -> Option<Option<WebSearchMode>> {
        self.web_search
    }

    /// The server updates, by name.
    pub closed spec fn spec_updates(&self) -> Map<Seq<char>, McpServerUpdate> {
        self.mcp_server_updates.to_map()
    }

    /// An edit that changes nothing.
    pub fn new() -> (r: Self)
        ensures
            r.spec_model() is None,
            r.spec_approval_policy() is None,
            r.spec_sandbox_mode() is None,
            r.spec_model_reasoning_effort() is None,
            r.spec_model_reasoning_summary() is None,
            r.spec_model_verbosity() is None,
            r.spec_personality() is None,
            r.spec_service_tier() is None,
            r.spec_instructions() is None,
            r.spec_developer_instructions() is None,
            r.spec_web_search() is None,
            r.spec_updates() == Map::<Seq<char>, McpServerUpdate>::empty(),
    {
        ConfigEdit {
            model: None,
            approval_policy: None,
            sandbox_mode: None,
            model_reasoning_effort: None,
            model_reasoning_summary: None,
            model_verbosity: None,
            personality: None,
            service_tier: None,
            instructions: None,
            developer_instructions: None,
            web_search: None,
            mcp_server_updates: StrMap::new(),
        }
    }

    /// Sets `model`.
    pub fn set_model(self, model: String) -> (r: Self)
        ensures
            r.spec_model() == Some(Some(model)),
            r.spec_approval_policy() == self.spec_approval_policy(),
            r.spec_sandbox_mode() == self.spec_sandbox_mode(),
            r.spec_model_reasoning_effort() == self.spec_model_reasoning_effort(),
            r.spec_model_reasoning_summary() == self.spec_model_reasoning_summary(),
            r.spec_model_verbosity() == self.spec_model_verbosity(),
            r.spec_personality() == self.spec_personality(),
            r.spec_service_tier() == self.spec_service_tier(),
            r.spec_instructions() == self.spec_instructions(),
            r.spec_developer_instructions() == self.spec_developer_instructions(),
            r.spec_web_search() == self.spec_web_search(),
            r.spec_updates() == self.spec_updates(),
    {
        let mut e = self;
        e.model = Some(Some(model));
        e
    }

    /// Sets `approval_policy`.
    pub fn set_approval_policy(self, policy: AskForApproval) -> (r: Self)
        ensures
            r.spec_approval_policy() == Some(Some(policy)),
            r.spec_model() == self.spec_model(),
            r.spec_sandbox_mode() == self.spec_sandbox_mode(),
            r.spec_model_reasoning_effort() == self.spec_model_reasoning_effort(),
            r.spec_model_reasoning_summary() == self.spec_model_reasoning_summary(),
            r.spec_model_verbosity() == self.spec_model_verbosity(),
            r.spec_personality() == self.spec_personality(),
            r.spec_service_tier() == self.spec_service_tier(),
            r.spec_instructions() == self.spec_instructions(),
            r.spec_developer_instructions() == self.spec_developer_instructions(),
            r.spec_web_search() == self.spec_web_search(),
            r.spec_updates() == self.spec_updates(),
    {
        let mut e = self;
        e.approval_policy = Some(Some(policy));
        e
    }

    /// Sets `sandbox_mode`.
    pub fn set_sandbox_mode(self, mode: SandboxMode) -> (r: Self)
        ensures
            r.spec_sandbox_mode() == Some(Some(mode)),
            r.spec_model() == self.spec_model(),
            r.spec_approval_policy() == self.spec_approval_policy(),
            r.spec_model_reasoning_effort() == self.spec_model_reasoning_effort(),
            r.spec_model_reasoning_summary() == self.spec_model_reasoning_summary(),
            r.spec_model_verbosity() == self.spec_model_verbosity(),
            r.spec_personality() == self.spec_personality(),
            r.spec_service_tier() == self.spec_service_tier(),
            r.spec_instructions() == self.spec_instructions(),
            r.spec_developer_instructions() == self.spec_developer_instructions(),
            r.spec_web_search() == self.spec_web_search(),
            r.spec_updates() == self.spec_updates(),
    {
        let mut e = self;
        e.sandbox_mode = Some(Some(mode));
        e
    }

    /// Sets `model_reasoning_effort`.
    pub fn set_reasoning_effort(self, effort: Effort) -> (r: Self)
        ensures
            r.spec_model_reasoning_effort() == Some(Some(effort)),
            r.spec_model() == self.spec_model(),
            r.spec_approval_policy() == self.spec_approval_policy(),
            r.spec_sandbox_mode() == self.spec_sandbox_mode(),
            r.spec_model_reasoning_summary() == self.spec_model_reasoning_summary(),
            r.spec_model_verbosity() == self.spec_model_verbosity(),
            r.spec_personality() == self.spec_personality(),
            r.spec_service_tier() == self.spec_service_tier(),
            r.spec_instructions() == self.spec_instructions(),
            r.spec_developer_instructions() == self.spec_developer_instructions(),
            r.spec_web_search() == self.spec_web_search(),
            r.spec_updates() == self.spec_updates(),
    {
        let mut e = self;
        e.model_reasoning_effort = Some(Some(effort));
        e
    }

    /// Sets `model_reasoning_summary`.
    pub fn set_reasoning_summary(self, summary: ReasoningSummary) -> (r: Self)
        ensures
            r.spec_model_reasoning_summary() == Some(Some(summary)),
            r.spec_model() == self.spec_model(),
            r.spec_approval_policy() == self.spec_approval_policy(),
            r.spec_sandbox_mode() == self.spec_sandbox_mode(),
            r.spec_model_reasoning_effort() == self.spec_model_reasoning_effort(),
            r.spec_model_verbosity() == self.spec_model_verbosity(),
            r.spec_personality() == self.spec_personality(),
            r.spec_service_tier() == self.spec_service_tier(),
            r.spec_instructions() == self.spec_instructions(),
            r.spec_developer_instructions() == self.spec_developer_instructions(),
            r.spec_web_search() == self.spec_web_search(),
            r.spec_updates() == self.spec_updates(),
    {
        let mut e = self;
        e.model_reasoning_summary = Some(Some(summary));
        e
    }

    /// Sets `model_verbosity`.
    pub fn set_verbosity(self, verbosity: Verbosity) -> (r: Self)
        ensures
            r.spec_model_verbosity() == Some(Some(verbosity)),
            r.spec_model() == self.spec_model(),
            r.spec_approval_policy() == self.spec_approval_policy(),
            r.spec_sandbox_mode() == self.spec_sandbox_mode(),
            r.spec_model_reasoning_effort() == self.spec_model_reasoning_effort(),
            r.spec_model_reasoning_summary() == self.spec_model_reasoning_summary(),
            r.spec_personality() == self.spec_personality(),
            r.spec_service_tier() == self.spec_service_tier(),
            r.spec_instructions() == self.spec_instructions(),
            r.spec_developer_instructions() == self.spec_developer_instructions(),
            r.spec_web_search() == self.spec_web_search(),
            r.spec_updates() == self.spec_updates(),
    {
        let mut e = self;
        e.model_verbosity = Some(Some(verbosity));
        e
    }

    /// Sets `personality`.
    pub fn set_personality(self, personality: Personality) -> (r: Self)
        ensures
            r.spec_personality() == Some(Some(personality)),
            r.spec_model() == self.spec_model(),
            r.spec_approval_policy() == self.spec_approval_policy(),
            r.spec_sandbox_mode() == self.spec_sandbox_mode(),
            r.spec_model_reasoning_effort() == self.spec_model_reasoning_effort(),
            r.spec_model_reasoning_summary() == self.spec_model_reasoning_summary(),
            r.spec_model_verbosity() == self.spec_model_verbosity(),
            r.spec_service_tier() == self.spec_service_tier(),
            r.spec_instructions() == self.spec_instructions(),
            r.spec_developer_instructions() == self.spec_developer_instructions(),
            r.spec_web_search() == self.spec_web_search(),
            r.spec_updates() == self.spec_updates(),
    {
        let mut e = self;
        e.personality = Some(Some(personality));
        e
    }

    /// Sets `service_tier`.
    pub fn set_service_tier(self, tier: ServiceTier) -> (r: Self)
        ensures
            r.spec_service_tier() == Some(Some(tier)),
            r.spec_model() == self.spec_model(),
            r.spec_approval_policy() == self.spec_approval_policy(),
            r.spec_sandbox_mode() == self.spec_sandbox_mode(),
            r.spec_model_reasoning_effort() == self.spec_model_reasoning_effort(),
            r.spec_model_reasoning_summary() == self.spec_model_reasoning_summary(),
            r.spec_model_verbosity() == self.spec_model_verbosity(),
            r.spec_personality() == self.spec_personality(),
            r.spec_instructions() == self.spec_instructions(),
            r.spec_developer_instructions() == self.spec_developer_instructions(),
            r.spec_web_search() == self.spec_web_search(),
            r.spec_updates() == self.spec_updates(),
    {
        let mut e = self;
        e.service_tier = Some(Some(tier));
        e
    }

    /// Sets `instructions`.
    pub fn set_instructions(self, instructions: String) -> (r: Self)
        ensures
            r.spec_instructions() == Some(Some(instructions)),
            r.spec_model() == self.spec_model(),
            r.spec_approval_policy() == self.spec_approval_policy(),
            r.spec_sandbox_mode() == self.spec_sandbox_mode(),
            r.spec_model_reasoning_effort() == self.spec_model_reasoning_effort(),
            r.spec_model_reasoning_summary() == self.spec_model_reasoning_summary(),
            r.spec_model_verbosity() == self.spec_model_verbosity(),
            r.spec_personality() == self.spec_personality(),
            r.spec_service_tier() == self.spec_service_tier(),
            r.spec_developer_instructions() == self.spec_developer_instructions(),
            r.spec_web_search() == self.spec_web_search(),
            r.spec_updates() == self.spec_updates(),
    {
        let mut e = self;
        e.instructions = Some(Some(instructions));
        e
    }

    /// Sets `developer_instructions`.
    pub fn set_developer_instructions(self, instructions: String) -> (r: Self)
        ensures
            r.spec_developer_instructions() == Some(Some(instructions)),
            r.spec_model() == self.spec_model(),
            r.spec_approval_policy() == self.spec_approval_policy(),
            r.spec_sandbox_mode() == self.spec_sandbox_mode(),
            r.spec_model_reasoning_effort() == self.spec_model_reasoning_effort(),
            r.spec_model_reasoning_summary() == self.spec_model_reasoning_summary(),
            r.spec_model_verbosity() == self.spec_model_verbosity(),
            r.spec_personality() == self.spec_personality(),
            r.spec_service_tier() == self.spec_service_tier(),
            r.spec_instructions() == self.spec_instructions(),
            r.spec_web_search() == self.spec_web_search(),
            r.spec_updates() == self.spec_updates(),
    {
        let mut e = self;
        e.developer_instructions = Some(Some(instructions));
        e
    }

    /// Sets `web_search`.
    pub fn set_web_search(self, mode: WebSearchMode) -> (r: Self)
        ensures
            r.spec_web_search() == Some(Some(mode)),
            r.spec_model() == self.spec_model(),
            r.spec_approval_policy() == self.spec_approval_policy(),
            r.spec_sandbox_mode() == self.spec_sandbox_mode(),
            r.spec_model_reasoning_effort() == self.spec_model_reasoning_effort(),
            r.spec_model_reasoning_summary() == self.spec_model_reasoning_summary(),
            r.spec_model_verbosity() == self.spec_model_verbosity(),
            r.spec_personality() == self.spec_personality(),
            r.spec_service_tier() == self.spec_service_tier(),
            r.spec_instructions() == self.spec_instructions(),
            r.spec_developer_instructions() == self.spec_developer_instructions(),
            r.spec_updates() == self.spec_updates(),
    {
        let mut e = self;
        e.web_search = Some(Some(mode));
        e
    }

    /// Removes the model setting.
    pub fn clear_model(self) -> (r: Self)
        ensures
            r.spec_model() == Some(None::<String>),
            r.spec_approval_policy() == self.spec_approval_policy(),
            r.spec_sandbox_mode() == self.spec_sandbox_mode(),
            r.spec_model_reasoning_effort() == self.spec_model_reasoning_effort(),
            r.spec_model_reasoning_summary() == self.spec_model_reasoning_summary(),
            r.spec_model_verbosity() == self.spec_model_verbosity(),
            r.spec_personality() == self.spec_personality(),
            r.spec_service_tier() == self.spec_service_tier(),
            r.spec_instructions() == self.spec_instructions(),
            r.spec_developer_instructions() == self.spec_developer_instructions(),
            r.spec_web_search() == self.spec_web_search(),
            r.spec_updates() == self.spec_updates(),
    {
        let mut e = self;
        e.model = Some(None);
        e
    }

    /// Adds or replaces a server.
    pub fn set_mcp_server(self, name: String, config: McpServerConfig) -> (r: Self)
        ensures
            r.spec_updates() == self.spec_updates().insert(name@, McpServerUpdate::Put(config)),
            r.spec_model() == self.spec_model(),
            r.spec_approval_policy() == self.spec_approval_policy(),
            r.spec_sandbox_mode() == self.spec_sandbox_mode(),
            r.spec_model_reasoning_effort() == self.spec_model_reasoning_effort(),
            r.spec_model_reasoning_summary() == self.spec_model_reasoning_summary(),
            r.spec_model_verbosity() == self.spec_model_verbosity(),
            r.spec_personality() == self.spec_personality(),
            r.spec_service_tier() == self.spec_service_tier(),
            r.spec_instructions() == self.spec_instructions(),
            r.spec_developer_instructions() == self.spec_developer_instructions(),
            r.spec_web_search() == self.spec_web_search(),
    {
        let mut e = self;
        e.mcp_server_updates.insert(name, McpServerUpdate::Put(config));
        e
    }

    /// Removes a server.
    pub fn remove_mcp_server(self, name: String) -> (r: Self)
        ensures
            r.spec_updates() == self.spec_updates().insert(name@, McpServerUpdate::Remove),
            r.spec_model() == self.spec_model(),
            r.spec_approval_policy() == self.spec_approval_policy(),
            r.spec_sandbox_mode() == self.spec_sandbox_mode(),
            r.spec_model_reasoning_effort() == self.spec_model_reasoning_effort(),
            r.spec_model_reasoning_summary() == self.spec_model_reasoning_summary(),
            r.spec_model_verbosity() == self.spec_model_verbosity(),
            r.spec_personality() == self.spec_personality(),
            r.spec_service_tier() == self.spec_service_tier(),
            r.spec_instructions() == self.spec_instructions(),
            r.spec_developer_instructions() == self.spec_developer_instructions(),
            r.spec_web_search() == self.spec_web_search(),
    {
        let mut e = self;
        e.mcp_server_updates.insert(name, McpServerUpdate::Remove);
        e
    }

    /// Applies the edits to `settings`.
    pub fn apply(self, settings: &mut EditableSettings)
        ensures
            final(settings).model == edited(old(settings).model, self.spec_model()),
            final(settings).approval_policy == edited(old(settings).approval_policy, self.spec_approval_policy()),
            final(settings).sandbox_mode == edited(old(settings).sandbox_mode, self.spec_sandbox_mode()),
            final(settings).model_reasoning_effort == edited(old(settings).model_reasoning_effort, self.spec_model_reasoning_effort()),
            final(settings).model_reasoning_summary == edited(old(settings).model_reasoning_summary, self.spec_model_reasoning_summary()),
            final(settings).model_verbosity == edited(old(settings).model_verbosity, self.spec_model_verbosity()),
            final(settings).personality == edited(old(settings).personality, self.spec_personality()),
            final(settings).service_tier == edited(old(settings).service_tier, self.spec_service_tier()),
            final(settings).instructions == edited(old(settings).instructions, self.spec_instructions()),
            final(settings).developer_instructions == edited(old(settings).developer_instructions, self.spec_developer_instructions()),
            final(settings).web_search == edited(old(settings).web_search, self.spec_web_search()),
            final(settings).mcp_servers.to_map() == servers_after(
                old(settings).mcp_servers.to_map(),
                self.spec_updates(),
            ),
    {
        let ghost updates = self.spec_updates();
        let ghost start = settings.mcp_servers.to_map();
        let ConfigEdit {
            model,
            approval_policy,
            sandbox_mode,
            model_reasoning_effort,
            model_reasoning_summary,
            model_verbosity,
            personality,
            service_tier,
            instructions,
            developer_instructions,
            web_search,
            mcp_server_updates,
        } = self;
        if let Some(v) = model {
            settings.model = v;
        }
        if let Some(v) = approval_policy {
            settings.approval_policy = v;
        }
        if let Some(v) = sandbox_mode {
            settings.sandbox_mode = v;
        }
        if let Some(v) = model_reasoning_effort {
            settings.model_reasoning_effort = v;
        }
        if let Some(v) = model_reasoning_summary {
            settings.model_reasoning_summary = v;
        }
        if let Some(v) = model_verbosity {
            settings.model_verbosity = v;
        }
        if let Some(v) = personality {
            settings.personality = v;
        }
        if let Some(v) = service_tier {
            settings.service_tier = v;
        }
        if let Some(v) = instructions {
            settings.instructions = v;
        }
        if let Some(v) = developer_instructions {
            settings.developer_instructions = v;
        }
        if let Some(v) = web_search {
            settings.web_search = v;
        }
        let mut servers: StrMap<McpServerConfig> = StrMap::new();
        std::mem::swap(&mut servers, &mut settings.mcp_servers);
        let mut left = mcp_server_updates;
        assert(updates.remove_keys(left.to_map().dom()) =~= Map::empty());
        assert(servers_after(start, Map::empty()) =~= start);
        while !left.is_empty()
            invariant
                forall|k: Seq<char>| #[trigger] left.to_map().contains_key(k) ==> updates.contains_key(k)
                    && left.to_map()[k] == updates[k],
                servers.to_map() == servers_after(
                    start,
                    updates.remove_keys(left.to_map().dom()),
                ),
            decreases left.keys().len(),
        {
            let ghost before = left.to_map();
            let ghost done = updates.remove_keys(before.dom());
            match left.pop_first() {
                Some((name, update)) => {
                    let ghost k = name@;
                    proof {
                        lemma_servers_after_step(start, done, k, update);
                        assert(updates.remove_keys(left.to_map().dom()) =~= done.insert(k, update));
                    }
                    match update {
                        McpServerUpdate::Put(config) => {
                            servers.insert(name, config);
                        },
                        McpServerUpdate::Remove => {
                            servers.remove(name.as_str());
                        },
                    }
                },
                None => {},
            }
        }
        let _ = left.sorted();
        proof {
            left.lemma_view();
        }
        assert(updates.remove_keys(left.to_map().dom()) =~= updates);
        settings.mcp_servers = servers;
    }
}

/// An edit that changes nothing leaves a setting and the servers as they were;
/// a server that an edit puts is there afterwards with its new configuration,
/// and one that it removes is gone.
pub proof fn law_edit_outcome<T>(
    value: Option<T>,
    servers: Map<Seq<char>, McpServerConfig>,
    updates: Map<Seq<char>, McpServerUpdate>,
    name: Seq<char>,
)
    ensures
        edited(value, None::<Option<T>>) == value,
        servers_after(servers, Map::<Seq<char>, McpServerUpdate>::empty()) == servers,
        updates.contains_key(name) ==> match updates[name] {
            McpServerUpdate::Put(c) => servers_after(servers, updates).contains_key(name)
                && servers_after(servers, updates)[name] == c,
            McpServerUpdate::Remove => !servers_after(servers, updates).contains_key(name),
        },
{
    assert(servers_after(servers, Map::<Seq<char>, McpServerUpdate>::empty()) =~= servers);
}

/// One more update: the servers change by that update alone.
pub proof fn lemma_servers_after_step(
    servers: Map<Seq<char>, McpServerConfig>,
    updates: Map<Seq<char>, McpServerUpdate>,
    name: Seq<char>,
    update: McpServerUpdate,
)
    ensures
        servers_after(servers, updates.insert(name, update)) == match update {
            McpServerUpdate::Put(c) => servers_after(servers, updates).insert(name, c),
            McpServerUpdate::Remove => servers_after(servers, updates).remove(name),
        },
{
    match update {
        McpServerUpdate::Put(c) => {
            assert(servers_after(servers, updates.insert(name, update)) =~= servers_after(
                servers,
                updates,
            ).insert(name, c));
        },
        McpServerUpdate::Remove => {
            assert(servers_after(servers, updates.insert(name, update)) =~= servers_after(
                servers,
                updates,
            ).remove(name));
        },
    }
}

} // verus!
