//! Requirements that restrict which configuration values are allowed.
use vstd::prelude::*;

use crate::config::constraint::{
    list_debug,
    Constrained, ConstraintError, ConstraintValue, RequirementSource, Validator, list_contains,
    list_contains_exec,
};
use crate::protocol::{AskForApproval, SandboxMode, WebSearchMode};
use crate::strmap::StrMap;
use crate::text::{extend_chars, extend_str, to_chars};

verus! {

// ── Values that can be constrained ───────────────────────────────

impl ConstraintValue for AskForApproval {
    open spec fn debug_spec(self) -> Seq<char> {
        crate::protocol::approval_debug(self)
    }

    open spec fn rank(self) -> int {
        match self {
            AskForApproval::UnlessTrusted => 0,
            AskForApproval::OnFailure => 1,
            AskForApproval::OnRequest => 2,
            AskForApproval::Reject(_) => 3,
            AskForApproval::Never => 4,
        }
    }

    fn debug_repr(&self) -> (r: Vec<char>) {
        crate::protocol::approval_debug_exec(self)
    }

    fn same(&self, other: &Self) -> (r: bool) {
        *self == *other
    }

    fn rank_le(&self, other: &Self) -> (r: bool) {
        approval_rank(self) <= approval_rank(other)
    }
}

fn approval_rank(a: &AskForApproval) -> (r: u8)
    ensures
        r as int == a.rank(),
{
    match a {
        AskForApproval::UnlessTrusted => 0,
        AskForApproval::OnFailure => 1,
        AskForApproval::OnRequest => 2,
        AskForApproval::Reject(_) => 3,
        AskForApproval::Never => 4,
    }
}

impl Default for AskForApproval {
    fn default() -> (r: Self)
        ensures
            r == AskForApproval::OnRequest,
    {
        AskForApproval::OnRequest
    }
}

/// `Debug` rendering of a sandbox mode.
pub open spec fn sandbox_mode_debug(m: SandboxMode) -> Seq<char> {
    match m {
        SandboxMode::ReadOnly => "ReadOnly"@,
        SandboxMode::WorkspaceWrite => "WorkspaceWrite"@,
        SandboxMode::DangerFullAccess => "DangerFullAccess"@,
    }
}

impl ConstraintValue for SandboxMode {
    open spec fn debug_spec(self) -> Seq<char> {
        sandbox_mode_debug(self)
    }

    open spec fn rank(self) -> int {
        match self {
            SandboxMode::ReadOnly => 0,
            SandboxMode::WorkspaceWrite => 1,
            SandboxMode::DangerFullAccess => 2,
        }
    }

    fn debug_repr(&self) -> (r: Vec<char>) {
        match self {
            SandboxMode::ReadOnly => to_chars("ReadOnly"),
            SandboxMode::WorkspaceWrite => to_chars("WorkspaceWrite"),
            SandboxMode::DangerFullAccess => to_chars("DangerFullAccess"),
        }
    }

    fn same(&self, other: &Self) -> (r: bool) {
        *self == *other
    }

    fn rank_le(&self, other: &Self) -> (r: bool) {
        let a: u8 = match self {
            SandboxMode::ReadOnly => 0,
            SandboxMode::WorkspaceWrite => 1,
            SandboxMode::DangerFullAccess => 2,
        };
        let b: u8 = match other {
            SandboxMode::ReadOnly => 0,
            SandboxMode::WorkspaceWrite => 1,
            SandboxMode::DangerFullAccess => 2,
        };
        a <= b
    }
}

/// `Debug` rendering of a web search mode.
pub open spec fn web_search_debug(m: WebSearchMode) -> Seq<char> {
    match m {
        WebSearchMode::Disabled => "Disabled"@,
        WebSearchMode::Cached => "Cached"@,
        WebSearchMode::Live => "Live"@,
    }
}

impl ConstraintValue for WebSearchMode {
    open spec fn debug_spec(self) -> Seq<char> {
        web_search_debug(self)
    }

    open spec fn rank(self) -> int {
        match self {
            WebSearchMode::Disabled => 0,
            WebSearchMode::Cached => 1,
            WebSearchMode::Live => 2,
        }
    }

    fn debug_repr(&self) -> (r: Vec<char>) {
        match self {
            WebSearchMode::Disabled => to_chars("Disabled"),
            WebSearchMode::Cached => to_chars("Cached"),
            WebSearchMode::Live => to_chars("Live"),
        }
    }

    fn same(&self, other: &Self) -> (r: bool) {
        *self == *other
    }

    fn rank_le(&self, other: &Self) -> (r: bool) {
        let a: u8 = match self {
            WebSearchMode::Disabled => 0,
            WebSearchMode::Cached => 1,
            WebSearchMode::Live => 2,
        };
        let b: u8 = match other {
            WebSearchMode::Disabled => 0,
            WebSearchMode::Cached => 1,
            WebSearchMode::Live => 2,
        };
        a <= b
    }
}

/// A data residency requirement.
#[derive(Debug, Clone, Copy, PartialEq, Eq, Structural)]
pub enum ResidencyRequirement {
    Us,
}

impl ConstraintValue for Option<ResidencyRequirement> {
    open spec fn debug_spec(self) -> Seq<char> {
        match self {
            Some(_) => "Some(Us)"@,
            None => "None"@,
        }
    }

    open spec fn rank(self) -> int {
        match self {
            Some(_) => 1,
            None => 0,
        }
    }

    fn debug_repr(&self) -> (r: Vec<char>) {
        match self {
            Some(_) => to_chars("Some(Us)"),
            None => to_chars("None"),
        }
    }

    fn same(&self, other: &Self) -> (r: bool) {
        match (self, other) {
            (Some(a), Some(b)) => *a == *b,
            (None, None) => true,
            _ => false,
        }
    }

    fn rank_le(&self, other: &Self) -> (r: bool) {
        self.is_none() || other.is_some()
    }
}

// ── Requirement kinds ────────────────────────────────────────────

/// A sandbox mode as named in requirements.
#[derive(Debug, Clone, Copy, PartialEq, Eq, Structural)]
pub enum SandboxModeRequirement {
    ReadOnly,
    WorkspaceWrite,
    DangerFullAccess,
}

/// The sandbox mode a requirement names.
pub open spec fn sandbox_requirement_mode(r: SandboxModeRequirement) -> SandboxMode {
    match r {
        SandboxModeRequirement::ReadOnly => SandboxMode::ReadOnly,
        SandboxModeRequirement::WorkspaceWrite => SandboxMode::WorkspaceWrite,
        SandboxModeRequirement::DangerFullAccess => SandboxMode::DangerFullAccess,
    }
}

impl SandboxModeRequirement {
    /// The requirement naming a sandbox mode.
    pub fn from_mode(mode: SandboxMode) -> (r: Self)
        ensures
            sandbox_requirement_mode(r) == mode,
    {
        match mode {
            SandboxMode::ReadOnly => SandboxModeRequirement::ReadOnly,
            SandboxMode::WorkspaceWrite => SandboxModeRequirement::WorkspaceWrite,
            SandboxMode::DangerFullAccess => SandboxModeRequirement::DangerFullAccess,
        }
    }

    /// The sandbox mode this requirement names.
    pub fn to_mode(self) -> (r: SandboxMode)
        ensures
            r == sandbox_requirement_mode(self),
    {
        match self {
            SandboxModeRequirement::ReadOnly => SandboxMode::ReadOnly,
            SandboxModeRequirement::WorkspaceWrite => SandboxMode::WorkspaceWrite,
            SandboxModeRequirement::DangerFullAccess => SandboxMode::DangerFullAccess,
        }
    }
}

/// A web search mode as named in requirements.
#[derive(Debug, Clone, Copy, PartialEq, Eq, Structural)]
pub enum WebSearchModeRequirement {
    Disabled,
    Cached,
    Live,
}

/// The web search mode a requirement names.
pub open spec fn web_requirement_mode(r: WebSearchModeRequirement) -> WebSearchMode {
    match r {
        WebSearchModeRequirement::Disabled => WebSearchMode::Disabled,
        WebSearchModeRequirement::Cached => WebSearchMode::Cached,
        WebSearchModeRequirement::Live => WebSearchMode::Live,
    }
}

impl WebSearchModeRequirement {
    /// The requirement naming a web search mode.
    pub fn from_mode(mode: WebSearchMode) -> (r: Self)
        ensures
            web_requirement_mode(r) == mode,
    {
        match mode {
            WebSearchMode::Disabled => WebSearchModeRequirement::Disabled,
            WebSearchMode::Cached => WebSearchModeRequirement::Cached,
            WebSearchMode::Live => WebSearchModeRequirement::Live,
        }
    }

    /// The web search mode this requirement names.
    pub fn to_mode(self) -> (r: WebSearchMode)
        ensures
            r == web_requirement_mode(self),
    {
        match self {
            WebSearchModeRequirement::Disabled => WebSearchMode::Disabled,
            WebSearchModeRequirement::Cached => WebSearchMode::Cached,
            WebSearchModeRequirement::Live => WebSearchMode::Live,
        }
    }
}

/// How a required MCP server is identified.
#[derive(Debug, Clone, PartialEq, Eq)]
pub enum McpServerIdentity {
    Command { command: String },
    Url { url: String },
}

/// An MCP server that requirements name.
#[derive(Debug, Clone, PartialEq, Eq)]
pub struct McpServerRequirement {
    pub identity: McpServerIdentity,
}

/// Network restrictions in effect.
#[derive(Debug, Clone, PartialEq, Eq, Default)]
pub struct NetworkConstraints {
    pub enabled: Option<bool>,
    pub allowed_domains: Option<Vec<String>>,
    pub denied_domains: Option<Vec<String>>,
    pub allow_local_binding: Option<bool>,
}

/// Network restrictions as written in requirements.
#[derive(Debug, Clone, PartialEq, Eq, Default)]
pub struct NetworkRequirementsToml {
    pub enabled: Option<bool>,
    pub allowed_domains: Option<Vec<String>>,
    pub denied_domains: Option<Vec<String>>,
    pub allow_local_binding: Option<bool>,
}

impl NetworkConstraints {
    /// The constraints that a requirements table states.
    pub fn from_toml(v: NetworkRequirementsToml) -> (r: Self)
        ensures
            r.enabled == v.enabled,
            r.allowed_domains == v.allowed_domains,
            r.denied_domains == v.denied_domains,
            r.allow_local_binding == v.allow_local_binding,
    {
        NetworkConstraints {
            enabled: v.enabled,
            allowed_domains: v.allowed_domains,
            denied_domains: v.denied_domains,
            allow_local_binding: v.allow_local_binding,
        }
    }
}

/// Raw requirements, as read from `requirements.toml` or the cloud.
#[derive(Debug)]
pub struct ConfigRequirementsToml {
    pub allowed_approval_policies: Option<Vec<AskForApproval>>,
    pub allowed_sandbox_modes: Option<Vec<SandboxModeRequirement>>,
    pub allowed_web_search_modes: Option<Vec<WebSearchModeRequirement>>,
    pub mcp_servers: Option<StrMap<McpServerRequirement>>,
    pub enforce_residency: Option<ResidencyRequirement>,
    pub network: Option<NetworkRequirementsToml>,
}

impl ConfigRequirementsToml {
    /// Requirements that restrict nothing.
    pub fn empty() -> (r: Self)
        ensures
            r.is_empty_spec(),
    {
        ConfigRequirementsToml {
            allowed_approval_policies: None,
            allowed_sandbox_modes: None,
            allowed_web_search_modes: None,
            mcp_servers: None,
            enforce_residency: None,
            network: None,
        }
    }

    /// No field is set.
    pub open spec fn is_empty_spec(&self) -> bool {
        &&& self.allowed_approval_policies is None
        &&& self.allowed_sandbox_modes is None
        &&& self.allowed_web_search_modes is None
        &&& self.mcp_servers is None
        &&& self.enforce_residency is None
        &&& self.network is None
    }

    /// No field is set.
    pub fn is_empty(&self) -> (r: bool)
        ensures
            r == self.is_empty_spec(),
    {
        self.allowed_approval_policies.is_none() && self.allowed_sandbox_modes.is_none()
            && self.allowed_web_search_modes.is_none() && self.mcp_servers.is_none()
            && self.enforce_residency.is_none() && self.network.is_none()
    }
}

impl Default for ConfigRequirementsToml {
    fn default() -> (r: Self)
        ensures
            r.is_empty_spec(),
    {
        Self::empty()
    }
}

/// A constrained value paired with the source of its requirement.
#[derive(Debug)]
pub struct ConstrainedWithSource<T: ConstraintValue> {
    pub value: Constrained<T>,
    pub source: Option<RequirementSource>,
}

impl<T: ConstraintValue> ConstrainedWithSource<T> {
    /// Pairs a constrained value with its source.
    pub fn new(value: Constrained<T>, source: Option<RequirementSource>) -> (r: Self)
        ensures
            r.value == value,
            r.source == source,
    {
        ConstrainedWithSource { value, source }
    }
}

/// A value paired with the source of its requirement.
#[derive(Debug, Clone, PartialEq)]
pub struct Sourced<T> {
    pub value: T,
    pub source: RequirementSource,
}

impl<T> Sourced<T> {
    /// Pairs a value with its source.
    pub fn new(value: T, source: RequirementSource) -> (r: Self)
        ensures
            r.value == value,
            r.source == source,
    {
        Sourced { value, source }
    }
}

/// Normalized requirements, ready to enforce.
#[derive(Debug)]
pub struct ConfigRequirements {
    pub approval_policy: ConstrainedWithSource<AskForApproval>,
    pub sandbox_mode: ConstrainedWithSource<SandboxMode>,
    pub web_search_mode: ConstrainedWithSource<WebSearchMode>,
    pub mcp_servers: Option<Sourced<StrMap<McpServerRequirement>>>,
    pub enforce_residency: ConstrainedWithSource<Option<ResidencyRequirement>>,
    pub network: Option<Sourced<NetworkConstraints>>,
}

/// The starting web search mode for an allowed list: cached if allowed, else live
/// if allowed, else disabled.
pub open spec fn initial_web_search(modes: Seq<WebSearchModeRequirement>) -> WebSearchMode {
    if list_contains(modes, WebSearchModeRequirement::Cached) {
        WebSearchMode::Cached
    } else if list_contains(modes, WebSearchModeRequirement::Live) {
        WebSearchMode::Live
    } else {
        WebSearchMode::Disabled
    }
}

/// The constraint is `OneOf` with this field name, these values and an unknown source.
pub open spec fn is_one_of<T: ConstraintValue>(c: Constrained<T>, field: Seq<char>, allowed: Seq<T>) -> bool {
    c.spec_validator() matches Validator::OneOf { field_name, allowed: a, source } && field_name@
        == field && a@ == allowed && source == RequirementSource::Unknown
}

/// The constraint accepts anything and has no normalizer.
pub open spec fn is_unrestricted<T: ConstraintValue>(c: Constrained<T>) -> bool {
    c.spec_validator() == Validator::<T>::Any && c.spec_normalizer() is None
}

/// Sandbox modes named by a list of requirements.
pub open spec fn sandbox_modes_of(v: Seq<SandboxModeRequirement>) -> Seq<SandboxMode> {
    Seq::new(v.len(), |i: int| sandbox_requirement_mode(v[i]))
}

/// Web search modes named by a list of requirements.
pub open spec fn web_modes_of(v: Seq<WebSearchModeRequirement>) -> Seq<WebSearchMode> {
    Seq::new(v.len(), |i: int| web_requirement_mode(v[i]))
}

/// Requirements that allow everything: on-request approval, read-only sandbox,
/// cached web search, no residency.
pub open spec fn is_default_requirements(r: ConfigRequirements) -> bool {
    &&& is_unrestricted(r.approval_policy.value)
    &&& r.approval_policy.source is None
    &&& is_unrestricted(r.sandbox_mode.value) && r.sandbox_mode.value.spec_value()
        == SandboxMode::ReadOnly && r.sandbox_mode.source is None
    &&& is_unrestricted(r.web_search_mode.value) && r.web_search_mode.value.spec_value()
        == WebSearchMode::Cached && r.web_search_mode.source is None
    &&& r.mcp_servers is None
    &&& is_unrestricted(r.enforce_residency.value) && r.enforce_residency.value.spec_value() is None
        && r.enforce_residency.source is None
    &&& r.network is None
}

/// The outcome is the empty-field error for `name`.
pub open spec fn empty_field_error<T>(r: Result<T, ConstraintError>, name: Seq<char>) -> bool {
    match r {
        Err(ConstraintError::EmptyField { field_name }) => field_name@ == name,
        _ => false,
    }
}

/// The outcome is an invalid-value error for `field` from an unknown source.
pub open spec fn invalid_value_error<T>(r: Result<T, ConstraintError>, field: Seq<char>) -> bool {
    match r {
        Err(ConstraintError::InvalidValue { field_name, requirement_source, .. }) => field_name@ == field
            && requirement_source == RequirementSource::Unknown,
        _ => false,
    }
}

/// Normalization refuses these requirements: an empty approval list, a sandbox
/// list without read-only, or a web search list without its starting mode.
pub open spec fn requirements_rejected(toml: ConfigRequirementsToml) -> bool {
    ||| toml.allowed_approval_policies matches Some(p) && p@.len() == 0
    ||| toml.allowed_sandbox_modes matches Some(m) && !list_contains(
        sandbox_modes_of(m@),
        SandboxMode::ReadOnly,
    )
    ||| toml.allowed_web_search_modes matches Some(w) && !list_contains(
        web_modes_of(w@),
        initial_web_search(w@),
    )
}

/// The error that normalization reports for refused requirements: the first
/// refused rule, in the order approval, sandbox, web search.
pub open spec fn requirements_error_is(toml: ConfigRequirementsToml, e: ConstraintError) -> bool {
    if toml.allowed_approval_policies matches Some(p) && p@.len() == 0 {
        e matches ConstraintError::EmptyField { field_name } && field_name@
            == "allowed_approval_policies"@
    } else if toml.allowed_sandbox_modes matches Some(m) && !list_contains(
        sandbox_modes_of(m@),
        SandboxMode::ReadOnly,
    ) {
        invalid_value_is(e, "sandbox_mode"@, "ReadOnly"@, list_debug(sandbox_modes_of(toml.allowed_sandbox_modes.unwrap()@)))
    } else {
        match toml.allowed_web_search_modes {
            Some(w) => invalid_value_is(
                e,
                "web_search"@,
                web_search_debug(initial_web_search(w@)),
                list_debug(web_modes_of(w@)),
            ),
            None => false,
        }
    }
}

/// `e` refuses `candidate` for `field`, listing `allowed`, set by an unknown source.
pub open spec fn invalid_value_is(e: ConstraintError, field: Seq<char>, candidate: Seq<char>, allowed: Seq<char>) -> bool {
    match e {
        ConstraintError::InvalidValue { field_name, candidate: c, allowed: a, requirement_source } =>
            field_name@ == field && c@ == candidate && a@ == allowed && requirement_source
            == RequirementSource::Unknown,
        _ => false,
    }
}

/// The constraints that accepted requirements normalize to.
pub open spec fn requirements_normalized(toml: ConfigRequirementsToml, req: ConfigRequirements) -> bool {
    &&& match toml.allowed_approval_policies {
        Some(p) => is_one_of(req.approval_policy.value, "approval_policy"@, p@)
            && req.approval_policy.value.spec_value() == p@[0] && req.approval_policy.source
            == Some(RequirementSource::Unknown),
        None => is_unrestricted(req.approval_policy.value)
            && req.approval_policy.value.spec_value() == AskForApproval::OnRequest
            && req.approval_policy.source is None,
    }
    &&& match toml.allowed_sandbox_modes {
        Some(m) => is_one_of(req.sandbox_mode.value, "sandbox_mode"@, sandbox_modes_of(m@))
            && req.sandbox_mode.source == Some(RequirementSource::Unknown),
        None => is_unrestricted(req.sandbox_mode.value) && req.sandbox_mode.source is None,
    }
    &&& req.sandbox_mode.value.spec_value() == SandboxMode::ReadOnly
    &&& match toml.allowed_web_search_modes {
        Some(w) => is_one_of(req.web_search_mode.value, "web_search"@, web_modes_of(w@))
            && req.web_search_mode.value.spec_value() == initial_web_search(w@)
            && req.web_search_mode.source == Some(RequirementSource::Unknown),
        None => is_unrestricted(req.web_search_mode.value) && req.web_search_mode.value.spec_value()
            == WebSearchMode::Cached && req.web_search_mode.source is None,
    }
    &&& match toml.network {
        Some(n) => req.network matches Some(s) && s.source == RequirementSource::Unknown
            && s.value.enabled == n.enabled && s.value.allowed_domains == n.allowed_domains
            && s.value.denied_domains == n.denied_domains && s.value.allow_local_binding
            == n.allow_local_binding,
        None => req.network is None,
    }
    &&& match toml.mcp_servers {
        Some(m) => req.mcp_servers matches Some(s) && s.value == m && s.source
            == RequirementSource::Unknown,
        None => req.mcp_servers is None,
    }
    &&& match toml.enforce_residency {
        Some(x) => req.enforce_residency.value.spec_validator() == Validator::Only(Some(x))
            && req.enforce_residency.value.spec_value() == Some(x) && req.enforce_residency.source
            == Some(RequirementSource::Unknown),
        None => is_unrestricted(req.enforce_residency.value)
            && req.enforce_residency.value.spec_value() is None && req.enforce_residency.source
            is None,
    }
}

impl ConfigRequirements {
    /// Requirements that restrict nothing.
    pub fn default_requirements() -> (r: Self)
        ensures
            is_default_requirements(r),
            r.approval_policy.value.spec_value() == AskForApproval::OnRequest,
    {
        ConfigRequirements {
            approval_policy: ConstrainedWithSource::new(
                Constrained::allow_any(AskForApproval::OnRequest),
                None,
            ),
            sandbox_mode: ConstrainedWithSource::new(Constrained::allow_any(SandboxMode::ReadOnly), None),
            web_search_mode: ConstrainedWithSource::new(
                Constrained::allow_any(WebSearchMode::Cached),
                None,
            ),
            mcp_servers: None,
            enforce_residency: ConstrainedWithSource::new(Constrained::allow_any(None), None),
            network: None,
        }
    }

    /// Normalizes raw requirements into enforceable constraints.
    ///
    /// An empty approval list is refused; a sandbox list without read-only, or a
    /// web search list that does not contain its starting mode, is refused with the
    /// rule's error for that starting value.
    pub fn try_from(toml: ConfigRequirementsToml) -> (r: Result<Self, ConstraintError>)
        ensures
            r is Err <==> requirements_rejected(toml),
            r matches Err(e) ==> requirements_error_is(toml, e),
            r matches Ok(req) ==> requirements_normalized(toml, req),
    {
        let ConfigRequirementsToml {
            allowed_approval_policies,
            allowed_sandbox_modes,
            allowed_web_search_modes,
            mcp_servers,
            enforce_residency,
            network,
        } = toml;
        let approval_policy = match allowed_approval_policies {
            Some(policies) => {
                if policies.len() == 0 {
                    return Err(ConstraintError::empty_field("allowed_approval_policies".to_owned()));
                }
                let first = policies[0];
                let ghost pv = policies@;
                let validator = Validator::OneOf {
                    field_name: "approval_policy".to_owned(),
                    allowed: policies,
                    source: RequirementSource::Unknown,
                };
                assert(list_contains(pv, first));
                let constrained = match Constrained::new(first, validator) {
                    Ok(c) => c,
                    Err(e) => return Err(e),
                };
                ConstrainedWithSource::new(constrained, Some(RequirementSource::Unknown))
            },
            None => ConstrainedWithSource::new(Constrained::allow_any(AskForApproval::OnRequest), None),
        };
        let sandbox_mode = match allowed_sandbox_modes {
            Some(modes) => {
                let mut allowed: Vec<SandboxMode> = Vec::new();
                let mut i: usize = 0;
                while i < modes.len()
                    invariant
                        i <= modes.len(),
                        allowed@ == sandbox_modes_of(modes@.take(i as int)),
                    decreases modes.len() - i,
                {
                    allowed.push(modes[i].to_mode());
                    i = i + 1;
                    assert(allowed@ =~= sandbox_modes_of(modes@.take(i as int)));
                }
                assert(modes@.take(modes.len() as int) =~= modes@);
                let validator = Validator::OneOf {
                    field_name: "sandbox_mode".to_owned(),
                    allowed,
                    source: RequirementSource::Unknown,
                };
                let constrained = match Constrained::new(SandboxMode::ReadOnly, validator) {
                    Ok(c) => c,
                    Err(e) => return Err(e),
                };
                ConstrainedWithSource::new(constrained, Some(RequirementSource::Unknown))
            },
            None => ConstrainedWithSource::new(Constrained::allow_any(SandboxMode::ReadOnly), None),
        };
        let web_search_mode = match allowed_web_search_modes {
            Some(modes) => {
                let mut allowed: Vec<WebSearchMode> = Vec::new();
                let mut i: usize = 0;
                while i < modes.len()
                    invariant
                        i <= modes.len(),
                        allowed@ == web_modes_of(modes@.take(i as int)),
                    decreases modes.len() - i,
                {
                    allowed.push(modes[i].to_mode());
                    i = i + 1;
                    assert(allowed@ =~= web_modes_of(modes@.take(i as int)));
                }
                assert(modes@.take(modes.len() as int) =~= modes@);
                let initial = if web_contains(&modes, WebSearchModeRequirement::Cached) {
                    WebSearchMode::Cached
                } else if web_contains(&modes, WebSearchModeRequirement::Live) {
                    WebSearchMode::Live
                } else {
                    WebSearchMode::Disabled
                };
                let validator = Validator::OneOf {
                    field_name: "web_search".to_owned(),
                    allowed,
                    source: RequirementSource::Unknown,
                };
                let constrained = match Constrained::new(initial, validator) {
                    Ok(c) => c,
                    Err(e) => return Err(e),
                };
                ConstrainedWithSource::new(constrained, Some(RequirementSource::Unknown))
            },
            None => ConstrainedWithSource::new(Constrained::allow_any(WebSearchMode::Cached), None),
        };
        let network = match network {
            Some(n) => Some(Sourced::new(NetworkConstraints::from_toml(n), RequirementSource::Unknown)),
            None => None,
        };
        let mcp_servers = match mcp_servers {
            Some(s) => Some(Sourced::new(s, RequirementSource::Unknown)),
            None => None,
        };
        let enforce_residency = match enforce_residency {
            Some(x) => ConstrainedWithSource::new(
                Constrained::allow_only(Some(x)),
                Some(RequirementSource::Unknown),
            ),
            None => ConstrainedWithSource::new(Constrained::allow_any(None), None),
        };
        Ok(ConfigRequirements {
            approval_policy,
            sandbox_mode,
            web_search_mode,
            mcp_servers,
            enforce_residency,
            network,
        })
    }
}

/// Membership of a web search requirement in a list.
fn web_contains(v: &Vec<WebSearchModeRequirement>, x: WebSearchModeRequirement) -> (r: bool)
    ensures
        r == list_contains(v@, x),
{
    let mut i: usize = 0;
    while i < v.len()
        invariant
            i <= v.len(),
            forall|k: int| 0 <= k < i ==> v@[k] != x,
        decreases v.len() - i,
    {
        if v[i] == x {
            return true;
        }
        i = i + 1;
    }
    false
}

} // verus!
