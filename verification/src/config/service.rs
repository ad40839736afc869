//! Loading of configuration requirements from their layers.
use vstd::prelude::*;

use crate::config::constraint::{ConstraintError, constraint_error_message};
use crate::config::requirements::{
    initial_web_search, ConfigRequirements, ConfigRequirementsToml, McpServerIdentity, McpServerRequirement,
    NetworkRequirementsToml, requirements_error_is, requirements_normalized, requirements_rejected,
};
use crate::protocol::{CodexError, ErrorCode};
use crate::strmap::{Duplicate, StrMap};
use crate::text::{extend_str, from_chars, to_chars};

verus! {

impl Duplicate for McpServerRequirement {
    fn duplicate(&self) -> (r: Self) {
        let identity = match &self.identity {
            McpServerIdentity::Command { command } => McpServerIdentity::Command { command: command.clone() },
            McpServerIdentity::Url { url } => McpServerIdentity::Url { url: url.clone() },
        };
        McpServerRequirement { identity }
    }
}

/// An optional list, copied item for item.
fn copy_opt_list<T: Copy>(v: &Option<Vec<T>>) -> (r: Option<Vec<T>>)
    ensures
        opt_list_same(r, *v),
{
    match v {
        Some(x) => {
            let mut y: Vec<T> = Vec::new();
            let mut i: usize = 0;
            while i < x.len()
                invariant
                    i <= x.len(),
                    y@ == x@.take(i as int),
                decreases x.len() - i,
            {
                y.push(x[i]);
                i = i + 1;
                assert(y@ =~= x@.take(i as int));
            }
            assert(x@.take(x.len() as int) =~= x@);
            Some(y)
        },
        None => None,
    }
}

/// An optional list of strings, copied.
fn copy_opt_strings(v: &Option<Vec<String>>) -> (r: Option<Vec<String>>)
    ensures
        opt_list_same(r, *v),
{
    match v {
        Some(x) => {
            let y = x.clone();
            assert(y@ =~= x@);
            Some(y)
        },
        None => None,
    }
}

/// A copy of network requirements.
fn copy_network(n: &NetworkRequirementsToml) -> (r: NetworkRequirementsToml)
    ensures
        network_same(r, *n),
{
    NetworkRequirementsToml {
        enabled: n.enabled,
        allowed_domains: copy_opt_strings(&n.allowed_domains),
        denied_domains: copy_opt_strings(&n.denied_domains),
        allow_local_binding: n.allow_local_binding,
    }
}

/// Two optional lists hold the same items in the same order.
pub open spec fn opt_list_same<T>(a: Option<Vec<T>>, b: Option<Vec<T>>) -> bool {
    match (a, b) {
        (Some(x), Some(y)) => x@ == y@,
        (None, None) => true,
        _ => false,
    }
}

/// Two network requirement tables state the same.
pub open spec fn network_same(a: NetworkRequirementsToml, b: NetworkRequirementsToml) -> bool {
    &&& a.enabled == b.enabled
    &&& opt_list_same(a.allowed_domains, b.allowed_domains)
    &&& opt_list_same(a.denied_domains, b.denied_domains)
    &&& a.allow_local_binding == b.allow_local_binding
}

/// Two optional network tables state the same.
pub open spec fn opt_network_same(a: Option<NetworkRequirementsToml>, b: Option<NetworkRequirementsToml>) -> bool {
    match (a, b) {
        (Some(x), Some(y)) => network_same(x, y),
        (None, None) => true,
        _ => false,
    }
}

/// Two optional server tables hold the same entries in the same order.
pub open spec fn opt_servers_same(
    a: Option<StrMap<McpServerRequirement>>,
    b: Option<StrMap<McpServerRequirement>>,
) -> bool {
    match (a, b) {
        (Some(x), Some(y)) => x.keys() == y.keys() && x.values() == y.values(),
        (None, None) => true,
        _ => false,
    }
}

/// `merged` holds, field by field, what `overlay` sets and otherwise what `base` holds.
pub open spec fn requirements_merged(
    base: ConfigRequirementsToml,
    overlay: ConfigRequirementsToml,
    merged: ConfigRequirementsToml,
) -> bool {
    &&& opt_list_same(
        merged.allowed_approval_policies,
        merged_field(base.allowed_approval_policies, overlay.allowed_approval_policies),
    )
    &&& opt_list_same(
        merged.allowed_sandbox_modes,
        merged_field(base.allowed_sandbox_modes, overlay.allowed_sandbox_modes),
    )
    &&& opt_list_same(
        merged.allowed_web_search_modes,
        merged_field(base.allowed_web_search_modes, overlay.allowed_web_search_modes),
    )
    &&& opt_servers_same(merged.mcp_servers, merged_field(base.mcp_servers, overlay.mcp_servers))
    &&& merged.enforce_residency == merged_field(base.enforce_residency, overlay.enforce_residency)
    &&& opt_network_same(merged.network, merged_field(base.network, overlay.network))
}

/// Requirements load field by field with the project layer over the user layer:
/// a list the project sets decides the starting value, and a list only the user
/// sets decides it when the project leaves it unset.
pub proof fn law_project_requirements_override_user(
    user: ConfigRequirementsToml,
    project: ConfigRequirementsToml,
    merged: ConfigRequirementsToml,
    req: ConfigRequirements,
)
    requires
        requirements_merged(user, project, merged),
        load_outcome(merged, Ok(req)),
    ensures
        project.allowed_web_search_modes matches Some(p) ==> req.web_search_mode.value.spec_value()
            == initial_web_search(p@),
        project.allowed_web_search_modes is None ==> (user.allowed_web_search_modes matches Some(u)
            ==> req.web_search_mode.value.spec_value() == initial_web_search(u@)),
        project.allowed_approval_policies matches Some(p) ==> (p@.len() > 0
            && req.approval_policy.value.spec_value() == p@[0]),
        project.allowed_approval_policies is None ==> (user.allowed_approval_policies matches Some(u)
            ==> (u@.len() > 0 && req.approval_policy.value.spec_value() == u@[0])),
{
}

/// A layer's requirements, or none at all where the layer is absent.
pub open spec fn layer_or_empty(layer: Option<ConfigRequirementsToml>) -> ConfigRequirementsToml {
    match layer {
        Some(t) => t,
        None => ConfigRequirementsToml {
            allowed_approval_policies: None,
            allowed_sandbox_modes: None,
            allowed_web_search_modes: None,
            mcp_servers: None,
            enforce_residency: None,
            network: None,
        },
    }
}

/// What loading reports for the merged requirements `m`.
pub open spec fn load_outcome(m: ConfigRequirementsToml, r: Result<ConfigRequirements, ConfigServiceError>) -> bool {
    match r {
        Ok(req) => !requirements_rejected(m) && requirements_normalized(m, req),
        Err(ConfigServiceError::Config(ce)) => {
            &&& requirements_rejected(m)
            &&& ce.code == ErrorCode::ConfigurationError
            &&& exists|e: ConstraintError|
                #![trigger normalize_failure_message(e)]
                requirements_error_is(m, e) && ce.message@ == normalize_failure_message(e)
        },
        Err(_) => false,
    }
}

/// Errors of the configuration service.
#[derive(Debug)]
pub enum ConfigServiceError {
    /// A file could not be read or written.
    Io { context: String, message: String },
    /// A file held invalid configuration.
    Config(CodexError),
}

/// Where configuration lives: the codex home directory.
#[derive(Debug, Clone)]
pub struct ConfigService {
    pub codex_home: String,
}

/// `base` after merging `overlay` into it: every field the overlay sets wins.
pub open spec fn merged_field<T>(base: Option<T>, overlay: Option<T>) -> Option<T> {
    match overlay {
        Some(v) => Some(v),
        None => base,
    }
}

/// Merges `overlay` into `base`, field by field; fields the overlay sets win.
pub fn merge_requirements(
    base: &mut ConfigRequirementsToml,
    overlay: &ConfigRequirementsToml,
) -> (r: Result<(), ConfigServiceError>)
    ensures
        r is Ok,
        requirements_merged(*old(base), *overlay, *final(base)),
{
    if overlay.allowed_approval_policies.is_some() {
        base.allowed_approval_policies = copy_opt_list(&overlay.allowed_approval_policies);
    }
    if overlay.allowed_sandbox_modes.is_some() {
        base.allowed_sandbox_modes = copy_opt_list(&overlay.allowed_sandbox_modes);
    }
    if overlay.allowed_web_search_modes.is_some() {
        base.allowed_web_search_modes = copy_opt_list(&overlay.allowed_web_search_modes);
    }
    if let Some(value) = &overlay.mcp_servers {
        base.mcp_servers = Some(value.duplicate());
    }
    if let Some(value) = overlay.enforce_residency {
        base.enforce_residency = Some(value);
    }
    if let Some(value) = &overlay.network {
        base.network = Some(copy_network(value));
    }
    Ok(())
}

/// The message reported when requirements cannot be normalized.
pub open spec fn normalize_failure_message(e: ConstraintError) -> Seq<char> {
    "failed to normalize requirements: "@ + constraint_error_message(e)
}

impl ConfigService {
    /// A service rooted at the given codex home directory.
    pub fn new(codex_home: String) -> (r: Self)
        ensures
            r.codex_home@ == codex_home@,
    {
        ConfigService { codex_home }
    }

    /// Normalized requirements from the user layer, overridden field by field by
    /// the project layer (each `None` when its file is absent).
    pub fn load_requirements(
        &self,
        user: Option<ConfigRequirementsToml>,
        project: Option<ConfigRequirementsToml>,
    ) -> (r: Result<ConfigRequirements, ConfigServiceError>)
        ensures
            exists|m: ConfigRequirementsToml|
                requirements_merged(layer_or_empty(user), layer_or_empty(project), m)
                    && load_outcome(m, r),
    {
        let mut merged = ConfigRequirementsToml::empty();
        if let Some(reqs) = &user {
            let _ = merge_requirements(&mut merged, reqs);
        }
        if let Some(reqs) = &project {
            let _ = merge_requirements(&mut merged, reqs);
        }
        assert(requirements_merged(layer_or_empty(user), layer_or_empty(project), merged));
        let ghost m = merged;
        let r = match ConfigRequirements::try_from(merged) {
            Ok(req) => Ok(req),
            Err(e) => {
                let mut msg = to_chars("failed to normalize requirements: ");
                let text = e.to_message();
                extend_str(&mut msg, text.as_str());
                let ce = CodexError::new(ErrorCode::ConfigurationError, from_chars(msg.as_slice()));
                assert(normalize_failure_message(e) == ce.message@);
                Err(ConfigServiceError::Config(ce))
            },
        };
        assert(load_outcome(m, r));
        r
    }
}

} // verus!
