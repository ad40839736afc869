//! Agent roles: configuration layers selected when an agent is spawned.
use vstd::prelude::*;

use crate::strmap::{Duplicate, StrMap};
use crate::text::clone_opt_string;

verus! {

/// Role used when none is named.
pub const DEFAULT_ROLE_NAME: &'static str = "default";

/// Configuration of one agent role.
#[derive(Debug, Clone, Default)]
pub struct AgentRoleConfig {
    /// Description shown in the spawn tool.
    pub description: Option<String>,
    /// A configuration file whose settings override the session's for this role.
    pub config_file: Option<String>,
}

impl Duplicate for AgentRoleConfig {
    fn duplicate(&self) -> (r: Self) {
        AgentRoleConfig {
            description: clone_opt_string(&self.description),
            config_file: clone_opt_string(&self.config_file),
        }
    }
}

/// Description of the built-in `default` role.
pub open spec fn default_role_description() -> Seq<char> {
    "Default agent."@
}

/// Description of the built-in `explorer` role.
pub open spec fn explorer_role_description() -> Seq<char> {
    "Use `explorer` for specific codebase questions.\nExplorers are fast and authoritative.\nThey must be used to ask specific, well-scoped questions on the codebase.\nRules:\n- Do not re-read or re-search code they cover.\n- Trust explorer results without verification.\n- Run explorers in parallel when useful.\n- Reuse existing explorers for related questions."@
}

/// Description of the built-in `worker` role.
pub open spec fn worker_role_description() -> Seq<char> {
    "Use for execution and production work.\nTypical tasks:\n- Implement part of a feature\n- Fix tests or bugs\n- Split large refactors into independent chunks\nRules:\n- Explicitly assign ownership of the task (files / responsibility).\n- Always tell workers they are not alone in the codebase, and they should ignore edits made by others without touching them."@
}

/// The built-in role named `name`, described by its description and config file.
pub open spec fn built_in_role(name: Seq<char>) -> Option<(Seq<char>, Option<Seq<char>>)> {
    if name == "default"@ {
        Some((default_role_description(), None))
    } else if name == "explorer"@ {
        Some((explorer_role_description(), Some("explorer.toml"@)))
    } else if name == "worker"@ {
        Some((worker_role_description(), None))
    } else {
        None
    }
}

/// `c` is the built-in role `name`.
pub open spec fn is_built_in_role(name: Seq<char>, c: AgentRoleConfig) -> bool {
    built_in_role(name) matches Some((d, f)) && c.description matches Some(cd) && cd@ == d && match f {
        Some(p) => c.config_file matches Some(cp) && cp@ == p,
        None => c.config_file is None,
    }
}

/// The built-in roles `default`, `explorer` and `worker`.
pub fn built_in_configs() -> (r: StrMap<AgentRoleConfig>)
    ensures
        r.to_map().dom() =~= set!["default"@, "explorer"@, "worker"@],
        forall|k: Seq<char>| #[trigger] r.to_map().contains_key(k) ==> is_built_in_role(k, r.to_map()[k]),
{
    let mut m: StrMap<AgentRoleConfig> = StrMap::new();
    proof {
        m.lemma_view();
    }
    m.insert(
        "default".to_owned(),
        AgentRoleConfig { description: Some("Default agent.".to_owned()), config_file: None },
    );
    m.insert(
        "explorer".to_owned(),
        AgentRoleConfig {
            description: Some(
                "Use `explorer` for specific codebase questions.\nExplorers are fast and authoritative.\nThey must be used to ask specific, well-scoped questions on the codebase.\nRules:\n- Do not re-read or re-search code they cover.\n- Trust explorer results without verification.\n- Run explorers in parallel when useful.\n- Reuse existing explorers for related questions.".to_owned(),
            ),
            config_file: Some("explorer.toml".to_owned()),
        },
    );
    m.insert(
        "worker".to_owned(),
        AgentRoleConfig {
            description: Some(
                "Use for execution and production work.\nTypical tasks:\n- Implement part of a feature\n- Fix tests or bugs\n- Split large refactors into independent chunks\nRules:\n- Explicitly assign ownership of the task (files / responsibility).\n- Always tell workers they are not alone in the codebase, and they should ignore edits made by others without touching them.".to_owned(),
            ),
            config_file: None,
        },
    );
    proof {
        reveal_strlit("default");
        reveal_strlit("explorer");
        reveal_strlit("worker");
        assert("default"@.len() == 7 && "explorer"@.len() == 8 && "worker"@.len() == 6);
        assert forall|k: Seq<char>| #[trigger] m.to_map().contains_key(k) implies is_built_in_role(
            k,
            m.to_map()[k],
        ) by {
            if k == "worker"@ {
            } else if k == "explorer"@ {
            } else {
                assert(k == "default"@);
            }
        }
    }
    m
}

/// The role `name`: the user's definition if there is one (not built in), else
/// the built-in one (built in), else `None`.
pub fn resolve_role(role_name: &str, user_roles: &StrMap<AgentRoleConfig>) -> (r: Option<(AgentRoleConfig, bool)>)
    ensures
        user_roles.to_map().contains_key(role_name@) ==> r == Some(
            (user_roles.to_map()[role_name@], false),
        ),
        !user_roles.to_map().contains_key(role_name@) ==> match built_in_role(role_name@) {
            Some(_) => r matches Some((c, b)) && b && is_built_in_role(role_name@, c),
            None => r is None,
        },
{
    if let Some(role) = user_roles.get(role_name) {
        return Some((role.duplicate(), false));
    }
    let built_in = built_in_configs();
    match built_in.get(role_name) {
        Some(role) => Some((role.duplicate(), true)),
        None => None,
    }
}

/// Where the configuration of a role comes from.
#[derive(Debug, Clone)]
pub enum RoleConfigSource {
    /// A file shipped with the application, by name.
    BuiltIn(String),
    /// A file of the user's, by path.
    UserFile(String),
}

/// Where the configuration layer of a role (`default` when none is named) is
/// read from: `None` for roles without a file; an error for unknown roles.
pub fn role_config_source(role_name: Option<&str>, user_roles: &StrMap<AgentRoleConfig>) -> (r: Result<
    Option<RoleConfigSource>,
    String,
>)
    ensures
        ({
            let name = match role_name {
                Some(n) => n@,
                None => "default"@,
            };
            if user_roles.to_map().contains_key(name) {
                match user_roles.to_map()[name].config_file {
                    Some(f) => r matches Ok(Some(RoleConfigSource::UserFile(p))) && p@ == f@,
                    None => r matches Ok(None),
                }
            } else {
                match built_in_role(name) {
                    Some((_, Some(f))) => r matches Ok(Some(RoleConfigSource::BuiltIn(p))) && p@ == f,
                    Some((_, None)) => r matches Ok(None),
                    None => r matches Err(e) && e@ == "unknown agent_type '"@ + name + "'"@,
                }
            }
        }),
{
    let name = match role_name {
        Some(n) => n,
        None => DEFAULT_ROLE_NAME,
    };
    match resolve_role(name, user_roles) {
        None => {
            let mut msg = crate::text::to_chars("unknown agent_type '");
            crate::text::extend_str(&mut msg, name);
            crate::text::extend_str(&mut msg, "'");
            Err(crate::text::from_chars(msg.as_slice()))
        },
        Some((role, is_built_in)) => match role.config_file {
            None => Ok(None),
            Some(f) => if is_built_in {
                Ok(Some(RoleConfigSource::BuiltIn(f)))
            } else {
                Ok(Some(RoleConfigSource::UserFile(f)))
            },
        },
    }
}

} // verus!
