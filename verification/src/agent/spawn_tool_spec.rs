//! The description of the spawn-agent tool, listing the available roles.
use vstd::prelude::*;

use crate::agent::role::{built_in_configs, AgentRoleConfig};
use crate::strmap::StrMap;
use crate::text::{extend_chars, extend_str, from_chars, join, join_spec, to_chars, vviews};

verus! {

/// How a role is listed: its name and braced description, or a note that it has none.
pub open spec fn role_line(name: Seq<char>, decl: AgentRoleConfig) -> Seq<char> {
    match decl.description {
        Some(d) => name + ": {\n"@ + d@ + "\n}"@,
        None => name + ": no description"@,
    }
}

/// Lines for the roles `keys`/`values` whose name is not in `skip`, in order.
pub open spec fn role_lines(
    keys: Seq<Seq<char>>,
    values: Seq<AgentRoleConfig>,
    skip: Set<Seq<char>>,
) -> Seq<Seq<char>>
    decreases keys.len(),
{
    if keys.len() == 0 || values.len() == 0 {
        Seq::empty()
    } else {
        let rest = role_lines(keys.drop_last(), values.drop_last(), skip);
        if skip.contains(keys.last()) {
            rest
        } else {
            rest.push(role_line(keys.last(), values.last()))
        }
    }
}

/// The tool description: user roles first, then built-in roles the user did
/// not redefine, each in name order.
pub open spec fn spawn_description(user: StrMap<AgentRoleConfig>, built_in: StrMap<AgentRoleConfig>) -> Seq<char> {
    "Optional type name for the new agent. If omitted, `default` is used.\nAvailable roles:\n"@
        + join_spec(
        role_lines(user.keys(), user.values(), Set::empty()) + role_lines(
            built_in.keys(),
            built_in.values(),
            user.to_map().dom(),
        ),
        "\n"@,
    )
}

/// How one role is listed.
pub fn format_role(name: &str, decl: &AgentRoleConfig) -> (r: String)
    ensures
        r@ == role_line(name@, *decl),
{
    let mut out = to_chars(name);
    match &decl.description {
        Some(desc) => {
            extend_str(&mut out, ": {\n");
            extend_str(&mut out, desc.as_str());
            extend_str(&mut out, "\n}");
        },
        None => extend_str(&mut out, ": no description"),
    }
    from_chars(out.as_slice())
}

/// Appends the lines of the roles of `roles` whose names `skip` does not hold.
fn push_role_lines(
    out: &mut Vec<Vec<char>>,
    roles: &StrMap<AgentRoleConfig>,
    skip: &StrMap<AgentRoleConfig>,
    use_skip: bool,
)
    ensures
        vviews(final(out)@) == vviews(old(out)@) + role_lines(
            roles.keys(),
            roles.values(),
            if use_skip {
                skip.to_map().dom()
            } else {
                Set::empty()
            },
        ),
{
    let ghost sk = if use_skip {
        skip.to_map().dom()
    } else {
        Set::<Seq<char>>::empty()
    };
    let ghost start = vviews(out@);
    let n = roles.len();
    let mut i: usize = 0;
    while i < n
        invariant
            n == roles.keys().len(),
            roles.values().len() == n,
            i <= n,
            sk == (if use_skip {
                skip.to_map().dom()
            } else {
                Set::<Seq<char>>::empty()
            }),
            vviews(out@) == start + role_lines(
                roles.keys().take(i as int),
                roles.values().take(i as int),
                sk,
            ),
        decreases n - i,
    {
        let name = roles.key_at(i);
        let decl = roles.value_at(i);
        assert(roles.keys().take(i + 1).drop_last() =~= roles.keys().take(i as int));
        assert(roles.values().take(i + 1).drop_last() =~= roles.values().take(i as int));
        let skipped = use_skip && skip.contains_key(name.as_str());
        if !skipped {
            let line = format_role(name.as_str(), decl);
            let ghost before = vviews(out@);
            out.push(to_chars(line.as_str()));
            assert(vviews(out@) =~= before.push(line@));
        }
        i = i + 1;
    }
    assert(roles.keys().take(n as int) =~= roles.keys());
    assert(roles.values().take(n as int) =~= roles.values());
}

/// The tool description for the given built-in and user roles.
pub fn build_from_configs(
    built_in_roles: &StrMap<AgentRoleConfig>,
    user_defined_roles: &StrMap<AgentRoleConfig>,
) -> (r: String)
    ensures
        r@ == spawn_description(*user_defined_roles, *built_in_roles),
{
    let mut formatted: Vec<Vec<char>> = Vec::new();
    assert(vviews(formatted@) =~= Seq::<Seq<char>>::empty());
    push_role_lines(&mut formatted, user_defined_roles, user_defined_roles, false);
    push_role_lines(&mut formatted, built_in_roles, user_defined_roles, true);
    let mut out = to_chars(
        "Optional type name for the new agent. If omitted, `default` is used.\nAvailable roles:\n",
    );
    let sep = to_chars("\n");
    let body = join(&formatted, sep.as_slice());
    extend_chars(&mut out, body.as_slice());
    from_chars(out.as_slice())
}

/// The tool description for the built-in roles and the given user roles.
pub fn build(user_defined_roles: &StrMap<AgentRoleConfig>) -> (r: String)
    ensures
        exists|b: StrMap<AgentRoleConfig>|
            b.to_map().dom() =~= set!["default"@, "explorer"@, "worker"@] && (forall|k: Seq<char>|
                #[trigger] b.to_map().contains_key(k) ==> crate::agent::role::is_built_in_role(
                    k,
                    b.to_map()[k],
                )) && r@ == spawn_description(
                *user_defined_roles,
                b,
            ),
{
    let built_in = built_in_configs();
    build_from_configs(&built_in, user_defined_roles)
}

} // verus!
