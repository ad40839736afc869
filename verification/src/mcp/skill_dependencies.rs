//! MCP servers that mentioned skills depend on but that are not installed.
use vstd::prelude::*;

use crate::config::toml_types::{McpServerConfig, McpServerTransportConfig};
use crate::strmap::StrMap;
use crate::text::{
    eq_ignore_ascii_case, eq_ignore_ascii_case_spec, extend_chars, extend_str, from_chars, to_chars,
    trim, trim_spec,
};

verus! {

/// A tool that a skill depends on.
#[derive(Debug, Clone)]
pub struct SkillToolDependency {
    /// Kind of dependency, such as `mcp`.
    pub tool_type: String,
    /// Name of the dependency.
    pub value: String,
    pub description: Option<String>,
    /// Transport of an MCP dependency: `streamable_http` (the default) or `stdio`.
    pub transport: Option<String>,
    pub command: Option<String>,
    pub url: Option<String>,
}

/// What a skill depends on.
#[derive(Debug, Clone)]
pub struct SkillDependencies {
    pub tools: Vec<SkillToolDependency>,
}

/// A skill, as far as its dependencies go.
#[derive(Debug, Clone)]
pub struct SkillMetadata {
    pub name: String,
    pub dependencies: Option<SkillDependencies>,
}

/// The key that identifies a server across names: `mcp__<transport>__<id>` with
/// the trimmed identifier, or the fallback name when the identifier is blank.
pub open spec fn canonical_key_spec(transport: Seq<char>, identifier: Seq<char>, fallback: Seq<char>) -> Seq<char> {
    if trim_spec(identifier).len() == 0 {
        fallback
    } else {
        "mcp__"@ + transport + "__"@ + trim_spec(identifier)
    }
}

/// The canonical key of a transport and identifier.
pub fn canonical_key(transport: &str, identifier: &str, fallback: &str) -> (r: String)
    ensures
        r@ == canonical_key_spec(transport@, identifier@, fallback@),
{
    let idc = to_chars(identifier);
    let id = trim(idc.as_slice());
    if id.len() == 0 {
        return fallback.to_owned();
    }
    let mut out = to_chars("mcp__");
    extend_str(&mut out, transport);
    extend_str(&mut out, "__");
    extend_chars(&mut out, id.as_slice());
    from_chars(out.as_slice())
}

/// The canonical key of an installed server.
pub open spec fn server_key(name: Seq<char>, config: McpServerConfig) -> Seq<char> {
    match config.transport {
        McpServerTransportConfig::Stdio { command, .. } => canonical_key_spec("stdio"@, command@, name),
        McpServerTransportConfig::StreamableHttp { url, .. } => canonical_key_spec(
            "streamable_http"@,
            url@,
            name,
        ),
    }
}

/// The canonical key of an installed server.
pub fn canonical_server_key(name: &str, config: &McpServerConfig) -> (r: String)
    ensures
        r@ == server_key(name@, *config),
{
    match &config.transport {
        McpServerTransportConfig::Stdio { command, .. } => canonical_key("stdio", command.as_str(), name),
        McpServerTransportConfig::StreamableHttp { url, .. } => canonical_key(
            "streamable_http",
            url.as_str(),
            name,
        ),
    }
}

/// The transport a dependency names, `streamable_http` when it names none.
pub open spec fn dep_transport(dep: SkillToolDependency) -> Seq<char> {
    match dep.transport {
        Some(t) => t@,
        None => "streamable_http"@,
    }
}

/// The canonical key of a dependency, or why it has none.
pub open spec fn dependency_key(dep: SkillToolDependency) -> Result<Seq<char>, Seq<char>> {
    let t = dep_transport(dep);
    if eq_ignore_ascii_case_spec(t, "streamable_http"@) {
        match dep.url {
            Some(u) => Ok(canonical_key_spec("streamable_http"@, u@, dep.value@)),
            None => Err("missing url for streamable_http dependency"@),
        }
    } else if eq_ignore_ascii_case_spec(t, "stdio"@) {
        match dep.command {
            Some(c) => Ok(canonical_key_spec("stdio"@, c@, dep.value@)),
            None => Err("missing command for stdio dependency"@),
        }
    } else {
        Err("unsupported transport "@ + t)
    }
}

fn transport_of(dep: &SkillToolDependency) -> (r: &str)
    ensures
        r@ == dep_transport(*dep),
{
    match &dep.transport {
        Some(t) => t.as_str(),
        None => "streamable_http",
    }
}

fn ieq(a: &str, b: &str) -> (r: bool)
    ensures
        r == eq_ignore_ascii_case_spec(a@, b@),
{
    let x = to_chars(a);
    let y = to_chars(b);
    eq_ignore_ascii_case(x.as_slice(), y.as_slice())
}

fn unsupported(t: &str) -> (r: String)
    ensures
        r@ == "unsupported transport "@ + t@,
{
    let mut out = to_chars("unsupported transport ");
    extend_str(&mut out, t);
    from_chars(out.as_slice())
}

/// The canonical key of a dependency, or why it has none.
pub fn canonical_dependency_key(dep: &SkillToolDependency) -> (r: Result<String, String>)
    ensures
        match dependency_key(*dep) {
            Ok(k) => r matches Ok(s) && s@ == k,
            Err(m) => r matches Err(s) && s@ == m,
        },
{
    let transport = transport_of(dep);
    if ieq(transport, "streamable_http") {
        return match &dep.url {
            Some(url) => Ok(canonical_key("streamable_http", url.as_str(), dep.value.as_str())),
            None => Err("missing url for streamable_http dependency".to_owned()),
        };
    }
    if ieq(transport, "stdio") {
        return match &dep.command {
            Some(command) => Ok(canonical_key("stdio", command.as_str(), dep.value.as_str())),
            None => Err("missing command for stdio dependency".to_owned()),
        };
    }
    Err(unsupported(transport))
}

/// `c` is the server configuration installed for `dep`: enabled, not required,
/// nothing else set, reached by the dependency's URL or command.
pub open spec fn dependency_config(dep: SkillToolDependency, c: McpServerConfig) -> bool {
    &&& c.enabled && !c.required
    &&& c.disabled_reason is None && c.startup_timeout_sec is None && c.tool_timeout_sec is None
    &&& c.enabled_tools is None && c.disabled_tools is None && c.scopes is None
    &&& c.oauth_resource is None
    &&& if eq_ignore_ascii_case_spec(dep_transport(dep), "streamable_http"@) {
        dep.url matches Some(u) && c.transport matches McpServerTransportConfig::StreamableHttp {
            url,
            bearer_token_env_var,
            http_headers,
            env_http_headers,
        } && url@ == u@ && bearer_token_env_var is None && http_headers is None
            && env_http_headers is None
    } else {
        dep.command matches Some(cmd) && c.transport matches McpServerTransportConfig::Stdio {
            command,
            args,
            env,
        } && command@ == cmd@ && args@.len() == 0 && env.keys().len() == 0
    }
}

/// The configuration that installs a dependency, or why there is none.
pub fn dependency_to_server_config(dep: &SkillToolDependency) -> (r: Result<McpServerConfig, String>)
    ensures
        match dependency_key(*dep) {
            Ok(_) => r matches Ok(c) && dependency_config(*dep, c),
            Err(m) => r matches Err(s) && s@ == m,
        },
{
    let transport = transport_of(dep);
    if ieq(transport, "streamable_http") {
        return match &dep.url {
            Some(url) => Ok(
                McpServerConfig {
                    transport: McpServerTransportConfig::StreamableHttp {
                        url: url.clone(),
                        bearer_token_env_var: None,
                        http_headers: None,
                        env_http_headers: None,
                    },
                    enabled: true,
                    required: false,
                    disabled_reason: None,
                    startup_timeout_sec: None,
                    tool_timeout_sec: None,
                    enabled_tools: None,
                    disabled_tools: None,
                    scopes: None,
                    oauth_resource: None,
                },
            ),
            None => Err("missing url for streamable_http dependency".to_owned()),
        };
    }
    if ieq(transport, "stdio") {
        return match &dep.command {
            Some(command) => Ok(
                McpServerConfig {
                    transport: McpServerTransportConfig::Stdio {
                        command: command.clone(),
                        args: Vec::new(),
                        env: StrMap::new(),
                    },
                    enabled: true,
                    required: false,
                    disabled_reason: None,
                    startup_timeout_sec: None,
                    tool_timeout_sec: None,
                    enabled_tools: None,
                    disabled_tools: None,
                    scopes: None,
                    oauth_resource: None,
                },
            ),
            None => Err("missing command for stdio dependency".to_owned()),
        };
    }
    Err(unsupported(transport))
}

/// The tool dependencies of skills, in order.
pub open spec fn all_dependencies(skills: Seq<SkillMetadata>) -> Seq<SkillToolDependency>
    decreases skills.len(),
{
    if skills.len() == 0 {
        Seq::empty()
    } else {
        all_dependencies(skills.drop_last()) + match skills.last().dependencies {
            Some(d) => d.tools@,
            None => Seq::empty(),
        }
    }
}

/// Going through `deps` in order: MCP dependencies with a key that is neither
/// installed nor seen before are kept (by name, a later one replacing an earlier
/// one of the same name), and their keys are seen.
pub open spec fn missing_fold(
    deps: Seq<SkillToolDependency>,
    installed: Set<Seq<char>>,
) -> (Map<Seq<char>, SkillToolDependency>, Set<Seq<char>>)
    decreases deps.len(),
{
    if deps.len() == 0 {
        (Map::empty(), Set::empty())
    } else {
        let (kept, seen) = missing_fold(deps.drop_last(), installed);
        let dep = deps.last();
        if !eq_ignore_ascii_case_spec(dep.tool_type@, "mcp"@) {
            (kept, seen)
        } else {
            match dependency_key(dep) {
                Err(_) => (kept, seen),
                Ok(k) => if installed.contains(k) || seen.contains(k) {
                    (kept, seen)
                } else {
                    (kept.insert(dep.value@, dep), seen.insert(k))
                },
            }
        }
    }
}

/// The installed servers' keys.
pub open spec fn installed_keys(installed: StrMap<McpServerConfig>) -> Set<Seq<char>> {
    Set::new(
        |k: Seq<char>|
            exists|i: int|
                0 <= i < installed.keys().len() && server_key(
                    #[trigger] installed.keys()[i],
                    installed.values()[i],
                ) == k,
    )
}

/// Some string of `v` reads `k`.
pub open spec fn in_strings(v: Seq<String>, k: Seq<char>) -> bool {
    exists|j: int| 0 <= j < v.len() && (#[trigger] v[j])@ == k
}

proof fn lemma_push_in_strings(v: Seq<String>, x: String, k: Seq<char>)
    ensures
        in_strings(v.push(x), k) <==> (in_strings(v, k) || x@ == k),
{
    if in_strings(v.push(x), k) {
        let j = choose|j: int| 0 <= j < v.push(x).len() && (#[trigger] v.push(x)[j])@ == k;
        if j < v.len() {
            assert(v[j] == v.push(x)[j]);
        }
    }
    if in_strings(v, k) {
        let j = choose|j: int| 0 <= j < v.len() && (#[trigger] v[j])@ == k;
        assert(v.push(x)[j] == v[j]);
    }
    if x@ == k {
        assert(v.push(x)[v.len() as int] == x);
    }
}

proof fn lemma_installed_upto_step(m: StrMap<McpServerConfig>, i: int, k: Seq<char>)
    requires
        0 <= i,
    ensures
        installed_upto(m, i + 1, k) <==> (installed_upto(m, i, k) || server_key(m.keys()[i], m.values()[i]) == k),
{
    if installed_upto(m, i + 1, k) {
        let j = choose|j: int| 0 <= j < i + 1 && server_key(#[trigger] m.keys()[j], m.values()[j]) == k;
        if j < i {
            assert(installed_upto(m, i, k));
        }
    }
    if installed_upto(m, i, k) {
        let j = choose|j: int| 0 <= j < i && server_key(#[trigger] m.keys()[j], m.values()[j]) == k;
        assert(0 <= j < i + 1);
    }
}

/// One of the first `i` installed servers has key `k`.
pub open spec fn installed_upto(m: StrMap<McpServerConfig>, i: int, k: Seq<char>) -> bool {
    exists|j: int| 0 <= j < i && server_key(#[trigger] m.keys()[j], m.values()[j]) == k
}

fn contains_key_str(v: &Vec<String>, s: &String) -> (r: bool)
    ensures
        r == in_strings(v@, s@),
{
    let mut i: usize = 0;
    while i < v.len()
        invariant
            i <= v@.len(),
            forall|k: int| 0 <= k < i ==> (#[trigger] v@[k])@ != s@,
        decreases v@.len() - i,
    {
        if v[i] == *s {
            return true;
        }
        i = i + 1;
    }
    false
}

/// The MCP servers that mentioned skills need and that no installed server
/// provides (compared by canonical key, so names may differ), by dependency name.
pub fn collect_missing_mcp_dependencies(
    mentioned_skills: &[SkillMetadata],
    installed: &StrMap<McpServerConfig>,
) -> (r: StrMap<McpServerConfig>)
    ensures
        ({
            let kept = missing_fold(all_dependencies(mentioned_skills@), installed_keys(*installed)).0;
            &&& r.to_map().dom() == kept.dom()
            &&& forall|k: Seq<char>| #[trigger] kept.contains_key(k) ==> dependency_config(kept[k], r.to_map()[k])
        }),
{
    let ghost ik = installed_keys(*installed);
    let mut installed_vec: Vec<String> = Vec::new();
    let n = installed.len();
    let mut i: usize = 0;
    while i < n
        invariant
            n == installed.keys().len(),
            installed.values().len() == n,
            i <= n,
            ik == installed_keys(*installed),
            forall|k: Seq<char>|
                #[trigger] in_strings(installed_vec@, k)
                    <==> installed_upto(*installed, i as int, k),
        decreases n - i,
    {
        let key = canonical_server_key(installed.key_at(i).as_str(), installed.value_at(i));
        let ghost before = installed_vec@;
        installed_vec.push(key);
        assert forall|k: Seq<char>|
            #[trigger] in_strings(installed_vec@, k) <==> installed_upto(*installed, i + 1, k) by {
            lemma_push_in_strings(before, installed_vec@.last(), k);
            assert(installed_vec@ == before.push(installed_vec@.last()));
            lemma_installed_upto_step(*installed, i as int, k);
        }
        i = i + 1;
    }
    let mut seen: Vec<String> = Vec::new();
    let mut missing: StrMap<McpServerConfig> = StrMap::new();
    proof {
        missing.lemma_view();
    }
    let mut s: usize = 0;
    while s < mentioned_skills.len()
        invariant
            s <= mentioned_skills@.len(),
            ik == installed_keys(*installed),
            forall|k: Seq<char>|
                #[trigger] in_strings(installed_vec@, k)
                    <==> ik.contains(k),
            ({
                let (kept, sn) = missing_fold(all_dependencies(mentioned_skills@.take(s as int)), ik);
                &&& missing.to_map().dom() == kept.dom()
                &&& forall|k: Seq<char>| #[trigger] kept.contains_key(k) ==> dependency_config(kept[k], missing.to_map()[k])
                &&& forall|k: Seq<char>| #[trigger] in_strings(seen@, k) <==> sn.contains(k)
            }),
        decreases mentioned_skills@.len() - s,
    {
        let skill = &mentioned_skills[s];
        let ghost prefix = all_dependencies(mentioned_skills@.take(s as int));
        assert(mentioned_skills@.take(s + 1).drop_last() =~= mentioned_skills@.take(s as int));
        match &skill.dependencies {
            None => {
                assert(all_dependencies(mentioned_skills@.take(s + 1)) =~= prefix);
            },
            Some(deps) => {
                let mut t: usize = 0;
                while t < deps.tools.len()
                    invariant
                        t <= deps.tools@.len(),
                        ik == installed_keys(*installed),
                        forall|k: Seq<char>|
                            #[trigger] in_strings(installed_vec@, k)
                                <==> ik.contains(k),
                        ({
                            let (kept, sn) = missing_fold(prefix + deps.tools@.take(t as int), ik);
                            &&& missing.to_map().dom() == kept.dom()
                            &&& forall|k: Seq<char>| #[trigger] kept.contains_key(k) ==> dependency_config(kept[k], missing.to_map()[k])
                            &&& forall|k: Seq<char>| #[trigger] in_strings(seen@, k) <==> sn.contains(k)
                        }),
                    decreases deps.tools@.len() - t,
                {
                    let tool = &deps.tools[t];
                    let ghost cur = prefix + deps.tools@.take(t as int);
                    assert((prefix + deps.tools@.take(t + 1)).drop_last() =~= cur);
                    assert((prefix + deps.tools@.take(t + 1)).last() == *tool);
                    assert(prefix + deps.tools@.take(t + 1) =~= cur.push(*tool));
                    assert(cur.push(*tool).drop_last() =~= cur);
                    if ieq(tool.tool_type.as_str(), "mcp") {
                        match canonical_dependency_key(tool) {
                            Err(_) => {},
                            Ok(dep_key) => {
                                let known = contains_key_str(&installed_vec, &dep_key) || contains_key_str(
                                    &seen,
                                    &dep_key,
                                );
                                if !known {
                                    match dependency_to_server_config(tool) {
                                        Ok(config) => {
                                            let ghost before_seen = seen@;
                                            let ghost before_map = missing.to_map();
                                            let ghost cfg = config;
                                            missing.insert(tool.value.clone(), config);
                                            assert(missing.to_map() == before_map.insert(tool.value@, cfg));
                                            assert(missing_fold(cur.push(*tool), ik).0 == missing_fold(cur, ik).0.insert(tool.value@, *tool));
                                            seen.push(dep_key);
                                            assert forall|k: Seq<char>|
                                                #[trigger] in_strings(seen@, k)
                                                    <==> missing_fold(cur.push(*tool), ik).1.contains(k) by {
                                                lemma_push_in_strings(before_seen, seen@.last(), k);
                                                assert(seen@ == before_seen.push(seen@.last()));
                                                assert(cur.push(*tool).drop_last() =~= cur);
                                            }
                                        },
                                        Err(_) => {},
                                    }
                                }
                            },
                        }
                    }
                    t = t + 1;
                }
                assert(prefix + deps.tools@.take(t as int) =~= all_dependencies(mentioned_skills@.take(s + 1)));
            },
        }
        s = s + 1;
    }
    assert(mentioned_skills@.take(s as int) =~= mentioned_skills@);
    missing
}

} // verus!
