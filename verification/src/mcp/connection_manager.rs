//! Connections to MCP servers, and the naming and filtering of their tools.
use vstd::prelude::*;
use vstd::utf8::encode_utf8;

use crate::config::toml_types::McpServerConfig;
use crate::mcp::hashing::{is_hex_digit, sha1_hex, sha1_hex_of};
use crate::protocol::{CodexError, ErrorCode, SandboxPolicy};
use crate::strmap::{Duplicate, StrMap};
use crate::text::{
    byte_len, clone_opt_string, extend_str, from_chars, join, join_spec, split, split_spec, str_eq, sub_chars, to_chars, vviews,
};

verus! {

/// Qualified tool names are at most this many bytes long.
pub const MAX_QUALIFIED_NAME_LEN: usize = 64;

/// State of the connection to one server.
#[derive(Debug, Clone, PartialEq, Eq)]
pub enum McpConnectionState {
    Disconnected,
    Connecting,
    Ready,
    Failed(String),
}

/// Seconds a server may take to start and list its tools, unless configured.
pub const DEFAULT_STARTUP_TIMEOUT_SECS: u64 = 10;

/// Seconds a tool call may take, unless configured.
pub const DEFAULT_TOOL_TIMEOUT_SECS: u64 = 120;

/// What a server's listing says of one of its tools.
#[derive(Debug)]
pub struct ListedTool {
    pub name: String,
    pub description: Option<String>,
    /// The input schema as JSON text, when the server gave one.
    pub input_schema: Option<String>,
}

/// A tool offered by a server, under its qualified name.
#[derive(Debug, Clone)]
pub struct McpToolInfo {
    pub name: String,
    pub qualified_name: String,
    pub server_name: String,
    pub description: String,
    /// The input schema as JSON text.
    pub input_schema: Option<String>,
}

impl Duplicate for McpToolInfo {
    fn duplicate(&self) -> (r: Self) {
        McpToolInfo {
            name: self.name.clone(),
            qualified_name: self.qualified_name.clone(),
            server_name: self.server_name.clone(),
            description: self.description.clone(),
            input_schema: clone_opt_string(&self.input_schema),
        }
    }
}

/// What is known of the connection to one server.
#[derive(Debug)]
pub struct McpConnection {
    pub state: McpConnectionState,
    /// Seconds a tool call of this server may take.
    pub tool_timeout_secs: u64,
    pub enabled: bool,
    pub required: bool,
    pub disabled_reason: Option<String>,
    pub enabled_tools: Option<Vec<String>>,
    pub disabled_tools: Option<Vec<String>>,
    /// The tools found on the server, by qualified name.
    pub tools: StrMap<McpToolInfo>,
}

/// How building a server's client ended.
#[derive(Debug)]
pub enum ConnectOutcome {
    /// The client is running.
    Connected,
    /// Building the client failed, for this reason.
    Failed(String),
    /// Building the client took longer than this many seconds.
    TimedOut(u64),
}

/// An optional list of strings, by its contents.
pub open spec fn opt_seq(o: Option<Vec<String>>) -> Option<Seq<String>> {
    match o {
        Some(v) => Some(v@),
        None => None,
    }
}

/// `c` is what registering a server with `config` records, in state `state`,
/// with no tools yet.
pub open spec fn registered(c: McpConnection, config: McpServerConfig, state: McpConnectionState) -> bool {
    &&& c.state == state
    &&& c.tool_timeout_secs == match config.tool_timeout_sec {
        Some(t) => t,
        None => DEFAULT_TOOL_TIMEOUT_SECS,
    }
    &&& c.enabled == config.enabled
    &&& c.required == config.required
    &&& c.disabled_reason == config.disabled_reason
    &&& opt_seq(c.enabled_tools) == opt_seq(config.enabled_tools)
    &&& opt_seq(c.disabled_tools) == opt_seq(config.disabled_tools)
    &&& c.tools.to_map() == Map::<Seq<char>, McpToolInfo>::empty()
}

/// `a` and `b` record the same settings of a server.
pub open spec fn same_settings(a: McpConnection, b: McpConnection) -> bool {
    &&& a.tool_timeout_secs == b.tool_timeout_secs
    &&& a.enabled == b.enabled
    &&& a.required == b.required
    &&& a.disabled_reason == b.disabled_reason
    &&& opt_seq(a.enabled_tools) == opt_seq(b.enabled_tools)
    &&& opt_seq(a.disabled_tools) == opt_seq(b.disabled_tools)
}

/// The state of server `name` among `conns`: disconnected when it is unknown.
pub open spec fn conn_state(conns: Map<Seq<char>, McpConnection>, name: Seq<char>) -> McpConnectionState {
    if conns.contains_key(name) {
        conns[name].state
    } else {
        McpConnectionState::Disconnected
    }
}

/// `conns` with the state of `name` replaced, when `name` is known.
pub open spec fn with_state(
    conns: Map<Seq<char>, McpConnection>,
    name: Seq<char>,
    state: McpConnectionState,
) -> Map<Seq<char>, McpConnection> {
    if conns.contains_key(name) {
        conns.insert(name, McpConnection { state, ..conns[name] })
    } else {
        conns
    }
}

/// `after` is `before` with only the entry of `name` changed, if at all.
pub open spec fn only_entry_changed(
    before: Map<Seq<char>, McpConnection>,
    after: Map<Seq<char>, McpConnection>,
    name: Seq<char>,
) -> bool {
    &&& before.contains_key(name) ==> after == before.insert(name, after[name])
    &&& !before.contains_key(name) ==> after == before
}

/// A tool of a listing is offered when the server's lists allow it.
pub open spec fn offered(listed: Seq<ListedTool>, c: McpConnection) -> Seq<ListedTool> {
    listed.filter(allows(c))
}

/// Whether the lists of `c` allow a listed tool.
pub open spec fn allows(c: McpConnection) -> spec_fn(ListedTool) -> bool {
    |t: ListedTool| tool_allowed(t.name@, opt_seq(c.enabled_tools), opt_seq(c.disabled_tools))
}

/// `info` describes the listed tool `t` of server `server`.
pub open spec fn describes(info: McpToolInfo, server: Seq<char>, t: ListedTool) -> bool {
    &&& info.name@ == t.name@
    &&& info.qualified_name@ == qualified_tool_name(server, t.name@)
    &&& info.server_name@ == server
    &&& info.description@ == match t.description {
        Some(d) => d@,
        None => Seq::<char>::empty(),
    }
    &&& info.input_schema == t.input_schema
}

/// Tools by qualified name; of two with one name, the later one.
pub open spec fn tools_by_name(tools: Seq<McpToolInfo>) -> Map<Seq<char>, McpToolInfo>
    decreases tools.len(),
{
    if tools.len() == 0 {
        Map::empty()
    } else {
        tools_by_name(tools.drop_last()).insert(tools.last().qualified_name@, tools.last())
    }
}

/// The tools of the ready servers among `names`, in that order, each server's
/// tools in the order of their qualified names.
pub open spec fn ready_tools(conns: Map<Seq<char>, McpConnection>, names: Seq<Seq<char>>) -> Seq<McpToolInfo>
    decreases names.len(),
{
    if names.len() == 0 {
        Seq::empty()
    } else {
        let rest = ready_tools(conns, names.drop_last());
        if conns[names.last()].state is Ready {
            rest + conns[names.last()].tools.values()
        } else {
            rest
        }
    }
}

/// The ready servers among `names`.
pub open spec fn ready_names(conns: Map<Seq<char>, McpConnection>, names: Seq<Seq<char>>) -> Seq<Seq<char>> {
    names.filter(is_ready_in(conns))
}

/// Whether the server of a name is ready among `conns`.
pub open spec fn is_ready_in(conns: Map<Seq<char>, McpConnection>) -> spec_fn(Seq<char>) -> bool {
    |n: Seq<char>| conns[n].state is Ready
}

/// The required servers among `names` that failed to start, with their errors.
pub open spec fn startup_failures(conns: Map<Seq<char>, McpConnection>, names: Seq<Seq<char>>) -> Seq<
    (Seq<char>, Seq<char>),
>
    decreases names.len(),
{
    if names.len() == 0 {
        Seq::empty()
    } else {
        let rest = startup_failures(conns, names.drop_last());
        let c = conns[names.last()];
        match c.state {
            McpConnectionState::Failed(e) => if c.required {
                rest.push((names.last(), e@))
            } else {
                rest
            },
            _ => rest,
        }
    }
}

/// The views of a list of strings.
pub open spec fn string_views(v: Seq<String>) -> Seq<Seq<char>> {
    Seq::new(v.len(), |i: int| v[i]@)
}

fn copy_state(s: &McpConnectionState) -> (r: McpConnectionState)
    ensures
        r == *s,
{
    match s {
        McpConnectionState::Disconnected => McpConnectionState::Disconnected,
        McpConnectionState::Connecting => McpConnectionState::Connecting,
        McpConnectionState::Ready => McpConnectionState::Ready,
        McpConnectionState::Failed(m) => McpConnectionState::Failed(m.clone()),
    }
}

fn copy_opt_list(v: &Option<Vec<String>>) -> (r: Option<Vec<String>>)
    ensures
        opt_seq(r) == opt_seq(*v),
{
    match v {
        Some(x) => {
            let y = x.clone();
            assert(y@ =~= x@);
            Some(y)
        },
        None => None,
    }
}

/// How a tool call's arguments are shaped.
#[derive(Debug)]
pub enum ToolArgs {
    /// A JSON object: passed on as the arguments.
    Object,
    /// JSON `null`: no arguments.
    Null,
    /// Any other JSON value, as text.
    Other(String),
}

/// How a tool call went wrong after it was sent.
#[derive(Debug)]
pub enum ToolCallFailure {
    /// No answer within this many seconds.
    TimedOut(u64),
    /// The request failed, for this reason.
    Failed(String),
    /// The server answered with something other than a call result.
    UnexpectedResponse,
}

/// How listing a server's tools went wrong.
#[derive(Debug)]
pub enum ToolListFailure {
    /// The request failed, for this reason.
    Failed(String),
    /// The server answered with something other than a tool list.
    UnexpectedResponse,
}

/// Whether a call passes arguments: yes for an object, no for `null`; any other
/// value is refused.
pub fn check_tool_args(args: &ToolArgs) -> (r: Result<bool, CodexError>)
    ensures
        args is Object ==> r == Ok::<bool, CodexError>(true),
        args is Null ==> r == Ok::<bool, CodexError>(false),
        args is Other ==> (r matches Err(e) && e.code == ErrorCode::InvalidInput && e.message@
            == "tool args must be object, got "@ + args->Other_0@),
{
    match args {
        ToolArgs::Object => Ok(true),
        ToolArgs::Null => Ok(false),
        ToolArgs::Other(text) => {
            let mut m = to_chars("tool args must be object, got ");
            extend_str(&mut m, text.as_str());
            Err(CodexError::new(ErrorCode::InvalidInput, from_chars(m.as_slice())))
        },
    }
}

/// The error for a tool call that went wrong after it was sent.
pub fn tool_call_error(failure: &ToolCallFailure) -> (r: CodexError)
    ensures
        r.code == ErrorCode::ToolExecutionFailed,
        r.message@ == match *failure {
            ToolCallFailure::TimedOut(s) => "tool call timed out after "@ + crate::text::decimal_spec(s as nat)
                + "s"@,
            ToolCallFailure::Failed(e) => "tools/call failed: "@ + e@,
            ToolCallFailure::UnexpectedResponse => "unexpected response to tools/call"@,
        },
{
    let m = match failure {
        ToolCallFailure::TimedOut(secs) => {
            let mut m = to_chars("tool call timed out after ");
            let d = crate::text::decimal(*secs);
            crate::text::extend_chars(&mut m, d.as_slice());
            extend_str(&mut m, "s");
            m
        },
        ToolCallFailure::Failed(e) => {
            let mut m = to_chars("tools/call failed: ");
            extend_str(&mut m, e.as_str());
            m
        },
        ToolCallFailure::UnexpectedResponse => to_chars("unexpected response to tools/call"),
    };
    CodexError::new(ErrorCode::ToolExecutionFailed, from_chars(m.as_slice()))
}

/// The error for a tool listing that went wrong.
pub fn tool_list_error(failure: &ToolListFailure) -> (r: CodexError)
    ensures
        r.code == ErrorCode::McpServerUnavailable,
        r.message@ == match *failure {
            ToolListFailure::Failed(e) => "tools/list failed: "@ + e@,
            ToolListFailure::UnexpectedResponse => "unexpected response to tools/list"@,
        },
{
    let m = match failure {
        ToolListFailure::Failed(e) => {
            let mut m = to_chars("tools/list failed: ");
            extend_str(&mut m, e.as_str());
            m
        },
        ToolListFailure::UnexpectedResponse => to_chars("unexpected response to tools/list"),
    };
    CodexError::new(ErrorCode::McpServerUnavailable, from_chars(m.as_slice()))
}

/// The connections of a session, by server name.
#[derive(Debug)]
pub struct McpConnections {
    connections: StrMap<McpConnection>,
}

impl McpConnections {
    /// The connections, by server name.
    pub closed spec fn spec_connections(&self) -> Map<Seq<char>, McpConnection> {
        self.connections.to_map()
    }

    /// The names of the known servers, in ascending order.
    pub closed spec fn spec_names(&self) -> Seq<Seq<char>> {
        self.connections.keys()
    }

    /// No connections.
    pub fn new() -> (r: Self)
        ensures
            r.spec_connections() == Map::<Seq<char>, McpConnection>::empty(),
    {
        McpConnections { connections: StrMap::new() }
    }

    /// The state of a server's connection; unknown servers are disconnected.
    pub fn state(&self, server_name: &str) -> (r: McpConnectionState)
        ensures
            r == conn_state(self.spec_connections(), server_name@),
    {
        match self.connections.get(server_name) {
            Some(c) => copy_state(&c.state),
            None => McpConnectionState::Disconnected,
        }
    }

    fn set_state(&mut self, server_name: &str, state: McpConnectionState)
        ensures
            final(self).spec_connections() == with_state(old(self).spec_connections(), server_name@, state),
    {
        let ghost before = self.spec_connections();
        match self.connections.take(server_name) {
            Some(mut c) => {
                c.state = state;
                self.connections.insert(server_name.to_owned(), c);
                assert(self.spec_connections() =~= with_state(before, server_name@, state));
            },
            None => {
                assert(self.spec_connections() =~= before);
            },
        }
    }

    /// Starts connecting a server: a disabled server is recorded as
    /// disconnected and needs nothing more; an enabled one is recorded as
    /// connecting, and the result is how many seconds building its client may take.
    pub fn begin_connect(&mut self, server_name: &str, config: &McpServerConfig) -> (r: Option<u64>)
        ensures
            final(self).spec_connections() == old(self).spec_connections().insert(
                server_name@,
                final(self).spec_connections()[server_name@],
            ),
            registered(
                final(self).spec_connections()[server_name@],
                *config,
                if config.enabled {
                    McpConnectionState::Connecting
                } else {
                    McpConnectionState::Disconnected
                },
            ),
            !config.enabled ==> r is None,
            config.enabled ==> r == Some(match config.startup_timeout_sec {
                Some(t) => t,
                None => DEFAULT_STARTUP_TIMEOUT_SECS,
            }),
    {
        let tool_timeout_secs = match config.tool_timeout_sec {
            Some(t) => t,
            None => DEFAULT_TOOL_TIMEOUT_SECS,
        };
        let state = if config.enabled {
            McpConnectionState::Connecting
        } else {
            McpConnectionState::Disconnected
        };
        let c = McpConnection {
            state,
            tool_timeout_secs,
            enabled: config.enabled,
            required: config.required,
            disabled_reason: clone_opt_string(&config.disabled_reason),
            enabled_tools: copy_opt_list(&config.enabled_tools),
            disabled_tools: copy_opt_list(&config.disabled_tools),
            tools: StrMap::new(),
        };
        self.connections.insert(server_name.to_owned(), c);
        assert(self.spec_connections().contains_key(server_name@));
        if !config.enabled {
            return None;
        }
        Some(match config.startup_timeout_sec {
            Some(t) => t,
            None => DEFAULT_STARTUP_TIMEOUT_SECS,
        })
    }

    /// Records how building a server's client ended: ready, or failed with the
    /// reason, which is also the error returned.
    pub fn finish_connect(&mut self, server_name: &str, outcome: ConnectOutcome) -> (r: Result<(), CodexError>)
        ensures
            outcome is Connected ==> r is Ok,
            outcome is Connected ==> final(self).spec_connections() == with_state(
                old(self).spec_connections(),
                server_name@,
                McpConnectionState::Ready,
            ),
            outcome is Failed ==> (r matches Err(e) && e.code
                == ErrorCode::McpServerUnavailable && e.message@ == "MCP connect '"@ + server_name@
                + "' failed: "@ + outcome->Failed_0@ && final(self).spec_connections() == with_state(
                old(self).spec_connections(),
                server_name@,
                McpConnectionState::Failed(e.message),
            )),
            outcome is TimedOut ==> (r matches Err(e) && e.code
                == ErrorCode::McpServerUnavailable && e.message@ == "MCP connect '"@ + server_name@
                + "' timed out after "@ + crate::text::decimal_spec(outcome->TimedOut_0 as nat) + "s"@
                && final(self).spec_connections() == with_state(
                old(self).spec_connections(),
                server_name@,
                McpConnectionState::Failed(e.message),
            )),
    {
        let mut m = to_chars("MCP connect '");
        extend_str(&mut m, server_name);
        match outcome {
            ConnectOutcome::Connected => {
                self.set_state(server_name, McpConnectionState::Ready);
                Ok(())
            },
            ConnectOutcome::Failed(detail) => {
                extend_str(&mut m, "' failed: ");
                extend_str(&mut m, detail.as_str());
                let msg = from_chars(m.as_slice());
                self.set_state(server_name, McpConnectionState::Failed(msg.clone()));
                Err(CodexError::new(ErrorCode::McpServerUnavailable, msg))
            },
            ConnectOutcome::TimedOut(secs) => {
                extend_str(&mut m, "' timed out after ");
                let d = crate::text::decimal(secs);
                crate::text::extend_chars(&mut m, d.as_slice());
                extend_str(&mut m, "s");
                let msg = from_chars(m.as_slice());
                self.set_state(server_name, McpConnectionState::Failed(msg.clone()));
                Err(CodexError::new(ErrorCode::McpServerUnavailable, msg))
            },
        }
    }

    /// Marks a known server disconnected and forgets its tools.
    pub fn disconnect(&mut self, server_name: &str)
        ensures
            only_entry_changed(old(self).spec_connections(), final(self).spec_connections(), server_name@),
            old(self).spec_connections().contains_key(server_name@) ==> ({
                let c = final(self).spec_connections()[server_name@];
                &&& c.state == McpConnectionState::Disconnected
                &&& c.tools.to_map() == Map::<Seq<char>, McpToolInfo>::empty()
                &&& same_settings(c, old(self).spec_connections()[server_name@])
            }),
    {
        let ghost before = self.spec_connections();
        match self.connections.take(server_name) {
            Some(mut c) => {
                c.state = McpConnectionState::Disconnected;
                c.tools = StrMap::new();
                self.connections.insert(server_name.to_owned(), c);
                assert(self.spec_connections() =~= before.insert(server_name@, self.spec_connections()[server_name@]));
            },
            None => {
                assert(self.spec_connections() =~= before);
            },
        }
    }

    /// Seconds a tool call of a server may take; the default for unknown servers.
    pub fn tool_timeout_secs(&self, server_name: &str) -> (r: u64)
        ensures
            r == if self.spec_connections().contains_key(server_name@) {
                self.spec_connections()[server_name@].tool_timeout_secs
            } else {
                DEFAULT_TOOL_TIMEOUT_SECS
            },
    {
        match self.connections.get(server_name) {
            Some(c) => c.tool_timeout_secs,
            None => DEFAULT_TOOL_TIMEOUT_SECS,
        }
    }
}

impl McpConnections {
    /// The servers whose connection is ready, in ascending order.
    pub fn connected_servers(&self) -> (r: Vec<String>)
        ensures
            string_views(r@) == ready_names(self.spec_connections(), self.spec_names()),
    {
        let _ = self.connections.sorted();
        proof {
            self.connections.lemma_view();
        }
        let ghost names = self.spec_names();
        let ghost conns = self.spec_connections();
        let mut out: Vec<String> = Vec::new();
        let mut i: usize = 0;
        while i < self.connections.len()
            invariant
                names == self.connections.keys(),
                conns == self.connections.to_map(),
                i <= names.len(),
                names.len() == self.connections.values().len(),
                forall|j: int| 0 <= j < names.len() ==> #[trigger] conns.contains_key(names[j])
                    && conns[names[j]] == self.connections.values()[j],
                string_views(out@) == ready_names(conns, names.take(i as int)),
            decreases names.len() - i,
        {
            let c = self.connections.value_at(i);
            assert(names.take(i + 1).drop_last() =~= names.take(i as int));
            assert(conns.contains_key(names[i as int]));
            assert(conns[names[i as int]] == *c);
            let ghost before = out@;
            proof {
                reveal(Seq::filter);
            }
            assert(ready_names(conns, names.take(i + 1)) == if c.state is Ready {
                ready_names(conns, names.take(i as int)).push(names[i as int])
            } else {
                ready_names(conns, names.take(i as int))
            });
            match c.state {
                McpConnectionState::Ready => {
                    out.push(self.connections.key_at(i).clone());
                    assert(string_views(out@) =~= string_views(before).push(names[i as int]));
                },
                _ => {},
            }
            i = i + 1;
        }
        assert(names.take(i as int) =~= names);
        out
    }

    /// A known server that is switched off in its configuration.
    pub fn is_disabled(&self, server_name: &str) -> (r: bool)
        ensures
            r == (self.spec_connections().contains_key(server_name@)
                && !self.spec_connections()[server_name@].enabled),
    {
        match self.connections.get(server_name) {
            Some(c) => !c.enabled,
            None => false,
        }
    }

    /// Why a known server is switched off, when its configuration says.
    pub fn disabled_reason(&self, server_name: &str) -> (r: Option<String>)
        ensures
            r == if self.spec_connections().contains_key(server_name@) {
                self.spec_connections()[server_name@].disabled_reason
            } else {
                None
            },
    {
        match self.connections.get(server_name) {
            Some(c) => clone_opt_string(&c.disabled_reason),
            None => None,
        }
    }

    /// Records the tools a ready server listed: those its lists allow, under
    /// their qualified names, which replace the tools known before. The result
    /// is the tools recorded, in the order listed. A server that is not ready
    /// has nothing recorded.
    pub fn record_tools(&mut self, server_name: &str, listed: Vec<ListedTool>) -> (r: Vec<McpToolInfo>)
        ensures
            conn_state(old(self).spec_connections(), server_name@) is Ready ==> ({
                let c = old(self).spec_connections()[server_name@];
                let after = final(self).spec_connections()[server_name@];
                &&& r@.len() == offered(listed@, c).len()
                &&& forall|i: int| 0 <= i < r@.len() ==> describes(#[trigger] r@[i], server_name@, offered(listed@, c)[i])
                &&& final(self).spec_connections() == old(self).spec_connections().insert(server_name@, after)
                &&& after.state == c.state
                &&& same_settings(after, c)
                &&& after.tools.to_map() == tools_by_name(r@)
            }),
            !(conn_state(old(self).spec_connections(), server_name@) is Ready) ==> r@.len() == 0
                && final(self).spec_connections() == old(self).spec_connections(),
    {
        let ready = match self.connections.get(server_name) {
            Some(c) => match c.state {
                McpConnectionState::Ready => true,
                _ => false,
            },
            None => false,
        };
        if !ready {
            return Vec::new();
        }
        let ghost before = self.spec_connections();
        let mut c = match self.connections.take(server_name) {
            Some(c) => c,
            None => return Vec::new(),
        };
        let ghost c0 = c;
        let mut out: Vec<McpToolInfo> = Vec::new();
        let mut tools: StrMap<McpToolInfo> = StrMap::new();
        let mut i: usize = 0;
        while i < listed.len()
            invariant
                i <= listed@.len(),
                c == c0,
                out@.len() == offered(listed@.take(i as int), c0).len(),
                forall|j: int| 0 <= j < out@.len() ==> describes(#[trigger] out@[j], server_name@, offered(listed@.take(i as int), c0)[j]),
                tools.to_map() == tools_by_name(out@),
            decreases listed@.len() - i,
        {
            let t = &listed[i];
            assert(listed@.take(i + 1).drop_last() =~= listed@.take(i as int));
            assert(listed@.take(i + 1).last() == listed@[i as int]);
            let enabled = match &c.enabled_tools {
                Some(e) => Some(e.as_slice()),
                None => None,
            };
            let disabled = match &c.disabled_tools {
                Some(d) => Some(d.as_slice()),
                None => None,
            };
            let allowed = is_tool_allowed(t.name.as_str(), enabled, disabled);
            assert(allowed == allows(c0)(listed@[i as int]));
            proof {
                reveal(Seq::filter);
            }
            assert(offered(listed@.take(i + 1), c0) == if allowed {
                offered(listed@.take(i as int), c0).push(listed@[i as int])
            } else {
                offered(listed@.take(i as int), c0)
            });
            if allowed {
                let q = qualify_tool_name(server_name, t.name.as_str());
                let description = match &t.description {
                    Some(d) => d.clone(),
                    None => String::new(),
                };
                let info = McpToolInfo {
                    name: t.name.clone(),
                    qualified_name: q.clone(),
                    server_name: server_name.to_owned(),
                    description,
                    input_schema: clone_opt_string(&t.input_schema),
                };
                let ghost prev = out@;
                tools.insert(q, info.duplicate());
                out.push(info);
                assert(out@.drop_last() =~= prev);
            }
            i = i + 1;
        }
        assert(listed@.take(i as int) =~= listed@);
        c.tools = tools;
        self.connections.insert(server_name.to_owned(), c);
        assert(self.spec_connections() =~= before.insert(server_name@, self.spec_connections()[server_name@]));
        out
    }

    /// The tools of every ready server.
    pub fn all_tools(&self) -> (r: Vec<McpToolInfo>)
        ensures
            r@ == ready_tools(self.spec_connections(), self.spec_names()),
    {
        let _ = self.connections.sorted();
        proof {
            self.connections.lemma_view();
        }
        let ghost names = self.spec_names();
        let ghost conns = self.spec_connections();
        let mut out: Vec<McpToolInfo> = Vec::new();
        let mut i: usize = 0;
        while i < self.connections.len()
            invariant
                names == self.connections.keys(),
                conns == self.connections.to_map(),
                i <= names.len(),
                names.len() == self.connections.values().len(),
                forall|j: int| 0 <= j < names.len() ==> #[trigger] conns.contains_key(names[j])
                    && conns[names[j]] == self.connections.values()[j],
                out@ == ready_tools(conns, names.take(i as int)),
            decreases names.len() - i,
        {
            let c = self.connections.value_at(i);
            assert(names.take(i + 1).drop_last() =~= names.take(i as int));
            assert(conns.contains_key(names[i as int]));
            assert(conns[names[i as int]] == *c);
            match c.state {
                McpConnectionState::Ready => {
                    let ghost base = out@;
                    let mut j: usize = 0;
                    while j < c.tools.len()
                        invariant
                            j <= c.tools.values().len(),
                            out@ == base + c.tools.values().take(j as int),
                        decreases c.tools.values().len() - j,
                    {
                        out.push(c.tools.value_at(j).duplicate());
                        j = j + 1;
                        assert(out@ =~= base + c.tools.values().take(j as int));
                    }
                    assert(c.tools.values().take(j as int) =~= c.tools.values());
                },
                _ => {},
            }
            i = i + 1;
        }
        assert(names.take(i as int) =~= names);
        out
    }

    /// A server that offers a tool under the qualified name, if any does.
    pub fn find_server_for_tool(&self, qualified_name: &str) -> (r: Option<String>)
        ensures
            match r {
                Some(n) => self.spec_connections().contains_key(n@)
                    && self.spec_connections()[n@].tools.to_map().contains_key(qualified_name@),
                None => forall|n: Seq<char>| #[trigger] self.spec_connections().contains_key(n)
                    ==> !self.spec_connections()[n].tools.to_map().contains_key(qualified_name@),
            },
    {
        let _ = self.connections.sorted();
        proof {
            self.connections.lemma_view();
        }
        let ghost names = self.spec_names();
        let ghost conns = self.spec_connections();
        let mut i: usize = 0;
        while i < self.connections.len()
            invariant
                names == self.connections.keys(),
                conns == self.connections.to_map(),
                i <= names.len(),
                names.len() == self.connections.values().len(),
                forall|j: int| 0 <= j < names.len() ==> #[trigger] conns.contains_key(names[j])
                    && conns[names[j]] == self.connections.values()[j],
                forall|j: int| 0 <= j < i ==> !(#[trigger] conns[names[j]]).tools.to_map().contains_key(qualified_name@),
            decreases names.len() - i,
        {
            let c = self.connections.value_at(i);
            assert(conns.contains_key(names[i as int]));
            assert(conns[names[i as int]] == *c);
            if c.tools.contains_key(qualified_name) {
                return Some(self.connections.key_at(i).clone());
            }
            i = i + 1;
        }
        assert forall|n: Seq<char>| #[trigger] conns.contains_key(n) implies !conns[n].tools.to_map().contains_key(
            qualified_name@,
        ) by {
            let j = names.index_of(n);
            assert(names.contains(n));
            assert(names[j] == n);
        }
        None
    }

    /// Whether a tool of a server can be called now: the server must be known
    /// and ready. The result is how many seconds the call may take.
    pub fn call_timeout_secs(&self, server_name: &str) -> (r: Result<u64, CodexError>)
        ensures
            !self.spec_connections().contains_key(server_name@) ==> (r matches Err(e) && e.code
                == ErrorCode::McpServerUnavailable && e.message@ == "MCP server '"@ + server_name@
                + "' not registered"@),
            self.spec_connections().contains_key(server_name@) && !(self.spec_connections()[server_name@].state is Ready)
                ==> (r matches Err(e) && e.code == ErrorCode::McpServerUnavailable && e.message@
                == "MCP server '"@ + server_name@ + "' not ready"@),
            self.spec_connections().contains_key(server_name@) && self.spec_connections()[server_name@].state is Ready
                ==> r == Ok::<u64, CodexError>(self.spec_connections()[server_name@].tool_timeout_secs),
    {
        let mut m = to_chars("MCP server '");
        extend_str(&mut m, server_name);
        match self.connections.get(server_name) {
            None => {
                extend_str(&mut m, "' not registered");
                Err(CodexError::new(ErrorCode::McpServerUnavailable, from_chars(m.as_slice())))
            },
            Some(c) => match c.state {
                McpConnectionState::Ready => Ok(c.tool_timeout_secs),
                _ => {
                    extend_str(&mut m, "' not ready");
                    Err(CodexError::new(ErrorCode::McpServerUnavailable, from_chars(m.as_slice())))
                },
            },
        }
    }

    /// The required servers that failed to start, with their errors, in
    /// ascending order of name.
    pub fn required_startup_failures(&self) -> (r: Vec<(String, String)>)
        ensures
            r@.len() == startup_failures(self.spec_connections(), self.spec_names()).len(),
            forall|i: int| 0 <= i < r@.len() ==> (#[trigger] r@[i]).0@ == startup_failures(
                self.spec_connections(),
                self.spec_names(),
            )[i].0 && r@[i].1@ == startup_failures(self.spec_connections(), self.spec_names())[i].1,
    {
        let _ = self.connections.sorted();
        proof {
            self.connections.lemma_view();
        }
        let ghost names = self.spec_names();
        let ghost conns = self.spec_connections();
        let mut out: Vec<(String, String)> = Vec::new();
        let mut i: usize = 0;
        while i < self.connections.len()
            invariant
                names == self.connections.keys(),
                conns == self.connections.to_map(),
                i <= names.len(),
                names.len() == self.connections.values().len(),
                forall|j: int| 0 <= j < names.len() ==> #[trigger] conns.contains_key(names[j])
                    && conns[names[j]] == self.connections.values()[j],
                out@.len() == startup_failures(conns, names.take(i as int)).len(),
                forall|j: int| 0 <= j < out@.len() ==> (#[trigger] out@[j]).0@ == startup_failures(
                    conns,
                    names.take(i as int),
                )[j].0 && out@[j].1@ == startup_failures(conns, names.take(i as int))[j].1,
            decreases names.len() - i,
        {
            let c = self.connections.value_at(i);
            assert(names.take(i + 1).drop_last() =~= names.take(i as int));
            assert(conns.contains_key(names[i as int]));
            assert(conns[names[i as int]] == *c);
            match &c.state {
                McpConnectionState::Failed(e) => {
                    if c.required {
                        out.push((self.connections.key_at(i).clone(), e.clone()));
                    }
                },
                _ => {},
            }
            i = i + 1;
        }
        assert(names.take(i as int) =~= names);
        out
    }
}

/// Sandbox state pushed to servers that support it.
#[derive(Debug, Clone, Copy)]
pub struct SandboxState {
    pub sandbox_policy: SandboxPolicy,
}

/// A character allowed in a tool name as it is: ASCII letters and digits, `_` and `-`.
pub open spec fn tool_name_char(c: char) -> bool {
    ('a' <= c && c <= 'z') || ('A' <= c && c <= 'Z') || ('0' <= c && c <= '9') || c == '_' || c
        == '-'
}

/// `name` with every other character replaced by `_`.
pub open spec fn sanitized(name: Seq<char>) -> Seq<char> {
    Seq::new(name.len(), |i: int| if tool_name_char(name[i]) { name[i] } else { '_' })
}

/// Replaces the characters a tool name may not hold with `_`.
pub fn sanitize_tool_name(name: &str) -> (r: String)
    ensures
        r@ == sanitized(name@),
{
    let chars = to_chars(name);
    let mut out: Vec<char> = Vec::new();
    let mut i: usize = 0;
    while i < chars.len()
        invariant
            i <= chars@.len(),
            chars@ == name@,
            out@ == sanitized(name@).take(i as int),
        decreases chars@.len() - i,
    {
        let c = chars[i];
        let ok = ('a' <= c && c <= 'z') || ('A' <= c && c <= 'Z') || ('0' <= c && c <= '9') || c == '_'
            || c == '-';
        out.push(if ok { c } else { '_' });
        i = i + 1;
        assert(out@ =~= sanitized(name@).take(i as int));
    }
    assert(sanitized(name@).take(i as int) =~= sanitized(name@));
    from_chars(out.as_slice())
}

/// `mcp__<server>__<tool>`.
pub open spec fn full_tool_name(server: Seq<char>, tool: Seq<char>) -> Seq<char> {
    "mcp__"@ + server + "__"@ + tool
}

/// The qualified name of a tool: `mcp__<server>__<tool>` sanitized; when that is
/// longer than the limit, its first 24 characters followed by the SHA-1 of the
/// unsanitized name.
pub open spec fn qualified_tool_name(server: Seq<char>, tool: Seq<char>) -> Seq<char> {
    let s = sanitized(full_tool_name(server, tool));
    if s.len() <= MAX_QUALIFIED_NAME_LEN {
        s
    } else {
        s.take(24) + sha1_hex(encode_utf8(full_tool_name(server, tool)))
    }
}

/// The qualified name of a server's tool.
pub fn qualify_tool_name(server: &str, tool: &str) -> (r: String)
    ensures
        r@ == qualified_tool_name(server@, tool@),
        r@.len() <= MAX_QUALIFIED_NAME_LEN,
        byte_len(r@) <= MAX_QUALIFIED_NAME_LEN,
{
    let mut full = to_chars("mcp__");
    extend_str(&mut full, server);
    extend_str(&mut full, "__");
    extend_str(&mut full, tool);
    let full_s = from_chars(full.as_slice());
    let clean = sanitize_tool_name(full_s.as_str());
    let clean_chars = to_chars(clean.as_str());
    proof {
        lemma_sanitized_ascii(full_s@);
    }
    if clean_chars.len() <= MAX_QUALIFIED_NAME_LEN {
        proof {
            crate::text::lemma_ascii_byte_len(clean@);
        }
        return clean;
    }
    let hash = sha1_hex_of(full_s.as_str());
    let mut out = sub_chars(clean_chars.as_slice(), 0, 24);
    extend_str(&mut out, hash.as_str());
    proof {
        assert forall|i: int| 0 <= i < out@.len() implies '\0' <= #[trigger] out@[i] <= '\u{7f}' by {
            if i < 24 {
                assert(out@[i] == clean@[i]);
            } else {
                assert(out@[i] == hash@[i - 24]);
                assert(is_hex_digit(hash@[i - 24]));
            }
        }
        crate::text::lemma_ascii_byte_len(out@);
    }
    from_chars(out.as_slice())
}

/// Sanitizing keeps the length and every ASCII letter (either case), digit,
/// `_` and `-`, and turns every other character into `_`.
pub proof fn law_sanitize_keeps_ascii_alphanumerics(name: Seq<char>)
    ensures
        sanitized(name).len() == name.len(),
        forall|i: int|
            0 <= i < name.len() ==> #[trigger] sanitized(name)[i] == if ('a' <= name[i] <= 'z') || ('A'
                <= name[i] <= 'Z') || ('0' <= name[i] <= '9') || name[i] == '_' || name[i] == '-' {
                name[i]
            } else {
                '_'
            },
{
}

/// For a server and a tool named with ASCII letters of either case, digits,
/// `_` and `-` only, whose full name fits the limit, the qualified name is
/// exactly `mcp__<server>__<tool>`.
pub proof fn law_plain_names_qualify_unchanged(server: Seq<char>, tool: Seq<char>)
    requires
        forall|i: int|
            0 <= i < server.len() ==> ('a' <= #[trigger] server[i] <= 'z') || ('A' <= server[i] <= 'Z') || (
            '0' <= server[i] <= '9') || server[i] == '_' || server[i] == '-',
        forall|i: int|
            0 <= i < tool.len() ==> ('a' <= #[trigger] tool[i] <= 'z') || ('A' <= tool[i] <= 'Z') || ('0'
                <= tool[i] <= '9') || tool[i] == '_' || tool[i] == '-',
        server.len() + tool.len() + 7 <= MAX_QUALIFIED_NAME_LEN,
    ensures
        qualified_tool_name(server, tool) == "mcp__"@ + server + "__"@ + tool,
{
    reveal_strlit("mcp__");
    reveal_strlit("__");
    let full = "mcp__"@ + server + "__"@ + tool;
    assert(full == full_tool_name(server, tool));
    let a = "mcp__"@ + server;
    let b = a + "__"@;
    assert forall|i: int| 0 <= i < full.len() implies tool_name_char(#[trigger] full[i]) by {
        if i < 5 {
            assert(full[i] == "mcp__"@[i]);
        } else if i < 5 + server.len() {
            assert(full[i] == b[i]);
            assert(b[i] == a[i]);
            assert(a[i] == server[i - 5]);
        } else if i < 7 + server.len() {
            assert(full[i] == b[i]);
            assert(b[i] == "__"@[i - a.len()]);
        } else {
            assert(full[i] == tool[i - b.len()]);
        }
    }
    assert(sanitized(full) =~= full);
}

/// A sanitized name holds only ASCII characters.
proof fn lemma_sanitized_ascii(name: Seq<char>)
    ensures
        vstd::utf8::is_ascii_chars(sanitized(name)),
{
    assert forall|i: int| 0 <= i < sanitized(name).len() implies '\0' <= #[trigger] sanitized(name)[i]
        <= '\u{7f}' by {
        assert(tool_name_char(name[i]) ==> sanitized(name)[i] == name[i]);
    }
}

/// A tool is allowed when it is in the enabled list, if there is one; else when
/// it is not in the disabled list.
pub open spec fn tool_allowed(tool: Seq<char>, enabled: Option<Seq<String>>, disabled: Option<Seq<String>>) -> bool {
    match enabled {
        Some(e) => in_list(e, tool),
        None => match disabled {
            Some(d) => !in_list(d, tool),
            None => true,
        },
    }
}

/// Some entry of `list` is `name`.
pub open spec fn in_list(list: Seq<String>, name: Seq<char>) -> bool {
    exists|i: int| 0 <= i < list.len() && (#[trigger] list[i])@ == name
}

fn listed(list: &[String], name: &str) -> (r: bool)
    ensures
        r == in_list(list@, name@),
{
    let mut i: usize = 0;
    while i < list.len()
        invariant
            i <= list@.len(),
            forall|k: int| 0 <= k < i ==> (#[trigger] list@[k])@ != name@,
        decreases list@.len() - i,
    {
        if str_eq(list[i].as_str(), name) {
            return true;
        }
        i = i + 1;
    }
    false
}

/// Whether the enabled and disabled lists allow a tool.
pub fn is_tool_allowed(tool_name: &str, enabled: Option<&[String]>, disabled: Option<&[String]>) -> (r: bool)
    ensures
        r == tool_allowed(tool_name@, match enabled {
            Some(e) => Some(e@),
            None => None,
        }, match disabled {
            Some(d) => Some(d@),
            None => None,
        }),
{
    match enabled {
        Some(e) => {
            let r = listed(e, tool_name);
            r
        },
        None => match disabled {
            Some(d) => !listed(d, tool_name),
            None => true,
        },
    }
}

/// Whether a server's configuration allows a tool; everything is allowed without one.
pub fn is_tool_allowed_by_config(tool_name: &str, config: Option<&McpServerConfig>) -> (r: bool)
    ensures
        r == match config {
            Some(c) => tool_allowed(tool_name@, match c.enabled_tools {
                Some(e) => Some(e@),
                None => None,
            }, match c.disabled_tools {
                Some(d) => Some(d@),
                None => None,
            }),
            None => true,
        },
{
    match config {
        None => true,
        Some(c) => {
            let enabled = match &c.enabled_tools {
                Some(e) => Some(e.as_slice()),
                None => None,
            };
            let disabled = match &c.disabled_tools {
                Some(d) => Some(d.as_slice()),
                None => None,
            };
            is_tool_allowed(tool_name, enabled, disabled)
        },
    }
}

/// The server and tool of `mcp__<server>__<tool>`: the text between the first
/// two `__`, and everything after (which may hold `__`), when it is not empty.
pub open spec fn split_qualified(q: Seq<char>) -> Option<(Seq<char>, Seq<char>)> {
    let parts = split_spec(q, "__"@);
    if parts[0] != "mcp"@ || parts.len() < 2 {
        None
    } else {
        let tool = join_spec(parts.skip(2), "__"@);
        if tool.len() == 0 {
            None
        } else {
            Some((parts[1], tool))
        }
    }
}

/// Splits a qualified tool name into its server and tool.
pub fn split_qualified_tool_name(qualified_name: &str) -> (r: Option<(String, String)>)
    ensures
        match split_qualified(qualified_name@) {
            Some((s, t)) => r matches Some((a, b)) && a@ == s && b@ == t,
            None => r is None,
        },
{
    let q = to_chars(qualified_name);
    let sep = to_chars("__");
    proof {
        reveal_strlit("__");
    }
    let parts = split(q.as_slice(), sep.as_slice());
    let prefix = from_chars(parts[0].as_slice());
    if !str_eq(prefix.as_str(), "mcp") || parts.len() < 2 {
        return None;
    }
    let mut rest: Vec<Vec<char>> = Vec::new();
    let mut i: usize = 2;
    while i < parts.len()
        invariant
            2 <= i <= parts@.len(),
            vviews(rest@) == vviews(parts@).skip(2).take(i - 2),
        decreases parts@.len() - i,
    {
        let piece = sub_chars(parts[i].as_slice(), 0, parts[i].len());
        let ghost before = vviews(rest@);
        assert(piece@ == vviews(parts@)[i as int]);
        assert(vviews(parts@).skip(2).take(i - 1) =~= vviews(parts@).skip(2).take(i - 2).push(
            vviews(parts@)[i as int],
        ));
        rest.push(piece);
        assert(vviews(rest@) =~= before.push(piece@));
        i = i + 1;
    }
    assert(vviews(parts@).skip(2).take(i - 2) =~= vviews(parts@).skip(2));
    let tool = join(&rest, sep.as_slice());
    if tool.len() == 0 {
        return None;
    }
    Some((from_chars(parts[1].as_slice()), from_chars(tool.as_slice())))
}

} // verus!
