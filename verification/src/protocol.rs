//! Shared protocol types: policies, conversation items, events and errors.
use vstd::prelude::*;

use crate::text::{extend_chars, extend_str, from_chars, to_chars};

verus! {

// ── Errors ───────────────────────────────────────────────────────

/// Category of a [`CodexError`].
#[derive(Debug, Clone, Copy, PartialEq, Eq, Structural)]
pub enum ErrorCode {
    ConfigurationError,
    SessionError,
    InternalError,
    InvalidInput,
    McpServerUnavailable,
    ToolExecutionFailed,
}

/// An error with a category and a human-readable message.
#[derive(Debug, Clone, PartialEq, Eq)]
pub struct CodexError {
    pub code: ErrorCode,
    pub message: String,
}

impl CodexError {
    /// An error of the given category with the given message.
    pub fn new(code: ErrorCode, message: String) -> (r: Self)
        ensures
            r.code == code,
            r.message == message,
    {
        CodexError { code, message }
    }
}

// ── Policies ─────────────────────────────────────────────────────

/// Which kinds of approval prompts are rejected outright.
#[derive(Debug, Clone, Copy, PartialEq, Eq, Structural)]
pub struct RejectConfig {
    pub sandbox_approval: bool,
    pub rules: bool,
}

impl RejectConfig {
    /// Prompts raised by policy rules are rejected.
    pub fn rejects_rules_approval(&self) -> (r: bool)
        ensures
            r == self.rules,
    {
        self.rules
    }

    /// Prompts raised for sandbox escalation are rejected.
    pub fn rejects_sandbox_approval(&self) -> (r: bool)
        ensures
            r == self.sandbox_approval,
    {
        self.sandbox_approval
    }
}

/// When the user is asked to approve a command.
#[derive(Debug, Clone, Copy, PartialEq, Eq, Structural)]
pub enum AskForApproval {
    UnlessTrusted,
    OnFailure,
    OnRequest,
    Reject(RejectConfig),
    Never,
}

impl AskForApproval {
    /// The default policy: ask when the model requests it.
    pub fn default_policy() -> (r: Self)
        ensures
            r == AskForApproval::OnRequest,
    {
        AskForApproval::OnRequest
    }
}

/// Sandbox mode chosen in configuration.
#[derive(Debug, Clone, Copy, PartialEq, Eq, Structural)]
pub enum SandboxMode {
    ReadOnly,
    WorkspaceWrite,
    DangerFullAccess,
}

/// Sandbox applied to executed commands.
#[derive(Debug, Clone, Copy, PartialEq, Eq, Structural)]
pub enum SandboxPolicy {
    DangerFullAccess,
    ReadOnly,
    ExternalSandbox { network_access: bool },
    WorkspaceWrite { network_access: bool },
}

impl SandboxPolicy {
    /// The read-only sandbox.
    pub fn new_read_only_policy() -> (r: Self)
        ensures
            r == SandboxPolicy::ReadOnly,
    {
        SandboxPolicy::ReadOnly
    }
}

/// Web search availability.
#[derive(Debug, Clone, Copy, PartialEq, Eq, Structural)]
pub enum WebSearchMode {
    Disabled,
    Cached,
    Live,
}

/// Reasoning effort requested from the model.
#[derive(Debug, Clone, Copy, PartialEq, Eq, Structural)]
pub enum Effort {
    Minimal,
    Low,
    Medium,
    High,
}

/// Reasoning summary style.
#[derive(Debug, Clone, Copy, PartialEq, Eq, Structural)]
pub enum ReasoningSummary {
    Auto,
    Concise,
    Detailed,
    Off,
}

/// Output verbosity.
#[derive(Debug, Clone, Copy, PartialEq, Eq, Structural)]
pub enum Verbosity {
    Low,
    Medium,
    High,
}

/// Conversational personality.
#[derive(Debug, Clone, Copy, PartialEq, Eq, Structural)]
pub enum Personality {
    Friendly,
    Pragmatic,
}

/// Service tier for requests.
#[derive(Debug, Clone, Copy, PartialEq, Eq, Structural)]
pub enum ServiceTier {
    Fast,
    Flex,
}

/// Decision of the command policy, ordered from most to least permissive.
#[derive(Debug, Clone, Copy, PartialEq, Eq, Structural)]
pub enum Decision {
    Allow,
    Prompt,
    Forbidden,
}

/// Rank of a decision: `Allow < Prompt < Forbidden`.
pub open spec fn decision_rank(d: Decision) -> nat {
    match d {
        Decision::Allow => 0,
        Decision::Prompt => 1,
        Decision::Forbidden => 2,
    }
}

/// A proposed prefix rule that would approve a command.
#[derive(Debug, Clone, PartialEq, Eq)]
pub struct ExecPolicyAmendment {
    pub command: Vec<String>,
}

// ── Debug renderings ─────────────────────────────────────────────

/// `Debug` rendering of `true`/`false`.
pub open spec fn bool_debug(b: bool) -> Seq<char> {
    if b { "true"@ } else { "false"@ }
}

fn bool_debug_exec(b: bool) -> (r: Vec<char>)
    ensures
        r@ == bool_debug(b),
{
    if b { to_chars("true") } else { to_chars("false") }
}

/// `Debug` rendering of an approval policy.
pub open spec fn approval_debug(a: AskForApproval) -> Seq<char> {
    match a {
        AskForApproval::UnlessTrusted => "UnlessTrusted"@,
        AskForApproval::OnFailure => "OnFailure"@,
        AskForApproval::OnRequest => "OnRequest"@,
        AskForApproval::Reject(rc) => "Reject(RejectConfig { sandbox_approval: "@ + bool_debug(
            rc.sandbox_approval,
        ) + ", rules: "@ + bool_debug(rc.rules) + " })"@,
        AskForApproval::Never => "Never"@,
    }
}

/// `Debug` rendering of an approval policy.
pub fn approval_debug_exec(a: &AskForApproval) -> (r: Vec<char>)
    ensures
        r@ == approval_debug(*a),
{
    match a {
        AskForApproval::UnlessTrusted => to_chars("UnlessTrusted"),
        AskForApproval::OnFailure => to_chars("OnFailure"),
        AskForApproval::OnRequest => to_chars("OnRequest"),
        AskForApproval::Reject(rc) => {
            let mut out = to_chars("Reject(RejectConfig { sandbox_approval: ");
            let b1 = bool_debug_exec(rc.sandbox_approval);
            extend_chars(&mut out, b1.as_slice());
            extend_str(&mut out, ", rules: ");
            let b2 = bool_debug_exec(rc.rules);
            extend_chars(&mut out, b2.as_slice());
            extend_str(&mut out, " })");
            out
        },
        AskForApproval::Never => to_chars("Never"),
    }
}

/// `Debug` rendering of a sandbox policy.
pub open spec fn sandbox_policy_debug(p: SandboxPolicy) -> Seq<char> {
    match p {
        SandboxPolicy::DangerFullAccess => "DangerFullAccess"@,
        SandboxPolicy::ReadOnly => "ReadOnly"@,
        SandboxPolicy::ExternalSandbox { network_access } => "ExternalSandbox { network_access: "@
            + bool_debug(network_access) + " }"@,
        SandboxPolicy::WorkspaceWrite { network_access } => "WorkspaceWrite { network_access: "@
            + bool_debug(network_access) + " }"@,
    }
}

/// `Debug` rendering of a sandbox policy.
pub fn sandbox_policy_debug_exec(p: &SandboxPolicy) -> (r: Vec<char>)
    ensures
        r@ == sandbox_policy_debug(*p),
{
    match p {
        SandboxPolicy::DangerFullAccess => to_chars("DangerFullAccess"),
        SandboxPolicy::ReadOnly => to_chars("ReadOnly"),
        SandboxPolicy::ExternalSandbox { network_access } => {
            let mut out = to_chars("ExternalSandbox { network_access: ");
            let b = bool_debug_exec(*network_access);
            extend_chars(&mut out, b.as_slice());
            extend_str(&mut out, " }");
            out
        },
        SandboxPolicy::WorkspaceWrite { network_access } => {
            let mut out = to_chars("WorkspaceWrite { network_access: ");
            let b = bool_debug_exec(*network_access);
            extend_chars(&mut out, b.as_slice());
            extend_str(&mut out, " }");
            out
        },
    }
}

/// `Debug` rendering of a personality.
pub open spec fn personality_debug(p: Personality) -> Seq<char> {
    match p {
        Personality::Friendly => "Friendly"@,
        Personality::Pragmatic => "Pragmatic"@,
    }
}

/// `Debug` rendering of an optional personality.
pub open spec fn opt_personality_debug(p: Option<Personality>) -> Seq<char> {
    match p {
        Some(x) => "Some("@ + personality_debug(x) + ")"@,
        None => "None"@,
    }
}

/// `Debug` rendering of an optional personality.
pub fn opt_personality_debug_exec(p: &Option<Personality>) -> (r: Vec<char>)
    ensures
        r@ == opt_personality_debug(*p),
{
    match p {
        Some(x) => {
            let mut out = to_chars("Some(");
            match x {
                Personality::Friendly => extend_str(&mut out, "Friendly"),
                Personality::Pragmatic => extend_str(&mut out, "Pragmatic"),
            }
            extend_str(&mut out, ")");
            out
        },
        None => to_chars("None"),
    }
}

// ── Agent status and events ──────────────────────────────────────

/// Lifecycle status of a sub-agent.
#[derive(Debug, Clone, PartialEq, Eq)]
pub enum AgentStatus {
    PendingInit,
    Running,
    Completed(Option<String>),
    Errored(String),
    Shutdown,
    NotFound,
}

/// Why a turn was aborted.
#[derive(Debug, Clone, Copy, PartialEq, Eq, Structural)]
pub enum TurnAbortReason {
    Interrupted,
    Replaced,
    ReviewEnded,
}

/// `Debug` rendering of an abort reason.
pub open spec fn abort_reason_debug(r: TurnAbortReason) -> Seq<char> {
    match r {
        TurnAbortReason::Interrupted => "Interrupted"@,
        TurnAbortReason::Replaced => "Replaced"@,
        TurnAbortReason::ReviewEnded => "ReviewEnded"@,
    }
}

/// `Debug` rendering of an abort reason.
pub fn abort_reason_debug_exec(r: TurnAbortReason) -> (out: String)
    ensures
        out@ == abort_reason_debug(r),
{
    match r {
        TurnAbortReason::Interrupted => "Interrupted".to_owned(),
        TurnAbortReason::Replaced => "Replaced".to_owned(),
        TurnAbortReason::ReviewEnded => "ReviewEnded".to_owned(),
    }
}

/// A turn started.
#[derive(Debug, Clone, PartialEq, Eq)]
pub struct TurnStartedEvent {
    pub turn_id: String,
    pub model_context_window: Option<i64>,
}

/// A turn completed.
#[derive(Debug, Clone, PartialEq, Eq)]
pub struct TurnCompleteEvent {
    pub turn_id: String,
    pub last_agent_message: Option<String>,
}

/// A turn was aborted.
#[derive(Debug, Clone, PartialEq, Eq)]
pub struct TurnAbortedEvent {
    pub turn_id: Option<String>,
    pub reason: TurnAbortReason,
}

/// An error surfaced to the user.
#[derive(Debug, Clone, PartialEq, Eq)]
pub struct ErrorEvent {
    pub message: String,
}

/// A tool invocation as reported to the user; arguments as JSON text.
#[derive(Debug, Clone, PartialEq, Eq)]
pub struct McpInvocation {
    pub server: String,
    pub tool: String,
    pub arguments: Option<String>,
}

/// The result of a tool call that returned; content as JSON text.
#[derive(Debug, Clone, PartialEq, Eq)]
pub struct CallToolResult {
    pub content: Option<String>,
    pub is_error: Option<bool>,
}

/// A tool call began.
#[derive(Debug, Clone, PartialEq, Eq)]
pub struct McpToolCallBeginEvent {
    pub call_id: String,
    pub invocation: McpInvocation,
}

/// A tool call ended, after `duration_ms` milliseconds, with its result or
/// its error message.
#[derive(Debug, Clone, PartialEq, Eq)]
pub struct McpToolCallEndEvent {
    pub call_id: String,
    pub invocation: McpInvocation,
    pub duration_ms: u64,
    pub result: ToolCallResult,
}

/// How a tool call ended: it returned a result, or failed with a message.
#[derive(Debug, Clone, PartialEq, Eq)]
pub enum ToolCallResult {
    Returned(CallToolResult),
    Failed(String),
}

/// Events emitted by a running session.
#[derive(Debug, Clone, PartialEq, Eq)]
pub enum EventMsg {
    McpToolCallBegin(McpToolCallBeginEvent),
    McpToolCallEnd(McpToolCallEndEvent),
    TurnStarted(TurnStartedEvent),
    TurnComplete(TurnCompleteEvent),
    TurnAborted(TurnAbortedEvent),
    Error(ErrorEvent),
    ShutdownComplete,
    AgentMessage { message: String },
    Warning { message: String },
}

// ── Conversation items ───────────────────────────────────────────

/// One piece of message content.
#[derive(Debug, Clone, PartialEq, Eq)]
pub enum ContentItem {
    InputText { text: String },
    InputImage { image_url: String },
    OutputText { text: String },
}

/// One piece of structured tool output.
#[derive(Debug, Clone, PartialEq, Eq)]
pub enum FunctionCallOutputContentItem {
    InputText { text: String },
    InputImage { image_url: String },
}

/// Body of a tool output.
#[derive(Debug, Clone, PartialEq, Eq)]
pub enum FunctionCallOutputBody {
    Text(String),
    ContentItems(Vec<FunctionCallOutputContentItem>),
}

/// Output of a function call.
#[derive(Debug, Clone, PartialEq, Eq)]
pub struct FunctionCallOutputPayload {
    pub body: FunctionCallOutputBody,
    pub success: Option<bool>,
}

impl FunctionCallOutputPayload {
    /// A plain-text output with no success flag.
    pub fn from_text(text: String) -> (r: Self)
        ensures
            r.body == FunctionCallOutputBody::Text(text),
            r.success is None,
    {
        FunctionCallOutputPayload { body: FunctionCallOutputBody::Text(text), success: None }
    }
}

/// An item of conversation history sent to the model.
#[derive(Debug, Clone, PartialEq, Eq)]
pub enum ResponseInputItem {
    Message { role: String, content: Vec<ContentItem> },
    FunctionCall { call_id: String, name: String, arguments: String },
    FunctionCallOutput { call_id: String, output: FunctionCallOutputPayload },
    McpToolCallOutput { call_id: String, output: String },
    CustomToolCallOutput { call_id: String, output: String },
}

/// The text of one content item (images have none).
pub open spec fn content_text(c: ContentItem) -> Seq<char> {
    match c {
        ContentItem::InputText { text } => text@,
        ContentItem::OutputText { text } => text@,
        ContentItem::InputImage { .. } => Seq::empty(),
    }
}

/// The concatenated text of a content list.
pub open spec fn contents_text(cs: Seq<ContentItem>) -> Seq<char>
    decreases cs.len(),
{
    if cs.len() == 0 {
        Seq::empty()
    } else {
        contents_text(cs.drop_last()) + content_text(cs.last())
    }
}

/// The concatenated text of a content list.
pub fn contents_text_exec(cs: &Vec<ContentItem>) -> (r: Vec<char>)
    ensures
        r@ == contents_text(cs@),
{
    let mut out: Vec<char> = Vec::new();
    let mut i: usize = 0;
    while i < cs.len()
        invariant
            i <= cs.len(),
            out@ == contents_text(cs@.take(i as int)),
        decreases cs.len() - i,
    {
        match &cs[i] {
            ContentItem::InputText { text } => extend_str(&mut out, text.as_str()),
            ContentItem::OutputText { text } => extend_str(&mut out, text.as_str()),
            ContentItem::InputImage { .. } => {},
        }
        i = i + 1;
        assert(cs@.take(i as int).drop_last() =~= cs@.take(i - 1));
    }
    assert(cs@.take(cs.len() as int) =~= cs@);
    out
}

impl ResponseInputItem {
    /// A message with one text content item.
    pub fn text_message(role: &str, text: String) -> (r: Self)
        ensures
            r matches ResponseInputItem::Message { role: rl, content } && rl@ == role@
                && content@.len() == 1 && content@[0] == (ContentItem::InputText { text }),
    {
        let mut content: Vec<ContentItem> = Vec::new();
        content.push(ContentItem::InputText { text });
        ResponseInputItem::Message { role: role.to_owned(), content }
    }

    /// The text of a message; `None` for other items.
    pub fn message_text(&self) -> (r: Option<String>)
        ensures
            match self {
                ResponseInputItem::Message { content, .. } => r matches Some(t) && t@
                    == contents_text(content@),
                _ => r is None,
            },
    {
        match self {
            ResponseInputItem::Message { content, .. } => {
                let v = contents_text_exec(content);
                Some(from_chars(v.as_slice()))
            },
            _ => None,
        }
    }
}

/// Phase of an assistant message.
#[derive(Debug, Clone, Copy, PartialEq, Eq, Structural)]
pub enum MessagePhase {
    Commentary,
    FinalAnswer,
}

/// A web search step.
#[derive(Debug, Clone, PartialEq, Eq)]
pub enum WebSearchAction {
    Search { query: Option<String>, queries: Option<Vec<String>> },
    OpenPage { url: Option<String> },
    FindInPage { url: Option<String>, pattern: Option<String> },
    Other,
}

/// Summary part of a reasoning item.
#[derive(Debug, Clone, PartialEq, Eq)]
pub enum ReasoningSummaryItem {
    SummaryText { text: String },
}

/// Raw content part of a reasoning item.
#[derive(Debug, Clone, PartialEq, Eq)]
pub enum ReasoningContentItem {
    ReasoningText { text: String },
    Text { text: String },
}

/// An item produced by the model API.
#[derive(Debug, Clone, PartialEq, Eq)]
pub enum ResponseItem {
    Message {
        id: Option<String>,
        role: String,
        content: Vec<ContentItem>,
        end_turn: Option<bool>,
        phase: Option<MessagePhase>,
    },
    Reasoning {
        id: String,
        summary: Vec<ReasoningSummaryItem>,
        content: Option<Vec<ReasoningContentItem>>,
    },
    WebSearchCall { id: Option<String>, status: Option<String>, action: Option<WebSearchAction> },
    FunctionCall { id: Option<String>, name: String, arguments: String, call_id: String },
    FunctionCallOutput { call_id: String, output: FunctionCallOutputPayload },
    Other,
}

/// User input shown in the UI.
#[derive(Debug, Clone, PartialEq, Eq)]
pub enum UserInput {
    Text { text: String, text_elements: Vec<String> },
    Image { image_url: String },
}

/// A user message shown in the UI.
#[derive(Debug, Clone, PartialEq, Eq)]
pub struct UserMessageItem {
    pub id: String,
    pub content: Vec<UserInput>,
}

/// Text content of an agent message.
#[derive(Debug, Clone, PartialEq, Eq)]
pub enum AgentMessageContent {
    Text { text: String },
}

/// An assistant message shown in the UI.
#[derive(Debug, Clone, PartialEq, Eq)]
pub struct AgentMessageItem {
    pub id: String,
    pub content: Vec<AgentMessageContent>,
    pub phase: Option<MessagePhase>,
}

/// Reasoning shown in the UI.
#[derive(Debug, Clone, PartialEq, Eq)]
pub struct ReasoningItem {
    pub id: String,
    pub summary_text: Vec<String>,
    pub raw_content: Vec<String>,
}

/// A web search shown in the UI.
#[derive(Debug, Clone, PartialEq, Eq)]
pub struct WebSearchItem {
    pub id: String,
    pub query: String,
    pub action: Option<WebSearchAction>,
}

/// An item of a turn as displayed in the UI.
#[derive(Debug, Clone, PartialEq, Eq)]
pub enum TurnItem {
    UserMessage(UserMessageItem),
    AgentMessage(AgentMessageItem),
    Reasoning(ReasoningItem),
    WebSearch(WebSearchItem),
}

} // verus!
