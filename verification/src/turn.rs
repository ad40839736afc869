//! The decisions of a turn: what each event of a model response stream does to
//! the round in progress, and what the turn loop then reports and records.
//!
//! The loop that streams, dispatches tools and emits events runs outside the
//! library; it feeds every stream event to [`RoundState::on_event`] and
//! performs the actions it returns, in order.
use vstd::prelude::*;

use crate::client::{ResponseEvent, TokenUsage};
use crate::event_mapping::{parse_turn_item, turn_item_of};
use crate::protocol::{
    AgentMessageContent, AgentMessageItem, CodexError, ExecPolicyAmendment, ContentItem, FunctionCallOutputPayload,
    ReasoningItem, ResponseInputItem, ResponseItem, TurnItem, UserInput,
};
use crate::protocol::{
    CallToolResult, ErrorEvent, EventMsg, McpInvocation, McpToolCallBeginEvent, McpToolCallEndEvent,
    ToolCallResult, TurnCompleteEvent, TurnStartedEvent,
};
use crate::text::{extend_str, from_chars, join, join_spec, str_eq, to_chars, vviews};

verus! {

/// Rounds of tool calls a turn may take before it stops.
pub const MAX_TOOL_ROUNDS: usize = 32;

/// What the turn loop does for a stream event, in order.
#[derive(Debug)]
pub enum TurnAction {
    /// Report that an item began.
    ItemStarted(TurnItem),
    /// Report that an item is complete.
    ItemCompleted(TurnItem),
    /// Report text added to the agent message.
    AgentMessageDelta { item_id: String, delta: String },
    /// Report text added to a reasoning summary part.
    ReasoningSummaryDelta { item_id: String, delta: String, summary_index: i64 },
    /// Report text added to a raw reasoning part.
    ReasoningRawDelta { item_id: String, delta: String, content_index: i64 },
    /// Append an item to the conversation history.
    RecordHistory(ResponseInputItem),
    /// Persist a model item in the thread's rollout.
    PersistItem(ResponseItem),
    /// Report the token usage of the response.
    TokenCount(TokenUsage),
    /// Report an error.
    Error(String),
}

/// A tool call requested by the model in this round.
#[derive(Debug)]
pub struct PendingCall {
    pub call_id: String,
    pub name: String,
    pub arguments: String,
}

/// What a round of a turn has seen so far.
#[derive(Debug)]
pub struct RoundState {
    agent_item_id: String,
    reasoning_item_id: String,
    agent_started: bool,
    reasoning_started: bool,
    text: String,
    summaries: Vec<String>,
    raw: Vec<String>,
    pending: Vec<PendingCall>,
    last_agent_message: Option<String>,
    finished: bool,
}

/// The texts of a list of strings.
pub open spec fn texts(v: Seq<String>) -> Seq<Seq<char>> {
    Seq::new(v.len(), |i: int| v[i]@)
}

/// `v` extended with empty texts to at least `n` entries.
pub open spec fn padded(v: Seq<Seq<char>>, n: nat) -> Seq<Seq<char>> {
    if v.len() >= n {
        v
    } else {
        v + Seq::new((n - v.len()) as nat, |i: int| Seq::<char>::empty())
    }
}

/// `v` with `delta` appended to entry `i`, padding it first.
pub open spec fn appended_at(v: Seq<Seq<char>>, i: nat, delta: Seq<char>) -> Seq<Seq<char>> {
    padded(v, i + 1).update(i as int, padded(v, i + 1)[i as int] + delta)
}

/// The concatenated output text of assistant content.
pub open spec fn output_text(content: Seq<ContentItem>) -> Seq<char>
    decreases content.len(),
{
    if content.len() == 0 {
        Seq::empty()
    } else {
        output_text(content.drop_last()) + match content.last() {
            ContentItem::OutputText { text } => text@,
            _ => Seq::empty(),
        }
    }
}

/// The assistant text of a model item: the output text of an assistant message.
pub open spec fn assistant_text(item: ResponseItem) -> Option<Seq<char>> {
    match item {
        ResponseItem::Message { role, content, .. } => if role@ == "assistant"@ {
            Some(output_text(content@))
        } else {
            None
        },
        _ => None,
    }
}

/// The placeholder that starts the agent message `id`.
pub open spec fn is_agent_placeholder(a: TurnAction, id: Seq<char>) -> bool {
    a matches TurnAction::ItemStarted(TurnItem::AgentMessage(m)) && m.id@ == id && m.content@.len()
        == 0 && m.phase is None
}

/// The completed agent message `id` with the single text `text`.
pub open spec fn is_agent_completion(a: TurnAction, id: Seq<char>, text: Seq<char>) -> bool {
    a matches TurnAction::ItemCompleted(TurnItem::AgentMessage(m)) && m.id@ == id && m.content@.len()
        == 1 && (m.content@[0] matches AgentMessageContent::Text { text: t } && t@ == text)
        && m.phase is None
}

/// The placeholder that starts the reasoning item `id`.
pub open spec fn is_reasoning_placeholder(a: TurnAction, id: Seq<char>) -> bool {
    a matches TurnAction::ItemStarted(TurnItem::Reasoning(m)) && m.id@ == id && m.summary_text@.len()
        == 0 && m.raw_content@.len() == 0
}

/// The completed reasoning item `id` with these summary and raw parts.
pub open spec fn is_reasoning_completion(
    a: TurnAction,
    id: Seq<char>,
    summaries: Seq<Seq<char>>,
    raw: Seq<Seq<char>>,
) -> bool {
    a matches TurnAction::ItemCompleted(TurnItem::Reasoning(m)) && m.id@ == id && texts(
        m.summary_text@,
    ) == summaries && texts(m.raw_content@) == raw
}

/// Recording the assistant message with the single text `text` in history.
pub open spec fn is_assistant_record(a: TurnAction, text: Seq<char>) -> bool {
    a matches TurnAction::RecordHistory(ResponseInputItem::Message { role, content }) && role@
        == "assistant"@ && content@.len() == 1 && (content@[0] matches ContentItem::InputText {
        text: t,
    } && t@ == text)
}

/// Extends `parts` with empty texts to at least `n` entries.
fn pad_parts(parts: &mut Vec<String>, n: usize)
    ensures
        texts(final(parts)@) == padded(texts(old(parts)@), n as nat),
{
    let ghost orig = texts(parts@);
    if parts.len() >= n {
        return;
    }
    while parts.len() < n
        invariant
            orig.len() <= parts@.len() <= n,
            texts(parts@) == orig + Seq::new((parts@.len() - orig.len()) as nat, |i: int| Seq::<char>::empty()),
        decreases n - parts@.len(),
    {
        let ghost before = texts(parts@);
        parts.push(String::new());
        assert(texts(parts@) =~= before.push(Seq::<char>::empty()));
        assert(texts(parts@) =~= orig + Seq::new((parts@.len() - orig.len()) as nat, |i: int| Seq::<char>::empty()));
    }
}

/// Appends `delta` to entry `index` of `parts`, padding first.
fn append_part(parts: &mut Vec<String>, index: usize, delta: &str)
    requires
        index < usize::MAX,
    ensures
        texts(final(parts)@) == appended_at(texts(old(parts)@), index as nat, delta@),
{
    pad_parts(parts, index + 1);
    assert(texts(parts@).len() == parts@.len());
    assert(padded(texts(old(parts)@), (index + 1) as nat).len() >= index + 1);
    let mut cur = parts[index].clone();
    cur.append(delta);
    let ghost before = parts@;
    parts.set(index, cur);
    assert(texts(parts@) =~= texts(before).update(index as int, texts(before)[index as int] + delta@));
}

/// The actions for a finished model item: persist it, report its UI item if it
/// has one, and record assistant text in history (which becomes the turn's
/// last agent message).
pub open spec fn item_done_actions(
    item: ResponseItem,
    shown: Option<TurnItem>,
    r: Seq<TurnAction>,
    last_before: Option<Seq<char>>,
    last_after: Option<Seq<char>>,
) -> bool {
    let k: int = if shown is Some { 2 } else { 1 };
    &&& r.len() >= 1 && r[0] == TurnAction::PersistItem(item)
    &&& shown matches Some(x) ==> r[1] == TurnAction::ItemCompleted(x)
    &&& match assistant_text(item) {
        Some(t) => if t.len() > 0 {
            r.len() == k + 1 && is_assistant_record(r[k], t) && last_after == Some(t)
        } else {
            r.len() == k && last_after == last_before
        },
        None => r.len() == k && last_after == last_before,
    }
}

/// Concatenated output text of assistant content.
fn output_text_exec(content: &Vec<ContentItem>) -> (r: Vec<char>)
    ensures
        r@ == output_text(content@),
{
    let mut out: Vec<char> = Vec::new();
    let mut i: usize = 0;
    while i < content.len()
        invariant
            i <= content@.len(),
            out@ == output_text(content@.take(i as int)),
        decreases content@.len() - i,
    {
        if let ContentItem::OutputText { text } = &content[i] {
            crate::text::extend_str(&mut out, text.as_str());
        }
        i = i + 1;
        assert(content@.take(i as int).drop_last() =~= content@.take(i - 1));
    }
    assert(content@.take(content@.len() as int) =~= content@);
    out
}

/// Agent text `delta` arrived: the agent message is announced on its first
/// text, the text is added and reported; empty text changes nothing.
pub open spec fn text_delta_step(a: RoundState, b: RoundState, delta: String, r: Seq<TurnAction>) -> bool {
    &&& keeps_reasoning(a, b)
    &&& keeps_calls(a, b)
    &&& keeps_turn(a, b)
    &&& delta@.len() == 0 ==> r.len() == 0 && keeps_agent(a, b)
    &&& delta@.len() > 0 ==> {
        &&& b.spec_agent_started()
        &&& b.spec_text() == a.spec_text() + delta@
        &&& r.len() == if a.spec_agent_started() { 1int } else { 2int }
        &&& !a.spec_agent_started() ==> is_agent_placeholder(r[0], a.spec_agent_id())
        &&& r.last() matches TurnAction::AgentMessageDelta { item_id, delta: d } && item_id@
            == a.spec_agent_id() && d == delta
    }
}

/// The model asked for a tool call: it is recorded in history, persisted, and
/// kept for dispatch after the stream.
pub open spec fn function_call_step(
    a: RoundState,
    b: RoundState,
    call_id: String,
    name: String,
    arguments: String,
    r: Seq<TurnAction>,
) -> bool {
    &&& keeps_agent(a, b)
    &&& keeps_reasoning(a, b)
    &&& keeps_turn(a, b)
    &&& b.spec_pending() == a.spec_pending().push(PendingCall { call_id, name, arguments })
    &&& r == seq![
        TurnAction::RecordHistory(ResponseInputItem::FunctionCall { call_id, name, arguments }),
        TurnAction::PersistItem(ResponseItem::FunctionCall { id: None, name, arguments, call_id }),
    ]
}

/// The response failed: the error is reported and the stream ends.
pub open spec fn failed_step(a: RoundState, b: RoundState, code: String, message: String, r: Seq<TurnAction>) -> bool {
    &&& keeps_agent(a, b)
    &&& keeps_reasoning(a, b)
    &&& keeps_calls(a, b)
    &&& b.spec_last() == a.spec_last()
    &&& b.spec_finished()
    &&& r.len() == 1
    &&& r[0] matches TurnAction::Error(m) && m@ == "API error ["@ + code@ + "]: "@ + message@
}

/// A reasoning summary part began: the reasoning item is announced on first
/// sight and the part gets room.
pub open spec fn summary_part_step(a: RoundState, b: RoundState, summary_index: i64, r: Seq<TurnAction>) -> bool {
    &&& keeps_agent(a, b)
    &&& keeps_calls(a, b)
    &&& keeps_turn(a, b)
    &&& b.spec_reasoning_started()
    &&& b.spec_summaries() == padded(a.spec_summaries(), (summary_index + 1) as nat)
    &&& b.spec_raw() == a.spec_raw()
    &&& a.spec_reasoning_started() ==> r.len() == 0
    &&& !a.spec_reasoning_started() ==> r.len() == 1 && is_reasoning_placeholder(
        r[0],
        a.spec_reasoning_id(),
    )
}

/// Reasoning summary text arrived: the reasoning item is announced on first
/// sight, the text is added to its part and reported; empty text changes nothing.
pub open spec fn summary_delta_step(
    a: RoundState,
    b: RoundState,
    delta: String,
    summary_index: i64,
    r: Seq<TurnAction>,
) -> bool {
    &&& keeps_agent(a, b)
    &&& keeps_calls(a, b)
    &&& keeps_turn(a, b)
    &&& b.spec_raw() == a.spec_raw()
    &&& delta@.len() == 0 ==> r.len() == 0 && keeps_reasoning(a, b)
    &&& delta@.len() > 0 ==> {
        &&& b.spec_reasoning_started()
        &&& b.spec_summaries() == appended_at(a.spec_summaries(), summary_index as nat, delta@)
        &&& r.len() == if a.spec_reasoning_started() { 1int } else { 2int }
        &&& !a.spec_reasoning_started() ==> is_reasoning_placeholder(r[0], a.spec_reasoning_id())
        &&& r.last() matches TurnAction::ReasoningSummaryDelta { item_id, delta: d, summary_index: i }
            && item_id@ == a.spec_reasoning_id() && d == delta && i == summary_index
    }
}

/// Raw reasoning text arrived: the reasoning item is announced on first sight,
/// the text is added to its part and reported; empty text changes nothing.
pub open spec fn content_delta_step(
    a: RoundState,
    b: RoundState,
    delta: String,
    content_index: i64,
    r: Seq<TurnAction>,
) -> bool {
    &&& keeps_agent(a, b)
    &&& keeps_calls(a, b)
    &&& keeps_turn(a, b)
    &&& b.spec_summaries() == a.spec_summaries()
    &&& delta@.len() == 0 ==> r.len() == 0 && keeps_reasoning(a, b)
    &&& delta@.len() > 0 ==> {
        &&& b.spec_reasoning_started()
        &&& b.spec_raw() == appended_at(a.spec_raw(), content_index as nat, delta@)
        &&& r.len() == if a.spec_reasoning_started() { 1int } else { 2int }
        &&& !a.spec_reasoning_started() ==> is_reasoning_placeholder(r[0], a.spec_reasoning_id())
        &&& r.last() matches TurnAction::ReasoningRawDelta { item_id, delta: d, content_index: i }
            && item_id@ == a.spec_reasoning_id() && d == delta && i == content_index
    }
}

/// A model item finished: it is persisted, its UI item reported, and assistant
/// text recorded in history as the turn's last agent message.
pub open spec fn item_done_step(a: RoundState, b: RoundState, item: ResponseItem, r: Seq<TurnAction>) -> bool {
    &&& keeps_agent(a, b)
    &&& keeps_reasoning(a, b)
    &&& keeps_calls(a, b)
    &&& b.spec_finished() == a.spec_finished()
    &&& exists|fresh: String, shown: Option<TurnItem>|
        fresh@.len() == 36 && #[trigger] turn_item_of(item, fresh, shown) && item_done_actions(
            item,
            shown,
            r,
            a.spec_last(),
            b.spec_last(),
        )
}

/// The response completed: token usage is reported, an announced reasoning
/// item completed, and text streamed in a turn without an agent message yet is
/// recorded and completes the agent message. The stream ends.
pub open spec fn completed_step(a: RoundState, b: RoundState, token_usage: Option<TokenUsage>, r: Seq<TurnAction>) -> bool {
    let u: int = if token_usage is Some { 1 } else { 0 };
    let g: int = if a.spec_reasoning_started() { 1 } else { 0 };
    let adds = a.spec_text().len() > 0 && a.spec_last() is None;
    &&& keeps_agent(a, b)
    &&& keeps_reasoning(a, b)
    &&& keeps_calls(a, b)
    &&& b.spec_finished()
    &&& r.len() == u + g + if adds { 2int } else { 0int }
    &&& token_usage matches Some(t) ==> r[0] == TurnAction::TokenCount(t)
    &&& a.spec_reasoning_started() ==> is_reasoning_completion(
        r[u],
        a.spec_reasoning_id(),
        a.spec_summaries(),
        a.spec_raw(),
    )
    &&& adds ==> is_assistant_record(r[u + g], a.spec_text()) && is_agent_completion(
        r[u + g + 1],
        a.spec_agent_id(),
        a.spec_text(),
    ) && b.spec_last() == Some(a.spec_text())
    &&& !adds ==> b.spec_last() == a.spec_last()
}

/// The ids of the round's items are kept.
pub open spec fn keeps_ids(a: RoundState, b: RoundState) -> bool {
    a.spec_agent_id() == b.spec_agent_id() && a.spec_reasoning_id() == b.spec_reasoning_id()
}

/// The agent message of the round is as it was.
pub open spec fn keeps_agent(a: RoundState, b: RoundState) -> bool {
    a.spec_agent_started() == b.spec_agent_started() && a.spec_text() == b.spec_text()
}

/// The reasoning of the round is as it was.
pub open spec fn keeps_reasoning(a: RoundState, b: RoundState) -> bool {
    &&& a.spec_reasoning_started() == b.spec_reasoning_started()
    &&& a.spec_summaries() == b.spec_summaries()
    &&& a.spec_raw() == b.spec_raw()
}

/// The requested tool calls are as they were.
pub open spec fn keeps_calls(a: RoundState, b: RoundState) -> bool {
    a.spec_pending() == b.spec_pending()
}

/// The turn's last agent message and the end of the stream are as they were.
pub open spec fn keeps_turn(a: RoundState, b: RoundState) -> bool {
    a.spec_last() == b.spec_last() && a.spec_finished() == b.spec_finished()
}

impl RoundState {
    /// The id of this round's agent message.
    pub closed spec fn spec_agent_id(&self) -> Seq<char> {
        self.agent_item_id@
    }

    /// The id of this round's reasoning item.
    pub closed spec fn spec_reasoning_id(&self) -> Seq<char> {
        self.reasoning_item_id@
    }

    /// The agent message was announced.
    pub closed spec fn spec_agent_started(&self) -> bool {
        self.agent_started
    }

    /// The reasoning item was announced.
    pub closed spec fn spec_reasoning_started(&self) -> bool {
        self.reasoning_started
    }

    /// The agent text streamed in this round.
    pub closed spec fn spec_text(&self) -> Seq<char> {
        self.text@
    }

    /// The reasoning summary parts streamed in this round.
    pub closed spec fn spec_summaries(&self) -> Seq<Seq<char>> {
        texts(self.summaries@)
    }

    /// The raw reasoning parts streamed in this round.
    pub closed spec fn spec_raw(&self) -> Seq<Seq<char>> {
        texts(self.raw@)
    }

    /// The tool calls requested in this round, in order.
    pub closed spec fn spec_pending(&self) -> Seq<PendingCall> {
        self.pending@
    }

    /// The last agent message of the turn so far.
    pub closed spec fn spec_last(&self) -> Option<Seq<char>> {
        match self.last_agent_message {
            Some(m) => Some(m@),
            None => None,
        }
    }

    /// The stream of this round has ended.
    pub closed spec fn spec_finished(&self) -> bool {
        self.finished
    }

    /// A round whose items get the given ids, in a turn whose last agent
    /// message so far is `last_agent_message`.
    pub fn new(agent_item_id: String, reasoning_item_id: String, last_agent_message: Option<String>) -> (r: Self)
        ensures
            r.spec_agent_id() == agent_item_id@,
            r.spec_reasoning_id() == reasoning_item_id@,
            !r.spec_agent_started(),
            !r.spec_reasoning_started(),
            r.spec_text().len() == 0,
            r.spec_summaries().len() == 0,
            r.spec_raw().len() == 0,
            r.spec_pending().len() == 0,
            r.spec_last() == match last_agent_message {
                Some(m) => Some(m@),
                None => None::<Seq<char>>,
            },
            !r.spec_finished(),
    {
        let r = RoundState {
            agent_item_id,
            reasoning_item_id,
            agent_started: false,
            reasoning_started: false,
            text: String::new(),
            summaries: Vec::new(),
            raw: Vec::new(),
            pending: Vec::new(),
            last_agent_message,
            finished: false,
        };
        assert(r.spec_summaries() =~= Seq::<Seq<char>>::empty());
        assert(r.spec_raw() =~= Seq::<Seq<char>>::empty());
        r
    }


    /// Agent text arrived: announce the agent message on its first text, add
    /// the text, and report it. Empty text changes nothing.
    pub fn on_text_delta(&mut self, delta: String) -> (r: Vec<TurnAction>)
        ensures
            keeps_ids(*old(self), *final(self)),
            text_delta_step(*old(self), *final(self), delta, r@),

    {
        let mut out: Vec<TurnAction> = Vec::new();
        if delta.as_str().is_empty() {
            return out;
        }
        if !self.agent_started {
            self.agent_started = true;
            out.push(TurnAction::ItemStarted(TurnItem::AgentMessage(AgentMessageItem {
                id: self.agent_item_id.clone(),
                content: Vec::new(),
                phase: None,
            })));
        }
        self.text.append(delta.as_str());
        out.push(TurnAction::AgentMessageDelta { item_id: self.agent_item_id.clone(), delta });
        out
    }

    /// The model asked for a tool call: record it in history, persist it, and
    /// keep it for dispatch after the stream.
    pub fn on_function_call(&mut self, call_id: String, name: String, arguments: String) -> (r: Vec<TurnAction>)
        ensures
            keeps_ids(*old(self), *final(self)),
            function_call_step(*old(self), *final(self), call_id, name, arguments, r@),

    {
        let mut out: Vec<TurnAction> = Vec::new();
        out.push(TurnAction::RecordHistory(ResponseInputItem::FunctionCall {
            call_id: call_id.clone(),
            name: name.clone(),
            arguments: arguments.clone(),
        }));
        out.push(TurnAction::PersistItem(ResponseItem::FunctionCall {
            id: None,
            name: name.clone(),
            arguments: arguments.clone(),
            call_id: call_id.clone(),
        }));
        let ghost (c, n, g) = (call_id, name, arguments);
        self.pending.push(PendingCall { call_id, name, arguments });
        assert(out@ =~= seq![
            TurnAction::RecordHistory(ResponseInputItem::FunctionCall { call_id: c, name: n, arguments: g }),
            TurnAction::PersistItem(ResponseItem::FunctionCall { id: None, name: n, arguments: g, call_id: c }),
        ]);
        out
    }

    /// The response failed: report the error and end the stream.
    pub fn on_failed(&mut self, code: String, message: String) -> (r: Vec<TurnAction>)
        ensures
            keeps_ids(*old(self), *final(self)),
            failed_step(*old(self), *final(self), code, message, r@),

    {
        let mut m = crate::text::to_chars("API error [");
        crate::text::extend_str(&mut m, code.as_str());
        crate::text::extend_str(&mut m, "]: ");
        crate::text::extend_str(&mut m, message.as_str());
        self.finished = true;
        let mut out: Vec<TurnAction> = Vec::new();
        out.push(TurnAction::Error(crate::text::from_chars(m.as_slice())));
        out
    }

    /// The stream broke: report the error and end the stream.
    pub fn on_stream_error(&mut self, message: &str) -> (r: Vec<TurnAction>)
        ensures
            keeps_ids(*old(self), *final(self)),
            keeps_agent(*old(self), *final(self)),
            keeps_reasoning(*old(self), *final(self)),
            keeps_calls(*old(self), *final(self)),
            final(self).spec_last() == old(self).spec_last(),
            final(self).spec_finished(),
            r@.len() == 1,
            r@[0] matches TurnAction::Error(m) && m@ == "Stream error: "@ + message@,
    {
        let mut m = crate::text::to_chars("Stream error: ");
        crate::text::extend_str(&mut m, message);
        self.finished = true;
        let mut out: Vec<TurnAction> = Vec::new();
        out.push(TurnAction::Error(crate::text::from_chars(m.as_slice())));
        out
    }


    fn start_reasoning(&mut self, out: &mut Vec<TurnAction>)
        ensures
            keeps_ids(*old(self), *final(self)),
            keeps_agent(*old(self), *final(self)),
            keeps_calls(*old(self), *final(self)),
            keeps_turn(*old(self), *final(self)),
            final(self).spec_summaries() == old(self).spec_summaries(),
            final(self).spec_raw() == old(self).spec_raw(),
            final(self).spec_reasoning_started(),
            old(self).spec_reasoning_started() ==> final(out)@ == old(out)@,
            !old(self).spec_reasoning_started() ==> final(out)@.len() == old(out)@.len() + 1
                && final(out)@.drop_last() == old(out)@ && is_reasoning_placeholder(
                final(out)@.last(),
                old(self).spec_reasoning_id(),
            ),
    {
        if !self.reasoning_started {
            self.reasoning_started = true;
            out.push(TurnAction::ItemStarted(TurnItem::Reasoning(ReasoningItem {
                id: self.reasoning_item_id.clone(),
                summary_text: Vec::new(),
                raw_content: Vec::new(),
            })));
        }
    }

    /// A reasoning summary part began: announce the reasoning item on first
    /// sight and make room for the part.
    pub fn on_summary_part(&mut self, summary_index: i64) -> (r: Vec<TurnAction>)
        requires
            0 <= summary_index < usize::MAX,
        ensures
            keeps_ids(*old(self), *final(self)),
            summary_part_step(*old(self), *final(self), summary_index, r@),

    {
        let mut out: Vec<TurnAction> = Vec::new();
        self.start_reasoning(&mut out);
        let idx = summary_index as usize;
        pad_parts(&mut self.summaries, idx + 1);
        out
    }

    /// Reasoning summary text arrived: announce the reasoning item on first
    /// sight, add the text to its part, and report it. Empty text changes nothing.
    pub fn on_summary_delta(&mut self, delta: String, summary_index: i64) -> (r: Vec<TurnAction>)
        requires
            0 <= summary_index < usize::MAX,
        ensures
            keeps_ids(*old(self), *final(self)),
            summary_delta_step(*old(self), *final(self), delta, summary_index, r@),

    {
        let mut out: Vec<TurnAction> = Vec::new();
        if delta.as_str().is_empty() {
            return out;
        }
        self.start_reasoning(&mut out);
        append_part(&mut self.summaries, summary_index as usize, delta.as_str());
        out.push(TurnAction::ReasoningSummaryDelta {
            item_id: self.reasoning_item_id.clone(),
            delta,
            summary_index,
        });
        out
    }

    /// Raw reasoning text arrived: announce the reasoning item on first sight,
    /// add the text to its part, and report it. Empty text changes nothing.
    pub fn on_content_delta(&mut self, delta: String, content_index: i64) -> (r: Vec<TurnAction>)
        requires
            0 <= content_index < usize::MAX,
        ensures
            keeps_ids(*old(self), *final(self)),
            content_delta_step(*old(self), *final(self), delta, content_index, r@),

    {
        let mut out: Vec<TurnAction> = Vec::new();
        if delta.as_str().is_empty() {
            return out;
        }
        self.start_reasoning(&mut out);
        append_part(&mut self.raw, content_index as usize, delta.as_str());
        out.push(TurnAction::ReasoningRawDelta {
            item_id: self.reasoning_item_id.clone(),
            delta,
            content_index,
        });
        out
    }


    fn record_assistant(text: &[char]) -> (r: TurnAction)
        ensures
            is_assistant_record(r, text@),
    {
        let mut content: Vec<ContentItem> = Vec::new();
        content.push(ContentItem::InputText { text: crate::text::from_chars(text) });
        TurnAction::RecordHistory(ResponseInputItem::Message { role: "assistant".to_owned(), content })
    }

    /// A model item finished: persist it, report its UI item, and record
    /// assistant text in history as the turn's last agent message.
    pub fn on_item_done(&mut self, item: ResponseItem) -> (r: Vec<TurnAction>)
        ensures
            keeps_ids(*old(self), *final(self)),
            item_done_step(*old(self), *final(self), item, r@),

    {
        let shown = parse_turn_item(&item);
        let text: Option<Vec<char>> = match &item {
            ResponseItem::Message { role, content, .. } => if str_eq(role.as_str(), "assistant") {
                Some(output_text_exec(content))
            } else {
                None
            },
            _ => None,
        };
        let ghost it = item;
        let mut out: Vec<TurnAction> = Vec::new();
        out.push(TurnAction::PersistItem(item));
        let ghost sh = shown;
        match shown {
            Some(x) => out.push(TurnAction::ItemCompleted(x)),
            None => {},
        }
        if let Some(t) = text {
            if t.len() > 0 {
                out.push(Self::record_assistant(t.as_slice()));
                self.last_agent_message = Some(crate::text::from_chars(t.as_slice()));
            }
        }
        assert(item_done_actions(it, sh, out@, old(self).spec_last(), self.spec_last()));
        out
    }

    /// The response completed: report token usage, complete the reasoning item
    /// if one was announced, and when text was streamed and the turn has no
    /// agent message yet, record it and complete the agent message. The
    /// stream ends.
    pub fn on_completed(&mut self, token_usage: Option<TokenUsage>) -> (r: Vec<TurnAction>)
        ensures
            keeps_ids(*old(self), *final(self)),
            completed_step(*old(self), *final(self), token_usage, r@),

    {
        let mut out: Vec<TurnAction> = Vec::new();
        if let Some(u) = token_usage {
            out.push(TurnAction::TokenCount(u));
        }
        if self.reasoning_started {
            out.push(TurnAction::ItemCompleted(TurnItem::Reasoning(ReasoningItem {
                id: self.reasoning_item_id.clone(),
                summary_text: crate::text::clone_strings(&self.summaries),
                raw_content: crate::text::clone_strings(&self.raw),
            })));
        }
        if !self.text.as_str().is_empty() && self.last_agent_message.is_none() {
            let t = crate::text::to_chars(self.text.as_str());
            out.push(Self::record_assistant(t.as_slice()));
            let mut content: Vec<AgentMessageContent> = Vec::new();
            content.push(AgentMessageContent::Text { text: self.text.clone() });
            out.push(TurnAction::ItemCompleted(TurnItem::AgentMessage(AgentMessageItem {
                id: self.agent_item_id.clone(),
                content,
                phase: None,
            })));
            self.last_agent_message = Some(self.text.clone());
        }
        self.finished = true;
        out
    }

    /// Does what a stream event calls for; see the handler of each event.
    pub fn on_event(&mut self, event: ResponseEvent) -> (r: Vec<TurnAction>)
        requires
            event matches ResponseEvent::ReasoningSummaryPartAdded { summary_index } ==> 0
                <= summary_index < usize::MAX,
            event matches ResponseEvent::ReasoningSummaryDelta { summary_index, .. } ==> 0
                <= summary_index < usize::MAX,
            event matches ResponseEvent::ReasoningContentDelta { content_index, .. } ==> 0
                <= content_index < usize::MAX,
        ensures
            keeps_ids(*old(self), *final(self)),
            match event {
                ResponseEvent::OutputTextDelta { delta } => text_delta_step(*old(self), *final(self), delta, r@),
                ResponseEvent::FunctionCall { call_id, name, arguments } => function_call_step(
                    *old(self),
                    *final(self),
                    call_id,
                    name,
                    arguments,
                    r@,
                ),
                ResponseEvent::OutputItemDone(item) => item_done_step(*old(self), *final(self), item, r@),
                ResponseEvent::ReasoningSummaryPartAdded { summary_index } => summary_part_step(
                    *old(self),
                    *final(self),
                    summary_index,
                    r@,
                ),
                ResponseEvent::ReasoningSummaryDelta { delta, summary_index } => summary_delta_step(
                    *old(self),
                    *final(self),
                    delta,
                    summary_index,
                    r@,
                ),
                ResponseEvent::ReasoningContentDelta { delta, content_index } => content_delta_step(
                    *old(self),
                    *final(self),
                    delta,
                    content_index,
                    r@,
                ),
                ResponseEvent::Completed { token_usage, .. } => completed_step(
                    *old(self),
                    *final(self),
                    token_usage,
                    r@,
                ),
                ResponseEvent::Failed { code, message } => failed_step(*old(self), *final(self), code, message, r@),
                _ => r@.len() == 0 && keeps_agent(*old(self), *final(self)) && keeps_reasoning(
                    *old(self),
                    *final(self),
                ) && keeps_calls(*old(self), *final(self)) && keeps_turn(*old(self), *final(self)),
            },
    {
        match event {
            ResponseEvent::OutputTextDelta { delta } => self.on_text_delta(delta),
            ResponseEvent::FunctionCall { call_id, name, arguments } => self.on_function_call(
                call_id,
                name,
                arguments,
            ),
            ResponseEvent::OutputItemDone(item) => self.on_item_done(item),
            ResponseEvent::ReasoningSummaryPartAdded { summary_index } => self.on_summary_part(summary_index),
            ResponseEvent::ReasoningSummaryDelta { delta, summary_index } => self.on_summary_delta(
                delta,
                summary_index,
            ),
            ResponseEvent::ReasoningContentDelta { delta, content_index } => self.on_content_delta(
                delta,
                content_index,
            ),
            ResponseEvent::Completed { token_usage, .. } => self.on_completed(token_usage),
            ResponseEvent::Failed { code, message } => self.on_failed(code, message),
            _ => Vec::new(),
        }
    }

    /// The tool calls requested in this round, leaving none behind.
    pub fn take_pending(&mut self) -> (r: Vec<PendingCall>)
        ensures
            r@ == old(self).spec_pending(),
            final(self).spec_pending().len() == 0,
            final(self).spec_last() == old(self).spec_last(),
            final(self).spec_finished() == old(self).spec_finished(),
    {
        let mut out: Vec<PendingCall> = Vec::new();
        std::mem::swap(&mut out, &mut self.pending);
        out
    }

    /// The last agent message of the turn.
    pub fn last_agent_message(&self) -> (r: Option<String>)
        ensures
            match r {
                Some(m) => self.spec_last() == Some(m@),
                None => self.spec_last() is None,
            },
    {
        match &self.last_agent_message {
            Some(m) => Some(m.clone()),
            None => None,
        }
    }

    /// Whether the stream of this round has ended.
    pub fn is_finished(&self) -> (r: bool)
        ensures
            r == self.spec_finished(),
    {
        self.finished
    }
}

// ── Turn-level decisions ─────────────────────────────────────────

/// Round `round` (counted from 1) of a turn may run.
pub fn round_allowed(round: usize) -> (r: bool)
    ensures
        r == (round <= MAX_TOOL_ROUNDS),
{
    round <= MAX_TOOL_ROUNDS
}

/// The warning when a turn stops for taking too many rounds.
pub fn rounds_exceeded_warning() -> (r: String)
    ensures
        r@ == "Tool call loop exceeded 32 rounds, stopping"@,
{
    "Tool call loop exceeded 32 rounds, stopping".to_owned()
}

/// Another round follows when this one asked for tool calls.
pub fn needs_follow_up(pending: &Vec<PendingCall>) -> (r: bool)
    ensures
        r == (pending@.len() > 0),
{
    pending.len() > 0
}

/// The error reported when the stream of a round cannot be started.
pub fn stream_start_error(message: &str) -> (r: String)
    ensures
        r@ == "Failed to start API stream: "@ + message@,
{
    let mut m = to_chars("Failed to start API stream: ");
    extend_str(&mut m, message);
    from_chars(m.as_slice())
}

/// What a tool call's result reads as in history: the result's JSON text, or
/// `Error: ` and the error's message.
pub fn tool_output_text(result: Result<String, CodexError>) -> (r: String)
    ensures
        match result {
            Ok(v) => r@ == v@,
            Err(e) => r@ == "Error: "@ + e.message@,
        },
{
    match result {
        Ok(v) => v,
        Err(e) => {
            let mut m = to_chars("Error: ");
            extend_str(&mut m, e.message.as_str());
            from_chars(m.as_slice())
        },
    }
}

/// Recording a tool call's output in history, and persisting it.
pub fn tool_output_actions(call_id: String, output: String) -> (r: Vec<TurnAction>)
    ensures
        r@ == seq![
            TurnAction::RecordHistory(ResponseInputItem::FunctionCallOutput {
                call_id,
                output: FunctionCallOutputPayload { body: crate::protocol::FunctionCallOutputBody::Text(output), success: None },
            }),
            TurnAction::PersistItem(ResponseItem::FunctionCallOutput {
                call_id,
                output: FunctionCallOutputPayload { body: crate::protocol::FunctionCallOutputBody::Text(output), success: None },
            }),
        ],
{
    let mut out: Vec<TurnAction> = Vec::new();
    out.push(TurnAction::RecordHistory(ResponseInputItem::FunctionCallOutput {
        call_id: call_id.clone(),
        output: FunctionCallOutputPayload::from_text(output.clone()),
    }));
    out.push(TurnAction::PersistItem(ResponseItem::FunctionCallOutput {
        call_id,
        output: FunctionCallOutputPayload::from_text(output),
    }));
    out
}

/// The texts of the text inputs, in order.
pub open spec fn input_texts(items: Seq<UserInput>) -> Seq<Seq<char>>
    decreases items.len(),
{
    if items.len() == 0 {
        Seq::empty()
    } else {
        input_texts(items.drop_last()) + match items.last() {
            UserInput::Text { text, .. } => seq![text@],
            _ => Seq::empty(),
        }
    }
}

/// The user's text of a turn: its text inputs joined by newlines.
pub fn user_turn_text(items: &[UserInput]) -> (r: String)
    ensures
        r@ == join_spec(input_texts(items@), "\n"@),
{
    let mut parts: Vec<Vec<char>> = Vec::new();
    let mut i: usize = 0;
    while i < items.len()
        invariant
            i <= items@.len(),
            vviews(parts@) == input_texts(items@.take(i as int)),
        decreases items@.len() - i,
    {
        let ghost before = parts@;
        if let UserInput::Text { text, .. } = &items[i] {
            parts.push(to_chars(text.as_str()));
        }
        assert(items@.take(i + 1).drop_last() =~= items@.take(i as int));
        assert(vviews(parts@) =~= input_texts(items@.take(i + 1)));
        i = i + 1;
    }
    assert(items@.take(items@.len() as int) =~= items@);
    let sep = to_chars("\n");
    let text = join(&parts, sep.as_slice());
    from_chars(text.as_slice())
}

/// The model of a turn: the configured one, else the session's unless it is
/// empty or `default`, else `gpt-4o`.
pub open spec fn turn_model(configured: Option<Seq<char>>, session: Option<Seq<char>>) -> Seq<char> {
    match configured {
        Some(m) => m,
        None => match session {
            Some(s) => if s.len() > 0 && s != "default"@ {
                s
            } else {
                "gpt-4o"@
            },
            None => "gpt-4o"@,
        },
    }
}

/// The model of a turn.
pub fn resolve_turn_model(configured: Option<&str>, session: Option<&str>) -> (r: String)
    ensures
        r@ == turn_model(
            match configured {
                Some(m) => Some(m@),
                None => None,
            },
            match session {
                Some(s) => Some(s@),
                None => None,
            },
        ),
{
    proof {
        reveal_strlit("default");
        reveal_strlit("gpt-4o");
    }
    match configured {
        Some(m) => m.to_owned(),
        None => match session {
            Some(s) => if !s.is_empty() && !str_eq(s, "default") {
                s.to_owned()
            } else {
                "gpt-4o".to_owned()
            },
            None => "gpt-4o".to_owned(),
        },
    }
}

/// The provider of a turn: the configured one, else the session's when it is
/// not empty, else none (empty).
pub fn resolve_provider_id(configured: Option<&str>, session: Option<&str>) -> (r: String)
    ensures
        r@ == match configured {
            Some(p) => p@,
            None => match session {
                Some(s) => s@,
                None => Seq::<char>::empty(),
            },
        },
{
    match configured {
        Some(p) => p.to_owned(),
        None => match session {
            Some(s) => s.to_owned(),
            None => String::new(),
        },
    }
}

/// The instructions of a turn: the skills section and the user's custom
/// instructions, separated by a blank line when both are present.
pub fn combine_instructions(skills: Option<String>, custom: Option<String>) -> (r: Option<String>)
    ensures
        match (skills, custom) {
            (Some(s), Some(c)) => r matches Some(x) && x@ == s@ + "\n\n"@ + c@,
            (Some(s), None) => r == Some(s),
            (None, Some(c)) => r == Some(c),
            (None, None) => r is None,
        },
{
    match (skills, custom) {
        (Some(s), Some(c)) => {
            let mut m = to_chars(s.as_str());
            extend_str(&mut m, "\n\n");
            extend_str(&mut m, c.as_str());
            Some(from_chars(m.as_slice()))
        },
        (Some(s), None) => Some(s),
        (None, Some(c)) => Some(c),
        (None, None) => None,
    }
}

/// The thread is named after the user's text on its first turn.
pub fn should_name_thread(turn_id: &str, user_text: &str) -> (r: bool)
    ensures
        r == (turn_id@ == "turn-1"@ && user_text@.len() > 0),
{
    str_eq(turn_id, "turn-1") && !user_text.is_empty()
}

// ── Session start ────────────────────────────────────────────────

/// Where a session's history comes from.
#[derive(Debug)]
pub enum InitialHistory<I> {
    /// A brand new session.
    New,
    /// A session resumed from its recorded items (keeping its thread id).
    Resumed(Vec<I>),
    /// A new session forked from recorded items.
    Forked(Vec<I>),
}

impl<I> InitialHistory<I> {
    /// How many recorded items the session starts with.
    pub fn entry_count(&self) -> (r: usize)
        ensures
            r == match self {
                InitialHistory::New => 0,
                InitialHistory::Resumed(v) => v@.len(),
                InitialHistory::Forked(v) => v@.len(),
            },
    {
        match self {
            InitialHistory::New => 0,
            InitialHistory::Resumed(v) => v.len(),
            InitialHistory::Forked(v) => v.len(),
        }
    }

    /// Whether the session continues recorded history.
    pub fn can_append(&self) -> (r: bool)
        ensures
            r == !(self is New),
    {
        match self {
            InitialHistory::New => false,
            _ => true,
        }
    }
}

/// The history of a fork: the kept items, or a new session when none are kept.
pub fn forked_history<I>(kept: Vec<I>) -> (r: InitialHistory<I>)
    ensures
        kept@.len() == 0 ==> r is New,
        kept@.len() > 0 ==> (r matches InitialHistory::Forked(v) && v@ == kept@),
{
    if kept.len() == 0 {
        InitialHistory::New
    } else {
        InitialHistory::Forked(kept)
    }
}

/// The model a session reports at start: the configured one, else `default`.
pub fn session_model(configured: Option<&str>) -> (r: String)
    ensures
        r@ == match configured {
            Some(m) => m@,
            None => "default"@,
        },
{
    match configured {
        Some(m) => m.to_owned(),
        None => "default".to_owned(),
    }
}

/// The warning when a session resumes with another model than it was recorded with.
pub fn model_mismatch_warning(recorded: &str, current: &str) -> (r: Option<String>)
    ensures
        recorded@ == current@ ==> r is None,
        recorded@ != current@ ==> (r matches Some(m) && m@ == "This session was recorded with model `"@
            + recorded@ + "` but is resuming with `"@ + current@
            + "`. Consider switching back to `"@ + recorded@ + "` as it may affect performance."@),
{
    if str_eq(recorded, current) {
        return None;
    }
    let mut m = to_chars("This session was recorded with model `");
    extend_str(&mut m, recorded);
    extend_str(&mut m, "` but is resuming with `");
    extend_str(&mut m, current);
    extend_str(&mut m, "`. Consider switching back to `");
    extend_str(&mut m, recorded);
    extend_str(&mut m, "` as it may affect performance.");
    Some(from_chars(m.as_slice()))
}

// ── Approvals ────────────────────────────────────────────────────

/// The user's answer to an approval request.
#[derive(Debug)]
pub enum ReviewDecision {
    Approved,
    ApprovedForSession,
    ApprovedExecpolicyAmendment { proposed_execpolicy_amendment: ExecPolicyAmendment },
    Denied,
    Abort,
}

/// What a decision does first.
#[derive(Debug, Clone, Copy, PartialEq, Eq, Structural)]
pub enum ReviewEffect {
    /// Interrupt the turn and report it aborted.
    InterruptTurn,
    /// Drop the pending request.
    DeclinePending,
    /// Carry out the pending request.
    ApprovePending,
}

/// Abort interrupts the turn, denial drops the request, any approval carries it out.
pub fn review_effect(decision: &ReviewDecision) -> (r: ReviewEffect)
    ensures
        r == match decision {
            ReviewDecision::Abort => ReviewEffect::InterruptTurn,
            ReviewDecision::Denied => ReviewEffect::DeclinePending,
            _ => ReviewEffect::ApprovePending,
        },
{
    match decision {
        ReviewDecision::Abort => ReviewEffect::InterruptTurn,
        ReviewDecision::Denied => ReviewEffect::DeclinePending,
        _ => ReviewEffect::ApprovePending,
    }
}

/// Custom instructions given with a decision are kept for the next turn unless empty.
pub fn instructions_to_keep(custom_instructions: Option<String>) -> (r: Option<String>)
    ensures
        match custom_instructions {
            Some(c) => if c@.len() > 0 {
                r == Some(c)
            } else {
                r is None
            },
            None => r is None,
        },
{
    match custom_instructions {
        Some(c) => if c.as_str().is_empty() {
            None
        } else {
            Some(c)
        },
        None => None,
    }
}

/// What approving a command changes besides running it.
#[derive(Debug)]
pub struct ExecApprovalUpdates {
    /// A command prefix added to the session's allow list.
    pub allow_prefix: Option<Vec<String>>,
    /// A prefix rule to add to the policy file.
    pub persist_rule: Option<Vec<String>>,
}

/// For an approved command: approval for the session allows the pending
/// command from now on; approval with an amendment allows the amendment's
/// prefix and writes it to the policy file; plain approval changes nothing else.
pub fn exec_approval_updates(decision: &ReviewDecision, pending_command: Option<&Vec<String>>) -> (r: ExecApprovalUpdates)
    ensures
        match decision {
            ReviewDecision::ApprovedForSession => r.persist_rule is None && match pending_command {
                Some(c) => r.allow_prefix matches Some(p) && p@ == c@,
                None => r.allow_prefix is None,
            },
            ReviewDecision::ApprovedExecpolicyAmendment { proposed_execpolicy_amendment: a } => (r.allow_prefix
                matches Some(p) && p@ == a.command@) && (r.persist_rule matches Some(q) && q@ == a.command@),
            _ => r.allow_prefix is None && r.persist_rule is None,
        },
{
    match decision {
        ReviewDecision::ApprovedForSession => ExecApprovalUpdates {
            allow_prefix: match pending_command {
                Some(c) => Some(crate::text::clone_strings(c)),
                None => None,
            },
            persist_rule: None,
        },
        ReviewDecision::ApprovedExecpolicyAmendment { proposed_execpolicy_amendment } => ExecApprovalUpdates {
            allow_prefix: Some(crate::text::clone_strings(&proposed_execpolicy_amendment.command)),
            persist_rule: Some(crate::text::clone_strings(&proposed_execpolicy_amendment.command)),
        },
        _ => ExecApprovalUpdates { allow_prefix: None, persist_rule: None },
    }
}

/// The warning when the policy file cannot be amended.
pub fn amend_failure_warning(detail: &str) -> (r: String)
    ensures
        r@ == "failed to amend execpolicy: "@ + detail@,
{
    let mut m = to_chars("failed to amend execpolicy: ");
    extend_str(&mut m, detail);
    from_chars(m.as_slice())
}

/// What a declined patch reports as its error output.
pub fn patch_declined_stderr() -> (r: String)
    ensures
        r@ == "patch declined by user"@,
{
    "patch declined by user".to_owned()
}

/// The error for a tool that no handler serves.
pub fn tool_not_found(tool_name: &str) -> (r: CodexError)
    ensures
        r.code == crate::protocol::ErrorCode::ToolExecutionFailed,
        r.message@ == "no handler found for tool: "@ + tool_name@,
{
    let mut m = to_chars("no handler found for tool: ");
    extend_str(&mut m, tool_name);
    CodexError::new(crate::protocol::ErrorCode::ToolExecutionFailed, from_chars(m.as_slice()))
}

/// The error reported when a tool call fails.
pub fn tool_failure_message(tool_name: &str, error: &CodexError) -> (r: String)
    ensures
        r@ == "tool call '"@ + tool_name@ + "' failed: "@ + error.message@,
{
    let mut m = to_chars("tool call '");
    extend_str(&mut m, tool_name);
    extend_str(&mut m, "' failed: ");
    extend_str(&mut m, error.message.as_str());
    from_chars(m.as_slice())
}

/// The event that opens a tool call: the call, the tool and its arguments (as
/// JSON text), with no server named.
pub fn tool_call_begin_event(call_id: &str, tool_name: &str, arguments: String) -> (r: EventMsg)
    ensures
        r matches EventMsg::McpToolCallBegin(e) && e.call_id@ == call_id@ && e.invocation.server@.len() == 0
            && e.invocation.tool@ == tool_name@ && e.invocation.arguments == Some(arguments),
{
    EventMsg::McpToolCallBegin(McpToolCallBeginEvent {
        call_id: call_id.to_owned(),
        invocation: McpInvocation { server: String::new(), tool: tool_name.to_owned(), arguments: Some(arguments) },
    })
}

/// What closes a tool call that took `duration_ms`: the events to send and the
/// output to record in history. A result is reported as returned content, not
/// an error, and recorded as the call's output; a failure is reported as an
/// error event naming the tool, then as the call's error, and nothing is recorded.
pub fn tool_call_closing(call_id: &str, tool_name: &str, duration_ms: u64, result: &Result<String, CodexError>) -> (r: (
    Vec<EventMsg>,
    Option<ResponseInputItem>,
))
    ensures
        match result {
            Ok(v) => r.0@.len() == 1 && (r.0@[0] matches EventMsg::McpToolCallEnd(e) && e.call_id@ == call_id@
                && e.invocation.server@.len() == 0 && e.invocation.tool@ == tool_name@ && e.invocation.arguments
                is None && e.duration_ms == duration_ms && e.result == ToolCallResult::Returned(
                CallToolResult { content: Some(*v), is_error: Some(false) },
            )) && (r.1 matches Some(ResponseInputItem::FunctionCallOutput { call_id: c, output }) && c@
                == call_id@ && output == FunctionCallOutputPayload {
                body: crate::protocol::FunctionCallOutputBody::Text(*v),
                success: None,
            }),
            Err(err) => r.0@.len() == 2 && (r.0@[0] matches EventMsg::Error(ev) && ev.message@ == "tool call '"@
                + tool_name@ + "' failed: "@ + err.message@) && (r.0@[1] matches EventMsg::McpToolCallEnd(e)
                && e.call_id@ == call_id@ && e.invocation.server@.len() == 0 && e.invocation.tool@ == tool_name@
                && e.invocation.arguments is None && e.duration_ms == duration_ms && e.result == ToolCallResult::Failed(err.message)) && r.1 is None,
        },
{
    let invocation = McpInvocation { server: String::new(), tool: tool_name.to_owned(), arguments: None };
    let mut events: Vec<EventMsg> = Vec::new();
    match result {
        Ok(v) => {
            events.push(EventMsg::McpToolCallEnd(McpToolCallEndEvent {
                call_id: call_id.to_owned(),
                invocation,
                duration_ms,
                result: ToolCallResult::Returned(CallToolResult { content: Some(v.clone()), is_error: Some(false) }),
            }));
            let record = ResponseInputItem::FunctionCallOutput {
                call_id: call_id.to_owned(),
                output: FunctionCallOutputPayload::from_text(v.clone()),
            };
            (events, Some(record))
        },
        Err(e) => {
            events.push(EventMsg::Error(ErrorEvent { message: tool_failure_message(tool_name, e) }));
            events.push(EventMsg::McpToolCallEnd(McpToolCallEndEvent {
                call_id: call_id.to_owned(),
                invocation,
                duration_ms,
                result: ToolCallResult::Failed(e.message.clone()),
            }));
            (events, None)
        },
    }
}

// ── The bracket of a turn ────────────────────────────────────────

/// The event that opens a turn.
pub fn turn_started_event(turn_id: &str, model_context_window: Option<i64>) -> (r: EventMsg)
    ensures
        r matches EventMsg::TurnStarted(e) && e.turn_id@ == turn_id@ && e.model_context_window == model_context_window,
{
    EventMsg::TurnStarted(TurnStartedEvent { turn_id: turn_id.to_owned(), model_context_window })
}

/// The history item that records a turn's user input: a user message with the
/// texts of the input joined by newlines, unless that is empty.
pub fn user_history_item(items: &[UserInput]) -> (r: Option<ResponseInputItem>)
    ensures
        join_spec(input_texts(items@), "\n"@).len() == 0 ==> r is None,
        join_spec(input_texts(items@), "\n"@).len() > 0 ==> (r matches Some(
            ResponseInputItem::Message { role, content },
        ) && role@ == "user"@ && content@.len() == 1 && (content@[0] matches ContentItem::InputText { text }
            && text@ == join_spec(input_texts(items@), "\n"@))),
{
    let text = user_turn_text(items);
    if to_chars(text.as_str()).len() == 0 {
        None
    } else {
        proof {
            reveal_strlit("user");
        }
        Some(ResponseInputItem::text_message("user", text))
    }
}

/// Why a turn could not reach the model.
#[derive(Debug)]
pub enum TurnStartFailure {
    /// The provider has no API key configured.
    MissingApiKey,
    /// Reading the provider's API key failed with this message.
    ApiKeyError(String),
    /// No provider of this id (nor the default one) is known.
    UnknownProvider,
}

/// The error message of a turn that could not reach the model.
pub fn turn_start_failure_message(provider_id: &str, failure: TurnStartFailure) -> (r: String)
    ensures
        r@ == match failure {
            TurnStartFailure::MissingApiKey => "No API key configured for provider '"@ + provider_id@ + "'"@,
            TurnStartFailure::ApiKeyError(m) => m@,
            TurnStartFailure::UnknownProvider => "Unknown provider '"@ + provider_id@
                + "'. Configure model_provider in settings."@,
        },
{
    match failure {
        TurnStartFailure::MissingApiKey => {
            let mut m = to_chars("No API key configured for provider '");
            extend_str(&mut m, provider_id);
            extend_str(&mut m, "'");
            from_chars(m.as_slice())
        },
        TurnStartFailure::ApiKeyError(m) => m,
        TurnStartFailure::UnknownProvider => {
            let mut m = to_chars("Unknown provider '");
            extend_str(&mut m, provider_id);
            extend_str(&mut m, "'. Configure model_provider in settings.");
            from_chars(m.as_slice())
        },
    }
}

/// The events that close a turn, on every exit: the error that ended it
/// early, if one did, and then the completion of the turn with the last agent
/// message (none when it ended early). The hooks are told and the session's
/// turn is completed before these are sent.
pub fn turn_closing_events(turn_id: &str, early_error: Option<String>, last_agent_message: Option<String>) -> (r: Vec<
    EventMsg,
>)
    ensures
        match early_error {
            Some(m) => r@.len() == 2 && r@[0] == EventMsg::Error(ErrorEvent { message: m }) && (r@[1] matches EventMsg::TurnComplete(
                e,
            ) && e.turn_id@ == turn_id@ && e.last_agent_message is None),
            None => r@.len() == 1 && (r@[0] matches EventMsg::TurnComplete(e) && e.turn_id@ == turn_id@
                && e.last_agent_message == last_agent_message),
        },
{
    let mut out: Vec<EventMsg> = Vec::new();
    match early_error {
        Some(m) => {
            out.push(EventMsg::Error(ErrorEvent { message: m }));
            out.push(EventMsg::TurnComplete(TurnCompleteEvent { turn_id: turn_id.to_owned(), last_agent_message: None }));
        },
        None => {
            out.push(EventMsg::TurnComplete(TurnCompleteEvent { turn_id: turn_id.to_owned(), last_agent_message }));
        },
    }
    out
}

} // verus!
