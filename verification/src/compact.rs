//! Compaction of conversation history: the text the summarizer reads and the
//! history that replaces the summarized items.
use vstd::prelude::*;

use crate::context::history::{copy_item, item_same, items_same};
use crate::protocol::{
    contents_text, contents_text_exec, ContentItem, FunctionCallOutputBody, ResponseInputItem,
};
use crate::text::{
    decimal, decimal_spec, extend_chars, extend_str, from_chars, join, join_spec, to_chars, vviews,
};

verus! {

/// The outcome of a compaction: the new history and whether it differs.
#[derive(Debug)]
pub struct CompactResult {
    pub history: Vec<ResponseInputItem>,
    pub changed: bool,
}

/// One item as the summarizer reads it.
pub open spec fn summary_line(item: ResponseInputItem) -> Seq<char> {
    match item {
        ResponseInputItem::Message { role, content } => "["@ + role@ + "]: "@ + contents_text(content@),
        ResponseInputItem::FunctionCall { name, arguments, .. } => "[function_call:"@ + name@ + "]: "@
            + arguments@,
        ResponseInputItem::FunctionCallOutput { output, .. } => "[function_output]: "@ + match output.body {
            FunctionCallOutputBody::Text(s) => s@,
            FunctionCallOutputBody::ContentItems(v) => "("@ + decimal_spec(v@.len()) + " items)"@,
        },
        ResponseInputItem::McpToolCallOutput { call_id, .. } => "[mcp_tool_output:"@ + call_id@ + "]"@,
        ResponseInputItem::CustomToolCallOutput { call_id, .. } => "[custom_tool_output:"@ + call_id@
            + "]"@,
    }
}

/// The lines of a list of items.
pub open spec fn summary_lines(items: Seq<ResponseInputItem>) -> Seq<Seq<char>> {
    Seq::new(items.len(), |i: int| summary_line(items[i]))
}

fn summary_line_exec(item: &ResponseInputItem) -> (r: Vec<char>)
    ensures
        r@ == summary_line(*item),
{
    match item {
        ResponseInputItem::Message { role, content } => {
            let mut out = to_chars("[");
            extend_str(&mut out, role.as_str());
            extend_str(&mut out, "]: ");
            let t = contents_text_exec(content);
            extend_chars(&mut out, t.as_slice());
            out
        },
        ResponseInputItem::FunctionCall { name, arguments, .. } => {
            let mut out = to_chars("[function_call:");
            extend_str(&mut out, name.as_str());
            extend_str(&mut out, "]: ");
            extend_str(&mut out, arguments.as_str());
            out
        },
        ResponseInputItem::FunctionCallOutput { output, .. } => {
            let mut out = to_chars("[function_output]: ");
            match &output.body {
                FunctionCallOutputBody::Text(s) => extend_str(&mut out, s.as_str()),
                FunctionCallOutputBody::ContentItems(v) => {
                    extend_str(&mut out, "(");
                    let d = decimal(v.len() as u64);
                    extend_chars(&mut out, d.as_slice());
                    extend_str(&mut out, " items)");
                },
            }
            out
        },
        ResponseInputItem::McpToolCallOutput { call_id, .. } => {
            let mut out = to_chars("[mcp_tool_output:");
            extend_str(&mut out, call_id.as_str());
            extend_str(&mut out, "]");
            out
        },
        ResponseInputItem::CustomToolCallOutput { call_id, .. } => {
            let mut out = to_chars("[custom_tool_output:");
            extend_str(&mut out, call_id.as_str());
            extend_str(&mut out, "]");
            out
        },
    }
}

/// The history as the summarizer reads it: one line per item.
pub fn format_history_for_summary(items: &[ResponseInputItem]) -> (r: String)
    ensures
        r@ == join_spec(summary_lines(items@), "\n"@),
{
    let mut lines: Vec<Vec<char>> = Vec::new();
    let mut i: usize = 0;
    while i < items.len()
        invariant
            i <= items@.len(),
            lines@.len() == i,
            forall|k: int| 0 <= k < i ==> (#[trigger] lines@[k])@ == summary_line(items@[k]),
        decreases items@.len() - i,
    {
        lines.push(summary_line_exec(&items[i]));
        i = i + 1;
    }
    assert(vviews(lines@) =~= summary_lines(items@));
    let sep = to_chars("\n");
    let text = join(&lines, sep.as_slice());
    from_chars(text.as_slice())
}

/// The instructions sent to the summarizer, around the history text.
pub open spec fn summarization_prompt(history_text: Seq<char>) -> Seq<char> {
    "You are a conversation summarizer. Given the following conversation history, produce a concise summary that preserves all important context, decisions, and action items. The summary should be short enough to fit in a single message but detailed enough that the conversation can continue without losing context.\n\nConversation:\n"@
        + history_text + "\n\nSummary:"@
}

/// The prompt that asks for a summary of everything but the last two items;
/// `None` when the history has at most three items and is kept as it is.
pub fn summary_request(history: &[ResponseInputItem]) -> (r: Option<String>)
    ensures
        history@.len() <= 3 ==> r is None,
        history@.len() > 3 ==> (r matches Some(p) && p@ == summarization_prompt(
            join_spec(summary_lines(history@.take(history@.len() - 2)), "\n"@),
        )),
{
    if history.len() <= 3 {
        return None;
    }
    let split_point = history.len() - 2;
    let older = slice_prefix(history, split_point);
    let text = format_history_for_summary(older.as_slice());
    let mut out = to_chars(
        "You are a conversation summarizer. Given the following conversation history, produce a concise summary that preserves all important context, decisions, and action items. The summary should be short enough to fit in a single message but detailed enough that the conversation can continue without losing context.\n\nConversation:\n",
    );
    extend_str(&mut out, text.as_str());
    extend_str(&mut out, "\n\nSummary:");
    Some(from_chars(out.as_slice()))
}

fn slice_prefix(items: &[ResponseInputItem], n: usize) -> (r: Vec<ResponseInputItem>)
    requires
        n <= items@.len(),
    ensures
        r@.len() == n,
        forall|k: int| 0 <= k < n ==> item_same(#[trigger] r@[k], items@[k]),
        summary_lines(r@) == summary_lines(items@.take(n as int)),
{
    let mut out: Vec<ResponseInputItem> = Vec::new();
    let mut i: usize = 0;
    while i < n
        invariant
            i <= n,
            n <= items@.len(),
            out@.len() == i,
            forall|k: int| 0 <= k < i ==> item_same(#[trigger] out@[k], items@[k]),
        decreases n - i,
    {
        out.push(copy_item(&items[i]));
        i = i + 1;
    }
    assert forall|k: int| 0 <= k < n implies summary_line(out@[k]) == summary_line(items@[k]) by {
        assert(item_same(out@[k], items@[k]));
    }
    assert(summary_lines(out@) =~= summary_lines(items@.take(n as int)));
    out
}

/// The system message that carries a summary.
pub open spec fn is_summary_message(item: ResponseInputItem, summary: Seq<char>) -> bool {
    item matches ResponseInputItem::Message { role, content } && role@ == "system"@ && content@.len()
        == 1 && (content@[0] matches ContentItem::InputText { text } && text@
        == "[Conversation Summary]\n"@ + summary)
}

/// The history after summarizing: unchanged when it has at most three items;
/// else the summary as a system message followed by the last two items.
pub fn compacted_with_summary(history: &[ResponseInputItem], summary: &str) -> (r: CompactResult)
    ensures
        history@.len() <= 3 ==> !r.changed && items_same(r.history@, history@),
        history@.len() > 3 ==> (r.changed && r.history@.len() == 3 && is_summary_message(
            r.history@[0],
            summary@,
        ) && item_same(r.history@[1], history@[history@.len() - 2]) && item_same(
            r.history@[2],
            history@[history@.len() - 1],
        )),
{
    let n = history.len();
    if n <= 3 {
        let copy = slice_prefix(history, n);
        return CompactResult { history: copy, changed: false };
    }
    let mut text = to_chars("[Conversation Summary]\n");
    extend_str(&mut text, summary);
    let mut content: Vec<ContentItem> = Vec::new();
    content.push(ContentItem::InputText { text: from_chars(text.as_slice()) });
    let mut out: Vec<ResponseInputItem> = Vec::new();
    out.push(ResponseInputItem::Message { role: "system".to_owned(), content });
    out.push(copy_item(&history[n - 2]));
    out.push(copy_item(&history[n - 1]));
    CompactResult { history: out, changed: true }
}

} // verus!
