//! Conversion of model items into the items a turn shows in the UI.
use vstd::prelude::*;

use crate::protocol::{
    AgentMessageContent, AgentMessageItem, ContentItem, ReasoningContentItem, ReasoningItem,
    ReasoningSummaryItem, ResponseItem, TurnItem, UserInput, UserMessageItem, WebSearchAction,
    WebSearchItem,
};
use crate::text::{
    clone_opt_string, ends_with, ends_with_spec, eq_ignore_ascii_case, eq_ignore_ascii_case_spec,
    extend_chars, extend_str, from_chars, join, join_spec, starts_with, starts_with_spec, str_eq,
    sub_chars, to_chars, trim_end, trim_end_spec, trim_start, trim_start_spec, vviews,
};

verus! {

// ── Contextual user messages ─────────────────────────────────────

/// Start and end markers of the contextual fragments that the UI hides.
pub open spec fn contextual_markers() -> Seq<(Seq<char>, Seq<char>)> {
    seq![
        ("# AGENTS.md instructions for "@, "</INSTRUCTIONS>"@),
        ("<environment_context>"@, "</environment_context>"@),
        ("<skill>"@, "</skill>"@),
        ("<user_shell_command>"@, "</user_shell_command>"@),
        ("<turn_aborted>"@, "</turn_aborted>"@),
        ("<subagent_notification>"@, "</subagent_notification>"@),
    ]
}

/// The marker pair with index `i < 6`.
fn contextual_marker(i: usize) -> (r: (&'static str, &'static str))
    requires
        i < 6,
    ensures
        r.0@ == contextual_markers()[i as int].0,
        r.1@ == contextual_markers()[i as int].1,
{
    if i == 0 {
        ("# AGENTS.md instructions for ", "</INSTRUCTIONS>")
    } else if i == 1 {
        ("<environment_context>", "</environment_context>")
    } else if i == 2 {
        ("<skill>", "</skill>")
    } else if i == 3 {
        ("<user_shell_command>", "</user_shell_command>")
    } else if i == 4 {
        ("<turn_aborted>", "</turn_aborted>")
    } else {
        ("<subagent_notification>", "</subagent_notification>")
    }
}

/// Text that, trimmed, opens with `start` and closes with `end`, up to ASCII case.
pub open spec fn wrapped_in(text: Seq<char>, start: Seq<char>, end: Seq<char>) -> bool {
    let s = trim_start_spec(text);
    let e = trim_end_spec(text);
    &&& s.len() >= start.len() && eq_ignore_ascii_case_spec(s.take(start.len() as int), start)
    &&& e.len() >= end.len() && eq_ignore_ascii_case_spec(e.skip(e.len() - end.len()), end)
}

/// A text item wrapped in one of the contextual marker pairs.
pub open spec fn is_contextual_fragment(c: ContentItem) -> bool {
    match c {
        ContentItem::InputText { text } => is_contextual_text(text@),
        _ => false,
    }
}

/// Text wrapped in one of the contextual marker pairs.
pub open spec fn is_contextual_text(text: Seq<char>) -> bool {
    exists|i: int|
        0 <= i < 6 && #[trigger] wrapped_in(text, contextual_markers()[i].0, contextual_markers()[i].1)
}

/// Some content item is a contextual fragment.
pub open spec fn is_contextual_message(content: Seq<ContentItem>) -> bool {
    exists|i: int| 0 <= i < content.len() && is_contextual_fragment(#[trigger] content[i])
}

fn wrapped_in_exec(text: &[char], start: &str, end: &str) -> (r: bool)
    ensures
        r == wrapped_in(text@, start@, end@),
{
    let s = trim_start(text);
    let e = trim_end(text);
    let sv = to_chars(start);
    let ev = to_chars(end);
    let starts = if s.len() >= sv.len() {
        let head = sub_chars(s.as_slice(), 0, sv.len());
        assert(head@ == s@.take(sv@.len() as int));
        eq_ignore_ascii_case(head.as_slice(), sv.as_slice())
    } else {
        false
    };
    let ends = if e.len() >= ev.len() {
        let tail = sub_chars(e.as_slice(), e.len() - ev.len(), e.len());
        assert(tail@ =~= e@.skip(e@.len() - ev@.len()));
        eq_ignore_ascii_case(tail.as_slice(), ev.as_slice())
    } else {
        false
    };
    starts && ends
}

/// Whether a content item is a contextual fragment the UI hides.
pub fn is_contextual_user_fragment(item: &ContentItem) -> (r: bool)
    ensures
        r == is_contextual_fragment(*item),
{
    match item {
        ContentItem::InputText { text } => {
            let chars = to_chars(text.as_str());
            let mut i: usize = 0;
            while i < 6
                invariant
                    i <= 6,
                    chars@ == text@,
                    *item == (ContentItem::InputText { text: *text }),
                    forall|k: int|
                        0 <= k < i ==> !#[trigger] wrapped_in(
                            text@,
                            contextual_markers()[k].0,
                            contextual_markers()[k].1,
                        ),
                decreases 6 - i,
            {
                let (start, end) = contextual_marker(i);
                if wrapped_in_exec(chars.as_slice(), start, end) {
                    assert(wrapped_in(
                        text@,
                        contextual_markers()[i as int].0,
                        contextual_markers()[i as int].1,
                    ));
                    assert(is_contextual_text(text@));
                    return true;
                }
                i = i + 1;
            }
            false
        },
        _ => false,
    }
}

/// Whether any content item is a contextual fragment.
pub fn is_contextual_user_message(content: &[ContentItem]) -> (r: bool)
    ensures
        r == is_contextual_message(content@),
{
    let mut i: usize = 0;
    while i < content.len()
        invariant
            i <= content@.len(),
            forall|k: int| 0 <= k < i ==> !is_contextual_fragment(#[trigger] content@[k]),
        decreases content@.len() - i,
    {
        if is_contextual_user_fragment(&content[i]) {
            return true;
        }
        i = i + 1;
    }
    false
}

// ── Image tags ───────────────────────────────────────────────────

/// `<image...>`: the opening tag that wraps an image.
pub open spec fn is_image_open_tag_spec(text: Seq<char>) -> bool {
    starts_with_spec(text, "<image"@) && ends_with_spec(text, ">"@)
}

/// Whether the text is an opening image tag.
pub fn is_image_open_tag(text: &str) -> (r: bool)
    ensures
        r == is_image_open_tag_spec(text@),
{
    let t = to_chars(text);
    let open = to_chars("<image");
    let close = to_chars(">");
    starts_with(t.as_slice(), open.as_slice()) && ends_with(t.as_slice(), close.as_slice())
}

/// Whether the text is the closing image tag.
pub fn is_image_close_tag(text: &str) -> (r: bool)
    ensures
        r == (text@ == "</image>"@),
{
    str_eq(text, "</image>")
}

// ── User messages ────────────────────────────────────────────────

/// Content item `i` is shown as user input: an image, or text that is not the
/// opening tag before an image nor the closing tag after one.
pub open spec fn shown_user_input(content: Seq<ContentItem>, i: int) -> bool {
    match content[i] {
        ContentItem::InputText { text } => {
            &&& !(is_image_open_tag_spec(text@) && i + 1 < content.len() && content[i
                + 1] is InputImage)
            &&& !(i > 0 && text@ == "</image>"@ && content[i - 1] is InputImage)
        },
        ContentItem::InputImage { .. } => true,
        ContentItem::OutputText { .. } => false,
    }
}

/// Indices, in order, of the first `n` content items that pass `keep`.
pub open spec fn kept_indices(content: Seq<ContentItem>, n: int, user: bool) -> Seq<int>
    decreases n,
{
    if n <= 0 {
        Seq::empty()
    } else {
        let prev = kept_indices(content, n - 1, user);
        if (user && shown_user_input(content, n - 1)) || (!user && is_text_content(content[n - 1])) {
            prev.push(n - 1)
        } else {
            prev
        }
    }
}

/// A text item, input or output.
pub open spec fn is_text_content(c: ContentItem) -> bool {
    c is InputText || c is OutputText
}

/// The user input that shows content item `c`.
pub open spec fn input_shows(u: UserInput, c: ContentItem) -> bool {
    match (u, c) {
        (UserInput::Text { text, text_elements }, ContentItem::InputText { text: t }) => text == t
            && text_elements@.len() == 0,
        (UserInput::Image { image_url }, ContentItem::InputImage { image_url: i }) => image_url == i,
        _ => false,
    }
}

/// `inputs` shows, in order, the content items that a user message displays.
pub open spec fn user_inputs_of(content: Seq<ContentItem>, inputs: Seq<UserInput>) -> bool {
    let idx = kept_indices(content, content.len() as int, true);
    &&& inputs.len() == idx.len()
    &&& forall|j: int| 0 <= j < idx.len() ==> input_shows(#[trigger] inputs[j], content[idx[j]])
}

/// The agent text that shows content item `c`.
pub open spec fn text_shows(a: AgentMessageContent, c: ContentItem) -> bool {
    match (a, c) {
        (AgentMessageContent::Text { text }, ContentItem::InputText { text: t }) => text == t,
        (AgentMessageContent::Text { text }, ContentItem::OutputText { text: t }) => text == t,
        _ => false,
    }
}

/// `texts` holds, in order, the text items of `content`.
pub open spec fn agent_texts_of(content: Seq<ContentItem>, texts: Seq<AgentMessageContent>) -> bool {
    let idx = kept_indices(content, content.len() as int, false);
    &&& texts.len() == idx.len()
    &&& forall|j: int| 0 <= j < idx.len() ==> text_shows(#[trigger] texts[j], content[idx[j]])
}

proof fn lemma_kept_indices_bounds(content: Seq<ContentItem>, n: int, user: bool)
    requires
        0 <= n <= content.len(),
    ensures
        kept_indices(content, n, user).len() <= n,
        forall|j: int|
            0 <= j < kept_indices(content, n, user).len() ==> 0 <= #[trigger] kept_indices(
                content,
                n,
                user,
            )[j] < n,
    decreases n,
{
    if n > 0 {
        lemma_kept_indices_bounds(content, n - 1, user);
    }
}

/// The user message shown for `content`, or `None` when it is contextual.
pub fn parse_user_message(content: &[ContentItem], id: String) -> (r: Option<UserMessageItem>)
    ensures
        is_contextual_message(content@) <==> r is None,
        r matches Some(m) ==> m.id == id && user_inputs_of(content@, m.content@),
{
    if is_contextual_user_message(content) {
        return None;
    }
    let mut inputs: Vec<UserInput> = Vec::new();
    let n = content.len();
    let mut i: usize = 0;
    while i < n
        invariant
            n == content@.len(),
            i <= n,
            inputs@.len() == kept_indices(content@, i as int, true).len(),
            forall|j: int|
                0 <= j < inputs@.len() ==> input_shows(
                    #[trigger] inputs@[j],
                    content@[kept_indices(content@, i as int, true)[j]],
                ),
        decreases n - i,
    {
        proof {
            lemma_kept_indices_bounds(content@, i as int, true);
        }
        match &content[i] {
            ContentItem::InputText { text } => {
                let skip_open = is_image_open_tag(text.as_str()) && i + 1 < n && matches!(
                    content[i + 1],
                    ContentItem::InputImage { .. }
                );
                let skip_close = i > 0 && is_image_close_tag(text.as_str()) && matches!(
                    content[i - 1],
                    ContentItem::InputImage { .. }
                );
                if !skip_open && !skip_close {
                    inputs.push(UserInput::Text { text: text.clone(), text_elements: Vec::new() });
                }
            },
            ContentItem::InputImage { image_url } => {
                inputs.push(UserInput::Image { image_url: image_url.clone() });
            },
            ContentItem::OutputText { .. } => {},
        }
        i = i + 1;
    }
    Some(UserMessageItem { id, content: inputs })
}

/// The agent message shown for `content`, with the given id.
pub fn parse_agent_message(
    id: String,
    content: &[ContentItem],
    phase: Option<crate::protocol::MessagePhase>,
) -> (r: AgentMessageItem)
    ensures
        r.id == id,
        r.phase == phase,
        agent_texts_of(content@, r.content@),
{
    let mut texts: Vec<AgentMessageContent> = Vec::new();
    let n = content.len();
    let mut i: usize = 0;
    while i < n
        invariant
            n == content@.len(),
            i <= n,
            texts@.len() == kept_indices(content@, i as int, false).len(),
            forall|j: int|
                0 <= j < texts@.len() ==> text_shows(
                    #[trigger] texts@[j],
                    content@[kept_indices(content@, i as int, false)[j]],
                ),
        decreases n - i,
    {
        proof {
            lemma_kept_indices_bounds(content@, i as int, false);
        }
        match &content[i] {
            ContentItem::OutputText { text } => texts.push(AgentMessageContent::Text { text: text.clone() }),
            ContentItem::InputText { text } => texts.push(AgentMessageContent::Text { text: text.clone() }),
            ContentItem::InputImage { .. } => {},
        }
        i = i + 1;
    }
    AgentMessageItem { id, content: texts, phase }
}

// ── Web search ───────────────────────────────────────────────────

/// What a web search step is about, as the UI describes it.
pub open spec fn web_search_detail(action: WebSearchAction) -> Seq<char> {
    match action {
        WebSearchAction::Search { query, queries } => match query {
            Some(q) => q@,
            None => match queries {
                Some(qs) => join_spec(strings_view(qs@), ", "@),
                None => Seq::empty(),
            },
        },
        WebSearchAction::OpenPage { url } => match url {
            Some(u) => u@,
            None => Seq::empty(),
        },
        WebSearchAction::FindInPage { url, pattern } => match (pattern, url) {
            (Some(p), Some(u)) => "'"@ + p@ + "' in "@ + u@,
            (Some(p), None) => "'"@ + p@ + "'"@,
            (None, Some(u)) => u@,
            (None, None) => Seq::empty(),
        },
        WebSearchAction::Other => Seq::empty(),
    }
}

/// The character views of a list of strings.
pub open spec fn strings_view(v: Seq<String>) -> Seq<Seq<char>> {
    Seq::new(v.len(), |i: int| v[i]@)
}

/// The detail line for a web search step.
pub fn web_search_action_detail(action: &WebSearchAction) -> (r: String)
    ensures
        r@ == web_search_detail(*action),
{
    match action {
        WebSearchAction::Search { query, queries } => {
            if let Some(q) = query {
                return q.clone();
            }
            if let Some(qs) = queries {
                let mut parts: Vec<Vec<char>> = Vec::new();
                let mut i: usize = 0;
                while i < qs.len()
                    invariant
                        i <= qs@.len(),
                        parts@.len() == i,
                        forall|k: int| 0 <= k < i ==> (#[trigger] parts@[k])@ == qs@[k]@,
                    decreases qs@.len() - i,
                {
                    parts.push(to_chars(qs[i].as_str()));
                    i = i + 1;
                }
                assert(vviews(parts@) =~= strings_view(qs@));
                let sep = to_chars(", ");
                let joined = join(&parts, sep.as_slice());
                return from_chars(joined.as_slice());
            }
            String::new()
        },
        WebSearchAction::OpenPage { url } => match url {
            Some(u) => u.clone(),
            None => String::new(),
        },
        WebSearchAction::FindInPage { url, pattern } => match (pattern, url) {
            (Some(p), Some(u)) => {
                let mut out = to_chars("'");
                extend_str(&mut out, p.as_str());
                extend_str(&mut out, "' in ");
                extend_str(&mut out, u.as_str());
                from_chars(out.as_slice())
            },
            (Some(p), None) => {
                let mut out = to_chars("'");
                extend_str(&mut out, p.as_str());
                extend_str(&mut out, "'");
                from_chars(out.as_slice())
            },
            (None, Some(u)) => u.clone(),
            (None, None) => String::new(),
        },
        WebSearchAction::Other => String::new(),
    }
}

/// Two optional string lists hold the same strings.
pub open spec fn opt_strings_same(a: Option<Vec<String>>, b: Option<Vec<String>>) -> bool {
    match (a, b) {
        (Some(x), Some(y)) => x@ == y@,
        (None, None) => true,
        _ => false,
    }
}

/// Two web search steps hold the same data.
pub open spec fn action_same(a: WebSearchAction, b: WebSearchAction) -> bool {
    match (a, b) {
        (
            WebSearchAction::Search { query: q1, queries: s1 },
            WebSearchAction::Search { query: q2, queries: s2 },
        ) => q1 == q2 && opt_strings_same(s1, s2),
        _ => a == b,
    }
}

fn copy_action(a: &WebSearchAction) -> (r: WebSearchAction)
    ensures
        action_same(r, *a),
{
    match a {
        WebSearchAction::Search { query, queries } => WebSearchAction::Search {
            query: clone_opt_string(query),
            queries: match queries {
                Some(q) => {
                    let c = q.clone();
                    assert(c@ =~= q@);
                    Some(c)
                },
                None => None,
            },
        },
        WebSearchAction::OpenPage { url } => WebSearchAction::OpenPage { url: clone_opt_string(url) },
        WebSearchAction::FindInPage { url, pattern } => WebSearchAction::FindInPage {
            url: clone_opt_string(url),
            pattern: clone_opt_string(pattern),
        },
        WebSearchAction::Other => WebSearchAction::Other,
    }
}

// ── Turn items ───────────────────────────────────────────────────

/// Summary texts of a reasoning item, in order.
pub open spec fn summary_texts(s: Seq<ReasoningSummaryItem>) -> Seq<Seq<char>> {
    Seq::new(
        s.len(),
        |i: int|
            match s[i] {
                ReasoningSummaryItem::SummaryText { text } => text@,
            },
    )
}

/// Raw content texts of a reasoning item, in order.
pub open spec fn reasoning_texts(s: Seq<ReasoningContentItem>) -> Seq<Seq<char>> {
    Seq::new(
        s.len(),
        |i: int|
            match s[i] {
                ReasoningContentItem::ReasoningText { text } => text@,
                ReasoningContentItem::Text { text } => text@,
            },
    )
}

/// `r` is the UI item for `item`; `fresh` names a message that has no id.
pub open spec fn turn_item_of(item: ResponseItem, fresh: String, r: Option<TurnItem>) -> bool {
    match item {
        ResponseItem::Message { id, role, content, phase, .. } => if role@ == "user"@ {
            if is_contextual_message(content@) {
                r is None
            } else {
                r matches Some(TurnItem::UserMessage(m)) && m.id == fresh && user_inputs_of(
                    content@,
                    m.content@,
                )
            }
        } else if role@ == "assistant"@ {
            if kept_indices(content@, content@.len() as int, false).len() == 0 {
                r is None
            } else {
                r matches Some(TurnItem::AgentMessage(m)) && m.id == (match id {
                    Some(i) => i,
                    None => fresh,
                }) && m.phase == phase && agent_texts_of(content@, m.content@)
            }
        } else {
            r is None
        },
        ResponseItem::Reasoning { id, summary, content } => r matches Some(TurnItem::Reasoning(ri))
            && ri.id == id && strings_view(ri.summary_text@) == summary_texts(summary@)
            && strings_view(ri.raw_content@) == match content {
            Some(c) => reasoning_texts(c@),
            None => Seq::empty(),
        },
        ResponseItem::WebSearchCall { id, action, .. } => r matches Some(TurnItem::WebSearch(w))
            && w.id@ == (match id {
            Some(i) => i@,
            None => Seq::empty(),
        }) && match action {
            Some(a) => w.action matches Some(b) && action_same(b, a) && w.query@ == web_search_detail(
                a,
            ),
            None => w.action == Some(WebSearchAction::Other) && w.query@.len() == 0,
        },
        _ => r is None,
    }
}

/// The UI item for a model item; `fresh` becomes the id of a message that has none.
pub fn turn_item_with_id(item: &ResponseItem, fresh: String) -> (r: Option<TurnItem>)
    ensures
        turn_item_of(*item, fresh, r),
{
    match item {
        ResponseItem::Message { role, content, id, phase, .. } => {
            if str_eq(role.as_str(), "user") {
                match parse_user_message(content.as_slice(), fresh) {
                    Some(m) => Some(TurnItem::UserMessage(m)),
                    None => None,
                }
            } else if str_eq(role.as_str(), "assistant") {
                let msg_id = match id {
                    Some(i) => i.clone(),
                    None => fresh,
                };
                let msg = parse_agent_message(msg_id, content.as_slice(), *phase);
                if msg.content.len() == 0 {
                    None
                } else {
                    Some(TurnItem::AgentMessage(msg))
                }
            } else {
                None
            }
        },
        ResponseItem::Reasoning { id, summary, content } => {
            let mut summary_text: Vec<String> = Vec::new();
            let mut i: usize = 0;
            while i < summary.len()
                invariant
                    i <= summary@.len(),
                    summary_text@.len() == i,
                    forall|k: int|
                        0 <= k < i ==> (#[trigger] summary_text@[k])@ == summary_texts(summary@)[k],
                decreases summary@.len() - i,
            {
                match &summary[i] {
                    ReasoningSummaryItem::SummaryText { text } => summary_text.push(text.clone()),
                }
                i = i + 1;
            }
            assert(strings_view(summary_text@) =~= summary_texts(summary@));
            let mut raw_content: Vec<String> = Vec::new();
            if let Some(items) = content {
                let mut j: usize = 0;
                while j < items.len()
                    invariant
                        j <= items@.len(),
                        raw_content@.len() == j,
                        forall|k: int|
                            0 <= k < j ==> (#[trigger] raw_content@[k])@ == reasoning_texts(items@)[k],
                    decreases items@.len() - j,
                {
                    match &items[j] {
                        ReasoningContentItem::ReasoningText { text } => raw_content.push(text.clone()),
                        ReasoningContentItem::Text { text } => raw_content.push(text.clone()),
                    }
                    j = j + 1;
                }
                assert(strings_view(raw_content@) =~= reasoning_texts(items@));
            } else {
                assert(strings_view(raw_content@) =~= Seq::<Seq<char>>::empty());
            }
            Some(
                TurnItem::Reasoning(
                    ReasoningItem { id: id.clone(), summary_text, raw_content },
                ),
            )
        },
        ResponseItem::WebSearchCall { id, action, .. } => {
            let (action_val, query) = match action {
                Some(a) => (copy_action(a), web_search_action_detail(a)),
                None => (WebSearchAction::Other, String::new()),
            };
            let wid = match id {
                Some(i) => i.clone(),
                None => String::new(),
            };
            Some(TurnItem::WebSearch(WebSearchItem { id: wid, query, action: Some(action_val) }))
        },
        _ => None,
    }
}

/// A freshly generated id: the hyphenated text of a random (version 4) UUID.
#[verifier::external_body]
fn new_item_id() -> (r: String)
    ensures
        r@.len() == 36,
{
    uuid::Uuid::new_v4().to_string()
}

/// The UI item for a model item, or `None` for items the UI does not show
/// (tool calls and outputs, system messages, contextual user messages, empty
/// assistant messages). A message without id gets a fresh random one.
pub fn parse_turn_item(item: &ResponseItem) -> (r: Option<TurnItem>)
    ensures
        exists|fresh: String| fresh@.len() == 36 && #[trigger] turn_item_of(*item, fresh, r),
{
    let fresh = new_item_id();
    turn_item_with_id(item, fresh)
}

} // verus!
