//! Developer messages that tell the model about settings changed between turns.
use vstd::prelude::*;

use crate::protocol::{
    approval_debug, approval_debug_exec, opt_personality_debug, opt_personality_debug_exec,
    sandbox_policy_debug, sandbox_policy_debug_exec, AskForApproval, ContentItem, Personality,
    ResponseInputItem, SandboxPolicy,
};
use crate::text::{extend_chars, extend_str, from_chars, join, join_spec, to_chars, vviews};

verus! {

/// Turn-level settings, compared between turns.
#[derive(Debug, Clone)]
pub struct TurnSettingsSnapshot {
    pub cwd: String,
    pub sandbox_policy: SandboxPolicy,
    pub approval_policy: AskForApproval,
    pub personality: Option<Personality>,
}

impl TurnSettingsSnapshot {
    /// A snapshot for the working directory `cwd` (as displayed) and the given policies.
    pub fn new(
        cwd: &str,
        sandbox_policy: SandboxPolicy,
        approval_policy: AskForApproval,
        personality: Option<Personality>,
    ) -> (r: Self)
        ensures
            r.cwd@ == cwd@,
            r.sandbox_policy == sandbox_policy,
            r.approval_policy == approval_policy,
            r.personality == personality,
    {
        TurnSettingsSnapshot { cwd: cwd.to_owned(), sandbox_policy, approval_policy, personality }
    }
}

/// The full description of the settings sent on the first turn.
pub open spec fn settings_text(s: TurnSettingsSnapshot) -> Seq<char> {
    "Current working directory: "@ + s.cwd@ + "\nSandbox policy: "@ + sandbox_policy_debug(
        s.sandbox_policy,
    ) + "\nApproval policy: "@ + approval_debug(s.approval_policy)
}

/// One line per setting that differs between `prev` and `cur`, in field order.
pub open spec fn change_lines(prev: TurnSettingsSnapshot, cur: TurnSettingsSnapshot) -> Seq<Seq<char>> {
    (if prev.cwd@ != cur.cwd@ {
        seq!["Working directory changed to: "@ + cur.cwd@]
    } else {
        Seq::empty()
    }) + (if prev.sandbox_policy != cur.sandbox_policy {
        seq!["Sandbox policy changed to: "@ + sandbox_policy_debug(cur.sandbox_policy)]
    } else {
        Seq::empty()
    }) + (if prev.approval_policy != cur.approval_policy {
        seq!["Approval policy changed to: "@ + approval_debug(cur.approval_policy)]
    } else {
        Seq::empty()
    }) + (if prev.personality != cur.personality {
        seq!["Personality changed to: "@ + opt_personality_debug(cur.personality)]
    } else {
        Seq::empty()
    })
}

/// `item` is a developer message with the single text `text`.
pub open spec fn is_developer_message(item: ResponseInputItem, text: Seq<char>) -> bool {
    item matches ResponseInputItem::Message { role, content } && role@ == "developer"@
        && content@.len() == 1 && (content@[0] matches ContentItem::InputText { text: t } && t@
        == text)
}

fn developer_message(text: Vec<char>) -> (r: ResponseInputItem)
    ensures
        is_developer_message(r, text@),
{
    let mut content: Vec<ContentItem> = Vec::new();
    content.push(ContentItem::InputText { text: from_chars(text.as_slice()) });
    ResponseInputItem::Message { role: "developer".to_owned(), content }
}

/// The developer message that describes the settings in full.
pub fn settings_to_message(snapshot: &TurnSettingsSnapshot) -> (r: ResponseInputItem)
    ensures
        is_developer_message(r, settings_text(*snapshot)),
{
    let mut text = to_chars("Current working directory: ");
    extend_str(&mut text, snapshot.cwd.as_str());
    extend_str(&mut text, "\nSandbox policy: ");
    let p = sandbox_policy_debug_exec(&snapshot.sandbox_policy);
    extend_chars(&mut text, p.as_slice());
    extend_str(&mut text, "\nApproval policy: ");
    let a = approval_debug_exec(&snapshot.approval_policy);
    extend_chars(&mut text, a.as_slice());
    developer_message(text)
}

/// The update for the model at the start of a turn: the full settings on the
/// first turn, a line per changed setting afterwards, and `None` when nothing changed.
pub fn build_settings_update(
    previous: Option<&TurnSettingsSnapshot>,
    current: &TurnSettingsSnapshot,
) -> (r: Option<ResponseInputItem>)
    ensures
        match previous {
            None => r matches Some(m) && is_developer_message(m, settings_text(*current)),
            Some(prev) => if change_lines(*prev, *current).len() == 0 {
                r is None
            } else {
                r matches Some(m) && is_developer_message(
                    m,
                    join_spec(change_lines(*prev, *current), "\n"@),
                )
            },
        },
{
    let prev = match previous {
        None => return Some(settings_to_message(current)),
        Some(p) => p,
    };
    let mut parts: Vec<Vec<char>> = Vec::new();
    let ghost cur = *current;
    let ghost pv = *prev;
    if !(prev.cwd == current.cwd) {
        let mut line = to_chars("Working directory changed to: ");
        extend_str(&mut line, current.cwd.as_str());
        parts.push(line);
    }
    let ghost p1 = vviews(parts@);
    if prev.sandbox_policy != current.sandbox_policy {
        let mut line = to_chars("Sandbox policy changed to: ");
        let d = sandbox_policy_debug_exec(&current.sandbox_policy);
        extend_chars(&mut line, d.as_slice());
        parts.push(line);
    }
    let ghost p2 = vviews(parts@);
    if prev.approval_policy != current.approval_policy {
        let mut line = to_chars("Approval policy changed to: ");
        let d = approval_debug_exec(&current.approval_policy);
        extend_chars(&mut line, d.as_slice());
        parts.push(line);
    }
    let ghost p3 = vviews(parts@);
    if prev.personality != current.personality {
        let mut line = to_chars("Personality changed to: ");
        let d = opt_personality_debug_exec(&current.personality);
        extend_chars(&mut line, d.as_slice());
        parts.push(line);
    }
    assert(vviews(parts@) =~= change_lines(pv, cur));
    if parts.len() == 0 {
        return None;
    }
    let sep = to_chars("\n");
    let text = join(&parts, sep.as_slice());
    Some(developer_message(text))
}

} // verus!
