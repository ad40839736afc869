use mosaic_core::compact::{compacted_with_summary, format_history_for_summary, summary_request};
use mosaic_core::context::history::{truncate_str, ContextManager};
use mosaic_core::context::normalize::{
    ensure_call_outputs_present, remove_corresponding, remove_orphan_outputs,
};
use mosaic_core::context::updates::{build_settings_update, TurnSettingsSnapshot};
use mosaic_core::protocol::{
    AskForApproval, ContentItem, FunctionCallOutputBody, FunctionCallOutputPayload,
    ResponseInputItem, SandboxPolicy,
};

fn user_msg(text: &str) -> ResponseInputItem {
    ResponseInputItem::text_message("user", text.to_string())
}

fn assistant_msg(text: &str) -> ResponseInputItem {
    ResponseInputItem::text_message("assistant", text.to_string())
}

fn func_call(call_id: &str) -> ResponseInputItem {
    ResponseInputItem::FunctionCall {
        call_id: call_id.into(),
        name: "test_tool".into(),
        arguments: "{}".into(),
    }
}

fn func_output(call_id: &str, text: &str) -> ResponseInputItem {
    ResponseInputItem::FunctionCallOutput {
        call_id: call_id.into(),
        output: FunctionCallOutputPayload::from_text(text.into()),
    }
}

fn text_of(item: &ResponseInputItem) -> Option<String> {
    item.message_text()
}

// ── history ─────────────────────────────────────────────────────

#[test]
fn empty_context_manager() {
    let cm = ContextManager::new();
    assert!(cm.is_empty());
    assert_eq!(cm.len(), 0);
    assert!(cm.for_prompt().is_empty());
}

#[test]
fn record_and_retrieve() {
    let mut cm = ContextManager::new();
    cm.record_items(vec![user_msg("hello"), assistant_msg("hi")]);
    assert_eq!(cm.len(), 2);
    assert_eq!(cm.raw_items().len(), 2);
}

#[test]
fn for_prompt_normalizes() {
    let mut cm = ContextManager::new();
    cm.record_items(vec![user_msg("run tool"), func_call("c1")]);
    let prompt = cm.for_prompt();
    assert_eq!(prompt.len(), 3);
    assert!(matches!(&prompt[2], ResponseInputItem::FunctionCallOutput { call_id, .. } if call_id == "c1"));
}

#[test]
fn for_prompt_removes_orphan_outputs() {
    let mut cm = ContextManager::new();
    cm.record_items(vec![user_msg("hello"), func_output("orphan", "result")]);
    let prompt = cm.for_prompt();
    assert_eq!(prompt.len(), 1);
}

#[test]
fn remove_first_and_last() {
    let mut cm = ContextManager::new();
    cm.record_items(vec![user_msg("a"), user_msg("b"), user_msg("c")]);
    cm.remove_first();
    assert_eq!(cm.len(), 2);
    assert!(text_of(&cm.raw_items()[0]).as_deref() == Some("b"));

    cm.remove_last();
    assert_eq!(cm.len(), 1);
    assert!(text_of(&cm.raw_items()[0]).as_deref() == Some("b"));
}

#[test]
fn remove_first_also_drops_the_matching_output() {
    let mut cm = ContextManager::new();
    cm.record_items(vec![func_call("c1"), user_msg("x"), func_output("c1", "ok")]);
    cm.remove_first();
    assert_eq!(cm.len(), 1);
    assert!(text_of(&cm.raw_items()[0]).as_deref() == Some("x"));
}

#[test]
fn drop_last_n_user_turns() {
    let mut cm = ContextManager::new();
    cm.record_items(vec![
        user_msg("u1"),
        assistant_msg("a1"),
        user_msg("u2"),
        assistant_msg("a2"),
        user_msg("u3"),
        assistant_msg("a3"),
    ]);
    cm.drop_last_n_user_turns(2);
    assert_eq!(cm.len(), 2);
}

#[test]
fn drop_last_n_user_turns_zero_is_noop() {
    let mut cm = ContextManager::new();
    cm.record_items(vec![user_msg("u1")]);
    cm.drop_last_n_user_turns(0);
    assert_eq!(cm.len(), 1);
}

#[test]
fn drop_last_n_user_turns_exceeds_count() {
    let mut cm = ContextManager::new();
    cm.record_items(vec![user_msg("u1"), assistant_msg("a1"), user_msg("u2")]);
    cm.drop_last_n_user_turns(100);
    assert_eq!(cm.len(), 0);
}

#[test]
fn token_estimation() {
    let mut cm = ContextManager::new();
    cm.record_items(vec![user_msg("hello world")]);
    let tokens = cm.estimate_total_tokens();
    assert!(tokens > 0);
}

#[test]
fn token_usage_after_api_response() {
    let mut cm = ContextManager::new();
    cm.record_items(vec![user_msg("q"), assistant_msg("a")]);
    cm.update_token_usage(100);
    cm.record_items(vec![user_msg("follow-up")]);
    let total = cm.estimate_total_tokens();
    assert!(total > 100);
}

#[test]
fn replace_history() {
    let mut cm = ContextManager::new();
    cm.record_items(vec![user_msg("old")]);
    cm.replace(vec![user_msg("new")]);
    assert_eq!(cm.len(), 1);
    assert!(text_of(&cm.raw_items()[0]).as_deref() == Some("new"));
}

#[test]
fn truncate_large_output() {
    let big = "x".repeat(200_000);
    let item = ResponseInputItem::FunctionCallOutput {
        call_id: "c1".into(),
        output: FunctionCallOutputPayload::from_text(big),
    };
    let mut cm = ContextManager::new();
    cm.record_items(vec![item]);
    match &cm.raw_items()[0] {
        ResponseInputItem::FunctionCallOutput { output, .. } => match &output.body {
            FunctionCallOutputBody::Text(s) => {
                assert!(s.len() < 200_000);
                assert!(s.ends_with("[truncated]"));
            },
            _ => panic!("expected string content"),
        },
        _ => panic!("expected function output"),
    }
}

#[test]
fn truncate_str_cuts_at_a_char_boundary() {
    assert_eq!(truncate_str("hello", 10), "hello");
    assert_eq!(truncate_str("hello", 3), "hel\n... [truncated]");
    assert_eq!(truncate_str("héllo", 2), "h\n... [truncated]");
}

#[test]
fn breakdown_reports_bytes() {
    let mut cm = ContextManager::new();
    cm.record_items(vec![user_msg("hello")]);
    let bd = cm.token_usage_breakdown();
    assert!(bd.all_items_bytes > 0);
}

// ── normalize ───────────────────────────────────────────────────

#[test]
fn adds_missing_output() {
    let mut items = vec![user_msg("hi"), func_call("c1")];
    ensure_call_outputs_present(&mut items);
    assert_eq!(items.len(), 3);
    assert!(matches!(&items[2], ResponseInputItem::FunctionCallOutput { call_id, .. } if call_id == "c1"));
}

#[test]
fn does_not_duplicate_existing_output() {
    let mut items = vec![func_call("c1"), func_output("c1", "ok")];
    ensure_call_outputs_present(&mut items);
    assert_eq!(items.len(), 2);
}

#[test]
fn removes_orphan_output() {
    let mut items = vec![user_msg("hi"), func_output("orphan", "data")];
    remove_orphan_outputs(&mut items);
    assert_eq!(items.len(), 1);
    assert!(matches!(&items[0], ResponseInputItem::Message { .. }));
}

#[test]
fn keeps_matched_output() {
    let mut items = vec![func_call("c1"), func_output("c1", "ok")];
    remove_orphan_outputs(&mut items);
    assert_eq!(items.len(), 2);
}

#[test]
fn remove_corresponding_call_removes_output() {
    let call = func_call("c1");
    let mut items = vec![func_output("c1", "ok"), user_msg("hi")];
    remove_corresponding(&mut items, &call);
    assert_eq!(items.len(), 1);
    assert!(matches!(&items[0], ResponseInputItem::Message { .. }));
}

#[test]
fn remove_corresponding_output_removes_call() {
    let output = func_output("c1", "ok");
    let mut items = vec![func_call("c1"), user_msg("hi")];
    remove_corresponding(&mut items, &output);
    assert_eq!(items.len(), 1);
    assert!(matches!(&items[0], ResponseInputItem::Message { .. }));
}

#[test]
fn remove_corresponding_message_is_noop() {
    let msg = user_msg("hi");
    let mut items = vec![func_call("c1"), func_output("c1", "ok")];
    remove_corresponding(&mut items, &msg);
    assert_eq!(items.len(), 2);
}

// ── settings updates ────────────────────────────────────────────

fn default_snapshot() -> TurnSettingsSnapshot {
    TurnSettingsSnapshot::new(
        "/project",
        SandboxPolicy::new_read_only_policy(),
        AskForApproval::default_policy(),
        None,
    )
}

fn developer_text(item: &Option<ResponseInputItem>) -> String {
    match item {
        Some(ResponseInputItem::Message { role, .. }) => {
            assert_eq!(role, "developer");
            item.as_ref().unwrap().message_text().unwrap()
        },
        _ => panic!("expected a developer message"),
    }
}

#[test]
fn first_turn_emits_full_context() {
    let current = default_snapshot();
    let update = build_settings_update(None, &current);
    assert!(update.is_some());
    let text = developer_text(&update);
    assert!(text.contains("/project"));
    assert_eq!(
        text,
        "Current working directory: /project\nSandbox policy: ReadOnly\nApproval policy: OnRequest"
    );
}

#[test]
fn identical_settings_no_update() {
    let snap = default_snapshot();
    let update = build_settings_update(Some(&snap), &snap);
    assert!(update.is_none());
}

#[test]
fn cwd_change_emits_update() {
    let prev = default_snapshot();
    let mut current = default_snapshot();
    current.cwd = "/other".into();
    let update = build_settings_update(Some(&prev), &current);
    assert!(update.is_some());
    assert!(developer_text(&update).contains("/other"));
}

#[test]
fn policy_change_emits_update() {
    let prev = default_snapshot();
    let mut current = default_snapshot();
    current.sandbox_policy = SandboxPolicy::DangerFullAccess;
    let update = build_settings_update(Some(&prev), &current);
    assert!(update.is_some());
    assert!(developer_text(&update).contains("Sandbox policy changed"));
}

// ── compaction ──────────────────────────────────────────────────

fn msg(role: &str, content: &str) -> ResponseInputItem {
    ResponseInputItem::text_message(role, content.to_string())
}

#[test]
fn format_history_formats_messages() {
    let items = vec![msg("user", "hello"), msg("assistant", "hi")];
    let text = format_history_for_summary(&items);
    assert!(text.contains("[user]: hello"));
    assert!(text.contains("[assistant]: hi"));
}

#[test]
fn compact_auto_short_history_is_noop() {
    let history = vec![msg("user", "a"), msg("assistant", "b")];
    assert!(summary_request(&history).is_none());
    let result = compacted_with_summary(&history, "summary");
    assert!(!result.changed);
    assert_eq!(result.history.len(), 2);
}

#[test]
fn compact_auto_with_summarizer() {
    let history = vec![
        msg("user", "hello"),
        msg("assistant", "hi"),
        msg("user", "how are you"),
        msg("assistant", "good"),
        msg("user", "latest"),
        msg("assistant", "answer"),
    ];
    let prompt = summary_request(&history).unwrap();
    assert!(prompt.contains("[user]: how are you"));
    assert!(!prompt.contains("latest"));
    let result = compacted_with_summary(&history, "This is a summary.");
    assert!(result.changed);
    assert_eq!(result.history.len(), 3);
    assert!(matches!(&result.history[0], ResponseInputItem::Message { role, content }
        if role == "system" && content.len() == 1
            && content[0] == ContentItem::InputText { text: "[Conversation Summary]\nThis is a summary.".into() }));
    assert_eq!(result.history[2], msg("assistant", "answer"));
}
