use mosaic_core::client::{ResponseEvent, TokenUsage};
use mosaic_core::protocol::{
    ErrorEvent, EventMsg, TurnCompleteEvent,
    AgentMessageContent, CodexError, ContentItem, ErrorCode, ExecPolicyAmendment,
    FunctionCallOutputBody, ResponseInputItem, ResponseItem, TurnItem, UserInput,
};
use mosaic_core::turn::{
    combine_instructions, exec_approval_updates, forked_history, instructions_to_keep,
    model_mismatch_warning, needs_follow_up, resolve_provider_id, resolve_turn_model,
    review_effect, round_allowed, rounds_exceeded_warning, session_model, should_name_thread,
    stream_start_error, tool_failure_message, tool_not_found, tool_output_actions,
    tool_output_text, user_turn_text, InitialHistory, ReviewDecision, ReviewEffect, RoundState,
    TurnAction, MAX_TOOL_ROUNDS,
};
use mosaic_core::protocol::{
    CallToolResult, McpInvocation, McpToolCallBeginEvent, McpToolCallEndEvent, ToolCallResult,
};
use mosaic_core::turn::{
    tool_call_begin_event, tool_call_closing,
    turn_closing_events, turn_start_failure_message, turn_started_event, user_history_item,
    TurnStartFailure,
};

fn round() -> RoundState {
    RoundState::new("agent-1".into(), "reasoning-1".into(), None)
}

#[test]
fn text_deltas_start_the_message_once() {
    let mut r = round();
    let a = r.on_event(ResponseEvent::OutputTextDelta { delta: "Hel".into() });
    assert_eq!(a.len(), 2);
    assert!(matches!(&a[0], TurnAction::ItemStarted(TurnItem::AgentMessage(m)) if m.id == "agent-1" && m.content.is_empty()));
    assert!(matches!(&a[1], TurnAction::AgentMessageDelta { item_id, delta } if item_id == "agent-1" && delta == "Hel"));
    let a = r.on_event(ResponseEvent::OutputTextDelta { delta: "lo".into() });
    assert_eq!(a.len(), 1);
    let a = r.on_event(ResponseEvent::OutputTextDelta { delta: "".into() });
    assert!(a.is_empty());
    let done = r.on_event(ResponseEvent::Completed {
        response_id: "resp".into(),
        token_usage: None,
        can_append: false,
    });
    assert!(r.is_finished());
    assert_eq!(done.len(), 2);
    match &done[0] {
        TurnAction::RecordHistory(item) => assert_eq!(item.message_text().as_deref(), Some("Hello")),
        other => panic!("unexpected {:?}", other),
    }
    match &done[1] {
        TurnAction::ItemCompleted(TurnItem::AgentMessage(m)) => {
            assert_eq!(m.id, "agent-1");
            assert!(matches!(&m.content[0], AgentMessageContent::Text { text } if text == "Hello"));
        },
        other => panic!("unexpected {:?}", other),
    }
    assert_eq!(r.last_agent_message().as_deref(), Some("Hello"));
}

#[test]
fn function_calls_are_recorded_and_kept() {
    let mut r = round();
    let a = r.on_event(ResponseEvent::FunctionCall {
        call_id: "c1".into(),
        name: "shell".into(),
        arguments: "{}".into(),
    });
    assert_eq!(a.len(), 2);
    assert!(matches!(&a[0], TurnAction::RecordHistory(ResponseInputItem::FunctionCall { call_id, .. }) if call_id == "c1"));
    assert!(matches!(&a[1], TurnAction::PersistItem(ResponseItem::FunctionCall { id: None, name, .. }) if name == "shell"));
    let calls = r.take_pending();
    assert_eq!(calls.len(), 1);
    assert!(needs_follow_up(&calls));
    assert!(r.take_pending().is_empty());
}

#[test]
fn reasoning_parts_accumulate() {
    let mut r = round();
    let a = r.on_event(ResponseEvent::ReasoningSummaryPartAdded { summary_index: 1 });
    assert_eq!(a.len(), 1);
    let a = r.on_event(ResponseEvent::ReasoningSummaryDelta { delta: "think".into(), summary_index: 1 });
    assert_eq!(a.len(), 1);
    r.on_event(ResponseEvent::ReasoningContentDelta { delta: "raw".into(), content_index: 0 });
    let usage = TokenUsage { input_tokens: 3, output_tokens: 4, total_tokens: 7, cached_input_tokens: 0, reasoning_output_tokens: 1 };
    let done = r.on_event(ResponseEvent::Completed { response_id: "r".into(), token_usage: Some(usage), can_append: false });
    assert_eq!(done.len(), 2);
    assert!(matches!(&done[0], TurnAction::TokenCount(u) if u.total_tokens == 7));
    match &done[1] {
        TurnAction::ItemCompleted(TurnItem::Reasoning(item)) => {
            assert_eq!(item.id, "reasoning-1");
            assert_eq!(item.summary_text, vec!["".to_string(), "think".to_string()]);
            assert_eq!(item.raw_content, vec!["raw".to_string()]);
        },
        other => panic!("unexpected {:?}", other),
    }
}

#[test]
fn finished_assistant_item_becomes_last_message() {
    let mut r = round();
    let item = ResponseItem::Message {
        id: Some("m1".into()),
        role: "assistant".into(),
        content: vec![ContentItem::OutputText { text: "Done.".into() }],
        end_turn: None,
        phase: None,
    };
    let a = r.on_event(ResponseEvent::OutputItemDone(item));
    assert_eq!(a.len(), 3);
    assert!(matches!(&a[0], TurnAction::PersistItem(_)));
    assert!(matches!(&a[1], TurnAction::ItemCompleted(TurnItem::AgentMessage(m)) if m.id == "m1"));
    assert!(matches!(&a[2], TurnAction::RecordHistory(_)));
    assert_eq!(r.last_agent_message().as_deref(), Some("Done."));
    // Streamed text is not recorded again once the turn has its message.
    r.on_event(ResponseEvent::OutputTextDelta { delta: "Done.".into() });
    let done = r.on_event(ResponseEvent::Completed { response_id: "r".into(), token_usage: None, can_append: false });
    assert!(done.is_empty());
}

#[test]
fn failures_end_the_round() {
    let mut r = round();
    let a = r.on_event(ResponseEvent::Failed { code: "rate_limit".into(), message: "slow down".into() });
    assert!(matches!(&a[0], TurnAction::Error(m) if m == "API error [rate_limit]: slow down"));
    assert!(r.is_finished());
    let mut r = round();
    let a = r.on_stream_error("reset");
    assert!(matches!(&a[0], TurnAction::Error(m) if m == "Stream error: reset"));
    let a = round().on_event(ResponseEvent::Created);
    assert!(a.is_empty());
}

#[test]
fn round_limit_and_messages() {
    assert!(round_allowed(1));
    assert!(round_allowed(MAX_TOOL_ROUNDS));
    assert!(!round_allowed(MAX_TOOL_ROUNDS + 1));
    assert_eq!(rounds_exceeded_warning(), "Tool call loop exceeded 32 rounds, stopping");
    assert_eq!(stream_start_error("boom"), "Failed to start API stream: boom");
}

#[test]
fn tool_outputs() {
    assert_eq!(tool_output_text(Ok("{\"ok\":true}".into())), "{\"ok\":true}");
    let err = CodexError::new(ErrorCode::InternalError, "bad".into());
    assert_eq!(tool_output_text(Err(err.clone())), "Error: bad");
    assert_eq!(tool_failure_message("shell", &err), "tool call 'shell' failed: bad");
    let nf = tool_not_found("x");
    assert_eq!(nf.code, ErrorCode::ToolExecutionFailed);
    assert_eq!(nf.message, "no handler found for tool: x");
    let a = tool_output_actions("c1".into(), "out".into());
    match &a[0] {
        TurnAction::RecordHistory(ResponseInputItem::FunctionCallOutput { call_id, output }) => {
            assert_eq!(call_id, "c1");
            assert_eq!(output.body, FunctionCallOutputBody::Text("out".into()));
        },
        other => panic!("unexpected {:?}", other),
    }
}

#[test]
fn turn_inputs_and_models() {
    let items = vec![
        UserInput::Text { text: "a".into(), text_elements: vec![] },
        UserInput::Image { image_url: "x".into() },
        UserInput::Text { text: "b".into(), text_elements: vec![] },
    ];
    assert_eq!(user_turn_text(&items), "a\nb");
    assert_eq!(resolve_turn_model(Some("o3"), Some("x")), "o3");
    assert_eq!(resolve_turn_model(None, Some("default")), "gpt-4o");
    assert_eq!(resolve_turn_model(None, Some("")), "gpt-4o");
    assert_eq!(resolve_turn_model(None, Some("o4")), "o4");
    assert_eq!(resolve_provider_id(None, Some("azure")), "azure");
    assert_eq!(resolve_provider_id(None, None), "");
    assert_eq!(combine_instructions(Some("S".into()), Some("C".into())), Some("S\n\nC".to_string()));
    assert_eq!(combine_instructions(None, None), None);
    assert!(should_name_thread("turn-1", "hi"));
    assert!(!should_name_thread("turn-2", "hi"));
    assert!(!should_name_thread("turn-1", ""));
}

#[test]
fn session_start_decisions() {
    let forked: InitialHistory<u32> = forked_history(vec![1, 2, 3]);
    assert_eq!(forked.entry_count(), 3);
    assert!(forked.can_append());
    let empty: InitialHistory<u32> = forked_history(vec![]);
    assert!(matches!(empty, InitialHistory::New));
    assert!(!empty.can_append());
    assert_eq!(session_model(None), "default");
    assert!(model_mismatch_warning("a", "a").is_none());
    assert_eq!(
        model_mismatch_warning("o3", "o4").unwrap(),
        "This session was recorded with model `o3` but is resuming with `o4`. Consider switching back to `o3` as it may affect performance."
    );
}

#[test]
fn exec_approval_denied_cancels_pending() {
    assert_eq!(review_effect(&ReviewDecision::Denied), ReviewEffect::DeclinePending);
    assert_eq!(review_effect(&ReviewDecision::Abort), ReviewEffect::InterruptTurn);
    assert_eq!(review_effect(&ReviewDecision::Approved), ReviewEffect::ApprovePending);
}

#[test]
fn exec_approval_for_session_adds_to_allow_list() {
    let cmd = vec!["cargo".to_string(), "test".to_string()];
    let u = exec_approval_updates(&ReviewDecision::ApprovedForSession, Some(&cmd));
    assert_eq!(u.allow_prefix, Some(cmd.clone()));
    assert!(u.persist_rule.is_none());
    let amend = ReviewDecision::ApprovedExecpolicyAmendment {
        proposed_execpolicy_amendment: ExecPolicyAmendment { command: vec!["git".into()] },
    };
    let u = exec_approval_updates(&amend, Some(&cmd));
    assert_eq!(u.allow_prefix, Some(vec!["git".to_string()]));
    assert_eq!(u.persist_rule, Some(vec!["git".to_string()]));
    let u = exec_approval_updates(&ReviewDecision::Approved, Some(&cmd));
    assert!(u.allow_prefix.is_none());
}

#[test]
fn exec_approval_with_custom_instructions_stores_them() {
    assert_eq!(instructions_to_keep(Some("be careful".into())), Some("be careful".to_string()));
    assert_eq!(instructions_to_keep(Some("".into())), None);
    assert_eq!(instructions_to_keep(None), None);
}

#[test]
fn turn_starts_with_its_id_and_window() {
    match turn_started_event("t1", Some(128000)) {
        EventMsg::TurnStarted(e) => {
            assert_eq!(e.turn_id, "t1");
            assert_eq!(e.model_context_window, Some(128000));
        }
        other => panic!("unexpected {other:?}"),
    }
}

#[test]
fn user_input_is_recorded_as_one_user_message() {
    let items = vec![
        UserInput::Text { text: "hello".into(), text_elements: vec![] },
        UserInput::Image { image_url: "data:x".into() },
        UserInput::Text { text: "world".into(), text_elements: vec![] },
    ];
    match user_history_item(&items) {
        Some(ResponseInputItem::Message { role, content }) => {
            assert_eq!(role, "user");
            assert_eq!(content, vec![ContentItem::InputText { text: "hello\nworld".into() }]);
        }
        other => panic!("unexpected {other:?}"),
    }
    let images = vec![UserInput::Image { image_url: "data:x".into() }];
    assert!(user_history_item(&images).is_none());
}

#[test]
fn turn_start_failures_have_exact_messages() {
    assert_eq!(
        turn_start_failure_message("openai", TurnStartFailure::MissingApiKey),
        "No API key configured for provider 'openai'"
    );
    assert_eq!(
        turn_start_failure_message("x", TurnStartFailure::UnknownProvider),
        "Unknown provider 'x'. Configure model_provider in settings."
    );
    assert_eq!(
        turn_start_failure_message("openai", TurnStartFailure::ApiKeyError("keyring locked".into())),
        "keyring locked"
    );
}

#[test]
fn every_turn_exit_completes_the_turn() {
    let early = turn_closing_events("t1", Some("boom".into()), Some("ignored".into()));
    assert_eq!(
        early,
        vec![
            EventMsg::Error(ErrorEvent { message: "boom".into() }),
            EventMsg::TurnComplete(TurnCompleteEvent { turn_id: "t1".into(), last_agent_message: None }),
        ]
    );
    let normal = turn_closing_events("t1", None, Some("done".into()));
    assert_eq!(
        normal,
        vec![EventMsg::TurnComplete(TurnCompleteEvent {
            turn_id: "t1".into(),
            last_agent_message: Some("done".into())
        })]
    );
}

#[test]
fn tool_call_begins_with_its_invocation() {
    assert_eq!(
        tool_call_begin_event("c1", "shell", "{\"cmd\":\"ls\"}".into()),
        EventMsg::McpToolCallBegin(McpToolCallBeginEvent {
            call_id: "c1".into(),
            invocation: McpInvocation {
                server: String::new(),
                tool: "shell".into(),
                arguments: Some("{\"cmd\":\"ls\"}".into()),
            },
        })
    );
}

#[test]
fn tool_call_success_reports_result_and_records_output() {
    let (events, record) = tool_call_closing("c1", "shell", 12, &Ok("\"ok\"".into()));
    assert_eq!(
        events,
        vec![EventMsg::McpToolCallEnd(McpToolCallEndEvent {
            call_id: "c1".into(),
            invocation: McpInvocation { server: String::new(), tool: "shell".into(), arguments: None },
            duration_ms: 12,
            result: ToolCallResult::Returned(CallToolResult {
                content: Some("\"ok\"".into()),
                is_error: Some(false)
            }),
        })]
    );
    match record {
        Some(ResponseInputItem::FunctionCallOutput { call_id, output }) => {
            assert_eq!(call_id, "c1");
            assert_eq!(output.body, FunctionCallOutputBody::Text("\"ok\"".into()));
        }
        other => panic!("unexpected {other:?}"),
    }
}

#[test]
fn tool_call_failure_reports_error_then_end() {
    let err = CodexError::new(ErrorCode::ToolExecutionFailed, "no handler found for tool: x".into());
    let (events, record) = tool_call_closing("c2", "x", 3, &Err(err));
    assert_eq!(events.len(), 2);
    assert_eq!(
        events[0],
        EventMsg::Error(ErrorEvent { message: "tool call 'x' failed: no handler found for tool: x".into() })
    );
    match &events[1] {
        EventMsg::McpToolCallEnd(e) => {
            assert_eq!(e.call_id, "c2");
            assert_eq!(e.duration_ms, 3);
            assert_eq!(e.result, ToolCallResult::Failed("no handler found for tool: x".into()));
        }
        other => panic!("unexpected {other:?}"),
    }
    assert!(record.is_none());
}
