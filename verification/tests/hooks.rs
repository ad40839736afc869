use mosaic_core::hooks::{
    collect_results, FireStep, HookDefinition, HookEvent, HookEventKind, HookRegistry, HookResult,
};

/// Runs the hooks an event selects, each ending with its fixed result, the way
/// a caller runs them: stop after the first abort. Returns the collected
/// results and the reported errors.
fn fire(registry: &HookRegistry, event: &HookEvent, handlers: &[HookResult]) -> (Vec<HookResult>, Vec<String>) {
    let mut results = Vec::new();
    let mut errors = Vec::new();
    for index in registry.hooks_for(event.kind()) {
        let result = handlers[index].clone();
        let step = registry.after_hook(index, &result);
        results.push(result);
        if let FireStep::Stop { error_event } = step {
            errors.extend(error_event);
            break;
        }
    }
    (results, errors)
}

fn after_agent_event() -> HookEvent {
    HookEvent::AfterAgent { agent_id: "a1".into(), result: "{\"ok\":true}".into() }
}

fn after_tool_event() -> HookEvent {
    HookEvent::AfterToolUse { tool_name: "read_file".into(), result: "\"done\"".into() }
}

fn hook(name: &str, kind: HookEventKind) -> HookDefinition {
    HookDefinition { name: name.into(), event_kind: kind }
}

#[test]
fn fire_returns_empty_when_no_hooks() {
    let registry = HookRegistry::new();
    let (results, _) = fire(&registry, &after_agent_event(), &[]);
    assert!(results.is_empty());
}

#[test]
fn fire_collects_success_results() {
    let mut registry = HookRegistry::new();
    registry.register(hook("h1", HookEventKind::AfterAgent));
    registry.register(hook("h2", HookEventKind::AfterAgent));
    let (results, _) = fire(&registry, &after_agent_event(), &[HookResult::Success, HookResult::Success]);
    assert_eq!(results, vec![HookResult::Success, HookResult::Success]);
}

#[test]
fn fire_skips_non_matching_hooks() {
    let mut registry = HookRegistry::new();
    registry.register(hook("tool_hook", HookEventKind::AfterToolUse));
    let (results, _) = fire(&registry, &after_agent_event(), &[HookResult::Success]);
    assert!(results.is_empty());
    let (results, _) = fire(&registry, &after_tool_event(), &[HookResult::Success]);
    assert_eq!(results.len(), 1);
    assert_eq!(registry.hooks_for(HookEventKind::AfterToolUse), vec![0]);
}

#[test]
fn failed_continue_does_not_stop_processing() {
    let mut registry = HookRegistry::new();
    registry.register(hook("warn", HookEventKind::AfterAgent));
    registry.register(hook("ok", HookEventKind::AfterAgent));
    let handlers = [HookResult::FailedContinue { error: "non-fatal".into() }, HookResult::Success];
    let (results, errors) = fire(&registry, &after_agent_event(), &handlers);
    assert_eq!(results, handlers.to_vec());
    assert!(errors.is_empty());
}

#[test]
fn failed_abort_stops_processing() {
    let mut registry = HookRegistry::with_event_sender();
    registry.register(hook("abort_hook", HookEventKind::AfterAgent));
    registry.register(hook("unreachable", HookEventKind::AfterAgent));
    let handlers = [HookResult::FailedAbort { error: "fatal".into() }, HookResult::Success];
    let (results, errors) = fire(&registry, &after_agent_event(), &handlers);
    assert_eq!(results, vec![HookResult::FailedAbort { error: "fatal".into() }]);
    assert_eq!(errors, vec!["Hook 'abort_hook' aborted: fatal".to_string()]);
}

#[test]
fn failed_abort_without_event_sender_still_stops() {
    let mut registry = HookRegistry::new();
    registry.register(hook("abort", HookEventKind::AfterToolUse));
    registry.register(hook("never", HookEventKind::AfterToolUse));
    let handlers = [HookResult::FailedAbort { error: "boom".into() }, HookResult::Success];
    let (results, errors) = fire(&registry, &after_tool_event(), &handlers);
    assert_eq!(results.len(), 1);
    assert!(errors.is_empty());
}

#[test]
fn mixed_results_before_abort() {
    let mut registry = HookRegistry::with_event_sender();
    for name in ["ok1", "warn1", "abort1", "never_reached"] {
        registry.register(hook(name, HookEventKind::AfterAgent));
    }
    let handlers = [
        HookResult::Success,
        HookResult::FailedContinue { error: "meh".into() },
        HookResult::FailedAbort { error: "stop".into() },
        HookResult::Success,
    ];
    let (results, errors) = fire(&registry, &after_agent_event(), &handlers);
    assert_eq!(results, handlers[..3].to_vec());
    assert_eq!(errors.len(), 1);
    assert_eq!(collect_results(handlers.to_vec()), handlers[..3].to_vec());
}

#[test]
fn set_event_sender_after_construction() {
    let mut registry = HookRegistry::new();
    registry.set_event_sender();
    registry.register(hook("late_abort", HookEventKind::AfterAgent));
    let (_, errors) = fire(&registry, &after_agent_event(), &[HookResult::FailedAbort { error: "late".into() }]);
    assert_eq!(errors.len(), 1);
}

#[test]
fn event_kinds() {
    assert_eq!(after_agent_event().kind(), HookEventKind::AfterAgent);
    assert_eq!(after_tool_event().kind(), HookEventKind::AfterToolUse);
}
