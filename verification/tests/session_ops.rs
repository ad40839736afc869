use mosaic_core::protocol::{CodexError, ErrorCode, TurnAbortReason};
use mosaic_core::session_ops::{compact_outcome, op_actions, rollback_outcome, OpAction, OpEvent, SessionOp};

#[test]
fn interrupt_stops_the_turn_and_reports_it() {
    let r = op_actions(Some("s1"), SessionOp::Interrupt);
    assert_eq!(r.len(), 2);
    assert!(matches!(r[0], OpAction::InterruptSession));
    assert!(matches!(
        r[1],
        OpAction::Emit(OpEvent::TurnAborted { turn_id: None, reason: TurnAbortReason::Interrupted })
    ));
}

#[test]
fn interrupt_without_session_does_nothing() {
    assert!(op_actions(None, SessionOp::Interrupt).is_empty());
}

#[test]
fn shutdown_notifies_hooks_only_with_a_session() {
    let with = op_actions(Some("s1"), SessionOp::Shutdown);
    assert_eq!(with.len(), 3);
    assert!(matches!(with[0], OpAction::NotifySessionEnd));
    assert!(matches!(with[1], OpAction::Stop));
    assert!(matches!(with[2], OpAction::Emit(OpEvent::ShutdownComplete)));

    let without = op_actions(None, SessionOp::Shutdown);
    assert_eq!(without.len(), 2);
    assert!(matches!(without[0], OpAction::Stop));
    assert!(matches!(without[1], OpAction::Emit(OpEvent::ShutdownComplete)));
}

#[test]
fn rename_reports_the_new_name_of_the_session() {
    let r = op_actions(Some("s1"), SessionOp::SetThreadName { name: "docs".into() });
    assert_eq!(r.len(), 1);
    match &r[0] {
        OpAction::Emit(OpEvent::ThreadNameUpdated { thread_id, thread_name }) => {
            assert_eq!(thread_id, "s1");
            assert_eq!(thread_name.as_deref(), Some("docs"));
        }
        other => panic!("unexpected {other:?}"),
    }
    assert!(op_actions(None, SessionOp::SetThreadName { name: "docs".into() }).is_empty());
}

#[test]
fn rollback_and_compaction_are_handed_to_the_caller() {
    let r = op_actions(Some("s1"), SessionOp::ThreadRollback { num_turns: 3 });
    assert_eq!(r.len(), 1);
    assert!(matches!(r[0], OpAction::RollBack { num_turns: 3 }));
    let c = op_actions(Some("s1"), SessionOp::Compact);
    assert_eq!(c.len(), 1);
    assert!(matches!(c[0], OpAction::CompactHistory));
    assert!(op_actions(None, SessionOp::ThreadRollback { num_turns: 3 }).is_empty());
    assert!(op_actions(None, SessionOp::Compact).is_empty());
}

#[test]
fn model_listing_is_answered_with_an_empty_list() {
    for sid in [Some("s1"), None] {
        let r = op_actions(sid, SessionOp::ListModels);
        assert_eq!(r.len(), 1);
        match &r[0] {
            OpAction::Emit(OpEvent::ListCustomPromptsResponse { custom_prompts }) => {
                assert!(custom_prompts.is_empty())
            }
            other => panic!("unexpected {other:?}"),
        }
    }
}

#[test]
fn reload_and_clean_do_nothing() {
    assert!(op_actions(Some("s1"), SessionOp::ReloadUserConfig).is_empty());
    assert!(op_actions(Some("s1"), SessionOp::CleanBackgroundTerminals).is_empty());
}

#[test]
fn rollback_outcome_reports_success_or_passes_the_error() {
    assert!(matches!(
        rollback_outcome(2, Ok(())),
        Ok(OpEvent::ThreadRolledBack { num_turns: 2 })
    ));
    let err = CodexError::new(ErrorCode::SessionError, "no such turn".into());
    let e = rollback_outcome(2, Err(err)).unwrap_err();
    assert_eq!(e.code, ErrorCode::SessionError);
    assert_eq!(e.message, "no such turn");
}

#[test]
fn compact_outcome_reports_failure_as_error_text() {
    assert!(matches!(compact_outcome(Ok(())), OpEvent::ContextCompacted));
    let err = CodexError::new(ErrorCode::InternalError, "disk full".into());
    match compact_outcome(Err(err)) {
        OpEvent::Error { message } => assert_eq!(message, "compact failed: disk full"),
        other => panic!("unexpected {other:?}"),
    }
}
