//! How a thread answers the operations it is sent that need no model call:
//! interrupts, shutdown, renaming, rollback, compaction and the listings. Each
//! step says what to do and which events to send; the caller does the work
//! and reports how the work that can fail went.
use vstd::prelude::*;

use crate::protocol::{CodexError, TurnAbortReason};
use crate::text::{extend_str, from_chars, to_chars};

verus! {

/// An operation sent to a thread, of those answered without a model call.
#[derive(Debug)]
pub enum SessionOp {
    Interrupt,
    Shutdown,
    SetThreadName { name: String },
    ThreadRollback { num_turns: u32 },
    Compact,
    ListModels,
    ReloadUserConfig,
    CleanBackgroundTerminals,
}

/// An event the thread sends in answer to an operation.
#[derive(Debug)]
pub enum OpEvent {
    /// The running turn was stopped.
    TurnAborted { turn_id: Option<String>, reason: TurnAbortReason },
    /// The thread has shut down.
    ShutdownComplete,
    /// The thread was renamed.
    ThreadNameUpdated { thread_id: String, thread_name: Option<String> },
    /// Turns were taken off the end of the thread.
    ThreadRolledBack { num_turns: u32 },
    /// The history was compacted.
    ContextCompacted,
    /// An error, as text.
    Error { message: String },
    /// The list answered to a request for models (no models are listed yet).
    ListCustomPromptsResponse { custom_prompts: Vec<String> },
}

/// What the thread does in answer to an operation.
#[derive(Debug)]
pub enum OpAction {
    /// Stop the running turn of the session.
    InterruptSession,
    /// Tell the hooks that the session ends.
    NotifySessionEnd,
    /// Stop the thread.
    Stop,
    /// Take this many turns off the end of the history, then report the
    /// outcome to `rollback_outcome`.
    RollBack { num_turns: u32 },
    /// Compact the history, then report the outcome to `compact_outcome`.
    CompactHistory,
    /// Send an event.
    Emit(OpEvent),
}

/// The actions that answer an operation, given the id of the thread's session
/// when it has one.
pub open spec fn op_actions_spec(session_id: Option<Seq<char>>, op: SessionOp, r: Seq<OpAction>) -> bool {
    match op {
        SessionOp::Interrupt => match session_id {
            Some(_) => r.len() == 2 && r[0] is InterruptSession && (r[1] matches OpAction::Emit(
                OpEvent::TurnAborted { turn_id, reason },
            ) && turn_id is None && reason == TurnAbortReason::Interrupted),
            None => r.len() == 0,
        },
        SessionOp::Shutdown => match session_id {
            Some(_) => r.len() == 3 && r[0] is NotifySessionEnd && r[1] is Stop && (r[2] matches OpAction::Emit(
                OpEvent::ShutdownComplete,
            )),
            None => r.len() == 2 && r[0] is Stop && (r[1] matches OpAction::Emit(OpEvent::ShutdownComplete)),
        },
        SessionOp::SetThreadName { name } => match session_id {
            Some(id) => r.len() == 1 && (r[0] matches OpAction::Emit(
                OpEvent::ThreadNameUpdated { thread_id, thread_name },
            ) && thread_id@ == id && thread_name == Some(name)),
            None => r.len() == 0,
        },
        SessionOp::ThreadRollback { num_turns } => match session_id {
            Some(_) => r.len() == 1 && r[0] == OpAction::RollBack { num_turns },
            None => r.len() == 0,
        },
        SessionOp::Compact => match session_id {
            Some(_) => r.len() == 1 && r[0] is CompactHistory,
            None => r.len() == 0,
        },
        SessionOp::ListModels => r.len() == 1 && (r[0] matches OpAction::Emit(
            OpEvent::ListCustomPromptsResponse { custom_prompts },
        ) && custom_prompts@.len() == 0),
        SessionOp::ReloadUserConfig => r.len() == 0,
        SessionOp::CleanBackgroundTerminals => r.len() == 0,
    }
}

/// The actions that answer an operation: an interrupt stops the session's turn
/// and reports it aborted; shutdown tells the hooks (when there is a session),
/// stops the thread and reports it; renaming reports the new name; rollback
/// and compaction hand the work to the caller; a request for models is
/// answered with an empty list. Without a session, only shutdown and the model
/// list do anything. Reloading the configuration and cleaning background
/// terminals do nothing yet.
pub fn op_actions(session_id: Option<&str>, op: SessionOp) -> (r: Vec<OpAction>)
    ensures
        op_actions_spec(
            match session_id {
                Some(s) => Some(s@),
                None => None,
            },
            op,
            r@,
        ),
{
    let mut out: Vec<OpAction> = Vec::new();
    match op {
        SessionOp::Interrupt => {
            if session_id.is_some() {
                out.push(OpAction::InterruptSession);
                out.push(
                    OpAction::Emit(OpEvent::TurnAborted { turn_id: None, reason: TurnAbortReason::Interrupted }),
                );
            }
        },
        SessionOp::Shutdown => {
            if session_id.is_some() {
                out.push(OpAction::NotifySessionEnd);
            }
            out.push(OpAction::Stop);
            out.push(OpAction::Emit(OpEvent::ShutdownComplete));
        },
        SessionOp::SetThreadName { name } => {
            if let Some(id) = session_id {
                out.push(
                    OpAction::Emit(OpEvent::ThreadNameUpdated { thread_id: id.to_owned(), thread_name: Some(name) }),
                );
            }
        },
        SessionOp::ThreadRollback { num_turns } => {
            if session_id.is_some() {
                out.push(OpAction::RollBack { num_turns });
            }
        },
        SessionOp::Compact => {
            if session_id.is_some() {
                out.push(OpAction::CompactHistory);
            }
        },
        SessionOp::ListModels => {
            out.push(OpAction::Emit(OpEvent::ListCustomPromptsResponse { custom_prompts: Vec::new() }));
        },
        SessionOp::ReloadUserConfig => {},
        SessionOp::CleanBackgroundTerminals => {},
    }
    out
}

/// After a rollback: it is reported when it worked; its error is the answer
/// to the operation when it failed, and nothing is reported.
pub fn rollback_outcome(num_turns: u32, outcome: Result<(), CodexError>) -> (r: Result<OpEvent, CodexError>)
    ensures
        match outcome {
            Ok(()) => r matches Ok(OpEvent::ThreadRolledBack { num_turns: n }) && n == num_turns,
            Err(e) => r == Err::<OpEvent, CodexError>(e),
        },
{
    match outcome {
        Ok(()) => Ok(OpEvent::ThreadRolledBack { num_turns }),
        Err(e) => Err(e),
    }
}

/// After a compaction: report it, or report the failure as an error event.
pub fn compact_outcome(outcome: Result<(), CodexError>) -> (r: OpEvent)
    ensures
        match outcome {
            Ok(()) => r is ContextCompacted,
            Err(e) => r matches OpEvent::Error { message } && message@ == "compact failed: "@ + e.message@,
        },
{
    match outcome {
        Ok(()) => OpEvent::ContextCompacted,
        Err(e) => {
            let mut m = to_chars("compact failed: ");
            extend_str(&mut m, e.message.as_str());
            OpEvent::Error { message: from_chars(m.as_slice()) }
        },
    }
}

} // verus!
