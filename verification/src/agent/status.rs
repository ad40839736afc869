//! Agent status derived from the events a session emits.
use vstd::prelude::*;

use crate::protocol::{abort_reason_debug, abort_reason_debug_exec, AgentStatus, EventMsg};
use crate::text::clone_opt_string;

verus! {

/// The status an event moves an agent to; `None` for events that leave it as it is.
pub open spec fn status_after(msg: EventMsg, r: Option<AgentStatus>) -> bool {
    match msg {
        EventMsg::TurnStarted(_) => r == Some(AgentStatus::Running),
        EventMsg::TurnComplete(ev) => r == Some(AgentStatus::Completed(ev.last_agent_message)),
        EventMsg::TurnAborted(ev) => r matches Some(AgentStatus::Errored(m)) && m@
            == abort_reason_debug(ev.reason),
        EventMsg::Error(ev) => r == Some(AgentStatus::Errored(ev.message)),
        EventMsg::ShutdownComplete => r == Some(AgentStatus::Shutdown),
        _ => r is None,
    }
}

/// The status an event moves an agent to, or `None` when it does not affect it.
pub fn agent_status_from_event(msg: &EventMsg) -> (r: Option<AgentStatus>)
    ensures
        status_after(*msg, r),
{
    match msg {
        EventMsg::TurnStarted(_) => Some(AgentStatus::Running),
        EventMsg::TurnComplete(ev) => Some(AgentStatus::Completed(clone_opt_string(&ev.last_agent_message))),
        EventMsg::TurnAborted(ev) => Some(AgentStatus::Errored(abort_reason_debug_exec(ev.reason))),
        EventMsg::Error(ev) => Some(AgentStatus::Errored(ev.message.clone())),
        EventMsg::ShutdownComplete => Some(AgentStatus::Shutdown),
        _ => None,
    }
}

/// A status is final unless the agent is still starting or running.
pub open spec fn is_final_spec(status: AgentStatus) -> bool {
    !(status is PendingInit || status is Running)
}

/// Whether the status is terminal.
pub fn is_final(status: &AgentStatus) -> (r: bool)
    ensures
        r == is_final_spec(*status),
{
    match status {
        AgentStatus::PendingInit => false,
        AgentStatus::Running => false,
        _ => true,
    }
}

} // verus!
