//! Hooks: handlers registered for events after an agent run or a tool use.
//!
//! Handlers run outside the library. [`HookRegistry::hooks_for`] says which
//! hooks an event runs, in order, and [`HookRegistry::after_hook`] says, after
//! each one, whether to go on.
use vstd::prelude::*;

use crate::text::{extend_str, from_chars, to_chars};

verus! {

/// An event that hooks can follow.
#[derive(Debug, Clone, PartialEq, Eq)]
pub enum HookEvent {
    /// An agent finished; its result as JSON text.
    AfterAgent { agent_id: String, result: String },
    /// A tool was used; its result as JSON text.
    AfterToolUse { tool_name: String, result: String },
}

/// The kind of a hook event.
#[derive(Debug, Clone, Copy, PartialEq, Eq, Structural)]
pub enum HookEventKind {
    AfterAgent,
    AfterToolUse,
}

/// The kind of an event.
pub open spec fn kind_of(event: HookEvent) -> HookEventKind {
    match event {
        HookEvent::AfterAgent { .. } => HookEventKind::AfterAgent,
        HookEvent::AfterToolUse { .. } => HookEventKind::AfterToolUse,
    }
}

impl HookEvent {
    /// The kind of this event.
    pub fn kind(&self) -> (r: HookEventKind)
        ensures
            r == kind_of(*self),
    {
        match self {
            HookEvent::AfterAgent { .. } => HookEventKind::AfterAgent,
            HookEvent::AfterToolUse { .. } => HookEventKind::AfterToolUse,
        }
    }
}

/// How a hook handler ended.
#[derive(Debug, Clone, PartialEq, Eq)]
pub enum HookResult {
    Success,
    /// Failed; later hooks still run.
    FailedContinue { error: String },
    /// Failed; no later hook runs.
    FailedAbort { error: String },
}

/// A registered hook, by name and the kind of event it follows.
#[derive(Debug, Clone)]
pub struct HookDefinition {
    pub name: String,
    pub event_kind: HookEventKind,
}

/// What happens after a hook ran.
#[derive(Debug, Clone, PartialEq, Eq)]
pub enum FireStep {
    /// Run the next hook.
    Continue,
    /// Run no more hooks; report this error when there is an event sender.
    Stop { error_event: Option<String> },
}

/// The hooks of a session, in registration order.
#[derive(Debug)]
pub struct HookRegistry {
    hooks: Vec<HookDefinition>,
    has_event_sender: bool,
}

/// The positions, in order, of the hooks that follow events of `kind`.
pub open spec fn positions_for(hooks: Seq<HookDefinition>, kind: HookEventKind, n: int) -> Seq<usize>
    decreases n,
{
    if n <= 0 {
        Seq::empty()
    } else {
        positions_for(hooks, kind, n - 1) + if hooks[n - 1].event_kind == kind {
            seq![(n - 1) as usize]
        } else {
            Seq::empty()
        }
    }
}

/// The results that firing collects from the results of the hooks it runs:
/// all of them up to and including the first abort.
pub open spec fn collected(results: Seq<HookResult>) -> Seq<HookResult>
    decreases results.len(),
{
    if results.len() == 0 {
        Seq::empty()
    } else if results[0] is FailedAbort {
        seq![results[0]]
    } else {
        seq![results[0]] + collected(results.drop_first())
    }
}

impl HookRegistry {
    /// The registered hooks.
    pub closed spec fn spec_hooks(&self) -> Seq<HookDefinition> {
        self.hooks@
    }

    /// Errors of aborting hooks are reported.
    pub closed spec fn spec_has_event_sender(&self) -> bool {
        self.has_event_sender
    }

    /// No hooks, and no event sender.
    pub fn new() -> (r: Self)
        ensures
            r.spec_hooks().len() == 0,
            !r.spec_has_event_sender(),
    {
        HookRegistry { hooks: Vec::new(), has_event_sender: false }
    }

    /// No hooks, with an event sender.
    pub fn with_event_sender() -> (r: Self)
        ensures
            r.spec_hooks().len() == 0,
            r.spec_has_event_sender(),
    {
        HookRegistry { hooks: Vec::new(), has_event_sender: true }
    }

    /// From now on the errors of aborting hooks are reported.
    pub fn set_event_sender(&mut self)
        ensures
            final(self).spec_hooks() == old(self).spec_hooks(),
            final(self).spec_has_event_sender(),
    {
        self.has_event_sender = true;
    }

    /// Adds a hook after the others.
    pub fn register(&mut self, definition: HookDefinition)
        ensures
            final(self).spec_hooks() == old(self).spec_hooks().push(definition),
            final(self).spec_has_event_sender() == old(self).spec_has_event_sender(),
    {
        self.hooks.push(definition);
    }

    /// The positions of the hooks that an event of `kind` runs, in order.
    pub fn hooks_for(&self, kind: HookEventKind) -> (r: Vec<usize>)
        ensures
            r@ == positions_for(self.spec_hooks(), kind, self.spec_hooks().len() as int),
    {
        let mut out: Vec<usize> = Vec::new();
        let mut i: usize = 0;
        while i < self.hooks.len()
            invariant
                i <= self.hooks@.len(),
                out@ == positions_for(self.hooks@, kind, i as int),
            decreases self.hooks@.len() - i,
        {
            if self.hooks[i].event_kind == kind {
                out.push(i);
            }
            i = i + 1;
        }
        out
    }

    /// After hook `index` ended with `result`: an abort stops the firing and is
    /// reported, when there is an event sender, as `Hook '<name>' aborted: <error>`;
    /// anything else goes on.
    pub fn after_hook(&self, index: usize, result: &HookResult) -> (r: FireStep)
        requires
            index < self.spec_hooks().len(),
        ensures
            match result {
                HookResult::FailedAbort { error } => r matches FireStep::Stop { error_event } && if self.spec_has_event_sender() {
                    error_event matches Some(m) && m@ == "Hook '"@ + self.spec_hooks()[index as int].name@
                        + "' aborted: "@ + error@
                } else {
                    error_event is None
                },
                _ => r == FireStep::Continue,
            },
    {
        match result {
            HookResult::FailedAbort { error } => {
                if !self.has_event_sender {
                    return FireStep::Stop { error_event: None };
                }
                let mut m = to_chars("Hook '");
                extend_str(&mut m, self.hooks[index].name.as_str());
                extend_str(&mut m, "' aborted: ");
                extend_str(&mut m, error.as_str());
                FireStep::Stop { error_event: Some(from_chars(m.as_slice())) }
            },
            _ => FireStep::Continue,
        }
    }

    /// A session started; no hook follows this.
    pub fn notify_session_start(&self, _session_id: &str) {
    }

    /// A session ended; no hook follows this.
    pub fn notify_session_end(&self, _session_id: &str) {
    }

    /// A turn started; no hook follows this.
    pub fn notify_turn_start(&self, _turn_id: &str) {
    }

    /// A turn completed; no hook follows this.
    pub fn notify_turn_complete(&self, _turn_id: &str) {
    }
}

/// Collects the results of hooks run in order, up to and including the first abort.
pub fn collect_results(results: Vec<HookResult>) -> (r: Vec<HookResult>)
    ensures
        r@ == collected(results@),
{
    let mut out: Vec<HookResult> = Vec::new();
    let mut rest = results;
    let ghost all = rest@;
    let mut stopped = false;
    while rest.len() > 0 && !stopped
        invariant
            !stopped ==> out@ + collected(rest@) == collected(all),
            stopped ==> out@ == collected(all),
        decreases rest@.len(),
    {
        let ghost before = rest@;
        let first = rest.remove(0);
        assert(rest@ =~= before.drop_first());
        let abort = match &first {
            HookResult::FailedAbort { .. } => true,
            _ => false,
        };
        out.push(first);
        if abort {
            stopped = true;
            assert(out@ =~= collected(all));
        } else {
            assert(out@ + collected(rest@) =~= collected(all));
        }
    }
    if !stopped {
        assert(collected(rest@) =~= Seq::<HookResult>::empty());
        assert(out@ =~= collected(all));
    }
    out
}

/// Firing runs no hook after an abort: what it collects ends at the first
/// abort, and holds every result before it.
pub proof fn law_firing_stops_at_first_abort(results: Seq<HookResult>, i: int)
    requires
        0 <= i < results.len(),
        results[i] is FailedAbort,
        forall|j: int| 0 <= j < i ==> !(results[j] is FailedAbort),
    ensures
        collected(results) == results.take(i + 1),
    decreases i,
{
    if i > 0 {
        law_firing_stops_at_first_abort(results.drop_first(), i - 1);
        assert(results.drop_first().take(i) =~= results.take(i + 1).drop_first());
        assert(seq![results[0]] + results.take(i + 1).drop_first() =~= results.take(i + 1));
    } else {
        assert(results.take(1) =~= seq![results[0]]);
    }
}

} // verus!
