//! What analytics events say: the turn they belong to, and the skills and apps used.
use vstd::prelude::*;

verus! {

/// The turn that analytics events belong to.
#[derive(Clone, Debug)]
pub struct TrackEventsContext {
    pub model_slug: String,
    pub thread_id: String,
    pub turn_id: String,
}

/// The context of a turn's analytics events.
pub fn build_track_events_context(model_slug: String, thread_id: String, turn_id: String) -> (r: TrackEventsContext)
    ensures
        r.model_slug == model_slug,
        r.thread_id == thread_id,
        r.turn_id == turn_id,
{
    TrackEventsContext { model_slug, thread_id, turn_id }
}

/// How a skill or app was invoked.
#[derive(Clone, Copy, Debug, PartialEq, Eq, Structural)]
pub enum InvocationType {
    Explicit,
    Implicit,
}

/// A skill invocation.
#[derive(Clone, Debug)]
pub struct SkillInvocation {
    pub skill_name: String,
    /// The path of the skill's file.
    pub skill_path: String,
    pub invocation_type: InvocationType,
}

/// An app invocation.
#[derive(Debug)]
pub struct AppInvocation {
    pub connector_id: Option<String>,
    pub app_name: Option<String>,
    pub invocation_type: Option<InvocationType>,
}

} // verus!
