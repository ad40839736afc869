//! Session state for talking to a model provider: transport choice, response
//! chaining, fallback eligibility and retry delays.
use vstd::prelude::*;

use crate::protocol::{CodexError, ErrorCode, ResponseItem};
use crate::text::{
    clone_opt_string, contains_spec, extend_str, from_chars, str_contains, str_eq, to_chars,
    to_lowercase, unicode_lowercase,
};

verus! {

// ── Provider ─────────────────────────────────────────────────────

/// What is known of a model provider.
#[derive(Debug, Clone)]
pub struct ModelProviderInfo {
    pub name: String,
    pub base_url: String,
    pub supports_websockets: bool,
    /// How many times a request is attempted.
    pub max_attempts: u32,
    /// How long a stream may stay idle, in milliseconds.
    pub stream_idle_timeout_ms: u64,
}

/// The provider settings a client uses.
#[derive(Debug, Clone)]
pub struct Provider {
    pub name: String,
    pub base_url: String,
    pub max_attempts: u32,
    pub stream_idle_timeout_ms: u64,
}

impl ModelProviderInfo {
    /// The OpenAI provider; without WebSocket support until enabled.
    pub fn create_openai() -> (r: Self)
        ensures
            r.name@ == "openai"@,
            r.base_url@ == "https://api.openai.com/v1"@,
            !r.supports_websockets,
    {
        ModelProviderInfo {
            name: "openai".to_owned(),
            base_url: "https://api.openai.com/v1".to_owned(),
            supports_websockets: false,
            max_attempts: 4,
            stream_idle_timeout_ms: 300000,
        }
    }

    /// A local open-source provider at `base_url`, without WebSocket support.
    pub fn create_oss(base_url: &str) -> (r: Self)
        ensures
            r.name@ == "oss"@,
            r.base_url@ == base_url@,
            !r.supports_websockets,
    {
        ModelProviderInfo {
            name: "oss".to_owned(),
            base_url: base_url.to_owned(),
            supports_websockets: false,
            max_attempts: 4,
            stream_idle_timeout_ms: 300000,
        }
    }

    /// The provider settings of this provider.
    pub fn to_provider(&self) -> (r: Provider)
        ensures
            r.name == self.name,
            r.base_url == self.base_url,
            r.max_attempts == self.max_attempts,
            r.stream_idle_timeout_ms == self.stream_idle_timeout_ms,
    {
        Provider {
            name: self.name.clone(),
            base_url: self.base_url.clone(),
            max_attempts: self.max_attempts,
            stream_idle_timeout_ms: self.stream_idle_timeout_ms,
        }
    }
}

// ── WebSocket version ────────────────────────────────────────────

/// WebSocket protocol version of the Responses API.
#[derive(Debug, Clone, Copy, PartialEq, Eq, Structural)]
pub enum ResponsesWebsocketVersion {
    V1,
    V2,
}

/// The WebSocket version to use: `V1` when the provider supports WebSockets.
pub fn ws_version_from_provider(info: &ModelProviderInfo) -> (r: Option<ResponsesWebsocketVersion>)
    ensures
        r == (if info.supports_websockets {
            Some(ResponsesWebsocketVersion::V1)
        } else {
            None
        }),
{
    if info.supports_websockets {
        Some(ResponsesWebsocketVersion::V1)
    } else {
        None
    }
}

// ── Fallback ─────────────────────────────────────────────────────

/// Which models to try, in order, when the primary one fails.
#[derive(Debug, Clone)]
pub struct ModelFallbackConfig {
    pub primary_model: String,
    pub fallback_models: Vec<String>,
}

/// An error message (lowercased) that calls for the next model: the model is
/// missing, out of capacity or overloaded, or rate limited with status 429.
pub open spec fn fallback_message(lower: Seq<char>) -> bool {
    ||| contains_spec(lower, "model_not_found"@)
    ||| contains_spec(lower, "model not found"@)
    ||| contains_spec(lower, "capacity"@)
    ||| contains_spec(lower, "overloaded"@)
    ||| contains_spec(lower, "429"@) && contains_spec(lower, "rate"@)
}

/// Whether an error should make the client fall back to the next model.
pub fn is_fallback_eligible(err: &CodexError) -> (r: bool)
    ensures
        r == fallback_message(unicode_lowercase(err.message@)),
{
    let msg = to_lowercase(err.message.as_str());
    let m = msg.as_str();
    str_contains(m, "model_not_found") || str_contains(m, "model not found") || str_contains(
        m,
        "capacity",
    ) || str_contains(m, "overloaded") || (str_contains(m, "429") && str_contains(m, "rate"))
}

/// The transport of a streamed request.
#[derive(Debug, Clone, Copy, PartialEq, Eq, Structural)]
pub enum StreamTransport {
    WebSocket,
    Sse,
}

/// What follows a failed attempt to stream with one of the models tried.
#[derive(Debug)]
pub enum FallbackStep {
    /// Try the model at this position next.
    TryModel(usize),
    /// Give up with this error.
    Fail(CodexError),
}

/// After the model at position `index` of `model_count` failed with `err`:
/// with a fallback configuration and an error that calls for it, the next
/// model, unless none is left, when the last error is the answer; any other
/// error is the answer at once, as it is without a fallback configuration.
pub fn after_model_failure(with_fallback: bool, index: usize, model_count: usize, err: CodexError) -> (r: FallbackStep)
    requires
        index < model_count,
    ensures
        (with_fallback && fallback_message(unicode_lowercase(err.message@)) && index + 1 < model_count) ==> r
            == FallbackStep::TryModel((index + 1) as usize),
        !(with_fallback && fallback_message(unicode_lowercase(err.message@)) && index + 1 < model_count) ==> r
            == FallbackStep::Fail(err),
{
    if with_fallback && is_fallback_eligible(&err) && index + 1 < model_count {
        FallbackStep::TryModel(index + 1)
    } else {
        FallbackStep::Fail(err)
    }
}

// ── Events ───────────────────────────────────────────────────────

/// Token counts of a completed response.
#[derive(Debug, Clone, Copy, Default)]
pub struct TokenUsage {
    pub input_tokens: u64,
    pub output_tokens: u64,
    pub total_tokens: u64,
    pub cached_input_tokens: u64,
    pub reasoning_output_tokens: u64,
}

/// An event of a response stream.
#[derive(Debug)]
pub enum ResponseEvent {
    Created,
    OutputTextDelta { delta: String },
    OutputItemDone(crate::protocol::ResponseItem),
    OutputItemAdded(crate::protocol::ResponseItem),
    FunctionCall { call_id: String, name: String, arguments: String },
    ReasoningSummaryDelta { delta: String, summary_index: i64 },
    ReasoningContentDelta { delta: String, content_index: i64 },
    ReasoningSummaryPartAdded { summary_index: i64 },
    ServerModel(String),
    Completed { response_id: String, token_usage: Option<TokenUsage>, can_append: bool },
    Failed { code: String, message: String },
}

// ── Stream events ────────────────────────────────────────────────

/// The usage numbers of a response, as far as the event gives them.
#[derive(Debug, Clone, Copy, Default)]
pub struct UsageFields {
    pub input_tokens: Option<u64>,
    pub output_tokens: Option<u64>,
    pub total_tokens: Option<u64>,
    /// `input_tokens_details.cached_tokens`.
    pub cached_tokens: Option<u64>,
    /// `output_tokens_details.reasoning_tokens`.
    pub reasoning_tokens: Option<u64>,
}

/// The fields of a stream event that decide what it means; `None` where the
/// event lacks a field or gives it with another JSON type.
#[derive(Debug, Default)]
pub struct WsEventFields {
    /// `delta`, as text.
    pub delta: Option<String>,
    /// `item.type`, `item.call_id`, `item.name` and `item.arguments`, as text.
    pub item_type: Option<String>,
    pub item_call_id: Option<String>,
    pub item_name: Option<String>,
    pub item_arguments: Option<String>,
    /// `item`, when it reads as a model item.
    pub item: Option<ResponseItem>,
    /// `summary_index` and `content_index`, as integers.
    pub summary_index: Option<i64>,
    pub content_index: Option<i64>,
    /// Whether there is a `response` object.
    pub has_response: bool,
    /// `response.id`, as text.
    pub response_id: Option<String>,
    /// `response.usage`, when present.
    pub usage: Option<UsageFields>,
    /// `response.incomplete_details.reason`, as text.
    pub incomplete_reason: Option<String>,
    /// `response.error.code` and `response.error.message`, as text.
    pub failure_code: Option<String>,
    pub failure_message: Option<String>,
    /// `error.message`, as text.
    pub error_message: Option<String>,
}

/// A number of the usage, zero when absent.
pub open spec fn or_zero(v: Option<u64>) -> u64 {
    match v {
        Some(n) => n,
        None => 0,
    }
}

/// Token usage from its fields, each zero when absent.
pub fn parse_token_usage(usage: &UsageFields) -> (r: TokenUsage)
    ensures
        r.input_tokens == or_zero(usage.input_tokens),
        r.output_tokens == or_zero(usage.output_tokens),
        r.total_tokens == or_zero(usage.total_tokens),
        r.cached_input_tokens == or_zero(usage.cached_tokens),
        r.reasoning_output_tokens == or_zero(usage.reasoning_tokens),
{
    TokenUsage {
        input_tokens: usage.input_tokens.unwrap_or(0),
        output_tokens: usage.output_tokens.unwrap_or(0),
        total_tokens: usage.total_tokens.unwrap_or(0),
        cached_input_tokens: usage.cached_tokens.unwrap_or(0),
        reasoning_output_tokens: usage.reasoning_tokens.unwrap_or(0),
    }
}

/// Text of an optional field, or `default` when absent.
pub open spec fn text_or(v: Option<String>, default: Seq<char>) -> Seq<char> {
    match v {
        Some(s) => s@,
        None => default,
    }
}

fn text_or_exec(v: Option<String>, default: &str) -> (r: String)
    ensures
        r@ == text_or(v, default@),
{
    match v {
        Some(s) => s,
        None => default.to_owned(),
    }
}

/// The event a stream message of kind `kind` stands for: `None` for kinds
/// without meaning here and for messages that lack what their kind needs;
/// an error for incomplete responses and error messages.
pub open spec fn ws_event(kind: Seq<char>, f: WsEventFields, r: Option<Result<ResponseEvent, CodexError>>) -> bool {
    if kind == "response.output_text.delta"@ {
        r matches Some(Ok(ResponseEvent::OutputTextDelta { delta })) && delta@ == text_or(f.delta, ""@)
    } else if kind == "response.output_item.done"@ {
        if f.item_type matches Some(t) && t@ == "function_call"@ {
            r matches Some(Ok(ResponseEvent::FunctionCall { call_id, name, arguments })) && call_id@
                == text_or(f.item_call_id, ""@) && name@ == text_or(f.item_name, ""@) && arguments@
                == text_or(f.item_arguments, "{}"@)
        } else {
            match f.item {
                Some(i) => r == Some(Ok::<ResponseEvent, CodexError>(ResponseEvent::OutputItemDone(i))),
                None => r is None,
            }
        }
    } else if kind == "response.output_item.added"@ {
        match f.item {
            Some(i) => r == Some(Ok::<ResponseEvent, CodexError>(ResponseEvent::OutputItemAdded(i))),
            None => r is None,
        }
    } else if kind == "response.reasoning_summary_text.delta"@ {
        r matches Some(Ok(ResponseEvent::ReasoningSummaryDelta { delta, summary_index })) && delta@
            == text_or(f.delta, ""@) && summary_index == match f.summary_index {
            Some(i) => i,
            None => 0,
        }
    } else if kind == "response.reasoning_text.delta"@ {
        r matches Some(Ok(ResponseEvent::ReasoningContentDelta { delta, content_index })) && delta@
            == text_or(f.delta, ""@) && content_index == match f.content_index {
            Some(i) => i,
            None => 0,
        }
    } else if kind == "response.reasoning_summary_part.added"@ {
        match f.summary_index {
            Some(i) => r matches Some(Ok(ResponseEvent::ReasoningSummaryPartAdded { summary_index }))
                && summary_index == i,
            None => r is None,
        }
    } else if kind == "response.created"@ {
        if f.has_response {
            r matches Some(Ok(ResponseEvent::Created))
        } else {
            r is None
        }
    } else if kind == "response.completed"@ || kind == "response.done"@ {
        r matches Some(Ok(ResponseEvent::Completed { response_id, token_usage, can_append }))
            && response_id@ == text_or(f.response_id, ""@) && can_append == (kind
            == "response.done"@) && match f.usage {
            Some(u) => token_usage matches Some(t) && t.input_tokens == or_zero(u.input_tokens)
                && t.output_tokens == or_zero(u.output_tokens) && t.total_tokens == or_zero(
                u.total_tokens,
            ) && t.cached_input_tokens == or_zero(u.cached_tokens) && t.reasoning_output_tokens
                == or_zero(u.reasoning_tokens),
            None => token_usage is None,
        }
    } else if kind == "response.incomplete"@ {
        r matches Some(Err(e)) && e.code == ErrorCode::InternalError && e.message@
            == "Incomplete response, reason: "@ + text_or(f.incomplete_reason, "unknown"@)
    } else if kind == "response.failed"@ {
        r matches Some(Ok(ResponseEvent::Failed { code, message })) && code@ == text_or(
            f.failure_code,
            "unknown"@,
        ) && message@ == text_or(f.failure_message, "unknown error"@)
    } else if kind == "error"@ {
        r matches Some(Err(e)) && e.code == ErrorCode::InternalError && e.message@ == text_or(
            f.error_message,
            "WebSocket error"@,
        )
    } else {
        r is None
    }
}

/// The event a stream message stands for, from its kind and fields.
pub fn parse_ws_event(kind: &str, fields: WsEventFields) -> (r: Option<Result<ResponseEvent, CodexError>>)
    ensures
        ws_event(kind@, fields, r),
{
    let ghost f = fields;
    if str_eq(kind, "response.output_text.delta") {
        return Some(Ok(ResponseEvent::OutputTextDelta { delta: text_or_exec(fields.delta, "") }));
    }
    if str_eq(kind, "response.output_item.done") {
        let is_call = match &fields.item_type {
            Some(t) => str_eq(t.as_str(), "function_call"),
            None => false,
        };
        if is_call {
            return Some(Ok(ResponseEvent::FunctionCall {
                call_id: text_or_exec(fields.item_call_id, ""),
                name: text_or_exec(fields.item_name, ""),
                arguments: text_or_exec(fields.item_arguments, "{}"),
            }));
        }
        return match fields.item {
            Some(i) => Some(Ok(ResponseEvent::OutputItemDone(i))),
            None => None,
        };
    }
    if str_eq(kind, "response.output_item.added") {
        return match fields.item {
            Some(i) => Some(Ok(ResponseEvent::OutputItemAdded(i))),
            None => None,
        };
    }
    if str_eq(kind, "response.reasoning_summary_text.delta") {
        return Some(Ok(ResponseEvent::ReasoningSummaryDelta {
            delta: text_or_exec(fields.delta, ""),
            summary_index: fields.summary_index.unwrap_or(0),
        }));
    }
    if str_eq(kind, "response.reasoning_text.delta") {
        return Some(Ok(ResponseEvent::ReasoningContentDelta {
            delta: text_or_exec(fields.delta, ""),
            content_index: fields.content_index.unwrap_or(0),
        }));
    }
    if str_eq(kind, "response.reasoning_summary_part.added") {
        return match fields.summary_index {
            Some(i) => Some(Ok(ResponseEvent::ReasoningSummaryPartAdded { summary_index: i })),
            None => None,
        };
    }
    if str_eq(kind, "response.created") {
        return if fields.has_response {
            Some(Ok(ResponseEvent::Created))
        } else {
            None
        };
    }
    if str_eq(kind, "response.completed") || str_eq(kind, "response.done") {
        let can_append = str_eq(kind, "response.done");
        let token_usage = match &fields.usage {
            Some(u) => Some(parse_token_usage(u)),
            None => None,
        };
        return Some(Ok(ResponseEvent::Completed {
            response_id: text_or_exec(fields.response_id, ""),
            token_usage,
            can_append,
        }));
    }
    if str_eq(kind, "response.incomplete") {
        let mut m = to_chars("Incomplete response, reason: ");
        let reason = text_or_exec(fields.incomplete_reason, "unknown");
        extend_str(&mut m, reason.as_str());
        return Some(Err(CodexError::new(ErrorCode::InternalError, from_chars(m.as_slice()))));
    }
    if str_eq(kind, "response.failed") {
        return Some(Ok(ResponseEvent::Failed {
            code: text_or_exec(fields.failure_code, "unknown"),
            message: text_or_exec(fields.failure_message, "unknown error"),
        }));
    }
    if str_eq(kind, "error") {
        let message = text_or_exec(fields.error_message, "WebSocket error");
        return Some(Err(CodexError::new(ErrorCode::InternalError, message)));
    }
    None
}

// ── Client ───────────────────────────────────────────────────────

/// State shared by the turns of a session.
#[derive(Debug)]
struct ModelClientState {
    provider: Provider,
    api_key: String,
    conversation_id: String,
    last_response_id: Option<String>,
    ws_version: Option<ResponsesWebsocketVersion>,
    ws_disabled: bool,
    fallback_config: Option<ModelFallbackConfig>,
}

impl ModelClientState {
    /// A copy of the state.
    fn clone_state(&self) -> (r: Self)
        ensures
            r.provider.name == self.provider.name,
            r.provider.base_url == self.provider.base_url,
            r.provider.max_attempts == self.provider.max_attempts,
            r.provider.stream_idle_timeout_ms == self.provider.stream_idle_timeout_ms,
            r.api_key == self.api_key,
            r.conversation_id == self.conversation_id,
            r.last_response_id == self.last_response_id,
            r.ws_version == self.ws_version,
            r.ws_disabled == self.ws_disabled,
            r.fallback_config is Some <==> self.fallback_config is Some,
    {
        ModelClientState {
            provider: Provider {
                name: self.provider.name.clone(),
                base_url: self.provider.base_url.clone(),
                max_attempts: self.provider.max_attempts,
                stream_idle_timeout_ms: self.provider.stream_idle_timeout_ms,
            },
            api_key: self.api_key.clone(),
            conversation_id: self.conversation_id.clone(),
            last_response_id: clone_opt_string(&self.last_response_id),
            ws_version: self.ws_version,
            ws_disabled: self.ws_disabled,
            fallback_config: match &self.fallback_config {
                Some(c) => Some(ModelFallbackConfig {
                    primary_model: c.primary_model.clone(),
                    fallback_models: c.fallback_models.clone(),
                }),
                None => None,
            },
        }
    }
}

/// A session-scoped client: provider, key, conversation and the response id
/// that the next request chains to.
#[derive(Debug)]
pub struct ModelClient {
    state: ModelClientState,
}

/// A turn-scoped streaming session.
#[derive(Debug)]
pub struct ModelClientSession {
    model: String,
    conversation_id: String,
    previous_response_id: Option<String>,
}

impl ModelClientSession {
    /// The model of this turn, in specifications.
    pub closed spec fn spec_model(&self) -> Seq<char> {
        self.model@
    }

    /// The model of this turn.
    pub fn model(&self) -> (r: &str)
        ensures
            r@ == self.spec_model(),
    {
        self.model.as_str()
    }

    /// The response this turn chains to.
    pub fn previous_response_id(&self) -> (r: Option<String>)
        ensures
            r == self.spec_previous_response_id(),
    {
        clone_opt_string(&self.previous_response_id)
    }

    /// The response id this session chains to, in specifications.
    pub closed spec fn spec_previous_response_id(&self) -> Option<String> {
        self.previous_response_id
    }
}

impl ModelClient {
    /// The conversation id, in specifications.
    pub closed spec fn spec_conversation_id(&self) -> Seq<char> {
        self.state.conversation_id@
    }

    /// The response id the next turn chains to.
    pub closed spec fn spec_last_response_id(&self) -> Option<String> {
        self.state.last_response_id
    }

    /// The WebSocket version the provider offers.
    pub closed spec fn spec_ws_version(&self) -> Option<ResponsesWebsocketVersion> {
        self.state.ws_version
    }

    /// WebSockets were disabled after a failure.
    pub closed spec fn spec_ws_disabled(&self) -> bool {
        self.state.ws_disabled
    }

    /// The fallback configuration, if any.
    pub closed spec fn spec_has_fallback(&self) -> bool {
        self.state.fallback_config is Some
    }

    /// The provider's name, in specifications.
    pub closed spec fn spec_provider_name(&self) -> Seq<char> {
        self.state.provider.name@
    }

    /// A client for `provider`, without WebSocket transport.
    pub fn new(provider: Provider, api_key: String, conversation_id: String) -> (r: Self)
        ensures
            r.spec_conversation_id() == conversation_id@,
            r.spec_provider_name() == provider.name@,
            r.spec_last_response_id() is None,
            r.spec_ws_version() is None,
            !r.spec_ws_disabled(),
            !r.spec_has_fallback(),
    {
        ModelClient {
            state: ModelClientState {
                provider,
                api_key,
                conversation_id,
                last_response_id: None,
                ws_version: None,
                ws_disabled: false,
                fallback_config: None,
            },
        }
    }

    /// A client for the provider described by `info`, using WebSockets when it supports them.
    pub fn from_provider_info(info: &ModelProviderInfo, api_key: String, conversation_id: String) -> (r: Self)
        ensures
            r.spec_conversation_id() == conversation_id@,
            r.spec_provider_name() == info.name@,
            r.spec_last_response_id() is None,
            r.spec_ws_version() == (if info.supports_websockets {
                Some(ResponsesWebsocketVersion::V1)
            } else {
                None
            }),
            !r.spec_ws_disabled(),
            !r.spec_has_fallback(),
    {
        let provider = info.to_provider();
        let ws_version = ws_version_from_provider(info);
        ModelClient {
            state: ModelClientState {
                provider,
                api_key,
                conversation_id,
                last_response_id: None,
                ws_version,
                ws_disabled: false,
                fallback_config: None,
            },
        }
    }

    /// The client with a fallback configuration; everything else is kept.
    pub fn with_fallback(self, config: ModelFallbackConfig) -> (r: Self)
        ensures
            r.spec_has_fallback(),
            r.spec_conversation_id() == self.spec_conversation_id(),
            r.spec_provider_name() == self.spec_provider_name(),
            r.spec_last_response_id() == self.spec_last_response_id(),
            r.spec_ws_version() == self.spec_ws_version(),
            r.spec_ws_disabled() == self.spec_ws_disabled(),
    {
        let mut state = self.state.clone_state();
        state.fallback_config = Some(config);
        ModelClient { state }
    }

    /// Whether a fallback configuration is set.
    pub fn has_fallback(&self) -> (r: bool)
        ensures
            r == self.spec_has_fallback(),
    {
        self.state.fallback_config.is_some()
    }

    /// WebSocket transport is offered by the provider and has not been disabled.
    pub fn ws_available(&self) -> (r: bool)
        ensures
            r == (self.spec_ws_version() is Some && !self.spec_ws_disabled()),
    {
        self.state.ws_version.is_some() && !self.state.ws_disabled
    }

    /// Stops using WebSocket transport, e.g. after a connection failure.
    pub fn disable_ws(&mut self)
        ensures
            final(self).spec_ws_disabled(),
            final(self).spec_ws_version() == old(self).spec_ws_version(),
            final(self).spec_conversation_id() == old(self).spec_conversation_id(),
            final(self).spec_last_response_id() == old(self).spec_last_response_id(),
            final(self).spec_has_fallback() == old(self).spec_has_fallback(),
            final(self).spec_provider_name() == old(self).spec_provider_name(),
    {
        self.state.ws_disabled = true;
    }

    /// The models a request tries, in order: the fallback configuration's
    /// primary model and then its fallback models, or else the given model.
    pub closed spec fn spec_models_to_try(&self, model: Seq<char>) -> Seq<Seq<char>> {
        match self.state.fallback_config {
            Some(c) => seq![c.primary_model@] + crate::strmap::str_views(c.fallback_models@),
            None => seq![model],
        }
    }

    /// The models a request with `model` tries, in order.
    pub fn models_to_try(&self, model: &str) -> (r: Vec<String>)
        ensures
            crate::strmap::str_views(r@) == self.spec_models_to_try(model@),
            r@.len() >= 1,
    {
        match &self.state.fallback_config {
            Some(c) => {
                let mut out: Vec<String> = Vec::new();
                out.push(c.primary_model.clone());
                let mut i: usize = 0;
                while i < c.fallback_models.len()
                    invariant
                        i <= c.fallback_models@.len(),
                        crate::strmap::str_views(out@) == seq![c.primary_model@] + crate::strmap::str_views(
                            c.fallback_models@,
                        ).take(i as int),
                    decreases c.fallback_models@.len() - i,
                {
                    let ghost before = crate::strmap::str_views(out@);
                    out.push(c.fallback_models[i].clone());
                    assert(crate::strmap::str_views(out@) =~= before.push(c.fallback_models@[i as int]@));
                    assert(crate::strmap::str_views(c.fallback_models@).take(i + 1) =~= crate::strmap::str_views(
                        c.fallback_models@,
                    ).take(i as int).push(c.fallback_models@[i as int]@));
                    i = i + 1;
                }
                assert(crate::strmap::str_views(c.fallback_models@).take(i as int) =~= crate::strmap::str_views(
                    c.fallback_models@,
                ));
                out
            },
            None => {
                let mut out: Vec<String> = Vec::new();
                out.push(model.to_owned());
                assert(crate::strmap::str_views(out@) =~= seq![model@]);
                out
            },
        }
    }

    /// The transport a request starts with: WebSocket when available, else SSE.
    pub fn first_transport(&self) -> (r: StreamTransport)
        ensures
            r == (if self.spec_ws_version() is Some && !self.spec_ws_disabled() {
                StreamTransport::WebSocket
            } else {
                StreamTransport::Sse
            }),
    {
        if self.ws_available() {
            StreamTransport::WebSocket
        } else {
            StreamTransport::Sse
        }
    }

    /// After a WebSocket stream failed: WebSocket is disabled for the rest of
    /// the client's life and the request goes over SSE.
    pub fn after_ws_failure(&mut self) -> (r: StreamTransport)
        ensures
            r == StreamTransport::Sse,
            final(self).spec_ws_disabled(),
            final(self).spec_ws_version() == old(self).spec_ws_version(),
            final(self).spec_conversation_id() == old(self).spec_conversation_id(),
            final(self).spec_last_response_id() == old(self).spec_last_response_id(),
            final(self).spec_has_fallback() == old(self).spec_has_fallback(),
            final(self).spec_provider_name() == old(self).spec_provider_name(),
    {
        self.disable_ws();
        StreamTransport::Sse
    }

    /// A session for one turn with `model`, chained to the last stored response.
    pub fn new_session(&self, model: String) -> (r: ModelClientSession)
        ensures
            r.spec_model() == model@,
            r.spec_previous_response_id() == self.spec_last_response_id(),
    {
        ModelClientSession {
            model,
            conversation_id: self.state.conversation_id.clone(),
            previous_response_id: clone_opt_string(&self.state.last_response_id),
        }
    }

    /// Remembers the id of the last response, for the next session to chain to.
    pub fn store_response_id(&mut self, id: String)
        ensures
            final(self).spec_last_response_id() == Some(id),
            final(self).spec_ws_version() == old(self).spec_ws_version(),
            final(self).spec_ws_disabled() == old(self).spec_ws_disabled(),
            final(self).spec_conversation_id() == old(self).spec_conversation_id(),
            final(self).spec_has_fallback() == old(self).spec_has_fallback(),
            final(self).spec_provider_name() == old(self).spec_provider_name(),
    {
        self.state.last_response_id = Some(id);
    }

    /// The conversation id.
    pub fn conversation_id(&self) -> (r: &str)
        ensures
            r@ == self.spec_conversation_id(),
    {
        self.state.conversation_id.as_str()
    }

    /// The provider settings.
    pub fn provider(&self) -> (r: &Provider)
        ensures
            r.name@ == self.spec_provider_name(),
    {
        &self.state.provider
    }
}

/// The response id that a stream event makes the client remember: the id of a
/// completed response, when it has one.
pub fn completed_response_id(event: &Result<ResponseEvent, CodexError>) -> (r: Option<String>)
    ensures
        match event {
            Ok(ResponseEvent::Completed { response_id, .. }) => if response_id@.len() > 0 {
                r == Some(*response_id)
            } else {
                r is None
            },
            _ => r is None,
        },
{
    match event {
        Ok(ResponseEvent::Completed { response_id, .. }) => if response_id.as_str().is_empty() {
            None
        } else {
            Some(response_id.clone())
        },
        _ => None,
    }
}

/// Whether a WebSocket stream ends after this event: it does after a completed response.
pub fn ends_ws_stream(event: &Result<ResponseEvent, CodexError>) -> (r: bool)
    ensures
        r == (event matches Ok(ResponseEvent::Completed { .. })),
{
    match event {
        Ok(ResponseEvent::Completed { .. }) => true,
        _ => false,
    }
}

// ── Retries ──────────────────────────────────────────────────────

/// A failed attempt to start a response stream.
#[derive(Debug)]
pub enum RetryableError {
    /// Worth another attempt.
    Retryable(CodexError),
    /// Not worth another attempt.
    Fatal(CodexError),
}

/// The failure for an HTTP error status: `API returned <status>: <body>`,
/// retryable for statuses worth retrying.
pub fn status_failure(status: u16, status_text: &str, body: &str) -> (r: RetryableError)
    ensures
        match r {
            RetryableError::Retryable(e) => is_retryable_status_spec(status) && e.code == ErrorCode::InternalError
                && e.message@ == "API returned "@ + status_text@ + ": "@ + body@,
            RetryableError::Fatal(e) => !is_retryable_status_spec(status) && e.code
                == ErrorCode::InternalError && e.message@ == "API returned "@ + status_text@ + ": "@
                + body@,
        },
{
    let mut m = to_chars("API returned ");
    extend_str(&mut m, status_text);
    extend_str(&mut m, ": ");
    extend_str(&mut m, body);
    let e = CodexError::new(ErrorCode::InternalError, from_chars(m.as_slice()));
    if is_retryable_status(status) {
        RetryableError::Retryable(e)
    } else {
        RetryableError::Fatal(e)
    }
}

/// The failure for a request that got no response: retryable for connection
/// failures and timeouts (`transport error: ...`), fatal otherwise
/// (`HTTP request failed: ...`).
pub fn transport_failure(connect_or_timeout: bool, detail: &str) -> (r: RetryableError)
    ensures
        connect_or_timeout ==> (r matches RetryableError::Retryable(e) && e.code
            == ErrorCode::InternalError && e.message@ == "transport error: "@ + detail@),
        !connect_or_timeout ==> (r matches RetryableError::Fatal(e) && e.code
            == ErrorCode::InternalError && e.message@ == "HTTP request failed: "@ + detail@),
{
    let mut m = if connect_or_timeout {
        to_chars("transport error: ")
    } else {
        to_chars("HTTP request failed: ")
    };
    extend_str(&mut m, detail);
    let e = CodexError::new(ErrorCode::InternalError, from_chars(m.as_slice()));
    if connect_or_timeout {
        RetryableError::Retryable(e)
    } else {
        RetryableError::Fatal(e)
    }
}

/// What follows a failed attempt.
#[derive(Debug)]
pub enum RetryDecision {
    /// Wait, then make attempt number `next` (counted from 0).
    Retry { next: u32 },
    /// Give up with this error.
    GiveUp(CodexError),
}

/// After attempt `attempt` (counted from 0) of at most `max_attempts` (at least
/// one) failed: retry a retryable failure while attempts remain, else give up
/// with the failure's error.
pub fn after_failed_attempt(attempt: u32, max_attempts: u32, failure: RetryableError) -> (r: RetryDecision)
    ensures
        match failure {
            RetryableError::Fatal(e) => r == RetryDecision::GiveUp(e),
            RetryableError::Retryable(e) => if attempt + 1 < (if max_attempts == 0 { 1 } else { max_attempts as int }) {
                r == RetryDecision::Retry { next: (attempt + 1) as u32 }
            } else {
                r == RetryDecision::GiveUp(e)
            },
        },
{
    let max = if max_attempts == 0 { 1 } else { max_attempts };
    match failure {
        RetryableError::Fatal(e) => RetryDecision::GiveUp(e),
        RetryableError::Retryable(e) => if attempt < max - 1 {
            RetryDecision::Retry { next: attempt + 1 }
        } else {
            RetryDecision::GiveUp(e)
        },
    }
}

/// Whether a server-sent event's data is skipped: empty, or the `[DONE]` marker.
pub fn skips_event_data(data: &str) -> (r: bool)
    ensures
        r == (data@.len() == 0 || data@ == "[DONE]"@),
{
    data.is_empty() || str_eq(data, "[DONE]")
}

/// Whether an event kind ends the stream.
pub fn ends_stream(kind: &str) -> (r: bool)
    ensures
        r == (kind@ == "response.completed"@ || kind@ == "response.done"@),
{
    str_eq(kind, "response.completed") || str_eq(kind, "response.done")
}

/// The error when a stream stays silent for `idle_secs` seconds.
pub fn idle_timeout_error(idle_secs: u64) -> (r: CodexError)
    ensures
        r.code == ErrorCode::InternalError,
        r.message@ == "stream idle timeout after "@ + crate::text::decimal_spec(idle_secs as nat) + "s"@,
{
    let mut m = to_chars("stream idle timeout after ");
    let d = crate::text::decimal(idle_secs);
    crate::text::extend_chars(&mut m, d.as_slice());
    extend_str(&mut m, "s");
    CodexError::new(ErrorCode::InternalError, from_chars(m.as_slice()))
}

// ── Retry delays ─────────────────────────────────────────────────

/// A response with this HTTP status is worth retrying: too many requests (429)
/// or a server error (500 to 599).
pub open spec fn is_retryable_status_spec(status: u16) -> bool {
    status == 429 || (500 <= status && status <= 599)
}

/// Whether a response with this HTTP status is worth retrying.
pub fn is_retryable_status(status: u16) -> (r: bool)
    ensures
        r == is_retryable_status_spec(status),
{
    status == 429 || (500 <= status && status <= 599)
}

/// `2^n`.
pub open spec fn pow2(n: nat) -> nat
    decreases n,
{
    if n == 0 {
        1
    } else {
        2 * pow2((n - 1) as nat)
    }
}

/// The wait before retry `attempt`: the base doubled per attempt, plus jitter.
pub open spec fn backoff_ms(attempt: nat, base_ms: nat, jitter_ms: nat) -> nat {
    base_ms * pow2(attempt) + jitter_ms
}

/// The wait before retry `attempt`, in milliseconds, for a given jitter.
pub fn backoff_delay_with_jitter(attempt: u32, base_ms: u64, jitter_ms: u64) -> (r: u64)
    requires
        backoff_ms(attempt as nat, base_ms as nat, jitter_ms as nat) <= u64::MAX,
    ensures
        r == backoff_ms(attempt as nat, base_ms as nat, jitter_ms as nat),
{
    let mut d: u64 = base_ms;
    let mut i: u32 = 0;
    proof {
        lemma_pow2_mono(0, attempt as nat);
        assert(pow2(0) == 1);
        assert(base_ms * pow2(0) == base_ms);
    }
    while i < attempt
        invariant
            i <= attempt,
            d == base_ms * pow2(i as nat),
            base_ms * pow2(attempt as nat) + jitter_ms <= u64::MAX,
        decreases attempt - i,
    {
        proof {
            lemma_pow2_mono((i + 1) as nat, attempt as nat);
            assert(base_ms * pow2((i + 1) as nat) == 2 * (base_ms * pow2(i as nat))) by (nonlinear_arith);
            assert(base_ms * pow2((i + 1) as nat) <= base_ms * pow2(attempt as nat)) by (nonlinear_arith)
                requires
                    pow2((i + 1) as nat) <= pow2(attempt as nat),
            ;
        }
        d = d * 2;
        i = i + 1;
    }
    d + jitter_ms
}

/// With a base of at least 100 ms, the wait grows with every attempt whatever
/// jitter (0 to 99 ms) either attempt gets.
pub proof fn law_backoff_grows(attempt: nat, base_ms: nat, jitter_before: nat, jitter_after: nat)
    requires
        base_ms >= 100,
        jitter_before < 100,
        jitter_after < 100,
    ensures
        backoff_ms(attempt + 1, base_ms, jitter_after) > backoff_ms(attempt, base_ms, jitter_before),
{
    lemma_pow2_mono(0, attempt);
    let p = pow2(attempt);
    assert(pow2(attempt + 1) == 2 * p);
    assert(base_ms * (2 * p) == base_ms * p + base_ms * p) by (nonlinear_arith);
    assert(base_ms * p >= base_ms) by (nonlinear_arith)
        requires
            p >= 1,
            base_ms >= 100,
    ;
}

proof fn lemma_pow2_mono(a: nat, b: nat)
    requires
        a <= b,
    ensures
        1 <= pow2(a) <= pow2(b),
    decreases b,
{
    if b > a {
        lemma_pow2_mono(a, (b - 1) as nat);
    } else if a > 0 {
        lemma_pow2_mono((a - 1) as nat, (a - 1) as nat);
    }
}

/// The sub-second nanoseconds of the current time (`SystemTime::now()` since the
/// Unix epoch; zero if the clock is before it).
#[verifier::external_body]
fn subsec_nanos_now() -> (r: u32)
    ensures
        r < 1_000_000_000,
{
    std::time::SystemTime::now().duration_since(std::time::UNIX_EPOCH).unwrap_or_default().subsec_nanos()
}

/// A jitter of 0 to 99 milliseconds taken from the clock.
pub fn rand_jitter_ms() -> (r: u64)
    ensures
        r < 100,
{
    let t = subsec_nanos_now();
    (t % 100) as u64
}

/// The wait before retry `attempt`: the base doubled per attempt plus 0 to 99 ms of jitter.
pub fn backoff_delay(attempt: u32, base_ms: u64) -> (r: u64)
    requires
        backoff_ms(attempt as nat, base_ms as nat, 99) <= u64::MAX,
    ensures
        exists|j: nat| j < 100 && r == backoff_ms(attempt as nat, base_ms as nat, j),
{
    let jitter = rand_jitter_ms();
    backoff_delay_with_jitter(attempt, base_ms, jitter)
}

} // verus!
