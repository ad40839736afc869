use mosaic_core::client::{
    after_model_failure, FallbackStep, StreamTransport,
    backoff_delay, backoff_delay_with_jitter, is_fallback_eligible, is_retryable_status,
    rand_jitter_ms, ws_version_from_provider, ModelClient, ModelFallbackConfig, ModelProviderInfo,
    ResponsesWebsocketVersion,
};
use mosaic_core::protocol::{CodexError, ErrorCode};

#[test]
fn backoff_delay_increases_exponentially() {
    let base = 100;
    let d0 = backoff_delay(0, base);
    let d1 = backoff_delay(1, base);
    let d2 = backoff_delay(2, base);
    assert!(d1 > d0);
    assert!(d2 > d1);
    assert!((100..200).contains(&d0));
    assert!((200..300).contains(&d1));
    assert!((400..500).contains(&d2));
}

#[test]
fn backoff_with_fixed_jitter_is_exact() {
    assert_eq!(backoff_delay_with_jitter(0, 100, 0), 100);
    assert_eq!(backoff_delay_with_jitter(3, 100, 7), 807);
    assert_eq!(backoff_delay_with_jitter(10, 1, 0), 1024);
}

#[test]
fn jitter_stays_below_one_hundred() {
    for _ in 0..20 {
        assert!(rand_jitter_ms() < 100);
    }
}

#[test]
fn is_retryable_status_checks_correctly() {
    assert!(is_retryable_status(429));
    assert!(is_retryable_status(500));
    assert!(is_retryable_status(502));
    assert!(!is_retryable_status(400));
    assert!(!is_retryable_status(401));
    assert!(!is_retryable_status(404));
    assert!(!is_retryable_status(600));
}

#[test]
fn model_client_stores_and_retrieves_response_id() {
    let info = ModelProviderInfo::create_oss("http://localhost:8080/v1");
    let mut client = ModelClient::from_provider_info(&info, "test-key".into(), "conv-1".into());
    assert_eq!(client.conversation_id(), "conv-1");

    client.store_response_id("resp-123".into());
    let session = client.new_session("gpt-test".into());
    assert_eq!(session.previous_response_id().as_deref(), Some("resp-123"));
    assert_eq!(session.model(), "gpt-test");
}

#[test]
fn ws_version_from_provider_returns_v1_when_supported() {
    let mut info = ModelProviderInfo::create_openai();
    info.supports_websockets = true;
    assert_eq!(ws_version_from_provider(&info), Some(ResponsesWebsocketVersion::V1));
}

#[test]
fn ws_version_from_provider_returns_none_when_not_supported() {
    let info = ModelProviderInfo::create_oss("http://localhost:8080/v1");
    assert_eq!(ws_version_from_provider(&info), None);
}

#[test]
fn ws_available_respects_provider_and_disable() {
    let mut info = ModelProviderInfo::create_openai();
    info.supports_websockets = true;
    let mut client = ModelClient::from_provider_info(&info, "key".into(), "conv".into());
    assert!(client.ws_available());

    client.disable_ws();
    assert!(!client.ws_available());
}

#[test]
fn ws_not_available_for_oss_provider() {
    let info = ModelProviderInfo::create_oss("http://localhost:8080/v1");
    let client = ModelClient::from_provider_info(&info, "key".into(), "conv".into());
    assert!(!client.ws_available());
}

#[test]
fn is_fallback_eligible_detects_model_not_found() {
    let err = CodexError::new(ErrorCode::InternalError, "model_not_found".into());
    assert!(is_fallback_eligible(&err));
}

#[test]
fn is_fallback_eligible_detects_capacity() {
    let err = CodexError::new(ErrorCode::InternalError, "server overloaded".into());
    assert!(is_fallback_eligible(&err));
}

#[test]
fn is_fallback_eligible_detects_rate_limit() {
    let err = CodexError::new(ErrorCode::InternalError, "429 rate limit exceeded".into());
    assert!(is_fallback_eligible(&err));
}

#[test]
fn is_fallback_eligible_rejects_auth_error() {
    let err = CodexError::new(ErrorCode::InternalError, "unauthorized".into());
    assert!(!is_fallback_eligible(&err));
}

#[test]
fn is_fallback_eligible_ignores_case() {
    let err = CodexError::new(ErrorCode::InternalError, "Model Not Found".into());
    assert!(is_fallback_eligible(&err));
    let err = CodexError::new(ErrorCode::InternalError, "429 Too Many".into());
    assert!(!is_fallback_eligible(&err));
}

#[test]
fn model_fallback_config_creation() {
    let config = ModelFallbackConfig {
        primary_model: "gpt-4o".into(),
        fallback_models: vec!["gpt-4o-mini".into(), "gpt-3.5-turbo".into()],
    };
    assert_eq!(config.primary_model, "gpt-4o");
    assert_eq!(config.fallback_models.len(), 2);
    let info = ModelProviderInfo::create_openai();
    let client = ModelClient::from_provider_info(&info, "k".into(), "c".into()).with_fallback(config);
    assert_eq!(client.conversation_id(), "c");
}

#[test]
fn provider_settings_come_from_info() {
    let info = ModelProviderInfo::create_oss("http://localhost:8080/v1");
    let client = ModelClient::from_provider_info(&info, "k".into(), "c".into());
    assert_eq!(client.provider().base_url, "http://localhost:8080/v1");
}

// ── stream events ───────────────────────────────────────────────

use mosaic_core::client::{
    after_failed_attempt, completed_response_id, ends_stream, ends_ws_stream, idle_timeout_error,
    parse_token_usage, parse_ws_event, skips_event_data, status_failure, transport_failure,
    ResponseEvent, RetryDecision, RetryableError, UsageFields, WsEventFields,
};

#[test]
fn parse_token_usage_extracts_fields() {
    let usage = UsageFields {
        input_tokens: Some(100),
        output_tokens: Some(50),
        total_tokens: Some(150),
        cached_tokens: Some(30),
        reasoning_tokens: Some(10),
    };
    let parsed = parse_token_usage(&usage);
    assert_eq!(parsed.input_tokens, 100);
    assert_eq!(parsed.output_tokens, 50);
    assert_eq!(parsed.total_tokens, 150);
    assert_eq!(parsed.cached_input_tokens, 30);
    assert_eq!(parsed.reasoning_output_tokens, 10);
}

#[test]
fn parse_token_usage_handles_missing_fields() {
    let parsed = parse_token_usage(&UsageFields::default());
    assert_eq!(parsed.input_tokens, 0);
    assert_eq!(parsed.total_tokens, 0);
}

#[test]
fn parse_ws_event_output_text_delta() {
    let fields = WsEventFields { delta: Some("hello".into()), ..Default::default() };
    match parse_ws_event("response.output_text.delta", fields).unwrap().unwrap() {
        ResponseEvent::OutputTextDelta { delta } => assert_eq!(delta, "hello"),
        _ => panic!("expected OutputTextDelta"),
    }
}

#[test]
fn parse_ws_event_completed() {
    let fields = WsEventFields {
        has_response: true,
        response_id: Some("resp-1".into()),
        usage: Some(UsageFields {
            input_tokens: Some(10),
            output_tokens: Some(5),
            total_tokens: Some(15),
            ..Default::default()
        }),
        ..Default::default()
    };
    match parse_ws_event("response.completed", fields).unwrap().unwrap() {
        ResponseEvent::Completed { response_id, token_usage, can_append } => {
            assert_eq!(response_id, "resp-1");
            assert_eq!(token_usage.unwrap().total_tokens, 15);
            assert!(!can_append);
        },
        _ => panic!("expected Completed"),
    }
    match parse_ws_event("response.done", WsEventFields::default()).unwrap().unwrap() {
        ResponseEvent::Completed { can_append, response_id, token_usage } => {
            assert!(can_append);
            assert_eq!(response_id, "");
            assert!(token_usage.is_none());
        },
        _ => panic!("expected Completed"),
    }
}

#[test]
fn parse_ws_event_error() {
    let fields = WsEventFields { error_message: Some("bad request".into()), ..Default::default() };
    let ev = parse_ws_event("error", fields).unwrap();
    assert!(ev.is_err());
    assert!(ev.unwrap_err().message.contains("bad request"));
    let ev = parse_ws_event("error", WsEventFields::default()).unwrap();
    assert_eq!(ev.unwrap_err().message, "WebSocket error");
}

#[test]
fn parse_ws_event_unknown_returns_none() {
    assert!(parse_ws_event("unknown.event", WsEventFields::default()).is_none());
}

#[test]
fn parse_ws_event_function_call_defaults() {
    let fields = WsEventFields {
        item_type: Some("function_call".into()),
        item_name: Some("shell".into()),
        ..Default::default()
    };
    match parse_ws_event("response.output_item.done", fields).unwrap().unwrap() {
        ResponseEvent::FunctionCall { call_id, name, arguments } => {
            assert_eq!(call_id, "");
            assert_eq!(name, "shell");
            assert_eq!(arguments, "{}");
        },
        _ => panic!("expected FunctionCall"),
    }
    assert!(parse_ws_event("response.output_item.done", WsEventFields::default()).is_none());
    assert!(parse_ws_event("response.reasoning_summary_part.added", WsEventFields::default()).is_none());
    let e = parse_ws_event("response.incomplete", WsEventFields::default()).unwrap().unwrap_err();
    assert_eq!(e.message, "Incomplete response, reason: unknown");
    match parse_ws_event("response.failed", WsEventFields::default()).unwrap().unwrap() {
        ResponseEvent::Failed { code, message } => {
            assert_eq!(code, "unknown");
            assert_eq!(message, "unknown error");
        },
        _ => panic!("expected Failed"),
    }
}

#[test]
fn completed_events_store_their_id() {
    let done: Result<ResponseEvent, CodexError> =
        Ok(ResponseEvent::Completed { response_id: "r1".into(), token_usage: None, can_append: false });
    assert_eq!(completed_response_id(&done), Some("r1".to_string()));
    assert!(ends_ws_stream(&done));
    let empty: Result<ResponseEvent, CodexError> =
        Ok(ResponseEvent::Completed { response_id: "".into(), token_usage: None, can_append: false });
    assert_eq!(completed_response_id(&empty), None);
    let delta: Result<ResponseEvent, CodexError> = Ok(ResponseEvent::OutputTextDelta { delta: "x".into() });
    assert!(!ends_ws_stream(&delta));
}

#[test]
fn retry_decisions() {
    match status_failure(503, "503 Service Unavailable", "busy") {
        RetryableError::Retryable(e) => assert_eq!(e.message, "API returned 503 Service Unavailable: busy"),
        RetryableError::Fatal(_) => panic!("503 is retryable"),
    }
    assert!(matches!(status_failure(400, "400 Bad Request", ""), RetryableError::Fatal(_)));
    match transport_failure(true, "refused") {
        RetryableError::Retryable(e) => assert_eq!(e.message, "transport error: refused"),
        RetryableError::Fatal(_) => panic!("connection failures are retryable"),
    }
    assert!(matches!(transport_failure(false, "x"), RetryableError::Fatal(e) if e.message == "HTTP request failed: x"));
    let err = || CodexError::new(ErrorCode::InternalError, "e".into());
    assert!(matches!(after_failed_attempt(0, 4, RetryableError::Retryable(err())), RetryDecision::Retry { next: 1 }));
    assert!(matches!(after_failed_attempt(3, 4, RetryableError::Retryable(err())), RetryDecision::GiveUp(_)));
    assert!(matches!(after_failed_attempt(0, 0, RetryableError::Retryable(err())), RetryDecision::GiveUp(_)));
    assert!(matches!(after_failed_attempt(0, 4, RetryableError::Fatal(err())), RetryDecision::GiveUp(_)));
    assert!(skips_event_data(""));
    assert!(skips_event_data("[DONE]"));
    assert!(!skips_event_data("{}"));
    assert!(ends_stream("response.done"));
    assert!(!ends_stream("response.created"));
    assert_eq!(idle_timeout_error(300).message, "stream idle timeout after 300s");
}

#[test]
fn fallback_moves_to_next_model_on_eligible_error() {
    let err = CodexError::new(ErrorCode::InternalError, "Model Not Found".into());
    assert!(matches!(after_model_failure(true, 0, 3, err), FallbackStep::TryModel(1)));
}

#[test]
fn fallback_exhausted_returns_last_error() {
    let err = CodexError::new(ErrorCode::InternalError, "server overloaded".into());
    match after_model_failure(true, 2, 3, err) {
        FallbackStep::Fail(e) => assert_eq!(e.message, "server overloaded"),
        other => panic!("unexpected {other:?}"),
    }
}

#[test]
fn fallback_stops_on_ineligible_error_or_without_config() {
    let err = CodexError::new(ErrorCode::InvalidInput, "bad request".into());
    match after_model_failure(true, 0, 3, err) {
        FallbackStep::Fail(e) => assert_eq!(e.message, "bad request"),
        other => panic!("unexpected {other:?}"),
    }
    let err = CodexError::new(ErrorCode::InternalError, "capacity".into());
    assert!(matches!(after_model_failure(false, 0, 3, err), FallbackStep::Fail(_)));
}

#[test]
fn models_to_try_lists_primary_then_fallbacks() {
    let info = ModelProviderInfo::create_openai();
    let plain = ModelClient::from_provider_info(&info, "k".into(), "c".into());
    assert_eq!(plain.models_to_try("gpt-x"), vec!["gpt-x".to_string()]);
    let config = ModelFallbackConfig {
        primary_model: "gpt-4o".into(),
        fallback_models: vec!["gpt-4o-mini".into(), "gpt-3.5-turbo".into()],
    };
    let client = plain.with_fallback(config);
    assert_eq!(
        client.models_to_try("ignored"),
        vec!["gpt-4o".to_string(), "gpt-4o-mini".to_string(), "gpt-3.5-turbo".to_string()]
    );
}

#[test]
fn websocket_failure_falls_back_to_sse_and_disables_websocket() {
    let mut info = ModelProviderInfo::create_openai();
    info.supports_websockets = true;
    let mut client = ModelClient::from_provider_info(&info, "k".into(), "c".into());
    assert_eq!(client.first_transport(), StreamTransport::WebSocket);
    assert_eq!(client.after_ws_failure(), StreamTransport::Sse);
    assert!(!client.ws_available());
    assert_eq!(client.first_transport(), StreamTransport::Sse);

    let plain = ModelClient::from_provider_info(&ModelProviderInfo::create_openai(), "k".into(), "c".into());
    assert_eq!(plain.first_transport(), StreamTransport::Sse);
}
