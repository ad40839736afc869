use mosaic_core::auth::storage::{AuthDotJson, AuthStorageBackend, FileAuthStorage, MemoryAuthStorage};
use mosaic_core::auth::{
    auth_from_env_key, auth_from_stored, bearer_token_of, refresh_failure, refresh_token_to_send,
    refresh_token_step, refreshed_auth, unauthorized_recovery, ApiKeyAuth, AuthMode, ChatgptAuth,
    CodexAuth, RefreshReply, RefreshTokenError, UnauthorizedRecovery,
};
use mosaic_core::protocol::ErrorCode;

#[test]
fn memory_storage_crud() {
    let mut storage = MemoryAuthStorage::new();
    assert!(storage.load().unwrap().is_none());

    let auth = AuthDotJson {
        auth_mode: Some(AuthMode::ApiKey),
        openai_api_key: Some("sk-mem".into()),
        access_token: None,
        refresh_token: None,
    };
    storage.save(&auth).unwrap();
    assert_eq!(storage.load().unwrap(), Some(auth));

    assert!(storage.delete().unwrap());
    assert!(storage.load().unwrap().is_none());
    assert!(!storage.delete().unwrap());
}

#[test]
fn file_storage_path_is_auth_json_in_home() {
    let storage = FileAuthStorage::new("/home/user/.codex".to_string());
    assert_eq!(storage.auth_file(), "/home/user/.codex/auth.json");
}

#[test]
fn api_key_from_env() {
    let auth = auth_from_env_key("  sk-test-key-123 \n").unwrap();
    assert_eq!(auth.bearer_token(), "sk-test-key-123");
    assert!(auth_from_env_key("   ").is_none());
}

#[test]
fn auth_from_storage() {
    let stored = AuthDotJson {
        auth_mode: Some(AuthMode::ApiKey),
        openai_api_key: Some("sk-stored".into()),
        access_token: None,
        refresh_token: None,
    };
    let auth = auth_from_stored(&stored).unwrap();
    assert_eq!(bearer_token_of(&Some(auth)).unwrap(), "sk-stored");
}

#[test]
fn chatgpt_auth_from_storage() {
    let stored = AuthDotJson {
        auth_mode: Some(AuthMode::Chatgpt),
        openai_api_key: None,
        access_token: Some("chatgpt-token".into()),
        refresh_token: Some("refresh-token".into()),
    };
    let auth = auth_from_stored(&stored).unwrap();
    assert_eq!(auth.auth_mode(), AuthMode::Chatgpt);
    assert_eq!(auth.bearer_token(), "chatgpt-token");
}

#[test]
fn stored_without_credentials_is_an_error() {
    let stored = AuthDotJson {
        auth_mode: None,
        openai_api_key: None,
        access_token: None,
        refresh_token: None,
    };
    let err = auth_from_stored(&stored).unwrap_err();
    assert_eq!(err.code, ErrorCode::ConfigurationError);
    assert_eq!(err.message, "auth.json has no API key or access token");
}

#[test]
fn unauthorized_recovery_for_chatgpt() {
    let auth = Some(CodexAuth::Chatgpt(ChatgptAuth {
        access_token: "tok".into(),
        refresh_token: Some("ref".into()),
        account_id: None,
    }));
    assert_eq!(unauthorized_recovery(&auth), UnauthorizedRecovery::RefreshAndRetry);
}

#[test]
fn unauthorized_recovery_for_api_key() {
    let auth = Some(CodexAuth::ApiKey(ApiKeyAuth { api_key: "sk-x".into() }));
    assert_eq!(unauthorized_recovery(&auth), UnauthorizedRecovery::Fail);
}

#[test]
fn no_auth_returns_error() {
    let err = bearer_token_of(&None).unwrap_err();
    assert_eq!(err.message, "no authentication configured");
    assert_eq!(unauthorized_recovery(&None), UnauthorizedRecovery::Fail);
}

#[test]
fn refresh_token_errors() {
    let api = Some(CodexAuth::ApiKey(ApiKeyAuth { api_key: "k".into() }));
    match refresh_token_to_send(&api) {
        Err(RefreshTokenError::Permanent(m)) => {
            assert_eq!(m, "API key auth does not support token refresh")
        },
        other => panic!("unexpected {:?}", other),
    }
    match refresh_token_to_send(&None) {
        Err(e) => assert_eq!(e.to_message(), "permanent auth error: no auth configured"),
        Ok(_) => panic!("expected an error"),
    }
}

#[test]
fn refresh_failure_is_permanent_for_rejections() {
    let e = refresh_failure(401, "401 Unauthorized", "bad token");
    assert_eq!(e.to_message(), "permanent auth error: refresh token rejected (401 Unauthorized): bad token");
    let e = refresh_failure(503, "503 Service Unavailable", "later");
    assert_eq!(e.to_message(), "transient auth error: refresh failed (503 Service Unavailable): later");
}

#[test]
fn refreshed_auth_keeps_old_refresh_token() {
    let old = ChatgptAuth {
        access_token: "old".into(),
        refresh_token: Some("r1".into()),
        account_id: Some("acct".into()),
    };
    let (auth, stored) = refreshed_auth(&old, "new".into(), None);
    match auth {
        CodexAuth::Chatgpt(c) => {
            assert_eq!(c.access_token, "new");
            assert_eq!(c.refresh_token, Some("r1".to_string()));
            assert_eq!(c.account_id, Some("acct".to_string()));
        },
        CodexAuth::ApiKey(_) => panic!("expected ChatGPT auth"),
    }
    assert_eq!(stored.access_token, Some("new".to_string()));
    assert_eq!(stored.auth_mode, Some(AuthMode::Chatgpt));
}

fn chatgpt(refresh: Option<&str>) -> Option<CodexAuth> {
    Some(CodexAuth::Chatgpt(ChatgptAuth {
        access_token: "at-old".into(),
        refresh_token: refresh.map(|r| r.to_string()),
        account_id: Some("acct".into()),
    }))
}

fn access_of(auth: &Option<CodexAuth>) -> String {
    match auth {
        Some(CodexAuth::Chatgpt(c)) => c.access_token.clone(),
        _ => panic!("expected chatgpt auth"),
    }
}

#[test]
fn refresh_step_without_refresh_token_is_permanent_and_ignores_reply() {
    let mut auth = chatgpt(None);
    let reply = RefreshReply::Granted { access_token: "at-new".into(), refresh_token: None };
    match refresh_token_step(&mut auth, reply) {
        Err(RefreshTokenError::Permanent(m)) => assert_eq!(m, "no refresh token"),
        other => panic!("unexpected {other:?}"),
    }
    assert_eq!(access_of(&auth), "at-old");

    let mut none: Option<CodexAuth> = None;
    let reply = RefreshReply::Granted { access_token: "at-new".into(), refresh_token: None };
    match refresh_token_step(&mut none, reply) {
        Err(RefreshTokenError::Permanent(m)) => assert_eq!(m, "no auth configured"),
        other => panic!("unexpected {other:?}"),
    }
    assert!(none.is_none());
}

#[test]
fn refresh_step_transport_and_parse_failures_are_transient() {
    let mut auth = chatgpt(Some("rt"));
    match refresh_token_step(&mut auth, RefreshReply::TransportFailed("timed out".into())) {
        Err(RefreshTokenError::Transient(m)) => assert_eq!(m, "HTTP error: timed out"),
        other => panic!("unexpected {other:?}"),
    }
    match refresh_token_step(&mut auth, RefreshReply::Unparsable("bad json".into())) {
        Err(RefreshTokenError::Transient(m)) => assert_eq!(m, "parse error: bad json"),
        other => panic!("unexpected {other:?}"),
    }
    assert_eq!(access_of(&auth), "at-old");
}

#[test]
fn refresh_step_refusals_keep_the_auth() {
    let mut auth = chatgpt(Some("rt"));
    let refused = RefreshReply::Refused {
        status: 401,
        status_text: "401 Unauthorized".into(),
        body: "expired".into(),
    };
    match refresh_token_step(&mut auth, refused) {
        Err(RefreshTokenError::Permanent(m)) => {
            assert_eq!(m, "refresh token rejected (401 Unauthorized): expired")
        }
        other => panic!("unexpected {other:?}"),
    }
    let busy = RefreshReply::Refused { status: 503, status_text: "503".into(), body: "busy".into() };
    match refresh_token_step(&mut auth, busy) {
        Err(RefreshTokenError::Transient(m)) => assert_eq!(m, "refresh failed (503): busy"),
        other => panic!("unexpected {other:?}"),
    }
    assert_eq!(access_of(&auth), "at-old");
}

#[test]
fn refresh_step_success_replaces_auth_and_keeps_old_refresh_token() {
    let mut auth = chatgpt(Some("rt-old"));
    let reply = RefreshReply::Granted { access_token: "at-new".into(), refresh_token: None };
    let stored = refresh_token_step(&mut auth, reply).unwrap();
    assert_eq!(stored.auth_mode, Some(AuthMode::Chatgpt));
    assert_eq!(stored.access_token.as_deref(), Some("at-new"));
    assert_eq!(stored.refresh_token.as_deref(), Some("rt-old"));
    assert!(stored.openai_api_key.is_none());
    match &auth {
        Some(CodexAuth::Chatgpt(c)) => {
            assert_eq!(c.access_token, "at-new");
            assert_eq!(c.refresh_token.as_deref(), Some("rt-old"));
            assert_eq!(c.account_id.as_deref(), Some("acct"));
        }
        other => panic!("unexpected {other:?}"),
    }

    let reply = RefreshReply::Granted { access_token: "at-3".into(), refresh_token: Some("rt-new".into()) };
    let stored = refresh_token_step(&mut auth, reply).unwrap();
    assert_eq!(stored.refresh_token.as_deref(), Some("rt-new"));
}
