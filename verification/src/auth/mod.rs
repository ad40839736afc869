//! Authentication: the kinds of credentials, how stored ones are read, and the
//! decisions of the session's credential manager.
use vstd::prelude::*;

use crate::protocol::{CodexError, ErrorCode};
use crate::text::{clone_opt_string, decimal, decimal_spec, extend_chars, extend_str, from_chars, to_chars, trim_str, trim_spec};
use storage::AuthDotJson;

pub mod storage;

verus! {

/// Account type of the current user.
#[derive(Debug, Clone, Copy, PartialEq, Eq, Structural)]
pub enum AuthMode {
    ApiKey,
    Chatgpt,
}

/// An API key.
#[derive(Debug, Clone)]
pub struct ApiKeyAuth {
    pub api_key: String,
}

/// ChatGPT sign-in tokens.
#[derive(Debug, Clone)]
pub struct ChatgptAuth {
    pub access_token: String,
    pub refresh_token: Option<String>,
    pub account_id: Option<String>,
}

/// How the current user authenticates.
#[derive(Debug, Clone)]
pub enum CodexAuth {
    ApiKey(ApiKeyAuth),
    Chatgpt(ChatgptAuth),
}

/// The account type of an authentication.
pub open spec fn auth_mode_of(a: CodexAuth) -> AuthMode {
    match a {
        CodexAuth::ApiKey(_) => AuthMode::ApiKey,
        CodexAuth::Chatgpt(_) => AuthMode::Chatgpt,
    }
}

/// The token sent with API requests: the key, or the access token.
pub open spec fn bearer_of(a: CodexAuth) -> String {
    match a {
        CodexAuth::ApiKey(k) => k.api_key,
        CodexAuth::Chatgpt(c) => c.access_token,
    }
}

impl CodexAuth {
    /// The account type.
    pub fn auth_mode(&self) -> (r: AuthMode)
        ensures
            r == auth_mode_of(*self),
    {
        match self {
            CodexAuth::ApiKey(_) => AuthMode::ApiKey,
            CodexAuth::Chatgpt(_) => AuthMode::Chatgpt,
        }
    }

    /// The bearer token for API requests.
    pub fn bearer_token(&self) -> (r: &str)
        ensures
            r@ == bearer_of(*self)@,
    {
        match self {
            CodexAuth::ApiKey(a) => a.api_key.as_str(),
            CodexAuth::Chatgpt(c) => c.access_token.as_str(),
        }
    }
}

/// A failed token refresh.
#[derive(Debug, Clone)]
pub enum RefreshTokenError {
    /// The user must sign in again.
    Permanent(String),
    /// A retry may succeed.
    Transient(String),
}

/// How a refresh error reads.
pub open spec fn refresh_error_text(e: RefreshTokenError) -> Seq<char> {
    match e {
        RefreshTokenError::Permanent(m) => "permanent auth error: "@ + m@,
        RefreshTokenError::Transient(m) => "transient auth error: "@ + m@,
    }
}

impl RefreshTokenError {
    /// How the error reads.
    pub fn to_message(&self) -> (r: String)
        ensures
            r@ == refresh_error_text(*self),
    {
        let (mut out, m) = match self {
            RefreshTokenError::Permanent(m) => (to_chars("permanent auth error: "), m),
            RefreshTokenError::Transient(m) => (to_chars("transient auth error: "), m),
        };
        extend_str(&mut out, m.as_str());
        from_chars(out.as_slice())
    }
}

/// What to do after a `401 Unauthorized` response.
#[derive(Debug, Clone, Copy, PartialEq, Eq, Structural)]
pub enum UnauthorizedRecovery {
    /// Refresh the token and retry.
    RefreshAndRetry,
    /// Report the error.
    Fail,
}

/// The authentication that stored credentials give: ChatGPT tokens when there
/// is an access token and the mode is ChatGPT or unset; otherwise the API key.
pub open spec fn stored_auth(json: AuthDotJson, r: Result<CodexAuth, CodexError>) -> bool {
    if (json.auth_mode is None || json.auth_mode == Some(AuthMode::Chatgpt)) && json.access_token is Some {
        r matches Ok(CodexAuth::Chatgpt(c)) && Some(c.access_token) == json.access_token
            && c.refresh_token == json.refresh_token && c.account_id is None
    } else {
        match json.openai_api_key {
            Some(k) => r matches Ok(CodexAuth::ApiKey(a)) && a.api_key == k,
            None => r matches Err(e) && e.code == ErrorCode::ConfigurationError && e.message@
                == "auth.json has no API key or access token"@,
        }
    }
}

/// Credentials loaded as ChatGPT authentication carry the stored tokens
/// unchanged: the access token, and the stored refresh token, so that with a
/// stored refresh token the loaded authentication can be refreshed.
pub proof fn law_loaded_chatgpt_keeps_refresh_token(json: AuthDotJson, r: Result<CodexAuth, CodexError>)
    requires
        stored_auth(json, r),
    ensures
        r matches Ok(CodexAuth::Chatgpt(c)) ==> Some(c.access_token) == json.access_token
            && c.refresh_token == json.refresh_token,
        (!(json.auth_mode matches Some(AuthMode::ApiKey)) && json.access_token is Some) ==> (r matches Ok(
            CodexAuth::Chatgpt(c),
        ) && c.refresh_token == json.refresh_token),
        (!(json.auth_mode matches Some(AuthMode::ApiKey)) && json.access_token is Some && json.refresh_token is Some)
            ==> (r matches Ok(a) && can_refresh(Some(a))),
{
}

/// The authentication that stored credentials give.
pub fn auth_from_stored(json: &AuthDotJson) -> (r: Result<CodexAuth, CodexError>)
    ensures
        stored_auth(*json, r),
{
    let chatgpt_mode = match json.auth_mode {
        Some(AuthMode::Chatgpt) => true,
        None => true,
        Some(AuthMode::ApiKey) => false,
    };
    if chatgpt_mode {
        if let Some(token) = &json.access_token {
            return Ok(
                CodexAuth::Chatgpt(
                    ChatgptAuth {
                        access_token: token.clone(),
                        refresh_token: clone_opt_string(&json.refresh_token),
                        account_id: None,
                    },
                ),
            );
        }
    }
    match &json.openai_api_key {
        Some(key) => Ok(CodexAuth::ApiKey(ApiKeyAuth { api_key: key.clone() })),
        None => Err(
            CodexError::new(
                ErrorCode::ConfigurationError,
                "auth.json has no API key or access token".to_owned(),
            ),
        ),
    }
}

/// The authentication an `OPENAI_API_KEY` value gives: the trimmed key, unless blank.
pub fn auth_from_env_key(value: &str) -> (r: Option<CodexAuth>)
    ensures
        trim_spec(value@).len() == 0 ==> r is None,
        trim_spec(value@).len() > 0 ==> (r matches Some(CodexAuth::ApiKey(a)) && a.api_key@ == trim_spec(
            value@,
        )),
{
    let t = trim_str(value);
    if t.len() == 0 {
        None
    } else {
        Some(CodexAuth::ApiKey(ApiKeyAuth { api_key: from_chars(t.as_slice()) }))
    }
}

/// The bearer token of the current authentication, or the error for having none.
pub fn bearer_token_of(auth: &Option<CodexAuth>) -> (r: Result<String, CodexError>)
    ensures
        match auth {
            Some(a) => r matches Ok(t) && t@ == bearer_of(*a)@,
            None => r matches Err(e) && e.code == ErrorCode::ConfigurationError && e.message@
                == "no authentication configured"@,
        },
{
    match auth {
        Some(a) => Ok(a.bearer_token().to_owned()),
        None => Err(
            CodexError::new(ErrorCode::ConfigurationError, "no authentication configured".to_owned()),
        ),
    }
}

/// After a `401`: refresh and retry when signed in to ChatGPT with a refresh
/// token, else fail.
pub fn unauthorized_recovery(auth: &Option<CodexAuth>) -> (r: UnauthorizedRecovery)
    ensures
        r == if (auth matches Some(CodexAuth::Chatgpt(c)) && c.refresh_token is Some) {
            UnauthorizedRecovery::RefreshAndRetry
        } else {
            UnauthorizedRecovery::Fail
        },
{
    match auth {
        Some(CodexAuth::Chatgpt(c)) => if c.refresh_token.is_some() {
            UnauthorizedRecovery::RefreshAndRetry
        } else {
            UnauthorizedRecovery::Fail
        },
        _ => UnauthorizedRecovery::Fail,
    }
}

/// The refresh token to send, or why no refresh is possible.
pub fn refresh_token_to_send(auth: &Option<CodexAuth>) -> (r: Result<String, RefreshTokenError>)
    ensures
        match auth {
            None => r matches Err(RefreshTokenError::Permanent(m)) && m@ == "no auth configured"@,
            Some(CodexAuth::ApiKey(_)) => r matches Err(RefreshTokenError::Permanent(m)) && m@
                == "API key auth does not support token refresh"@,
            Some(CodexAuth::Chatgpt(c)) => match c.refresh_token {
                Some(t) => r == Ok::<String, RefreshTokenError>(t),
                None => r matches Err(RefreshTokenError::Permanent(m)) && m@ == "no refresh token"@,
            },
        },
{
    match auth {
        None => Err(RefreshTokenError::Permanent("no auth configured".to_owned())),
        Some(CodexAuth::ApiKey(_)) => Err(
            RefreshTokenError::Permanent("API key auth does not support token refresh".to_owned()),
        ),
        Some(CodexAuth::Chatgpt(c)) => match &c.refresh_token {
            Some(t) => Ok(t.clone()),
            None => Err(RefreshTokenError::Permanent("no refresh token".to_owned())),
        },
    }
}

/// The error for a refused refresh: permanent for status 400 and 401, else transient.
pub open spec fn refresh_failure_spec(status: u16, status_text: Seq<char>, body: Seq<char>, e: RefreshTokenError) -> bool {
    if status == 400 || status == 401 {
        e matches RefreshTokenError::Permanent(m) && m@ == "refresh token rejected ("@ + status_text
            + "): "@ + body
    } else {
        e matches RefreshTokenError::Transient(m) && m@ == "refresh failed ("@ + status_text + "): "@
            + body
    }
}

/// The error for a refused refresh with HTTP `status` (shown as `status_text`) and `body`.
pub fn refresh_failure(status: u16, status_text: &str, body: &str) -> (r: RefreshTokenError)
    ensures
        refresh_failure_spec(status, status_text@, body@, r),
{
    let permanent = status == 400 || status == 401;
    let mut out = if permanent {
        to_chars("refresh token rejected (")
    } else {
        to_chars("refresh failed (")
    };
    extend_str(&mut out, status_text);
    extend_str(&mut out, "): ");
    extend_str(&mut out, body);
    let m = from_chars(out.as_slice());
    if permanent {
        RefreshTokenError::Permanent(m)
    } else {
        RefreshTokenError::Transient(m)
    }
}

/// The authentication after a refresh: the new access token, the new refresh
/// token or else the old one, the same account; and what is stored for it.
pub fn refreshed_auth(
    old: &ChatgptAuth,
    access_token: String,
    refresh_token: Option<String>,
) -> (r: (CodexAuth, AuthDotJson))
    ensures
        r.0 matches CodexAuth::Chatgpt(c) && c.access_token == access_token && c.refresh_token == (
        match refresh_token {
            Some(t) => Some(t),
            None => old.refresh_token,
        }) && c.account_id == old.account_id,
        r.1.auth_mode == Some(AuthMode::Chatgpt),
        r.1.openai_api_key is None,
        r.1.access_token == Some(access_token),
        r.1.refresh_token == (match refresh_token {
            Some(t) => Some(t),
            None => old.refresh_token,
        }),
{
    let refresh = match refresh_token {
        Some(t) => Some(t),
        None => clone_opt_string(&old.refresh_token),
    };
    let stored = AuthDotJson {
        auth_mode: Some(AuthMode::Chatgpt),
        openai_api_key: None,
        access_token: Some(access_token.clone()),
        refresh_token: clone_opt_string(&refresh),
    };
    let auth = CodexAuth::Chatgpt(
        ChatgptAuth { access_token, refresh_token: refresh, account_id: clone_opt_string(&old.account_id) },
    );
    (auth, stored)
}

/// How the token endpoint answered a refresh request.
#[derive(Debug)]
pub enum RefreshReply {
    /// The request could not be sent or answered (the transport's error text).
    TransportFailed(String),
    /// The endpoint answered with an unsuccessful status.
    Refused { status: u16, status_text: String, body: String },
    /// The successful answer could not be read (the reader's error text).
    Unparsable(String),
    /// The endpoint granted new tokens.
    Granted { access_token: String, refresh_token: Option<String> },
}

/// The current authentication allows a refresh: ChatGPT tokens with a refresh token.
pub open spec fn can_refresh(auth: Option<CodexAuth>) -> bool {
    auth matches Some(CodexAuth::Chatgpt(c)) && c.refresh_token is Some
}

/// The error of a refresh that the current authentication does not allow.
pub open spec fn no_refresh_error(auth: Option<CodexAuth>, e: RefreshTokenError) -> bool {
    match auth {
        None => e matches RefreshTokenError::Permanent(m) && m@ == "no auth configured"@,
        Some(CodexAuth::ApiKey(_)) => e matches RefreshTokenError::Permanent(m) && m@
            == "API key auth does not support token refresh"@,
        Some(CodexAuth::Chatgpt(_)) => e matches RefreshTokenError::Permanent(m) && m@ == "no refresh token"@,
    }
}

/// A token refresh, given the endpoint's reply. When the current
/// authentication allows no refresh, no request is made and the reply does not
/// count: the error is permanent. A transport failure or an unreadable answer
/// is transient; a refused request is permanent for status 400 and 401, else
/// transient. On every error the authentication stays as it was and nothing is
/// to be stored. On success the new access token, the new refresh token (else
/// the old one) and the same account replace the authentication, and the
/// result is what must be stored.
pub fn refresh_token_step(auth: &mut Option<CodexAuth>, reply: RefreshReply) -> (r: Result<AuthDotJson, RefreshTokenError>)
    ensures
        !can_refresh(*old(auth)) ==> (r matches Err(e) && no_refresh_error(*old(auth), e) && *final(auth)
            == *old(auth)),
        can_refresh(*old(auth)) ==> match reply {
            RefreshReply::TransportFailed(d) => r matches Err(RefreshTokenError::Transient(m)) && m@
                == "HTTP error: "@ + d@ && *final(auth) == *old(auth),
            RefreshReply::Refused { status, status_text, body } => r matches Err(e) && refresh_failure_spec(
                status,
                status_text@,
                body@,
                e,
            ) && *final(auth) == *old(auth),
            RefreshReply::Unparsable(d) => r matches Err(RefreshTokenError::Transient(m)) && m@
                == "parse error: "@ + d@ && *final(auth) == *old(auth),
            RefreshReply::Granted { access_token, refresh_token } => {
                let old_c = old(auth)->Some_0->Chatgpt_0;
                let kept = match refresh_token {
                    Some(t) => Some(t),
                    None => old_c.refresh_token,
                };
                &&& *final(auth) == Some(
                    CodexAuth::Chatgpt(
                        ChatgptAuth { access_token, refresh_token: kept, account_id: old_c.account_id },
                    ),
                )
                &&& r matches Ok(stored) && stored.auth_mode == Some(AuthMode::Chatgpt) && stored.openai_api_key is None
                    && stored.access_token == Some(access_token) && stored.refresh_token == kept
            },
        },
{
    match refresh_token_to_send(auth) {
        Err(e) => return Err(e),
        Ok(_) => {},
    }
    match reply {
        RefreshReply::TransportFailed(d) => {
            let mut m = to_chars("HTTP error: ");
            extend_str(&mut m, d.as_str());
            Err(RefreshTokenError::Transient(from_chars(m.as_slice())))
        },
        RefreshReply::Refused { status, status_text, body } => Err(
            refresh_failure(status, status_text.as_str(), body.as_str()),
        ),
        RefreshReply::Unparsable(d) => {
            let mut m = to_chars("parse error: ");
            extend_str(&mut m, d.as_str());
            Err(RefreshTokenError::Transient(from_chars(m.as_slice())))
        },
        RefreshReply::Granted { access_token, refresh_token } => {
            let (new_auth, stored) = match auth {
                Some(CodexAuth::Chatgpt(c)) => refreshed_auth(c, access_token, refresh_token),
                _ => {
                    assert(false);
                    return Err(RefreshTokenError::Permanent("no auth configured".to_owned()));
                },
            };
            *auth = Some(new_auth);
            Ok(stored)
        },
    }
}

} // verus!
