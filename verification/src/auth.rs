//! OAuth token lifecycle for session-bound providers: decide whether stored
//! credentials are usable as-is or must be refreshed first, and merge a
//! refresh response into the stored credentials. Reading and persisting the
//! credential store, and the refresh exchange itself, are performed by the
//! surrounding application; the decisions here are exact.

use std::time::SystemTime;
use std::time::UNIX_EPOCH;
use vstd::prelude::*;

use crate::transcription::TranscriptionError;

verus! {

/// Stored OAuth credentials. `expires_at` is an absolute expiry timestamp in
/// epoch seconds.
#[derive(Debug)]
pub struct ChatGptCredentials {
    pub access_token: String,
    pub refresh_token: String,
    pub expires_at: u64,
    pub account_id: String,
}

/// What a refresh exchange returned. The refresh token and account id are
/// optional: a refresh response is not required to rotate every field.
#[derive(Debug)]
pub struct RefreshedTokens {
    pub access_token: String,
    pub refresh_token: Option<String>,
    pub expires_at: u64,
    pub account_id: Option<String>,
}

/// The pair a provider call needs: a bearer token and the account it belongs
/// to.
#[derive(Debug)]
pub struct AuthContext {
    pub access_token: String,
    pub account_id: String,
}

/// How much earlier than its stated expiry a token is treated as expired.
pub const TOKEN_EXPIRY_MARGIN_SECS: u64 = 60;

/// A token must be refreshed exactly when its expiry is within the safety
/// margin of the current time.
pub open spec fn needs_refresh_spec(expires_at: u64, now: u64) -> bool {
    expires_at <= now + TOKEN_EXPIRY_MARGIN_SECS
}

pub fn needs_refresh(expires_at: u64, now: u64) -> (r: bool)
    ensures
        r == needs_refresh_spec(expires_at, now),
{
    expires_at <= now.saturating_add(TOKEN_EXPIRY_MARGIN_SECS)
}

/// What the token manager decided: use the stored token, or exchange the
/// carried refresh token first.
#[derive(Debug)]
pub enum AuthEvaluation {
    UseCurrent(AuthContext),
    RefreshWith(String),
}

/// Decides how to obtain a valid auth context from the stored state.
/// Fails with `Authentication` when the configured login method is not the
/// session-bound one or no credentials are stored; otherwise the stored
/// token is used as-is when outside the expiry margin and refreshed when
/// within it.
pub fn evaluate_credentials(
    method_is_chatgpt_oauth: bool,
    credentials: Option<ChatGptCredentials>,
    now: u64,
) -> (r: Result<AuthEvaluation, TranscriptionError>)
    ensures
        !method_is_chatgpt_oauth ==> (r matches Result::Err(e) && e is Authentication),
        (method_is_chatgpt_oauth && credentials is None) ==> (r matches Result::Err(e)
            && e is Authentication),
        match credentials {
            Option::Some(c) => {
                &&& (method_is_chatgpt_oauth && !needs_refresh_spec(c.expires_at, now)) ==> (
                r matches Result::Ok(AuthEvaluation::UseCurrent(ctx)) && ctx.access_token
                    == c.access_token && ctx.account_id == c.account_id)
                &&& (method_is_chatgpt_oauth && needs_refresh_spec(c.expires_at, now)) ==> (
                r matches Result::Ok(AuthEvaluation::RefreshWith(t)) && t == c.refresh_token)
            },
            Option::None => true,
        },
{
    if !method_is_chatgpt_oauth {
        return Result::Err(
            TranscriptionError::Authentication(
                String::from_str("ChatGPT OAuth login is not active"),
            ),
        );
    }
    match credentials {
        Option::None => Result::Err(
            TranscriptionError::Authentication(
                String::from_str("Missing ChatGPT OAuth credentials. Please login again."),
            ),
        ),
        Option::Some(c) => {
            if needs_refresh(c.expires_at, now) {
                Result::Ok(AuthEvaluation::RefreshWith(c.refresh_token))
            } else {
                Result::Ok(
                    AuthEvaluation::UseCurrent(
                        AuthContext { access_token: c.access_token, account_id: c.account_id },
                    ),
                )
            }
        },
    }
}

/// Merges a refresh response into the stored credentials: the access token
/// and expiry always come from the response; the refresh token and account
/// id are replaced only when the response supplied replacements. Returns the
/// credentials to persist and the context for the pending call.
pub fn apply_refresh(current: ChatGptCredentials, refreshed: RefreshedTokens) -> (r: (
    ChatGptCredentials,
    AuthContext,
))
    ensures
        r.0.access_token == refreshed.access_token,
        r.0.expires_at == refreshed.expires_at,
        refreshed.refresh_token matches Option::Some(t) ==> r.0.refresh_token == t,
        refreshed.refresh_token is None ==> r.0.refresh_token == current.refresh_token,
        refreshed.account_id matches Option::Some(a) ==> r.0.account_id == a,
        refreshed.account_id is None ==> r.0.account_id == current.account_id,
        r.1.access_token == refreshed.access_token,
        r.1.account_id == r.0.account_id,
{
    let refresh_token = match refreshed.refresh_token {
        Option::Some(t) => t,
        Option::None => current.refresh_token,
    };
    let account_id = match refreshed.account_id {
        Option::Some(a) => a,
        Option::None => current.account_id,
    };
    let context = AuthContext {
        access_token: refreshed.access_token.clone(),
        account_id: account_id.clone(),
    };
    let stored = ChatGptCredentials {
        access_token: refreshed.access_token,
        refresh_token,
        expires_at: refreshed.expires_at,
        account_id,
    };
    (stored, context)
}

/// A failed refresh exchange surfaces as `Authentication`, never `Network`,
/// whatever its root cause: the user-actionable remedy is to log in again.
pub fn refresh_failure_error(detail: String) -> (e: TranscriptionError)
    ensures
        e is Authentication,
        e.message_spec() == detail@,
{
    TranscriptionError::Authentication(detail)
}

/// Law: the refresh decision is exact at the margin. A token whose expiry
/// lies more than the safety margin ahead of `now` is used as-is; one at or
/// within the margin is refreshed first.
pub proof fn lemma_refresh_exactly_at_margin(expires_at: u64, now: u64)
    ensures
        needs_refresh_spec(expires_at, now) <==> expires_at <= now + TOKEN_EXPIRY_MARGIN_SECS,
        expires_at == now + TOKEN_EXPIRY_MARGIN_SECS + 1 ==> !needs_refresh_spec(expires_at, now),
        expires_at == now + TOKEN_EXPIRY_MARGIN_SECS ==> needs_refresh_spec(expires_at, now),
{
}

/// Relies on std's SystemTime::now and SystemTime::duration_since: seconds
/// since the Unix epoch, or 0 if the clock reads earlier than the epoch.
/// Nothing is assumed about the value: callers state what holds for every
/// reading.
#[verifier::external_body]
pub fn now_epoch_seconds() -> u64 {
    match SystemTime::now().duration_since(UNIX_EPOCH) {
        Ok(elapsed) => elapsed.as_secs(),
        Err(_) => 0,
    }
}

} // verus!
