//! The requests that go to the remote identity provider, and how its answers
//! are read. Each operation is one request and one answer; nothing is tried
//! twice.

use vstd::prelude::*;
use vstd::string::StringExecFns;
use crate::api_types::PamLoginRequest;
use crate::api_types::PamMfaFinishRequest;
use crate::api_types::PamMfaStartRequest;
use crate::api_types::PamPreflightRequest;
use crate::api_types::PamPreflightResponse;
use crate::api_types::WebauthnAuthFinishRequest;
use crate::api_types::WebauthnAuthStartResponse;
use crate::api_types::WebauthnServiceReq;
use crate::config::Config;
use crate::outcome::AuthError;
use crate::outcome::AuthErrorKind;
use crate::pam::token::PamToken;
use crate::text::concat2;

verus! {

/// Whether an HTTP status stands for success.
pub open spec fn spec_is_success(status: u16) -> bool {
    200 <= status <= 299
}

/// Whether an HTTP status stands for success.
#[verifier::when_used_as_spec(spec_is_success)]
pub fn is_success(status: u16) -> (r: bool)
    ensures
        r == spec_is_success(status),
{
    200 <= status && status <= 299
}

/// What came back for one request.
#[derive(Debug, Clone, PartialEq, Eq)]
pub enum RemoteReply<T> {
    /// The request did not complete. `seen` is the status that the
    /// transport reported with the fault, if any.
    Transport { seen: Option<u16>, cause: String },
    /// A successful status, and a body that could be read.
    Decoded(T),
    /// A successful status, but a body that could not be read.
    Undecodable { cause: String },
    /// Any other status, with the text of the body.
    Refused { status: u16, body: String },
}

impl<T> RemoteReply<T> {
    /// The value that the reply carries, or the failure that it stands for.
    /// A refusal counts as a failure of kind `refused_as`.
    pub open spec fn spec_interpret(self, refused_as: AuthErrorKind) -> Result<T, AuthError> {
        match self {
            RemoteReply::Transport { seen, cause } => Err(
                AuthError { kind: AuthErrorKind::Connection, status: seen, detail: Some(cause) },
            ),
            RemoteReply::Decoded(value) => Ok(value),
            RemoteReply::Undecodable { cause } => Err(
                AuthError { kind: AuthErrorKind::Protocol, status: None, detail: Some(cause) },
            ),
            RemoteReply::Refused { status, body } => Err(
                AuthError { kind: refused_as, status: Some(status), detail: Some(body) },
            ),
        }
    }

    /// The value that the reply carries, or the failure that it stands for.
    /// A refusal counts as a failure of kind `refused_as`.
    pub fn interpret(self, refused_as: AuthErrorKind) -> (r: Result<T, AuthError>)
        ensures
            r == self.spec_interpret(refused_as),
    {
        match self {
            RemoteReply::Transport { seen, cause } => Err(
                AuthError { kind: AuthErrorKind::Connection, status: seen, detail: Some(cause) },
            ),
            RemoteReply::Decoded(value) => Ok(value),
            RemoteReply::Undecodable { cause } => Err(
                AuthError { kind: AuthErrorKind::Protocol, status: None, detail: Some(cause) },
            ),
            RemoteReply::Refused { status, body } => Err(
                AuthError { kind: refused_as, status: Some(status), detail: Some(body) },
            ),
        }
    }
}

/// A request with a body, to be sent with POST.
#[derive(Debug, Clone, PartialEq, Eq)]
pub struct RemoteRequest<B> {
    pub url: String,
    pub body: B,
}

/// The address of the preflight endpoint below `origin`.
pub fn url_preflight(origin: &str) -> (r: String)
    ensures
        r@ == origin@ + "auth/v1/pam/preflight"@,
{
    concat2(origin, "auth/v1/pam/preflight")
}

/// The address of the endpoint that starts a hardware-key ceremony.
pub fn url_mfa_start(origin: &str) -> (r: String)
    ensures
        r@ == origin@ + "auth/v1/pam/mfa/start"@,
{
    concat2(origin, "auth/v1/pam/mfa/start")
}

/// The address of the endpoint that ends a hardware-key ceremony.
pub fn url_mfa_finish(origin: &str) -> (r: String)
    ensures
        r@ == origin@ + "auth/v1/pam/mfa/finish"@,
{
    concat2(origin, "auth/v1/pam/mfa/finish")
}

/// The address of the login endpoint below `origin`.
pub fn url_login(origin: &str) -> (r: String)
    ensures
        r@ == origin@ + "auth/v1/pam/login"@,
{
    concat2(origin, "auth/v1/pam/login")
}

/// The preflight request for `username`. It carries this machine's own
/// identity beside the user's name.
pub fn preflight(config: &Config, username: &str) -> (r: RemoteRequest<PamPreflightRequest>)
    ensures
        r.url@ == config.rauthy_url@ + "auth/v1/pam/preflight"@,
        r.body.host_id@ == config.host_id@,
        r.body.host_secret@ == config.host_secret@,
        r.body.username@ == username@,
{
    RemoteRequest {
        url: url_preflight(config.rauthy_url.as_str()),
        body: PamPreflightRequest {
            host_id: config.host_id.clone(),
            host_secret: config.host_secret.clone(),
            username: String::from_str(username),
        },
    }
}

/// The request that starts a hardware-key ceremony for `username`.
pub fn mfa_start(origin: &str, username: &str) -> (r: RemoteRequest<PamMfaStartRequest>)
    ensures
        r.url@ == origin@ + "auth/v1/pam/mfa/start"@,
        r.body.username@ == username@,
{
    RemoteRequest {
        url: url_mfa_start(origin),
        body: PamMfaStartRequest { username: String::from_str(username) },
    }
}

/// The request that hands a signed assertion in for a one-time code.
pub fn mfa_finish<A>(origin: &str, user_id: String, code: String, assertion: A) -> (r:
    RemoteRequest<PamMfaFinishRequest<A>>)
    ensures
        r.url@ == origin@ + "auth/v1/pam/mfa/finish"@,
        r.body.user_id == user_id,
        r.body.data.code == code,
        r.body.data.data == assertion,
{
    RemoteRequest {
        url: url_mfa_finish(origin),
        body: PamMfaFinishRequest {
            user_id,
            data: WebauthnAuthFinishRequest { code, data: assertion },
        },
    }
}

/// The login request with `payload` as its body.
pub fn login(origin: &str, payload: PamLoginRequest) -> (r: RemoteRequest<PamLoginRequest>)
    ensures
        r.url@ == origin@ + "auth/v1/pam/login"@,
        r.body == payload,
{
    RemoteRequest { url: url_login(origin), body: payload }
}

/// What a preflight gave: what the provider says of the account, or the
/// failure. A request that did not complete is a failure of the connection;
/// an answer that cannot be read, or that refuses, is one of the protocol.
pub open spec fn preflight_result(reply: RemoteReply<PamPreflightResponse>) -> Result<
    PamPreflightResponse,
    AuthError,
> {
    reply.spec_interpret(AuthErrorKind::Protocol)
}

/// What a preflight gave.
pub fn read_preflight(reply: RemoteReply<PamPreflightResponse>) -> (r: Result<
    PamPreflightResponse,
    AuthError,
>)
    ensures
        r == preflight_result(reply),
{
    reply.interpret(AuthErrorKind::Protocol)
}

/// What the start of a ceremony gave: the challenge with its code and the
/// user's id, or the failure.
pub open spec fn mfa_start_result<C>(reply: RemoteReply<WebauthnAuthStartResponse<C>>) -> Result<
    WebauthnAuthStartResponse<C>,
    AuthError,
> {
    reply.spec_interpret(AuthErrorKind::Protocol)
}

/// What the start of a ceremony gave.
pub fn read_mfa_start<C>(reply: RemoteReply<WebauthnAuthStartResponse<C>>) -> (r: Result<
    WebauthnAuthStartResponse<C>,
    AuthError,
>)
    ensures
        r == mfa_start_result(reply),
{
    reply.interpret(AuthErrorKind::Protocol)
}

/// What the end of a ceremony gave: the one-time code, or the failure. An
/// answer that refuses means that the assertion was not accepted.
pub open spec fn mfa_finish_result(reply: RemoteReply<WebauthnServiceReq>) -> Result<
    String,
    AuthError,
> {
    match reply.spec_interpret(AuthErrorKind::AuthFailed) {
        Ok(answer) => Ok(answer.code),
        Err(err) => Err(err),
    }
}

/// What the end of a ceremony gave.
pub fn read_mfa_finish(reply: RemoteReply<WebauthnServiceReq>) -> (r: Result<String, AuthError>)
    ensures
        r == mfa_finish_result(reply),
{
    match reply.interpret(AuthErrorKind::AuthFailed) {
        Ok(answer) => Ok(answer.code),
        Err(err) => Err(err),
    }
}

/// What a login gave: the token, or the failure. An answer that refuses
/// means that the credential was not accepted. No other call yields a
/// token.
pub open spec fn login_result(reply: RemoteReply<PamToken>) -> Result<PamToken, AuthError> {
    reply.spec_interpret(AuthErrorKind::AuthFailed)
}

/// What a login gave.
pub fn read_login(reply: RemoteReply<PamToken>) -> (r: Result<PamToken, AuthError>)
    ensures
        r == login_result(reply),
{
    reply.interpret(AuthErrorKind::AuthFailed)
}


} // verus!
