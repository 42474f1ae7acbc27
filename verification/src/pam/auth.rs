//! The steps of one authentication attempt.
//!
//! The attempt is a state machine. The caller performs each action that the
//! machine asks for (a request to the provider, a prompt, the hardware-key
//! ceremony, the writing of the token) and hands the result back as the next
//! event. An attempt succeeds only once its token has been written.

use vstd::prelude::*;
use vstd::string::StringExecFns;
use crate::api_types::PamLoginRequest;
use crate::api_types::PamPreflightRequest;
use crate::api_types::PamPreflightResponse;
use crate::outcome::AuthError;
use crate::outcome::AuthErrorKind;
use crate::outcome::PamOutcome;
use crate::pam::PamService;
use crate::pam::RauthyPam;
use crate::pam::token::PamToken;
use crate::remote::login_result;
use crate::remote::preflight_result;
use crate::remote::read_login;
use crate::remote::read_preflight;
use crate::remote::RemoteReply;
use crate::remote::RemoteRequest;
use crate::remote::url_login;
use crate::text::concat2;

verus! {

/// Where an attempt stands.
#[derive(Debug, PartialEq, Eq)]
pub enum AuthState {
    /// Nothing has been done yet.
    Idle,
    /// The preflight request is on its way.
    AwaitPreflight,
    /// The hardware-key ceremony is running.
    AwaitMfa,
    /// The user is being asked for a password.
    AwaitPassword { remote: bool, mfa_required: bool },
    /// The login request is on its way.
    AwaitLogin { mfa_required: bool },
    /// The token is being written to its file.
    AwaitStore { mfa_required: bool },
    /// The attempt is over.
    Finished,
}

/// What happened since the last action.
#[derive(Debug, PartialEq, Eq)]
pub enum AuthEvent {
    /// The attempt starts.
    Begin,
    /// The answer to the preflight request.
    Preflight(RemoteReply<PamPreflightResponse>),
    /// How the hardware-key ceremony ended: with a one-time code, or not.
    Mfa(Result<String, AuthError>),
    /// What the user typed, if anything.
    Password(Option<String>),
    /// The answer to the login request.
    Login(RemoteReply<PamToken>),
    /// Whether the token was written to its file.
    Stored { written: bool },
}

/// The credential of a login request.
#[derive(Debug, PartialEq, Eq)]
pub enum Credential {
    Password(String),
    RemotePassword(String),
    WebauthnCode(String),
}

/// What the caller has to do next.
#[derive(Debug, PartialEq, Eq)]
pub enum AuthAction {
    /// Send the preflight request.
    SendPreflight,
    /// Run the hardware-key ceremony.
    RunMfa,
    /// Ask the user for a password.
    PromptPassword { remote: bool },
    /// Send the login request with this credential.
    SendLogin { credential: Credential },
    /// The provider accepted the login: provide the home directory, write
    /// the token to its file, and tell whether it was written. That the
    /// home directory could not be provided is written to the log and
    /// changes nothing else.
    Persist { token: PamToken, mfa_required: bool },
    /// The attempt succeeded.
    Succeed { mfa_required: bool },
    /// The attempt failed.
    Fail(AuthError),
}

impl AuthAction {
    /// Whether the action asks the user or the hardware key for a credential.
    pub open spec fn is_prompt(&self) -> bool {
        self is PromptPassword || self is RunMfa
    }
}

impl RauthyPam {
    /// Whether the attempt counts as coming from another machine.
    pub open spec fn spec_is_remote(&self) -> bool {
        self.remote_marker || self.service is Ssh
    }

    /// Whether the attempt counts as coming from another machine.
    #[verifier::when_used_as_spec(spec_is_remote)]
    pub fn is_remote(&self) -> (r: bool)
        ensures
            r == self.spec_is_remote(),
    {
        self.remote_marker || matches!(self.service, PamService::Ssh)
    }

    /// Whether the account's policy holds this attempt to a password alone.
    pub open spec fn spec_is_local_password_only(&self, preflight: PamPreflightResponse) -> bool {
        self.service.spec_is_local_console() && preflight.local_password_only
    }

    /// Whether the account's policy holds this attempt to a password alone.
    #[verifier::when_used_as_spec(spec_is_local_password_only)]
    pub fn is_local_password_only(&self, preflight: PamPreflightResponse) -> (r: bool)
        ensures
            r == self.spec_is_local_password_only(preflight),
    {
        self.service.is_local_console() && preflight.local_password_only
    }

    /// Whether the attempt has to go through the hardware-key ceremony.
    pub open spec fn spec_wants_mfa(&self, preflight: PamPreflightResponse) -> bool {
        preflight.mfa_required && !self.spec_is_remote() && !self.spec_is_local_password_only(
            preflight,
        )
    }

    /// Whether the attempt has to go through the hardware-key ceremony.
    #[verifier::when_used_as_spec(spec_wants_mfa)]
    pub fn wants_mfa(&self, preflight: PamPreflightResponse) -> (r: bool)
        ensures
            r == self.spec_wants_mfa(preflight),
    {
        preflight.mfa_required && !self.is_remote() && !self.is_local_password_only(preflight)
    }

    /// The state and the action that follow `event` in `state`.
    ///
    /// - The attempt starts with the preflight request.
    /// - A preflight that does not allow the login ends the attempt as
    ///   denied; one that failed ends it with the failure.
    /// - Where the ceremony is wanted it is run, else the user is asked for
    ///   a password.
    /// - A ceremony that failed ends the attempt: no password is asked for
    ///   in its place.
    /// - An absent or empty password ends the attempt as unavailable.
    /// - A login that failed, for whatever reason, ends the attempt as a
    ///   failed authentication.
    /// - A login that the provider accepted succeeds once the token is
    ///   written to its file; where it could not be written, the attempt
    ///   ends with an internal failure.
    /// - An event that the state does not wait for ends the attempt with an
    ///   internal failure.
    pub open spec fn step(&self, state: AuthState, event: AuthEvent) -> (AuthState, AuthAction) {
        match (state, event) {
            (AuthState::Idle, AuthEvent::Begin) => (
                AuthState::AwaitPreflight,
                AuthAction::SendPreflight,
            ),
            (AuthState::AwaitPreflight, AuthEvent::Preflight(reply)) => {
                match preflight_result(reply) {
                    Err(err) => (AuthState::Finished, AuthAction::Fail(err)),
                    Ok(preflight) => {
                        if !preflight.login_allowed {
                            (
                                AuthState::Finished,
                                AuthAction::Fail(AuthError::bare(AuthErrorKind::AccessDenied)),
                            )
                        } else if self.spec_wants_mfa(preflight) {
                            (AuthState::AwaitMfa, AuthAction::RunMfa)
                        } else {
                            (
                                AuthState::AwaitPassword {
                                    remote: self.spec_is_remote(),
                                    mfa_required: preflight.mfa_required,
                                },
                                AuthAction::PromptPassword { remote: self.spec_is_remote() },
                            )
                        }
                    },
                }
            },
            (AuthState::AwaitMfa, AuthEvent::Mfa(Ok(code))) => (
                AuthState::AwaitLogin { mfa_required: true },
                AuthAction::SendLogin { credential: Credential::WebauthnCode(code) },
            ),
            (AuthState::AwaitMfa, AuthEvent::Mfa(Err(err))) => (
                AuthState::Finished,
                AuthAction::Fail(err.as_auth_failed()),
            ),
            (AuthState::AwaitPassword { remote, mfa_required }, AuthEvent::Password(typed)) => {
                match typed {
                    Some(password) => {
                        if password@.len() == 0 {
                            (
                                AuthState::Finished,
                                AuthAction::Fail(AuthError::bare(AuthErrorKind::Unavailable)),
                            )
                        } else if remote {
                            (
                                AuthState::AwaitLogin { mfa_required },
                                AuthAction::SendLogin {
                                    credential: Credential::RemotePassword(password),
                                },
                            )
                        } else {
                            (
                                AuthState::AwaitLogin { mfa_required },
                                AuthAction::SendLogin { credential: Credential::Password(password) },
                            )
                        }
                    },
                    None => (
                        AuthState::Finished,
                        AuthAction::Fail(AuthError::bare(AuthErrorKind::Unavailable)),
                    ),
                }
            },
            (AuthState::AwaitLogin { mfa_required }, AuthEvent::Login(reply)) => {
                match login_result(reply) {
                    Ok(token) => (
                        AuthState::AwaitStore { mfa_required },
                        AuthAction::Persist { token, mfa_required },
                    ),
                    Err(err) => (AuthState::Finished, AuthAction::Fail(err.as_auth_failed())),
                }
            },
            (AuthState::AwaitStore { mfa_required }, AuthEvent::Stored { written }) => {
                if written {
                    (AuthState::Finished, AuthAction::Succeed { mfa_required })
                } else {
                    (
                        AuthState::Finished,
                        AuthAction::Fail(AuthError::bare(AuthErrorKind::Internal)),
                    )
                }
            },
            _ => (AuthState::Finished, AuthAction::Fail(AuthError::bare(AuthErrorKind::Internal))),
        }
    }

    /// Takes one step of the attempt: the state and the action that follow
    /// `event` in `state`.
    pub fn handle_authenticate(&self, state: AuthState, event: AuthEvent) -> (r: (
        AuthState,
        AuthAction,
    ))
        ensures
            r == self.step(state, event),
    {
        match (state, event) {
            (AuthState::Idle, AuthEvent::Begin) => (
                AuthState::AwaitPreflight,
                AuthAction::SendPreflight,
            ),
            (AuthState::AwaitPreflight, AuthEvent::Preflight(reply)) => {
                match read_preflight(reply) {
                    Err(err) => (AuthState::Finished, AuthAction::Fail(err)),
                    Ok(preflight) => {
                        if !preflight.login_allowed {
                            (
                                AuthState::Finished,
                                AuthAction::Fail(
                                    AuthError {
                                        kind: AuthErrorKind::AccessDenied,
                                        status: None,
                                        detail: None,
                                    },
                                ),
                            )
                        } else if self.wants_mfa(preflight) {
                            (AuthState::AwaitMfa, AuthAction::RunMfa)
                        } else {
                            let remote = self.is_remote();
                            (
                                AuthState::AwaitPassword {
                                    remote,
                                    mfa_required: preflight.mfa_required,
                                },
                                AuthAction::PromptPassword { remote },
                            )
                        }
                    },
                }
            },
            (AuthState::AwaitMfa, AuthEvent::Mfa(Ok(code))) => (
                AuthState::AwaitLogin { mfa_required: true },
                AuthAction::SendLogin { credential: Credential::WebauthnCode(code) },
            ),
            (AuthState::AwaitMfa, AuthEvent::Mfa(Err(err))) => (
                AuthState::Finished,
                AuthAction::Fail(
                    AuthError {
                        kind: AuthErrorKind::AuthFailed,
                        status: err.status,
                        detail: err.detail,
                    },
                ),
            ),
            (AuthState::AwaitPassword { remote, mfa_required }, AuthEvent::Password(typed)) => {
                match typed {
                    Some(password) => {
                        if password.as_str().is_empty() {
                            (
                                AuthState::Finished,
                                AuthAction::Fail(
                                    AuthError {
                                        kind: AuthErrorKind::Unavailable,
                                        status: None,
                                        detail: None,
                                    },
                                ),
                            )
                        } else if remote {
                            (
                                AuthState::AwaitLogin { mfa_required },
                                AuthAction::SendLogin {
                                    credential: Credential::RemotePassword(password),
                                },
                            )
                        } else {
                            (
                                AuthState::AwaitLogin { mfa_required },
                                AuthAction::SendLogin { credential: Credential::Password(password) },
                            )
                        }
                    },
                    None => (
                        AuthState::Finished,
                        AuthAction::Fail(
                            AuthError {
                                kind: AuthErrorKind::Unavailable,
                                status: None,
                                detail: None,
                            },
                        ),
                    ),
                }
            },
            (AuthState::AwaitLogin { mfa_required }, AuthEvent::Login(reply)) => {
                match read_login(reply) {
                    Ok(token) => (
                        AuthState::AwaitStore { mfa_required },
                        AuthAction::Persist { token, mfa_required },
                    ),
                    Err(err) => (
                        AuthState::Finished,
                        AuthAction::Fail(
                            AuthError {
                                kind: AuthErrorKind::AuthFailed,
                                status: err.status,
                                detail: err.detail,
                            },
                        ),
                    ),
                }
            },
            (AuthState::AwaitStore { mfa_required }, AuthEvent::Stored { written }) => {
                if written {
                    (AuthState::Finished, AuthAction::Succeed { mfa_required })
                } else {
                    (
                        AuthState::Finished,
                        AuthAction::Fail(
                            AuthError {
                                kind: AuthErrorKind::Internal,
                                status: None,
                                detail: None,
                            },
                        ),
                    )
                }
            },
            _ => (
                AuthState::Finished,
                AuthAction::Fail(
                    AuthError { kind: AuthErrorKind::Internal, status: None, detail: None },
                ),
            ),
        }
    }
}

impl RauthyPam {
    /// The state reached from `state` after `events`, taken in order.
    pub open spec fn state_after(&self, state: AuthState, events: Seq<AuthEvent>) -> AuthState
        decreases events.len(),
    {
        if events.len() == 0 {
            state
        } else {
            self.step(self.state_after(state, events.drop_last()), events.last()).0
        }
    }

    /// The actions that `events`, taken in order from `state`, bring about:
    /// one for each event.
    pub open spec fn actions_of(&self, state: AuthState, events: Seq<AuthEvent>) -> Seq<
        AuthAction,
    > {
        Seq::new(
            events.len(),
            |i: int| self.step(self.state_after(state, events.take(i)), events[i]).1,
        )
    }

    /// Once an attempt is over it stays over, whatever comes.
    pub proof fn lemma_finished_stays(&self, events: Seq<AuthEvent>)
        ensures
            self.state_after(AuthState::Finished, events) == AuthState::Finished,
        decreases events.len(),
    {
        if events.len() > 0 {
            self.lemma_finished_stays(events.drop_last());
        }
    }

    /// Taking `first` and then `rest` is taking `first + rest`.
    pub proof fn lemma_state_after_concat(
        &self,
        state: AuthState,
        first: Seq<AuthEvent>,
        rest: Seq<AuthEvent>,
    )
        ensures
            self.state_after(state, first + rest) == self.state_after(
                self.state_after(state, first),
                rest,
            ),
        decreases rest.len(),
    {
        if rest.len() == 0 {
            assert(first + rest =~= first);
        } else {
            assert((first + rest).drop_last() =~= first + rest.drop_last());
            assert((first + rest).last() == rest.last());
            self.lemma_state_after_concat(state, first, rest.drop_last());
        }
    }

    /// Where the preflight does not allow the login, the attempt ends as
    /// denied and neither the user nor the hardware key is ever asked for a
    /// credential, nor is a login request sent or a token stored, whatever
    /// events follow.
    pub proof fn law_denied_login_never_prompts(
        &self,
        preflight: PamPreflightResponse,
        rest: Seq<AuthEvent>,
    )
        requires
            !preflight.login_allowed,
        ensures
            ({
                let events = seq![
                    AuthEvent::Begin,
                    AuthEvent::Preflight(RemoteReply::Decoded(preflight)),
                ] + rest;
                let actions = self.actions_of(AuthState::Idle, events);
                &&& actions.len() == 2 + rest.len()
                &&& actions[0] == AuthAction::SendPreflight
                &&& actions[1] == AuthAction::Fail(AuthError::bare(AuthErrorKind::AccessDenied))
                &&& AuthErrorKind::AccessDenied.spec_outcome()
                    == crate::outcome::PamOutcome::CredentialsInsufficient
                &&& forall|i: int|
                    0 <= i < actions.len() ==> {
                        &&& !(#[trigger] actions[i]).is_prompt()
                        &&& !(actions[i] is SendLogin)
                        &&& !(actions[i] is Persist)
                        &&& !(actions[i] is Succeed)
                    }
            }),
    {
        let head = seq![AuthEvent::Begin, AuthEvent::Preflight(RemoteReply::Decoded(preflight))];
        let events = head + rest;
        let actions = self.actions_of(AuthState::Idle, events);
        assert(events.take(0) =~= Seq::<AuthEvent>::empty());
        assert(events.take(1) =~= seq![AuthEvent::Begin]);
        assert(events.take(1).drop_last() =~= Seq::<AuthEvent>::empty());
        assert(self.state_after(AuthState::Idle, events.take(0)) == AuthState::Idle);
        assert(self.state_after(AuthState::Idle, events.take(1)) == AuthState::AwaitPreflight);
        assert(head.drop_last() =~= seq![AuthEvent::Begin]);
        assert(head.drop_last().drop_last() =~= Seq::<AuthEvent>::empty());
        assert(self.state_after(AuthState::Idle, head) == AuthState::Finished);
        assert forall|i: int| 0 <= i < actions.len() implies {
            &&& !(#[trigger] actions[i]).is_prompt()
            &&& !(actions[i] is SendLogin)
            &&& !(actions[i] is Persist)
            &&& !(actions[i] is Succeed)
        } by {
            if i >= 2 {
                let done = rest.take(i - 2);
                assert(events.take(i) =~= head + done);
                self.lemma_state_after_concat(AuthState::Idle, head, done);
                self.lemma_finished_stays(done);
            }
        }
    }

    /// The policy that holds an account to a password alone is honoured for
    /// a login at the console even where the account asks for the hardware
    /// key: the user is asked for a password.
    pub proof fn law_local_password_only_forces_password(&self, preflight: PamPreflightResponse)
        requires
            self.service is Login,
            preflight.login_allowed,
            preflight.local_password_only,
        ensures
            self.step(
                AuthState::AwaitPreflight,
                AuthEvent::Preflight(RemoteReply::Decoded(preflight)),
            ).1 == (AuthAction::PromptPassword { remote: self.remote_marker }),
    {
    }

    /// For a service that is neither the console login nor `sudo` nor `su`,
    /// that policy changes nothing: the step taken is the one taken without
    /// it.
    pub proof fn law_other_service_ignores_local_password_only(
        &self,
        preflight: PamPreflightResponse,
    )
        requires
            self.service is Other || self.service is Ssh || self.service is Unknown,
        ensures
            !self.spec_is_local_password_only(preflight),
            self.step(
                AuthState::AwaitPreflight,
                AuthEvent::Preflight(RemoteReply::Decoded(preflight)),
            ) == self.step(
                AuthState::AwaitPreflight,
                AuthEvent::Preflight(
                    RemoteReply::Decoded(
                        PamPreflightResponse { local_password_only: false, ..preflight },
                    ),
                ),
            ),
            self.service is Other && preflight.login_allowed && preflight.mfa_required
                && !self.remote_marker ==> self.step(
                AuthState::AwaitPreflight,
                AuthEvent::Preflight(RemoteReply::Decoded(preflight)),
            ).1 == AuthAction::RunMfa,
    {
    }

    /// An attempt that counts as remote never runs the hardware-key
    /// ceremony: where the login is allowed, the user is asked for the
    /// remote password.
    pub proof fn law_remote_session_skips_mfa(&self, preflight: PamPreflightResponse)
        requires
            self.spec_is_remote(),
            preflight.login_allowed,
        ensures
            self.step(
                AuthState::AwaitPreflight,
                AuthEvent::Preflight(RemoteReply::Decoded(preflight)),
            ).1 == (AuthAction::PromptPassword { remote: true }),
    {
    }

    /// A hardware-key ceremony that failed ends the attempt as a failed
    /// authentication. No password is asked for in its place and no login
    /// request is sent, whatever events follow.
    pub proof fn law_failed_mfa_sends_no_login(&self, err: AuthError, rest: Seq<AuthEvent>)
        ensures
            ({
                let events = seq![AuthEvent::Mfa(Err(err))] + rest;
                let actions = self.actions_of(AuthState::AwaitMfa, events);
                &&& actions.len() == 1 + rest.len()
                &&& actions[0] == AuthAction::Fail(err.as_auth_failed())
                &&& err.as_auth_failed().kind.spec_outcome() == crate::outcome::PamOutcome::AuthError
                &&& forall|i: int|
                    0 <= i < actions.len() ==> {
                        &&& !(#[trigger] actions[i]).is_prompt()
                        &&& !(actions[i] is SendLogin)
                        &&& !(actions[i] is Persist)
                        &&& !(actions[i] is Succeed)
                    }
            }),
    {
        let head = seq![AuthEvent::Mfa(Err(err))];
        let events = head + rest;
        let actions = self.actions_of(AuthState::AwaitMfa, events);
        assert(events.take(0) =~= Seq::<AuthEvent>::empty());
        assert(head.drop_last() =~= Seq::<AuthEvent>::empty());
        assert(self.state_after(AuthState::AwaitMfa, head) == AuthState::Finished);
        assert forall|i: int| 0 <= i < actions.len() implies {
            &&& !(#[trigger] actions[i]).is_prompt()
            &&& !(actions[i] is SendLogin)
            &&& !(actions[i] is Persist)
            &&& !(actions[i] is Succeed)
        } by {
            if i >= 1 {
                let done = rest.take(i - 1);
                assert(events.take(i) =~= head + done);
                self.lemma_state_after_concat(AuthState::AwaitMfa, head, done);
                self.lemma_finished_stays(done);
            }
        }
    }

    /// A token is stored only as the answer to a login request that
    /// succeeded, and it is the token that the provider issued; no attempt
    /// stores a second one.
    pub proof fn law_token_written_once(&self, state: AuthState, events: Seq<AuthEvent>)
        ensures
            ({
                let actions = self.actions_of(state, events);
                &&& forall|i: int|
                    0 <= i < actions.len() && (#[trigger] actions[i]) is Persist ==> {
                        &&& self.state_after(state, events.take(i)) is AwaitLogin
                        &&& events[i] == AuthEvent::Login(
                            RemoteReply::Decoded(actions[i]->Persist_token),
                        )
                        &&& self.state_after(state, events.take(i + 1)) is AwaitStore
                    }
                &&& forall|i: int, j: int|
                    0 <= i < j < actions.len() && (#[trigger] actions[i]) is Persist ==> !(
                    #[trigger] actions[j] is Persist)
            }),
    {
        let actions = self.actions_of(state, events);
        assert forall|i: int| 0 <= i < actions.len() && (#[trigger] actions[i]) is Persist implies {
            &&& self.state_after(state, events.take(i)) is AwaitLogin
            &&& events[i] == AuthEvent::Login(RemoteReply::Decoded(actions[i]->Persist_token))
            &&& self.state_after(state, events.take(i + 1)) is AwaitStore
        } by {
            assert(events.take(i + 1).drop_last() =~= events.take(i));
            assert(events.take(i + 1).last() == events[i]);
        }
        self.law_each_stage_once(state, events);
        assert forall|i: int, j: int|
            0 <= i < j < actions.len() && (#[trigger] actions[i]) is Persist implies !(
        #[trigger] actions[j] is Persist) by {
            if actions[j] is Persist {
                assert(actions[i].stage() is Some && actions[j].stage() is Some);
            }
        }
    }

    /// An attempt succeeds only once its token is written: success is
    /// reported only as the answer to the word that the token was written,
    /// and, in an attempt taken from its start, that word answers the
    /// storing of the token that the provider issued for this login.
    pub proof fn law_success_means_token_written(&self, events: Seq<AuthEvent>)
        ensures
            ({
                let actions = self.actions_of(AuthState::Idle, events);
                forall|i: int|
                    0 <= i < actions.len() && (#[trigger] actions[i]) is Succeed ==> {
                        &&& events[i] == (AuthEvent::Stored { written: true })
                        &&& i >= 1
                        &&& actions[i - 1] is Persist
                        &&& events[i - 1] == AuthEvent::Login(
                            RemoteReply::Decoded(actions[i - 1]->Persist_token),
                        )
                    }
            }),
    {
        let actions = self.actions_of(AuthState::Idle, events);
        assert forall|i: int| 0 <= i < actions.len() && (#[trigger] actions[i]) is Succeed implies {
            &&& events[i] == (AuthEvent::Stored { written: true })
            &&& i >= 1
            &&& actions[i - 1] is Persist
            &&& events[i - 1] == AuthEvent::Login(
                RemoteReply::Decoded(actions[i - 1]->Persist_token),
            )
        } by {
            let before = self.state_after(AuthState::Idle, events.take(i));
            assert(before is AwaitStore);
            if i == 0 {
                assert(events.take(0) =~= Seq::<AuthEvent>::empty());
            } else {
                assert(events.take(i).drop_last() =~= events.take(i - 1));
                assert(events.take(i).last() == events[i - 1]);
            }
        }
    }

    /// Where the token could not be written, the attempt fails, whatever
    /// the provider said before.
    pub proof fn law_unwritten_token_fails(&self, mfa_required: bool)
        ensures
            ({
                let after = self.step(
                    AuthState::AwaitStore { mfa_required },
                    AuthEvent::Stored { written: false },
                );
                &&& after.0 == AuthState::Finished
                &&& after.1 == AuthAction::Fail(AuthError::bare(AuthErrorKind::Internal))
                &&& after.1.spec_outcome() == Some(PamOutcome::ServiceError)
            }),
    {
    }
}

impl AuthAction {
    /// The outcome that the action ends the attempt with, if it ends it.
    pub open spec fn spec_outcome(&self) -> Option<PamOutcome> {
        match self {
            AuthAction::Succeed { .. } => Some(PamOutcome::Success),
            AuthAction::Fail(err) => Some(err.kind.spec_outcome()),
            _ => None,
        }
    }

    /// The outcome that the action ends the attempt with, if it ends it.
    #[verifier::when_used_as_spec(spec_outcome)]
    pub fn outcome(&self) -> (r: Option<PamOutcome>)
        ensures
            r == self.spec_outcome(),
    {
        match self {
            AuthAction::Succeed { .. } => Some(PamOutcome::Success),
            AuthAction::Fail(err) => Some(err.kind.outcome()),
            _ => None,
        }
    }
}

impl RauthyPam {
    /// The label of the password that the user is asked for.
    pub fn prompt_label(remote: bool) -> (r: &'static str)
        ensures
            r@ == if remote {
                "Remote Password"@
            } else {
                "Password"@
            },
    {
        if remote {
            "Remote Password"
        } else {
            "Password"
        }
    }

    /// The words with which the user is asked for a password: the label, a
    /// colon and a space.
    pub fn password_prompt(remote: bool) -> (r: String)
        ensures
            r@ == (if remote {
                "Remote Password"@
            } else {
                "Password"@
            }) + ": "@,
    {
        concat2(Self::prompt_label(remote), ": ")
    }

    /// The login request for this attempt with `credential`. Of the three
    /// fields for a credential exactly the one that `credential` names is
    /// filled.
    pub fn login_request(&self, credential: Credential) -> (r: RemoteRequest<PamLoginRequest>)
        ensures
            r.url@ == self.config.rauthy_url@ + "auth/v1/pam/login"@,
            r.body.host_id@ == self.config.host_id@,
            r.body.host_secret@ == self.config.host_secret@,
            r.body.username@ == self.username@,
            r.body.credentials_filled() == 1,
            match credential {
                Credential::Password(p) => r.body.password == Some(p),
                Credential::RemotePassword(p) => r.body.remote_password == Some(p),
                Credential::WebauthnCode(c) => r.body.webauthn_code == Some(c),
            },
    {
        let mut body = PamLoginRequest {
            host_id: self.config.host_id.clone(),
            host_secret: self.config.host_secret.clone(),
            username: self.username.clone(),
            password: None,
            remote_password: None,
            webauthn_code: None,
        };
        match credential {
            Credential::Password(p) => {
                body.password = Some(p);
            },
            Credential::RemotePassword(p) => {
                body.remote_password = Some(p);
            },
            Credential::WebauthnCode(c) => {
                body.webauthn_code = Some(c);
            },
        }
        RemoteRequest { url: url_login(self.config.rauthy_url.as_str()), body }
    }

    /// The preflight request for this attempt.
    pub fn preflight_request(&self) -> (r: RemoteRequest<PamPreflightRequest>)
        ensures
            r.url@ == self.config.rauthy_url@ + "auth/v1/pam/preflight"@,
            r.body.host_id@ == self.config.host_id@,
            r.body.host_secret@ == self.config.host_secret@,
            r.body.username@ == self.username@,
    {
        crate::remote::preflight(&self.config, self.username.as_str())
    }

    /// The line that tells of a login that failed in the system log.
    pub fn failure_message(&self, err: &AuthError) -> (r: String)
        ensures
            r@ == "Rauthy PAM login failed for user "@ + self.username@ + ": "@
                + err.spec_message(),
    {
        let mut r = concat2("Rauthy PAM login failed for user ", self.username.as_str());
        r.append(": ");
        r.append(err.message().as_str());
        r
    }

    /// The line that tells of a login that succeeded in the system log.
    pub fn success_message(&self, mfa_required: bool) -> (r: String)
        ensures
            r@ == (if mfa_required {
                "Rauthy PAM MFA Login successful for user "@
            } else {
                "Rauthy PAM Password Login successful for user "@
            }) + self.username@,
    {
        if mfa_required {
            concat2("Rauthy PAM MFA Login successful for user ", self.username.as_str())
        } else {
            concat2("Rauthy PAM Password Login successful for user ", self.username.as_str())
        }
    }
}

impl AuthState {
    /// How far an attempt has come: a number that grows with every step
    /// until the attempt is over.
    pub open spec fn progress(self) -> nat {
        match self {
            AuthState::Idle => 0,
            AuthState::AwaitPreflight => 1,
            AuthState::AwaitMfa => 2,
            AuthState::AwaitPassword { .. } => 2,
            AuthState::AwaitLogin { .. } => 3,
            AuthState::AwaitStore { .. } => 4,
            AuthState::Finished => 5,
        }
    }
}

impl AuthAction {
    /// How far an attempt must have come for the action to be asked for,
    /// for the actions that go on with the attempt.
    pub open spec fn stage(self) -> Option<nat> {
        match self {
            AuthAction::SendPreflight => Some(0),
            AuthAction::RunMfa => Some(1),
            AuthAction::PromptPassword { .. } => Some(1),
            AuthAction::SendLogin { .. } => Some(2),
            AuthAction::Persist { .. } => Some(3),
            AuthAction::Succeed { .. } => Some(4),
            AuthAction::Fail(_) => None,
        }
    }
}

impl RauthyPam {
    /// Every step takes the attempt further, or ends it; and an action that
    /// goes on with the attempt is asked for only at its own stage.
    pub proof fn lemma_step_advances(&self, state: AuthState, event: AuthEvent)
        ensures
            ({
                let after = self.step(state, event);
                &&& after.0.progress() > state.progress() || after.0 == AuthState::Finished
                &&& after.1.stage() matches Some(k) ==> state.progress() == k
                    && after.0.progress() > k
            }),
    {
    }

    /// An attempt never falls back.
    pub proof fn lemma_progress_grows(
        &self,
        state: AuthState,
        events: Seq<AuthEvent>,
        i: int,
        j: int,
    )
        requires
            0 <= i <= j <= events.len(),
        ensures
            self.state_after(state, events.take(i)).progress() <= self.state_after(
                state,
                events.take(j),
            ).progress(),
        decreases j - i,
    {
        if i < j {
            self.lemma_progress_grows(state, events, i, j - 1);
            assert(events.take(j).drop_last() =~= events.take(j - 1));
            assert(events.take(j).last() == events[j - 1]);
            self.lemma_step_advances(
                self.state_after(state, events.take(j - 1)),
                events[j - 1],
            );
        }
    }

    /// In one attempt there is at most one preflight request, at most one
    /// prompt or ceremony, at most one login request and at most one token
    /// to store, and they come in this order: none of them is asked for
    /// twice, and none after one of a later stage.
    pub proof fn law_each_stage_once(&self, state: AuthState, events: Seq<AuthEvent>)
        ensures
            ({
                let actions = self.actions_of(state, events);
                forall|i: int, j: int|
                    0 <= i < j < actions.len() && (#[trigger] actions[i]).stage() is Some && (
                    #[trigger] actions[j]).stage() is Some ==> actions[i].stage()->0
                        < actions[j].stage()->0
            }),
    {
        let actions = self.actions_of(state, events);
        assert forall|i: int, j: int|
            0 <= i < j < actions.len() && (#[trigger] actions[i]).stage() is Some && (
            #[trigger] actions[j]).stage() is Some implies actions[i].stage()->0
            < actions[j].stage()->0 by {
            let before_i = self.state_after(state, events.take(i));
            let before_j = self.state_after(state, events.take(j));
            self.lemma_step_advances(before_i, events[i]);
            self.lemma_step_advances(before_j, events[j]);
            assert(events.take(i + 1).drop_last() =~= events.take(i));
            assert(events.take(i + 1).last() == events[i]);
            self.lemma_progress_grows(state, events, i + 1, j);
        }
    }

    /// The user or the hardware key is asked for a credential only as the
    /// answer to a preflight of this very attempt that allows the login.
    pub proof fn law_prompt_follows_preflight(&self, state: AuthState, events: Seq<AuthEvent>)
        ensures
            ({
                let actions = self.actions_of(state, events);
                forall|i: int|
                    0 <= i < actions.len() && (#[trigger] actions[i]).is_prompt() ==> {
                        &&& self.state_after(state, events.take(i)) == AuthState::AwaitPreflight
                        &&& events[i] matches AuthEvent::Preflight(RemoteReply::Decoded(preflight))
                        &&& events[i]->Preflight_0->Decoded_0.login_allowed
                    }
            }),
    {
    }
}


} // verus!
