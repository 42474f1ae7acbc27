//! The hardware-key ceremony: finding a key, giving each attempt its share
//! of the time, and relaying what the key's driver asks of the user.
//!
//! The driver's call blocks, so it runs on a worker of its own. The worker
//! speaks to the side that owns the prompt only through messages
//! ([`PamReq`]), one at a time and in order.

use vstd::prelude::*;
use vstd::string::StringExecFns;
use crate::api_types::WebauthnAuthStartResponse;
use crate::api_types::WebauthnServiceReq;
use crate::outcome::AuthError;
use crate::outcome::AuthErrorKind;
use crate::pam::RauthyPam;
use crate::remote::mfa_finish_result;
use crate::remote::mfa_start_result;
use crate::remote::read_mfa_finish;
use crate::remote::read_mfa_start;
use crate::remote::RemoteReply;
use crate::text::chars_of;
use crate::text::concat2;
use crate::text::contains;
use crate::text::occurs_in;

verus! {

/// The seconds within which a key has to be found.
pub const DISCOVERY_CEILING_SECS: u64 = 20;

/// The milliseconds a ceremony may take where the provider names no time.
pub const DEFAULT_CEREMONY_TIMEOUT_MS: u32 = 60_000;

/// A message from the worker that drives the key. `A` is the signed
/// assertion that a key hands out.
#[derive(Debug, PartialEq, Eq)]
pub enum PamReq<A> {
    /// Something to tell the user.
    Info(String),
    /// One attempt failed; the worker goes on.
    Failure(String),
    /// The key wants its PIN. The worker waits for the answer.
    GetPin,
    /// The key signed the challenge. The ceremony is over.
    Assertion(A),
    /// The time ran out. The ceremony is over.
    TimedOut,
}

/// What the side that owns the prompt does with a message.
#[derive(Debug, PartialEq, Eq)]
pub enum RelayAction<A> {
    /// Show the text to the user.
    Show(String),
    /// Show the text to the user and write it to the system log.
    ShowAndLog(String),
    /// Show the text as an error and write it to the system log.
    ReportError(String),
    /// Ask the user for the PIN and send it to the worker.
    AskPin,
    /// Do nothing.
    Skip,
    /// End the ceremony with this assertion.
    Finish(A),
    /// End the ceremony without one.
    Abandon,
}

/// What to do with the answer to a PIN prompt.
#[derive(Debug, PartialEq, Eq)]
pub enum PinAction {
    /// Send the PIN to the worker.
    Forward(String),
    /// Tell the user that the PIN must not be empty, and ask again.
    AskAgain,
}

/// What the transport reports while a key is looked for.
#[derive(Debug, Clone, Copy, PartialEq, Eq, Structural)]
pub enum KeyEvent {
    /// A device was attached. `usable` says whether it could be set up as
    /// an authenticator.
    Added { usable: bool },
    /// All attached devices were looked at.
    EnumerationComplete,
    /// A device was taken away.
    Removed,
    /// The transport stopped reporting.
    Closed,
}

/// What to do while a key is looked for.
#[derive(Debug, Clone, Copy, PartialEq, Eq, Structural)]
pub enum DiscoveryAction {
    /// Use the device that was just attached.
    Use,
    /// Tell the user that no key was found and that one has to be
    /// connected, and go on waiting.
    AskToConnect,
    /// Go on waiting.
    Wait,
    /// Tell the user to insert a key, and watch the transport anew.
    WatchAgain,
}

/// The side of the ceremony that owns the prompt. It remembers whether the
/// user was already asked to touch the key.
#[derive(Debug, Clone, PartialEq, Eq)]
pub struct PamWebauthn {
    pub touch_requested: bool,
}

/// The milliseconds left for an attempt that starts `elapsed_ms` after the
/// ceremony began, of the `timeout_ms` that the whole ceremony has. `None`
/// where none are left.
pub open spec fn spec_attempt_budget(timeout_ms: u32, elapsed_ms: u64) -> Option<u32> {
    if elapsed_ms >= timeout_ms {
        None
    } else {
        Some((timeout_ms - elapsed_ms) as u32)
    }
}

/// The milliseconds left for an attempt that starts `elapsed_ms` after the
/// ceremony began, of the `timeout_ms` that the whole ceremony has. `None`
/// where none are left: the worker then stops and reports
/// [`PamReq::TimedOut`].
#[verifier::when_used_as_spec(spec_attempt_budget)]
pub fn attempt_budget(timeout_ms: u32, elapsed_ms: u64) -> (r: Option<u32>)
    ensures
        r == spec_attempt_budget(timeout_ms, elapsed_ms),
{
    if elapsed_ms >= timeout_ms as u64 {
        None
    } else {
        Some((timeout_ms as u64 - elapsed_ms) as u32)
    }
}

/// However many attempts fail, the ceremony does not outlast the time that
/// the provider gave it by more than what one call of the driver can
/// overrun its own share.
///
/// `starts[k]` and `ends[k]` are the milliseconds since the ceremony began
/// at which attempt `k` started and ended; `slack` is the most by which a
/// call overruns the time that it was given.
pub proof fn law_ceremony_stays_within_timeout(
    timeout_ms: u32,
    starts: Seq<u64>,
    ends: Seq<u64>,
    slack: nat,
)
    requires
        starts.len() == ends.len(),
        forall|k: int|
            0 <= k < starts.len() ==> (#[trigger] spec_attempt_budget(timeout_ms, starts[k]))
                is Some,
        forall|k: int|
            0 <= k < starts.len() ==> (#[trigger] ends[k]) <= starts[k] + spec_attempt_budget(
                timeout_ms,
                starts[k],
            )->0 + slack,
    ensures
        forall|k: int| 0 <= k < ends.len() ==> (#[trigger] ends[k]) <= timeout_ms + slack,
{
    assert forall|k: int| 0 <= k < ends.len() implies (#[trigger] ends[k]) <= timeout_ms
        + slack by {
        assert(spec_attempt_budget(timeout_ms, starts[k]) is Some);
    }
}

/// The message with which the worker reports how one attempt ended, and
/// whether it goes on with another attempt: it does after a failure, as
/// long as time is left, and stops once the key has signed.
pub fn attempt_report<A>(outcome: Result<A, String>) -> (r: (PamReq<A>, bool))
    ensures
        match outcome {
            Ok(assertion) => r.0 == PamReq::Assertion(assertion) && !r.1,
            Err(cause) => r.0 matches PamReq::Failure(text) && text@
                == "Passkey validation error: "@ + cause@ && r.1,
        },
{
    match outcome {
        Ok(assertion) => (PamReq::Assertion(assertion), false),
        Err(cause) => (PamReq::Failure(concat2("Passkey validation error: ", cause.as_str())), true),
    }
}

impl PamWebauthn {
    /// The state at the start of a ceremony.
    pub fn new() -> (r: PamWebauthn)
        ensures
            !r.touch_requested,
    {
        PamWebauthn { touch_requested: false }
    }

    /// Whether a text asks the user to touch the key.
    pub open spec fn asks_for_touch(text: Seq<char>) -> bool {
        occurs_in("Touch"@, text)
    }

    /// What is done with `req`, and whether the user has been asked to
    /// touch the key once it is done.
    pub open spec fn relay<A>(touch_requested: bool, req: PamReq<A>) -> (bool, RelayAction<A>) {
        match req {
            PamReq::Info(text) => {
                if Self::asks_for_touch(text@) {
                    if touch_requested {
                        (true, RelayAction::Skip)
                    } else {
                        (true, RelayAction::Show(text))
                    }
                } else {
                    (touch_requested, RelayAction::ShowAndLog(text))
                }
            },
            PamReq::Failure(text) => (touch_requested, RelayAction::ReportError(text)),
            PamReq::GetPin => (touch_requested, RelayAction::AskPin),
            PamReq::Assertion(assertion) => (touch_requested, RelayAction::Finish(assertion)),
            PamReq::TimedOut => (touch_requested, RelayAction::Abandon),
        }
    }

    /// Handles one message of the worker. Of the requests to touch the key
    /// only the first of a ceremony is shown.
    pub fn perform_auth<A>(&mut self, req: PamReq<A>) -> (r: RelayAction<A>)
        ensures
            (final(self).touch_requested, r) == Self::relay(old(self).touch_requested, req),
    {
        match req {
            PamReq::Info(text) => {
                let shown = chars_of(text.as_str());
                let word = chars_of("Touch");
                if contains(shown.as_slice(), word.as_slice()) {
                    if self.touch_requested {
                        RelayAction::Skip
                    } else {
                        self.touch_requested = true;
                        RelayAction::Show(text)
                    }
                } else {
                    RelayAction::ShowAndLog(text)
                }
            },
            PamReq::Failure(text) => RelayAction::ReportError(text),
            PamReq::GetPin => RelayAction::AskPin,
            PamReq::Assertion(assertion) => RelayAction::Finish(assertion),
            PamReq::TimedOut => RelayAction::Abandon,
        }
    }

    /// Whether the user has been asked to touch the key after `reqs`.
    pub open spec fn touched_after<A>(touch_requested: bool, reqs: Seq<PamReq<A>>) -> bool
        decreases reqs.len(),
    {
        if reqs.len() == 0 {
            touch_requested
        } else {
            Self::relay(Self::touched_after(touch_requested, reqs.drop_last()), reqs.last()).0
        }
    }

    /// The actions that `reqs`, taken in order, bring about.
    pub open spec fn relayed<A>(touch_requested: bool, reqs: Seq<PamReq<A>>) -> Seq<
        RelayAction<A>,
    > {
        Seq::new(
            reqs.len(),
            |i: int| Self::relay(Self::touched_after(touch_requested, reqs.take(i)), reqs[i]).1,
        )
    }

    /// Once the user has been asked to touch the key, this stays known.
    pub proof fn lemma_touch_is_remembered<A>(reqs: Seq<PamReq<A>>)
        ensures
            Self::touched_after(true, reqs),
        decreases reqs.len(),
    {
        if reqs.len() > 0 {
            Self::lemma_touch_is_remembered(reqs.drop_last());
        }
    }

    /// The messages `first` and then `rest` are the messages `first + rest`.
    pub proof fn lemma_touched_after_concat<A>(
        touch_requested: bool,
        first: Seq<PamReq<A>>,
        rest: Seq<PamReq<A>>,
    )
        ensures
            Self::touched_after(touch_requested, first + rest) == Self::touched_after(
                Self::touched_after(touch_requested, first),
                rest,
            ),
        decreases rest.len(),
    {
        if rest.len() == 0 {
            assert(first + rest =~= first);
        } else {
            assert((first + rest).drop_last() =~= first + rest.drop_last());
            assert((first + rest).last() == rest.last());
            Self::lemma_touched_after_concat(touch_requested, first, rest.drop_last());
        }
    }

    /// In one ceremony the user is asked to touch the key at most once,
    /// however often the driver asks; every other message is handed on.
    pub proof fn law_touch_shown_once<A>(reqs: Seq<PamReq<A>>)
        ensures
            ({
                let actions = Self::relayed(false, reqs);
                &&& forall|i: int, j: int|
                    0 <= i < j < actions.len() && (#[trigger] actions[i]) is Show ==> !(
                    #[trigger] actions[j] is Show)
                &&& forall|i: int|
                    0 <= i < actions.len() && (#[trigger] actions[i]) is Skip ==> reqs[i] is Info
                        && Self::asks_for_touch(reqs[i]->Info_0@)
            }),
    {
        let actions = Self::relayed(false, reqs);
        assert forall|i: int, j: int|
            0 <= i < j < actions.len() && (#[trigger] actions[i]) is Show implies !(
        #[trigger] actions[j] is Show) by {
            assert(reqs.take(i + 1).drop_last() =~= reqs.take(i));
            assert(reqs.take(i + 1).last() == reqs[i]);
            assert(Self::touched_after(false, reqs.take(i + 1)));
            let between = reqs.subrange(i + 1, j);
            assert(reqs.take(j) =~= reqs.take(i + 1) + between);
            Self::lemma_touched_after_concat(false, reqs.take(i + 1), between);
            Self::lemma_touch_is_remembered(between);
        }
    }

    /// What to do with the answer to a PIN prompt: an answer is sent to the
    /// worker, no answer means asking again.
    pub fn pin_reply(typed: Option<String>) -> (r: PinAction)
        ensures
            match typed {
                Some(pin) => r == PinAction::Forward(pin),
                None => r == PinAction::AskAgain,
            },
    {
        match typed {
            Some(pin) => PinAction::Forward(pin),
            None => PinAction::AskAgain,
        }
    }

    /// What to do with a report of the transport while a key is looked for.
    pub open spec fn discovery(event: KeyEvent) -> DiscoveryAction {
        match event {
            KeyEvent::Added { usable } => if usable {
                DiscoveryAction::Use
            } else {
                DiscoveryAction::Wait
            },
            KeyEvent::EnumerationComplete => DiscoveryAction::AskToConnect,
            KeyEvent::Removed => DiscoveryAction::Wait,
            KeyEvent::Closed => DiscoveryAction::WatchAgain,
        }
    }

    /// What to do with a report of the transport while a key is looked for.
    /// A device that was attached and can be set up ends the search. That
    /// all devices were looked at and none was found is told to the user;
    /// that a device was taken away is passed over.
    pub fn wait_for_passkey(event: KeyEvent) -> (r: DiscoveryAction)
        ensures
            r == Self::discovery(event),
    {
        match event {
            KeyEvent::Added { usable } => if usable {
                DiscoveryAction::Use
            } else {
                DiscoveryAction::Wait
            },
            KeyEvent::EnumerationComplete => DiscoveryAction::AskToConnect,
            KeyEvent::Removed => DiscoveryAction::Wait,
            KeyEvent::Closed => DiscoveryAction::WatchAgain,
        }
    }

    /// The message with which the driver's request to touch the key is
    /// handed on.
    pub fn request_touch<A>() -> (r: PamReq<A>)
        ensures
            r matches PamReq::Info(text) && text@ == "Touch Passkey"@,
    {
        PamReq::Info(String::from_str("Touch Passkey"))
    }

    /// The message with which the driver's request for the PIN is handed on.
    pub fn request_pin<A>() -> (r: PamReq<A>)
        ensures
            r == PamReq::<A>::GetPin,
    {
        PamReq::GetPin
    }

    /// The message that tells of a key reached through another device.
    pub fn dismiss_qr_code<A>() -> (r: PamReq<A>)
        ensures
            r matches PamReq::Info(text) && text@ == "caBLE authenticator detected, connecting..."@,
    {
        PamReq::Info(String::from_str("caBLE authenticator detected, connecting..."))
    }

    /// The message that tells how the link through another device stands.
    /// `state` is the driver's name for it.
    pub fn cable_status_update<A>(state: &str) -> (r: PamReq<A>)
        ensures
            r matches PamReq::Info(text) && text@ == "caBLE status: "@ + state@,
    {
        PamReq::Info(concat2("caBLE status: ", state))
    }
}

/// What is said of a ceremony in which no key was found in time.
pub const NO_KEY_IN_TIME: &'static str = "timed out waiting for a security key";

/// What is said of a ceremony in which the key did not sign in time.
pub const NOT_SIGNED_IN_TIME: &'static str = "timed out waiting for the security key to sign";

/// What is said of an event that the ceremony did not wait for.
pub const OUT_OF_TURN: &'static str = "the ceremony did not wait for this";

/// Why a ceremony failed.
#[derive(Debug, PartialEq, Eq)]
pub enum MfaFailure {
    /// No key was found within the time for the search.
    NoKeyInTime,
    /// The key did not sign the challenge within the time of the ceremony.
    NotSignedInTime,
    /// A request to the provider failed.
    Provider(AuthError),
    /// An event came that the ceremony did not wait for.
    OutOfTurn,
}

impl MfaFailure {
    /// The kind of failure that this is.
    pub open spec fn spec_kind(&self) -> AuthErrorKind {
        match self {
            MfaFailure::NoKeyInTime => AuthErrorKind::AuthFailed,
            MfaFailure::NotSignedInTime => AuthErrorKind::AuthFailed,
            MfaFailure::Provider(err) => err.kind,
            MfaFailure::OutOfTurn => AuthErrorKind::Internal,
        }
    }

    /// The words for the cause of a failure that is the ceremony's own.
    pub open spec fn spec_cause(&self) -> Option<Seq<char>> {
        match self {
            MfaFailure::NoKeyInTime => Some(NO_KEY_IN_TIME@),
            MfaFailure::NotSignedInTime => Some(NOT_SIGNED_IN_TIME@),
            MfaFailure::Provider(_) => None,
            MfaFailure::OutOfTurn => Some(OUT_OF_TURN@),
        }
    }

    /// Whether `err` tells of this failure: a failure of the provider is
    /// told as it came, one of the ceremony's own by its kind and the words
    /// for its cause.
    pub open spec fn told_by(&self, err: AuthError) -> bool {
        match self {
            MfaFailure::Provider(came) => err == came,
            _ => {
                &&& err.kind == self.spec_kind()
                &&& err.status is None
                &&& err.detail matches Some(detail)
                &&& Some(detail@) == self.spec_cause()
            },
        }
    }

    /// The failure with what is known of its cause, as the attempt takes
    /// it.
    pub fn into_error(self) -> (r: AuthError)
        ensures
            self.told_by(r),
    {
        match self {
            MfaFailure::NoKeyInTime => AuthError {
                kind: AuthErrorKind::AuthFailed,
                status: None,
                detail: Some(String::from_str(NO_KEY_IN_TIME)),
            },
            MfaFailure::NotSignedInTime => AuthError {
                kind: AuthErrorKind::AuthFailed,
                status: None,
                detail: Some(String::from_str(NOT_SIGNED_IN_TIME)),
            },
            MfaFailure::Provider(err) => err,
            MfaFailure::OutOfTurn => AuthError {
                kind: AuthErrorKind::Internal,
                status: None,
                detail: Some(String::from_str(OUT_OF_TURN)),
            },
        }
    }

    /// Every failure of a ceremony's own comes with words for its cause,
    /// and the line in the log ends with them.
    pub proof fn law_failure_names_its_cause(self, err: AuthError)
        requires
            !(self is Provider),
            self.told_by(err),
        ensures
            err.detail matches Some(detail) && detail@.len() > 0 && err.spec_message()
                == err.kind.spec_label() + ": "@ + detail@,
    {
        reveal_strlit("timed out waiting for a security key");
        reveal_strlit("timed out waiting for the security key to sign");
        reveal_strlit("the ceremony did not wait for this");
        let detail = err.detail->0;
        assert(err.kind.spec_label() + Seq::<char>::empty() + (": "@ + detail@)
            =~= err.kind.spec_label() + ": "@ + detail@);
    }
}

/// Where a hardware-key ceremony stands.
#[derive(Debug, PartialEq, Eq)]
pub enum MfaState {
    Idle,
    /// A key is looked for.
    Discovering,
    /// The request that starts the ceremony is on its way.
    Starting,
    /// The key is at work on the challenge.
    Authenticating { code: String, user_id: String },
    /// The request that ends the ceremony is on its way.
    Finishing,
    Succeeded,
    Failed,
    TimedOut,
}

/// What happened since the last action of a ceremony.
#[derive(Debug, PartialEq, Eq)]
pub enum MfaEvent<C, A> {
    /// The ceremony starts.
    Begin,
    /// The search for a key ended: with a key, or because the time for it
    /// ran out.
    Discovered { found: bool },
    /// The answer to the request that starts the ceremony.
    Started(RemoteReply<WebauthnAuthStartResponse<C>>),
    /// How the key's work ended: with an assertion, or without one because
    /// the time ran out.
    Asserted(Option<A>),
    /// The answer to the request that ends the ceremony.
    Finished(RemoteReply<WebauthnServiceReq>),
}

/// What the caller of a ceremony has to do next.
#[derive(Debug, PartialEq, Eq)]
pub enum MfaAction<C, A> {
    /// Ask the user for the key and look for one, for at most
    /// `ceiling_secs` seconds.
    Discover { ceiling_secs: u64 },
    /// Send the request that starts the ceremony.
    SendStart,
    /// Let the key sign the challenge, within `timeout_ms` milliseconds.
    Authenticate { challenge: C, timeout_ms: u32 },
    /// Send the request that ends the ceremony.
    SendFinish { user_id: String, code: String, assertion: A },
    /// The ceremony is over: with the one-time code, or with a failure.
    Done(Result<String, MfaFailure>),
}

impl<C, A> MfaAction<C, A> {
    /// Whether the action sends a request to the provider.
    pub open spec fn is_request(&self) -> bool {
        self is SendStart || self is SendFinish
    }
}

impl RauthyPam {
    /// The state and the action that follow `event` in `state` of a
    /// hardware-key ceremony.
    ///
    /// A key is looked for first. The provider is asked for a challenge only
    /// once a key is there, the key signs it, and the assertion is handed
    /// in for the one-time code. A failure at any stage ends the ceremony;
    /// nothing of it outlasts the call.
    pub open spec fn mfa_step<C, A>(state: MfaState, event: MfaEvent<C, A>) -> (
        MfaState,
        MfaAction<C, A>,
    ) {
        match (state, event) {
            (MfaState::Idle, MfaEvent::Begin) => (
                MfaState::Discovering,
                MfaAction::Discover { ceiling_secs: DISCOVERY_CEILING_SECS },
            ),
            (MfaState::Discovering, MfaEvent::Discovered { found }) => {
                if found {
                    (MfaState::Starting, MfaAction::SendStart)
                } else {
                    (MfaState::TimedOut, MfaAction::Done(Err(MfaFailure::NoKeyInTime)))
                }
            },
            (MfaState::Starting, MfaEvent::Started(reply)) => {
                match mfa_start_result(reply) {
                    Ok(start) => (
                        MfaState::Authenticating { code: start.code, user_id: start.user_id },
                        MfaAction::Authenticate {
                            challenge: start.rcr.options,
                            timeout_ms: match start.rcr.timeout {
                                Some(t) => t,
                                None => DEFAULT_CEREMONY_TIMEOUT_MS,
                            },
                        },
                    ),
                    Err(err) => (MfaState::Failed, MfaAction::Done(Err(MfaFailure::Provider(err)))),
                }
            },
            (MfaState::Authenticating { code, user_id }, MfaEvent::Asserted(signed)) => {
                match signed {
                    Some(assertion) => (
                        MfaState::Finishing,
                        MfaAction::SendFinish { user_id, code, assertion },
                    ),
                    None => (MfaState::TimedOut, MfaAction::Done(Err(MfaFailure::NotSignedInTime))),
                }
            },
            (MfaState::Finishing, MfaEvent::Finished(reply)) => {
                match mfa_finish_result(reply) {
                    Ok(code) => (MfaState::Succeeded, MfaAction::Done(Ok(code))),
                    Err(err) => (MfaState::Failed, MfaAction::Done(Err(MfaFailure::Provider(err)))),
                }
            },
            _ => (MfaState::Failed, MfaAction::Done(Err(MfaFailure::OutOfTurn))),
        }
    }

    /// Takes one step of a hardware-key ceremony: the state and the action
    /// that follow `event` in `state`.
    pub fn perform_mfa<C, A>(state: MfaState, event: MfaEvent<C, A>) -> (r: (MfaState, MfaAction<C, A>))
        ensures
            r == Self::mfa_step(state, event),
    {
        match (state, event) {
            (MfaState::Idle, MfaEvent::Begin) => (
                MfaState::Discovering,
                MfaAction::Discover { ceiling_secs: DISCOVERY_CEILING_SECS },
            ),
            (MfaState::Discovering, MfaEvent::Discovered { found }) => {
                if found {
                    (MfaState::Starting, MfaAction::SendStart)
                } else {
                    (MfaState::TimedOut, MfaAction::Done(Err(MfaFailure::NoKeyInTime)))
                }
            },
            (MfaState::Starting, MfaEvent::Started(reply)) => {
                match read_mfa_start(reply) {
                    Ok(start) => {
                        let timeout_ms = match start.rcr.timeout {
                            Some(t) => t,
                            None => DEFAULT_CEREMONY_TIMEOUT_MS,
                        };
                        (
                            MfaState::Authenticating { code: start.code, user_id: start.user_id },
                            MfaAction::Authenticate { challenge: start.rcr.options, timeout_ms },
                        )
                    },
                    Err(err) => (MfaState::Failed, MfaAction::Done(Err(MfaFailure::Provider(err)))),
                }
            },
            (MfaState::Authenticating { code, user_id }, MfaEvent::Asserted(signed)) => {
                match signed {
                    Some(assertion) => (
                        MfaState::Finishing,
                        MfaAction::SendFinish { user_id, code, assertion },
                    ),
                    None => (MfaState::TimedOut, MfaAction::Done(Err(MfaFailure::NotSignedInTime))),
                }
            },
            (MfaState::Finishing, MfaEvent::Finished(reply)) => {
                match read_mfa_finish(reply) {
                    Ok(code) => (MfaState::Succeeded, MfaAction::Done(Ok(code))),
                    Err(err) => (MfaState::Failed, MfaAction::Done(Err(MfaFailure::Provider(err)))),
                }
            },
            _ => (MfaState::Failed, MfaAction::Done(Err(MfaFailure::OutOfTurn))),
        }
    }

    /// A ceremony in which no key is found in time ends as a failed
    /// authentication that says so, and no request was sent to the provider
    /// for it.
    pub proof fn law_no_key_no_request<C, A>(err: AuthError)
        requires
            MfaFailure::NoKeyInTime.told_by(err),
        ensures
            ({
                let begun = Self::mfa_step::<C, A>(MfaState::Idle, MfaEvent::Begin);
                let ended = Self::mfa_step::<C, A>(begun.0, MfaEvent::Discovered { found: false });
                &&& begun.1 == MfaAction::<C, A>::Discover { ceiling_secs: 20 }
                &&& !begun.1.is_request()
                &&& ended.0 == MfaState::TimedOut
                &&& ended.1 == MfaAction::<C, A>::Done(Err(MfaFailure::NoKeyInTime))
                &&& err.kind == AuthErrorKind::AuthFailed
                &&& err.kind.spec_outcome() == crate::outcome::PamOutcome::AuthError
                &&& err.detail matches Some(detail) && detail@ == NO_KEY_IN_TIME@
            }),
    {
    }
}

impl RauthyPam {
    /// The state of a ceremony that is reached from `state` after `events`,
    /// taken in order.
    pub open spec fn mfa_state_after<C, A>(state: MfaState, events: Seq<MfaEvent<C, A>>) -> MfaState
        decreases events.len(),
    {
        if events.len() == 0 {
            state
        } else {
            Self::mfa_step(Self::mfa_state_after(state, events.drop_last()), events.last()).0
        }
    }

    /// The actions that `events`, taken in order from `state`, bring about
    /// in a ceremony: one for each event.
    pub open spec fn mfa_actions_of<C, A>(state: MfaState, events: Seq<MfaEvent<C, A>>) -> Seq<
        MfaAction<C, A>,
    > {
        Seq::new(
            events.len(),
            |i: int| Self::mfa_step(Self::mfa_state_after(state, events.take(i)), events[i]).1,
        )
    }

    /// Whatever happens in a ceremony, the provider is asked for a
    /// challenge only once a key was found, the key is put to work only on
    /// a challenge that the provider gave, and an assertion is handed in
    /// only if the key has signed one: it is the key's assertion, for the
    /// user and under the code that came with the challenge.
    pub proof fn law_ceremony_keeps_its_order<C, A>(state: MfaState, events: Seq<MfaEvent<C, A>>)
        ensures
            ({
                let actions = Self::mfa_actions_of(state, events);
                forall|i: int|
                    0 <= i < actions.len() ==> {
                        let before = Self::mfa_state_after(state, events.take(i));
                        &&& (#[trigger] actions[i]) is SendStart ==> before == MfaState::Discovering
                            && events[i] == (MfaEvent::<C, A>::Discovered { found: true })
                        &&& actions[i] matches MfaAction::Authenticate { challenge, timeout_ms }
                            ==> before == MfaState::Starting && events[i] is Started
                            && events[i]->Started_0 is Decoded
                            && events[i]->Started_0->Decoded_0.rcr.options == challenge
                        &&& actions[i] matches MfaAction::SendFinish { user_id, code, assertion }
                            ==> before == (MfaState::Authenticating { code, user_id })
                            && events[i] == MfaEvent::<C, A>::Asserted(Some(assertion))
                        &&& actions[i] matches MfaAction::Done(Ok(code)) ==> before
                            == MfaState::Finishing && events[i] is Finished
                            && events[i]->Finished_0 is Decoded
                    }
            }),
    {
    }
}


impl MfaState {
    /// How far a ceremony has come: a number that grows with every step
    /// until the ceremony is over.
    pub open spec fn progress(self) -> nat {
        match self {
            MfaState::Idle => 0,
            MfaState::Discovering => 1,
            MfaState::Starting => 2,
            MfaState::Authenticating { .. } => 3,
            MfaState::Finishing => 4,
            MfaState::Succeeded => 5,
            MfaState::Failed => 5,
            MfaState::TimedOut => 5,
        }
    }

    /// Whether the ceremony is over.
    pub open spec fn is_over(self) -> bool {
        self is Succeeded || self is Failed || self is TimedOut
    }
}

impl<C, A> MfaAction<C, A> {
    /// How far a ceremony must have come for the action to be asked for,
    /// for the actions that go on with the ceremony.
    pub open spec fn stage(self) -> Option<nat> {
        match self {
            MfaAction::Discover { .. } => Some(0),
            MfaAction::SendStart => Some(1),
            MfaAction::Authenticate { .. } => Some(2),
            MfaAction::SendFinish { .. } => Some(3),
            MfaAction::Done(_) => None,
        }
    }
}

impl RauthyPam {
    /// Every step takes the ceremony further, or ends it; and an action
    /// that goes on with the ceremony is asked for only at its own stage.
    pub proof fn lemma_mfa_step_advances<C, A>(state: MfaState, event: MfaEvent<C, A>)
        ensures
            ({
                let after = Self::mfa_step(state, event);
                &&& after.0.progress() > state.progress() || after.0.is_over()
                &&& after.0.progress() >= state.progress()
                &&& after.1.stage() matches Some(k) ==> state.progress() == k
                    && after.0.progress() > k
            }),
    {
    }

    /// A ceremony never falls back.
    pub proof fn lemma_mfa_progress_grows<C, A>(
        state: MfaState,
        events: Seq<MfaEvent<C, A>>,
        i: int,
        j: int,
    )
        requires
            0 <= i <= j <= events.len(),
        ensures
            Self::mfa_state_after(state, events.take(i)).progress() <= Self::mfa_state_after(
                state,
                events.take(j),
            ).progress(),
        decreases j - i,
    {
        if i < j {
            Self::lemma_mfa_progress_grows(state, events, i, j - 1);
            assert(events.take(j).drop_last() =~= events.take(j - 1));
            assert(events.take(j).last() == events[j - 1]);
            Self::lemma_mfa_step_advances(
                Self::mfa_state_after(state, events.take(j - 1)),
                events[j - 1],
            );
        }
    }

    /// In one ceremony a key is looked for at most once, the provider is
    /// sent at most one request that starts the ceremony and at most one
    /// that ends it, and the key is put to work at most once; and they
    /// come in this order: none of them is asked for twice, and none after
    /// one of a later stage.
    pub proof fn law_ceremony_asks_once<C, A>(state: MfaState, events: Seq<MfaEvent<C, A>>)
        ensures
            ({
                let actions = Self::mfa_actions_of(state, events);
                &&& forall|i: int, j: int|
                    0 <= i < j < actions.len() && (#[trigger] actions[i]).stage() is Some && (
                    #[trigger] actions[j]).stage() is Some ==> actions[i].stage()->0
                        < actions[j].stage()->0
                &&& forall|i: int, j: int|
                    0 <= i < j < actions.len() && (#[trigger] actions[i]) is SendStart ==> !(
                    #[trigger] actions[j] is SendStart)
                &&& forall|i: int, j: int|
                    0 <= i < j < actions.len() && (#[trigger] actions[i]) is SendFinish ==> !(
                    #[trigger] actions[j] is SendFinish)
            }),
    {
        let actions = Self::mfa_actions_of(state, events);
        assert forall|i: int, j: int|
            0 <= i < j < actions.len() && (#[trigger] actions[i]).stage() is Some && (
            #[trigger] actions[j]).stage() is Some implies actions[i].stage()->0
            < actions[j].stage()->0 by {
            let before_i = Self::mfa_state_after(state, events.take(i));
            let before_j = Self::mfa_state_after(state, events.take(j));
            Self::lemma_mfa_step_advances(before_i, events[i]);
            Self::lemma_mfa_step_advances(before_j, events[j]);
            assert(events.take(i + 1).drop_last() =~= events.take(i));
            assert(events.take(i + 1).last() == events[i]);
            Self::lemma_mfa_progress_grows(state, events, i + 1, j);
        }
        assert forall|i: int, j: int|
            0 <= i < j < actions.len() && (#[trigger] actions[i]) is SendStart implies !(
        #[trigger] actions[j] is SendStart) by {
            if actions[j] is SendStart {
                assert(actions[i].stage() is Some && actions[j].stage() is Some);
            }
        }
        assert forall|i: int, j: int|
            0 <= i < j < actions.len() && (#[trigger] actions[i]) is SendFinish implies !(
        #[trigger] actions[j] is SendFinish) by {
            if actions[j] is SendFinish {
                assert(actions[i].stage() is Some && actions[j].stage() is Some);
            }
        }
    }
}


} // verus!
