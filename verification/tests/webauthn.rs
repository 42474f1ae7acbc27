use rauthy_pam_nss::api_types::{HardwareChallenge, WebauthnAuthStartResponse, WebauthnServiceReq};
use rauthy_pam_nss::outcome::AuthErrorKind;
use rauthy_pam_nss::pam::webauthn::{
    attempt_budget, attempt_report, DiscoveryAction, KeyEvent, MfaAction, MfaEvent, MfaFailure,
    MfaState, PamReq, PamWebauthn, PinAction, RelayAction, DEFAULT_CEREMONY_TIMEOUT_MS,
    DISCOVERY_CEILING_SECS,
};
use rauthy_pam_nss::pam::RauthyPam;
use rauthy_pam_nss::remote::{mfa_finish, mfa_start, RemoteReply};

type Event = MfaEvent<String, String>;
type Action = MfaAction<String, String>;

fn started(timeout: Option<u32>) -> Event {
    MfaEvent::Started(RemoteReply::Decoded(WebauthnAuthStartResponse {
        code: "code-1".to_string(),
        rcr: HardwareChallenge { timeout, options: "challenge".to_string() },
        user_id: "user-1".to_string(),
    }))
}

#[test]
fn ceremony_runs_from_discovery_to_the_code() {
    let (state, action): (MfaState, Action) = RauthyPam::perform_mfa(MfaState::Idle, MfaEvent::Begin);
    assert!(matches!(state, MfaState::Discovering));
    assert!(matches!(action, MfaAction::Discover { ceiling_secs: 20 }));
    assert_eq!(DISCOVERY_CEILING_SECS, 20);

    let (state, action): (MfaState, Action) =
        RauthyPam::perform_mfa(state, MfaEvent::Discovered { found: true });
    assert!(matches!(state, MfaState::Starting));
    assert!(matches!(action, MfaAction::SendStart));
    let request = mfa_start("https://iam.example.com/", "bob");
    assert_eq!(request.url, "https://iam.example.com/auth/v1/pam/mfa/start");
    assert_eq!(request.body.username, "bob");

    let (state, action): (MfaState, Action) = RauthyPam::perform_mfa(state, started(Some(30_000)));
    match action {
        MfaAction::Authenticate { challenge, timeout_ms } => {
            assert_eq!(challenge, "challenge");
            assert_eq!(timeout_ms, 30_000);
        }
        other => panic!("unexpected action {other:?}"),
    }

    let (state, action): (MfaState, Action) =
        RauthyPam::perform_mfa(state, MfaEvent::Asserted(Some("signed".to_string())));
    assert!(matches!(state, MfaState::Finishing));
    match action {
        MfaAction::SendFinish { user_id, code, assertion } => {
            let request = mfa_finish("https://iam.example.com/", user_id, code, assertion);
            assert_eq!(request.url, "https://iam.example.com/auth/v1/pam/mfa/finish");
            assert_eq!(request.body.user_id, "user-1");
            assert_eq!(request.body.data.code, "code-1");
            assert_eq!(request.body.data.data, "signed");
        }
        other => panic!("unexpected action {other:?}"),
    }

    let (state, action): (MfaState, Action) = RauthyPam::perform_mfa(
        state,
        MfaEvent::Finished(RemoteReply::Decoded(WebauthnServiceReq { code: "svc".to_string() })),
    );
    assert!(matches!(state, MfaState::Succeeded));
    match action {
        MfaAction::Done(Ok(code)) => assert_eq!(code, "svc"),
        other => panic!("unexpected action {other:?}"),
    }
}

#[test]
fn no_key_before_the_ceiling_fails_without_a_request() {
    let (state, action): (MfaState, Action) = RauthyPam::perform_mfa(MfaState::Idle, MfaEvent::Begin);
    assert!(matches!(action, MfaAction::Discover { ceiling_secs: 20 }));
    let (state, action): (MfaState, Action) =
        RauthyPam::perform_mfa(state, MfaEvent::Discovered { found: false });
    assert!(matches!(state, MfaState::TimedOut));
    match action {
        MfaAction::Done(Err(failure)) => {
            assert_eq!(failure, MfaFailure::NoKeyInTime);
            let err = failure.into_error();
            assert_eq!(err.kind, AuthErrorKind::AuthFailed);
            assert_eq!(err.status, None);
            assert_eq!(err.detail.as_deref(), Some("timed out waiting for a security key"));
            assert_eq!(
                err.message(),
                "authentication failed: timed out waiting for a security key"
            );
        }
        other => panic!("unexpected action {other:?}"),
    }
}

#[test]
fn ceremony_without_a_named_time_gets_a_minute() {
    let (_, action): (MfaState, Action) = RauthyPam::perform_mfa(MfaState::Starting, started(None));
    assert_eq!(DEFAULT_CEREMONY_TIMEOUT_MS, 60_000);
    assert!(matches!(action, MfaAction::Authenticate { timeout_ms: 60_000, .. }));
}

#[test]
fn ceremony_fails_where_a_stage_fails() {
    let (state, action): (MfaState, Action) = RauthyPam::perform_mfa(
        MfaState::Starting,
        MfaEvent::Started(RemoteReply::Refused { status: 404, body: "no user".to_string() }),
    );
    assert!(matches!(state, MfaState::Failed));
    match action {
        MfaAction::Done(Err(MfaFailure::Provider(err))) => {
            assert_eq!(err.kind, AuthErrorKind::Protocol);
            assert_eq!(err.status, Some(404));
            assert_eq!(MfaFailure::Provider(err.clone()).into_error(), err);
        }
        other => panic!("unexpected action {other:?}"),
    }
    let (state, action): (MfaState, Action) = RauthyPam::perform_mfa(
        MfaState::Authenticating { code: "c".to_string(), user_id: "u".to_string() },
        MfaEvent::Asserted(None),
    );
    assert!(matches!(state, MfaState::TimedOut));
    match action {
        MfaAction::Done(Err(failure)) => {
            assert_eq!(failure, MfaFailure::NotSignedInTime);
            let err = failure.into_error();
            assert_eq!(err.kind, AuthErrorKind::AuthFailed);
            assert_eq!(err.status, None);
            assert_eq!(
                err.detail.as_deref(),
                Some("timed out waiting for the security key to sign")
            );
        }
        other => panic!("unexpected action {other:?}"),
    }
    let (state, action): (MfaState, Action) = RauthyPam::perform_mfa(
        MfaState::Finishing,
        MfaEvent::Finished(RemoteReply::Transport { seen: None, cause: "down".to_string() }),
    );
    assert!(matches!(state, MfaState::Failed));
    match action {
        MfaAction::Done(Err(MfaFailure::Provider(err))) => {
            assert_eq!(err.kind, AuthErrorKind::Connection)
        }
        other => panic!("unexpected action {other:?}"),
    }
    let (state, action): (MfaState, Action) =
        RauthyPam::perform_mfa(MfaState::Idle, MfaEvent::Asserted(Some("x".to_string())));
    assert!(matches!(state, MfaState::Failed));
    match action {
        MfaAction::Done(Err(failure)) => {
            assert_eq!(failure, MfaFailure::OutOfTurn);
            let err = failure.into_error();
            assert_eq!(err.kind, AuthErrorKind::Internal);
            assert_eq!(err.detail.as_deref(), Some("the ceremony did not wait for this"));
        }
        other => panic!("unexpected action {other:?}"),
    }
}

#[test]
fn each_attempt_gets_what_is_left_of_the_time() {
    assert_eq!(attempt_budget(60_000, 0), Some(60_000));
    assert_eq!(attempt_budget(60_000, 1), Some(59_999));
    assert_eq!(attempt_budget(60_000, 59_999), Some(1));
    assert_eq!(attempt_budget(60_000, 60_000), None);
    assert_eq!(attempt_budget(60_000, 60_001), None);
    assert_eq!(attempt_budget(60_000, u64::MAX), None);
    assert_eq!(attempt_budget(0, 0), None);
    assert_eq!(attempt_budget(u32::MAX, 0), Some(u32::MAX));
}

#[test]
fn failing_attempts_do_not_outlast_the_timeout() {
    // every attempt fails after using its whole share and `slack` more
    let timeout: u32 = 5_000;
    let slack: u64 = 250;
    let mut elapsed: u64 = 0;
    let mut attempts = 0;
    while let Some(budget) = attempt_budget(timeout, elapsed) {
        attempts += 1;
        let took = (budget as u64).min(1_200) + slack;
        elapsed += took;
        assert!(elapsed <= timeout as u64 + slack);
        assert!(attempts < 100);
    }
    assert!(elapsed >= timeout as u64);
    assert!(elapsed <= timeout as u64 + slack);
}

#[test]
fn attempts_are_reported() {
    let (ok, again): (PamReq<String>, bool) = attempt_report(Ok("signed".to_string()));
    assert_eq!(ok, PamReq::Assertion("signed".to_string()));
    assert!(!again);
    let (failed, again): (PamReq<String>, bool) = attempt_report(Err("no touch".to_string()));
    assert_eq!(failed, PamReq::Failure("Passkey validation error: no touch".to_string()));
    assert!(again);
}

#[test]
fn touch_is_asked_for_once() {
    let mut ui = PamWebauthn::new();
    assert!(!ui.touch_requested);
    let first = ui.perform_auth::<String>(PamWebauthn::request_touch());
    match first {
        RelayAction::Show(text) => assert_eq!(text, "Touch Passkey"),
        other => panic!("unexpected action {other:?}"),
    }
    assert!(ui.touch_requested);
    for _ in 0..5 {
        let again = ui.perform_auth::<String>(PamWebauthn::request_touch());
        assert!(matches!(again, RelayAction::Skip));
    }
    let other = ui.perform_auth::<String>(PamReq::Info("Please Touch now".to_string()));
    assert!(matches!(other, RelayAction::Skip));
}

#[test]
fn other_messages_are_handed_on() {
    let mut ui = PamWebauthn::new();
    match ui.perform_auth::<String>(PamWebauthn::dismiss_qr_code()) {
        RelayAction::ShowAndLog(text) => {
            assert_eq!(text, "caBLE authenticator detected, connecting...")
        }
        other => panic!("unexpected action {other:?}"),
    }
    match ui.perform_auth::<String>(PamWebauthn::cable_status_update("Connected")) {
        RelayAction::ShowAndLog(text) => assert_eq!(text, "caBLE status: Connected"),
        other => panic!("unexpected action {other:?}"),
    }
    assert!(!ui.touch_requested);
    match ui.perform_auth::<String>(PamReq::Info("touch in lower case".to_string())) {
        RelayAction::ShowAndLog(_) => {}
        other => panic!("unexpected action {other:?}"),
    }
    match ui.perform_auth::<String>(PamReq::Failure("broken".to_string())) {
        RelayAction::ReportError(text) => assert_eq!(text, "broken"),
        other => panic!("unexpected action {other:?}"),
    }
    assert!(matches!(
        ui.perform_auth::<String>(PamWebauthn::request_pin()),
        RelayAction::AskPin
    ));
    match ui.perform_auth(PamReq::Assertion("signed".to_string())) {
        RelayAction::Finish(a) => assert_eq!(a, "signed"),
        other => panic!("unexpected action {other:?}"),
    }
    assert!(matches!(ui.perform_auth::<String>(PamReq::TimedOut), RelayAction::Abandon));
    assert!(!ui.touch_requested);
}

#[test]
fn pin_is_asked_for_until_there_is_an_answer() {
    assert_eq!(PamWebauthn::pin_reply(None), PinAction::AskAgain);
    assert_eq!(
        PamWebauthn::pin_reply(Some("1234".to_string())),
        PinAction::Forward("1234".to_string())
    );
    assert_eq!(
        PamWebauthn::pin_reply(Some(String::new())),
        PinAction::Forward(String::new())
    );
}

#[test]
fn discovery_uses_the_first_usable_device() {
    assert_eq!(
        PamWebauthn::wait_for_passkey(KeyEvent::Added { usable: true }),
        DiscoveryAction::Use
    );
    assert_eq!(
        PamWebauthn::wait_for_passkey(KeyEvent::Added { usable: false }),
        DiscoveryAction::Wait
    );
    assert_eq!(
        PamWebauthn::wait_for_passkey(KeyEvent::EnumerationComplete),
        DiscoveryAction::AskToConnect
    );
    assert_eq!(PamWebauthn::wait_for_passkey(KeyEvent::Removed), DiscoveryAction::Wait);
    assert_eq!(PamWebauthn::wait_for_passkey(KeyEvent::Closed), DiscoveryAction::WatchAgain);
}

#[test]
fn a_ceremony_sends_each_request_at_most_once() {
    let finished = || -> Event {
        MfaEvent::Finished(RemoteReply::Decoded(WebauthnServiceReq { code: "svc".to_string() }))
    };
    let runs: Vec<Vec<Event>> = vec![
        vec![
            MfaEvent::Begin,
            MfaEvent::Discovered { found: true },
            started(Some(30_000)),
            MfaEvent::Asserted(Some("signed".to_string())),
            finished(),
        ],
        vec![
            MfaEvent::Begin,
            MfaEvent::Begin,
            MfaEvent::Discovered { found: true },
            MfaEvent::Discovered { found: true },
            started(None),
            started(None),
            MfaEvent::Asserted(Some("signed".to_string())),
            MfaEvent::Asserted(Some("signed".to_string())),
            finished(),
            finished(),
        ],
        vec![
            MfaEvent::Discovered { found: true },
            MfaEvent::Begin,
            MfaEvent::Discovered { found: true },
            started(None),
        ],
        vec![
            MfaEvent::Begin,
            MfaEvent::Discovered { found: true },
            started(None),
            MfaEvent::Asserted(Some("signed".to_string())),
            MfaEvent::Asserted(Some("signed".to_string())),
            MfaEvent::Begin,
            MfaEvent::Discovered { found: true },
        ],
    ];
    for events in runs {
        let mut state = MfaState::Idle;
        let mut starts = 0;
        let mut finishes = 0;
        for event in events {
            let (next, action): (MfaState, Action) = RauthyPam::perform_mfa(state, event);
            match action {
                MfaAction::SendStart => starts += 1,
                MfaAction::SendFinish { .. } => finishes += 1,
                _ => {}
            }
            state = next;
        }
        assert!(starts <= 1);
        assert!(finishes <= 1);
    }
}
