use rauthy_pam_nss::api_types::PamPreflightResponse;
use rauthy_pam_nss::config::Config;
use rauthy_pam_nss::outcome::{AuthError, AuthErrorKind, PamOutcome};
use rauthy_pam_nss::pam::auth::{AuthAction, AuthEvent, AuthState, Credential};
use rauthy_pam_nss::pam::token::PamToken;
use rauthy_pam_nss::pam::webauthn::MfaFailure;
use rauthy_pam_nss::pam::{PamService, RauthyPam};
use rauthy_pam_nss::remote::RemoteReply;

fn config() -> Config {
    Config {
        rauthy_url: "https://iam.example.com/".to_string(),
        host_id: "host-1".to_string(),
        host_secret: "SECRET-REDACTED".to_string(),
        data_path: "/var/lib/pam_rauthy".to_string(),
        home_dir_skel: None,
        exec_session_open: None,
        exec_session_close: None,
    }
}

fn attempt(username: &str, service: PamService, remote_marker: bool) -> RauthyPam {
    RauthyPam { config: config(), username: username.to_string(), service, remote_marker }
}

fn token(username: &str) -> PamToken {
    PamToken {
        id: "tok".to_string(),
        exp: 4_000_000_000,
        user_id: "uid-1".to_string(),
        user_email: format!("{username}@example.com"),
        uid: 100_001,
        gid: 100_001,
        username: username.to_string(),
        roles: vec![],
        groups: vec![],
    }
}

fn preflight(login_allowed: bool, local_password_only: bool, mfa_required: bool) -> AuthEvent {
    AuthEvent::Preflight(RemoteReply::Decoded(PamPreflightResponse {
        login_allowed,
        local_password_only,
        mfa_required,
    }))
}

#[test]
fn alice_logs_in_with_a_password() {
    let pam = attempt("alice", PamService::Login, false);
    let (state, action) = pam.handle_authenticate(AuthState::Idle, AuthEvent::Begin);
    assert!(matches!(action, AuthAction::SendPreflight));
    let request = pam.preflight_request();
    assert_eq!(request.url, "https://iam.example.com/auth/v1/pam/preflight");
    assert_eq!(request.body.username, "alice");
    assert_eq!(request.body.host_id, "host-1");
    assert_eq!(request.body.host_secret, "SECRET-REDACTED");

    let (state, action) = pam.handle_authenticate(state, preflight(true, false, false));
    assert!(matches!(action, AuthAction::PromptPassword { remote: false }));
    assert_eq!(RauthyPam::prompt_label(false), "Password");
    assert_eq!(RauthyPam::password_prompt(false), "Password: ");

    let (state, action) =
        pam.handle_authenticate(state, AuthEvent::Password(Some("correct".to_string())));
    let credential = match action {
        AuthAction::SendLogin { credential } => credential,
        other => panic!("unexpected action {other:?}"),
    };
    let login = pam.login_request(credential);
    assert_eq!(login.url, "https://iam.example.com/auth/v1/pam/login");
    assert_eq!(login.body.username, "alice");
    assert_eq!(login.body.password.as_deref(), Some("correct"));
    assert_eq!(login.body.remote_password, None);
    assert_eq!(login.body.webauthn_code, None);

    let (state, action) =
        pam.handle_authenticate(state, AuthEvent::Login(RemoteReply::Decoded(token("alice"))));
    assert!(matches!(state, AuthState::AwaitStore { mfa_required: false }));
    assert_eq!(action.outcome(), None);
    let stored = match action {
        AuthAction::Persist { token, mfa_required } => {
            assert!(!mfa_required);
            token
        }
        other => panic!("unexpected action {other:?}"),
    };
    assert_eq!(stored.username, "alice");

    let (state, action) = pam.handle_authenticate(state, AuthEvent::Stored { written: true });
    assert!(matches!(state, AuthState::Finished));
    assert!(matches!(action, AuthAction::Succeed { mfa_required: false }));
    assert_eq!(action.outcome(), Some(PamOutcome::Success));
    assert_eq!(
        pam.success_message(false),
        "Rauthy PAM Password Login successful for user alice"
    );

    // the home directory is provided once: where it is there, nothing is done
    let first = stored.create_home_dir(false, false);
    assert_eq!(first.len(), 4);
    let second = stored.create_home_dir(true, false);
    assert!(second.is_empty());
}

#[test]
fn bob_over_ssh_skips_the_hardware_key() {
    let pam = attempt("bob", PamService::Ssh, false);
    let (state, _) = pam.handle_authenticate(AuthState::Idle, AuthEvent::Begin);
    let (state, action) = pam.handle_authenticate(state, preflight(true, false, true));
    assert!(matches!(action, AuthAction::PromptPassword { remote: true }));
    assert_eq!(RauthyPam::prompt_label(true), "Remote Password");
    assert_eq!(RauthyPam::password_prompt(true), "Remote Password: ");

    let (state, action) =
        pam.handle_authenticate(state, AuthEvent::Password(Some("pw".to_string())));
    assert!(matches!(state, AuthState::AwaitLogin { mfa_required: true }));
    let credential = match action {
        AuthAction::SendLogin { credential } => credential,
        other => panic!("unexpected action {other:?}"),
    };
    assert!(matches!(credential, Credential::RemotePassword(_)));
    let login = pam.login_request(credential);
    assert_eq!(login.body.remote_password.as_deref(), Some("pw"));
    assert_eq!(login.body.password, None);
    assert_eq!(login.body.webauthn_code, None);
}

#[test]
fn failed_ceremony_fails_the_login_without_a_login_request() {
    let pam = attempt("carol", PamService::Login, false);
    let (state, _) = pam.handle_authenticate(AuthState::Idle, AuthEvent::Begin);
    let (state, action) = pam.handle_authenticate(state, preflight(true, false, true));
    assert!(matches!(state, AuthState::AwaitMfa));
    assert!(matches!(action, AuthAction::RunMfa));

    let timed_out = AuthError { kind: AuthErrorKind::AuthFailed, status: None, detail: None };
    let (state, action) = pam.handle_authenticate(state, AuthEvent::Mfa(Err(timed_out)));
    assert!(matches!(state, AuthState::Finished));
    assert_eq!(action.outcome(), Some(PamOutcome::AuthError));
    match action {
        AuthAction::Fail(err) => assert_eq!(err.kind, AuthErrorKind::AuthFailed),
        other => panic!("unexpected action {other:?}"),
    }
}

#[test]
fn denied_login_never_prompts() {
    for service in [PamService::Login, PamService::Ssh, PamService::Sudo, PamService::Unknown] {
        for mfa in [false, true] {
            for local in [false, true] {
                let pam = attempt("dave", service_copy(&service), false);
                let (state, _) = pam.handle_authenticate(AuthState::Idle, AuthEvent::Begin);
                let (state, action) = pam.handle_authenticate(state, preflight(false, local, mfa));
                assert!(matches!(state, AuthState::Finished));
                assert_eq!(action.outcome(), Some(PamOutcome::CredentialsInsufficient));
                match action {
                    AuthAction::Fail(err) => {
                        assert_eq!(err.kind, AuthErrorKind::AccessDenied);
                        assert_eq!(err.message(), "login denied");
                        assert_eq!(
                            pam.failure_message(&err),
                            "Rauthy PAM login failed for user dave: login denied"
                        );
                    }
                    other => panic!("unexpected action {other:?}"),
                }
                // whatever comes afterwards, nothing is asked
                let (state, action) = pam.handle_authenticate(
                    AuthState::Finished,
                    AuthEvent::Password(Some("pw".to_string())),
                );
                assert!(matches!(state, AuthState::Finished));
                assert!(matches!(action, AuthAction::Fail(_)));
            }
        }
    }
}

fn service_copy(service: &PamService) -> PamService {
    match service {
        PamService::Login => PamService::Login,
        PamService::Ssh => PamService::Ssh,
        PamService::Sudo => PamService::Sudo,
        PamService::Su => PamService::Su,
        PamService::Other(s) => PamService::Other(s.clone()),
        PamService::Unknown => PamService::Unknown,
    }
}

#[test]
fn local_password_only_forces_the_password_for_login() {
    let pam = attempt("erin", PamService::Login, false);
    let (_, action) =
        pam.handle_authenticate(AuthState::AwaitPreflight, preflight(true, true, true));
    assert!(matches!(action, AuthAction::PromptPassword { remote: false }));
    for service in [PamService::Sudo, PamService::Su] {
        let pam = attempt("erin", service, false);
        let (_, action) =
            pam.handle_authenticate(AuthState::AwaitPreflight, preflight(true, true, true));
        assert!(matches!(action, AuthAction::PromptPassword { remote: false }));
    }
}

#[test]
fn local_password_only_does_not_count_for_other_services() {
    let pam = attempt("erin", PamService::Other("cron".to_string()), false);
    assert!(!pam.is_local_password_only(PamPreflightResponse {
        login_allowed: true,
        local_password_only: true,
        mfa_required: true,
    }));
    let (state, action) =
        pam.handle_authenticate(AuthState::AwaitPreflight, preflight(true, true, true));
    assert!(matches!(state, AuthState::AwaitMfa));
    assert!(matches!(action, AuthAction::RunMfa));
}

#[test]
fn remote_marker_makes_sudo_remote() {
    let pam = attempt("frank", PamService::Sudo, true);
    assert!(pam.is_remote());
    let (_, action) =
        pam.handle_authenticate(AuthState::AwaitPreflight, preflight(true, false, true));
    assert!(matches!(action, AuthAction::PromptPassword { remote: true }));
    let pam = attempt("frank", PamService::Sudo, false);
    assert!(!pam.is_remote());
}

#[test]
fn mfa_code_goes_into_the_login_request() {
    let pam = attempt("gina", PamService::Login, false);
    let (state, action) =
        pam.handle_authenticate(AuthState::AwaitMfa, AuthEvent::Mfa(Ok("one-time".to_string())));
    assert!(matches!(state, AuthState::AwaitLogin { mfa_required: true }));
    let credential = match action {
        AuthAction::SendLogin { credential } => credential,
        other => panic!("unexpected action {other:?}"),
    };
    let login = pam.login_request(credential);
    assert_eq!(login.body.webauthn_code.as_deref(), Some("one-time"));
    assert_eq!(login.body.password, None);
    assert_eq!(login.body.remote_password, None);
    assert_eq!(
        pam.success_message(true),
        "Rauthy PAM MFA Login successful for user gina"
    );
}

#[test]
fn absent_or_empty_password_is_unavailable() {
    let pam = attempt("hank", PamService::Login, false);
    for typed in [None, Some(String::new())] {
        let (state, action) = pam.handle_authenticate(
            AuthState::AwaitPassword { remote: false, mfa_required: false },
            AuthEvent::Password(typed),
        );
        assert!(matches!(state, AuthState::Finished));
        assert_eq!(action.outcome(), Some(PamOutcome::CredentialsUnavailable));
        match action {
            AuthAction::Fail(err) => assert_eq!(err.kind, AuthErrorKind::Unavailable),
            other => panic!("unexpected action {other:?}"),
        }
    }
}

#[test]
fn preflight_failures_are_service_errors() {
    let pam = attempt("ivy", PamService::Login, false);
    let (_, action) = pam.handle_authenticate(
        AuthState::AwaitPreflight,
        AuthEvent::Preflight(RemoteReply::Transport {
            seen: Some(504),
            cause: "timed out".to_string(),
        }),
    );
    assert_eq!(action.outcome(), Some(PamOutcome::ServiceError));
    match action {
        AuthAction::Fail(err) => {
            assert_eq!(err.kind, AuthErrorKind::Connection);
            assert_eq!(err.message(), "connection error (HTTP 504): timed out");
        }
        other => panic!("unexpected action {other:?}"),
    }
    let (_, action) = pam.handle_authenticate(
        AuthState::AwaitPreflight,
        AuthEvent::Preflight(RemoteReply::Undecodable { cause: "bad json".to_string() }),
    );
    match action {
        AuthAction::Fail(err) => {
            assert_eq!(err.kind, AuthErrorKind::Protocol);
            assert_eq!(err.status, None);
            assert_eq!(err.message(), "unexpected answer: bad json");
        }
        other => panic!("unexpected action {other:?}"),
    }
    let (_, action) = pam.handle_authenticate(
        AuthState::AwaitPreflight,
        AuthEvent::Preflight(RemoteReply::Refused { status: 500, body: "boom".to_string() }),
    );
    match action {
        AuthAction::Fail(err) => {
            assert_eq!(err.kind, AuthErrorKind::Protocol);
            assert_eq!(err.status, Some(500));
        }
        other => panic!("unexpected action {other:?}"),
    }
}

#[test]
fn login_failures_are_auth_errors_and_store_nothing() {
    let pam = attempt("jack", PamService::Login, false);
    let replies = vec![
        RemoteReply::Refused { status: 401, body: "bad credentials".to_string() },
        RemoteReply::Transport { seen: None, cause: "connection refused".to_string() },
        RemoteReply::Undecodable { cause: "garbage".to_string() },
    ];
    for reply in replies {
        let (state, action) = pam.handle_authenticate(
            AuthState::AwaitLogin { mfa_required: false },
            AuthEvent::Login(reply),
        );
        assert!(matches!(state, AuthState::Finished));
        assert_eq!(action.outcome(), Some(PamOutcome::AuthError));
        assert!(!matches!(action, AuthAction::Persist { .. }));
    }
}

#[test]
fn unexpected_event_is_an_internal_failure() {
    let pam = attempt("kim", PamService::Login, false);
    let (state, action) =
        pam.handle_authenticate(AuthState::Idle, AuthEvent::Password(Some("x".to_string())));
    assert!(matches!(state, AuthState::Finished));
    match action {
        AuthAction::Fail(err) => assert_eq!(err.kind, AuthErrorKind::Internal),
        other => panic!("unexpected action {other:?}"),
    }
}

#[test]
fn outcomes_of_the_kinds_of_failure() {
    assert_eq!(AuthErrorKind::Connection.outcome(), PamOutcome::ServiceError);
    assert_eq!(AuthErrorKind::Protocol.outcome(), PamOutcome::ServiceError);
    assert_eq!(AuthErrorKind::AccessDenied.outcome(), PamOutcome::CredentialsInsufficient);
    assert_eq!(AuthErrorKind::AuthFailed.outcome(), PamOutcome::AuthError);
    assert_eq!(AuthErrorKind::Unavailable.outcome(), PamOutcome::CredentialsUnavailable);
    assert_eq!(AuthErrorKind::Internal.outcome(), PamOutcome::ServiceError);
}

#[test]
fn only_a_successful_login_stores_a_token_and_only_once() {
    let pam = attempt("lea", PamService::Login, false);
    let events = vec![
        AuthEvent::Begin,
        preflight(true, false, false),
        AuthEvent::Password(Some("pw".to_string())),
        AuthEvent::Login(RemoteReply::Decoded(token("lea"))),
        AuthEvent::Stored { written: true },
        AuthEvent::Login(RemoteReply::Decoded(token("lea"))),
        AuthEvent::Stored { written: true },
        AuthEvent::Begin,
    ];
    let mut state = AuthState::Idle;
    let mut stored = 0;
    let mut succeeded = 0;
    for event in events {
        let (next, action) = pam.handle_authenticate(state, event);
        if matches!(action, AuthAction::Persist { .. }) {
            stored += 1;
        }
        if action.outcome() == Some(PamOutcome::Success) {
            succeeded += 1;
        }
        state = next;
    }
    assert_eq!(stored, 1);
    assert_eq!(succeeded, 1);
}

#[test]
fn a_login_whose_token_was_not_written_fails() {
    for mfa_required in [false, true] {
        let pam = attempt("lea", PamService::Login, false);
        let (state, action) = pam.handle_authenticate(
            AuthState::AwaitStore { mfa_required },
            AuthEvent::Stored { written: false },
        );
        assert!(matches!(state, AuthState::Finished));
        assert_eq!(action.outcome(), Some(PamOutcome::ServiceError));
        match action {
            AuthAction::Fail(err) => assert_eq!(err.kind, AuthErrorKind::Internal),
            other => panic!("unexpected action {other:?}"),
        }

        let (state, action) = pam.handle_authenticate(
            AuthState::AwaitStore { mfa_required },
            AuthEvent::Stored { written: true },
        );
        assert!(matches!(state, AuthState::Finished));
        match action {
            AuthAction::Succeed { mfa_required: with_key } => assert_eq!(with_key, mfa_required),
            other => panic!("unexpected action {other:?}"),
        }
    }
}

#[test]
fn success_is_reported_only_after_the_token_was_written() {
    let pam = attempt("lea", PamService::Login, false);
    // an answer about the token that nobody asked to write changes nothing
    for state in [
        AuthState::Idle,
        AuthState::AwaitPreflight,
        AuthState::AwaitMfa,
        AuthState::AwaitPassword { remote: false, mfa_required: false },
        AuthState::AwaitLogin { mfa_required: false },
        AuthState::Finished,
    ] {
        let (next, action) = pam.handle_authenticate(state, AuthEvent::Stored { written: true });
        assert!(matches!(next, AuthState::Finished));
        assert!(!matches!(action, AuthAction::Succeed { .. }));
        assert_ne!(action.outcome(), Some(PamOutcome::Success));
    }
}

#[test]
fn hardware_key_is_wanted_only_at_the_console_without_the_override() {
    let p = |local_password_only, mfa_required| PamPreflightResponse {
        login_allowed: true,
        local_password_only,
        mfa_required,
    };
    let cases = [
        (PamService::Login, false, true),
        (PamService::Sudo, false, true),
        (PamService::Su, false, true),
        (PamService::Other("gdm".to_string()), false, true),
        (PamService::Unknown, false, true),
        (PamService::Ssh, false, false),
        (PamService::Login, true, false),
        (PamService::Other("gdm".to_string()), true, false),
    ];
    for (service, marker, wanted) in cases {
        let pam = attempt("x", service, marker);
        assert_eq!(pam.wants_mfa(p(false, true)), wanted);
        assert!(!pam.wants_mfa(p(false, false)));
    }
    for service in [PamService::Login, PamService::Sudo, PamService::Su] {
        let pam = attempt("x", service, false);
        assert!(pam.is_local_password_only(p(true, true)));
        assert!(!pam.is_local_password_only(p(false, true)));
        assert!(!pam.wants_mfa(p(true, true)));
    }
    for service in [PamService::Ssh, PamService::Other("x".to_string()), PamService::Unknown] {
        let pam = attempt("x", service, false);
        assert!(!pam.is_local_password_only(p(true, true)));
    }
}

#[test]
fn a_failed_ceremony_fails_the_attempt_with_its_cause() {
    for (failure, told) in [
        (MfaFailure::NoKeyInTime, "authentication failed: timed out waiting for a security key"),
        (
            MfaFailure::NotSignedInTime,
            "authentication failed: timed out waiting for the security key to sign",
        ),
    ] {
        let pam = attempt("mia", PamService::Login, false);
        let (state, action) =
            pam.handle_authenticate(AuthState::AwaitMfa, AuthEvent::Mfa(Err(failure.into_error())));
        assert!(matches!(state, AuthState::Finished));
        assert_eq!(action.outcome(), Some(PamOutcome::AuthError));
        match action {
            AuthAction::Fail(err) => assert_eq!(err.message(), told),
            other => panic!("unexpected action {other:?}"),
        }
    }
}
