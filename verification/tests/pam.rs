use rauthy_pam_nss::config::Config;
use rauthy_pam_nss::outcome::PamOutcome;
use rauthy_pam_nss::pam::script::{ScriptMeta, ScriptRefusal, ScriptReport, SCRIPT_MODE};
use rauthy_pam_nss::pam::token::PamToken;
use rauthy_pam_nss::pam::{
    set_debug, AccountStep, PamService, RauthyPam, ENV_SESSION, ENV_USERNAME, ENV_USER_EMAIL,
    ENV_USER_ID,
};
use rauthy_pam_nss::remote::RemoteReply;

const PASSWD: &str = "root:x:0:0:root:/root:/bin/bash\nbin:x:1:1:bin:/bin:/sbin/nologin\r\nalice:x:1000:1000::/home/alice:/bin/zsh\nlast:x:1001:1001::/home/last:/bin/sh";

fn config() -> Config {
    Config {
        rauthy_url: "https://iam.example.com/".to_string(),
        host_id: "host-1".to_string(),
        host_secret: "SECRET-REDACTED".to_string(),
        data_path: "/var/lib/pam_rauthy".to_string(),
        home_dir_skel: None,
        exec_session_open: Some("/etc/rauthy/open.sh".to_string()),
        exec_session_close: Some("/etc/rauthy/close.sh".to_string()),
    }
}

fn entry(service: PamService) -> RauthyPam {
    RauthyPam { config: config(), username: "zoe".to_string(), service, remote_marker: false }
}

fn token() -> PamToken {
    PamToken {
        id: "tok".to_string(),
        exp: 1_000,
        user_id: "uid-9".to_string(),
        user_email: "zoe@example.com".to_string(),
        uid: 100_009,
        gid: 100_010,
        username: "zoe".to_string(),
        roles: vec![],
        groups: vec![],
    }
}

#[test]
fn services_are_classified_by_their_name() {
    assert_eq!(RauthyPam::get_service(Some("login")), PamService::Login);
    assert_eq!(RauthyPam::get_service(Some("sshd")), PamService::Ssh);
    assert_eq!(RauthyPam::get_service(Some("sudo")), PamService::Sudo);
    assert_eq!(RauthyPam::get_service(Some("sudo-i")), PamService::Sudo);
    assert_eq!(RauthyPam::get_service(Some("su")), PamService::Su);
    assert_eq!(RauthyPam::get_service(Some("su-l")), PamService::Su);
    assert_eq!(
        RauthyPam::get_service(Some("cron")),
        PamService::Other("cron".to_string())
    );
    assert_eq!(RauthyPam::get_service(Some("")), PamService::Other(String::new()));
    assert_eq!(RauthyPam::get_service(None), PamService::Unknown);
}

#[test]
fn service_names_are_read_in_any_case() {
    assert_eq!(RauthyPam::get_service(Some("SSHD")), PamService::Ssh);
    assert_eq!(RauthyPam::get_service(Some("Login")), PamService::Login);
    assert_eq!(RauthyPam::get_service(Some("SuDo-I")), PamService::Sudo);
    // a name without a class of its own is carried as it was read
    assert_eq!(
        RauthyPam::get_service(Some("GDM-Password")),
        PamService::Other("GDM-Password".to_string())
    );
    assert_eq!(
        RauthyPam::get_service(Some("Cron")),
        PamService::Other("Cron".to_string())
    );
    // the class is found by the name in lower case alone
    assert_eq!(PamService::from_lowercase("SSHD", "sshd"), PamService::Ssh);
    assert_eq!(
        PamService::from_lowercase("SSHD", "SSHD"),
        PamService::Other("SSHD".to_string())
    );
    assert_eq!(
        PamService::from_lowercase("GDM-Password", "gdm-password"),
        PamService::Other("GDM-Password".to_string())
    );
}

#[test]
fn classes_and_what_they_stand_for() {
    assert!(PamService::Login.is_local_console());
    assert!(PamService::Sudo.is_local_console());
    assert!(PamService::Su.is_local_console());
    assert!(!PamService::Ssh.is_local_console());
    assert!(!PamService::Other("x".to_string()).is_local_console());
    assert!(!PamService::Unknown.is_local_console());
    assert!(PamService::Sudo.uses_requesting_user());
    assert!(PamService::Su.uses_requesting_user());
    assert!(!PamService::Login.uses_requesting_user());
    assert!(!PamService::Ssh.uses_requesting_user());
    assert!(PamService::Login.runs_session_script());
    assert!(PamService::Ssh.runs_session_script());
    assert!(!PamService::Sudo.runs_session_script());
}

#[test]
fn remote_sessions_are_marked_in_the_environment() {
    let pair = |k: &str, v: &str| (k.to_string(), v.to_string());
    assert!(!RauthyPam::is_remote_session(&vec![]));
    assert!(RauthyPam::is_remote_session(&vec![
        pair("PATH", "/bin"),
        pair(ENV_SESSION, "remote")
    ]));
    assert!(!RauthyPam::is_remote_session(&vec![pair(ENV_SESSION, "local")]));
    assert!(!RauthyPam::is_remote_session(&vec![pair("OTHER", "remote")]));
    assert!(!RauthyPam::is_remote_session(&vec![pair(ENV_SESSION, "Remote")]));
}

#[test]
fn local_users_are_found_in_the_account_file() {
    assert!(RauthyPam::is_local_user(PASSWD, "root"));
    assert!(RauthyPam::is_local_user(PASSWD, "bin"));
    assert!(RauthyPam::is_local_user(PASSWD, "alice"));
    assert!(RauthyPam::is_local_user(PASSWD, "last"));
    assert!(!RauthyPam::is_local_user(PASSWD, "ali"));
    assert!(!RauthyPam::is_local_user(PASSWD, "lice"));
    assert!(!RauthyPam::is_local_user(PASSWD, "x"));
    assert!(!RauthyPam::is_local_user(PASSWD, "bob"));
    assert!(!RauthyPam::is_local_user("", "bob"));
    assert!(!RauthyPam::is_local_user(PASSWD, "bash\nbin"));
    assert!(RauthyPam::is_local_user("bob:", "bob"));
    assert!(!RauthyPam::is_local_user("bob", "bob"));
    // as the lines of the text tell
    for name in ["root", "bin", "alice", "last", "ali", "x", "0", ""] {
        let prefix = format!("{name}:");
        let expected = PASSWD.lines().any(|l| l.starts_with(&prefix));
        assert_eq!(RauthyPam::is_local_user(PASSWD, name), expected, "{name}");
    }
}

#[test]
fn only_users_of_the_directory_go_on() {
    assert_eq!(RauthyPam::nonlocal_username(None, PASSWD), Err(PamOutcome::AuthError));
    assert_eq!(
        RauthyPam::nonlocal_username(Some(""), PASSWD),
        Err(PamOutcome::CredentialsUnavailable)
    );
    assert_eq!(
        RauthyPam::nonlocal_username(Some("z"), PASSWD),
        Err(PamOutcome::CredentialsUnavailable)
    );
    assert_eq!(
        RauthyPam::nonlocal_username(Some("root"), PASSWD),
        Err(PamOutcome::CredentialsUnavailable)
    );
    assert_eq!(RauthyPam::nonlocal_username(Some("zoe"), PASSWD), Ok("zoe".to_string()));
    assert_eq!(RauthyPam::nonlocal_username(Some("zo"), PASSWD), Ok("zo".to_string()));
    // one character of two bytes is long enough
    assert_eq!(RauthyPam::nonlocal_username(Some("é"), PASSWD), Ok("é".to_string()));
    assert_eq!(RauthyPam::setcred(Some("zoe"), PASSWD), PamOutcome::Success);
    assert_eq!(RauthyPam::setcred(Some("root"), PASSWD), PamOutcome::CredentialsUnavailable);
    assert_eq!(RauthyPam::setcred(None, PASSWD), PamOutcome::AuthError);
}

#[test]
fn open_session_tells_the_session_who_the_user_is() {
    let plan = entry(PamService::Login).open_session(Some(&token()));
    assert_eq!(plan.outcome, PamOutcome::Success);
    assert!(plan.provide_home);
    assert_eq!(
        plan.env,
        vec![
            format!("{ENV_SESSION}=local"),
            format!("{ENV_USER_ID}=uid-9"),
            format!("{ENV_USER_EMAIL}=zoe@example.com"),
            format!("{ENV_USERNAME}=zoe"),
        ]
    );
    assert_eq!(plan.script.as_deref(), Some("/etc/rauthy/open.sh"));

    let plan = entry(PamService::Ssh).open_session(Some(&token()));
    assert_eq!(plan.env[0], format!("{ENV_SESSION}=remote"));
    assert_eq!(plan.script.as_deref(), Some("/etc/rauthy/open.sh"));

    let plan = entry(PamService::Sudo).open_session(Some(&token()));
    assert_eq!(plan.outcome, PamOutcome::Success);
    assert_eq!(plan.env[0], format!("{ENV_SESSION}=local"));
    assert_eq!(plan.script, None);
}

#[test]
fn open_session_without_a_token_is_unavailable() {
    let plan = entry(PamService::Login).open_session(None);
    assert_eq!(plan.outcome, PamOutcome::CredentialsUnavailable);
    assert!(!plan.provide_home);
    assert!(plan.env.is_empty());
    assert_eq!(plan.script, None);
}

#[test]
fn close_session_always_succeeds() {
    let plan = entry(PamService::Login).close_session(Some(&token()));
    assert_eq!(plan.outcome, PamOutcome::Success);
    assert_eq!(plan.script.as_deref(), Some("/etc/rauthy/close.sh"));
    assert!(!plan.token_missing);

    let plan = entry(PamService::Login).close_session(None);
    assert_eq!(plan.outcome, PamOutcome::Success);
    assert_eq!(plan.script, None);
    assert!(plan.token_missing);

    let plan = entry(PamService::Su).close_session(Some(&token()));
    assert_eq!(plan.outcome, PamOutcome::Success);
    assert_eq!(plan.script, None);
    assert!(!plan.token_missing);

    let mut pam = entry(PamService::Ssh);
    pam.config.exec_session_close = None;
    let plan = pam.close_session(None);
    assert_eq!(plan.script, None);
    assert!(!plan.token_missing);
}

#[test]
fn account_check_asks_the_provider_only_for_a_token_in_its_time() {
    assert_eq!(
        RauthyPam::acct_mgmt_at(None, 0),
        AccountStep::Done(PamOutcome::CredentialsUnavailable)
    );
    assert_eq!(RauthyPam::acct_mgmt_at(Some(&token()), 1_000), AccountStep::AskProvider);
    assert_eq!(
        RauthyPam::acct_mgmt_at(Some(&token()), 1_001),
        AccountStep::Done(PamOutcome::CredentialsUnavailable)
    );
    assert_eq!(
        RauthyPam::acct_mgmt(None),
        AccountStep::Done(PamOutcome::CredentialsUnavailable)
    );
    assert_eq!(
        RauthyPam::acct_mgmt(Some(&token())),
        AccountStep::Done(PamOutcome::CredentialsUnavailable)
    );
    let young = PamToken { exp: i64::MAX, ..token() };
    assert_eq!(RauthyPam::acct_mgmt(Some(&young)), AccountStep::AskProvider);
    assert_eq!(
        RauthyPam::acct_mgmt_outcome(&RemoteReply::Decoded(())),
        PamOutcome::Success
    );
    assert_eq!(
        RauthyPam::acct_mgmt_outcome(&RemoteReply::Refused { status: 401, body: String::new() }),
        PamOutcome::CredentialsUnavailable
    );
    assert_eq!(
        RauthyPam::acct_mgmt_outcome(&RemoteReply::Transport { seen: None, cause: String::new() }),
        PamOutcome::CredentialsUnavailable
    );
}

#[test]
fn scripts_run_only_if_root_owns_them_and_nobody_else_may_touch_them() {
    let good = ScriptMeta { is_file: true, uid: 0, mode: 0o100700 };
    assert_eq!(SCRIPT_MODE, 0o100700);
    assert_eq!(
        RauthyPam::run_session_script(good, "/etc/rauthy/open.sh", &token()),
        Ok("/etc/rauthy/open.sh zoe 100009 100010 uid-9 zoe@example.com".to_string())
    );
    assert_eq!(
        RauthyPam::run_session_script(ScriptMeta { is_file: false, ..good }, "/x", &token()),
        Err(ScriptRefusal::NotAFile)
    );
    assert_eq!(
        RauthyPam::run_session_script(ScriptMeta { uid: 1000, ..good }, "/x", &token()),
        Err(ScriptRefusal::NotOwnedByRoot)
    );
    for mode in [0o100755, 0o100600, 0o100701, 0o700, 0o40700, 0o104700] {
        assert_eq!(
            RauthyPam::run_session_script(ScriptMeta { mode, ..good }, "/x", &token()),
            Err(ScriptRefusal::BadMode { found: mode })
        );
    }
    // the first fault found is the one told
    assert_eq!(
        RauthyPam::run_session_script(ScriptMeta { is_file: false, uid: 5, mode: 0 }, "/x", &token()),
        Err(ScriptRefusal::NotAFile)
    );
    assert_eq!(
        RauthyPam::run_session_script(ScriptMeta { is_file: true, uid: 5, mode: 0 }, "/x", &token()),
        Err(ScriptRefusal::NotOwnedByRoot)
    );
}

#[test]
fn script_output_is_told_as_the_settings_say() {
    let out = "hello".to_string();
    let err = "oops".to_string();
    assert_eq!(
        RauthyPam::script_report(true, true, out.clone(), err.clone()),
        ScriptReport::Info(out.clone())
    );
    assert_eq!(
        RauthyPam::script_report(true, false, out.clone(), err.clone()),
        ScriptReport::Quiet
    );
    assert_eq!(
        RauthyPam::script_report(true, true, String::new(), err.clone()),
        ScriptReport::Quiet
    );
    assert_eq!(
        RauthyPam::script_report(false, false, out.clone(), err.clone()),
        ScriptReport::Failed(err.clone())
    );
    assert_eq!(
        RauthyPam::script_report(false, true, out, String::new()),
        ScriptReport::Failed(String::new())
    );
}

#[test]
fn debug_flag_is_one_of_the_arguments() {
    let args = |l: &[&str]| l.iter().map(|s| s.to_string()).collect::<Vec<_>>();
    assert!(!set_debug(&args(&[])));
    assert!(set_debug(&args(&["debug"])));
    assert!(set_debug(&args(&["a", "debug", "b"])));
    assert!(!set_debug(&args(&["Debug", "debugging", "de bug"])));
}
