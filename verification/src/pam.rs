//! The login module: how an attempt is classified, which steps it takes, and
//! what is done when a session opens and closes.

use vstd::prelude::*;
use vstd::string::StringExecFns;
use vstd::string::StringSliceAdditionalSpecFns;
use crate::clock::unix_now;
use crate::config::Config;
use crate::outcome::PamOutcome;
use crate::pam::token::PamToken;
use crate::pam::token::ValidateStep;
use crate::remote::RemoteReply;
use crate::text::chars_of;
use crate::text::concat2;
use crate::text::concat3;
use crate::text::line_starts_with;
use crate::text::lowercase;
use crate::text::some_line_starts_with;
use crate::text::str_equal;
use crate::text::to_lowercase;

pub mod auth;
pub mod script;
pub mod token;
pub mod webauthn;

verus! {

/// The kind of service on whose behalf the authentication stack was entered.
#[derive(Debug, Clone, PartialEq, Eq)]
pub enum PamService {
    Login,
    Ssh,
    Sudo,
    Su,
    /// A service that is none of the above, with its name as it was read.
    Other(String),
    /// The service's name could not be read.
    Unknown,
}

impl PamService {
    /// Whether the account's policy can hold this class to a password alone.
    pub open spec fn spec_is_local_console(&self) -> bool {
        self is Login || self is Sudo || self is Su
    }

    /// Whether the account's policy can hold this class to a password alone.
    #[verifier::when_used_as_spec(spec_is_local_console)]
    pub fn is_local_console(&self) -> (r: bool)
        ensures
            r == self.spec_is_local_console(),
    {
        match self {
            PamService::Login | PamService::Sudo | PamService::Su => true,
            _ => false,
        }
    }

    /// Whether the acting user differs from the one who asked, so that the
    /// name to look up is the requesting user's.
    pub open spec fn spec_uses_requesting_user(&self) -> bool {
        self is Sudo || self is Su
    }

    /// Whether the acting user differs from the one who asked, so that the
    /// name to look up is the requesting user's.
    #[verifier::when_used_as_spec(spec_uses_requesting_user)]
    pub fn uses_requesting_user(&self) -> (r: bool)
        ensures
            r == self.spec_uses_requesting_user(),
    {
        match self {
            PamService::Sudo | PamService::Su => true,
            _ => false,
        }
    }
}

/// One entry into the login module: the settings, the user, and how the
/// attempt was classified. It is made once per entry and not changed.
#[derive(Debug, Clone, PartialEq, Eq)]
pub struct RauthyPam {
    pub config: Config,
    pub username: String,
    pub service: PamService,
    /// Whether the session is marked as reached from another machine. An
    /// attempt under `sudo` or `su` is known to be remote only by this mark,
    /// which the session carries since it was opened.
    pub remote_marker: bool,
}

/// The name of the variable that says whether a session was reached from
/// another machine.
pub const ENV_SESSION: &'static str = "RAUTHY_SESSION";

/// The name of the variable that holds the user's id at the provider.
pub const ENV_USER_ID: &'static str = "RAUTHY_USER_ID";

/// The name of the variable that holds the user's e-mail address.
pub const ENV_USER_EMAIL: &'static str = "RAUTHY_USER_EMAIL";

/// The name of the variable that holds the user's name on this machine.
pub const ENV_USERNAME: &'static str = "RAUTHY_USERNAME";

impl PamService {
    /// The class that a service's name, in lower case, stands for, if it
    /// has a class of its own.
    pub open spec fn known_class(name: Seq<char>) -> Option<PamService> {
        if name == "login"@ {
            Some(PamService::Login)
        } else if name == "sshd"@ {
            Some(PamService::Ssh)
        } else if name == "sudo"@ || name == "sudo-i"@ {
            Some(PamService::Sudo)
        } else if name == "su"@ || name == "su-l"@ {
            Some(PamService::Su)
        } else {
            None
        }
    }

    /// The class of the service with the name `name`, which in lower case
    /// is `lowered`. The class is found by the name in lower case; a name
    /// that has no class of its own is kept as it was read.
    pub fn from_lowercase(name: &str, lowered: &str) -> (r: PamService)
        ensures
            match Self::known_class(lowered@) {
                Some(class) => r == class,
                None => r matches PamService::Other(label) && label@ == name@,
            },
    {
        if str_equal(lowered, "login") {
            PamService::Login
        } else if str_equal(lowered, "sshd") {
            PamService::Ssh
        } else if str_equal(lowered, "sudo") || str_equal(lowered, "sudo-i") {
            PamService::Sudo
        } else if str_equal(lowered, "su") || str_equal(lowered, "su-l") {
            PamService::Su
        } else {
            PamService::Other(String::from_str(name))
        }
    }

    /// Whether a session script is run for this class.
    pub open spec fn spec_runs_session_script(&self) -> bool {
        self is Login || self is Ssh
    }

    /// Whether a session script is run for this class.
    #[verifier::when_used_as_spec(spec_runs_session_script)]
    pub fn runs_session_script(&self) -> (r: bool)
        ensures
            r == self.spec_runs_session_script(),
    {
        match self {
            PamService::Login | PamService::Ssh => true,
            _ => false,
        }
    }
}

/// What is to be done when a session opens.
#[derive(Debug, Clone, PartialEq, Eq)]
pub struct OpenSessionPlan {
    pub outcome: PamOutcome,
    /// Whether the home directory is to be provided. A failure in that is
    /// written to the log and changes nothing else.
    pub provide_home: bool,
    /// The variables to hand to the session, each as `NAME=value`.
    pub env: Vec<String>,
    /// The script to run, if any. A failure in that is written to the log
    /// and changes nothing else.
    pub script: Option<String>,
}

/// What is to be done when a session closes.
#[derive(Debug, Clone, PartialEq, Eq)]
pub struct CloseSessionPlan {
    pub outcome: PamOutcome,
    /// The script to run, if any.
    pub script: Option<String>,
    /// Whether to write to the log that a script was to be run but no
    /// token was found.
    pub token_missing: bool,
}

/// What an account check does after the token was loaded.
#[derive(Debug, Clone, Copy, PartialEq, Eq, Structural)]
pub enum AccountStep {
    /// The check is over, with this outcome.
    Done(PamOutcome),
    /// The provider has to be asked about the token.
    AskProvider,
}

impl RauthyPam {
    /// The class of the service that asked. `read` is its name as the
    /// authentication stack gave it, or `None` where it could not be read.
    /// Large and small letters make no difference to the class; a name that
    /// has no class of its own is carried as it was read.
    pub fn get_service(read: Option<&str>) -> (r: PamService)
        ensures
            match read {
                None => r is Unknown,
                Some(name) => match PamService::known_class(lowercase(name@)) {
                    Some(class) => r == class,
                    None => r matches PamService::Other(label) && label@ == name@,
                },
            },
    {
        match read {
            None => PamService::Unknown,
            Some(name) => {
                let lowered = to_lowercase(name);
                PamService::from_lowercase(name, lowered.as_str())
            },
        }
    }

    /// Whether the variables of the process mark the session as reached
    /// from another machine.
    pub open spec fn marks_remote(vars: Seq<(String, String)>) -> bool {
        exists|i: int|
            0 <= i < vars.len() && (#[trigger] vars[i]).0@ == ENV_SESSION@ && vars[i].1@
                == "remote"@
    }

    /// Whether the variables of the process mark the session as reached
    /// from another machine.
    pub fn is_remote_session(vars: &Vec<(String, String)>) -> (r: bool)
        ensures
            r == Self::marks_remote(vars@),
    {
        let n = vars.len();
        let mut i: usize = 0;
        while i < n
            invariant
                i <= n,
                n == vars@.len(),
                forall|k: int|
                    0 <= k < i ==> !((#[trigger] vars@[k]).0@ == ENV_SESSION@ && vars@[k].1@
                        == "remote"@),
            decreases n - i,
        {
            if str_equal(vars[i].0.as_str(), ENV_SESSION) && str_equal(
                vars[i].1.as_str(),
                "remote",
            ) {
                return true;
            }
            i = i + 1;
        }
        false
    }

    /// Whether `username` is an account of this machine: whether a line of
    /// the account file `passwd` starts with the name and a colon.
    pub fn is_local_user(passwd: &str, username: &str) -> (r: bool)
        ensures
            r == some_line_starts_with(passwd@, username@ + ":"@),
    {
        let prefix = concat2(username, ":");
        let text = chars_of(passwd);
        let start = chars_of(prefix.as_str());
        line_starts_with(text.as_slice(), start.as_slice())
    }

    /// The name under which the attempt goes on, or the outcome with which
    /// it ends at once. `name` is the name that the authentication stack
    /// gave, `passwd` the account file of this machine.
    ///
    /// No name ends the attempt as a failed authentication. A name of less
    /// than two bytes, and the name of an account of this machine, end it
    /// as unavailable: such users are not this module's.
    pub fn nonlocal_username(name: Option<&str>, passwd: &str) -> (r: Result<String, PamOutcome>)
        ensures
            match name {
                None => r == Err::<String, PamOutcome>(PamOutcome::AuthError),
                Some(n) => {
                    if n.spec_bytes().len() < 2 || some_line_starts_with(passwd@, n@ + ":"@) {
                        r == Err::<String, PamOutcome>(PamOutcome::CredentialsUnavailable)
                    } else {
                        r matches Ok(kept) && kept@ == n@
                    }
                },
            },
    {
        match name {
            None => Err(PamOutcome::AuthError),
            Some(n) => {
                if n.as_bytes().len() < 2 {
                    Err(PamOutcome::CredentialsUnavailable)
                } else if Self::is_local_user(passwd, n) {
                    Err(PamOutcome::CredentialsUnavailable)
                } else {
                    Ok(String::from_str(n))
                }
            },
        }
    }

    /// What is to be done when a session opens, given the token that was
    /// loaded for the user.
    ///
    /// Without a token the session is not this module's to open. With one,
    /// the home directory is provided, the session is told who the user is
    /// and whether it was reached from another machine, and the script for
    /// opening sessions is run for a console login and for a login from
    /// another machine.
    pub fn open_session(&self, token: Option<&PamToken>) -> (r: OpenSessionPlan)
        ensures
            match token {
                None => {
                    &&& r.outcome == PamOutcome::CredentialsUnavailable
                    &&& !r.provide_home
                    &&& r.env@.len() == 0
                    &&& r.script is None
                },
                Some(t) => {
                    &&& r.outcome == PamOutcome::Success
                    &&& r.provide_home
                    &&& r.env@.len() == 4
                    &&& r.env@[0]@ == ENV_SESSION@ + "="@ + (if self.service is Ssh {
                        "remote"@
                    } else {
                        "local"@
                    })
                    &&& r.env@[1]@ == ENV_USER_ID@ + "="@ + t.user_id@
                    &&& r.env@[2]@ == ENV_USER_EMAIL@ + "="@ + t.user_email@
                    &&& r.env@[3]@ == ENV_USERNAME@ + "="@ + t.username@
                    &&& r.script == if self.service.spec_runs_session_script() {
                        self.config.exec_session_open
                    } else {
                        None
                    }
                },
            },
    {
        match token {
            None => OpenSessionPlan {
                outcome: PamOutcome::CredentialsUnavailable,
                provide_home: false,
                env: Vec::new(),
                script: None,
            },
            Some(t) => {
                let kind = if matches!(self.service, PamService::Ssh) {
                    "remote"
                } else {
                    "local"
                };
                let mut env: Vec<String> = Vec::new();
                env.push(concat3(ENV_SESSION, "=", kind));
                env.push(concat3(ENV_USER_ID, "=", t.user_id.as_str()));
                env.push(concat3(ENV_USER_EMAIL, "=", t.user_email.as_str()));
                env.push(concat3(ENV_USERNAME, "=", t.username.as_str()));
                let script = if self.service.runs_session_script() {
                    self.config.exec_session_open.clone()
                } else {
                    None
                };
                OpenSessionPlan { outcome: PamOutcome::Success, provide_home: true, env, script }
            },
        }
    }

    /// What is to be done when a session closes. The session closes with
    /// success in every case; the script for closing sessions is run where
    /// the settings name one, a token was found, and the session is a
    /// console login or a login from another machine.
    pub fn close_session(&self, token: Option<&PamToken>) -> (r: CloseSessionPlan)
        ensures
            r.outcome == PamOutcome::Success,
            r.token_missing == (self.config.exec_session_close is Some && token is None),
            r.script == if token is Some && self.service.spec_runs_session_script() {
                self.config.exec_session_close
            } else {
                None
            },
    {
        let wanted = self.config.exec_session_close.is_some();
        let script = if token.is_some() && self.service.runs_session_script() {
            self.config.exec_session_close.clone()
        } else {
            None
        };
        CloseSessionPlan {
            outcome: PamOutcome::Success,
            script,
            token_missing: wanted && token.is_none(),
        }
    }

    /// What an account check does with the token that was loaded, at the
    /// time `now`.
    pub open spec fn account_step(token: Option<&PamToken>, now: i64) -> AccountStep {
        match token {
            None => AccountStep::Done(PamOutcome::CredentialsUnavailable),
            Some(t) => if t.spec_is_expired(now) {
                AccountStep::Done(PamOutcome::CredentialsUnavailable)
            } else {
                AccountStep::AskProvider
            },
        }
    }

    /// What an account check does with the token that was loaded, at the
    /// time `now`: without a token, or with one whose time is over, the
    /// check fails and the provider is not asked; else the provider is.
    pub fn acct_mgmt_at(token: Option<&PamToken>, now: i64) -> (r: AccountStep)
        ensures
            r == Self::account_step(token, now),
    {
        match token {
            None => AccountStep::Done(PamOutcome::CredentialsUnavailable),
            Some(t) => match t.validate_at(now) {
                ValidateStep::Expired => AccountStep::Done(PamOutcome::CredentialsUnavailable),
                ValidateStep::AskProvider => AccountStep::AskProvider,
            },
        }
    }

    /// What an account check does with the token that was loaded, by the
    /// machine's clock.
    pub fn acct_mgmt(token: Option<&PamToken>) -> (r: AccountStep)
        ensures
            exists|now: i64| r == Self::account_step(token, now),
    {
        let now = unix_now();
        let r = Self::acct_mgmt_at(token, now);
        assert(r == Self::account_step(token, now));
        r
    }

    /// The outcome of an account check once the provider has answered: a
    /// success if it accepted the token, else unavailable.
    pub fn acct_mgmt_outcome(reply: &RemoteReply<()>) -> (r: PamOutcome)
        ensures
            r == if reply is Decoded {
                PamOutcome::Success
            } else {
                PamOutcome::CredentialsUnavailable
            },
    {
        match reply {
            RemoteReply::Decoded(_) => PamOutcome::Success,
            _ => PamOutcome::CredentialsUnavailable,
        }
    }

    /// The outcome of setting credentials: there is nothing to set, so a
    /// user that is this module's gets a success.
    pub fn setcred(name: Option<&str>, passwd: &str) -> (r: PamOutcome)
        ensures
            r == match Self::spec_setcred(name, passwd) {
                Some(o) => o,
                None => PamOutcome::Success,
            },
    {
        match Self::nonlocal_username(name, passwd) {
            Ok(_) => PamOutcome::Success,
            Err(outcome) => outcome,
        }
    }

    /// The outcome with which a name ends an entry at once, if it does.
    pub open spec fn spec_setcred(name: Option<&str>, passwd: &str) -> Option<PamOutcome> {
        match name {
            None => Some(PamOutcome::AuthError),
            Some(n) => if n.spec_bytes().len() < 2 || some_line_starts_with(
                passwd@,
                n@ + ":"@,
            ) {
                Some(PamOutcome::CredentialsUnavailable)
            } else {
                None
            },
        }
    }
}

/// Whether the arguments of the module ask for diagnostics: whether one of
/// them is the word `debug`.
pub fn set_debug(args: &Vec<String>) -> (r: bool)
    ensures
        r == exists|i: int| 0 <= i < args@.len() && (#[trigger] args@[i])@ == "debug"@,
{
    let n = args.len();
    let mut i: usize = 0;
    while i < n
        invariant
            i <= n,
            n == args@.len(),
            forall|k: int| 0 <= k < i ==> (#[trigger] args@[k])@ != "debug"@,
        decreases n - i,
    {
        if str_equal(args[i].as_str(), "debug") {
            return true;
        }
        i = i + 1;
    }
    false
}

} // verus!
