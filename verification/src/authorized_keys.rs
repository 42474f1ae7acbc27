//! The helper that the SSH daemon calls for a user's authorized keys.

use vstd::prelude::*;
use vstd::string::StringExecFns;
use crate::proxy::config::Config;
use crate::proxy::http_client::ClientSettings;
use crate::remote::is_success;
use crate::remote::spec_is_success;

verus! {

/// Why the arguments name no user.
#[derive(Debug, Clone, Copy, PartialEq, Eq, Structural)]
pub enum ArgsError {
    /// There is no argument behind the program's name.
    MissingUsername,
    /// The first argument is empty.
    EmptyUsername,
}

/// What to print once the provider has answered.
#[derive(Debug, Clone, PartialEq, Eq)]
pub enum Output {
    /// The keys, to the standard output.
    Keys(String),
    /// A complaint, to the standard error.
    Complaint(String),
}

impl ArgsError {
    /// What is told of the failure.
    pub fn message(self) -> (r: &'static str)
        ensures
            r@ == match self {
                ArgsError::MissingUsername => "Missing username as first argument"@,
                ArgsError::EmptyUsername => "username as first argument must not be empty"@,
            },
    {
        match self {
            ArgsError::MissingUsername => "Missing username as first argument",
            ArgsError::EmptyUsername => "username as first argument must not be empty",
        }
    }
}

/// The user that the arguments of the process name: the first argument
/// behind the program's name.
pub fn username(args: &Vec<String>) -> (r: Result<String, ArgsError>)
    ensures
        match r {
            Ok(name) => args@.len() >= 2 && name == args@[1] && name@.len() > 0,
            Err(ArgsError::MissingUsername) => args@.len() < 2,
            Err(ArgsError::EmptyUsername) => args@.len() >= 2 && args@[1]@.len() == 0,
        },
{
    if args.len() < 2 {
        return Err(ArgsError::MissingUsername);
    }
    if args[1].as_str().is_empty() {
        return Err(ArgsError::EmptyUsername);
    }
    Ok(args[1].clone())
}

/// The settings of the helper's client. Only HTTPS is spoken unless the
/// settings allow otherwise.
pub fn build(config: &Config) -> (r: ClientSettings)
    ensures
        r.connect_timeout_secs == 5,
        r.timeout_secs == 3,
        r.min_tls_1_2,
        r.own_resolver,
        r.https_only == !config.danger_allow_insecure,
        !r.accept_invalid,
        r.user_agent@ == "Rauthy AuthorizedKeys Client"@,
{
    ClientSettings {
        connect_timeout_secs: 5,
        timeout_secs: 3,
        min_tls_1_2: true,
        own_resolver: true,
        https_only: !config.danger_allow_insecure,
        accept_invalid: false,
        user_agent: String::from_str("Rauthy AuthorizedKeys Client"),
    }
}

/// The address at which the provider lists the authorized keys of
/// `username`. The request is a GET that accepts plain text and carries
/// this machine's identity as its basic credentials.
pub fn url_authorized_keys(config: &Config, username: &str) -> (r: String)
    ensures
        r@ == config.rauthy_url@ + "/auth/v1/pam/users/authorized_keys/"@ + username@,
{
    let mut r = config.rauthy_url.clone();
    r.append("/auth/v1/pam/users/authorized_keys/");
    r.append(username);
    r
}

/// What to print once the provider has answered with the status `status`
/// and the body `body`. `status_text` is the status as it is written. A
/// successful answer's body is the keys as they are to be printed.
pub fn run(status: u16, status_text: &str, body: String) -> (r: Output)
    ensures
        match r {
            Output::Keys(keys) => spec_is_success(status) && keys == body,
            Output::Complaint(text) => !spec_is_success(status) && text@
                == "/authorized_keys error: HTTPS "@ + status_text@ + " - "@ + body@,
        },
{
    if is_success(status) {
        Output::Keys(body)
    } else {
        let mut text = String::from_str("/authorized_keys error: HTTPS ");
        text.append(status_text);
        text.append(" - ");
        text.append(body.as_str());
        Output::Complaint(text)
    }
}

} // verus!
