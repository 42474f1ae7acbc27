//! What the proxy sends to the provider, and with which settings.

use vstd::prelude::*;
use vstd::string::StringExecFns;
use crate::api_types::Getent;
use crate::api_types::GetentRequest;
use crate::api_types::GetentResponse;
use crate::api_types::HostDetailsResponse;
use crate::api_types::HostWhoamiRequest;
use crate::proxy::config::Config;
use crate::proxy::error::Error;
use crate::proxy::error::ErrorType;
use crate::remote::RemoteReply;
use crate::remote::RemoteRequest;
use crate::text::concat2;
use crate::text::concat3;

verus! {

/// The settings of an HTTP client.
#[derive(Debug, Clone, PartialEq, Eq)]
pub struct ClientSettings {
    /// The seconds within which a connection has to stand.
    pub connect_timeout_secs: u64,
    /// The seconds within which an answer has to be there.
    pub timeout_secs: u64,
    /// Whether TLS older than 1.2 is refused.
    pub min_tls_1_2: bool,
    /// Whether names are resolved by the client's own resolver.
    pub own_resolver: bool,
    /// Whether anything but HTTPS is refused.
    pub https_only: bool,
    /// Whether certificates and host names that do not check are accepted.
    pub accept_invalid: bool,
    /// The name under which the client presents itself.
    pub user_agent: String,
}

/// The proxy's side of its talk with the provider.
#[derive(Debug, Clone, PartialEq, Eq)]
pub struct HttpClient;

impl HttpClient {
    /// The settings of the proxy's client, for the proxy of the version
    /// `version`. Only HTTPS is spoken unless the settings allow otherwise.
    pub fn init(config: &Config, version: &str) -> (r: ClientSettings)
        ensures
            r.connect_timeout_secs == 10,
            r.timeout_secs == 10,
            r.min_tls_1_2,
            r.own_resolver,
            r.https_only == !config.danger_allow_insecure,
            !r.accept_invalid,
            r.user_agent@ == "Rauthy NSS Proxy v"@ + version@,
    {
        ClientSettings {
            connect_timeout_secs: 10,
            timeout_secs: 10,
            min_tls_1_2: true,
            own_resolver: true,
            https_only: !config.danger_allow_insecure,
            accept_invalid: false,
            user_agent: concat2("Rauthy NSS Proxy v", version),
        }
    }

    /// The request that asks the directory `getent`. It carries this
    /// machine's own identity.
    pub fn getent(config: &Config, getent: Getent) -> (r: RemoteRequest<GetentRequest>)
        ensures
            r.url@ == config.rauthy_url@ + "auth/v1/pam/getent"@,
            r.body.host_id@ == config.host_id@,
            r.body.host_secret@ == config.host_secret@,
            r.body.getent == getent,
    {
        RemoteRequest {
            url: config.url_getent(),
            body: GetentRequest {
                host_id: config.host_id.clone(),
                host_secret: config.host_secret.clone(),
                getent,
            },
        }
    }

    /// What the directory said, read from the provider's reply: an answer;
    /// that it has none, where the provider refused; or a failure, where
    /// the request did not complete or the answer could not be read.
    pub fn read_getent(reply: RemoteReply<GetentResponse>) -> (r: Result<
        Option<GetentResponse>,
        Error,
    >)
        ensures
            match reply {
                RemoteReply::Decoded(answer) => r == Ok::<Option<GetentResponse>, Error>(
                    Some(answer),
                ),
                RemoteReply::Refused { .. } => r == Ok::<Option<GetentResponse>, Error>(None),
                RemoteReply::Transport { seen, cause } => r matches Err(e) && e.error
                    == ErrorType::Connection && e.message@ == "Cannot send out HTTP request: "@
                    + cause@,
                RemoteReply::Undecodable { cause } => r matches Err(e) && e.error
                    == ErrorType::Connection && e.message@ == "Cannot send out HTTP request: "@
                    + cause@,
            },
    {
        match reply {
            RemoteReply::Decoded(answer) => Ok(Some(answer)),
            RemoteReply::Refused { status, body } => Ok(None),
            RemoteReply::Transport { seen, cause } => Err(Error::from_request(cause.as_str())),
            RemoteReply::Undecodable { cause } => Err(Error::from_request(cause.as_str())),
        }
    }
}

/// The request with which this machine asks the provider what it knows of
/// it.
pub fn whoami(config: &Config) -> (r: RemoteRequest<HostWhoamiRequest>)
    ensures
        r.url@ == config.rauthy_url@ + "auth/v1/pam/hosts/"@ + config.host_id@ + "/whoami"@,
        r.body.host_secret@ == config.host_secret@,
{
    let mut url = concat3(config.rauthy_url.as_str(), "auth/v1/pam/hosts/", config.host_id.as_str());
    url.append("/whoami");
    RemoteRequest { url, body: HostWhoamiRequest { host_secret: config.host_secret.clone() } }
}

/// What the provider knows of this machine, read from its reply, or the
/// failure that the reply stands for.
pub fn read_whoami(reply: RemoteReply<HostDetailsResponse>) -> (r: Result<
    HostDetailsResponse,
    Error,
>)
    ensures
        match reply {
            RemoteReply::Decoded(details) => r == Ok::<HostDetailsResponse, Error>(details),
            RemoteReply::Refused { status, body } => r matches Err(e) && e.error
                == ErrorType::Connection && e.message@ == body@,
            RemoteReply::Transport { seen, cause } => r matches Err(e) && e.error
                == ErrorType::Connection && e.message@ == "Cannot send out HTTP request: "@
                + cause@,
            RemoteReply::Undecodable { cause } => r matches Err(e) && e.error
                == ErrorType::Connection && e.message@ == "Cannot send out HTTP request: "@
                + cause@,
        },
{
    match reply {
        RemoteReply::Decoded(details) => Ok(details),
        RemoteReply::Refused { status, body } => Err(Error::new(ErrorType::Connection, body.as_str())),
        RemoteReply::Transport { seen, cause } => Err(Error::from_request(cause.as_str())),
        RemoteReply::Undecodable { cause } => Err(Error::from_request(cause.as_str())),
    }
}

} // verus!
