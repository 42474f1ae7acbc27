//! The settings of the name-service proxy.

use vstd::prelude::*;
use vstd::string::StringExecFns;
use crate::text::concat2;

verus! {

/// Where the log goes.
#[derive(Debug, Clone, Copy, PartialEq, Eq, Structural)]
pub enum LogTarget {
    Console,
    File,
    ConsoleFile,
    Syslog,
}

/// The settings that the proxy reads from its configuration file.
#[derive(Debug, Clone, PartialEq, Eq)]
pub struct Config {
    /// The provider's origin, as the text of a URL.
    pub rauthy_url: String,
    /// The identity under which this machine speaks to the provider.
    pub host_id: String,
    pub host_secret: String,
    /// The directory for the proxy's own files.
    pub data_dir: String,
    pub log_target: LogTarget,
    /// Whether the provider may be reached without TLS, and with
    /// certificates that do not check.
    pub danger_allow_insecure: bool,
    /// The number of worker threads.
    pub workers: usize,
    /// For how many seconds an answer about groups is remembered.
    pub cache_ttl_groups: u32,
    /// For how many seconds an answer about hosts is remembered.
    pub cache_ttl_hosts: u32,
    /// For how many seconds an answer about users is remembered.
    pub cache_ttl_users: u32,
    /// The seconds between two flushes of what is remembered.
    pub cache_flush_interval: u64,
    /// The seconds between two checks of the provider while it is well.
    pub health_check_interval_healthy: u64,
    /// The seconds between two checks of the provider while it is not.
    pub health_check_interval_unhealthy: u64,
}

/// The directory for the proxy's own files where the configuration names
/// none.
pub fn data_path() -> (r: String)
    ensures
        r@ == "/var/lib/rauthy_proxy"@,
{
    String::from_str("/var/lib/rauthy_proxy")
}

/// The value of a setting that is off where the configuration does not
/// name it.
pub fn bool_false() -> (r: bool)
    ensures
        !r,
{
    false
}

impl Default for Config {
    /// The settings that are written into a new configuration file, for the
    /// administrator to fill in.
    fn default() -> (r: Config)
        ensures
            r.rauthy_url@ == "https://iam.example.com/"@,
            r.host_id@ == "hostIdFromRauthy"@,
            r.host_secret@ == "hostSecretFromRauthy"@,
            r.data_dir@ == "/var/lib/rauthy_proxy"@,
            r.log_target == LogTarget::Syslog,
            !r.danger_allow_insecure,
            r.workers == 1,
            r.cache_ttl_groups == 60,
            r.cache_ttl_hosts == 60,
            r.cache_ttl_users == 60,
            r.cache_flush_interval == 900,
            r.health_check_interval_healthy == 30,
            r.health_check_interval_unhealthy == 5,
    {
        Config {
            rauthy_url: String::from_str("https://iam.example.com/"),
            host_id: String::from_str("hostIdFromRauthy"),
            host_secret: String::from_str("hostSecretFromRauthy"),
            data_dir: data_path(),
            log_target: LogTarget::Syslog,
            danger_allow_insecure: false,
            workers: 1,
            cache_ttl_groups: 60,
            cache_ttl_hosts: 60,
            cache_ttl_users: 60,
            cache_flush_interval: 900,
            health_check_interval_healthy: 30,
            health_check_interval_unhealthy: 5,
        }
    }
}

/// What is to be done once reading the configuration file has been tried.
#[derive(Debug, Clone, Copy, PartialEq, Eq, Structural)]
pub enum LoadStep {
    /// The settings were read: use them.
    Use,
    /// The file could not be read: write one with the settings of
    /// [`Config::default`], unless a file is there already, and stop, so
    /// that the administrator fills it in.
    WriteTemplateAndStop,
}

impl Config {
    /// The address of the provider's directory.
    pub fn url_getent(&self) -> (r: String)
        ensures
            r@ == self.rauthy_url@ + "auth/v1/pam/getent"@,
    {
        concat2(self.rauthy_url.as_str(), "auth/v1/pam/getent")
    }

    /// What is to be done once reading the configuration file has been
    /// tried.
    pub fn load(read: bool) -> (r: LoadStep)
        ensures
            r == if read {
                LoadStep::Use
            } else {
                LoadStep::WriteTemplateAndStop
            },
    {
        if read {
            LoadStep::Use
        } else {
            LoadStep::WriteTemplateAndStop
        }
    }

    /// Whether a configuration file with the settings of
    /// [`Config::default`] has to be written: only where none is there.
    pub fn create_template(exists: bool) -> (r: bool)
        ensures
            r == !exists,
    {
        !exists
    }
}

} // verus!
