//! Whether the provider is well. The proxy asks the directory only while
//! it is.

use vstd::prelude::*;
use crate::proxy::config::Config;
use crate::remote::RemoteReply;
use crate::text::concat2;

verus! {

/// The seconds between two checks while the proxy starts and the provider
/// is not well yet.
pub const STARTUP_RETRY_SECS: u64 = 5;

/// What the provider says of its own health.
#[derive(Debug, Clone, Copy, PartialEq, Eq, Structural)]
pub struct HealthResponse {
    pub db_healthy: bool,
    pub cache_healthy: bool,
}

/// What a check changes.
#[derive(Debug, Clone, Copy, PartialEq, Eq, Structural)]
pub struct HealthUpdate {
    /// Whether the provider counts as well from now on.
    pub healthy: bool,
    /// Whether this is news.
    pub changed: bool,
}

/// What to do while the proxy waits for the provider at its start.
#[derive(Debug, Clone, Copy, PartialEq, Eq, Structural)]
pub enum WaitStep {
    /// The provider is well: go on.
    Ready,
    /// Check again after so many seconds.
    RetryAfter(u64),
}

/// The address at which the provider tells of its health.
pub fn url_health(origin: &str) -> (r: String)
    ensures
        r@ == origin@ + "auth/v1/health"@,
{
    concat2(origin, "auth/v1/health")
}

/// Whether `reply` shows the provider to be well.
pub open spec fn spec_is_rauthy_healthy(reply: RemoteReply<HealthResponse>) -> bool {
    match reply {
        RemoteReply::Decoded(health) => health.db_healthy && health.cache_healthy,
        _ => false,
    }
}

/// Whether `reply` shows the provider to be well: it answered, and both
/// its database and its cache are.
pub fn is_rauthy_healthy(reply: &RemoteReply<HealthResponse>) -> (r: bool)
    ensures
        r == spec_is_rauthy_healthy(*reply),
{
    match reply {
        RemoteReply::Decoded(health) => health.db_healthy && health.cache_healthy,
        _ => false,
    }
}

/// The seconds to wait before the next check.
pub fn health_interval(currently_healthy: bool, config: &Config) -> (r: u64)
    ensures
        r == if currently_healthy {
            config.health_check_interval_healthy
        } else {
            config.health_check_interval_unhealthy
        },
{
    if currently_healthy {
        config.health_check_interval_healthy
    } else {
        config.health_check_interval_unhealthy
    }
}

/// What a check that found the provider well (`well`) or not changes.
pub fn spawn_health_checker(currently_healthy: bool, well: bool) -> (r: HealthUpdate)
    ensures
        r.healthy == well,
        r.changed == (well != currently_healthy),
{
    HealthUpdate { healthy: well, changed: well != currently_healthy }
}

/// What to do at the start after a check that found the provider well
/// (`well`) or not.
pub fn wait_until_healthy(well: bool) -> (r: WaitStep)
    ensures
        r == if well {
            WaitStep::Ready
        } else {
            WaitStep::RetryAfter(STARTUP_RETRY_SECS)
        },
{
    if well {
        WaitStep::Ready
    } else {
        WaitStep::RetryAfter(STARTUP_RETRY_SECS)
    }
}

} // verus!
