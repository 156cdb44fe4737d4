//! Settings of the profile lookup.

use crate::utils::time::TimeSpan;
use vstd::prelude::*;

verus! {

/// Credentials presented to a proxy.
#[derive(Debug)]
pub struct ProxyAuthorizationConfig {
    pub user_name: String,
    pub password: String,
}

/// How long a stored answer is trusted before the profile is asked for
/// again. Which of the two windows applies depends on what the last check
/// found.
#[derive(Debug, Clone, Copy)]
pub struct UseCacheConfig {
    /// Window after a check that found the name unchanged.
    pub unchanged: TimeSpan,
    /// Window after a check that found a new name.
    pub changed: TimeSpan,
}

impl UseCacheConfig {
    /// The window that applies after a check with the given outcome.
    pub open spec fn spec_ttl(self, last_check_changed: bool) -> TimeSpan {
        if last_check_changed {
            self.changed
        } else {
            self.unchanged
        }
    }

    /// The window that applies after a check with the given outcome.
    pub fn ttl(&self, last_check_changed: bool) -> (ttl: TimeSpan)
        ensures
            ttl == self.spec_ttl(last_check_changed),
    {
        if last_check_changed {
            self.changed
        } else {
            self.unchanged
        }
    }
}

impl Default for UseCacheConfig {
    /// Twelve hours after an unchanged check, thirty days after a changed one.
    fn default() -> (config: Self)
        ensures
            config.unchanged.millis == 12 * 3600 * 1000,
            config.changed.millis == 30 * 24 * 3600 * 1000,
    {
        Self {
            unchanged: TimeSpan::from_secs(12 * 3600),
            changed: TimeSpan::from_secs(30 * 24 * 3600),
        }
    }
}

} // verus!
