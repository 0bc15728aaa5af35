//! The daemon's verified state and timing decisions.
//!
//! A daemon instance drives exactly one exchange client and one asset
//! stream.  This module holds the decisions made when the daemon is built —
//! which client name is accepted, what interval the configuration yields —
//! and the timing step of the loop: how many seconds to sleep until the next
//! aligned boundary, read off the real clock.

use vstd::prelude::*;

use crate::config::{interval_minutes_from_setting, interval_of};
use crate::schedule::{boundary_delay, lemma_delay_bounds, seconds_to_timestep_next};

verus! {

/// The startup failure that aborts the process before the loop begins.
#[derive(Clone, Copy, Debug, PartialEq, Eq, Structural)]
pub enum ConfigError {
    /// The configured exchange client name is not one this build knows.
    UnsupportedClient,
}

/// The verified core of a daemon instance: the asset it logs and the
/// configured polling interval, fixed for the life of the process.
#[derive(Debug)]
pub struct Daemon {
    pub asset: String,
    pub timestep_mins: u32,
}

impl Daemon {
    /// The daemon's invariant: the interval is positive, so the scheduler
    /// is always applicable.
    pub open spec fn wf(self) -> bool {
        self.timestep_mins >= 1
    }

    /// Builds the daemon core from the configured client name and the raw
    /// interval setting.  The only supported exchange client is `coinspot`;
    /// any other name is a startup configuration error.  The interval
    /// defaults to five minutes when the setting is absent, not a number,
    /// or zero.
    pub fn new(client_cex_name: &str, timestep_setting: Option<&str>) -> (r: Result<
        Daemon,
        ConfigError,
    >)
        ensures
            r is Ok <==> client_cex_name@ == "coinspot"@,
            r is Err ==> r->Err_0 == ConfigError::UnsupportedClient,
            r is Ok ==> r->Ok_0.wf(),
            r is Ok ==> r->Ok_0.asset@ == "btc"@,
            r is Ok && timestep_setting is None ==> r->Ok_0.timestep_mins == 5,
            r is Ok && timestep_setting is Some ==> r->Ok_0.timestep_mins == interval_of(
                timestep_setting->0@,
            ),
    {
        let name: String = client_cex_name.to_owned();
        let supported: String = "coinspot".to_owned();
        if name != supported {
            return Err(ConfigError::UnsupportedClient);
        }
        let timestep_mins = interval_minutes_from_setting(timestep_setting);
        Ok(Daemon { asset: "btc".to_owned(), timestep_mins })
    }

    /// Reads the clock and returns how many seconds the loop should sleep
    /// until the next aligned boundary: always at least one, at most one
    /// interval plus the five-second skip window, and exactly the boundary
    /// delay of some valid time of day.
    pub fn get_seconds_to_timestep_next(&self) -> (r: u64)
        requires
            self.wf(),
        ensures
            1 <= r <= self.timestep_mins * 60 + 5,
            exists|m: int, s: int|
                0 <= m < 60 && 0 <= s < 60 && r == boundary_delay(
                    m,
                    s,
                    self.timestep_mins as int,
                ),
    {
        let (minute, second) = clock_minute_second();
        let r = seconds_to_timestep_next(minute, second, self.timestep_mins);
        proof {
            lemma_delay_bounds(minute as int, second as int, self.timestep_mins as int);
            assert(r == boundary_delay(minute as int, second as int, self.timestep_mins as int));
        }
        r
    }
}

/// Relies on `chrono::Utc::now` for the current UTC time and on
/// `chrono::Timelike::minute` and `chrono::Timelike::second` to read its
/// minute-of-hour and second, which chrono documents as lying in 0 to 59
/// (a leap second is carried in the nanosecond field, never here).
#[verifier::external_body]
fn clock_minute_second() -> (r: (u32, u32))
    ensures
        r.0 < 60,
        r.1 < 60,
{
    let now = chrono::Utc::now();
    (chrono::Timelike::minute(&now), chrono::Timelike::second(&now))
}

} // verus!
