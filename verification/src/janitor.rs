//! The janitor's schedule: when the next cleanup runs, and how long to wait
//! for it; and what a backfill attempt leaves behind.
use vstd::prelude::*;
use crate::feedgen::cursor::CHRONO_MAX_SECS;

verus! {

/// The schedule the janitor falls back on: every hour, on the hour.
pub const HOURLY_SCHEDULE: &'static str = "0 0 * * * *";

/// Whether the `cron` crate reads a schedule from the text.
pub uninterp spec fn spec_cron_valid(schedule: Seq<char>) -> bool;

/// The second (since the Unix epoch) of the first run of a schedule after the
/// UTC second `now`, where there is one.
pub uninterp spec fn spec_cron_next(schedule: Seq<char>, now: i64) -> Option<i64>;

/// Calls `cron::Schedule::from_str`. Claims that the answer is the name
/// `spec_cron_valid` of the text, and that the hourly schedule is valid.
#[verifier::external_body]
fn cron_valid(schedule: &str) -> (r: bool)
    ensures
        r == spec_cron_valid(schedule@),
        schedule@ == HOURLY_SCHEDULE@ ==> r,
{
    <::cron::Schedule as std::str::FromStr>::from_str(schedule).is_ok()
}

/// Reads the schedule with `cron::Schedule::from_str` and takes the first
/// time of `after` the UTC second `now` (made with chrono's
/// `DateTime::from_timestamp`). Claims that the result is the name
/// `spec_cron_next` of schedule and time. `after` adds one second to the
/// time with chrono's panicking `+`, so the time must lie before chrono's
/// last second.
#[verifier::external_body]
fn cron_next(schedule: &str, now: i64) -> (r: Option<i64>)
    requires
        spec_cron_valid(schedule@),
        now < CHRONO_MAX_SECS,
    ensures
        r == spec_cron_next(schedule@, now),
{
    match (<::cron::Schedule as std::str::FromStr>::from_str(schedule), ::chrono::DateTime::from_timestamp(now, 0)) {
        (Ok(s), Some(t)) => s.after(&t).next().map(|d| d.timestamp()),
        _ => None,
    }
}

/// The schedule the janitor follows: the configured one where `cron` reads
/// it, else the hourly one.
pub open spec fn spec_effective_schedule(configured: Seq<char>) -> Seq<char> {
    if spec_cron_valid(configured) { configured } else { HOURLY_SCHEDULE@ }
}

/// What the janitor does next: wait this many seconds (if any) and clean.
pub struct CleanupStep {
    pub wait_seconds: Option<u64>,
}

/// What the janitor does next at the UTC second `now`, under the configured
/// schedule: `None` where the schedule has no next run. `now` lies before
/// chrono's last second, past which looking for the next run fails.
pub fn next_cleanup(configured: &str, now: i64) -> (r: Option<CleanupStep>)
    requires
        now < CHRONO_MAX_SECS,
    ensures
        match spec_cron_next(spec_effective_schedule(configured@), now) {
            None => r is None,
            Some(next) => r matches Some(step) && step.wait_seconds == if next - now > 0 {
                Some((next - now) as u64)
            } else {
                None::<u64>
            },
        },
{
    let valid = cron_valid(configured);
    let next = if valid {
        cron_next(configured, now)
    } else if cron_valid(HOURLY_SCHEDULE) {
        cron_next(HOURLY_SCHEDULE, now)
    } else {
        None
    };
    match next {
        None => None,
        Some(t) => {
            let wait = if t > now {
                let d: i128 = (t as i128) - (now as i128);
                Some(d as u64)
            } else {
                None
            };
            Some(CleanupStep { wait_seconds: wait })
        },
    }
}

/// The state a backfill job is left in.
#[derive(Clone, Copy, Debug, PartialEq, Eq, Structural)]
pub enum BackfillState {
    Completed,
    Pending,
    Failed,
}

/// Attempts after which a failing backfill job is given up.
pub const MAX_BACKFILL_ATTEMPTS: i32 = 10;

/// What a backfill attempt leaves behind: the job's state, and for a failed
/// attempt its new attempt count and error text.
pub struct BackfillUpdate {
    pub state: BackfillState,
    pub attempts: Option<i32>,
    pub last_error: Option<&'static str>,
}

/// What a backfill attempt of a job with `attempts` earlier attempts leaves
/// behind.
pub fn backfill_update(success: bool, attempts: i32) -> (r: BackfillUpdate)
    requires
        !success ==> attempts < i32::MAX,
    ensures
        success ==> r.state == BackfillState::Completed && r.attempts is None && r.last_error is None,
        !success && attempts >= MAX_BACKFILL_ATTEMPTS ==> r.state == BackfillState::Failed
            && r.attempts == Some((attempts + 1) as i32)
            && (r.last_error matches Some(e) && e@ == "Max retries exceeded"@),
        !success && attempts < MAX_BACKFILL_ATTEMPTS ==> r.state == BackfillState::Pending
            && r.attempts == Some((attempts + 1) as i32)
            && (r.last_error matches Some(e) && e@ == "Failed to backfill"@),
{
    if success {
        BackfillUpdate { state: BackfillState::Completed, attempts: None, last_error: None }
    } else if attempts >= MAX_BACKFILL_ATTEMPTS {
        BackfillUpdate { state: BackfillState::Failed, attempts: Some(attempts + 1), last_error: Some("Max retries exceeded") }
    } else {
        BackfillUpdate { state: BackfillState::Pending, attempts: Some(attempts + 1), last_error: Some("Failed to backfill") }
    }
}

} // verus!
