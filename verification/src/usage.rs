//! The usage snapshot shown by the dock and the transitions that the App
//! Server session drives it through.
use crate::percent::{clamp_percent, clamped_percent, percent_equal, same_percent};
use std::time::{Duration, SystemTime, SystemTimeError};
use vstd::prelude::*;

verus! {

/// Length, in minutes, of the five-hour window.
pub const FIVE_HOUR_MINS: u64 = 300;

/// Length, in minutes, of the seven-day window.
pub const SEVEN_DAY_MINS: u64 = 10080;

/// State of the connection to the local App Server.
#[derive(Debug, Clone, Copy, PartialEq, Eq, Structural)]
pub enum ConnectionStatus {
    Connecting,
    Connected,
    Error,
}

impl Default for ConnectionStatus {
    fn default() -> (status: Self)
        ensures
            status == ConnectionStatus::Connecting,
    {
        ConnectionStatus::Connecting
    }
}

/// One usage window as the dock shows it. Equality compares the percentage as
/// a binary64 value: `0.0 == -0.0`, and a NaN equals nothing.
#[derive(Debug, Clone, Copy)]
pub struct UsageWindow {
    /// Binary64 encoding of the used percentage, in `0.0 ..= 100.0` unless NaN.
    pub used_percent_bits: u64,
    pub window_duration_mins: u64,
    pub resets_at: u64,
}

impl PartialEq for UsageWindow {
    fn eq(&self, other: &Self) -> (equal: bool) {
        percent_equal(self.used_percent_bits, other.used_percent_bits)
            && self.window_duration_mins == other.window_duration_mins && self.resets_at
            == other.resets_at
    }
}

impl vstd::std_specs::cmp::PartialEqSpecImpl for UsageWindow {
    open spec fn obeys_eq_spec() -> bool {
        true
    }

    open spec fn eq_spec(&self, other: &Self) -> bool {
        &&& same_percent(self.used_percent_bits, other.used_percent_bits)
        &&& self.window_duration_mins == other.window_duration_mins
        &&& self.resets_at == other.resets_at
    }
}

/// One rate-limit window as the App Server reports it. Equality compares the
/// percentage's encoding, as for `UsageWindow`.
#[derive(Debug, Clone, Copy, PartialEq, Eq, Structural)]
pub struct RateLimitWindow {
    /// Binary64 encoding of the used percentage, as reported.
    pub used_percent_bits: u64,
    pub window_duration_mins: u64,
    pub resets_at: u64,
}

/// A rate-limit bucket: up to two windows.
#[derive(Debug, Clone, Copy, PartialEq, Eq, Structural)]
pub struct RateLimitBucket {
    pub primary: Option<RateLimitWindow>,
    pub secondary: Option<RateLimitWindow>,
}

impl Default for RateLimitBucket {
    fn default() -> (bucket: Self)
        ensures
            bucket.primary is None,
            bucket.secondary is None,
    {
        RateLimitBucket { primary: None, secondary: None }
    }
}

/// What the dock knows of the account's usage.
#[derive(Debug, Clone, PartialEq)]
pub struct UsageSnapshot {
    pub five_hour: Option<UsageWindow>,
    pub seven_day: Option<UsageWindow>,
    pub connection: ConnectionStatus,
    pub error: Option<String>,
    pub updated_at: Option<u64>,
}

impl Default for UsageSnapshot {
    fn default() -> (snapshot: Self)
        ensures
            snapshot == UsageSnapshot::initial(),
    {
        UsageSnapshot {
            five_hour: None,
            seven_day: None,
            connection: ConnectionStatus::Connecting,
            error: None,
            updated_at: None,
        }
    }
}

/// The window that the dock shows for a reported one: same duration and reset
/// time, percentage clamped to `0.0 ..= 100.0`.
pub open spec fn shown_window(window: RateLimitWindow) -> UsageWindow {
    UsageWindow {
        used_percent_bits: clamped_percent(window.used_percent_bits),
        window_duration_mins: window.window_duration_mins,
        resets_at: window.resets_at,
    }
}

/// The duration is one of the two windows that the dock shows.
pub open spec fn is_known_duration(mins: u64) -> bool {
    mins == FIVE_HOUR_MINS || mins == SEVEN_DAY_MINS
}

/// No window of the bucket has a duration that the dock shows.
pub open spec fn has_no_known_window(bucket: RateLimitBucket) -> bool {
    &&& (bucket.primary matches Some(w) ==> !is_known_duration(w.window_duration_mins))
    &&& (bucket.secondary matches Some(w) ==> !is_known_duration(w.window_duration_mins))
}

impl UsageSnapshot {
    /// The snapshot before any session: connecting, nothing known.
    pub open spec fn initial() -> UsageSnapshot {
        UsageSnapshot {
            five_hour: None,
            seven_day: None,
            connection: ConnectionStatus::Connecting,
            error: None,
            updated_at: None,
        }
    }

    /// An error message is present exactly when the status is `Error`.
    pub open spec fn status_consistent(self) -> bool {
        self.error is Some <==> self.connection == ConnectionStatus::Error
    }

    /// The snapshot with one reported window recorded: a five-hour window
    /// replaces the five-hour slot, a seven-day window the seven-day slot, and
    /// a window of any other duration changes nothing.
    pub open spec fn with_window(self, window: RateLimitWindow) -> UsageSnapshot {
        if window.window_duration_mins == FIVE_HOUR_MINS {
            UsageSnapshot { five_hour: Some(shown_window(window)), ..self }
        } else if window.window_duration_mins == SEVEN_DAY_MINS {
            UsageSnapshot { seven_day: Some(shown_window(window)), ..self }
        } else {
            self
        }
    }

    pub open spec fn with_optional_window(self, window: Option<RateLimitWindow>) -> UsageSnapshot {
        match window {
            Some(w) => self.with_window(w),
            None => self,
        }
    }

    /// The snapshot after a bucket was applied at time `now`: the primary
    /// window is recorded, then the secondary one; the status is `Connected`,
    /// the error is cleared and the update time is `now`.
    pub open spec fn applied(self, bucket: RateLimitBucket, now: u64) -> UsageSnapshot {
        let recorded = self.with_optional_window(bucket.primary).with_optional_window(
            bucket.secondary,
        );
        UsageSnapshot {
            connection: ConnectionStatus::Connected,
            error: None,
            updated_at: Some(now),
            ..recorded
        }
    }

    /// The snapshot while a new session starts: `Connecting`, no error.
    pub open spec fn connecting(self) -> UsageSnapshot {
        UsageSnapshot { connection: ConnectionStatus::Connecting, error: None, ..self }
    }

    /// The snapshot after a session failed with `message`.
    pub open spec fn errored(self, message: String) -> UsageSnapshot {
        UsageSnapshot { connection: ConnectionStatus::Error, error: Some(message), ..self }
    }

    fn record_window(&mut self, window: RateLimitWindow)
        ensures
            *final(self) == old(self).with_window(window),
    {
        let shown = UsageWindow {
            used_percent_bits: clamp_percent(window.used_percent_bits),
            window_duration_mins: window.window_duration_mins,
            resets_at: window.resets_at,
        };
        if shown.window_duration_mins == FIVE_HOUR_MINS {
            self.five_hour = Some(shown);
        } else if shown.window_duration_mins == SEVEN_DAY_MINS {
            self.seven_day = Some(shown);
        }
    }

    /// Applies a bucket read at time `now` (seconds since the Unix epoch).
    pub fn apply_bucket_at(&mut self, bucket: RateLimitBucket, now: u64)
        ensures
            *final(self) == old(self).applied(bucket, now),
    {
        if let Some(window) = bucket.primary {
            self.record_window(window);
        }
        if let Some(window) = bucket.secondary {
            self.record_window(window);
        }
        self.connection = ConnectionStatus::Connected;
        self.error = None;
        self.updated_at = Some(now);
    }

    /// Applies a bucket at the current time of the system clock.
    pub fn apply_bucket(&mut self, bucket: RateLimitBucket)
        ensures
            final(self).updated_at is Some,
            *final(self) == old(self).applied(bucket, final(self).updated_at.unwrap()),
    {
        let now = now_unix();
        self.apply_bucket_at(bucket, now);
    }

    /// Marks the start of a new session.
    pub fn set_connecting(&mut self)
        ensures
            *final(self) == old(self).connecting(),
    {
        self.connection = ConnectionStatus::Connecting;
        self.error = None;
    }

    /// Records that the session failed with `message`.
    pub fn set_error(&mut self, message: String)
        ensures
            *final(self) == old(self).errored(message),
    {
        self.connection = ConnectionStatus::Error;
        self.error = Some(message);
    }
}

/// Every transition of the snapshot leaves it consistent: an error message is
/// present exactly when the status is `Error`, from the initial snapshot on.
pub proof fn lemma_transitions_keep_status_consistent(
    snapshot: UsageSnapshot,
    bucket: RateLimitBucket,
    now: u64,
    message: String,
)
    ensures
        UsageSnapshot::initial().status_consistent(),
        snapshot.applied(bucket, now).status_consistent(),
        snapshot.connecting().status_consistent(),
        snapshot.errored(message).status_consistent(),
{
}

/// Applying the same bucket twice at the same time gives what applying it once
/// gives.
pub proof fn lemma_apply_is_idempotent(snapshot: UsageSnapshot, bucket: RateLimitBucket, now: u64)
    ensures
        snapshot.applied(bucket, now).applied(bucket, now) == snapshot.applied(bucket, now),
{
    crate::percent::lemma_clamp_lands_in_range(0);
    if let Some(w) = bucket.primary {
        crate::percent::lemma_clamp_lands_in_range(w.used_percent_bits);
    }
    if let Some(w) = bucket.secondary {
        crate::percent::lemma_clamp_lands_in_range(w.used_percent_bits);
    }
}

/// A bucket whose windows have durations other than five hours and seven days
/// leaves both shown windows as they were.
pub proof fn lemma_unknown_windows_preserve_known_values(
    snapshot: UsageSnapshot,
    bucket: RateLimitBucket,
    now: u64,
)
    requires
        has_no_known_window(bucket),
    ensures
        snapshot.applied(bucket, now).five_hour == snapshot.five_hour,
        snapshot.applied(bucket, now).seven_day == snapshot.seven_day,
{
}

/// The window shown in a slot has a percentage in `0.0 ..= 100.0`.
pub open spec fn slot_in_range(slot: Option<UsageWindow>) -> bool {
    slot matches Some(w) ==> crate::percent::is_percent_encoding(w.used_percent_bits)
}

/// A reported window that is not a NaN percentage.
pub open spec fn reported_is_number(window: Option<RateLimitWindow>) -> bool {
    window matches Some(w) ==> !crate::percent::is_nan_encoding(w.used_percent_bits)
}

/// Shown percentages stay in `0.0 ..= 100.0`: applying a bucket whose reported
/// percentages are numbers to a snapshot whose shown ones are in range keeps
/// them in range, whatever the reported values.
pub proof fn lemma_shown_percentages_stay_in_range(
    snapshot: UsageSnapshot,
    bucket: RateLimitBucket,
    now: u64,
)
    requires
        slot_in_range(snapshot.five_hour),
        slot_in_range(snapshot.seven_day),
        reported_is_number(bucket.primary),
        reported_is_number(bucket.secondary),
    ensures
        slot_in_range(snapshot.applied(bucket, now).five_hour),
        slot_in_range(snapshot.applied(bucket, now).seven_day),
{
    if let Some(w) = bucket.primary {
        crate::percent::lemma_clamp_lands_in_range(w.used_percent_bits);
    }
    if let Some(w) = bucket.secondary {
        crate::percent::lemma_clamp_lands_in_range(w.used_percent_bits);
    }
}

/// The value a slot shows after a bucket was applied: the bucket's last window
/// (primary, then secondary) with the slot's duration, its percentage clamped,
/// or what the slot showed before when the bucket has no such window.
pub open spec fn slot_after(
    before: Option<UsageWindow>,
    bucket: RateLimitBucket,
    mins: u64,
) -> Option<UsageWindow> {
    if bucket.secondary is Some && bucket.secondary.unwrap().window_duration_mins == mins {
        Some(clamped_window(bucket.secondary.unwrap()))
    } else if bucket.primary is Some && bucket.primary.unwrap().window_duration_mins == mins {
        Some(clamped_window(bucket.primary.unwrap()))
    } else {
        before
    }
}

/// A reported window with its percentage clamped to `0.0 ..= 100.0`.
pub open spec fn clamped_window(w: RateLimitWindow) -> UsageWindow {
    UsageWindow {
        used_percent_bits: clamped_percent(w.used_percent_bits),
        window_duration_mins: w.window_duration_mins,
        resets_at: w.resets_at,
    }
}

/// Recording one window changes only the slot of its own duration, and that
/// slot then shows the window with its percentage clamped.
pub proof fn lemma_window_replaces_only_its_own_slot(snapshot: UsageSnapshot, window: RateLimitWindow)
    ensures
        window.window_duration_mins != SEVEN_DAY_MINS ==> snapshot.with_window(window).seven_day
            == snapshot.seven_day,
        window.window_duration_mins != FIVE_HOUR_MINS ==> snapshot.with_window(window).five_hour
            == snapshot.five_hour,
        window.window_duration_mins == FIVE_HOUR_MINS ==> snapshot.with_window(window).five_hour
            == Some(
            UsageWindow {
                used_percent_bits: clamped_percent(window.used_percent_bits),
                window_duration_mins: FIVE_HOUR_MINS,
                resets_at: window.resets_at,
            },
        ),
        window.window_duration_mins == SEVEN_DAY_MINS ==> snapshot.with_window(window).seven_day
            == Some(
            UsageWindow {
                used_percent_bits: clamped_percent(window.used_percent_bits),
                window_duration_mins: SEVEN_DAY_MINS,
                resets_at: window.resets_at,
            },
        ),
        snapshot.with_window(window).connection == snapshot.connection,
        snapshot.with_window(window).error == snapshot.error,
        snapshot.with_window(window).updated_at == snapshot.updated_at,
{
}

/// After a bucket is applied, each slot shows the bucket's last window of the
/// slot's duration (clamped), or keeps what it showed when the bucket has none;
/// the status is `Connected`, the error is cleared and the time is `now`.
pub proof fn lemma_apply_fills_slots_by_duration(snapshot: UsageSnapshot, bucket: RateLimitBucket, now: u64)
    ensures
        snapshot.applied(bucket, now).five_hour == slot_after(snapshot.five_hour, bucket, FIVE_HOUR_MINS),
        snapshot.applied(bucket, now).seven_day == slot_after(snapshot.seven_day, bucket, SEVEN_DAY_MINS),
        snapshot.applied(bucket, now).connection == ConnectionStatus::Connected,
        snapshot.applied(bucket, now).error is None,
        snapshot.applied(bucket, now).updated_at == Some(now),
{
}

#[verifier::external_type_specification]
#[verifier::external_body]
pub struct ExSystemTime(SystemTime);

#[verifier::external_type_specification]
#[verifier::external_body]
pub struct ExSystemTimeError(SystemTimeError);

/// Calls `std::time::SystemTime::now`. The reading of the clock is not
/// described: nothing is claimed of it.
#[verifier::external_body]
fn system_time_now() -> SystemTime {
    SystemTime::now()
}

/// Calls `SystemTime::duration_since` with `UNIX_EPOCH`: the time elapsed since
/// the epoch, or an error for a clock set before it. Nothing is claimed of
/// the opaque values.
#[verifier::external_body]
fn elapsed_since_unix_epoch(time: &SystemTime) -> Result<Duration, SystemTimeError> {
    time.duration_since(std::time::UNIX_EPOCH)
}

/// The whole seconds of a duration, as `Duration::as_secs` gives them.
pub uninterp spec fn whole_seconds_of(duration: Duration) -> u64;

/// Calls `Duration::as_secs`: the whole seconds of the duration, a function of
/// the duration alone, named `whole_seconds_of`.
#[verifier::external_body]
fn whole_seconds(duration: &Duration) -> (secs: u64)
    ensures
        secs == whole_seconds_of(*duration),
{
    duration.as_secs()
}

/// Whole seconds of the time elapsed since the Unix epoch, as
/// `elapsed_since_unix_epoch` gave it; zero for a clock set before the epoch.
pub fn seconds_or_zero(elapsed: Result<Duration, SystemTimeError>) -> (secs: u64)
    ensures
        match elapsed {
            Ok(duration) => secs == whole_seconds_of(duration),
            Err(_) => secs == 0,
        },
{
    match elapsed {
        Ok(elapsed) => whole_seconds(&elapsed),
        Err(_) => 0,
    }
}

/// Seconds since the Unix epoch by the system clock; zero when the clock is
/// set before the epoch (see `seconds_or_zero`).
pub fn now_unix() -> u64 {
    let now = system_time_now();
    seconds_or_zero(elapsed_since_unix_epoch(&now))
}

} // verus!
