//! The activity watchdog of a session: it ends the session when the maximum
//! duration is reached or, where silence detection is on, when nothing was
//! heard for too long.
//!
//! The watchdog is driven from outside. Before each sleep of
//! [`CHECK_INTERVAL_SECS`] it is polled, after each sleep it is ticked. What
//! it decides depends on what it is told about the session; it touches
//! nothing itself.

use vstd::prelude::*;

verus! {

/// Seconds the watchdog sleeps between two looks at the session.
pub const CHECK_INTERVAL_SECS: u64 = 10;

/// Length of the warm-up at the start of a session, in which silence is never
/// judged.
pub const WARMUP_SECS: u64 = 20;

/// Seconds without activity after which a session is stopped.
pub const INACTIVITY_LIMIT_SECS: u64 = 60;

/// What the watchdog does when it is polled.
#[derive(Debug, Clone, Copy, PartialEq, Eq, Structural)]
pub enum WatchdogAction {
    /// Sleep one interval, then tick.
    Wait,
    /// The maximum duration is reached: the session is stopped and the
    /// watchdog ends.
    StopForMaxDuration,
    /// The session has ended already: the watchdog ends.
    Exit,
}

/// What the watchdog finds when it is ticked.
#[derive(Debug, Clone, Copy, PartialEq, Eq, Structural)]
pub enum TickOutcome {
    /// Nothing to do; poll again.
    Continue,
    /// Still warming up: the time of the last activity is set to now; poll
    /// again.
    Refresh,
    /// Nothing was heard for too long: the session is stopped and the
    /// watchdog ends.
    StopForSilence,
}

/// The watchdog of one session.
#[derive(Debug, Clone, Copy, PartialEq, Eq, Structural)]
pub struct Watchdog {
    /// The session that is watched.
    pub session: u64,
    /// Seconds slept so far.
    pub elapsed_secs: u64,
}

/// What a poll decides: a watchdog whose session still records waits while
/// the time slept is below the maximum duration.
pub open spec fn poll_decision(recording: bool, elapsed_secs: u64, max_duration_secs: u64)
    -> WatchdogAction {
    if !recording {
        WatchdogAction::Exit
    } else if elapsed_secs < max_duration_secs {
        WatchdogAction::Wait
    } else {
        WatchdogAction::StopForMaxDuration
    }
}

/// Whether activity was recorded at least once and more than
/// [`INACTIVITY_LIMIT_SECS`] have passed since the last.
pub open spec fn silent_too_long(now_secs: u64, last_active_secs: u64) -> bool {
    last_active_secs > 0 && now_secs - last_active_secs > INACTIVITY_LIMIT_SECS as int
}

/// What a tick decides, given the time slept including the last sleep.
pub open spec fn tick_decision(
    elapsed_secs: u64,
    silence_detection_disabled: bool,
    now_secs: u64,
    last_active_secs: u64,
) -> TickOutcome {
    if silence_detection_disabled {
        TickOutcome::Continue
    } else if elapsed_secs < WARMUP_SECS {
        TickOutcome::Refresh
    } else if silent_too_long(now_secs, last_active_secs) {
        TickOutcome::StopForSilence
    } else {
        TickOutcome::Continue
    }
}

/// The time slept after one more sleep. It stops growing at the largest
/// value it can hold.
pub open spec fn after_sleep(elapsed_secs: u64) -> u64 {
    if elapsed_secs + CHECK_INTERVAL_SECS > u64::MAX {
        u64::MAX
    } else {
        (elapsed_secs + CHECK_INTERVAL_SECS) as u64
    }
}

/// The time slept at which a watchdog that nothing else stops reports the
/// maximum duration, counted from `elapsed_secs`.
pub open spec fn max_duration_stop(elapsed_secs: u64, max_duration_secs: u64) -> u64
    decreases u64::MAX - elapsed_secs,
{
    if poll_decision(true, elapsed_secs, max_duration_secs) is Wait {
        max_duration_stop(after_sleep(elapsed_secs), max_duration_secs)
    } else {
        elapsed_secs
    }
}

impl Watchdog {
    /// The watchdog of a session at its start.
    pub fn new(session: u64) -> (dog: Watchdog)
        ensures
            dog.session == session,
            dog.elapsed_secs == 0,
    {
        Watchdog { session, elapsed_secs: 0 }
    }

    /// Decides, before a sleep, whether to go on.
    pub fn poll(&self, recording: bool, max_duration_secs: u64) -> (action: WatchdogAction)
        ensures
            action == poll_decision(recording, self.elapsed_secs, max_duration_secs),
    {
        if !recording {
            WatchdogAction::Exit
        } else if self.elapsed_secs < max_duration_secs {
            WatchdogAction::Wait
        } else {
            WatchdogAction::StopForMaxDuration
        }
    }

    /// Accounts for the sleep that has just ended and judges the silence.
    pub fn tick(
        &mut self,
        silence_detection_disabled: bool,
        now_secs: u64,
        last_active_secs: u64,
    ) -> (outcome: TickOutcome)
        ensures
            final(self).session == old(self).session,
            final(self).elapsed_secs == after_sleep(old(self).elapsed_secs),
            outcome == tick_decision(
                final(self).elapsed_secs,
                silence_detection_disabled,
                now_secs,
                last_active_secs,
            ),
    {
        self.elapsed_secs = self.elapsed_secs.saturating_add(CHECK_INTERVAL_SECS);
        if silence_detection_disabled {
            TickOutcome::Continue
        } else if self.elapsed_secs < WARMUP_SECS {
            TickOutcome::Refresh
        } else if last_active_secs > 0 && now_secs > last_active_secs && now_secs
            - last_active_secs > INACTIVITY_LIMIT_SECS {
            TickOutcome::StopForSilence
        } else {
            TickOutcome::Continue
        }
    }
}

/// A session that nothing else stops ends at the first poll at or after its
/// maximum duration, less than one interval late.
pub proof fn lemma_max_duration_stop_bounds(elapsed_secs: u64, max_duration_secs: u64)
    requires
        elapsed_secs <= max_duration_secs,
        max_duration_secs + CHECK_INTERVAL_SECS <= u64::MAX,
    ensures
        max_duration_secs <= max_duration_stop(elapsed_secs, max_duration_secs),
        max_duration_stop(elapsed_secs, max_duration_secs) < max_duration_secs
            + CHECK_INTERVAL_SECS,
        poll_decision(
            true,
            max_duration_stop(elapsed_secs, max_duration_secs),
            max_duration_secs,
        ) is StopForMaxDuration,
    decreases u64::MAX - elapsed_secs,
{
    if elapsed_secs < max_duration_secs {
        let next = after_sleep(elapsed_secs);
        if next <= max_duration_secs {
            lemma_max_duration_stop_bounds(next, max_duration_secs);
        } else {
            assert(max_duration_stop(next, max_duration_secs) == next);
        }
    }
}

/// With silence detection on, the tick after `intervals` sleeps of a session
/// that began at `start_secs` and last heard something `heard_after` seconds
/// later stops the session exactly when the warm-up is over and more than the
/// inactivity limit has passed since.
pub proof fn lemma_silence_stop_window(start_secs: u64, heard_after: u64, intervals: u64)
    requires
        start_secs + heard_after > 0,
        start_secs + heard_after <= u64::MAX,
        start_secs + intervals * CHECK_INTERVAL_SECS <= u64::MAX,
    ensures
        tick_decision(
            (intervals * CHECK_INTERVAL_SECS) as u64,
            false,
            (start_secs + intervals * CHECK_INTERVAL_SECS) as u64,
            (start_secs + heard_after) as u64,
        ) is StopForSilence <==> intervals * CHECK_INTERVAL_SECS >= WARMUP_SECS && intervals
            * CHECK_INTERVAL_SECS > heard_after + INACTIVITY_LIMIT_SECS,
{
}

} // verus!
