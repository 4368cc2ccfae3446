use vstd::prelude::*;
use vstd::string::StrSliceExecFns;
use crate::settings::Settings;

verus! {

/// The period in seconds of an update interval; zero for "manual" and for
/// any text that names no period.
pub open spec fn interval_secs(interval: Seq<char>) -> u64 {
    if interval == "30min"@ {
        1800
    } else if interval == "1hour"@ {
        3600
    } else if interval == "6hour"@ {
        21600
    } else if interval == "daily"@ {
        86400
    } else {
        0
    }
}

/// The timer period that an update interval asks for, if any.
pub open spec fn schedule_for(interval: Seq<char>) -> Option<u64> {
    if interval_secs(interval) == 0 {
        None
    } else {
        Some(interval_secs(interval))
    }
}

fn text_equals(a: &str, b: &str) -> (r: bool)
    ensures
        r == (a@ == b@),
{
    let n = a.unicode_len();
    if n != b.unicode_len() {
        return false;
    }
    let mut i: usize = 0;
    while i < n
        invariant
            n == a@.len(),
            n == b@.len(),
            i <= n,
            forall|j: int| 0 <= j < i ==> a@[j] == b@[j],
        decreases n - i,
    {
        if a.get_char(i) != b.get_char(i) {
            return false;
        }
        i = i + 1;
    }
    proof {
        assert(a@ =~= b@);
    }
    true
}

/// The period in seconds of an update interval: 30 minutes, one hour, six
/// hours or a day; zero for "manual" and anything else.
pub fn get_interval_secs(interval: &str) -> (r: u64)
    ensures
        r == interval_secs(interval@),
{
    if text_equals(interval, "30min") {
        1800
    } else if text_equals(interval, "1hour") {
        3600
    } else if text_equals(interval, "6hour") {
        21600
    } else if text_equals(interval, "daily") {
        86400
    } else {
        0
    }
}

/// The periodic trigger of the process: the period of the one timer that
/// runs, if any. There is never more than one.
#[derive(Clone, Copy, Debug, PartialEq, Eq)]
pub struct SchedulerState {
    pub period_secs: Option<u64>,
}

impl SchedulerState {
    /// No timer runs.
    pub fn new() -> (r: SchedulerState)
        ensures
            r.period_secs is None,
    {
        SchedulerState { period_secs: None }
    }
}

/// What the host has to do with its timer after a scheduling decision.
#[derive(Clone, Copy, Debug, PartialEq, Eq)]
pub struct TimerPlan {
    /// Cancel the timer that runs now.
    pub cancel_running: bool,
    /// Then start a timer that fires every so many seconds.
    pub start_every: Option<u64>,
}

/// Stops the periodic trigger; returns whether a timer was running and has to
/// be cancelled.
pub fn stop_scheduler_inner(state: &mut SchedulerState) -> (cancelled: bool)
    ensures
        final(state).period_secs is None,
        cancelled == old(state).period_secs is Some,
{
    let cancelled = state.period_secs.is_some();
    state.period_secs = None;
    cancelled
}

/// Replaces the periodic trigger by the one the settings ask for: the running
/// timer, if any, is cancelled first, and a new one starts only for an
/// interval that names a period.
pub fn start_scheduler_inner(state: &mut SchedulerState, settings: &Settings) -> (r: TimerPlan)
    ensures
        final(state).period_secs == schedule_for(settings.update_interval@),
        r.cancel_running == old(state).period_secs is Some,
        r.start_every == final(state).period_secs,
{
    let cancel_running = stop_scheduler_inner(state);
    let secs = get_interval_secs(settings.update_interval.as_str());
    if secs == 0 {
        return TimerPlan { cancel_running, start_every: None };
    }
    state.period_secs = Some(secs);
    TimerPlan { cancel_running, start_every: Some(secs) }
}

/// Starts the periodic trigger from saved settings: "manual" settings leave
/// the scheduler as it is; any other interval replaces the running timer as
/// [`start_scheduler_inner`] does.
pub fn start_saved_schedule(state: &mut SchedulerState, settings: &Settings) -> (r: TimerPlan)
    ensures
        settings.update_interval@ == "manual"@ ==> {
            &&& *final(state) == *old(state)
            &&& r == (TimerPlan { cancel_running: false, start_every: None })
        },
        settings.update_interval@ != "manual"@ ==> {
            &&& final(state).period_secs == schedule_for(settings.update_interval@)
            &&& r.cancel_running == old(state).period_secs is Some
            &&& r.start_every == final(state).period_secs
        },
{
    if text_equals(settings.update_interval.as_str(), "manual") {
        return TimerPlan { cancel_running: false, start_every: None };
    }
    start_scheduler_inner(state, settings)
}

} // verus!
