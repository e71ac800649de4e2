//! The per-name refresh state machine.
//!
//! A `Refresher` owns one name and a `RefreshState`, and cycles through
//! `Init` (about to issue a lookup), `Pending` (a lookup is outstanding,
//! bounded by an attempt deadline) and `Valid` (waiting out a validity
//! window) forever. The driver hands it an `Event` together with the
//! current monotonic time and performs the `Action` it returns: issue a
//! lookup, print a result line, log a failure, or note a refresh.
//!
//! Time is modelled as monotonic milliseconds.

use vstd::prelude::*;
use vstd::string::StringExecFns;

verus! {

/// Upper bound, in milliseconds, on how long a single resolution attempt
/// may stay outstanding before it is treated as failed.
pub const ATTEMPT_TIMEOUT_MS: u64 = 100;

/// Fallback validity window, in milliseconds, used when a failed attempt
/// carries no retry hint.
pub const ERROR_TTL_MS: u64 = 10_000;

/// A successful resolution: the canonical name the resolver reported and
/// the absolute deadline (monotonic milliseconds) up to which the result
/// is valid.
#[derive(Clone, Debug, PartialEq, Eq)]
pub struct LookupOutcome {
    pub canonical: String,
    pub valid_until: u64,
}

/// A failed resolution attempt.
#[derive(Clone, Debug, PartialEq, Eq)]
pub enum LookupFailure {
    /// The attempt did not complete within `ATTEMPT_TIMEOUT_MS`.
    AttemptTimeout,
    /// The resolver reported that no records exist, possibly with an
    /// explicit time at which to retry.
    NoRecordsFound { retry_at: Option<u64>, detail: String },
    /// Any other resolver error.
    Other { detail: String },
}

/// The state of one refresh cycle.
#[derive(Clone, Debug, PartialEq, Eq)]
pub enum RefreshState {
    /// No outstanding operation; about to issue a lookup.
    Init,
    /// A lookup is outstanding, bounded by the attempt deadline.
    Pending { deadline: u64 },
    /// A validity (or fallback) wait is outstanding; no lookup in flight.
    Valid { until: u64 },
}

/// What the driver observed: the machine was polled while idle, the
/// outstanding lookup resolved or failed, or the validity wait elapsed.
#[derive(Clone, Debug, PartialEq, Eq)]
pub enum Event {
    /// The task was woken while in `Init`.
    Wake,
    /// The outstanding lookup completed before its deadline.
    Resolved(LookupOutcome),
    /// The outstanding lookup failed, or its attempt deadline passed.
    Failed(LookupFailure),
    /// The timer stored in `Valid` fired.
    WaitElapsed,
}

/// The side effect the driver must perform after a step.
#[derive(Clone, Debug, PartialEq, Eq)]
pub enum Action {
    /// Issue `lookup(name)`, bounded by the given absolute deadline.
    IssueLookup { attempt_deadline: u64 },
    /// Print `line` to standard output and report the remaining validity.
    ReportSuccess { line: String, remaining_secs: u64 },
    /// Log the failure detail for this name.
    ReportFailure { detail: String },
    /// Log a debug marker: a fresh cycle begins.
    NoteRefresh,
}

/// The retry hint a failure carries: only a "no records found" report may
/// name an explicit time at which to retry.
pub open spec fn retry_hint(f: LookupFailure) -> Option<u64> {
    match f {
        LookupFailure::NoRecordsFound { retry_at, .. } => retry_at,
        _ => None,
    }
}

/// The deadline a failure at time `now` schedules: the hinted retry time
/// if there is one, else `now` plus the fallback window.
pub open spec fn spec_failure_deadline(f: LookupFailure, now: u64) -> int {
    match retry_hint(f) {
        Option::Some(t) => t as int,
        Option::None => now + ERROR_TTL_MS,
    }
}

/// The detail text reported for a failure.
pub open spec fn spec_failure_detail(f: LookupFailure) -> Seq<char> {
    match f {
        LookupFailure::AttemptTimeout => "resolution attempt timed out"@,
        LookupFailure::NoRecordsFound { detail, .. } => detail@,
        LookupFailure::Other { detail } => detail@,
    }
}

/// Whole seconds of validity left at `now`, clamped at zero for a window
/// that is already stale.
pub open spec fn spec_remaining_secs(valid_until: u64, now: u64) -> int {
    if valid_until >= now {
        (valid_until - now) / 1000
    } else {
        0
    }
}

/// The output line for a successful resolution.
pub open spec fn spec_success_line(name: Seq<char>, canonical: Seq<char>) -> Seq<char> {
    name + ": "@ + canonical
}

/// Which events a state accepts: the cycle `Init` -> `Pending` -> `Valid`
/// -> `Init`, with both lookup outcomes (and the attempt timeout, which
/// arrives as a failure) accepted in `Pending`.
pub open spec fn step_allowed(s: RefreshState, ev: Event) -> bool {
    match (s, ev) {
        (RefreshState::Init, Event::Wake) => true,
        (RefreshState::Pending { .. }, Event::Resolved(_)) => true,
        (RefreshState::Pending { .. }, Event::Failed(_)) => true,
        (RefreshState::Valid { .. }, Event::WaitElapsed) => true,
        _ => false,
    }
}

/// The deadlines a step computes stay within `u64`: only entering
/// `Pending` and falling back after an unhinted failure ever move `now`
/// forward.
pub open spec fn step_fits(ev: Event, now: u64) -> bool {
    match ev {
        Event::Wake => now + ATTEMPT_TIMEOUT_MS <= u64::MAX,
        Event::Failed(f) => retry_hint(f) is Some || now + ERROR_TTL_MS <= u64::MAX,
        _ => true,
    }
}

/// The state after an allowed event at time `now`.
pub open spec fn next_state(s: RefreshState, ev: Event, now: u64) -> RefreshState
    recommends
        step_allowed(s, ev),
        step_fits(ev, now),
{
    match ev {
        Event::Wake => RefreshState::Pending { deadline: (now + ATTEMPT_TIMEOUT_MS) as u64 },
        Event::Resolved(out) => RefreshState::Valid { until: out.valid_until },
        Event::Failed(f) => RefreshState::Valid { until: spec_failure_deadline(f, now) as u64 },
        Event::WaitElapsed => RefreshState::Init,
    }
}

/// What a step of a refresher named `name` must hand back to the driver.
pub open spec fn step_action(name: Seq<char>, ev: Event, now: u64, act: Action) -> bool {
    match ev {
        Event::Wake => act == (Action::IssueLookup {
            attempt_deadline: (now + ATTEMPT_TIMEOUT_MS) as u64,
        }),
        Event::Resolved(out) => match act {
            Action::ReportSuccess { line, remaining_secs } => line@ == spec_success_line(
                name,
                out.canonical@,
            ) && remaining_secs == spec_remaining_secs(out.valid_until, now),
            _ => false,
        },
        Event::Failed(f) => match act {
            Action::ReportFailure { detail } => detail@ == spec_failure_detail(f),
            _ => false,
        },
        Event::WaitElapsed => act == Action::NoteRefresh,
    }
}

/// Whole seconds of validity left at `now`, clamped at zero.
pub fn remaining_secs(valid_until: u64, now: u64) -> (r: u64)
    ensures
        r == spec_remaining_secs(valid_until, now),
{
    if valid_until >= now {
        (valid_until - now) / 1000
    } else {
        0
    }
}

/// Builds the output line `"<name>: <canonical>"`.
pub fn success_line(name: &String, canonical: &String) -> (line: String)
    ensures
        line@ == spec_success_line(name@, canonical@),
{
    let mut line = name.clone();
    line.append(": ");
    line.append(canonical.as_str());
    line
}

impl LookupFailure {
    /// The detail text to log for this failure.
    pub fn into_detail(self) -> (r: String)
        ensures
            r@ == spec_failure_detail(self),
    {
        match self {
            LookupFailure::AttemptTimeout => "resolution attempt timed out".to_owned(),
            LookupFailure::NoRecordsFound { detail, .. } => detail,
            LookupFailure::Other { detail } => detail,
        }
    }

    /// The hinted retry time, if this failure carries one.
    pub fn hint(&self) -> (r: Option<u64>)
        ensures
            r == retry_hint(*self),
    {
        match self {
            LookupFailure::NoRecordsFound { retry_at, .. } => *retry_at,
            _ => Option::None,
        }
    }
}

/// One refresher: a name and the state of its refresh cycle.
pub struct Refresher {
    pub name: String,
    pub state: RefreshState,
}

impl Refresher {
    /// A fresh refresher for `name`, ready to issue its first lookup.
    pub fn new(name: String) -> (r: Refresher)
        ensures
            r.name == name,
            r.state == RefreshState::Init,
    {
        Refresher { name, state: RefreshState::Init }
    }

    /// Advances the cycle by one allowed event observed at time `now` and
    /// returns the side effect the driver must perform.
    pub fn step(&mut self, ev: Event, now: u64) -> (act: Action)
        requires
            step_allowed(old(self).state, ev),
            step_fits(ev, now),
        ensures
            final(self).name == old(self).name,
            final(self).state == next_state(old(self).state, ev, now),
            step_action(old(self).name@, ev, now, act),
    {
        match ev {
            Event::Wake => {
                let deadline = now + ATTEMPT_TIMEOUT_MS;
                self.state = RefreshState::Pending { deadline };
                Action::IssueLookup { attempt_deadline: deadline }
            },
            Event::Resolved(out) => {
                let line = success_line(&self.name, &out.canonical);
                let rem = remaining_secs(out.valid_until, now);
                self.state = RefreshState::Valid { until: out.valid_until };
                Action::ReportSuccess { line, remaining_secs: rem }
            },
            Event::Failed(f) => {
                let until = match f.hint() {
                    Option::Some(t) => t,
                    Option::None => now + ERROR_TTL_MS,
                };
                self.state = RefreshState::Valid { until };
                Action::ReportFailure { detail: f.into_detail() }
            },
            Event::WaitElapsed => {
                self.state = RefreshState::Init;
                Action::NoteRefresh
            },
        }
    }
}

} // verus!
