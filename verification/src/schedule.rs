//! The scheduling guarantees of the refresh cycle, stated and proved over
//! the transition relation of `crate::refresh`.

use vstd::prelude::*;
use crate::refresh::ATTEMPT_TIMEOUT_MS;
use crate::refresh::ERROR_TTL_MS;
use crate::refresh::Event;
use crate::refresh::LookupFailure;
use crate::refresh::LookupOutcome;
use crate::refresh::RefreshState;
use crate::refresh::next_state;
use crate::refresh::retry_hint;
use crate::refresh::step_allowed;
use crate::refresh::step_fits;

verus! {

/// A resolution attempt begun at time `now` is outstanding for at most
/// `ATTEMPT_TIMEOUT_MS`: entering `Pending` stores the deadline
/// `now + ATTEMPT_TIMEOUT_MS` exactly, and every event `Pending` accepts
/// - success, failure, or the attempt timeout itself - leaves `Pending`
/// for `Valid`, so the machine never stays in `Pending` past an observed
/// outcome and the driver is bound to deliver one by that deadline.
pub proof fn lemma_pending_bounded(d: u64, ev: Event, now: u64, enter: u64)
    requires
        enter + ATTEMPT_TIMEOUT_MS <= u64::MAX,
        step_allowed(RefreshState::Pending { deadline: d }, ev),
        step_fits(ev, now),
    ensures
        next_state(RefreshState::Init, Event::Wake, enter) == (RefreshState::Pending {
            deadline: (enter + ATTEMPT_TIMEOUT_MS) as u64,
        }),
        next_state(RefreshState::Pending { deadline: d }, ev, now) matches RefreshState::Valid {
            ..
        },
{
}

/// A successful lookup whose result is valid until `out.valid_until`
/// schedules the wait to end exactly then - never earlier - and the
/// machine re-enters `Init` as soon as that wait elapses.
pub proof fn lemma_success_waits_out_validity(d: u64, out: LookupOutcome, now: u64, fire: u64)
    ensures
        next_state(RefreshState::Pending { deadline: d }, Event::Resolved(out), now)
            == (RefreshState::Valid { until: out.valid_until }),
        next_state(RefreshState::Valid { until: out.valid_until }, Event::WaitElapsed, fire)
            == RefreshState::Init,
{
}

/// A failure without a hinted deadline - the attempt timeout included -
/// schedules the next cycle no earlier than `now + ERROR_TTL_MS`: the
/// stored deadline is exactly that, and `Init` is reached again only by
/// the wait on it elapsing.
pub proof fn lemma_unhinted_failure_uses_fallback(d: u64, f: LookupFailure, now: u64)
    requires
        retry_hint(f) is None,
        now + ERROR_TTL_MS <= u64::MAX,
    ensures
        next_state(RefreshState::Pending { deadline: d }, Event::Failed(f), now)
            == (RefreshState::Valid { until: (now + ERROR_TTL_MS) as u64 }),
{
}

/// A failure hinted with "no records found, retry at `t`" schedules the
/// next cycle no earlier than `t`: the stored deadline is exactly `t`.
pub proof fn lemma_hinted_failure_uses_hint(d: u64, f: LookupFailure, t: u64, now: u64)
    requires
        retry_hint(f) == Some(t),
    ensures
        next_state(RefreshState::Pending { deadline: d }, Event::Failed(f), now)
            == (RefreshState::Valid { until: t }),
{
}

/// The attempt window is strictly shorter than the fallback validity
/// window: a timed-out attempt always reschedules well past its own
/// bound, never inside it.
pub proof fn lemma_attempt_shorter_than_fallback()
    ensures
        ATTEMPT_TIMEOUT_MS < ERROR_TTL_MS,
{
}

/// The cycle has no terminal state: every state accepts some event, so a
/// refresher can always make progress.
pub proof fn lemma_no_terminal_state(s: RefreshState)
    ensures
        exists|ev: Event| step_allowed(s, ev),
{
    match s {
        RefreshState::Init => {
            assert(step_allowed(s, Event::Wake));
        },
        RefreshState::Pending { .. } => {
            assert(step_allowed(s, Event::Failed(LookupFailure::AttemptTimeout)));
        },
        RefreshState::Valid { .. } => {
            assert(step_allowed(s, Event::WaitElapsed));
        },
    }
}

/// One full cycle under a promptly answering resolver: woken in `Init` at
/// time `t`, answered after `d` milliseconds (within the attempt window)
/// with a result valid for `w` more, the machine passes through `Pending`
/// and `Valid` and is back in `Init` when the wait fires at `t + d + w` -
/// the instant of the next lookup.
pub proof fn lemma_cycle_returns_to_init(t: u64, d: u64, w: u64, out: LookupOutcome)
    requires
        d <= ATTEMPT_TIMEOUT_MS,
        t + ATTEMPT_TIMEOUT_MS <= u64::MAX,
        t + d + w <= u64::MAX,
        out.valid_until == t + d + w,
    ensures
        next_state(RefreshState::Init, Event::Wake, t) == (RefreshState::Pending {
            deadline: (t + ATTEMPT_TIMEOUT_MS) as u64,
        }),
        next_state(
            RefreshState::Pending { deadline: (t + ATTEMPT_TIMEOUT_MS) as u64 },
            Event::Resolved(out),
            (t + d) as u64,
        ) == (RefreshState::Valid { until: (t + d + w) as u64 }),
        next_state(
            RefreshState::Valid { until: (t + d + w) as u64 },
            Event::WaitElapsed,
            (t + d + w) as u64,
        ) == RefreshState::Init,
{
}

/// The instant of the `k`-th lookup when every cycle advances the clock
/// by the same amount: the answer arrives `d` milliseconds after the
/// wake and is valid for `w` more, so one cycle moves the wake instant
/// forward by `d + w` (as `lemma_cycle_returns_to_init` shows).
pub open spec fn nth_lookup_instant(t0: int, d: int, w: int, k: nat) -> int
    decreases k,
{
    if k == 0 {
        t0
    } else {
        nth_lookup_instant(t0, d, w, (k - 1) as nat) + d + w
    }
}

/// Repeating the cycle indefinitely against a resolver that always
/// answers after the same delay with the same validity window produces a
/// strictly periodic sequence of lookups: the `k`-th wake occurs exactly
/// `k * (d + w)` after the first.
pub proof fn lemma_strictly_periodic(t0: int, d: int, w: int, k: nat)
    ensures
        nth_lookup_instant(t0, d, w, k) == t0 + k * (d + w),
    decreases k,
{
    if k == 0 {
        assert(k * (d + w) == 0) by (nonlinear_arith)
            requires
                k == 0,
        ;
    } else {
        let km1: nat = (k - 1) as nat;
        lemma_strictly_periodic(t0, d, w, km1);
        assert(k * (d + w) == km1 * (d + w) + (d + w)) by (nonlinear_arith)
            requires
                km1 == k - 1 && k >= 1,
        ;
    }
}

} // verus!
