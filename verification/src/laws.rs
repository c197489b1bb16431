//! Theorems about the balance gate and the activation state machine.

use vstd::prelude::*;
use crate::activation::{
    is_current, resolve_next, trigger_action, trigger_next, Action, CoordinatorState,
};
use crate::balance::{is_sufficient, BalanceObservation};
use crate::status::{
    failure_of, outcome_of, status_after, ActivationFailure, ActivationOutcome, MinerStatus,
};

verus! {

/// A confirmed balance is sufficient exactly when it reaches the threshold.
pub proof fn law_confirmed_balance_meets_threshold(amount: u64, threshold: u64)
    ensures
        amount < threshold ==> !is_sufficient(BalanceObservation::Confirmed(amount), threshold),
        amount >= threshold ==> is_sufficient(BalanceObservation::Confirmed(amount), threshold),
{
}

/// A balance that is pending, or could not be read, is never sufficient.
pub proof fn law_unconfirmed_balance_is_insufficient(threshold: u64)
    ensures
        !is_sufficient(BalanceObservation::Pending, threshold),
        !is_sufficient(BalanceObservation::Error, threshold),
{
}

/// A trigger with a false gating condition asks for no invocation and leaves
/// status, timer, message and failure kind as they were; no result that comes
/// in afterwards changes anything.
pub proof fn law_insufficient_trigger_is_inert(s: CoordinatorState)
    ensures
        trigger_action(s, false) == Action::Nothing,
        trigger_next(s, false).status == s.status,
        trigger_next(s, false).timer == s.timer,
        trigger_next(s, false).message == s.message,
        trigger_next(s, false).last_failure == s.last_failure,
        forall|generation: u64, outcome: ActivationOutcome|
            #[trigger] resolve_next(trigger_next(s, false), generation, outcome) == trigger_next(
                s,
                false,
            ),
{
}

/// A trigger with a true gating condition asks for exactly one invocation,
/// tagged with a generation that no earlier trigger carried, and that attempt
/// is then the one in flight.
pub proof fn law_sufficient_trigger_starts_one_attempt(s: CoordinatorState)
    requires
        s.generation < u64::MAX,
    ensures
        trigger_action(s, true) == (Action::StartMining {
            generation: trigger_next(s, true).generation,
        }),
        trigger_next(s, true).generation > s.generation,
        is_current(trigger_next(s, true), trigger_next(s, true).generation),
{
}

/// After a sufficient trigger, a result of `Ok(true)` makes the status
/// `Active` and sets the timer, where there is one, to zero.
pub proof fn law_started_becomes_active<E>(s: CoordinatorState, result: Result<bool, E>)
    requires
        s.generation < u64::MAX,
        result == Ok::<bool, E>(true),
    ensures
        ({
            let t = trigger_next(s, true);
            let r = resolve_next(t, t.generation, outcome_of(result));
            &&& r.status == MinerStatus::Active
            &&& s.timer is Some ==> r.timer == Some(0u64)
            &&& s.timer is None ==> r.timer is None
            &&& r.last_failure is None
            &&& !r.awaiting
        }),
{
}

/// After a sufficient trigger, a result of `Ok(false)` makes the status
/// `NetworkError`, remembered as a declined activation; the timer stays.
pub proof fn law_declined_becomes_network_error<E>(s: CoordinatorState, result: Result<bool, E>)
    requires
        s.generation < u64::MAX,
        result == Ok::<bool, E>(false),
    ensures
        ({
            let t = trigger_next(s, true);
            let r = resolve_next(t, t.generation, outcome_of(result));
            &&& r.status == MinerStatus::NetworkError
            &&& r.timer == s.timer
            &&& r.last_failure == Some(ActivationFailure::InsufficientBalanceDeclined)
            &&& !r.awaiting
        }),
{
}

/// After a sufficient trigger, a failed result makes the status
/// `NetworkError`, whatever the error holds; the timer stays.
pub proof fn law_failure_becomes_network_error<E>(s: CoordinatorState, result: Result<bool, E>)
    requires
        s.generation < u64::MAX,
        result is Err,
    ensures
        ({
            let t = trigger_next(s, true);
            let r = resolve_next(t, t.generation, outcome_of(result));
            &&& r.status == MinerStatus::NetworkError
            &&& r.timer == s.timer
            &&& r.last_failure == Some(ActivationFailure::TransportOrProtocolError)
            &&& !r.awaiting
        }),
{
}

/// Of two triggers that fire before either result comes back, only the later
/// one's result can change the state: the earlier one's is discarded, whether
/// it comes first or last.
pub proof fn law_only_latest_trigger_applies(
    s: CoordinatorState,
    first: bool,
    second: bool,
    stale: ActivationOutcome,
    latest: ActivationOutcome,
)
    requires
        s.generation + 2 <= u64::MAX,
    ensures
        ({
            let t1 = trigger_next(s, first);
            let t2 = trigger_next(t1, second);
            let applied = resolve_next(t2, t2.generation, latest);
            &&& t1.generation != t2.generation
            &&& resolve_next(t2, t1.generation, stale) == t2
            &&& resolve_next(resolve_next(t2, t1.generation, stale), t2.generation, latest)
                == applied
            &&& resolve_next(applied, t1.generation, stale) == applied
            &&& second ==> applied.status == status_after(latest) && applied.last_failure
                == failure_of(latest)
            &&& !second ==> applied == t2
        }),
{
}

/// A trigger supersedes every attempt started before it: whatever generation
/// an earlier trigger carried, its result is discarded from then on.
pub proof fn law_trigger_supersedes_earlier_attempts(
    s: CoordinatorState,
    sufficient: bool,
    earlier: u64,
    outcome: ActivationOutcome,
)
    requires
        s.generation < u64::MAX,
        earlier <= s.generation,
    ensures
        !is_current(trigger_next(s, sufficient), earlier),
        resolve_next(trigger_next(s, sufficient), earlier, outcome) == trigger_next(s, sufficient),
{
}

/// At most one attempt is in flight: two generations that are both current
/// are the same, and an applied result leaves none current, so no result is
/// applied twice.
pub proof fn law_at_most_one_attempt_in_flight(
    s: CoordinatorState,
    g1: u64,
    g2: u64,
    outcome: ActivationOutcome,
)
    ensures
        is_current(s, g1) && is_current(s, g2) ==> g1 == g2,
        is_current(s, g1) ==> !is_current(resolve_next(s, g1, outcome), g2),
        is_current(s, g1) ==> resolve_next(resolve_next(s, g1, outcome), g2, outcome)
            == resolve_next(s, g1, outcome),
{
}

/// The status changes only when the current attempt's result is applied: a
/// trigger never writes it, and a discarded result leaves the whole state.
pub proof fn law_status_written_only_by_current_result(
    s: CoordinatorState,
    sufficient: bool,
    generation: u64,
    outcome: ActivationOutcome,
)
    ensures
        trigger_next(s, sufficient).status == s.status,
        !is_current(s, generation) ==> resolve_next(s, generation, outcome) == s,
        is_current(s, generation) ==> resolve_next(s, generation, outcome).status
            == status_after(outcome),
{
}

} // verus!
