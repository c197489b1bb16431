//! The activation coordinator: a state machine from triggers and results of
//! start-mining to the miner status.
//!
//! The coordinator never runs start-mining itself. A trigger hands the caller
//! an [`Action`]; the caller performs it and hands the result back, tagged
//! with the generation that the action carried. A result whose generation is
//! no longer the current one belongs to a superseded attempt and changes
//! nothing.

use vstd::prelude::*;
use crate::balance::{is_sufficient, BalanceGate, BalanceObservation};
use crate::status::{
    failure_of, outcome_of, status_after, classify, ActivationFailure, ActivationOutcome,
    MinerStatus, MinerStatusMessage,
};

verus! {

/// What the caller is to do after a trigger.
#[derive(Clone, Copy, Debug, PartialEq, Eq, Structural)]
pub enum Action {
    /// Nothing: the gating condition is false.
    Nothing,
    /// Invoke start-mining once, and hand its result back with this generation.
    StartMining { generation: u64 },
}

/// All that the coordinator holds, as plain values.
#[derive(Clone, Copy, Debug, PartialEq, Eq, Structural)]
pub struct CoordinatorState {
    /// The shared miner status.
    pub status: MinerStatus,
    /// The progress message; stays `NoMessage` without a message sink.
    pub message: MinerStatusMessage,
    /// Whether the operation's progress messages are taken.
    pub has_message_sink: bool,
    /// The session timer, where there is one.
    pub timer: Option<u64>,
    /// The number of triggers so far: the tag of the latest one.
    pub generation: u64,
    /// Whether the latest trigger started an attempt whose result is awaited.
    pub awaiting: bool,
    /// The kind of the last applied failure.
    pub last_failure: Option<ActivationFailure>,
}

/// Whether a result tagged `generation` belongs to the attempt in flight.
pub open spec fn is_current(s: CoordinatorState, generation: u64) -> bool {
    s.awaiting && s.generation == generation
}

/// The tag that the next trigger will carry.
pub open spec fn next_generation(s: CoordinatorState) -> u64
    recommends
        s.generation < u64::MAX,
{
    (s.generation + 1) as u64
}

/// The state after a trigger. Every trigger takes a new generation and so
/// supersedes an attempt in flight; only a sufficient one starts another.
pub open spec fn trigger_next(s: CoordinatorState, sufficient: bool) -> CoordinatorState {
    CoordinatorState { generation: next_generation(s), awaiting: sufficient, ..s }
}

/// What a trigger asks of the caller.
pub open spec fn trigger_action(s: CoordinatorState, sufficient: bool) -> Action {
    if sufficient {
        Action::StartMining { generation: next_generation(s) }
    } else {
        Action::Nothing
    }
}

/// The state after the stored sufficiency flag went from `before` to
/// `after`: a trigger where the two differ, else no step at all.
pub open spec fn flag_change_next(s: CoordinatorState, before: bool, after: bool) -> CoordinatorState {
    if before != after {
        trigger_next(s, after)
    } else {
        s
    }
}

/// What the caller is asked after the stored sufficiency flag went from
/// `before` to `after`.
pub open spec fn flag_change_action(s: CoordinatorState, before: bool, after: bool) -> Action {
    if before != after {
        trigger_action(s, after)
    } else {
        Action::Nothing
    }
}

/// The timer after an applied outcome: zero after a start, else unchanged.
pub open spec fn timer_after(timer: Option<u64>, outcome: ActivationOutcome) -> Option<u64> {
    if outcome == ActivationOutcome::Started && timer is Some {
        Some(0u64)
    } else {
        timer
    }
}

/// The state after the outcome of the attempt tagged `generation` came back:
/// applied if that attempt is the current one, else discarded.
pub open spec fn resolve_next(
    s: CoordinatorState,
    generation: u64,
    outcome: ActivationOutcome,
) -> CoordinatorState {
    if is_current(s, generation) {
        CoordinatorState {
            status: status_after(outcome),
            timer: timer_after(s.timer, outcome),
            awaiting: false,
            last_failure: failure_of(outcome),
            ..s
        }
    } else {
        s
    }
}

/// The state after the operation tagged `generation` reported progress: taken
/// if there is a sink and that attempt is the current one.
pub open spec fn progress_next(
    s: CoordinatorState,
    generation: u64,
    message: MinerStatusMessage,
) -> CoordinatorState {
    if s.has_message_sink && is_current(s, generation) {
        CoordinatorState { message, ..s }
    } else {
        s
    }
}

/// The state after one tick of the session timer.
pub open spec fn tick_next(s: CoordinatorState) -> CoordinatorState {
    match s.timer {
        Some(t) => CoordinatorState {
            timer: Some(if t < u64::MAX { (t + 1) as u64 } else { t }),
            ..s
        },
        None => s,
    }
}

/// Owns the miner status during activation and decides when start-mining is
/// invoked and which of its results count.
#[derive(Debug)]
pub struct ActivationCoordinator {
    state: CoordinatorState,
}

impl View for ActivationCoordinator {
    type V = CoordinatorState;

    closed spec fn view(&self) -> CoordinatorState {
        self.state
    }
}

impl ActivationCoordinator {
    /// A coordinator at the entry of the activation phase: status
    /// `Activating`, no trigger seen, nothing in flight.
    pub fn new(timer: Option<u64>, has_message_sink: bool) -> (coordinator: ActivationCoordinator)
        ensures
            coordinator@ == (CoordinatorState {
                status: MinerStatus::Activating,
                message: MinerStatusMessage::NoMessage,
                has_message_sink,
                timer,
                generation: 0,
                awaiting: false,
                last_failure: None,
            }),
    {
        ActivationCoordinator {
            state: CoordinatorState {
                status: MinerStatus::Activating,
                message: MinerStatusMessage::NoMessage,
                has_message_sink,
                timer,
                generation: 0,
                awaiting: false,
                last_failure: None,
            },
        }
    }

    /// A read-only copy of the whole state.
    pub fn snapshot(&self) -> (state: CoordinatorState)
        ensures
            state == self@,
    {
        self.state
    }

    /// A coordinator that goes on from a state taken by `snapshot`.
    pub fn restore(state: CoordinatorState) -> (coordinator: ActivationCoordinator)
        ensures
            coordinator@ == state,
    {
        ActivationCoordinator { state }
    }

    /// Reacts to a change of the sufficiency flag.
    ///
    /// With `sufficient` false this asks for nothing and leaves status, timer
    /// and message as they are. With `sufficient` true it asks for exactly one
    /// invocation of start-mining, tagged with the new generation.
    pub fn on_sufficiency_change(&mut self, sufficient: bool) -> (action: Action)
        requires
            old(self)@.generation < u64::MAX,
        ensures
            final(self)@ == trigger_next(old(self)@, sufficient),
            action == trigger_action(old(self)@, sufficient),
    {
        let generation: u64 = self.state.generation + 1;
        self.state.generation = generation;
        self.state.awaiting = sufficient;
        if sufficient {
            Action::StartMining { generation }
        } else {
            Action::Nothing
        }
    }

    /// Reacts to a change of the sufficiency flag where the caller does not
    /// know whether the generation counter has room for another trigger:
    /// `None`, with nothing changed, where it has none.
    pub fn try_on_sufficiency_change(&mut self, sufficient: bool) -> (action: Option<Action>)
        ensures
            old(self)@.generation < u64::MAX ==> (final(self)@ == trigger_next(old(self)@, sufficient)
                && action == Some(trigger_action(old(self)@, sufficient))),
            old(self)@.generation == u64::MAX ==> (final(self)@ == old(self)@ && action is None),
    {
        if self.state.generation < u64::MAX {
            Some(self.on_sufficiency_change(sufficient))
        } else {
            None
        }
    }

    /// Reacts to a new balance observation: the trigger of the variant that
    /// watches the balance itself rather than the stored flag.
    pub fn on_balance_change(
        &mut self,
        observation: BalanceObservation,
        threshold: u64,
    ) -> (action: Action)
        requires
            old(self)@.generation < u64::MAX,
        ensures
            final(self)@ == trigger_next(old(self)@, is_sufficient(observation, threshold)),
            action == trigger_action(old(self)@, is_sufficient(observation, threshold)),
    {
        let sufficient = BalanceGate::recompute(observation, threshold);
        self.on_sufficiency_change(sufficient)
    }

    /// Hands a new balance observation to a balance gate, and triggers only
    /// if its sufficiency flag changed by that: the change is the trigger.
    pub fn on_observation(
        &mut self,
        gate: &mut BalanceGate,
        observation: BalanceObservation,
    ) -> (action: Action)
        requires
            old(gate).wf(),
            old(self)@.generation < u64::MAX,
        ensures
            final(gate).wf(),
            final(gate).spec_threshold() == old(gate).spec_threshold(),
            final(gate).spec_observation() == observation,
            final(self)@ == flag_change_next(
                old(self)@,
                old(gate).spec_sufficient(),
                final(gate).spec_sufficient(),
            ),
            action == flag_change_action(
                old(self)@,
                old(gate).spec_sufficient(),
                final(gate).spec_sufficient(),
            ),
    {
        let changed = gate.observe(observation);
        if changed {
            self.on_sufficiency_change(gate.is_sufficient())
        } else {
            Action::Nothing
        }
    }

    /// Takes the outcome of the attempt tagged `generation`. Returns whether
    /// it was applied; a superseded attempt's outcome changes nothing.
    pub fn on_outcome(&mut self, generation: u64, outcome: ActivationOutcome) -> (applied: bool)
        ensures
            final(self)@ == resolve_next(old(self)@, generation, outcome),
            applied == is_current(old(self)@, generation),
    {
        if !(self.state.awaiting && self.state.generation == generation) {
            return false;
        }
        self.state.status = outcome.status();
        self.state.last_failure = outcome.failure();
        self.state.awaiting = false;
        match outcome {
            ActivationOutcome::Started => {
                if self.state.timer.is_some() {
                    self.state.timer = Some(0);
                }
            },
            _ => {},
        }
        true
    }

    /// Takes the result of start-mining for the attempt tagged `generation`,
    /// with whatever error the gateway gave.
    pub fn on_result<E>(&mut self, generation: u64, result: Result<bool, E>) -> (applied: bool)
        ensures
            final(self)@ == resolve_next(old(self)@, generation, outcome_of(result)),
            applied == is_current(old(self)@, generation),
    {
        let outcome = classify(&result);
        self.on_outcome(generation, outcome)
    }

    /// Takes a progress message of the operation tagged `generation`. Returns
    /// whether it was stored.
    pub fn on_progress(&mut self, generation: u64, message: MinerStatusMessage) -> (stored: bool)
        ensures
            final(self)@ == progress_next(old(self)@, generation, message),
            stored == (old(self)@.has_message_sink && is_current(old(self)@, generation)),
    {
        if self.state.has_message_sink && self.state.awaiting && self.state.generation
            == generation {
            self.state.message = message;
            true
        } else {
            false
        }
    }

    /// Advances the session timer by one, where there is one; it stops at the
    /// largest value.
    pub fn tick(&mut self)
        ensures
            final(self)@ == tick_next(old(self)@),
    {
        match self.state.timer {
            Some(t) => {
                if t < u64::MAX {
                    self.state.timer = Some(t + 1);
                }
            },
            None => {},
        }
    }

    pub fn status(&self) -> (status: MinerStatus)
        ensures
            status == self@.status,
    {
        self.state.status
    }

    pub fn message(&self) -> (message: MinerStatusMessage)
        ensures
            message == self@.message,
    {
        self.state.message
    }

    pub fn timer(&self) -> (timer: Option<u64>)
        ensures
            timer == self@.timer,
    {
        self.state.timer
    }

    pub fn generation(&self) -> (generation: u64)
        ensures
            generation == self@.generation,
    {
        self.state.generation
    }

    pub fn is_awaiting(&self) -> (awaiting: bool)
        ensures
            awaiting == self@.awaiting,
    {
        self.state.awaiting
    }

    pub fn last_failure(&self) -> (failure: Option<ActivationFailure>)
        ensures
            failure == self@.last_failure,
    {
        self.state.last_failure
    }
}

} // verus!
