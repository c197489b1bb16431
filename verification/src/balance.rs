//! The balance gate: from an observed balance to the sufficiency flag.

use vstd::prelude::*;

verus! {

/// What the balance source last reported.
#[derive(Clone, Copy, Debug, PartialEq, Eq, Structural)]
pub enum BalanceObservation {
    /// No answer yet.
    Pending,
    /// A confirmed balance, in lamports.
    Confirmed(u64),
    /// The balance could not be read.
    Error,
}

/// The minimum balance is this part of one SOL: one hundredth.
pub const MIN_BALANCE_DIVISOR: u64 = 100;

/// The minimum balance for activation, in lamports: one hundredth of the
/// 1_000_000_000 lamports that make one SOL.
pub open spec fn spec_min_balance() -> u64 {
    10_000_000
}

/// Reads `solana_sdk::native_token::LAMPORTS_PER_SOL`. The contract claims the
/// value that the constant is declared with there: 1_000_000_000.
#[verifier::external_body]
fn lamports_per_sol() -> (lamports: u64)
    ensures
        lamports == 1_000_000_000,
{
    solana_sdk::native_token::LAMPORTS_PER_SOL
}

/// The minimum balance for activation: one hundredth of a SOL.
pub fn min_balance() -> (threshold: u64)
    ensures
        threshold == spec_min_balance(),
{
    lamports_per_sol() / MIN_BALANCE_DIVISOR
}

/// Whether an observation confirms a balance of at least `threshold`.
///
/// Only a confirmed balance can be sufficient: while the balance is pending,
/// or could not be read, the answer is `false` whatever the threshold.
pub open spec fn is_sufficient(observation: BalanceObservation, threshold: u64) -> bool {
    match observation {
        BalanceObservation::Confirmed(amount) => amount >= threshold,
        BalanceObservation::Pending => false,
        BalanceObservation::Error => false,
    }
}

/// Holds the threshold and the sufficiency flag derived from the last
/// observation.
#[derive(Clone, Copy, Debug)]
pub struct BalanceGate {
    threshold: u64,
    observation: BalanceObservation,
    sufficient: bool,
}

impl BalanceGate {
    /// The fixed threshold of this gate.
    pub closed spec fn spec_threshold(&self) -> u64 {
        self.threshold
    }

    /// The observation that the flag was last derived from.
    pub closed spec fn spec_observation(&self) -> BalanceObservation {
        self.observation
    }

    /// The stored sufficiency flag.
    pub closed spec fn spec_sufficient(&self) -> bool {
        self.sufficient
    }

    /// The flag has no life of its own: it is what the last observation gives.
    pub open spec fn wf(&self) -> bool {
        self.spec_sufficient() == is_sufficient(self.spec_observation(), self.spec_threshold())
    }

    /// The sufficiency flag for one observation against one threshold.
    pub fn recompute(observation: BalanceObservation, threshold: u64) -> (sufficient: bool)
        ensures
            sufficient == is_sufficient(observation, threshold),
    {
        match observation {
            BalanceObservation::Confirmed(amount) => amount >= threshold,
            _ => false,
        }
    }

    /// A gate with the given threshold, its flag derived from `observation`.
    pub fn new(threshold: u64, observation: BalanceObservation) -> (gate: BalanceGate)
        ensures
            gate.wf(),
            gate.spec_threshold() == threshold,
            gate.spec_observation() == observation,
    {
        BalanceGate { threshold, observation, sufficient: Self::recompute(observation, threshold) }
    }

    /// A gate with the minimum balance for activation as its threshold.
    pub fn with_min_balance(observation: BalanceObservation) -> (gate: BalanceGate)
        ensures
            gate.wf(),
            gate.spec_threshold() == spec_min_balance(),
            gate.spec_observation() == observation,
    {
        Self::new(min_balance(), observation)
    }

    /// Takes a new observation and stores the flag it gives. Returns whether
    /// the flag changed, which is what triggers the coordinator.
    pub fn observe(&mut self, observation: BalanceObservation) -> (changed: bool)
        requires
            old(self).wf(),
        ensures
            final(self).wf(),
            final(self).spec_threshold() == old(self).spec_threshold(),
            final(self).spec_observation() == observation,
            changed == (final(self).spec_sufficient() != old(self).spec_sufficient()),
    {
        let before = self.sufficient;
        self.observation = observation;
        self.sufficient = Self::recompute(observation, self.threshold);
        before != self.sufficient
    }

    pub fn threshold(&self) -> (threshold: u64)
        ensures
            threshold == self.spec_threshold(),
    {
        self.threshold
    }

    pub fn observation(&self) -> (observation: BalanceObservation)
        ensures
            observation == self.spec_observation(),
    {
        self.observation
    }

    pub fn is_sufficient(&self) -> (sufficient: bool)
        ensures
            sufficient == self.spec_sufficient(),
    {
        self.sufficient
    }
}

} // verus!
