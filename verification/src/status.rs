//! The shared status values of the activation phase.

use vstd::prelude::*;

verus! {

/// Where the miner stands. During activation the coordinator is its only
/// writer.
#[derive(Clone, Copy, Debug, PartialEq, Eq, Structural)]
pub enum MinerStatus {
    Idle,
    Activating,
    Active,
    NetworkError,
}

/// Progress that the start-mining operation reports while it runs.
#[derive(Clone, Copy, Debug, PartialEq, Eq, Structural)]
pub enum MinerStatusMessage {
    CreatingTokenAccount,
    GeneratingChallenge,
    NoMessage,
}

/// How one invocation of start-mining ended.
#[derive(Clone, Copy, Debug, PartialEq, Eq, Structural)]
pub enum ActivationOutcome {
    /// The operation succeeded and mining started.
    Started,
    /// The operation succeeded, but the gateway declined to start.
    Declined,
    /// The operation failed with a transport or protocol error.
    Failed,
}

/// The two kinds of failed activation. Both are shown as
/// `MinerStatus::NetworkError`; the kind is kept so that they stay apart.
#[derive(Clone, Copy, Debug, PartialEq, Eq, Structural)]
pub enum ActivationFailure {
    InsufficientBalanceDeclined,
    TransportOrProtocolError,
}

/// The outcome that a result of start-mining stands for, whatever the error
/// holds.
pub open spec fn outcome_of<E>(result: Result<bool, E>) -> ActivationOutcome {
    match result {
        Ok(did_start) => if did_start {
            ActivationOutcome::Started
        } else {
            ActivationOutcome::Declined
        },
        Err(_) => ActivationOutcome::Failed,
    }
}

/// The status that an applied outcome leaves.
pub open spec fn status_after(outcome: ActivationOutcome) -> MinerStatus {
    match outcome {
        ActivationOutcome::Started => MinerStatus::Active,
        ActivationOutcome::Declined => MinerStatus::NetworkError,
        ActivationOutcome::Failed => MinerStatus::NetworkError,
    }
}

/// The kind of failure that an outcome is, if it is one.
pub open spec fn failure_of(outcome: ActivationOutcome) -> Option<ActivationFailure> {
    match outcome {
        ActivationOutcome::Started => None,
        ActivationOutcome::Declined => Some(ActivationFailure::InsufficientBalanceDeclined),
        ActivationOutcome::Failed => Some(ActivationFailure::TransportOrProtocolError),
    }
}

/// The line of progress text for a message, if it has one.
pub open spec fn spec_progress_text(message: MinerStatusMessage) -> Option<Seq<char>> {
    match message {
        MinerStatusMessage::CreatingTokenAccount => Some("Creating token account..."@),
        MinerStatusMessage::GeneratingChallenge => Some("Generating challenge..."@),
        MinerStatusMessage::NoMessage => None,
    }
}

/// Tells the three outcomes of start-mining apart.
pub fn classify<E>(result: &Result<bool, E>) -> (outcome: ActivationOutcome)
    ensures
        outcome == outcome_of(*result),
{
    match result {
        Ok(true) => ActivationOutcome::Started,
        Ok(false) => ActivationOutcome::Declined,
        Err(_) => ActivationOutcome::Failed,
    }
}

impl ActivationOutcome {
    /// The status to write when this outcome is applied.
    pub fn status(self) -> (status: MinerStatus)
        ensures
            status == status_after(self),
    {
        match self {
            ActivationOutcome::Started => MinerStatus::Active,
            ActivationOutcome::Declined => MinerStatus::NetworkError,
            ActivationOutcome::Failed => MinerStatus::NetworkError,
        }
    }

    /// The kind of failure, or `None` where mining started.
    pub fn failure(self) -> (failure: Option<ActivationFailure>)
        ensures
            failure == failure_of(self),
    {
        match self {
            ActivationOutcome::Started => None,
            ActivationOutcome::Declined => Some(ActivationFailure::InsufficientBalanceDeclined),
            ActivationOutcome::Failed => Some(ActivationFailure::TransportOrProtocolError),
        }
    }
}

impl MinerStatusMessage {
    /// The progress text shown for this message while the toolbar is open:
    /// none for `NoMessage`, and none at all while the toolbar is closed.
    pub fn progress_text(self, is_toolbar_open: bool) -> (text: Option<&'static str>)
        ensures
            is_toolbar_open ==> (match text {
                Some(line) => spec_progress_text(self) == Some(line@),
                None => spec_progress_text(self) is None,
            }),
            !is_toolbar_open ==> text is None,
    {
        if !is_toolbar_open {
            return None;
        }
        match self {
            MinerStatusMessage::CreatingTokenAccount => Some("Creating token account..."),
            MinerStatusMessage::GeneratingChallenge => Some("Generating challenge..."),
            MinerStatusMessage::NoMessage => None,
        }
    }
}

} // verus!
