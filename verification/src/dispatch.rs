//! The dispatcher's submission lifecycle: each command is a fresh
//! connection that moves from idle through connecting and submitting to one
//! terminal outcome; no state is retained across invocations and nothing is
//! retried.

use vstd::prelude::*;

verus! {

/// Why a submission failed.
#[derive(Clone, Copy, Debug, PartialEq, Eq, Structural)]
pub enum SubmissionError {
    /// The chain name is absent from the endpoint table.
    UnknownChain,
    /// The connection could not be opened or broke during submission.
    TransportFailed,
    /// The chain rejected the transaction.
    Rejected,
}

/// Where a submission stands.
#[derive(Clone, Copy, Debug, PartialEq, Eq, Structural)]
pub enum DispatchState {
    Idle,
    Connecting,
    Submitting,
    Accepted,
    Rejected,
    TransportFailed,
}

/// What the transport reported back.
#[derive(Clone, Copy, Debug, PartialEq, Eq, Structural)]
pub enum DispatchEvent {
    /// The submission was started.
    Start,
    /// The connection to the resolved address is open.
    Connected,
    /// The connection could not be opened.
    ConnectFailed,
    /// The chain included and accepted the transaction.
    TxAccepted,
    /// The chain rejected the transaction.
    TxRejected,
    /// The connection broke while awaiting the outcome.
    TxFailed,
}

/// A state in which the submission's outcome is decided.
pub open spec fn is_terminal(s: DispatchState) -> bool {
    s == DispatchState::Accepted || s == DispatchState::Rejected || s
        == DispatchState::TransportFailed
}

/// The lifecycle's transition function; an event that does not apply to the
/// current state leaves it unchanged.
pub open spec fn spec_step(s: DispatchState, e: DispatchEvent) -> DispatchState {
    match (s, e) {
        (DispatchState::Idle, DispatchEvent::Start) => DispatchState::Connecting,
        (DispatchState::Connecting, DispatchEvent::Connected) => DispatchState::Submitting,
        (DispatchState::Connecting, DispatchEvent::ConnectFailed) => DispatchState::TransportFailed,
        (DispatchState::Submitting, DispatchEvent::TxAccepted) => DispatchState::Accepted,
        (DispatchState::Submitting, DispatchEvent::TxRejected) => DispatchState::Rejected,
        (DispatchState::Submitting, DispatchEvent::TxFailed) => DispatchState::TransportFailed,
        (_, _) => s,
    }
}

/// Advances the submission lifecycle by one transport event.
pub fn step(s: DispatchState, e: DispatchEvent) -> (r: DispatchState)
    ensures
        r == spec_step(s, e),
{
    match (s, e) {
        (DispatchState::Idle, DispatchEvent::Start) => DispatchState::Connecting,
        (DispatchState::Connecting, DispatchEvent::Connected) => DispatchState::Submitting,
        (DispatchState::Connecting, DispatchEvent::ConnectFailed) => DispatchState::TransportFailed,
        (DispatchState::Submitting, DispatchEvent::TxAccepted) => DispatchState::Accepted,
        (DispatchState::Submitting, DispatchEvent::TxRejected) => DispatchState::Rejected,
        (DispatchState::Submitting, DispatchEvent::TxFailed) => DispatchState::TransportFailed,
        (_, _) => s,
    }
}

/// The submission's outcome: `None` while still in flight, otherwise
/// success or the specific failure, surfaced as-is.
pub fn outcome(s: DispatchState) -> (r: Option<Result<(), SubmissionError>>)
    ensures
        match s {
            DispatchState::Accepted => r == Some(Ok::<(), SubmissionError>(())),
            DispatchState::Rejected => r == Some(
                Err::<(), SubmissionError>(SubmissionError::Rejected),
            ),
            DispatchState::TransportFailed => r == Some(
                Err::<(), SubmissionError>(SubmissionError::TransportFailed),
            ),
            _ => r is None,
        },
        r is Some <==> is_terminal(s),
{
    match s {
        DispatchState::Accepted => Some(Ok(())),
        DispatchState::Rejected => Some(Err(SubmissionError::Rejected)),
        DispatchState::TransportFailed => Some(Err(SubmissionError::TransportFailed)),
        _ => None,
    }
}

/// A decided submission stays decided: terminal states absorb every event.
pub proof fn lemma_terminal_absorbs(s: DispatchState, e: DispatchEvent)
    requires
        is_terminal(s),
    ensures
        spec_step(s, e) == s,
{
}

} // verus!
