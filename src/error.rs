use vstd::prelude::*;

verus! {

/// Every way an operation on a stream can be refused.
///
/// No error leaves a partial effect behind: each operation checks everything
/// before it mutates anything.
#[derive(Debug, Clone, Copy, PartialEq, Eq, Structural)]
pub enum StreamflowError {
    /// The total amount is zero.
    InvalidAmount,
    /// The end time is not after the start time.
    InvalidEndTime,
    /// The cliff lies outside `[start_time, end_time]`.
    InvalidCliffTime,
    /// The step interval is zero, or a stepped schedule has no whole step.
    InvalidStepInterval,
    /// A fee rate exceeds 10000 basis points.
    InvalidFeeConfig,
    /// The actor has no role that allows the action.
    Unauthorized,
    /// The actor is a party to the stream, but the transfer flag for its role is off.
    NotTransferable,
    /// The new recipient is the current recipient.
    SameRecipient,
    /// The stream is cancelled or completed.
    StreamTerminal,
    /// A cancellation was asked of a stream that is already cancelled or completed.
    AlreadyTerminal,
    /// Nothing can be withdrawn, or a withdrawal of zero was asked for.
    NothingAvailable,
    /// The requested amount exceeds what can be withdrawn.
    InsufficientAvailable,
}

} // verus!
