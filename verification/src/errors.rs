use vstd::prelude::*;

verus! {

/// Why an operation was refused. Every refusal is decided before anything is
/// changed, so the caller finds the pool exactly as it was.
#[derive(Clone, Copy, Debug, PartialEq, Eq, Structural)]
pub enum ErrorCodes {
    /// The sender given is not the pool's sender.
    InvalidSender,
    /// The amount to vest is zero.
    ZeroVestAmount,
    /// The locking period is not positive.
    InvalidLockingPeriod,
    /// Fewer registered signers approved than the pool asks for.
    InsufficientSigners,
    /// The asset given is not the pool's asset.
    InvalidMint,
    /// The receiver given is not the nominated recipient.
    InvalidReceiver,
    /// The locking period has not elapsed yet.
    InvalidClaimTime,
    /// The pool is not in the state the operation starts from.
    InvalidVestingStatus,
    /// The base given is not the pool's base.
    InvalidBaseKey,
    /// The caller of a batch did not authenticate.
    InvalidSigner,
}

/// Why no pool was created.
#[derive(Clone, Copy, Debug, PartialEq, Eq, Structural)]
pub enum CreateError {
    /// A parameter of the agreement was refused.
    Rejected(ErrorCodes),
    /// The signers to register do not fit into the room reserved for them.
    OutOfSpace,
}

} // verus!
