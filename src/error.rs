use vstd::prelude::*;

verus! {

/// Every way an operation on the ledger can be refused.
#[derive(Debug, Clone, Copy, PartialEq, Eq, Structural)]
pub enum LaunchError {
    InvalidTarget,
    DeadlinePassed,
    IdTooLong,
    InvalidAmount,
    PoolNotFunding,
    PoolNotDistributing,
    NotConfirming,
    NoContributions,
    NoContribution,
    AlreadyClaimed,
    AlreadyVoted,
    RefundNotAvailable,
    InvalidMintAuthority,
    InvalidTokenAccount,
    NotMultisigSigner,
    WrongAuthority,
    WrongWinner,
    DuplicateSigner,
    InvalidThreshold,
    ConfirmExpired,
    ConfirmNotExpired,
    NotApproved,
    ConfirmTooShort,
    ConfirmTooLong,
    PoolPaused,
    AlreadyPaused,
    NotPaused,
    ArithmeticOverflow,
}

} // verus!
