use vstd::prelude::*;

verus! {

/// Every way an operation of the token core can fail. A failing operation
/// leaves all of its records untouched.
#[derive(Clone, Copy, Debug, PartialEq, Eq, Structural)]
pub enum MemeTokenError {
    LiquidityLocked,
    InsufficientProposalTokens,
    InvalidVotingPeriod,
    AlreadyVoted,
    ExceedsMaxWallet,
    ExceedsMaxTransaction,
    ProposalAlreadyExecuted,
    QuorumNotMet,
    /// A bounded collection is already full.
    CapacityExceeded,
    /// An addition or multiplication would leave the range of its integer type.
    ArithmeticOverflow,
}

} // verus!
