use vstd::prelude::*;

verus! {

/// The reasons for which the governance rules reject an operation.
#[derive(Clone, Copy, Debug, PartialEq, Eq, Hash)]
pub enum ErrorCode {
    /// The caller is not the one who may change the record.
    Unauthorized,
    /// A name, a title or a description is longer than its bound.
    StringTooLong,
    /// The known balance of a treasury would leave the range of `u64`.
    Overflow,
    /// The creator of an organization holds too few platform tokens.
    InsufficientDaoverseTokens,
    /// The asset is not the one that the platform accepts.
    InvalidDaoverseMint,
    /// A percentage among the thresholds is over 100.
    InvalidThreshold,
    /// The shortest voting period is longer than the longest.
    InvalidVotingPeriod,
    /// A member, a proposer or a voter holds too few tokens of the
    /// organization.
    InsufficientDaoTokens,
    /// The asset is not the organization's.
    InvalidDaoMint,
    /// Voting has not ended. No operation gives this reason: finalizing
    /// does not ask whether the deadline has passed.
    VotingPeriodNotEnded,
    /// A tally, a reward or the known balance of a staking pool would leave
    /// the range of `u64`.
    CalculationError,
    /// Voting on the proposal is over, or the proposal is finalized.
    VotingPeriodEnded,
    /// The stake is below the minimum of the proposal.
    InsufficientStake,
    /// The receipt is another voter's. No operation gives this reason:
    /// settling does not ask whose the receipt is.
    InvalidVoter,
    /// The receipt is for another proposal. No operation gives this reason:
    /// settling does not ask which proposal the receipt is for.
    InvalidProposal,
    /// The vote has been settled before.
    RewardsAlreadyClaimed,
    /// The organization's treasury holds less than the interest on a vote.
    InsufficientFunds,
}

/// The reasons for which the token ledger refuses a transfer between two
/// sub-accounts.
#[derive(Clone, Copy, Debug, PartialEq, Eq, Hash)]
pub enum TokenError {
    /// One of the two sub-accounts holds another asset type than the one named.
    MintMismatch,
    /// The source holds less than the amount.
    InsufficientFunds,
    /// The destination's balance would leave the range of `u64`.
    Overflow,
}

/// Why an operation was rejected. A rejected operation changes nothing.
#[derive(Clone, Copy, Debug, PartialEq, Eq, Hash)]
pub enum Error {
    /// A governance rule rejected the operation.
    Code(ErrorCode),
    /// A record is to be created where one exists already.
    AccountInUse,
    /// A record or sub-account that the operation works on does not exist.
    AccountNotInitialized,
    /// The ledger would refuse a transfer that the operation needs.
    Token(TokenError),
}

} // verus!
