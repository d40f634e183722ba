//! The reduced error set used by batch staking operations.

use vstd::prelude::*;

verus! {

/// Errors of batch staking operations, declared in ascending order of their
/// numeric codes.
#[derive(Clone, Copy, Debug, PartialEq, Eq, PartialOrd, Ord, Hash, Structural)]
pub enum Error {
    Unauthorized,
    MarketNotFound,
    MarketClosed,
    InvalidOutcome,
    AlreadyVoted,
    AlreadyBet,
    MarketNotResolved,
    NothingToClaim,
    AlreadyClaimed,
    InsufficientStake,
    InvalidQuestion,
    InvalidOutcomes,
    InvalidInput,
    InvalidFeeConfig,
    InsufficientBalance,
    BatchOperationFailed,
}

/// The short description of a batch error.
pub open spec fn spec_batch_error_description(e: Error) -> Seq<char> {
    match e {
        Error::Unauthorized => "Unauthorized"@,
        Error::MarketNotFound => "Market not found"@,
        Error::MarketClosed => "Market closed"@,
        Error::InvalidOutcome => "Invalid outcome"@,
        Error::AlreadyVoted => "Already voted"@,
        Error::AlreadyBet => "Already bet"@,
        Error::MarketNotResolved => "Market not resolved"@,
        Error::NothingToClaim => "Nothing to claim"@,
        Error::AlreadyClaimed => "Already claimed"@,
        Error::InsufficientStake => "Insufficient stake"@,
        Error::InvalidQuestion => "Invalid question"@,
        Error::InvalidOutcomes => "Invalid outcomes"@,
        Error::InvalidInput => "Invalid input"@,
        Error::InvalidFeeConfig => "Invalid fee config"@,
        Error::InsufficientBalance => "Insufficient balance"@,
        Error::BatchOperationFailed => "Batch operation failed"@,
    }
}

impl Error {
    /// A short description of the error.
    pub fn description(&self) -> (r: &'static str)
        ensures
            r@ == spec_batch_error_description(*self),
    {
        match self {
            Error::Unauthorized => "Unauthorized",
            Error::MarketNotFound => "Market not found",
            Error::MarketClosed => "Market closed",
            Error::InvalidOutcome => "Invalid outcome",
            Error::AlreadyVoted => "Already voted",
            Error::AlreadyBet => "Already bet",
            Error::MarketNotResolved => "Market not resolved",
            Error::NothingToClaim => "Nothing to claim",
            Error::AlreadyClaimed => "Already claimed",
            Error::InsufficientStake => "Insufficient stake",
            Error::InvalidQuestion => "Invalid question",
            Error::InvalidOutcomes => "Invalid outcomes",
            Error::InvalidInput => "Invalid input",
            Error::InvalidFeeConfig => "Invalid fee config",
            Error::InsufficientBalance => "Insufficient balance",
            Error::BatchOperationFailed => "Batch operation failed",
        }
    }
}

} // verus!
