//! Platform-wide limits and fee settings.

use vstd::prelude::*;

verus! {

/// Denominator of every percentage in the ledger.
pub const PERCENTAGE_DENOMINATOR: i128 = 100;

/// The platform's cut of each winning share, in percent.
pub const DEFAULT_PLATFORM_FEE_PERCENTAGE: i128 = 2;

/// Fee for creating a market, in the token's smallest unit.
pub const DEFAULT_MARKET_CREATION_FEE: i128 = 10_000_000;

/// Smallest fee amount the platform accepts.
pub const MIN_FEE_AMOUNT: i128 = 1_000_000;

/// Largest fee amount the platform accepts.
pub const MAX_FEE_AMOUNT: i128 = 1_000_000_000;

/// Longest market duration, in days.
pub const MAX_MARKET_DURATION_DAYS: u32 = 365;

/// Shortest market duration, in days.
pub const MIN_MARKET_DURATION_DAYS: u32 = 1;

/// Most outcomes a market may offer.
pub const MAX_MARKET_OUTCOMES: u32 = 10;

/// Fewest outcomes a market may offer.
pub const MIN_MARKET_OUTCOMES: u32 = 2;

/// Longest question text, in characters.
pub const MAX_QUESTION_LENGTH: u32 = 500;

/// Longest outcome label, in characters.
pub const MAX_OUTCOME_LENGTH: u32 = 100;

} // verus!
