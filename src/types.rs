//! Plain data types shared by the ledger: market lifecycle states, oracle
//! providers and their configuration, and oracle readings.

use vstd::prelude::*;

use crate::errors::Error;

pub mod conversion;
pub mod validation;

verus! {

/// Lifecycle state stored on a market record.
#[derive(Clone, Copy, Debug, PartialEq, Eq, Structural)]
pub enum MarketState {
    /// Market is active and accepting stakes
    Active,
    /// Market has ended, waiting for resolution
    Ended,
    /// Market is under an escalated dispute
    Disputed,
    /// Market has been resolved
    Resolved,
    /// Market is closed
    Closed,
    /// Market has been cancelled
    Cancelled,
}

/// Source of price data for a market.
#[derive(Clone, Copy, Debug, PartialEq, Eq, Structural)]
pub enum OracleProvider {
    /// Reflector oracle, the one available on the network
    Reflector,
    /// Pyth Network oracle (not yet available)
    Pyth,
    /// Band Protocol oracle (not available)
    BandProtocol,
    /// DIA oracle (not available)
    DIA,
}

/// Display name of each provider.
pub open spec fn spec_provider_name(p: OracleProvider) -> Seq<char> {
    match p {
        OracleProvider::Reflector => "Reflector"@,
        OracleProvider::Pyth => "Pyth"@,
        OracleProvider::BandProtocol => "Band Protocol"@,
        OracleProvider::DIA => "DIA"@,
    }
}

/// Only the Reflector oracle can serve markets.
pub open spec fn spec_provider_supported(p: OracleProvider) -> bool {
    p == OracleProvider::Reflector
}

impl OracleProvider {
    /// The provider's display name.
    pub fn name(&self) -> (r: &'static str)
        ensures
            r@ == spec_provider_name(*self),
    {
        match self {
            OracleProvider::Reflector => "Reflector",
            OracleProvider::Pyth => "Pyth",
            OracleProvider::BandProtocol => "Band Protocol",
            OracleProvider::DIA => "DIA",
        }
    }

    /// Whether markets may use this provider.
    pub fn is_supported(&self) -> (r: bool)
        ensures
            r == spec_provider_supported(*self),
    {
        match self {
            OracleProvider::Reflector => true,
            _ => false,
        }
    }
}

/// The comparison operators an oracle condition may use.
pub open spec fn spec_valid_comparison(c: Seq<char>) -> bool {
    c == "gt"@ || c == "lt"@ || c == "eq"@
}

/// The outcome of validating an oracle configuration: the threshold is checked
/// first, then the operator, then the provider.
pub open spec fn spec_oracle_config_check(
    provider: OracleProvider,
    threshold: i128,
    comparison: Seq<char>,
) -> Result<(), Error> {
    if threshold <= 0 {
        Err(Error::InvalidThreshold)
    } else if !spec_valid_comparison(comparison) {
        Err(Error::InvalidComparison)
    } else if !spec_provider_supported(provider) {
        Err(Error::InvalidOracleConfig)
    } else {
        Ok(())
    }
}

/// Which oracle feed decides a market, and how its price is compared.
#[derive(Clone, Debug)]
pub struct OracleConfig {
    /// The oracle provider to use
    pub provider: OracleProvider,
    /// Provider-specific feed identifier (e.g. "BTC")
    pub feed_id: String,
    /// Price threshold in cents
    pub threshold: i128,
    /// Comparison operator: "gt", "lt" or "eq"
    pub comparison: String,
}

impl OracleConfig {
    /// Bundle the four oracle parameters.
    pub fn new(provider: OracleProvider, feed_id: String, threshold: i128, comparison: String) -> (r:
        Self)
        ensures
            r.provider == provider,
            r.feed_id@ == feed_id@,
            r.threshold == threshold,
            r.comparison@ == comparison@,
    {
        OracleConfig { provider, feed_id, threshold, comparison }
    }

    /// Check the threshold, the operator and the provider, in that order.
    pub fn validate(&self) -> (r: Result<(), Error>)
        ensures
            r == spec_oracle_config_check(self.provider, self.threshold, self.comparison@),
    {
        if self.threshold <= 0 {
            return Err(Error::InvalidThreshold);
        }
        if conversion::validate_comparison(&self.comparison).is_err() {
            return Err(Error::InvalidComparison);
        }
        if !self.provider.is_supported() {
            return Err(Error::InvalidOracleConfig);
        }
        Ok(())
    }
}

/// Extension statistics of a market.
#[derive(Clone, Copy, Debug, PartialEq, Eq, Structural)]
pub struct ExtensionStats {
    /// Total number of extensions
    pub total_extensions: u32,
    /// Total extension days
    pub total_extension_days: u32,
    /// Maximum extension days allowed
    pub max_extension_days: u32,
    /// Whether the market can be extended
    pub can_extend: bool,
    /// Extension fee per day
    pub extension_fee_per_day: i128,
}

/// How the community voted on a market's outcome.
#[derive(Clone, Debug)]
pub struct CommunityConsensus {
    /// Consensus outcome
    pub outcome: String,
    /// Number of votes for this outcome
    pub votes: u32,
    /// Total number of votes
    pub total_votes: u32,
    /// Percentage of votes for this outcome
    pub percentage: i128,
}

/// A reading from an oracle.
#[derive(Clone, Copy, Debug, PartialEq, Eq, Structural)]
pub enum OracleResult {
    /// Oracle returned a price
    Price(i128),
    /// Oracle is unavailable
    Unavailable,
    /// Oracle data is stale
    Stale,
}

impl OracleResult {
    /// A reading that carries a price.
    pub fn price(price: i128) -> (r: Self)
        ensures
            r == OracleResult::Price(price),
    {
        OracleResult::Price(price)
    }

    /// A reading from an unreachable oracle.
    pub fn unavailable() -> (r: Self)
        ensures
            r == OracleResult::Unavailable,
    {
        OracleResult::Unavailable
    }

    /// A reading whose data is out of date.
    pub fn stale() -> (r: Self)
        ensures
            r == OracleResult::Stale,
    {
        OracleResult::Stale
    }

    /// Whether the reading carries a price.
    pub fn is_available(&self) -> (r: bool)
        ensures
            r == (*self is Price),
    {
        match self {
            OracleResult::Price(_) => true,
            _ => false,
        }
    }

    /// The price, if the reading carries one.
    pub fn get_price(&self) -> (r: Option<i128>)
        ensures
            r == (match *self {
                OracleResult::Price(p) => Some(p),
                _ => None,
            }),
    {
        match self {
            OracleResult::Price(price) => Some(*price),
            _ => None,
        }
    }
}

/// Time frames for monitoring analytics.
#[derive(Clone, Copy, Debug, PartialEq, Eq, Structural)]
pub enum TimeFrame {
    LastHour,
    LastDay,
    LastWeek,
    Custom(u64),
}

} // verus!
