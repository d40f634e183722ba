//! Checks on single values supplied by callers.

use vstd::prelude::*;

use crate::errors::Error;
use crate::types::{spec_provider_supported, OracleProvider};

verus! {

/// Accept only providers that can serve markets.
pub fn validate_oracle_provider(provider: &OracleProvider) -> (r: Result<(), Error>)
    ensures
        r == (if spec_provider_supported(*provider) {
            Ok(())
        } else {
            Err(Error::InvalidOracleConfig)
        }),
{
    if !provider.is_supported() {
        return Err(Error::InvalidOracleConfig);
    }
    Ok(())
}

/// Accept only positive prices.
pub fn validate_price(price: i128) -> (r: Result<(), Error>)
    ensures
        r == (if price > 0 {
            Ok(())
        } else {
            Err(Error::OraclePriceOutOfRange)
        }),
{
    if price <= 0 {
        return Err(Error::OraclePriceOutOfRange);
    }
    Ok(())
}

/// Accept a stake of at least `min_stake`.
pub fn validate_stake(stake: i128, min_stake: i128) -> (r: Result<(), Error>)
    ensures
        r == (if stake >= min_stake {
            Ok(())
        } else {
            Err(Error::InsufficientStake)
        }),
{
    if stake < min_stake {
        return Err(Error::InsufficientStake);
    }
    Ok(())
}

/// Accept a market duration of one day up to a year.
pub fn validate_duration(duration_days: u32) -> (r: Result<(), Error>)
    ensures
        r == (if 1 <= duration_days <= 365 {
            Ok(())
        } else {
            Err(Error::InvalidDuration)
        }),
{
    if duration_days == 0 || duration_days > 365 {
        return Err(Error::InvalidDuration);
    }
    Ok(())
}

} // verus!
