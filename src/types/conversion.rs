//! Conversions between oracle providers and their textual names.

use vstd::prelude::*;

use crate::errors::Error;
use crate::types::{spec_provider_name, spec_valid_comparison, OracleProvider};

verus! {

/// What `str::to_lowercase` returns for a string: the Unicode lower-case
/// mapping of each character, which depends on the characters alone.
pub uninterp spec fn lower_of(s: Seq<char>) -> Seq<char>;

/// Relies on `str::to_lowercase`: the lower-case form of the argument.
#[verifier::external_body]
fn lowercase(s: &str) -> (r: String)
    ensures
        r@ == lower_of(s@),
{
    s.to_lowercase()
}

/// Whether two strings hold the same characters.
fn same_text(a: &str, b: &str) -> (r: bool)
    ensures
        r == (a@ == b@),
{
    let x = a.to_owned();
    let y = b.to_owned();
    x == y
}

/// The provider that an already lower-cased name denotes.
pub open spec fn spec_provider_from_lowercase(s: Seq<char>) -> Option<OracleProvider> {
    if s == "band"@ || s == "bandprotocol"@ {
        Some(OracleProvider::BandProtocol)
    } else if s == "dia"@ {
        Some(OracleProvider::DIA)
    } else if s == "reflector"@ {
        Some(OracleProvider::Reflector)
    } else if s == "pyth"@ {
        Some(OracleProvider::Pyth)
    } else {
        None
    }
}

/// Map a lower-case provider name ("band", "bandprotocol", "dia",
/// "reflector", "pyth") to its provider.
pub fn oracle_provider_from_lowercase(s: &str) -> (r: Option<OracleProvider>)
    ensures
        r == spec_provider_from_lowercase(s@),
{
    if same_text(s, "band") || same_text(s, "bandprotocol") {
        Some(OracleProvider::BandProtocol)
    } else if same_text(s, "dia") {
        Some(OracleProvider::DIA)
    } else if same_text(s, "reflector") {
        Some(OracleProvider::Reflector)
    } else if same_text(s, "pyth") {
        Some(OracleProvider::Pyth)
    } else {
        None
    }
}

/// Map a provider name, in any letter case, to its provider.
pub fn string_to_oracle_provider(s: &str) -> (r: Option<OracleProvider>)
    ensures
        r == spec_provider_from_lowercase(lower_of(s@)),
{
    let lower = lowercase(s);
    oracle_provider_from_lowercase(lower.as_str())
}

/// The display name of a provider.
pub fn oracle_provider_to_string(provider: &OracleProvider) -> (r: &'static str)
    ensures
        r@ == spec_provider_name(*provider),
{
    provider.name()
}

/// Accept only the operators "gt", "lt" and "eq".
pub fn validate_comparison(comparison: &String) -> (r: Result<(), Error>)
    ensures
        r == (if spec_valid_comparison(comparison@) {
            Ok(())
        } else {
            Err(Error::InvalidComparison)
        }),
{
    let c = comparison.as_str();
    if !same_text(c, "gt") && !same_text(c, "lt") && !same_text(c, "eq") {
        return Err(Error::InvalidComparison);
    }
    Ok(())
}

} // verus!
