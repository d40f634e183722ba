use predictify_hybrid::config;
use predictify_hybrid::market::Address;
use predictify_hybrid::types::{conversion, validation};
use predictify_hybrid::{Error, Market, MarketState, OracleConfig, OracleProvider, OracleResult};

#[test]
fn test_oracle_provider() {
    let provider = OracleProvider::Pyth;
    assert_eq!(provider.name(), "Pyth");
    assert!(!provider.is_supported());
}

#[test]
fn test_oracle_config() {
    let config = OracleConfig::new(
        OracleProvider::Reflector,
        "BTC".to_string(),
        2500000,
        "gt".to_string(),
    );
    assert!(config.validate().is_ok());
}

#[test]
fn oracle_config_errors() {
    let bad_threshold =
        OracleConfig::new(OracleProvider::Reflector, "BTC".to_string(), 0, "gt".to_string());
    assert_eq!(bad_threshold.validate(), Err(Error::InvalidThreshold));
    let bad_operator =
        OracleConfig::new(OracleProvider::Reflector, "BTC".to_string(), 1, "ge".to_string());
    assert_eq!(bad_operator.validate(), Err(Error::InvalidComparison));
    let bad_provider =
        OracleConfig::new(OracleProvider::DIA, "BTC".to_string(), 1, "eq".to_string());
    assert_eq!(bad_provider.validate(), Err(Error::InvalidOracleConfig));
}

#[test]
fn test_market_creation() {
    let admin = Address(1);
    let outcomes = vec!["yes".to_string(), "no".to_string()];
    let oracle_config = OracleConfig::new(
        OracleProvider::Reflector,
        "BTC".to_string(),
        2500000,
        "gt".to_string(),
    );
    let now = 0;
    let market = Market::new(
        admin,
        "Test question".to_string(),
        outcomes,
        now + 86400,
        oracle_config,
        MarketState::Active,
    );
    assert!(market.is_active(now));
    assert!(!market.is_resolved());
    assert_eq!(market.total_staked, 0);
    assert!(market.validate(now).is_ok());
    assert_eq!(market.validate(now + 86400), Err(Error::InvalidDuration));
}

#[test]
fn test_oracle_result() {
    let result = OracleResult::price(2500000);
    assert!(result.is_available());
    assert_eq!(result.get_price(), Some(2500000));
    let unavailable = OracleResult::unavailable();
    assert!(!unavailable.is_available());
    assert_eq!(unavailable.get_price(), None);
    assert_eq!(OracleResult::stale().get_price(), None);
}

#[test]
fn test_validation_helpers() {
    assert!(validation::validate_oracle_provider(&OracleProvider::Reflector).is_ok());
    assert!(validation::validate_price(2500000).is_ok());
    assert!(validation::validate_stake(1000000, 500000).is_ok());
    assert!(validation::validate_duration(30).is_ok());
}

#[test]
fn validation_helper_errors() {
    assert_eq!(
        validation::validate_oracle_provider(&OracleProvider::Pyth),
        Err(Error::InvalidOracleConfig)
    );
    assert_eq!(validation::validate_price(0), Err(Error::OraclePriceOutOfRange));
    assert_eq!(validation::validate_stake(499_999, 500_000), Err(Error::InsufficientStake));
    assert_eq!(validation::validate_duration(0), Err(Error::InvalidDuration));
    assert_eq!(validation::validate_duration(366), Err(Error::InvalidDuration));
    assert!(validation::validate_duration(365).is_ok());
}

#[test]
fn test_conversion_helpers() {
    assert_eq!(
        conversion::string_to_oracle_provider("reflector"),
        Some(OracleProvider::Reflector)
    );
    assert_eq!(conversion::oracle_provider_to_string(&OracleProvider::Reflector), "Reflector");
}

#[test]
fn provider_names_in_any_case() {
    assert_eq!(conversion::string_to_oracle_provider("PYTH"), Some(OracleProvider::Pyth));
    assert_eq!(
        conversion::string_to_oracle_provider("BandProtocol"),
        Some(OracleProvider::BandProtocol)
    );
    assert_eq!(conversion::string_to_oracle_provider("Dia"), Some(OracleProvider::DIA));
    assert_eq!(conversion::string_to_oracle_provider("chainlink"), None);
    assert_eq!(conversion::oracle_provider_from_lowercase("band"), Some(OracleProvider::BandProtocol));
    assert_eq!(conversion::oracle_provider_from_lowercase("PYTH"), None);
    assert!(conversion::validate_comparison(&"lt".to_string()).is_ok());
    assert_eq!(
        conversion::validate_comparison(&"GT".to_string()),
        Err(Error::InvalidComparison)
    );
}

#[test]
fn test_fee_validation() {
    let valid_fee = 1_0000000;
    assert!(valid_fee >= 1_000_000);
    let too_small_fee = 500_000;
    assert!(too_small_fee < 1_000_000);
}

#[test]
fn test_configuration_constants() {
    assert_eq!(config::DEFAULT_PLATFORM_FEE_PERCENTAGE, 2);
    assert_eq!(config::DEFAULT_MARKET_CREATION_FEE, 10_000_000);
    assert_eq!(config::MIN_FEE_AMOUNT, 1_000_000);
    assert_eq!(config::MAX_FEE_AMOUNT, 1_000_000_000);
}

#[test]
fn test_market_duration_limits() {
    assert_eq!(config::MAX_MARKET_DURATION_DAYS, 365);
    assert_eq!(config::MIN_MARKET_DURATION_DAYS, 1);
    assert_eq!(config::MAX_MARKET_OUTCOMES, 10);
    assert_eq!(config::MIN_MARKET_OUTCOMES, 2);
}

#[test]
fn test_question_length_validation() {
    assert_eq!(config::MAX_QUESTION_LENGTH, 500);
}

#[test]
fn test_outcome_validation() {
    assert_eq!(config::MAX_OUTCOME_LENGTH, 100);
    assert_eq!(config::MIN_MARKET_OUTCOMES, 2);
    assert_eq!(config::MAX_MARKET_OUTCOMES, 10);
}

#[test]
fn test_percentage_calculations() {
    assert_eq!(config::PERCENTAGE_DENOMINATOR, 100);
    let total = 1000_0000000;
    let percentage = 2;
    let result = (total * percentage) / config::PERCENTAGE_DENOMINATOR;
    assert_eq!(result, 20_0000000);
}

#[test]
fn test_oracle_provider_types() {
    let _pyth = OracleProvider::Pyth;
    let _reflector = OracleProvider::Reflector;
    let _band = OracleProvider::BandProtocol;
    let _dia = OracleProvider::DIA;
    assert_ne!(OracleProvider::Pyth, OracleProvider::Reflector);
    assert_eq!(OracleProvider::Pyth, OracleProvider::Pyth);
}

#[test]
fn test_community_consensus() {
    let consensus = predictify_hybrid::types::CommunityConsensus {
        outcome: "yes".to_string(),
        votes: 75,
        total_votes: 100,
        percentage: 75,
    };
    assert_eq!(consensus.votes, 75);
    assert_eq!(consensus.percentage, 75);
}
