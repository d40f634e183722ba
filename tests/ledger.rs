use predictify_hybrid::settlement::{payout_share, platform_fee};
use predictify_hybrid::{
    Address, Error, MarketState, OracleConfig, OracleProvider, PredictifyHybrid,
    ResolutionDelayManager,
};

const DAY: u64 = 24 * 60 * 60;

fn setup() -> (PredictifyHybrid, Address, Address) {
    let mut env = PredictifyHybrid::new();
    let admin = Address(1);
    env.initialize(admin).unwrap();
    (env, admin, Address(2))
}

fn btc_oracle() -> OracleConfig {
    OracleConfig::new(OracleProvider::Reflector, "BTC".to_string(), 2500000, "gt".to_string())
}

fn create_test_market(env: &mut PredictifyHybrid, admin: Address) -> u32 {
    env.create_market(
        admin,
        "Will BTC go above $25,000 by December 31?".to_string(),
        vec!["yes".to_string(), "no".to_string()],
        30,
        btc_oracle(),
        0,
    )
    .unwrap()
}

#[test]
fn test_create_market_successful() {
    let (mut env, admin, _) = setup();
    let market_id = create_test_market(&mut env, admin);
    let market = env.get_market(market_id).unwrap();
    assert_eq!(market.question, "Will BTC go above $25,000 by December 31?".to_string());
    assert_eq!(market.outcomes.len(), 2);
    assert_eq!(market.end_time, 0 + 30 * 24 * 60 * 60);
}

#[test]
fn create_market_refusals() {
    let (mut env, admin, user) = setup();
    let q = "Will BTC go above $25,000 by December 31?".to_string();
    let two = vec!["yes".to_string(), "no".to_string()];
    assert_eq!(
        env.create_market(user, q.clone(), two.clone(), 30, btc_oracle(), 0),
        Err(Error::Unauthorized)
    );
    assert_eq!(env.create_market(admin, q.clone(), vec![], 30, btc_oracle(), 0), Err(Error::InvalidOutcomes));
    assert_eq!(
        env.create_market(admin, q.clone(), vec!["yes".to_string(), "yes".to_string()], 30, btc_oracle(), 0),
        Err(Error::InvalidOutcomes)
    );
    assert_eq!(
        env.create_market(admin, String::new(), two.clone(), 30, btc_oracle(), 0),
        Err(Error::InvalidQuestion)
    );
    assert_eq!(
        env.create_market(admin, q, two, 1, btc_oracle(), u64::MAX - 10),
        Err(Error::InvalidDuration)
    );
    assert_eq!(env.get_total_markets(), 0);
}

#[test]
fn test_successful_vote() {
    let (mut env, admin, user) = setup();
    let market_id = create_test_market(&mut env, admin);
    env.vote(user, market_id, "yes".to_string(), 1_0000000, 0).unwrap();
    assert!(env.has_user_voted(market_id, user));
    assert_eq!(env.get_market(market_id).unwrap().total_staked, 1_0000000);
}

#[test]
fn vote_refusals() {
    let (mut env, admin, user) = setup();
    let id = create_test_market(&mut env, admin);
    let end = env.get_market_end_time(id).unwrap();
    assert_eq!(env.vote(user, id, "yes".to_string(), 0, 0), Err(Error::InsufficientStake));
    assert_eq!(env.vote(user, 9, "yes".to_string(), 1, 0), Err(Error::MarketNotFound));
    assert_eq!(env.vote(user, id, "yes".to_string(), 1, end), Err(Error::MarketClosed));
    assert_eq!(env.vote(user, id, "invalid".to_string(), 1, 0), Err(Error::InvalidOutcome));
    env.vote(user, id, "yes".to_string(), 5, 0).unwrap();
    assert_eq!(env.vote(user, id, "no".to_string(), 5, 0), Err(Error::AlreadyVoted));
    let whale = Address(3);
    assert_eq!(
        env.vote(whale, id, "no".to_string(), i64::MAX as i128, 0),
        Err(Error::InvalidInput)
    );
    assert_eq!(env.get_market(id).unwrap().total_staked, 5);
}

#[test]
fn test_fee_calculation() {
    let (mut env, admin, user) = setup();
    let market_id = create_test_market(&mut env, admin);
    env.vote(user, market_id, "yes".to_string(), 100_0000000, 0).unwrap();
    let market = env.get_market(market_id).unwrap();
    let expected_fee = (market.total_staked * 2) / 100;
    assert_eq!(expected_fee, 2_0000000);
    assert_eq!(platform_fee(market.total_staked), 2_0000000);
}

#[test]
fn test_time_calculations() {
    let (mut env, admin, _) = setup();
    let current_time = 0u64;
    let duration_days = 30;
    let expected_end_time = current_time + (duration_days as u64 * 24 * 60 * 60);
    let market_id = create_test_market(&mut env, admin);
    assert_eq!(env.get_market(market_id).unwrap().end_time, expected_end_time);
}

#[test]
fn test_market_creation_data() {
    let (mut env, admin, _) = setup();
    let market_id = create_test_market(&mut env, admin);
    let market = env.get_market(market_id).unwrap();
    assert!(!market.question.is_empty());
    assert_eq!(market.outcomes.len(), 2);
    assert_eq!(market.admin, admin);
    assert!(market.end_time > 0);
}

#[test]
fn test_voting_data_integrity() {
    let (mut env, admin, user) = setup();
    let market_id = create_test_market(&mut env, admin);
    env.vote(user, market_id, "yes".to_string(), 1_0000000, 0).unwrap();
    assert!(env.has_user_voted(market_id, user));
    let (user_vote, user_stake) = env.get_user_vote(market_id, user).unwrap();
    assert_eq!(user_vote, "yes".to_string());
    assert_eq!(user_stake, 1_0000000);
    assert_eq!(env.get_market(market_id).unwrap().total_staked, 1_0000000);
}

#[test]
fn test_oracle_configuration() {
    let (mut env, admin, _) = setup();
    let market_id = create_test_market(&mut env, admin);
    let market = env.get_market(market_id).unwrap();
    assert_eq!(market.oracle_config.provider, OracleProvider::Reflector);
    assert_eq!(market.oracle_config.feed_id, "BTC".to_string());
    assert_eq!(market.oracle_config.threshold, 2500000);
    assert_eq!(market.oracle_config.comparison, "gt".to_string());
}

#[test]
fn queries_on_markets() {
    let (mut env, admin, user) = setup();
    let id = create_test_market(&mut env, admin);
    env.vote(user, id, "no".to_string(), 70, 0).unwrap();
    env.vote(Address(3), id, "yes".to_string(), 30, 0).unwrap();
    assert_eq!(env.get_market_stats(id), Some((100, 2, false)));
    assert_eq!(env.get_market_stats(5), None);
    assert_eq!(env.get_market_outcomes(id).unwrap().len(), 2);
    assert_eq!(env.get_market_state(id), Some(MarketState::Active));
    assert_eq!(env.get_user_vote(id, Address(9)), None);
    assert!(!env.needs_resolution(id, 30 * DAY - 1));
    assert!(env.needs_resolution(id, 30 * DAY));
    assert_eq!(env.get_total_markets(), 1);
}

#[test]
fn manual_resolution_and_claims() {
    let (mut env, admin, user) = setup();
    let id = create_test_market(&mut env, admin);
    let other = Address(3);
    env.vote(user, id, "yes".to_string(), 60, 0).unwrap();
    env.vote(other, id, "no".to_string(), 40, 0).unwrap();
    assert_eq!(env.claim_winnings(user, id), Err(Error::MarketNotResolved));
    assert_eq!(
        env.resolve_market_manual(admin, id, "yes".to_string(), 30 * DAY - 1),
        Err(Error::MarketClosed)
    );
    assert_eq!(
        env.resolve_market_manual(admin, id, "maybe".to_string(), 30 * DAY),
        Err(Error::InvalidOutcome)
    );
    assert_eq!(
        env.resolve_market_manual(user, id, "yes".to_string(), 30 * DAY),
        Err(Error::Unauthorized)
    );
    env.resolve_market_manual(admin, id, "yes".to_string(), 30 * DAY).unwrap();
    assert_eq!(
        env.resolve_market_manual(admin, id, "no".to_string(), 30 * DAY),
        Err(Error::MarketAlreadyResolved)
    );
    // (60 * 98 / 100) * 100 / 60 = 58 * 100 / 60 = 96
    assert_eq!(env.claim_winnings(user, id), Ok(96));
    assert_eq!(env.claim_winnings(other, id), Ok(0));
    assert_eq!(env.claim_winnings(Address(9), id), Err(Error::NothingToClaim));
    assert_eq!(env.claim_winnings(user, 4), Err(Error::MarketNotFound));
}

#[test]
fn initialize_only_once() {
    let mut env = PredictifyHybrid::new();
    assert!(env.initialize(Address(1)).is_ok());
    assert_eq!(env.initialize(Address(2)), Err(Error::InvalidState));
    assert!(env.validate_admin(Address(1)).is_ok());
    assert_eq!(env.validate_admin(Address(2)), Err(Error::Unauthorized));
}

#[test]
fn payout_share_formula() {
    assert_eq!(payout_share(60, 100, 100), 58);
    assert_eq!(payout_share(40, 100, 100), 39);
    assert_eq!(payout_share(10, 100, 0), 0);
    assert_eq!(payout_share(50, 200, 50), 196);
}

/// Two participants stake 60 and 40 on "yes", "yes" wins with a 2% fee.
#[test]
fn two_winners_share_the_pool() {
    let (mut env, admin, a) = setup();
    let b = Address(3);
    let id = create_test_market(&mut env, admin);
    env.vote(a, id, "yes".to_string(), 60, 0).unwrap();
    env.vote(b, id, "yes".to_string(), 40, 0).unwrap();
    let end = env.get_market_end_time(id).unwrap();
    ResolutionDelayManager::propose_resolution(&mut env, id, "yes".to_string(), "Oracle".to_string(), end)
        .unwrap();
    let close = end + 48 * 3600;
    ResolutionDelayManager::finalize_resolution(&mut env, id, close).unwrap();
    let pa = env.claim_winnings(a, id).unwrap();
    let pb = env.claim_winnings(b, id).unwrap();
    assert_eq!(pa, 58);
    assert_eq!(pb, 39);
    assert_eq!(pa + pb, 97);
    assert!(pa + pb + platform_fee(100) <= 100);
}

/// After a successful claim the same participant cannot claim again.
#[test]
fn second_claim_is_refused() {
    let (mut env, admin, a) = setup();
    let id = create_test_market(&mut env, admin);
    env.vote(a, id, "no".to_string(), 10, 0).unwrap();
    ResolutionDelayManager::force_finalize(&mut env, admin, id, "no".to_string(), 0).unwrap();
    assert_eq!(env.claim_winnings(a, id), Ok(9));
    assert_eq!(env.claim_winnings(a, id), Err(Error::AlreadyClaimed));
}

/// The stakes of a market always add up to its total.
#[test]
fn stakes_sum_to_total() {
    let (mut env, admin, _) = setup();
    let id = create_test_market(&mut env, admin);
    for k in 0..5u64 {
        let outcome = if k % 2 == 0 { "yes" } else { "no" };
        env.vote(Address(10 + k), id, outcome.to_string(), (k as i128 + 1) * 7, 0).unwrap();
    }
    let market = env.get_market(id).unwrap();
    let sum: i128 = market.stakes.iter().map(|e| e.amount).sum();
    assert_eq!(sum, market.total_staked);
    assert_eq!(market.winning_total(&"yes".to_string()), 7 + 21 + 35);
}

/// Payouts of all winners plus the fee fall short of the pool by at most one
/// unit per participant when everyone picked the winner.
#[test]
fn payouts_match_pool_within_rounding() {
    let (mut env, admin, _) = setup();
    let id = create_test_market(&mut env, admin);
    let stakes = [33i128, 17, 50, 1, 99];
    for (k, s) in stakes.iter().enumerate() {
        env.vote(Address(20 + k as u64), id, "yes".to_string(), *s, 0).unwrap();
    }
    ResolutionDelayManager::force_finalize(&mut env, admin, id, "yes".to_string(), 0).unwrap();
    let total: i128 = stakes.iter().sum();
    let mut paid = 0;
    for k in 0..stakes.len() {
        paid += env.claim_winnings(Address(20 + k as u64), id).unwrap();
    }
    let settled = paid + platform_fee(total);
    assert!(settled <= total);
    assert!(total - settled <= stakes.len() as i128);
}

/// Window of one hour, market ends at T, proposal at T.
#[test]
fn one_hour_window_example() {
    let (mut env, admin, _) = setup();
    ResolutionDelayManager::set_global_dispute_window(&mut env, admin, 1).unwrap();
    let id = create_test_market(&mut env, admin);
    let t = env.get_market_end_time(id).unwrap();
    assert_eq!(
        ResolutionDelayManager::propose_resolution(&mut env, id, "yes".to_string(), "Oracle".to_string(), t - 1),
        Err(Error::MarketClosed)
    );
    ResolutionDelayManager::propose_resolution(&mut env, id, "yes".to_string(), "Oracle".to_string(), t)
        .unwrap();
    let market = env.get_market(id).unwrap();
    assert_eq!(market.resolution.as_ref().unwrap().window_end_time, t + 3600);
    assert!(ResolutionDelayManager::is_dispute_window_open(&env, id, t + 3599));
    assert!(!ResolutionDelayManager::is_dispute_window_open(&env, id, t + 3600));
    assert_eq!(
        ResolutionDelayManager::finalize_resolution(&mut env, id, t + 3599),
        Err(Error::DisputeTimeoutNotExpired)
    );
    assert_eq!(
        ResolutionDelayManager::finalize_resolution(&mut env, id, t + 3600),
        Ok("yes".to_string())
    );
}

/// An escalated dispute blocks finalization until it is cleared.
#[test]
fn escalated_dispute_blocks_finalization() {
    let (mut env, admin, _) = setup();
    let id = create_test_market(&mut env, admin);
    let t = env.get_market_end_time(id).unwrap();
    ResolutionDelayManager::propose_resolution(&mut env, id, "no".to_string(), "Oracle".to_string(), t)
        .unwrap();
    ResolutionDelayManager::record_dispute(&mut env, id, t + 10).unwrap();
    env.update_market_state(id, MarketState::Disputed).unwrap();
    assert!(ResolutionDelayManager::has_unresolved_disputes(&env, id));
    let close = t + 48 * 3600;
    assert_eq!(
        ResolutionDelayManager::finalize_resolution(&mut env, id, close),
        Err(Error::DisputeResolutionConditionsNotMet)
    );
    let (can, reason) = ResolutionDelayManager::can_finalize(&env, id, close);
    assert!(!can);
    assert_eq!(reason, "Unresolved disputes".to_string());
    // The administrator may still force the outcome.
    ResolutionDelayManager::force_finalize(&mut env, admin, id, "yes".to_string(), close).unwrap();
    let market = env.get_market(id).unwrap();
    assert_eq!(market.winning_outcome, Some("yes".to_string()));
    assert!(market.resolution.as_ref().unwrap().overridden);
    assert_eq!(market.state, MarketState::Resolved);
}

/// A per-market window of 0 follows the global window, also after it changes.
#[test]
fn zero_market_window_tracks_global() {
    let (mut env, admin, _) = setup();
    let id = create_test_market(&mut env, admin);
    ResolutionDelayManager::set_market_dispute_window(&mut env, admin, id, 12).unwrap();
    ResolutionDelayManager::set_market_dispute_window(&mut env, admin, id, 0).unwrap();
    assert_eq!(
        ResolutionDelayManager::get_dispute_window_config(&env, id),
        ResolutionDelayManager::get_global_config(&env)
    );
    ResolutionDelayManager::set_global_dispute_window(&mut env, admin, 100).unwrap();
    assert_eq!(ResolutionDelayManager::get_dispute_window_config(&env, id).dispute_window_hours, 100);
    assert_eq!(
        ResolutionDelayManager::set_market_dispute_window(&mut env, admin, id, 169),
        Err(Error::InvalidTimeoutHours)
    );
    assert_eq!(
        ResolutionDelayManager::set_market_dispute_window(&mut env, admin, 3, 5),
        Err(Error::MarketNotFound)
    );
}

/// A window change after a proposal does not move the proposal's close time.
#[test]
fn window_change_is_not_retroactive() {
    let (mut env, admin, _) = setup();
    let id = create_test_market(&mut env, admin);
    let t = env.get_market_end_time(id).unwrap();
    ResolutionDelayManager::propose_resolution(&mut env, id, "yes".to_string(), "Oracle".to_string(), t)
        .unwrap();
    ResolutionDelayManager::set_global_dispute_window(&mut env, admin, 1).unwrap();
    assert_eq!(ResolutionDelayManager::get_window_remaining_time(&env, id, t), 48 * 3600);
    assert_eq!(ResolutionDelayManager::record_dispute(&mut env, 8, t), Err(Error::MarketNotFound));
}
