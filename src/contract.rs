//! Market creation, staking, settlement claims and the read-only queries of
//! the ledger.

use vstd::prelude::*;

use crate::errors::Error;
use crate::market::{
    has_outcome, has_participant, lemma_entry_le_sum, lemma_sums_push, lemma_sums_update,
    outcome_total, Address, Market, MarketView, OracleConfigView, StakeEntry, StakeView,
    MAX_TOTAL_STAKE,
};
use crate::resolution_delay::ResolutionDelayConfig;
use crate::settlement::{payout_share, spec_payout};
use crate::types::{MarketState, OracleConfig};
use crate::{LedgerView, PredictifyHybrid};

verus! {

/// Seconds in a day.
pub const SECONDS_PER_DAY: u64 = 86_400;

/// Whether no label occurs twice.
pub open spec fn labels_unique(outcomes: Seq<Seq<char>>) -> bool {
    forall|i: int, j: int|
        0 <= i < outcomes.len() && 0 <= j < outcomes.len() && i != j ==> #[trigger] outcomes[i]
            != #[trigger] outcomes[j]
}

/// The market that `create_market` adds.
pub open spec fn spec_new_market(
    admin: Address,
    question: Seq<char>,
    outcomes: Seq<Seq<char>>,
    end_time: u64,
    oracle_config: OracleConfigView,
) -> MarketView {
    MarketView {
        admin,
        question,
        outcomes,
        end_time,
        oracle_config,
        oracle_result: None,
        stakes: Seq::empty(),
        total_staked: 0,
        winning_outcome: None,
        fee_collected: false,
        state: MarketState::Active,
        dispute_window_hours: 0,
        resolution: None,
    }
}

/// Result and next ledger of `create_market`.
pub open spec fn spec_create_market(
    l: LedgerView,
    admin: Address,
    question: Seq<char>,
    outcomes: Seq<Seq<char>>,
    duration_days: u32,
    oracle_config: OracleConfigView,
    now: u64,
) -> (Result<u32, Error>, LedgerView) {
    if !l.is_admin(admin) {
        (Err(Error::Unauthorized), l)
    } else if outcomes.len() < 2 || !labels_unique(outcomes) {
        (Err(Error::InvalidOutcomes), l)
    } else if question.len() == 0 {
        (Err(Error::InvalidQuestion), l)
    } else if now as int + duration_days as int * 86_400 > u64::MAX {
        (Err(Error::InvalidDuration), l)
    } else if l.markets.len() >= u32::MAX {
        (Err(Error::InvalidState), l)
    } else {
        let end_time = (now as int + duration_days as int * 86_400) as u64;
        (
            Ok(l.markets.len() as u32),
            LedgerView {
                markets: l.markets.push(
                    spec_new_market(admin, question, outcomes, end_time, oracle_config),
                ),
                ..l
            },
        )
    }
}

/// Result and next ledger of `initialize`: the administrator is set once.
pub open spec fn spec_initialize(l: LedgerView, admin: Address) -> (Result<(), Error>, LedgerView) {
    if l.admin is Some {
        (Err(Error::InvalidState), l)
    } else {
        (Ok(()), LedgerView { admin: Some(admin), ..l })
    }
}

/// Result and next ledger of `vote`.
pub open spec fn spec_vote(
    l: LedgerView,
    user: Address,
    id: u32,
    outcome: Seq<char>,
    stake: i128,
    now: u64,
) -> (Result<(), Error>, LedgerView) {
    let m = l.markets[id as int];
    if stake <= 0 {
        (Err(Error::InsufficientStake), l)
    } else if !l.has_market(id) {
        (Err(Error::MarketNotFound), l)
    } else if now >= m.end_time || m.state != MarketState::Active {
        (Err(Error::MarketClosed), l)
    } else if !has_outcome(m.outcomes, outcome) {
        (Err(Error::InvalidOutcome), l)
    } else if has_participant(m.stakes, user) {
        (Err(Error::AlreadyVoted), l)
    } else if m.stakes.len() >= u32::MAX {
        (Err(Error::InvalidState), l)
    } else if m.total_staked + stake > MAX_TOTAL_STAKE {
        (Err(Error::InvalidInput), l)
    } else {
        let e = StakeView { participant: user, outcome, amount: stake, claimed: false };
        (
            Ok(()),
            l.with_market(
                id,
                MarketView {
                    stakes: m.stakes.push(e),
                    total_staked: (m.total_staked + stake) as i128,
                    ..m
                },
            ),
        )
    }
}

/// What a claim pays: the proportional share for a stake on the winning
/// outcome, nothing for any other stake.
pub open spec fn spec_claim_amount(m: MarketView, e: StakeView) -> int {
    let w = m.winning_outcome->Some_0;
    if e.outcome == w {
        spec_payout(e.amount as int, m.total_staked as int, outcome_total(m.stakes, w))
    } else {
        0
    }
}

/// Result and next ledger of `claim_winnings`.
pub open spec fn spec_claim(l: LedgerView, user: Address, id: u32) -> (
    Result<i128, Error>,
    LedgerView,
) {
    let m = l.markets[id as int];
    let i = m.entry_index(user);
    let e = m.stakes[i];
    if !l.has_market(id) {
        (Err(Error::MarketNotFound), l)
    } else if has_participant(m.stakes, user) && e.claimed {
        (Err(Error::AlreadyClaimed), l)
    } else if m.winning_outcome is None {
        (Err(Error::MarketNotResolved), l)
    } else if !has_participant(m.stakes, user) {
        (Err(Error::NothingToClaim), l)
    } else {
        (
            Ok(spec_claim_amount(m, e) as i128),
            l.with_market(
                id,
                MarketView {
                    stakes: m.stakes.update(i, StakeView { claimed: true, ..e }),
                    ..m
                },
            ),
        )
    }
}

/// Result and next ledger of `resolve_market_manual`.
pub open spec fn spec_resolve_manual(
    l: LedgerView,
    admin: Address,
    id: u32,
    winning_outcome: Seq<char>,
    now: u64,
) -> (Result<(), Error>, LedgerView) {
    let m = l.markets[id as int];
    if !l.is_admin(admin) {
        (Err(Error::Unauthorized), l)
    } else if !l.has_market(id) {
        (Err(Error::MarketNotFound), l)
    } else if now < m.end_time {
        (Err(Error::MarketClosed), l)
    } else if m.winning_outcome is Some {
        (Err(Error::MarketAlreadyResolved), l)
    } else if !has_outcome(m.outcomes, winning_outcome) {
        (Err(Error::InvalidOutcome), l)
    } else {
        (
            Ok(()),
            l.with_market(
                id,
                MarketView {
                    winning_outcome: Some(winning_outcome),
                    state: MarketState::Resolved,
                    ..m
                },
            ),
        )
    }
}

/// Whether every label differs from every other.
fn outcomes_unique(outcomes: &Vec<String>) -> (r: bool)
    ensures
        r == labels_unique(outcomes@.map_values(|s: String| s@)),
{
    let ghost v = outcomes@.map_values(|s: String| s@);
    let mut i: usize = 0;
    while i < outcomes.len()
        invariant
            i <= outcomes.len(),
            v == outcomes@.map_values(|s: String| s@),
            forall|a: int, b: int| 0 <= a < i && 0 <= b < outcomes.len() && a != b ==> v[a] != v[b],
        decreases outcomes.len() - i,
    {
        let mut j: usize = 0;
        while j < outcomes.len()
            invariant
                i < outcomes.len(),
                j <= outcomes.len(),
                v == outcomes@.map_values(|s: String| s@),
                forall|a: int, b: int|
                    0 <= a < i && 0 <= b < outcomes.len() && a != b ==> v[a] != v[b],
                forall|b: int| 0 <= b < j && b != i ==> v[i as int] != v[b],
            decreases outcomes.len() - j,
        {
            if j != i && outcomes[i] == outcomes[j] {
                assert(v[i as int] == v[j as int]);
                return false;
            }
            j = j + 1;
        }
        i = i + 1;
    }
    true
}

impl PredictifyHybrid {
    /// An empty ledger with no administrator and the default global window.
    pub fn new() -> (r: Self)
        ensures
            r@.admin is None,
            r@.markets.len() == 0,
            r@.global_config == ResolutionDelayConfig::spec_default(),
            r.wf(),
    {
        let r = PredictifyHybrid {
            admin: None,
            markets: Vec::new(),
            global_config: ResolutionDelayConfig::default_config(),
        };
        assert(r@.markets =~= Seq::<MarketView>::empty());
        r
    }

    /// Set the administrator, once.
    pub fn initialize(&mut self, admin: Address) -> (r: Result<(), Error>)
        requires
            old(self).wf(),
        ensures
            final(self).wf(),
            (r, final(self)@) == spec_initialize(old(self)@, admin),
    {
        if self.admin.is_some() {
            return Err(Error::InvalidState);
        }
        self.admin = Some(admin);
        Ok(())
    }

    /// `Ok` when `caller` is the administrator, `Unauthorized` otherwise.
    pub fn validate_admin(&self, caller: Address) -> (r: Result<(), Error>)
        ensures
            r == (if self@.is_admin(caller) {
                Ok(())
            } else {
                Err(Error::Unauthorized)
            }),
    {
        match self.admin {
            Some(a) => {
                if a == caller {
                    Ok(())
                } else {
                    Err(Error::Unauthorized)
                }
            },
            None => Err(Error::Unauthorized),
        }
    }

    /// Create a market that takes stakes for `duration_days` from `now`.
    /// Only the administrator may create markets; the outcome labels must be
    /// at least two and distinct and the question non-empty. The oracle
    /// parameters are stored as given (see [`OracleConfig::validate`]).
    /// Returns the new market's identifier.
    pub fn create_market(
        &mut self,
        admin: Address,
        question: String,
        outcomes: Vec<String>,
        duration_days: u32,
        oracle_config: OracleConfig,
        now: u64,
    ) -> (r: Result<u32, Error>)
        requires
            old(self).wf(),
        ensures
            final(self).wf(),
            (r, final(self)@) == spec_create_market(
                old(self)@,
                admin,
                question@,
                outcomes@.map_values(|s: String| s@),
                duration_days,
                oracle_config@,
                now,
            ),
    {
        let auth = self.validate_admin(admin);
        if auth.is_err() {
            return Err(Error::Unauthorized);
        }
        if outcomes.len() < 2 || !outcomes_unique(&outcomes) {
            return Err(Error::InvalidOutcomes);
        }
        if question.as_str().is_empty() {
            return Err(Error::InvalidQuestion);
        }
        let duration_seconds: u64 = duration_days as u64 * SECONDS_PER_DAY;
        if duration_seconds > u64::MAX - now {
            return Err(Error::InvalidDuration);
        }
        if self.markets.len() >= u32::MAX as usize {
            return Err(Error::InvalidState);
        }
        let end_time = now + duration_seconds;
        let id = self.markets.len() as u32;
        let ghost oc = oracle_config@;
        let ghost ov = outcomes@.map_values(|s: String| s@);
        let market = Market::new(admin, question, outcomes, end_time, oracle_config, MarketState::Active);
        let ghost mv = market@;
        self.markets.push(market);
        proof {
            assert(mv.stakes =~= Seq::<StakeView>::empty());
            assert(self@.markets =~= old(self)@.markets.push(mv));
        }
        Ok(id)
    }

    /// Stake `stake` on `outcome` in market `market_id` as `user`. Staking is
    /// open while `now` is before the market's end time and its state is
    /// active; each participant stakes once, on one of the market's labels.
    /// A market holds at most `u32::MAX` entries (`InvalidState`) and at most
    /// [`MAX_TOTAL_STAKE`] in all (`InvalidInput`).
    pub fn vote(
        &mut self,
        user: Address,
        market_id: u32,
        outcome: String,
        stake: i128,
        now: u64,
    ) -> (r: Result<(), Error>)
        requires
            old(self).wf(),
        ensures
            final(self).wf(),
            (r, final(self)@) == spec_vote(old(self)@, user, market_id, outcome@, stake, now),
    {
        if stake <= 0 {
            return Err(Error::InsufficientStake);
        }
        if market_id as usize >= self.markets.len() {
            return Err(Error::MarketNotFound);
        }
        let idx = market_id as usize;
        proof {
            assert(self@.markets[idx as int] == self.markets@[idx as int]@);
        }
        if now >= self.markets[idx].end_time || self.markets[idx].state != MarketState::Active {
            return Err(Error::MarketClosed);
        }
        if !self.markets[idx].has_outcome(&outcome) {
            return Err(Error::InvalidOutcome);
        }
        if let Some(i) = self.markets[idx].find_participant(user) {
            proof {
                assert(self@.markets[idx as int].stakes[i as int]
                    == self.markets@[idx as int].stakes@[i as int]@);
            }
            return Err(Error::AlreadyVoted);
        }
        if self.markets[idx].stakes.len() >= u32::MAX as usize {
            return Err(Error::InvalidState);
        }
        proof {
            assert(self@.markets[idx as int].wf());
            crate::market::lemma_sum_nonneg(self@.markets[idx as int].stakes);
        }
        if stake > MAX_TOTAL_STAKE - self.markets[idx].total_staked {
            return Err(Error::InvalidInput);
        }
        let ghost old_mv = self@.markets[idx as int];
        let ghost e = StakeView { participant: user, outcome: outcome@, amount: stake, claimed: false };
        let m = &mut self.markets[idx];
        m.stakes.push(StakeEntry { participant: user, outcome, amount: stake, claimed: false });
        m.total_staked = m.total_staked + stake;
        proof {
            let new_mv = MarketView {
                stakes: old_mv.stakes.push(e),
                total_staked: (old_mv.total_staked + stake) as i128,
                ..old_mv
            };
            assert(self.markets@[idx as int]@.stakes =~= old_mv.stakes.push(e));
            assert(self.markets@[idx as int]@ == new_mv);
            assert(self@.markets =~= old(self)@.markets.update(idx as int, new_mv));
            lemma_sums_push(old_mv.stakes, e, outcome@);
            assert forall|a: int, b: int|
                0 <= a < new_mv.stakes.len() && 0 <= b < new_mv.stakes.len() && a != b
                    implies #[trigger] new_mv.stakes[a].participant
                    != #[trigger] new_mv.stakes[b].participant by {
                if a < old_mv.stakes.len() && b < old_mv.stakes.len() {
                } else if a < old_mv.stakes.len() {
                    assert(old_mv.stakes[a].participant != user);
                } else {
                    assert(old_mv.stakes[b].participant != user);
                }
            }
            assert(new_mv.wf());
            assert forall|k: int| 0 <= k < self@.markets.len() implies #[trigger] self@.markets[k].wf() by {
                if k != idx {
                    assert(self@.markets[k] == old(self)@.markets[k]);
                }
            }
        }
        Ok(())
    }

    /// Settle `user`'s stake in a resolved market once. A stake on the
    /// winning outcome is paid its net share (the platform fee removed) scaled
    /// by the whole pool over the winning side's total; any other stake is
    /// paid nothing. The entry is marked claimed either way.
    pub fn claim_winnings(&mut self, user: Address, market_id: u32) -> (r: Result<i128, Error>)
        requires
            old(self).wf(),
        ensures
            final(self).wf(),
            (r, final(self)@) == spec_claim(old(self)@, user, market_id),
    {
        if market_id as usize >= self.markets.len() {
            return Err(Error::MarketNotFound);
        }
        let idx = market_id as usize;
        let ghost mv = self@.markets[idx as int];
        proof {
            assert(mv == self.markets@[idx as int]@);
            assert(mv.wf());
        }
        let found = self.markets[idx].find_participant(user);
        proof {
            if let Some(i) = found {
                assert(mv.stakes[i as int] == self.markets@[idx as int].stakes@[i as int]@);
                assert(mv.stakes[i as int].participant == user);
                assert(has_participant(mv.stakes, user));
                let j = mv.entry_index(user);
                assert(0 <= j < mv.stakes.len() && mv.stakes[j].participant == user);
                if j != i as int {
                    assert(mv.stakes[j].participant != mv.stakes[i as int].participant);
                }
                assert(j == i as int);
            }
        }
        if let Some(i) = found {
            if self.markets[idx].stakes[i].claimed {
                return Err(Error::AlreadyClaimed);
            }
        }
        let winner = match &self.markets[idx].winning_outcome {
            Some(w) => w,
            None => {
                return Err(Error::MarketNotResolved);
            },
        };
        let i = match found {
            Some(i) => i,
            None => {
                return Err(Error::NothingToClaim);
            },
        };
        let payout = if self.markets[idx].stakes[i].outcome == *winner {
            let wt = self.markets[idx].winning_total(winner);
            proof {
                lemma_entry_le_sum(mv.stakes, i as int);
            }
            payout_share(self.markets[idx].stakes[i].amount, self.markets[idx].total_staked, wt)
        } else {
            0
        };
        let ghost e = mv.stakes[i as int];
        let m = &mut self.markets[idx];
        m.stakes[i].claimed = true;
        proof {
            let ne = StakeView { claimed: true, ..e };
            let new_mv = MarketView { stakes: mv.stakes.update(i as int, ne), ..mv };
            assert(self.markets@[idx as int]@.stakes =~= mv.stakes.update(i as int, ne));
            assert(self.markets@[idx as int]@ == new_mv);
            assert(self@.markets =~= old(self)@.markets.update(idx as int, new_mv));
            lemma_sums_update(mv.stakes, i as int, ne, e.outcome);
            assert forall|a: int, b: int|
                0 <= a < new_mv.stakes.len() && 0 <= b < new_mv.stakes.len() && a != b
                    implies #[trigger] new_mv.stakes[a].participant
                    != #[trigger] new_mv.stakes[b].participant by {
                assert(mv.stakes[a].participant != mv.stakes[b].participant);
            }
            assert(new_mv.wf());
            assert forall|k: int| 0 <= k < self@.markets.len() implies #[trigger] self@.markets[k].wf() by {
                if k != idx {
                    assert(self@.markets[k] == old(self)@.markets[k]);
                }
            }
        }
        Ok(payout)
    }

    /// Set the winning outcome of an ended, unresolved market directly.
    /// Administrator only; the outcome must be one of the market's labels.
    pub fn resolve_market_manual(
        &mut self,
        admin: Address,
        market_id: u32,
        winning_outcome: String,
        now: u64,
    ) -> (r: Result<(), Error>)
        requires
            old(self).wf(),
        ensures
            final(self).wf(),
            (r, final(self)@) == spec_resolve_manual(
                old(self)@,
                admin,
                market_id,
                winning_outcome@,
                now,
            ),
    {
        if self.validate_admin(admin).is_err() {
            return Err(Error::Unauthorized);
        }
        if market_id as usize >= self.markets.len() {
            return Err(Error::MarketNotFound);
        }
        let idx = market_id as usize;
        let ghost mv = self@.markets[idx as int];
        proof {
            assert(mv == self.markets@[idx as int]@);
        }
        if now < self.markets[idx].end_time {
            return Err(Error::MarketClosed);
        }
        if self.markets[idx].winning_outcome.is_some() {
            return Err(Error::MarketAlreadyResolved);
        }
        if !self.markets[idx].has_outcome(&winning_outcome) {
            return Err(Error::InvalidOutcome);
        }
        let ghost w = winning_outcome@;
        let m = &mut self.markets[idx];
        m.winning_outcome = Some(winning_outcome);
        m.state = MarketState::Resolved;
        proof {
            let new_mv = MarketView {
                winning_outcome: Some(w),
                state: MarketState::Resolved,
                ..mv
            };
            assert(old(self)@.markets[idx as int].wf());
            assert(new_mv.wf());
            assert(self.markets@[idx as int]@ == new_mv);
            assert(self@.markets =~= old(self)@.markets.update(idx as int, new_mv));
            assert forall|k: int| 0 <= k < self@.markets.len() implies #[trigger] self@.markets[k].wf() by {
                if k != idx {
                    assert(self@.markets[k] == old(self)@.markets[k]);
                }
            }
        }
        Ok(())
    }

    /// Record the lifecycle state that an outside process decided for a
    /// market, such as `Disputed` when a challenge escalates.
    pub fn update_market_state(&mut self, market_id: u32, state: MarketState) -> (r: Result<
        (),
        Error,
    >)
        requires
            old(self).wf(),
        ensures
            final(self).wf(),
            !old(self)@.has_market(market_id) ==> r == Err::<(), Error>(Error::MarketNotFound)
                && final(self)@ == old(self)@,
            old(self)@.has_market(market_id) ==> r is Ok && final(self)@ == old(self)@.with_market(
                market_id,
                MarketView { state, ..old(self)@.markets[market_id as int] },
            ),
    {
        if market_id as usize >= self.markets.len() {
            return Err(Error::MarketNotFound);
        }
        let idx = market_id as usize;
        let ghost mv = self@.markets[idx as int];
        proof {
            assert(mv == self.markets@[idx as int]@);
        }
        self.markets[idx].state = state;
        proof {
            let new_mv = MarketView { state, ..mv };
            assert(old(self)@.markets[idx as int].wf());
            assert(new_mv.wf());
            assert(self.markets@[idx as int]@ == new_mv);
            assert(self@.markets =~= old(self)@.markets.update(idx as int, new_mv));
            assert forall|k: int| 0 <= k < self@.markets.len() implies #[trigger] self@.markets[k].wf() by {
                if k != idx {
                    assert(self@.markets[k] == old(self)@.markets[k]);
                }
            }
        }
        Ok(())
    }

    /// The market `market_id`, if it exists.
    pub fn get_market(&self, market_id: u32) -> (r: Option<&Market>)
        ensures
            r is Some == self@.has_market(market_id),
            r matches Some(m) ==> m@ == self@.markets[market_id as int],
    {
        if market_id as usize >= self.markets.len() {
            return None;
        }
        proof {
            assert(self@.markets[market_id as int] == self.markets@[market_id as int]@);
        }
        Some(&self.markets[market_id as usize])
    }

    /// The outcome and amount `user` staked in market `market_id`, if any.
    pub fn get_user_vote(&self, market_id: u32, user: Address) -> (r: Option<(String, i128)>)
        requires
            self.wf(),
        ensures
            r is Some == (self@.has_market(market_id) && has_participant(
                self@.markets[market_id as int].stakes,
                user,
            )),
            r matches Some(v) ==> v.0@ == self@.markets[market_id as int].stakes[self@.markets[market_id as int].entry_index(user)].outcome
                && v.1 == self@.markets[market_id as int].stakes[self@.markets[market_id as int].entry_index(user)].amount,
    {
        let m = match self.get_market(market_id) {
            Some(m) => m,
            None => {
                return None;
            },
        };
        match m.find_participant(user) {
            Some(i) => {
                proof {
                    let mv = m@;
                    assert(self@.markets[market_id as int].wf());
                    assert(mv.stakes[i as int] == m.stakes@[i as int]@);
                    assert(has_participant(mv.stakes, user));
                    let j = mv.entry_index(user);
                    if j != i as int {
                        assert(mv.stakes[j].participant != mv.stakes[i as int].participant);
                    }
                }
                Some((m.stakes[i].outcome.clone(), m.stakes[i].amount))
            },
            None => None,
        }
    }

    /// Total staked, number of participants and whether a winner is set, for
    /// market `market_id`.
    pub fn get_market_stats(&self, market_id: u32) -> (r: Option<(i128, u32, bool)>)
        requires
            self.wf(),
        ensures
            r is Some == self@.has_market(market_id),
            r matches Some(v) ==> v.0 == self@.markets[market_id as int].total_staked && v.1
                == self@.markets[market_id as int].stakes.len() && v.2 == self@.markets[market_id as int].winning_outcome is Some,
    {
        let m = match self.get_market(market_id) {
            Some(m) => m,
            None => {
                return None;
            },
        };
        proof {
            assert(self@.markets[market_id as int].wf());
        }
        Some((m.total_staked, m.stakes.len() as u32, m.winning_outcome.is_some()))
    }

    /// Whether market `market_id` has ended at `now` but has no winner yet.
    pub fn needs_resolution(&self, market_id: u32, now: u64) -> (r: bool)
        ensures
            r == (self@.has_market(market_id) && now >= self@.markets[market_id as int].end_time
                && self@.markets[market_id as int].winning_outcome is None),
    {
        match self.get_market(market_id) {
            Some(m) => now >= m.end_time && m.winning_outcome.is_none(),
            None => false,
        }
    }

    /// The outcome labels of market `market_id`.
    pub fn get_market_outcomes(&self, market_id: u32) -> (r: Option<&Vec<String>>)
        ensures
            r is Some == self@.has_market(market_id),
            r matches Some(o) ==> o@.map_values(|s: String| s@) == self@.markets[market_id as int].outcomes,
    {
        match self.get_market(market_id) {
            Some(m) => Some(&m.outcomes),
            None => None,
        }
    }

    /// Whether `user` holds a stake in market `market_id`.
    pub fn has_user_voted(&self, market_id: u32, user: Address) -> (r: bool)
        ensures
            r == (self@.has_market(market_id) && has_participant(
                self@.markets[market_id as int].stakes,
                user,
            )),
    {
        match self.get_market(market_id) {
            Some(m) => {
                let found = m.find_participant(user);
                proof {
                    if let Some(i) = found {
                        assert(m@.stakes[i as int] == m.stakes@[i as int]@);
                    }
                }
                found.is_some()
            },
            None => false,
        }
    }

    /// The end time of market `market_id`.
    pub fn get_market_end_time(&self, market_id: u32) -> (r: Option<u64>)
        ensures
            r is Some == self@.has_market(market_id),
            r matches Some(t) ==> t == self@.markets[market_id as int].end_time,
    {
        match self.get_market(market_id) {
            Some(m) => Some(m.end_time),
            None => None,
        }
    }

    /// The stored lifecycle state of market `market_id`.
    pub fn get_market_state(&self, market_id: u32) -> (r: Option<MarketState>)
        ensures
            r is Some == self@.has_market(market_id),
            r matches Some(st) ==> st == self@.markets[market_id as int].state,
    {
        match self.get_market(market_id) {
            Some(m) => Some(m.state),
            None => None,
        }
    }

    /// How many markets were created.
    pub fn get_total_markets(&self) -> (r: u32)
        requires
            self.wf(),
        ensures
            r == self@.markets.len(),
    {
        proof {
            assert(self@.markets.len() == self.markets@.len());
        }
        self.markets.len() as u32
    }
}

/// The stake ledger is consistent in every well-formed ledger, which every
/// operation keeps: the amounts staked in a market sum to its total staked.
pub proof fn lemma_stakes_sum_to_total(l: LedgerView, id: u32)
    requires
        l.wf(),
        l.has_market(id),
    ensures
        crate::market::sum_amounts(l.markets[id as int].stakes) == l.markets[id as int].total_staked,
{
    assert(l.markets[id as int].wf());
}

/// A claim on a stake that did not pick the winning outcome pays nothing.
pub proof fn lemma_losing_claim_pays_nothing(l: LedgerView, user: Address, id: u32)
    requires
        l.wf(),
        spec_claim(l, user, id).0 is Ok,
        ({
            let m = l.markets[id as int];
            m.stakes[m.entry_index(user)].outcome != m.winning_outcome->Some_0
        }),
    ensures
        spec_claim(l, user, id).0 == Ok::<i128, Error>(0),
{
}

/// A payout is claimed once: after a successful claim, the same
/// participant's next claim on the market fails with `AlreadyClaimed`.
pub proof fn lemma_second_claim_fails(l: LedgerView, user: Address, id: u32)
    requires
        l.wf(),
        spec_claim(l, user, id).0 is Ok,
    ensures
        spec_claim(spec_claim(l, user, id).1, user, id).0 == Err::<i128, Error>(
            Error::AlreadyClaimed,
        ),
{
    let m = l.markets[id as int];
    assert(m.wf());
    let i = m.entry_index(user);
    let next = spec_claim(l, user, id).1;
    let n = next.markets[id as int];
    assert(n.stakes[i].participant == user);
    assert(has_participant(n.stakes, user));
    let j = n.entry_index(user);
    if j != i {
        assert(m.stakes[j].participant == n.stakes[j].participant);
        assert(m.stakes[j].participant != m.stakes[i].participant);
    }
}

} // verus!
