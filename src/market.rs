//! Market records and the stake ledger kept on each of them, with their
//! mathematical models.

use vstd::prelude::*;

use crate::errors::Error;
use crate::types::{spec_oracle_config_check, MarketState, OracleConfig, OracleProvider};

verus! {

/// Upper bound on the total staked in one market. It keeps the payout product
/// `net_share * total_staked` within 128-bit arithmetic.
pub const MAX_TOTAL_STAKE: i128 = 9_223_372_036_854_775_807;

/// An account on the ledger: a participant or an administrator.
#[derive(Clone, Copy, Debug, PartialEq, Eq, Hash, Structural)]
pub struct Address(pub u64);

/// One participant's stake in a market.
#[derive(Clone, Debug)]
pub struct StakeEntry {
    /// Who staked
    pub participant: Address,
    /// The outcome label staked on
    pub outcome: String,
    /// Amount staked, in the token's smallest unit
    pub amount: i128,
    /// Whether the payout was already claimed
    pub claimed: bool,
}

/// Model of a stake entry.
pub struct StakeView {
    pub participant: Address,
    pub outcome: Seq<char>,
    pub amount: i128,
    pub claimed: bool,
}

impl View for StakeEntry {
    type V = StakeView;

    open spec fn view(&self) -> StakeView {
        StakeView {
            participant: self.participant,
            outcome: self.outcome@,
            amount: self.amount,
            claimed: self.claimed,
        }
    }
}

/// A proposed resolution and the dispute window it opened.
#[derive(Clone, Debug)]
pub struct ResolutionProposal {
    /// The proposed winning outcome
    pub outcome: String,
    /// When the proposal was made
    pub proposed_at: u64,
    /// First instant at which the window is closed
    pub window_end_time: u64,
    /// Whether the resolution is final
    pub finalized: bool,
    /// Challenges recorded while the window was open
    pub dispute_count: u32,
    /// Who or what proposed the outcome
    pub source: String,
    /// Whether an administrator forced the outcome
    pub overridden: bool,
}

/// Model of a resolution proposal.
pub struct ProposalView {
    pub outcome: Seq<char>,
    pub proposed_at: u64,
    pub window_end_time: u64,
    pub finalized: bool,
    pub dispute_count: u32,
    pub source: Seq<char>,
    pub overridden: bool,
}

impl View for ResolutionProposal {
    type V = ProposalView;

    open spec fn view(&self) -> ProposalView {
        ProposalView {
            outcome: self.outcome@,
            proposed_at: self.proposed_at,
            window_end_time: self.window_end_time,
            finalized: self.finalized,
            dispute_count: self.dispute_count,
            source: self.source@,
            overridden: self.overridden,
        }
    }
}

/// Model of an oracle configuration.
pub struct OracleConfigView {
    pub provider: OracleProvider,
    pub feed_id: Seq<char>,
    pub threshold: i128,
    pub comparison: Seq<char>,
}

impl View for OracleConfig {
    type V = OracleConfigView;

    open spec fn view(&self) -> OracleConfigView {
        OracleConfigView {
            provider: self.provider,
            feed_id: self.feed_id@,
            threshold: self.threshold,
            comparison: self.comparison@,
        }
    }
}

/// One prediction market: its question and outcomes, its stake ledger and
/// the state of its resolution.
#[derive(Clone, Debug)]
pub struct Market {
    /// Administrator who created the market
    pub admin: Address,
    /// The question being predicted
    pub question: String,
    /// The outcome labels, fixed at creation
    pub outcomes: Vec<String>,
    /// End of staking (Unix timestamp, seconds)
    pub end_time: u64,
    /// Oracle that decides the market
    pub oracle_config: OracleConfig,
    /// Outcome reported for the market, once proposed
    pub oracle_result: Option<String>,
    /// One entry per participant
    pub stakes: Vec<StakeEntry>,
    /// Sum of all stake amounts
    pub total_staked: i128,
    /// The final winning outcome
    pub winning_outcome: Option<String>,
    /// Whether fees have been collected
    pub fee_collected: bool,
    /// Stored lifecycle state
    pub state: MarketState,
    /// Per-market dispute window in hours; 0 means the global setting
    pub dispute_window_hours: u32,
    /// The current resolution proposal, if any
    pub resolution: Option<ResolutionProposal>,
}

/// Model of a market.
pub struct MarketView {
    pub admin: Address,
    pub question: Seq<char>,
    pub outcomes: Seq<Seq<char>>,
    pub end_time: u64,
    pub oracle_config: OracleConfigView,
    pub oracle_result: Option<Seq<char>>,
    pub stakes: Seq<StakeView>,
    pub total_staked: i128,
    pub winning_outcome: Option<Seq<char>>,
    pub fee_collected: bool,
    pub state: MarketState,
    pub dispute_window_hours: u32,
    pub resolution: Option<ProposalView>,
}

/// The model of an optional string.
pub open spec fn opt_view(s: Option<String>) -> Option<Seq<char>> {
    match s {
        Some(x) => Some(x@),
        None => None,
    }
}

/// The model of an optional proposal.
pub open spec fn proposal_view(p: Option<ResolutionProposal>) -> Option<ProposalView> {
    match p {
        Some(x) => Some(x@),
        None => None,
    }
}

impl View for Market {
    type V = MarketView;

    open spec fn view(&self) -> MarketView {
        MarketView {
            admin: self.admin,
            question: self.question@,
            outcomes: self.outcomes@.map_values(|s: String| s@),
            end_time: self.end_time,
            oracle_config: self.oracle_config@,
            oracle_result: opt_view(self.oracle_result),
            stakes: self.stakes@.map_values(|e: StakeEntry| e@),
            total_staked: self.total_staked,
            winning_outcome: opt_view(self.winning_outcome),
            fee_collected: self.fee_collected,
            state: self.state,
            dispute_window_hours: self.dispute_window_hours,
            resolution: proposal_view(self.resolution),
        }
    }
}

/// Sum of all amounts in a list of stakes.
pub open spec fn sum_amounts(s: Seq<StakeView>) -> int
    decreases s.len(),
{
    if s.len() == 0 {
        0
    } else {
        sum_amounts(s.drop_last()) + s.last().amount
    }
}

/// Sum of the amounts staked on outcome `o`.
pub open spec fn outcome_total(s: Seq<StakeView>, o: Seq<char>) -> int
    decreases s.len(),
{
    if s.len() == 0 {
        0
    } else {
        outcome_total(s.drop_last(), o) + if s.last().outcome == o {
            s.last().amount as int
        } else {
            0
        }
    }
}

/// Whether `p` holds an entry in `s`.
pub open spec fn has_participant(s: Seq<StakeView>, p: Address) -> bool {
    exists|i: int| 0 <= i < s.len() && s[i].participant == p
}

/// Whether `o` is one of the labels in `outcomes`.
pub open spec fn has_outcome(outcomes: Seq<Seq<char>>, o: Seq<char>) -> bool {
    exists|k: int| 0 <= k < outcomes.len() && outcomes[k] == o
}

impl MarketView {
    /// The market's invariant: positive amounts, one entry per participant,
    /// a total that is the sum of the entries and stays within
    /// [`MAX_TOTAL_STAKE`], a participant count that fits in `u32`, and a
    /// per-market window of at most a week.
    pub open spec fn wf(&self) -> bool {
        &&& forall|i: int| 0 <= i < self.stakes.len() ==> #[trigger] self.stakes[i].amount > 0
        &&& forall|i: int, j: int|
            0 <= i < self.stakes.len() && 0 <= j < self.stakes.len() && i != j
                ==> #[trigger] self.stakes[i].participant != #[trigger] self.stakes[j].participant
        &&& sum_amounts(self.stakes) == self.total_staked as int
        &&& self.total_staked <= MAX_TOTAL_STAKE
        &&& self.stakes.len() <= u32::MAX
        &&& self.dispute_window_hours <= 168
    }

    /// The index of `p`'s entry (meaningful when `has_participant` holds).
    pub open spec fn entry_index(&self, p: Address) -> int {
        choose|i: int| 0 <= i < self.stakes.len() && self.stakes[i].participant == p
    }

    /// Whether a resolution was proposed and is not yet final.
    pub open spec fn is_pending(&self) -> bool {
        self.resolution is Some && !self.resolution->Some_0.finalized
    }

    /// Whether disputes may be filed at `now`: a proposal exists, it is not
    /// final, and `now` is before the window's end (exclusive).
    pub open spec fn window_open(&self, now: u64) -> bool {
        self.is_pending() && now < self.resolution->Some_0.window_end_time
    }

    /// Whether the resolution is final.
    pub open spec fn is_finalized(&self) -> bool {
        self.resolution is Some && self.resolution->Some_0.finalized
    }
}

/// An amount never exceeds the sum it belongs to.
pub proof fn lemma_entry_le_sum(s: Seq<StakeView>, i: int)
    requires
        0 <= i < s.len(),
        forall|k: int| 0 <= k < s.len() ==> #[trigger] s[k].amount > 0,
    ensures
        s[i].amount <= sum_amounts(s),
    decreases s.len(),
{
    lemma_sum_nonneg(s.drop_last());
    if i < s.len() - 1 {
        lemma_entry_le_sum(s.drop_last(), i);
    }
}

/// A sum of positive amounts is not negative.
pub proof fn lemma_sum_nonneg(s: Seq<StakeView>)
    requires
        forall|k: int| 0 <= k < s.len() ==> #[trigger] s[k].amount > 0,
    ensures
        sum_amounts(s) >= 0,
    decreases s.len(),
{
    if s.len() > 0 {
        lemma_sum_nonneg(s.drop_last());
    }
}

/// The amounts on one outcome make up part of the whole sum.
pub proof fn lemma_outcome_total_bounds(s: Seq<StakeView>, o: Seq<char>)
    requires
        forall|k: int| 0 <= k < s.len() ==> #[trigger] s[k].amount > 0,
    ensures
        0 <= outcome_total(s, o) <= sum_amounts(s),
    decreases s.len(),
{
    if s.len() > 0 {
        lemma_outcome_total_bounds(s.drop_last(), o);
    }
}

/// A prefix sums to no more than the whole.
pub proof fn lemma_prefix_sum_le(s: Seq<StakeView>, n: int)
    requires
        0 <= n <= s.len(),
        forall|k: int| 0 <= k < s.len() ==> #[trigger] s[k].amount > 0,
    ensures
        sum_amounts(s.subrange(0, n)) <= sum_amounts(s),
    decreases s.len(),
{
    if n < s.len() {
        lemma_prefix_sum_le(s.drop_last(), n);
        assert(s.drop_last().subrange(0, n) =~= s.subrange(0, n));
    } else {
        assert(s.subrange(0, n) =~= s);
    }
}

/// Replacing an entry by one with the same amount and outcome keeps both sums.
pub proof fn lemma_sums_update(s: Seq<StakeView>, i: int, e: StakeView, o: Seq<char>)
    requires
        0 <= i < s.len(),
        e.amount == s[i].amount,
        e.outcome == s[i].outcome,
    ensures
        sum_amounts(s.update(i, e)) == sum_amounts(s),
        outcome_total(s.update(i, e), o) == outcome_total(s, o),
    decreases s.len(),
{
    let t = s.update(i, e);
    if i < s.len() - 1 {
        lemma_sums_update(s.drop_last(), i, e, o);
        assert(t.drop_last() =~= s.drop_last().update(i, e));
    } else {
        assert(t.drop_last() =~= s.drop_last());
    }
}

/// Appending an entry adds its amount to both sums.
pub proof fn lemma_sums_push(s: Seq<StakeView>, e: StakeView, o: Seq<char>)
    ensures
        sum_amounts(s.push(e)) == sum_amounts(s) + e.amount,
        outcome_total(s.push(e), o) == outcome_total(s, o) + if e.outcome == o {
            e.amount as int
        } else {
            0
        },
{
    assert(s.push(e).drop_last() =~= s);
}

impl Market {
    /// A market with no stakes, no proposal and no winner.
    pub fn new(
        admin: Address,
        question: String,
        outcomes: Vec<String>,
        end_time: u64,
        oracle_config: OracleConfig,
        state: MarketState,
    ) -> (r: Self)
        ensures
            r@.admin == admin,
            r@.question == question@,
            r@.outcomes == outcomes@.map_values(|s: String| s@),
            r@.end_time == end_time,
            r@.oracle_config == oracle_config@,
            r@.oracle_result is None,
            r@.stakes.len() == 0,
            r@.total_staked == 0,
            r@.winning_outcome is None,
            !r@.fee_collected,
            r@.state == state,
            r@.dispute_window_hours == 0,
            r@.resolution is None,
            r@.wf(),
    {
        let r = Market {
            admin,
            question,
            outcomes,
            end_time,
            oracle_config,
            oracle_result: None,
            stakes: Vec::new(),
            total_staked: 0,
            winning_outcome: None,
            fee_collected: false,
            state,
            dispute_window_hours: 0,
            resolution: None,
        };
        assert(r@.stakes =~= Seq::<StakeView>::empty());
        r
    }

    /// Whether staking is still open at `current_time`.
    pub fn is_active(&self, current_time: u64) -> (r: bool)
        ensures
            r == (current_time < self.end_time),
    {
        current_time < self.end_time
    }

    /// Whether the market has ended at `current_time` (inclusive).
    pub fn has_ended(&self, current_time: u64) -> (r: bool)
        ensures
            r == (current_time >= self.end_time),
    {
        current_time >= self.end_time
    }

    /// Whether a winning outcome is set.
    pub fn is_resolved(&self) -> (r: bool)
        ensures
            r == (self.winning_outcome is Some),
    {
        self.winning_outcome.is_some()
    }

    /// Whether a resolution was ever proposed (or forced).
    pub fn is_resolution_proposed(&self) -> (r: bool)
        ensures
            r == (self.resolution is Some),
    {
        self.resolution.is_some()
    }

    /// Whether the resolution is final.
    pub fn is_resolution_finalized(&self) -> (r: bool)
        ensures
            r == self@.is_finalized(),
    {
        match &self.resolution {
            Some(p) => p.finalized,
            None => false,
        }
    }

    /// Whether disputes may be filed at `current_time`.
    pub fn is_dispute_window_open(&self, current_time: u64) -> (r: bool)
        ensures
            r == self@.window_open(current_time),
    {
        match &self.resolution {
            Some(p) => !p.finalized && current_time < p.window_end_time,
            None => false,
        }
    }

    /// Check the market's shape: a question, at least two outcomes, a valid
    /// oracle configuration and an end time after `current_time`.
    pub fn validate(&self, current_time: u64) -> (r: Result<(), Error>)
        ensures
            r == (if self.question@.len() == 0 {
                Err(Error::InvalidQuestion)
            } else if self.outcomes@.len() < 2 {
                Err(Error::InvalidOutcomes)
            } else if spec_oracle_config_check(
                self.oracle_config.provider,
                self.oracle_config.threshold,
                self.oracle_config.comparison@,
            ) is Err {
                spec_oracle_config_check(
                    self.oracle_config.provider,
                    self.oracle_config.threshold,
                    self.oracle_config.comparison@,
                )
            } else if self.end_time <= current_time {
                Err(Error::InvalidDuration)
            } else {
                Ok(())
            }),
    {
        if self.question.as_str().is_empty() {
            return Err(Error::InvalidQuestion);
        }
        if self.outcomes.len() < 2 {
            return Err(Error::InvalidOutcomes);
        }
        let checked = self.oracle_config.validate();
        if checked.is_err() {
            return checked;
        }
        if self.end_time <= current_time {
            return Err(Error::InvalidDuration);
        }
        Ok(())
    }

    /// The index of `participant`'s stake entry, if any.
    pub fn find_participant(&self, participant: Address) -> (r: Option<usize>)
        ensures
            r matches Some(i) ==> i < self.stakes.len() && self.stakes@[i as int].participant
                == participant,
            r is None ==> !has_participant(self@.stakes, participant),
    {
        let mut i: usize = 0;
        while i < self.stakes.len()
            invariant
                i <= self.stakes.len(),
                forall|k: int| 0 <= k < i ==> self.stakes@[k].participant != participant,
            decreases self.stakes.len() - i,
        {
            if self.stakes[i].participant == participant {
                return Some(i);
            }
            i = i + 1;
        }
        proof {
            assert forall|k: int| 0 <= k < self@.stakes.len() implies #[trigger] self@.stakes[k].participant
                != participant by {
                assert(self@.stakes[k] == self.stakes@[k]@);
            }
        }
        None
    }

    /// Whether `outcome` is one of the market's labels.
    pub fn has_outcome(&self, outcome: &String) -> (r: bool)
        ensures
            r == has_outcome(self@.outcomes, outcome@),
    {
        let mut i: usize = 0;
        while i < self.outcomes.len()
            invariant
                i <= self.outcomes.len(),
                forall|k: int| 0 <= k < i ==> self.outcomes@[k]@ != outcome@,
            decreases self.outcomes.len() - i,
        {
            if self.outcomes[i] == *outcome {
                assert(self@.outcomes[i as int] == outcome@);
                return true;
            }
            i = i + 1;
        }
        proof {
            assert forall|k: int| 0 <= k < self@.outcomes.len() implies #[trigger] self@.outcomes[k]
                != outcome@ by {
                assert(self@.outcomes[k] == self.outcomes@[k]@);
            }
        }
        false
    }

    /// Sum of the stakes on `outcome`, by a scan over all entries.
    pub fn winning_total(&self, outcome: &String) -> (r: i128)
        requires
            self@.wf(),
        ensures
            r == outcome_total(self@.stakes, outcome@),
    {
        let ghost s = self@.stakes;
        let mut total: i128 = 0;
        let mut i: usize = 0;
        proof {
            assert(s.subrange(0, 0) =~= Seq::<StakeView>::empty());
        }
        while i < self.stakes.len()
            invariant
                i <= self.stakes.len(),
                s == self@.stakes,
                self@.wf(),
                total == outcome_total(s.subrange(0, i as int), outcome@),
            decreases self.stakes.len() - i,
        {
            let ghost t = s.subrange(0, i as int + 1);
            proof {
                assert(t.drop_last() =~= s.subrange(0, i as int));
                assert(t.last() == s[i as int]);
                assert(s[i as int] == self.stakes@[i as int]@);
                assert forall|k: int| 0 <= k < t.len() implies #[trigger] t[k].amount > 0 by {
                    assert(t[k] == s[k]);
                }
                lemma_outcome_total_bounds(t, outcome@);
                lemma_prefix_sum_le(s, i as int + 1);
            }
            if self.stakes[i].outcome == *outcome {
                total = total + self.stakes[i].amount;
            }
            i = i + 1;
        }
        proof {
            assert(s.subrange(0, i as int) =~= s);
        }
        total
    }
}

} // verus!
