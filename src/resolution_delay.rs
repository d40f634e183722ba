//! The resolution lifecycle: a proposed outcome opens a dispute window of
//! configurable length; once the window has closed with no escalated dispute
//! the outcome becomes final. An administrator may force an outcome.

use vstd::prelude::*;

use crate::errors::Error;
use crate::market::{MarketView, ProposalView, ResolutionProposal};
use crate::types::MarketState;
use crate::{Address, LedgerView, PredictifyHybrid};

verus! {

/// Default dispute window, in hours.
pub const DEFAULT_DISPUTE_WINDOW_HOURS: u32 = 48;

/// Shortest dispute window, in hours.
pub const MIN_DISPUTE_WINDOW_HOURS: u32 = 1;

/// Longest dispute window, in hours (one week).
pub const MAX_DISPUTE_WINDOW_HOURS: u32 = 168;

/// Minimum stake for filing a dispute, in the token's smallest unit.
pub const DEFAULT_MIN_DISPUTE_STAKE: i128 = 10_000_000;

/// Seconds in an hour.
pub const SECONDS_PER_HOUR: u64 = 3_600;

/// A dispute-window configuration.
#[derive(Clone, Copy, Debug, PartialEq, Eq, Structural)]
pub struct ResolutionDelayConfig {
    /// Length of the dispute window, in hours
    pub dispute_window_hours: u32,
    /// Minimum stake for filing a dispute
    pub min_dispute_stake: i128,
    /// Whether resolutions finalize automatically
    pub auto_finalize_enabled: bool,
}

/// Whether `hours` is an accepted window length.
pub open spec fn valid_window_hours(hours: u32) -> bool {
    1 <= hours <= 168
}

impl ResolutionDelayConfig {
    /// The configuration for a window of `hours`, with the default dispute
    /// stake and automatic finalization.
    pub open spec fn spec_with_hours(hours: u32) -> ResolutionDelayConfig {
        ResolutionDelayConfig {
            dispute_window_hours: hours,
            min_dispute_stake: 10_000_000,
            auto_finalize_enabled: true,
        }
    }

    /// The configuration in force before any is set: a 48-hour window.
    pub open spec fn spec_default() -> ResolutionDelayConfig {
        Self::spec_with_hours(48)
    }

    /// The configuration for a window of `hours`.
    pub fn with_hours(hours: u32) -> (r: Self)
        ensures
            r == Self::spec_with_hours(hours),
    {
        ResolutionDelayConfig {
            dispute_window_hours: hours,
            min_dispute_stake: DEFAULT_MIN_DISPUTE_STAKE,
            auto_finalize_enabled: true,
        }
    }

    /// The default configuration: a 48-hour window.
    pub fn default_config() -> (r: Self)
        ensures
            r == Self::spec_default(),
    {
        Self::with_hours(DEFAULT_DISPUTE_WINDOW_HOURS)
    }

    /// Accept a window of 1 to 168 hours.
    pub fn validate(&self) -> (r: Result<(), Error>)
        ensures
            r == (if valid_window_hours(self.dispute_window_hours) {
                Ok(())
            } else {
                Err(Error::InvalidTimeoutHours)
            }),
    {
        if self.dispute_window_hours < MIN_DISPUTE_WINDOW_HOURS
            || self.dispute_window_hours > MAX_DISPUTE_WINDOW_HOURS {
            return Err(Error::InvalidTimeoutHours);
        }
        Ok(())
    }
}

/// Operations of the resolution lifecycle, on a ledger passed explicitly.
pub struct ResolutionDelayManager;

/// The model of a result that carries a string.
pub open spec fn result_view(r: Result<String, Error>) -> Result<Seq<char>, Error> {
    match r {
        Ok(s) => Ok(s@),
        Err(e) => Err(e),
    }
}

/// The window configuration in force for market `id`: its own length when
/// set (non-zero), the global configuration otherwise.
pub open spec fn spec_window_config(l: LedgerView, id: u32) -> ResolutionDelayConfig {
    if l.has_market(id) && l.markets[id as int].dispute_window_hours > 0 {
        ResolutionDelayConfig::spec_with_hours(l.markets[id as int].dispute_window_hours)
    } else {
        l.global_config
    }
}

/// Result and next ledger of `set_global_dispute_window`.
pub open spec fn spec_set_global_window(l: LedgerView, admin: Address, hours: u32) -> (
    Result<(), Error>,
    LedgerView,
) {
    if !l.is_admin(admin) {
        (Err(Error::Unauthorized), l)
    } else if !valid_window_hours(hours) {
        (Err(Error::InvalidTimeoutHours), l)
    } else {
        (Ok(()), LedgerView { global_config: ResolutionDelayConfig::spec_with_hours(hours), ..l })
    }
}

/// Result and next ledger of `set_market_dispute_window`; 0 hours means the
/// market follows the global configuration.
pub open spec fn spec_set_market_window(l: LedgerView, admin: Address, id: u32, hours: u32) -> (
    Result<(), Error>,
    LedgerView,
) {
    if !l.is_admin(admin) {
        (Err(Error::Unauthorized), l)
    } else if hours != 0 && !valid_window_hours(hours) {
        (Err(Error::InvalidTimeoutHours), l)
    } else if !l.has_market(id) {
        (Err(Error::MarketNotFound), l)
    } else {
        (
            Ok(()),
            l.with_market(id, MarketView { dispute_window_hours: hours, ..l.markets[id as int] }),
        )
    }
}

/// Result and next ledger of `propose_resolution` at time `now`: the window
/// closes `hours * 3600` seconds after the proposal, with `hours` the length
/// in force for the market.
pub open spec fn spec_propose(
    l: LedgerView,
    id: u32,
    outcome: Seq<char>,
    source: Seq<char>,
    now: u64,
) -> (Result<(), Error>, LedgerView) {
    let m = l.markets[id as int];
    let hours = spec_window_config(l, id).dispute_window_hours;
    if !l.has_market(id) {
        (Err(Error::MarketNotFound), l)
    } else if now < m.end_time {
        (Err(Error::MarketClosed), l)
    } else if m.is_finalized() {
        (Err(Error::MarketAlreadyResolved), l)
    } else {
        let p = ProposalView {
            outcome,
            proposed_at: now,
            window_end_time: (now + hours * 3600) as u64,
            finalized: false,
            dispute_count: 0,
            source,
            overridden: false,
        };
        (Ok(()), l.with_market(id, MarketView { oracle_result: Some(outcome), resolution: Some(p), ..m }))
    }
}

/// Result and next ledger of `finalize_resolution` at time `now`.
pub open spec fn spec_finalize(l: LedgerView, id: u32, now: u64) -> (
    Result<Seq<char>, Error>,
    LedgerView,
) {
    let m = l.markets[id as int];
    let p = m.resolution->Some_0;
    if !l.has_market(id) {
        (Err(Error::MarketNotFound), l)
    } else if m.resolution is None {
        (Err(Error::MarketNotResolved), l)
    } else if p.finalized {
        (Err(Error::MarketAlreadyResolved), l)
    } else if m.window_open(now) {
        (Err(Error::DisputeTimeoutNotExpired), l)
    } else if m.state == MarketState::Disputed {
        (Err(Error::DisputeResolutionConditionsNotMet), l)
    } else {
        (
            Ok(p.outcome),
            l.with_market(
                id,
                MarketView {
                    resolution: Some(ProposalView { finalized: true, ..p }),
                    winning_outcome: Some(p.outcome),
                    state: MarketState::Resolved,
                    ..m
                },
            ),
        )
    }
}

/// Result and next ledger of `record_dispute` at time `now`.
pub open spec fn spec_record_dispute(l: LedgerView, id: u32, now: u64) -> (
    Result<(), Error>,
    LedgerView,
) {
    let m = l.markets[id as int];
    let p = m.resolution->Some_0;
    if !l.has_market(id) {
        (Err(Error::MarketNotFound), l)
    } else if m.resolution is None {
        (Err(Error::MarketNotResolved), l)
    } else if !m.window_open(now) {
        (Err(Error::DisputeVotingNotAllowed), l)
    } else if p.dispute_count == u32::MAX {
        (Err(Error::InvalidState), l)
    } else {
        (
            Ok(()),
            l.with_market(
                id,
                MarketView {
                    resolution: Some(ProposalView { dispute_count: (p.dispute_count + 1) as u32, ..p }),
                    ..m
                },
            ),
        )
    }
}

/// Result and next ledger of `force_finalize` at time `now`. Without a
/// proposal, a zero-length one from "AdminOverride" is set up first; either
/// way the resolution is final, marked overridden, and `outcome` wins.
pub open spec fn spec_force_finalize(
    l: LedgerView,
    admin: Address,
    id: u32,
    outcome: Seq<char>,
    now: u64,
) -> (Result<(), Error>, LedgerView) {
    let m = l.markets[id as int];
    let p = match m.resolution {
        Some(p) => ProposalView { finalized: true, overridden: true, ..p },
        None => ProposalView {
            outcome,
            proposed_at: now,
            window_end_time: now,
            finalized: true,
            dispute_count: 0,
            source: "AdminOverride"@,
            overridden: true,
        },
    };
    if !l.is_admin(admin) {
        (Err(Error::Unauthorized), l)
    } else if !l.has_market(id) {
        (Err(Error::MarketNotFound), l)
    } else {
        (
            Ok(()),
            l.with_market(
                id,
                MarketView {
                    resolution: Some(p),
                    winning_outcome: Some(outcome),
                    state: MarketState::Resolved,
                    ..m
                },
            ),
        )
    }
}

/// Seconds left in market `id`'s window at `now`; 0 once it has closed or
/// when nothing was proposed.
pub open spec fn spec_remaining(l: LedgerView, id: u32, now: u64) -> u64 {
    let m = l.markets[id as int];
    if l.has_market(id) && m.resolution is Some && now < m.resolution->Some_0.window_end_time {
        (m.resolution->Some_0.window_end_time - now) as u64
    } else {
        0
    }
}

/// Whether market `id`'s dispute window is open at `now`.
pub open spec fn spec_window_open(l: LedgerView, id: u32, now: u64) -> bool {
    l.has_market(id) && l.markets[id as int].window_open(now)
}

/// Result of `validate_dispute_allowed` at time `now`.
pub open spec fn spec_dispute_allowed(l: LedgerView, id: u32, now: u64) -> Result<(), Error> {
    let m = l.markets[id as int];
    if !l.has_market(id) {
        Err(Error::MarketNotFound)
    } else if m.resolution is None {
        Err(Error::MarketNotResolved)
    } else if m.resolution->Some_0.finalized {
        Err(Error::MarketAlreadyResolved)
    } else if !m.window_open(now) {
        Err(Error::DisputeVotingNotAllowed)
    } else {
        Ok(())
    }
}

impl ResolutionDelayManager {
    /// Set the global window to `hours` (1 to 168). Administrator only.
    pub fn set_global_dispute_window(env: &mut PredictifyHybrid, admin: Address, hours: u32) -> (r:
        Result<(), Error>)
        requires
            old(env).wf(),
        ensures
            final(env).wf(),
            (r, final(env)@) == spec_set_global_window(old(env)@, admin, hours),
    {
        if env.validate_admin(admin).is_err() {
            return Err(Error::Unauthorized);
        }
        if hours < MIN_DISPUTE_WINDOW_HOURS || hours > MAX_DISPUTE_WINDOW_HOURS {
            return Err(Error::InvalidTimeoutHours);
        }
        env.global_config = ResolutionDelayConfig::with_hours(hours);
        Ok(())
    }

    /// Set market `market_id`'s own window to `hours` (1 to 168), or to 0 so
    /// that it follows the global window. Administrator only.
    pub fn set_market_dispute_window(
        env: &mut PredictifyHybrid,
        admin: Address,
        market_id: u32,
        hours: u32,
    ) -> (r: Result<(), Error>)
        requires
            old(env).wf(),
        ensures
            final(env).wf(),
            (r, final(env)@) == spec_set_market_window(old(env)@, admin, market_id, hours),
    {
        if env.validate_admin(admin).is_err() {
            return Err(Error::Unauthorized);
        }
        if hours != 0 && (hours < MIN_DISPUTE_WINDOW_HOURS || hours > MAX_DISPUTE_WINDOW_HOURS) {
            return Err(Error::InvalidTimeoutHours);
        }
        if market_id as usize >= env.markets.len() {
            return Err(Error::MarketNotFound);
        }
        let idx = market_id as usize;
        let ghost mv = env@.markets[idx as int];
        proof {
            assert(mv == env.markets@[idx as int]@);
        }
        env.markets[idx].dispute_window_hours = hours;
        proof {
            let new_mv = MarketView { dispute_window_hours: hours, ..mv };
            assert(env.markets@[idx as int]@ == new_mv);
            assert(env@.markets =~= old(env)@.markets.update(idx as int, new_mv));
            assert(old(env)@.markets[idx as int].wf());
            old(env)@.lemma_with_market_wf(market_id, new_mv);
        }
        Ok(())
    }

    /// The window configuration in force for market `market_id`.
    pub fn get_dispute_window_config(env: &PredictifyHybrid, market_id: u32) -> (r:
        ResolutionDelayConfig)
        ensures
            r == spec_window_config(env@, market_id),
    {
        if (market_id as usize) < env.markets.len() {
            let idx = market_id as usize;
            proof {
                assert(env@.markets[idx as int] == env.markets@[idx as int]@);
            }
            if env.markets[idx].dispute_window_hours > 0 {
                return ResolutionDelayConfig::with_hours(env.markets[idx].dispute_window_hours);
            }
        }
        Self::get_global_config(env)
    }

    /// The global window configuration.
    pub fn get_global_config(env: &PredictifyHybrid) -> (r: ResolutionDelayConfig)
        ensures
            r == env@.global_config,
    {
        env.global_config
    }

    /// Propose `outcome` for market `market_id` at time `now`, opening its
    /// dispute window. The market must have ended (`now >= end_time`) and
    /// must not be final.
    /// `now` must leave room for the longest window (one week) before the
    /// end of the `u64` timestamp range.
    pub fn propose_resolution(
        env: &mut PredictifyHybrid,
        market_id: u32,
        outcome: String,
        resolution_source: String,
        now: u64,
    ) -> (r: Result<(), Error>)
        requires
            old(env).wf(),
            now <= u64::MAX - 604_800,
        ensures
            final(env).wf(),
            (r, final(env)@) == spec_propose(
                old(env)@,
                market_id,
                outcome@,
                resolution_source@,
                now,
            ),
    {
        if market_id as usize >= env.markets.len() {
            return Err(Error::MarketNotFound);
        }
        let idx = market_id as usize;
        let ghost mv = env@.markets[idx as int];
        proof {
            assert(mv == env.markets@[idx as int]@);
            assert(mv.wf());
        }
        if now < env.markets[idx].end_time {
            return Err(Error::MarketClosed);
        }
        if env.markets[idx].is_resolution_finalized() {
            return Err(Error::MarketAlreadyResolved);
        }
        let config = Self::get_dispute_window_config(env, market_id);
        let window_seconds: u64 = config.dispute_window_hours as u64 * SECONDS_PER_HOUR;
        let window_end_time = now + window_seconds;
        let ghost o = outcome@;
        let ghost src = resolution_source@;
        let proposal = ResolutionProposal {
            outcome: outcome.clone(),
            proposed_at: now,
            window_end_time,
            finalized: false,
            dispute_count: 0,
            source: resolution_source,
            overridden: false,
        };
        let m = &mut env.markets[idx];
        m.oracle_result = Some(outcome);
        m.resolution = Some(proposal);
        proof {
            let p = ProposalView {
                outcome: o,
                proposed_at: now,
                window_end_time,
                finalized: false,
                dispute_count: 0,
                source: src,
                overridden: false,
            };
            let new_mv = MarketView { oracle_result: Some(o), resolution: Some(p), ..mv };
            assert(env.markets@[idx as int]@ == new_mv);
            assert(env@.markets =~= old(env)@.markets.update(idx as int, new_mv));
            old(env)@.lemma_with_market_wf(market_id, new_mv);
        }
        Ok(())
    }

    /// Whether disputes may be filed on market `market_id` at `now`.
    pub fn is_dispute_window_open(env: &PredictifyHybrid, market_id: u32, now: u64) -> (r: bool)
        ensures
            r == spec_window_open(env@, market_id, now),
    {
        match env.get_market(market_id) {
            Some(m) => m.is_dispute_window_open(now),
            None => false,
        }
    }

    /// Seconds left in market `market_id`'s window at `now`.
    pub fn get_window_remaining_time(env: &PredictifyHybrid, market_id: u32, now: u64) -> (r: u64)
        ensures
            r == spec_remaining(env@, market_id, now),
    {
        if let Some(m) = env.get_market(market_id) {
            if let Some(p) = &m.resolution {
                if now < p.window_end_time {
                    return p.window_end_time - now;
                }
            }
        }
        0
    }

    /// Whether the window is open, the seconds left and the disputes
    /// recorded, for market `market_id` at `now`; all empty when nothing was
    /// proposed.
    pub fn get_dispute_window_status(env: &PredictifyHybrid, market_id: u32, now: u64) -> (r: (
        bool,
        u64,
        u32,
    ))
        ensures
            r == (if env@.has_market(market_id) && env@.markets[market_id as int].resolution is Some {
                (
                    spec_window_open(env@, market_id, now),
                    spec_remaining(env@, market_id, now),
                    env@.markets[market_id as int].resolution->Some_0.dispute_count,
                )
            } else {
                (false, 0u64, 0u32)
            }),
    {
        if let Some(m) = env.get_market(market_id) {
            if let Some(p) = &m.resolution {
                let is_open = m.is_dispute_window_open(now);
                let remaining = Self::get_window_remaining_time(env, market_id, now);
                return (is_open, remaining, p.dispute_count);
            }
        }
        (false, 0, 0)
    }

    /// Make the proposed outcome of market `market_id` final at `now`. The
    /// window must have closed and no dispute may be escalated. Returns the
    /// winning outcome.
    pub fn finalize_resolution(env: &mut PredictifyHybrid, market_id: u32, now: u64) -> (r: Result<
        String,
        Error,
    >)
        requires
            old(env).wf(),
        ensures
            final(env).wf(),
            (result_view(r), final(env)@) == spec_finalize(old(env)@, market_id, now),
    {
        if market_id as usize >= env.markets.len() {
            return Err(Error::MarketNotFound);
        }
        let idx = market_id as usize;
        let ghost mv = env@.markets[idx as int];
        proof {
            assert(mv == env.markets@[idx as int]@);
            assert(mv.wf());
        }
        let outcome = match &env.markets[idx].resolution {
            None => {
                return Err(Error::MarketNotResolved);
            },
            Some(p) => {
                if p.finalized {
                    return Err(Error::MarketAlreadyResolved);
                }
                p.outcome.clone()
            },
        };
        if env.markets[idx].is_dispute_window_open(now) {
            return Err(Error::DisputeTimeoutNotExpired);
        }
        if Self::has_unresolved_disputes(env, market_id) {
            return Err(Error::DisputeResolutionConditionsNotMet);
        }
        let winning = outcome.clone();
        let m = &mut env.markets[idx];
        if let Some(p) = &mut m.resolution {
            p.finalized = true;
        }
        m.winning_outcome = Some(winning);
        m.state = MarketState::Resolved;
        proof {
            let p = mv.resolution->Some_0;
            let new_mv = MarketView {
                resolution: Some(ProposalView { finalized: true, ..p }),
                winning_outcome: Some(p.outcome),
                state: MarketState::Resolved,
                ..mv
            };
            assert(env.markets@[idx as int]@ == new_mv);
            assert(env@.markets =~= old(env)@.markets.update(idx as int, new_mv));
            old(env)@.lemma_with_market_wf(market_id, new_mv);
        }
        Ok(outcome)
    }

    /// Whether market `market_id` could be finalized at `now`, with the
    /// reason.
    pub fn can_finalize(env: &PredictifyHybrid, market_id: u32, now: u64) -> (r: (bool, String))
        ensures
            r.0 == (spec_finalize(env@, market_id, now).0 is Ok),
            r.1@ == (if !env@.has_market(market_id) {
                "Market not found"@
            } else if env@.markets[market_id as int].resolution is None {
                "Resolution not proposed"@
            } else if env@.markets[market_id as int].resolution->Some_0.finalized {
                "Already finalized"@
            } else if env@.markets[market_id as int].window_open(now) {
                "Window still open"@
            } else if env@.markets[market_id as int].state == MarketState::Disputed {
                "Unresolved disputes"@
            } else {
                "Ready to finalize"@
            }),
    {
        let m = match env.get_market(market_id) {
            Some(m) => m,
            None => {
                return (false, "Market not found".to_owned());
            },
        };
        match &m.resolution {
            None => {
                return (false, "Resolution not proposed".to_owned());
            },
            Some(p) => {
                if p.finalized {
                    return (false, "Already finalized".to_owned());
                }
            },
        }
        if m.is_dispute_window_open(now) {
            return (false, "Window still open".to_owned());
        }
        if Self::has_unresolved_disputes(env, market_id) {
            return (false, "Unresolved disputes".to_owned());
        }
        (true, "Ready to finalize".to_owned())
    }

    /// Whether market `market_id`'s resolution is final.
    pub fn is_resolution_finalized(env: &PredictifyHybrid, market_id: u32) -> (r: bool)
        ensures
            r == (env@.has_market(market_id) && env@.markets[market_id as int].is_finalized()),
    {
        match env.get_market(market_id) {
            Some(m) => m.is_resolution_finalized(),
            None => false,
        }
    }

    /// Count a dispute filed on market `market_id` at `now`; only while its
    /// window is open.
    pub fn record_dispute(env: &mut PredictifyHybrid, market_id: u32, now: u64) -> (r: Result<
        (),
        Error,
    >)
        requires
            old(env).wf(),
        ensures
            final(env).wf(),
            (r, final(env)@) == spec_record_dispute(old(env)@, market_id, now),
    {
        if market_id as usize >= env.markets.len() {
            return Err(Error::MarketNotFound);
        }
        let idx = market_id as usize;
        let ghost mv = env@.markets[idx as int];
        proof {
            assert(mv == env.markets@[idx as int]@);
            assert(mv.wf());
        }
        if env.markets[idx].resolution.is_none() {
            return Err(Error::MarketNotResolved);
        }
        if !env.markets[idx].is_dispute_window_open(now) {
            return Err(Error::DisputeVotingNotAllowed);
        }
        if let Some(p) = &env.markets[idx].resolution {
            if p.dispute_count == u32::MAX {
                return Err(Error::InvalidState);
            }
        }
        let m = &mut env.markets[idx];
        if let Some(p) = &mut m.resolution {
            p.dispute_count = p.dispute_count + 1;
        }
        proof {
            let p = mv.resolution->Some_0;
            let new_mv = MarketView {
                resolution: Some(ProposalView { dispute_count: (p.dispute_count + 1) as u32, ..p }),
                ..mv
            };
            assert(env.markets@[idx as int]@ == new_mv);
            assert(env@.markets =~= old(env)@.markets.update(idx as int, new_mv));
            old(env)@.lemma_with_market_wf(market_id, new_mv);
        }
        Ok(())
    }

    /// Whether market `market_id` has an escalated, unresolved dispute.
    pub fn has_unresolved_disputes(env: &PredictifyHybrid, market_id: u32) -> (r: bool)
        ensures
            r == (env@.has_market(market_id) && env@.markets[market_id as int].state
                == MarketState::Disputed),
    {
        match env.get_market(market_id) {
            Some(m) => m.state == MarketState::Disputed,
            None => false,
        }
    }

    /// Check that a dispute may be filed on market `market_id` at `now`.
    pub fn validate_dispute_allowed(env: &PredictifyHybrid, market_id: u32, now: u64) -> (r:
        Result<(), Error>)
        ensures
            r == spec_dispute_allowed(env@, market_id, now),
    {
        let m = match env.get_market(market_id) {
            Some(m) => m,
            None => {
                return Err(Error::MarketNotFound);
            },
        };
        match &m.resolution {
            None => {
                return Err(Error::MarketNotResolved);
            },
            Some(p) => {
                if p.finalized {
                    return Err(Error::MarketAlreadyResolved);
                }
            },
        }
        if !m.is_dispute_window_open(now) {
            return Err(Error::DisputeVotingNotAllowed);
        }
        Ok(())
    }

    /// Make `outcome` final for market `market_id` at `now`, whatever the
    /// window or disputes. Administrator only.
    pub fn force_finalize(
        env: &mut PredictifyHybrid,
        admin: Address,
        market_id: u32,
        outcome: String,
        now: u64,
    ) -> (r: Result<(), Error>)
        requires
            old(env).wf(),
        ensures
            final(env).wf(),
            (r, final(env)@) == spec_force_finalize(old(env)@, admin, market_id, outcome@, now),
    {
        if env.validate_admin(admin).is_err() {
            return Err(Error::Unauthorized);
        }
        if market_id as usize >= env.markets.len() {
            return Err(Error::MarketNotFound);
        }
        let idx = market_id as usize;
        let ghost mv = env@.markets[idx as int];
        proof {
            assert(mv == env.markets@[idx as int]@);
            assert(mv.wf());
        }
        let ghost o = outcome@;
        let m = &mut env.markets[idx];
        match &mut m.resolution {
            Some(p) => {
                p.finalized = true;
                p.overridden = true;
            },
            None => {
                m.resolution = Some(
                    ResolutionProposal {
                        outcome: outcome.clone(),
                        proposed_at: now,
                        window_end_time: now,
                        finalized: true,
                        dispute_count: 0,
                        source: "AdminOverride".to_owned(),
                        overridden: true,
                    },
                );
            },
        }
        m.winning_outcome = Some(outcome);
        m.state = MarketState::Resolved;
        proof {
            let p = match mv.resolution {
                Some(p) => ProposalView { finalized: true, overridden: true, ..p },
                None => ProposalView {
                    outcome: o,
                    proposed_at: now,
                    window_end_time: now,
                    finalized: true,
                    dispute_count: 0,
                    source: "AdminOverride"@,
                    overridden: true,
                },
            };
            let new_mv = MarketView {
                resolution: Some(p),
                winning_outcome: Some(o),
                state: MarketState::Resolved,
                ..mv
            };
            assert(env.markets@[idx as int]@ == new_mv);
            assert(env@.markets =~= old(env)@.markets.update(idx as int, new_mv));
            old(env)@.lemma_with_market_wf(market_id, new_mv);
        }
        Ok(())
    }
}

/// A resolution can be proposed exactly from the market's end time on: before
/// it the proposal fails with `MarketClosed`; at it, on a market that exists
/// and is not final, the proposal succeeds.
pub proof fn lemma_propose_from_end_time(
    l: LedgerView,
    id: u32,
    outcome: Seq<char>,
    source: Seq<char>,
    now: u64,
)
    requires
        l.wf(),
        l.has_market(id),
        !l.markets[id as int].is_finalized(),
    ensures
        now < l.markets[id as int].end_time ==> spec_propose(l, id, outcome, source, now).0 == Err::<
            (),
            Error,
        >(Error::MarketClosed),
        spec_propose(l, id, outcome, source, l.markets[id as int].end_time).0 is Ok,
{
}

/// A proposal made at `now` with a window of `h` hours closes at
/// `now + h * 3600`: the window is open from `now` up to that instant and
/// closed at it (the end is exclusive).
pub proof fn lemma_window_after_proposal(
    l: LedgerView,
    id: u32,
    outcome: Seq<char>,
    source: Seq<char>,
    now: u64,
)
    requires
        l.wf(),
        now <= u64::MAX - 604_800,
        spec_propose(l, id, outcome, source, now).0 is Ok,
    ensures
        ({
            let next = spec_propose(l, id, outcome, source, now).1;
            let h = spec_window_config(l, id).dispute_window_hours;
            let close = next.markets[id as int].resolution->Some_0.window_end_time;
            &&& close == now + h * 3600
            &&& forall|t: u64| now <= t < close ==> #[trigger] spec_window_open(next, id, t)
            &&& !spec_window_open(next, id, close)
        }),
{
    let h = spec_window_config(l, id).dispute_window_hours;
    assert(l.markets[id as int].wf());
    assert(1 <= h <= 168);
    assert(h * 3600 <= 604_800) by (nonlinear_arith)
        requires
            h <= 168,
    ;
}

/// Finalization is gated by the window and by escalated disputes, and
/// happens once: on a pending proposal it fails with
/// `DisputeTimeoutNotExpired` strictly before the window's end, with
/// `DisputeResolutionConditionsNotMet` after it while a dispute is
/// escalated, and succeeds otherwise; a second finalization then fails with
/// `MarketAlreadyResolved`.
pub proof fn lemma_finalize_gates(l: LedgerView, id: u32, now: u64, later: u64)
    requires
        l.wf(),
        l.has_market(id),
        l.markets[id as int].is_pending(),
    ensures
        ({
            let m = l.markets[id as int];
            let close = m.resolution->Some_0.window_end_time;
            let first = spec_finalize(l, id, now);
            &&& now < close ==> first.0 == Err::<Seq<char>, Error>(Error::DisputeTimeoutNotExpired)
            &&& now >= close && m.state == MarketState::Disputed ==> first.0 == Err::<
                Seq<char>,
                Error,
            >(Error::DisputeResolutionConditionsNotMet)
            &&& now >= close && m.state != MarketState::Disputed ==> first.0 == Ok::<
                Seq<char>,
                Error,
            >(m.resolution->Some_0.outcome) && first.1.markets[id as int].is_finalized()
                && spec_finalize(first.1, id, later).0 == Err::<Seq<char>, Error>(
                Error::MarketAlreadyResolved,
            )
        }),
{
}

/// A market whose own window is set to 0 follows the global window: right
/// after the change its configuration is the global one, and after a later
/// change of the global window it is the new global one.
pub proof fn lemma_zero_window_follows_global(l: LedgerView, admin: Address, id: u32, hours: u32)
    requires
        l.wf(),
        spec_set_market_window(l, admin, id, 0).0 is Ok,
    ensures
        ({
            let next = spec_set_market_window(l, admin, id, 0).1;
            let after = spec_set_global_window(next, admin, hours);
            &&& spec_window_config(next, id) == next.global_config
            &&& after.0 is Ok ==> spec_window_config(after.1, id)
                == ResolutionDelayConfig::spec_with_hours(hours)
        }),
{
}

} // verus!
