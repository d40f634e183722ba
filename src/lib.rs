//! A prediction-market ledger: participants stake on the outcome of a
//! question, a proposed resolution waits out a dispute window, and once the
//! outcome is final each winner can claim a fee-adjusted share of the pool.
//!
//! [`PredictifyHybrid`] holds the whole ledger state; time is supplied by the
//! caller as a Unix timestamp on every operation that depends on it.

pub mod audit;
pub mod config;
pub mod contract;
pub mod errors;
pub mod errors_simple;
pub mod events;
pub mod market;
pub mod resolution_delay;
pub mod settlement;
pub mod types;
pub mod upgrade;

pub use errors::Error;
pub use market::{Address, Market, StakeEntry};
pub use resolution_delay::{ResolutionDelayConfig, ResolutionDelayManager};
pub use types::{MarketState, OracleConfig, OracleProvider, OracleResult};

use vstd::prelude::*;

use market::MarketView;

verus! {

/// The ledger: the administrator, every market with its stakes and
/// resolution, and the global dispute-window configuration.
pub struct PredictifyHybrid {
    admin: Option<Address>,
    markets: Vec<Market>,
    global_config: ResolutionDelayConfig,
}

/// Model of the ledger.
pub struct LedgerView {
    pub admin: Option<Address>,
    pub markets: Seq<MarketView>,
    pub global_config: ResolutionDelayConfig,
}

impl LedgerView {
    /// The ledger's invariant: market identifiers fit in `u32`, every market
    /// keeps its own invariant, and the global window lies within
    /// 1 to 168 hours.
    pub open spec fn wf(&self) -> bool {
        &&& self.markets.len() <= u32::MAX
        &&& forall|i: int| 0 <= i < self.markets.len() ==> #[trigger] self.markets[i].wf()
        &&& 1 <= self.global_config.dispute_window_hours <= 168
    }

    /// Whether `id` names a market.
    pub open spec fn has_market(&self, id: u32) -> bool {
        (id as int) < self.markets.len()
    }

    /// Whether `caller` is the ledger's administrator.
    pub open spec fn is_admin(&self, caller: Address) -> bool {
        self.admin == Some(caller)
    }

    /// The same ledger with market `id` replaced by `m`.
    pub open spec fn with_market(self, id: u32, m: MarketView) -> LedgerView {
        LedgerView { markets: self.markets.update(id as int, m), ..self }
    }

    /// Replacing one market by a well-formed one keeps the ledger well formed.
    pub proof fn lemma_with_market_wf(self, id: u32, m: MarketView)
        requires
            self.wf(),
            self.has_market(id),
            m.wf(),
        ensures
            self.with_market(id, m).wf(),
    {
        let n = self.with_market(id, m);
        assert forall|k: int| 0 <= k < n.markets.len() implies #[trigger] n.markets[k].wf() by {
            if k != id as int {
                assert(n.markets[k] == self.markets[k]);
            }
        }
    }
}

impl View for PredictifyHybrid {
    type V = LedgerView;

    closed spec fn view(&self) -> LedgerView {
        LedgerView {
            admin: self.admin,
            markets: self.markets@.map_values(|m: Market| m@),
            global_config: self.global_config,
        }
    }
}

impl PredictifyHybrid {
    /// The invariant of the ledger's model.
    pub open spec fn wf(&self) -> bool {
        self@.wf()
    }
}

} // verus!
