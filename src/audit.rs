//! Categories and priorities of audit checklist items.

use vstd::prelude::*;

verus! {

/// Area an audit item belongs to.
#[derive(Clone, Copy, Debug, PartialEq, Eq, Structural)]
pub enum AuditCategory {
    /// Security audit category
    Security,
    /// Code review category
    CodeReview,
    /// Testing audit category
    Testing,
    /// Documentation audit category
    Documentation,
    /// Deployment audit category
    Deployment,
}

/// Priority of an audit item.
#[derive(Clone, Copy, Debug, PartialEq, Eq, Structural)]
pub enum AuditPriority {
    /// Must be completed before mainnet deployment
    Critical,
    /// Should be completed before mainnet deployment
    High,
    /// Recommended to be completed
    Medium,
    /// Nice to have
    Low,
}

} // verus!
