//! The per-context slot that holds the report of the scan unit in progress.
use vstd::prelude::*;

use crate::report::BehaviorReport;

verus! {

/// Holds at most one report, owned by one execution context.
pub struct ReportCache {
    slot: Option<BehaviorReport>,
}

impl View for ReportCache {
    type V = Option<BehaviorReport>;

    closed spec fn view(&self) -> Option<BehaviorReport> {
        self.slot
    }
}

/// The slot after `report` is installed over `prior`: the prior value is gone.
pub open spec fn installed(prior: Option<BehaviorReport>, report: BehaviorReport) -> Option<BehaviorReport> {
    Some(report)
}

impl ReportCache {
    /// A slot before any scan unit was initialised.
    pub fn new() -> (r: ReportCache)
        ensures
            r@ is None,
    {
        ReportCache { slot: None }
    }
}

/// The report installed in `cache`, if any.
pub fn get_local(cache: &ReportCache) -> (r: Option<&BehaviorReport>)
    ensures
        r is None <==> cache@ is None,
        r matches Some(rep) ==> cache@ == Some(*rep),
{
    cache.slot.as_ref()
}

/// Replaces whatever `cache` held by `value`.
pub fn set_local(cache: &mut ReportCache, value: BehaviorReport)
    ensures
        final(cache)@ == installed(old(cache)@, value),
{
    cache.slot = Some(value);
}

} // verus!
