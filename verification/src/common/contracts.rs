use vstd::prelude::*;

verus! {

/// A routing decision: which vendor and model serve a request, and which
/// plans to try, in order, when that fails.
#[derive(Debug)]
pub struct RoutePlan {
    pub vendor_id: String,
    pub model_id: String,
    pub fallback_plans: Vec<RoutePlan>,
}

impl RoutePlan {
    /// A plan without fallbacks.
    pub fn single(vendor_id: &str, model_id: &str) -> (plan: RoutePlan)
        ensures
            plan.vendor_id@ == vendor_id@,
            plan.model_id@ == model_id@,
            plan.fallback_plans@.len() == 0,
    {
        RoutePlan {
            vendor_id: vendor_id.to_string(),
            model_id: model_id.to_string(),
            fallback_plans: Vec::new(),
        }
    }
}

} // verus!
