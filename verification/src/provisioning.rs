//! The two-phase subscription-catalog saga.
//!
//! Provisioning a subscription catalog takes two sequential remote calls:
//! first the plan, then the monthly variation referencing the plan's
//! permanent id. A failure of the second call leaves the plan committed
//! with no variation; no compensating rollback exists, so that state is
//! surfaced explicitly as an operational outcome of its own rather than
//! left implicit.

use vstd::prelude::*;
use vstd::pervasive::unreached;
use crate::catalog::{
    CatalogRequest, CatalogResponse, SubscriptionCatalogBuilder, SubscriptionPlanResponse,
};
use crate::error::{SquareErrorResponse, SquareResponse};

verus! {

/// The state of one subscription-catalog provisioning run.
#[derive(Clone, Debug)]
pub enum CatalogProvisioning {
    /// The plan-create call is in flight.
    CreatingPlan { builder: SubscriptionCatalogBuilder },
    /// The plan exists remotely; the variation-create call is in flight.
    CreatingVariation { builder: SubscriptionCatalogBuilder, plan: CatalogResponse },
    /// Both objects exist and are linked.
    Complete { plan_id: String, variation: SubscriptionPlanResponse },
    /// The plan was created but the variation call failed: the plan is
    /// committed and orphaned, and a retry or manual repair is needed.
    PlanOrphaned { plan_id: String, error: SquareErrorResponse },
    /// The plan-create call itself failed; nothing was committed.
    PlanFailed { error: SquareErrorResponse },
}

fn clone_builder(b: &SubscriptionCatalogBuilder) -> (r: SubscriptionCatalogBuilder)
    ensures
        r == *b,
{
    SubscriptionCatalogBuilder { id: b.id.clone(), name: b.name.clone(), price: b.price }
}

impl CatalogProvisioning {
    /// Begins provisioning: the first call creates the plan object under
    /// the builder's client-supplied temporary id.
    pub fn start(builder: SubscriptionCatalogBuilder) -> (r: (CatalogProvisioning, CatalogRequest))
        ensures
            r.0 matches CatalogProvisioning::CreatingPlan { builder: b } && b == builder,
            r.1.object.type_@ == "SUBSCRIPTION_PLAN"@,
            r.1.object.id == builder.id,
            r.1.object.subscription_plan_data matches Some(d) && d.name == builder.name,
            r.1.idempotency_key@.len() == 36,
    {
        let request = CatalogRequest::new_subscription_catalog(clone_builder(&builder));
        (CatalogProvisioning::CreatingPlan { builder }, request)
    }

    /// Consumes the plan-create outcome. On success the saga yields the
    /// second request: a monthly variation whose `subscription_plan_id`
    /// is exactly the permanent id the platform just assigned.
    pub fn on_plan_result(self, result: SquareResponse<CatalogResponse>) -> (r: (
        CatalogProvisioning,
        Option<CatalogRequest>,
    ))
        requires
            self is CreatingPlan,
        ensures
            match result {
                SquareResponse::Error(e) => r.0 matches CatalogProvisioning::PlanFailed { error }
                    && error == e && r.1 is None,
                SquareResponse::Success(plan) => {
                    &&& r.0 matches CatalogProvisioning::CreatingVariation {
                        builder: b,
                        plan: p,
                    } && b == self->CreatingPlan_builder && p == plan
                    &&& r.1 matches Some(req) && {
                        &&& req.object.type_@ == "SUBSCRIPTION_PLAN_VARIATION"@
                        &&& req.object.subscription_plan_variation_data matches Some(v)
                            && v.subscription_plan_id == plan.catalog_object.id
                            && v.name == self->CreatingPlan_builder.name
                        &&& req.idempotency_key@.len() == 36
                    }
                },
            },
    {
        let builder = match self {
            CatalogProvisioning::CreatingPlan { builder } => builder,
            _ => unreached(),
        };
        match result {
            SquareResponse::Error(error) => (CatalogProvisioning::PlanFailed { error }, None),
            SquareResponse::Success(plan) => {
                let request = plan.subscription_plan(clone_builder(&builder));
                (CatalogProvisioning::CreatingVariation { builder, plan }, Some(request))
            }
        }
    }

    /// Consumes the variation-create outcome. A failure here leaves the
    /// already-committed plan orphaned, and says so.
    pub fn on_variation_result(self, result: SquareResponse<SubscriptionPlanResponse>) -> (next:
        CatalogProvisioning)
        requires
            self is CreatingVariation,
        ensures
            match result {
                SquareResponse::Error(e) => next matches CatalogProvisioning::PlanOrphaned {
                    plan_id,
                    error,
                } && plan_id == self->CreatingVariation_plan.catalog_object.id && error == e,
                SquareResponse::Success(v) => next matches CatalogProvisioning::Complete {
                    plan_id,
                    variation,
                } && plan_id == self->CreatingVariation_plan.catalog_object.id && variation == v,
            },
    {
        let plan = match self {
            CatalogProvisioning::CreatingVariation { plan, .. } => plan,
            _ => unreached(),
        };
        match result {
            SquareResponse::Error(error) => CatalogProvisioning::PlanOrphaned {
                plan_id: plan.catalog_object.id,
                error,
            },
            SquareResponse::Success(variation) => CatalogProvisioning::Complete {
                plan_id: plan.catalog_object.id,
                variation,
            },
        }
    }
}

} // verus!
