//! Subscription lifecycle: search, retrieve, list and cancel.
//!
//! Subscriptions are retrieved by searching on the resolved customer id
//! and are never cached. The search endpoint returns summary objects
//! only; the action history of each must be fetched individually, an N+1
//! pattern the remote API imposes.

use vstd::prelude::*;
use crate::catalog::{spec_has_subscription_variation, CatalogResponseObject};
use crate::common::{Price, Source};
use crate::customer::CustomerInfo;
use crate::dates::{
    parse_iso_date, spec_date_day, spec_date_month, spec_date_year, spec_is_iso_date,
};
use crate::idempotency::fresh_idempotency_key;

verus! {

/// The body of a create-subscription call.
#[derive(Clone, Debug)]
pub struct SubscriptionRequest {
    pub idempotency_key: String,
    pub customer_id: String,
    pub location_id: String,
    pub plan_variation_id: String,
    pub phases: Option<Vec<PlanPhaseRequest>>,
}

impl SubscriptionRequest {
    /// The subscription body binding a customer to a plan variation at a
    /// location, with a fresh idempotency key.
    pub fn new(customer: String, location: String, plan: String) -> (r: SubscriptionRequest)
        ensures
            r.idempotency_key@.len() == 36,
            r.customer_id == customer,
            r.location_id == location,
            r.plan_variation_id == plan,
            r.phases is None,
    {
        SubscriptionRequest {
            idempotency_key: fresh_idempotency_key(),
            customer_id: customer,
            location_id: location,
            plan_variation_id: plan,
            phases: None,
        }
    }
}

/// One phase override of a create-subscription call.
#[derive(Clone, Debug)]
pub struct PlanPhaseRequest {
    pub ordinal: u64,
    pub order_template_id: String,
}

/// The body of a retrieve-subscription call's answer.
#[derive(Clone, Debug)]
pub struct SubscriptionResponse {
    pub subscription: SubscriptionResponseObject,
}

/// One subscription: a customer's contract against a plan variation.
#[derive(Clone, Debug)]
pub struct SubscriptionResponseObject {
    pub actions: Option<Vec<Action>>,
    pub buyer_self_management_token: String,
    pub canceled_date: Option<String>,
    pub card_id: Option<String>,
    pub charged_through_date: Option<String>,
    pub created_at: String,
    pub customer_id: String,
    pub id: String,
    pub invoice_ids: Option<Vec<String>>,
    pub location_id: String,
    pub order_template_id: String,
    pub phases: Option<Vec<PlanPhaseResponse>>,
    pub plan_variation_id: String,
    pub source: Source,
    pub start_date: String,
    pub status: String,
    pub timezone: String,
    pub version: u64,
    pub tax_percentage: Option<String>,
    pub price_override_money: Option<Price>,
}

impl SubscriptionResponseObject {
    /// The caller-facing dates of this subscription: start,
    /// charged-through and cancellation.
    pub fn to_user_subscription_info(&self) -> (r: UserSubscriptionInfo)
        ensures
            r.start_date == self.start_date,
            r.charged_through_date == self.charged_through_date,
            r.canceled_date == self.canceled_date,
    {
        UserSubscriptionInfo {
            start_date: self.start_date.clone(),
            charged_through_date: match &self.charged_through_date {
                None => None,
                Some(d) => Some(d.clone()),
            },
            canceled_date: match &self.canceled_date {
                None => None,
                Some(d) => Some(d.clone()),
            },
        }
    }
}

/// One recorded action on a subscription.
#[derive(Clone, Debug)]
pub struct Action {
    pub id: String,
    pub type_: String,
    pub effective_date: String,
    pub new_plan_id: Option<String>,
}

/// One phase of a subscription as echoed back by the platform.
#[derive(Clone, Debug)]
pub struct PlanPhaseResponse {
    pub uid: String,
    pub ordinal: u64,
    pub order_template_id: String,
    pub plan_phase_uid: String,
}

/// The body of a subscription search answer: summary objects without
/// action history.
#[derive(Clone, Debug)]
pub struct SubscriptionSearchResponse {
    pub subscriptions: Vec<SubscriptionResponseObject>,
}

impl SubscriptionSearchResponse {
    /// The first found subscription, or `None` when the customer has
    /// none.
    pub fn first_subscription(&self) -> (r: Option<&SubscriptionResponseObject>)
        ensures
            match r {
                Some(s) => self.subscriptions@.len() > 0 && *s == self.subscriptions@[0],
                None => self.subscriptions@.len() == 0,
            },
    {
        if self.subscriptions.len() == 0 {
            None
        } else {
            Some(&self.subscriptions[0])
        }
    }
}

/// The body of a subscription search: filter by customer ids.
#[derive(Clone, Debug)]
pub struct SearchSubscriptionsRequest {
    pub query: SearchSubscriptionQuery,
}

impl SearchSubscriptionsRequest {
    /// The search body filtering on exactly one customer id.
    pub fn new(customer_id: String) -> (r: SearchSubscriptionsRequest)
        ensures
            r.query.filter.customer_ids@.len() == 1,
            r.query.filter.customer_ids@[0] == customer_id,
    {
        let mut customer_ids: Vec<String> = Vec::new();
        customer_ids.push(customer_id);
        SearchSubscriptionsRequest {
            query: SearchSubscriptionQuery { filter: SearchSubscriptionFilter { customer_ids } },
        }
    }
}

/// The query of a subscription search.
#[derive(Clone, Debug)]
pub struct SearchSubscriptionQuery {
    pub filter: SearchSubscriptionFilter,
}

/// The filter of a subscription search.
#[derive(Clone, Debug)]
pub struct SearchSubscriptionFilter {
    pub customer_ids: Vec<String>,
}

/// The subscription offering as reported to callers: plan title and
/// monthly cost in minor units.
#[derive(Clone, Debug)]
pub struct SubscriptionInfo {
    pub title: String,
    pub cost: u64,
}

/// The monthly cost of the provisioned plan, read from a listed catalog
/// object: the price of the first phase of the first plan variation,
/// preferring `price_money` over `price`.
pub open spec fn spec_subscription_cost(c: CatalogResponseObject) -> Option<int> {
    if !spec_has_subscription_variation(c) {
        None
    } else {
        let phases = (c.subscription_plan_data->0.subscription_plan_variations->0)@[0]
            .subscription_plan_variation_data.phases;
        if phases@.len() == 0 {
            None
        } else {
            match phases@[0].pricing.price_money {
                Some(p) => Some(p.amount as int),
                None => match phases@[0].pricing.price {
                    Some(p) => Some(p.amount as int),
                    None => None,
                },
            }
        }
    }
}

/// The caller-facing subscription offering carried by a listed catalog
/// object, or `None` when the object carries no priced variation.
pub fn subscription_info_of(catalog: &CatalogResponseObject) -> (r: Option<SubscriptionInfo>)
    ensures
        match r {
            Some(info) => spec_subscription_cost(*catalog) == Some(info.cost as int)
                && info.title == catalog.subscription_plan_data->0.name,
            None => spec_subscription_cost(*catalog) is None,
        },
{
    match &catalog.subscription_plan_data {
        None => None,
        Some(data) => match &data.subscription_plan_variations {
            None => None,
            Some(variations) => {
                if variations.len() == 0 {
                    None
                } else {
                    let phases = &variations[0].subscription_plan_variation_data.phases;
                    if phases.len() == 0 {
                        None
                    } else {
                        match phases[0].pricing.amount_minor() {
                            None => None,
                            Some(amount) => Some(
                                SubscriptionInfo { title: data.name.clone(), cost: amount },
                            ),
                        }
                    }
                }
            }
        },
    }
}

/// A subscription's dates as reported to callers.
#[derive(Clone, Debug)]
pub struct UserSubscriptionInfo {
    pub start_date: String,
    pub charged_through_date: Option<String>,
    pub canceled_date: Option<String>,
}

/// Everything a caller learns about a user: the customer record, the
/// subscription offering, and the user's own subscription dates, each
/// absent when unresolved.
#[derive(Clone, Debug)]
pub struct UserProfile {
    pub customer: Option<CustomerInfo>,
    pub subscription_info: Option<SubscriptionInfo>,
    pub user_subscription: Option<UserSubscriptionInfo>,
}

/// The body of a successful cancel-subscription call.
#[derive(Clone, Debug)]
pub struct CancelSubscriptionResponse {
    pub subscription: CancelSubscriptionObject,
    pub actions: Vec<CancelSubscriptionActions>,
}

/// The canceled subscription as echoed back by the platform.
#[derive(Clone, Debug)]
pub struct CancelSubscriptionObject {
    pub id: String,
    pub location_id: String,
    pub customer_id: String,
    pub start_date: String,
    pub canceled_date: String,
    pub charged_through_date: String,
    pub status: String,
    pub invoice_ids: Vec<String>,
    pub version: u64,
    pub created_at: String,
    pub timezone: String,
    pub source: Source,
    pub monthly_billing_anchor_date: u8,
    pub plan_variation_id: String,
}

/// The scheduled cancellation actions of a cancel call.
#[derive(Clone, Debug)]
pub struct CancelSubscriptionActions {
    pub id: String,
    pub type_: String,
    pub effective_date: String,
}

/// A completed cancellation as reported to callers: whose subscription,
/// and through which date it stays paid.
#[derive(Clone, Debug)]
pub struct CanceledSubscriptionInfo {
    pub email: String,
    pub charged_through_year: u16,
    pub charged_through_month: u8,
    pub charged_through_day: u8,
}

impl CancelSubscriptionResponse {
    /// The caller-facing cancellation record: the charged-through date
    /// split into year, month and day. `None` when the platform's date
    /// does not have the `yyyy-mm-dd` shape — a malformed answer is
    /// reported, never passed off as a date.
    pub fn canceled_info(&self, email: String) -> (r: Option<CanceledSubscriptionInfo>)
        ensures
            match r {
                Some(info) => spec_is_iso_date(self.subscription.charged_through_date@)
                    && info.email == email
                    && info.charged_through_year == spec_date_year(
                        self.subscription.charged_through_date@,
                    )
                    && info.charged_through_month == spec_date_month(
                        self.subscription.charged_through_date@,
                    )
                    && info.charged_through_day == spec_date_day(
                        self.subscription.charged_through_date@,
                    ),
                None => !spec_is_iso_date(self.subscription.charged_through_date@),
            },
    {
        match parse_iso_date(self.subscription.charged_through_date.as_str()) {
            None => None,
            Some((year, month, day)) => Some(
                CanceledSubscriptionInfo {
                    email,
                    charged_through_year: year,
                    charged_through_month: month,
                    charged_through_day: day,
                },
            ),
        }
    }
}

} // verus!
