//! Payment links: quick-pay subscription checkouts and order-based
//! coaching checkouts.
//!
//! Money travels to the platform in integer minor units (cents for USD)
//! and comes back to callers the same way; rendering in major units is a
//! display concern that stays outside this library, so no rounding drift
//! can creep in between internal display and remote billing.

use vstd::prelude::*;
use crate::coaching::{spec_package_name, CoachingPackage};
use crate::common::{Price, Source};
use crate::catalog::{ItemData, SubscriptionPlanResponseObject};
use crate::customer::CustomerResponse;
use crate::error::ApiFailure;
use crate::idempotency::fresh_idempotency_key;
use crate::location::Address;

verus! {

/// A caller-supplied buyer identity; absent when the caller is anonymous.
#[derive(Clone, Debug)]
pub struct UserEmailRequest {
    pub email: Option<String>,
}

/// A coaching purchase request: which package, and for whom.
#[derive(Clone, Debug)]
pub struct CoachingRequest {
    pub coaching_package: CoachingPackage,
    pub user_email: UserEmailRequest,
}

/// The resolved inputs of a subscription checkout.
#[derive(Clone, Debug)]
pub struct SubscriptionCheckoutBuilder {
    pub name: String,
    pub price: u64,
    pub location_id: String,
    pub subscription_plan_id: String,
    pub redirect_url: String,
    pub buyer_email: Option<String>,
}

/// The resolved inputs of a coaching checkout: the item variation to
/// charge for, and the already-resolved customer.
#[derive(Clone, Debug)]
pub struct CoachingCheckoutBuilder {
    pub coaching_package_id: String,
    pub location_id: String,
    pub customer_id: String,
    pub redirect_url: String,
    pub buyer_email: Option<String>,
}

/// The body of a create-payment-link call: either a quick-pay checkout
/// against a plan variation or an order-based checkout, never both.
#[derive(Clone, Debug)]
pub struct CheckoutRequest {
    pub idempotency_key: String,
    pub quick_pay: Option<QuickPay>,
    pub pre_populated_data: Option<PrePopulatedData>,
    pub checkout_options: Option<CheckoutOptions>,
    pub order: Option<OrderRequest>,
}

impl CheckoutRequest {
    /// The quick-pay body of a subscription checkout: the plan's name and
    /// monthly price, the resolved location, the plan variation to
    /// subscribe to, and the buyer's email pre-populated when known.
    pub fn new_subscription(request: SubscriptionCheckoutBuilder) -> (r: CheckoutRequest)
        ensures
            r.idempotency_key@.len() == 36,
            r.quick_pay matches Some(q) && q.name == request.name && q.price_money.amount
                == request.price && q.price_money.currency@ == "USD"@ && q.location_id
                == request.location_id,
            r.pre_populated_data matches Some(p) && p.buyer_email == request.buyer_email
                && p.buy_phone_number is None && p.buyer_address is None,
            r.checkout_options matches Some(c) && c.subscription_plan_id
                == request.subscription_plan_id && c.redirect_url == Some(request.redirect_url),
            r.order is None,
    {
        CheckoutRequest {
            idempotency_key: fresh_idempotency_key(),
            quick_pay: Some(
                QuickPay {
                    name: request.name,
                    price_money: Price { amount: request.price, currency: "USD".to_owned() },
                    location_id: request.location_id,
                },
            ),
            pre_populated_data: Some(
                PrePopulatedData {
                    buyer_email: request.buyer_email,
                    buy_phone_number: None,
                    buyer_address: None,
                },
            ),
            checkout_options: Some(
                CheckoutOptions {
                    subscription_plan_id: request.subscription_plan_id,
                    redirect_url: Some(request.redirect_url),
                },
            ),
            order: None,
        }
    }

    /// The order-based body of a coaching checkout: one line item for the
    /// package's item variation, at quantity one.
    pub fn new_coaching_package(request: CoachingCheckoutBuilder) -> (r: CheckoutRequest)
        ensures
            r.idempotency_key@.len() == 36,
            r.order matches Some(o) && o.location_id == request.location_id && o.customer_id
                == request.customer_id && o.line_items@.len() == 1
                && o.line_items@[0].quantity@ == "1"@
                && o.line_items@[0].item_type@ == "ITEM"@
                && o.line_items@[0].catalog_object_id == request.coaching_package_id,
            r.quick_pay is None,
            r.pre_populated_data is None,
            r.checkout_options is None,
    {
        let mut line_items: Vec<LineItemRequest> = Vec::new();
        line_items.push(
            LineItemRequest {
                quantity: "1".to_owned(),
                item_type: "ITEM".to_owned(),
                catalog_object_id: request.coaching_package_id,
            },
        );
        CheckoutRequest {
            idempotency_key: fresh_idempotency_key(),
            quick_pay: None,
            pre_populated_data: None,
            checkout_options: None,
            order: Some(
                OrderRequest {
                    location_id: request.location_id,
                    customer_id: request.customer_id,
                    line_items,
                },
            ),
        }
    }
}

/// The order-based checkout for a coaching purchase: the resolved
/// customer buys one unit of the item variation filed under the package's
/// display name. A missing customer or a package with no matching
/// variation is a typed absence, never a fatal abort.
pub fn coaching_checkout_request(
    package: &CoachingPackage,
    customer: Option<&CustomerResponse>,
    item: &ItemData,
    location_id: String,
    redirect_url: String,
) -> (r: Result<CheckoutRequest, ApiFailure>)
    ensures
        match r {
            Ok(req) => {
                &&& customer is Some
                &&& item.variations matches Some(vs) && exists|k: int|
                    0 <= k < vs@.len() && (#[trigger] vs@[k]).item_variation_data.name@
                        == spec_package_name(*package) && (req.order matches Some(o)
                        && o.line_items@[0].catalog_object_id == vs@[k].id)
                &&& req.order matches Some(o) && o.customer_id == customer->0.id
                    && o.location_id == location_id && o.line_items@.len() == 1
                    && o.line_items@[0].quantity@ == "1"@
                    && o.line_items@[0].item_type@ == "ITEM"@
                &&& req.quick_pay is None
                &&& req.idempotency_key@.len() == 36
            },
            Err(e) => e is NotFound && (customer is None || match item.variations {
                Some(vs) => forall|k: int|
                    0 <= k < vs@.len() ==> (#[trigger] vs@[k]).item_variation_data.name@
                        != spec_package_name(*package),
                None => true,
            }),
        },
{
    let customer = match customer {
        None => {
            return Err(ApiFailure::NotFound);
        }
        Some(c) => c,
    };
    match item.find_package_variation(package) {
        None => Err(ApiFailure::NotFound),
        Some(k) => {
            let variations = match &item.variations {
                Some(vs) => vs,
                None => {
                    return Err(ApiFailure::NotFound);
                }
            };
            Ok(
                CheckoutRequest::new_coaching_package(
                    CoachingCheckoutBuilder {
                        coaching_package_id: variations[k].id.clone(),
                        location_id,
                        customer_id: customer.id.clone(),
                        redirect_url,
                        buyer_email: Some(customer.email_address.clone()),
                    },
                ),
            )
        }
    }
}

/// A checkout built directly from a name and price, without an explicit
/// order object.
#[derive(Clone, Debug)]
pub struct QuickPay {
    pub name: String,
    pub price_money: Price,
    pub location_id: String,
}

/// Options attached to a payment link.
#[derive(Clone, Debug)]
pub struct CheckoutOptions {
    pub subscription_plan_id: String,
    pub redirect_url: Option<String>,
}

/// An explicit order inside an order-based checkout.
#[derive(Clone, Debug)]
pub struct OrderRequest {
    pub location_id: String,
    pub customer_id: String,
    pub line_items: Vec<LineItemRequest>,
}

/// One catalog line item of an order-based checkout.
#[derive(Clone, Debug)]
pub struct LineItemRequest {
    pub quantity: String,
    pub item_type: String,
    pub catalog_object_id: String,
}

/// The body of a successful create-payment-link call.
#[derive(Clone, Debug)]
pub struct CheckoutResponse {
    pub payment_link: PaymentLink,
    pub related_resources: RelatedResources,
}

impl CheckoutResponse {
    /// The caller-facing checkout link: the hosted URL and the order's
    /// net amount due, still in minor units. `None` when the response
    /// carries no related order — a malformed response is reported,
    /// never read as a zero amount.
    pub fn checkout_info(&self) -> (r: Option<CheckoutInfo>)
        ensures
            match r {
                Some(info) => self.related_resources.orders@.len() > 0 && info.url
                    == self.payment_link.url && info.amount.amount
                    == self.related_resources.orders@[0].net_amount_due_money.amount
                    && info.amount.currency
                    == self.related_resources.orders@[0].net_amount_due_money.currency,
                None => self.related_resources.orders@.len() == 0,
            },
    {
        if self.related_resources.orders.len() == 0 {
            None
        } else {
            let due = &self.related_resources.orders[0].net_amount_due_money;
            Some(
                CheckoutInfo {
                    url: self.payment_link.url.clone(),
                    amount: Price { amount: due.amount, currency: due.currency.clone() },
                },
            )
        }
    }
}

/// A hosted, single-use payment link.
#[derive(Clone, Debug)]
pub struct PaymentLink {
    pub checkout_options: Option<CheckoutOptions>,
    pub pre_populated_data: Option<PrePopulatedData>,
    pub created_at: String,
    pub id: String,
    pub long_url: String,
    pub order_id: String,
    pub url: String,
    pub version: u64,
}

/// Buyer details pre-populated into the hosted checkout page.
#[derive(Clone, Debug)]
pub struct PrePopulatedData {
    pub buyer_email: Option<String>,
    pub buy_phone_number: Option<String>,
    pub buyer_address: Option<Address>,
}

/// The resources the platform created alongside a payment link.
#[derive(Clone, Debug)]
pub struct RelatedResources {
    pub orders: Vec<OrderResponse>,
    pub subscription_plans: Option<Vec<SubscriptionPlanResponseObject>>,
}

/// The order created alongside a payment link.
#[derive(Clone, Debug)]
pub struct OrderResponse {
    pub created_at: String,
    pub fulfillments: Vec<Fulfillment>,
    pub id: String,
    pub line_items: Vec<LineItemResponse>,
    pub location_id: String,
    pub net_amount_due_money: Price,
    pub net_amounts: NetAmounts,
    pub source: Source,
    pub state: String,
    pub total_discount_money: Price,
    pub total_money: Price,
    pub total_service_charge_money: Price,
    pub total_tax_money: Price,
    pub total_tip_money: Price,
    pub updated_at: String,
    pub version: u64,
}

/// One line item of the created order.
#[derive(Clone, Debug)]
pub struct LineItemResponse {
    pub base_price_money: Price,
    pub gross_sales_money: Price,
    pub item_type: String,
    pub name: String,
    pub quantity: String,
    pub total_discount_money: Price,
    pub total_money: Price,
    pub total_service_charge_money: Price,
    pub total_tax_money: Price,
    pub uid: String,
    pub variation_total_price_money: Price,
    pub catalog_object_id: Option<String>,
    pub variation_name: Option<String>,
}

/// A fulfillment entry of the created order.
#[derive(Clone, Debug)]
pub struct Fulfillment {
    pub uid: String,
    pub type_: String,
    pub state: String,
}

/// The net amount breakdown of the created order.
#[derive(Clone, Debug)]
pub struct NetAmounts {
    pub discount_money: Price,
    pub service_charge_money: Price,
    pub tax_money: Price,
    pub tip_money: Price,
    pub total_money: Price,
}

/// A checkout link as reported to callers: the hosted URL and the amount
/// due in minor units.
#[derive(Clone, Debug)]
pub struct CheckoutInfo {
    pub url: String,
    pub amount: Price,
}

} // verus!
