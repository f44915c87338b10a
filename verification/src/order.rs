//! Order search across the merchant's locations and customers.

use vstd::prelude::*;
use crate::common::{Price, Source};

verus! {

/// The inputs of an order search: the locations to search, and optionally
/// the customers to restrict to.
#[derive(Clone, Debug)]
pub struct SearchOrdersRequestBuilder {
    pub location_ids: Vec<String>,
    pub customer_ids: Option<Vec<String>>,
}

/// The body of an order search call.
#[derive(Clone, Debug)]
pub struct SearchOrdersRequest {
    pub location_ids: Vec<String>,
    pub query: Option<SearchOrdersQuery>,
}

/// The query of an order search.
#[derive(Clone, Debug)]
pub struct SearchOrdersQuery {
    pub filter: SearchOrdersFilter,
}

/// The filter of an order search.
#[derive(Clone, Debug)]
pub struct SearchOrdersFilter {
    pub customer_filter: CustomerFilter,
}

/// The customer restriction of an order search.
#[derive(Clone, Debug)]
pub struct CustomerFilter {
    pub customer_ids: Vec<String>,
}

impl SearchOrdersRequest {
    /// The search body over the given locations, restricted to the given
    /// customers when any are named.
    pub fn new(request: SearchOrdersRequestBuilder) -> (r: SearchOrdersRequest)
        ensures
            r.location_ids == request.location_ids,
            match request.customer_ids {
                None => r.query is None,
                Some(ids) => r.query matches Some(q) && q.filter.customer_filter.customer_ids
                    == ids,
            },
    {
        match request.customer_ids {
            None => SearchOrdersRequest { location_ids: request.location_ids, query: None },
            Some(customer_ids) => SearchOrdersRequest {
                location_ids: request.location_ids,
                query: Some(
                    SearchOrdersQuery {
                        filter: SearchOrdersFilter {
                            customer_filter: CustomerFilter { customer_ids },
                        },
                    },
                ),
            },
        }
    }
}

/// The body of a successful order search.
#[derive(Clone, Debug)]
pub struct SearchOrdersResponse {
    pub orders: Vec<OrderObject>,
}

/// One order as returned by the search.
#[derive(Clone, Debug)]
pub struct OrderObject {
    pub id: String,
    pub location_id: String,
    pub line_items: Vec<LineItem>,
    pub fulfillments: Vec<Fulfillment>,
    pub discounts: Vec<Discount>,
    pub created_at: String,
    pub updated_at: String,
    pub state: String,
    pub version: u64,
    pub total_tax_money: Price,
    pub total_discount_money: Price,
    pub total_tip_money: Price,
    pub total_money: Price,
    pub tenders: Vec<Tender>,
    pub total_service_charge_money: Price,
    pub net_amounts: NetAmounts,
    pub source: Source,
    pub customer_id: String,
    pub net_amount_due_money: Price,
}

/// One payment tender of an order.
#[derive(Clone, Debug)]
pub struct Tender {
    pub id: String,
    pub location_id: String,
    pub transaction_id: String,
    pub created_at: String,
    pub amount_money: Price,
    pub type_: String,
    pub card_details: CardDetails,
    pub tip_money: Price,
    pub payment_id: String,
}

/// The card details of a tender.
#[derive(Clone, Debug)]
pub struct CardDetails {
    pub status: String,
    pub card: Card,
    pub entry_method: String,
}

/// The card of a tender.
#[derive(Clone, Debug)]
pub struct Card {
    pub card_brand: String,
    pub last_4: String,
    pub fingerprint: String,
}

/// A fulfillment entry of a searched order.
#[derive(Clone, Debug)]
pub struct Fulfillment {
    pub uid: String,
    pub type_: String,
    pub state: String,
}

/// One line item of a searched order.
#[derive(Clone, Debug)]
pub struct LineItem {
    pub uid: String,
    pub catalog_object_id: Option<String>,
    pub catalog_version: Option<u64>,
    pub quantity: String,
    pub name: String,
    pub variation_name: Option<String>,
    pub base_price_money: Price,
    pub gross_sales_money: Price,
    pub total_tax_money: Price,
    pub total_service_charge_money: Price,
    pub total_discount_money: Price,
    pub total_money: Price,
    pub variation_total_price_money: Price,
    pub item_type: Option<String>,
    pub applied_discounts: Vec<AppliedDiscount>,
}

/// A discount applied to a line item.
#[derive(Clone, Debug)]
pub struct AppliedDiscount {
    pub uid: String,
    pub discount_uid: String,
    pub applied_money: Price,
}

/// A discount attached to an order.
#[derive(Clone, Debug)]
pub struct Discount {
    pub uid: String,
    pub name: String,
    pub percentage: String,
    pub applied_money: Price,
    pub type_: String,
    pub scope: String,
}

/// The net amount breakdown of a searched order.
#[derive(Clone, Debug)]
pub struct NetAmounts {
    pub total_money: Price,
    pub tax_money: Price,
    pub discount_money: Price,
    pub tip_money: Price,
    pub service_charge_money: Price,
}

} // verus!
