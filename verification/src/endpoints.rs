//! The REST paths of the remote payments surface.
//!
//! Every path is built from the configured base URL; the id-carrying
//! paths splice the resolved id between a fixed prefix and suffix. The
//! platform is versioned through a header, not the path.

use vstd::prelude::*;

verus! {

/// The customer search endpoint.
pub fn customer_search_url(base: &String) -> (r: String)
    ensures
        r@ == base@ + "v2/customers/search"@,
{
    base.clone().concat("v2/customers/search")
}

/// The customer creation endpoint.
pub fn customer_create_url(base: &String) -> (r: String)
    ensures
        r@ == base@ + "v2/customers"@,
{
    base.clone().concat("v2/customers")
}

/// The in-place update endpoint of one customer.
pub fn customer_update_url(base: &String, customer_id: &String) -> (r: String)
    ensures
        r@ == base@ + "v2/customers/"@ + customer_id@,
{
    base.clone().concat("v2/customers/").concat(customer_id.as_str())
}

/// The catalog object creation endpoint.
pub fn catalog_object_url(base: &String) -> (r: String)
    ensures
        r@ == base@ + "v2/catalog/object"@,
{
    base.clone().concat("v2/catalog/object")
}

/// The listing endpoint of all subscription-plan catalog objects.
pub fn catalog_list_url(base: &String) -> (r: String)
    ensures
        r@ == base@ + "v2/catalog/list?types=SUBSCRIPTION_PLAN"@,
{
    base.clone().concat("v2/catalog/list?types=SUBSCRIPTION_PLAN")
}

/// The merchant locations endpoint.
pub fn locations_url(base: &String) -> (r: String)
    ensures
        r@ == base@ + "v2/locations"@,
{
    base.clone().concat("v2/locations")
}

/// The subscription search endpoint.
pub fn subscription_search_url(base: &String) -> (r: String)
    ensures
        r@ == base@ + "v2/subscriptions/search"@,
{
    base.clone().concat("v2/subscriptions/search")
}

/// The retrieve endpoint of one subscription, with its action history
/// included — the search endpoint reports summaries only.
pub fn subscription_retrieve_url(base: &String, subscription_id: &String) -> (r: String)
    ensures
        r@ == base@ + "v2/subscriptions/"@ + subscription_id@ + "?include=actions"@,
{
    base.clone().concat("v2/subscriptions/").concat(subscription_id.as_str()).concat(
        "?include=actions",
    )
}

/// The cancel endpoint of one subscription.
pub fn subscription_cancel_url(base: &String, subscription_id: &String) -> (r: String)
    ensures
        r@ == base@ + "v2/subscriptions/"@ + subscription_id@ + "/cancel"@,
{
    base.clone().concat("v2/subscriptions/").concat(subscription_id.as_str()).concat("/cancel")
}

/// The payment link creation endpoint.
pub fn payment_links_url(base: &String) -> (r: String)
    ensures
        r@ == base@ + "v2/online-checkout/payment-links"@,
{
    base.clone().concat("v2/online-checkout/payment-links")
}

/// The newest-first customer listing endpoint.
pub fn customers_list_url(base: &String) -> (r: String)
    ensures
        r@ == base@ + "v2/customers?limit=10&sort_field=CREATED_AT&sort_order=DESC"@,
{
    base.clone().concat("v2/customers?limit=10&sort_field=CREATED_AT&sort_order=DESC")
}

/// The order search endpoint.
pub fn orders_search_url(base: &String) -> (r: String)
    ensures
        r@ == base@ + "v2/orders/search"@,
{
    base.clone().concat("v2/orders/search")
}

/// The invoice listing endpoint of one location.
pub fn invoices_url(base: &String, location_id: &String) -> (r: String)
    ensures
        r@ == base@ + "v2/invoices?location_id="@ + location_id@,
{
    base.clone().concat("v2/invoices?location_id=").concat(location_id.as_str())
}

/// The read endpoint of one customer custom attribute.
pub fn customer_attribute_url(base: &String, customer_id: &String, key: &String) -> (r: String)
    ensures
        r@ == base@ + "v2/customers/"@ + customer_id@ + "/custom-attributes/"@ + key@,
{
    base.clone().concat("v2/customers/").concat(customer_id.as_str()).concat(
        "/custom-attributes/",
    ).concat(key.as_str())
}

/// The customer custom attribute definition endpoint.
pub fn customer_attribute_definitions_url(base: &String) -> (r: String)
    ensures
        r@ == base@ + "v2/customers/custom-attribute-definitions"@,
{
    base.clone().concat("v2/customers/custom-attribute-definitions")
}

/// The webhook subscription creation endpoint.
pub fn webhook_subscriptions_url(base: &String) -> (r: String)
    ensures
        r@ == base@ + "v2/webhooks/subscriptions"@,
{
    base.clone().concat("v2/webhooks/subscriptions")
}

/// The webhook event-type catalog endpoint.
pub fn webhook_event_types_url(base: &String) -> (r: String)
    ensures
        r@ == base@ + "v2/webhooks/event-types"@,
{
    base.clone().concat("v2/webhooks/event-types")
}

} // verus!
