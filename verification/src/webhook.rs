//! Webhook event subscriptions for asynchronous order and invoice events.

use vstd::prelude::*;
use crate::idempotency::fresh_idempotency_key;

verus! {

/// The body of a create-webhook-subscription call.
#[derive(Clone, Debug)]
pub struct CreateWebhookRequest {
    pub idempotency_key: String,
    pub subscription: WebhookSubscriptionRequestObject,
}

impl CreateWebhookRequest {
    /// The registration body for the order-fulfillment event stream,
    /// pointed at the deployment's callback URL, with a fresh idempotency
    /// key per creation call.
    pub fn new(notification_url: String, api_version: String) -> (r: CreateWebhookRequest)
        ensures
            r.idempotency_key@.len() == 36,
            r.subscription.name@ == "Order Fulfillment Webhook"@,
            r.subscription.event_types@.len() == 1,
            r.subscription.event_types@[0]@ == "order.fulfillment.updated"@,
            r.subscription.notification_url == notification_url,
            r.subscription.api_version == api_version,
    {
        let mut event_types: Vec<String> = Vec::new();
        event_types.push("order.fulfillment.updated".to_owned());
        CreateWebhookRequest {
            idempotency_key: fresh_idempotency_key(),
            subscription: WebhookSubscriptionRequestObject {
                name: "Order Fulfillment Webhook".to_owned(),
                event_types,
                notification_url,
                api_version,
            },
        }
    }
}

/// A webhook subscription to be registered.
#[derive(Clone, Debug)]
pub struct WebhookSubscriptionRequestObject {
    pub name: String,
    pub event_types: Vec<String>,
    pub notification_url: String,
    pub api_version: String,
}

/// The body of a successful create-webhook-subscription call.
#[derive(Clone, Debug)]
pub struct CreateWebhookResponse {
    pub subscription: WebhookSubscriptionResponseObject,
}

/// A registered webhook subscription, including its signing key.
#[derive(Clone, Debug)]
pub struct WebhookSubscriptionResponseObject {
    pub api_version: String,
    pub created_at: String,
    pub enabled: bool,
    pub event_types: Vec<String>,
    pub id: String,
    pub name: String,
    pub notification_url: String,
    pub signature_key: Option<String>,
    pub updated_at: String,
}

/// The catalog of event types the platform supports, for operator
/// tooling.
#[derive(Clone, Debug)]
pub struct EventTypes {
    pub event_types: Vec<String>,
    pub metadata: Vec<EventMetadata>,
}

/// When an event type was introduced and its release status.
#[derive(Clone, Debug)]
pub struct EventMetadata {
    pub api_version_introduced: String,
    pub event_type: String,
    pub release_status: String,
}

/// The listing of registered webhook subscriptions.
#[derive(Clone, Debug)]
pub struct WebhookSubscriptionsResponse {
    pub subscriptions: Vec<WebhookSubscriptionResponseObject>,
}

/// The (empty) body of a successful webhook deletion.
#[derive(Clone, Debug)]
pub struct DeleteWebhookResponse {}

} // verus!
