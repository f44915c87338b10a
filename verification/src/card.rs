//! Storing a payment card on file for a customer.

use vstd::prelude::*;
use crate::customer::CustomerRequest;
use crate::idempotency::fresh_idempotency_key;
use crate::location::Address;

verus! {

/// The inputs of a store-card call: the customer's record and remote id.
#[derive(Clone, Debug)]
pub struct CardBuilder {
    pub customer: CustomerRequest,
    pub customer_id: String,
}

/// The body of a store-card call.
#[derive(Clone, Debug)]
pub struct CardRequest {
    pub idempotency_key: String,
    /// A card token from the seller account, or a payment id.
    pub source_id: String,
    pub card: CardRequestObject,
}

impl CardRequest {
    /// The store-card body for a resolved customer: the cardholder name
    /// is the customer's given and family name joined by a space, and the
    /// customer's email serves as the external reference id.
    pub fn new(request: CardBuilder) -> (r: CardRequest)
        ensures
            r.idempotency_key@.len() == 36,
            r.source_id@ == "ccof:customer-card-id-ok"@,
            r.card.cardholder_name@ == request.customer.given_name@ + " "@
                + request.customer.family_name@,
            r.card.customer_id == request.customer_id,
            r.card.reference_id == request.customer.email_address,
            r.card.billing_address == request.customer.address,
    {
        let cardholder_name = request.customer.given_name.clone().concat(" ").concat(
            request.customer.family_name.as_str(),
        );
        CardRequest {
            idempotency_key: fresh_idempotency_key(),
            source_id: "ccof:customer-card-id-ok".to_owned(),
            card: CardRequestObject {
                billing_address: request.customer.address,
                cardholder_name,
                customer_id: request.customer_id,
                reference_id: request.customer.email_address,
            },
        }
    }
}

/// The card details of a store-card call.
#[derive(Clone, Debug)]
pub struct CardRequestObject {
    pub billing_address: Address,
    pub cardholder_name: String,
    pub customer_id: String,
    pub reference_id: String,
}

/// The body of a successful store-card call.
#[derive(Clone, Debug)]
pub struct CardResponse {
    pub card: CardResponseObject,
}

/// A stored card as echoed back by the platform.
#[derive(Clone, Debug)]
pub struct CardResponseObject {
    pub id: String,
    pub billing_address: Address,
    pub fingerprint: Option<String>,
    pub bin: String,
    pub card_brand: String,
    pub card_type: String,
    pub cardholder_name: String,
    pub customer_id: String,
    pub enabled: bool,
    pub exp_month: u8,
    pub exp_year: u16,
    pub last_4: String,
    pub merchant_id: Option<String>,
    pub prepaid_type: String,
    pub reference_id: String,
    pub version: u64,
}

} // verus!
