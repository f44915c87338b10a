//! Remote customer identity: search, creation, update, and the custom
//! attributes that carry the session ledger.
//!
//! A customer is keyed remotely by an opaque id and looked up only by
//! exact-match email search. Customers are created on first write and
//! updated in place thereafter, never deleted, and never cached locally.

use vstd::prelude::*;
use crate::digits::{spec_dec_str, u8_to_decimal};
use crate::error::{SquareErrorResponse, SquareResponse};
use crate::idempotency::fresh_idempotency_key;
use crate::ledger::{spec_attribute_key, SessionAttribute, SessionsInfo};
use crate::location::Address;

verus! {

/// The body of a create-customer or update-customer call.
#[derive(Clone, Debug)]
pub struct CustomerRequest {
    pub email_address: String,
    pub family_name: String,
    pub given_name: String,
    pub address: Address,
}

/// A customer's notification preferences.
#[derive(Clone, Debug)]
pub struct Preferences {
    pub email_unsubscribed: bool,
}

/// A remote customer record.
#[derive(Clone, Debug)]
pub struct CustomerResponse {
    pub created_at: String,
    pub creation_source: String,
    pub email_address: String,
    pub family_name: String,
    pub given_name: String,
    pub id: String,
    pub preferences: Preferences,
    pub updated_at: String,
    pub version: u64,
    pub cards: Option<Vec<Card>>,
}

/// A payment card on file with a customer.
#[derive(Clone, Debug)]
pub struct Card {
    pub id: String,
    pub card_brand: String,
    pub last_4: String,
    pub exp_month: u8,
    pub exp_year: u16,
    pub cardholder_name: String,
    pub billing_address: Address,
}

/// The body of a successful update-customer call.
#[derive(Clone, Debug)]
pub struct UpdateCustomerResponse {
    pub customer: CustomerResponse,
}

/// The exact-match leaf of an email search filter.
#[derive(Clone, Debug)]
pub struct SearchCustomerExact {
    pub exact: String,
}

/// The email-address arm of a customer search filter.
#[derive(Clone, Debug)]
pub struct SearchCustomerEmailAddress {
    pub email_address: SearchCustomerExact,
}

/// The filter of a customer search query.
#[derive(Clone, Debug)]
pub struct SearchCustomerFilter {
    pub filter: SearchCustomerEmailAddress,
}

/// The body of a customer search call: an exact-match email query.
#[derive(Clone, Debug)]
pub struct SearchCustomerRequest {
    pub query: SearchCustomerFilter,
}

impl SearchCustomerRequest {
    /// The search body that matches exactly the given email.
    pub fn new(email: String) -> (r: SearchCustomerRequest)
        ensures
            r.query.filter.email_address.exact == email,
    {
        SearchCustomerRequest {
            query: SearchCustomerFilter {
                filter: SearchCustomerEmailAddress {
                    email_address: SearchCustomerExact { exact: email },
                },
            },
        }
    }
}

/// The body of a write to one customer custom attribute.
#[derive(Clone, Debug)]
pub struct UpdateCustomerAttributeRequest {
    pub idempotency_key: String,
    pub custom_attribute: CustomAttribute,
}

impl UpdateCustomerAttributeRequest {
    /// The write body that stores `value` under `key`, with a fresh
    /// idempotency key.
    pub fn new(key: String, value: u8) -> (r: UpdateCustomerAttributeRequest)
        ensures
            r.custom_attribute.key == key,
            r.custom_attribute.value@ == spec_dec_str(value as int),
            r.idempotency_key@.len() == 36,
    {
        UpdateCustomerAttributeRequest {
            idempotency_key: fresh_idempotency_key(),
            custom_attribute: CustomAttribute { key, value: u8_to_decimal(value) },
        }
    }
}

/// One custom attribute key/value pair; the value is a string-encoded
/// integer.
#[derive(Clone, Debug)]
pub struct CustomAttribute {
    pub key: String,
    pub value: String,
}

/// The body of a create-custom-attribute-definition call.
#[derive(Clone, Debug)]
pub struct CreateCustomAttributeRequest {
    pub idempotency_key: String,
    pub custom_attribute_definition: CustomAttributeDefinitionRequest,
}

impl CreateCustomAttributeRequest {
    /// The definition body for a numeric attribute under `key`, with a
    /// fresh idempotency key.
    pub fn new(key: String) -> (r: CreateCustomAttributeRequest)
        ensures
            r.custom_attribute_definition.key == key,
            r.custom_attribute_definition.schema.reference@
                == "https://developer-production-s.squarecdn.com/schemas/v1/common.json#squareup.common.Number"@,
            r.idempotency_key@.len() == 36,
    {
        CreateCustomAttributeRequest {
            idempotency_key: fresh_idempotency_key(),
            custom_attribute_definition: CustomAttributeDefinitionRequest {
                key,
                schema: CustomAttributeSchemaObject {
                    reference:
                        "https://developer-production-s.squarecdn.com/schemas/v1/common.json#squareup.common.Number".to_owned(),
                },
            },
        }
    }
}

/// A custom attribute definition: key plus value schema.
#[derive(Clone, Debug)]
pub struct CustomAttributeDefinitionRequest {
    pub key: String,
    pub schema: CustomAttributeSchemaObject,
}

/// The schema reference of a custom attribute definition.
#[derive(Clone, Debug)]
pub struct CustomAttributeSchemaObject {
    pub reference: String,
}

/// The body of a successful customer search.
#[derive(Clone, Debug)]
pub struct SearchCustomerResponse {
    pub customers: Vec<CustomerResponse>,
}

impl SearchCustomerResponse {
    /// The first matching customer, or `None` when the search came back
    /// empty.
    pub fn first_customer(&self) -> (r: Option<&CustomerResponse>)
        ensures
            match r {
                Some(c) => self.customers@.len() > 0 && *c == self.customers@[0],
                None => self.customers@.len() == 0,
            },
    {
        if self.customers.len() == 0 {
            None
        } else {
            Some(&self.customers[0])
        }
    }
}

/// The body of a customer listing.
#[derive(Clone, Debug)]
pub struct CustomerListResponse {
    pub customers: Vec<CustomerResponse>,
}

impl CustomerListResponse {
    /// The ids of the listed customers, in listing order.
    pub fn customer_ids(&self) -> (r: Vec<String>)
        ensures
            r@.len() == self.customers@.len(),
            forall|i: int| 0 <= i < r@.len() ==> r@[i] == #[trigger] self.customers@[i].id,
    {
        let mut ids: Vec<String> = Vec::new();
        let mut i: usize = 0;
        while i < self.customers.len()
            invariant
                0 <= i <= self.customers@.len(),
                ids@.len() == i,
                forall|j: int| 0 <= j < i ==> ids@[j] == #[trigger] self.customers@[j].id,
            decreases self.customers@.len() - i,
        {
            ids.push(self.customers[i].id.clone());
            i = i + 1;
        }
        ids
    }
}

/// A customer as reported to callers: identity and cards, no remote
/// bookkeeping fields.
#[derive(Clone, Debug)]
pub struct CustomerInfo {
    pub email_address: String,
    pub family_name: String,
    pub given_name: String,
    pub cards: Option<Vec<CardInfo>>,
}

/// A card as reported to callers.
#[derive(Clone, Debug)]
pub struct CardInfo {
    pub card_brand: String,
    pub last_4: String,
    pub exp_month: u8,
    pub exp_year: u16,
    pub cardholder_name: String,
}

/// The projection of one card onto its caller-facing fields.
pub open spec fn spec_card_info(c: Card) -> CardInfo {
    CardInfo {
        card_brand: c.card_brand,
        last_4: c.last_4,
        exp_month: c.exp_month,
        exp_year: c.exp_year,
        cardholder_name: c.cardholder_name,
    }
}

impl CustomerResponse {
    /// The caller-facing view of this customer: email, names and cards.
    pub fn to_customer_info(&self) -> (r: CustomerInfo)
        ensures
            r.email_address == self.email_address,
            r.family_name == self.family_name,
            r.given_name == self.given_name,
            r.cards is Some <==> self.cards is Some,
            r.cards matches Some(cs) ==> {
                let own = self.cards->0;
                cs@.len() == own@.len() && forall|i: int|
                    0 <= i < cs@.len() ==> cs@[i] == spec_card_info(#[trigger] own@[i])
            },
    {
        let cards = match &self.cards {
            None => None,
            Some(own) => {
                let mut infos: Vec<CardInfo> = Vec::new();
                let mut i: usize = 0;
                while i < own.len()
                    invariant
                        0 <= i <= own@.len(),
                        infos@.len() == i,
                        forall|j: int|
                            0 <= j < i ==> infos@[j] == spec_card_info(#[trigger] own@[j]),
                    decreases own@.len() - i,
                {
                    let card = &own[i];
                    infos.push(
                        CardInfo {
                            card_brand: card.card_brand.clone(),
                            last_4: card.last_4.clone(),
                            exp_month: card.exp_month,
                            exp_year: card.exp_year,
                            cardholder_name: card.cardholder_name.clone(),
                        },
                    );
                    i = i + 1;
                }
                Some(infos)
            }
        };
        CustomerInfo {
            email_address: self.email_address.clone(),
            family_name: self.family_name.clone(),
            given_name: self.given_name.clone(),
            cards,
        }
    }
}

/// The three ledger write bodies for one customer: the balance, the
/// lifetime credits and the lifetime debits, in that order, each as an
/// independent attribute write.
pub fn ledger_write_requests(info: &SessionsInfo) -> (r: Vec<UpdateCustomerAttributeRequest>)
    ensures
        r@.len() == 3,
        r@[0].custom_attribute.key@ == spec_attribute_key(SessionAttribute::Sessions),
        r@[0].custom_attribute.value@ == spec_dec_str(info.sessions as int),
        r@[1].custom_attribute.key@ == spec_attribute_key(SessionAttribute::SessionsCredited),
        r@[1].custom_attribute.value@ == spec_dec_str(info.sessions_credited as int),
        r@[2].custom_attribute.key@ == spec_attribute_key(SessionAttribute::SessionsDebited),
        r@[2].custom_attribute.value@ == spec_dec_str(info.sessions_debited as int),
{
    let mut requests: Vec<UpdateCustomerAttributeRequest> = Vec::new();
    requests.push(
        UpdateCustomerAttributeRequest::new(SessionAttribute::Sessions.key(), info.sessions),
    );
    requests.push(
        UpdateCustomerAttributeRequest::new(
            SessionAttribute::SessionsCredited.key(),
            info.sessions_credited,
        ),
    );
    requests.push(
        UpdateCustomerAttributeRequest::new(
            SessionAttribute::SessionsDebited.key(),
            info.sessions_debited,
        ),
    );
    requests
}

/// The response to a create-custom-attribute-definition call.
#[derive(Clone, Debug)]
pub struct CreateCustomAttributeResponse {
    pub custom_attribute_definition: CustomAttributeDefinitionResponse,
}

/// A custom attribute definition as echoed back by the platform.
#[derive(Clone, Debug)]
pub struct CustomAttributeDefinitionResponse {
    pub key: String,
    pub version: u64,
    pub updated_at: String,
    pub schema: CustomAttributeSchemaObject,
    pub created_at: String,
    pub visibility: String,
}

/// The outcomes of defining all three ledger attributes.
#[derive(Clone, Debug)]
pub struct CustomAttributeResponses {
    pub sessions: SquareResponse<CreateCustomAttributeResponse>,
    pub sessions_credited: SquareResponse<CreateCustomAttributeResponse>,
    pub sessions_debited: SquareResponse<CreateCustomAttributeResponse>,
}

/// One stored custom attribute as read back from the platform.
#[derive(Clone, Debug)]
pub struct CustomAttributeResponse {
    pub key: String,
    pub version: u64,
    pub updated_at: String,
    pub value: String,
    pub created_at: String,
    pub visibility: String,
}

/// The wrapper object around one read-back custom attribute.
#[derive(Clone, Debug)]
pub struct CustomerAttributeResponse {
    pub custom_attribute: CustomAttributeResponse,
}

/// The read-back values of all three ledger attributes.
#[derive(Clone, Debug)]
pub struct CustomerAttributesResponse {
    pub sessions: CustomerAttributeResponse,
    pub sessions_credited: CustomerAttributeResponse,
    pub sessions_debited: CustomerAttributeResponse,
}

/// The first step of resolving a customer by optional email.
#[derive(Clone, Debug)]
pub enum CustomerSearchPlan {
    /// No email was given: resolution ends at once with no customer and
    /// no network call.
    NoEmail,
    /// Search with this body, then take the first match.
    Search(SearchCustomerRequest),
}

/// Plans a customer lookup. Without an email no search body is produced,
/// so the caller issues no network request at all; with an email the plan
/// carries the exact-match search body.
pub fn plan_customer_search(email: &Option<String>) -> (r: CustomerSearchPlan)
    ensures
        match email {
            None => r is NoEmail,
            Some(e) => r matches CustomerSearchPlan::Search(req)
                && req.query.filter.email_address.exact == e,
        },
{
    match email {
        None => CustomerSearchPlan::NoEmail,
        Some(e) => CustomerSearchPlan::Search(SearchCustomerRequest::new(e.clone())),
    }
}

} // verus!
