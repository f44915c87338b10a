//! The find-or-create-or-update flow for a remote customer.
//!
//! An update first searches by email. An empty search creates the
//! customer and then initializes its session ledger to all-zero; a hit
//! updates the existing record in place. The search-then-branch is not
//! atomic against a concurrent duplicate create: two concurrent flows for
//! a new email can both observe "not found" and both create. The remote
//! API offers no compare-and-swap, so the race is inherent and documented
//! rather than hidden.

use vstd::prelude::*;
use vstd::pervasive::unreached;
use crate::customer::{
    CustomerRequest, CustomerResponse, SearchCustomerRequest, SearchCustomerResponse,
    UpdateCustomerAttributeRequest, UpdateCustomerResponse, ledger_write_requests,
};
use crate::digits::spec_dec_str;
use crate::error::{SquareErrorResponse, SquareResponse};
use crate::ledger::{spec_attribute_key, SessionAttribute, SessionsInfo};

verus! {

/// The state of one find-or-create-or-update flow. The caller performs
/// the network call each state asks for and feeds the outcome back in;
/// every transition below is a pure, verified decision.
#[derive(Clone, Debug)]
pub enum UpdateCustomerFlow {
    /// The email search is in flight.
    Searching { request: CustomerRequest },
    /// The search came back empty: a create call is in flight.
    Creating { request: CustomerRequest },
    /// The search found the customer: an in-place update is in flight.
    Updating { customer_id: String, request: CustomerRequest },
    /// The customer was just created: the three ledger counters are
    /// being initialized to zero.
    InitializingLedger { customer: CustomerResponse },
    /// The flow finished with this customer record.
    Complete { customer: CustomerResponse },
    /// The remote platform answered with a structured error.
    Failed { error: SquareErrorResponse },
}

impl UpdateCustomerFlow {
    /// Begins the flow: the first step is always an exact-match email
    /// search for the requested customer.
    pub fn start(request: CustomerRequest) -> (r: (UpdateCustomerFlow, SearchCustomerRequest))
        ensures
            r.0 matches UpdateCustomerFlow::Searching { request: q } && q == request,
            r.1.query.filter.email_address.exact == request.email_address,
    {
        let search = SearchCustomerRequest::new(request.email_address.clone());
        (UpdateCustomerFlow::Searching { request }, search)
    }

    /// Consumes the search outcome: an error fails the flow, an empty
    /// result moves to creation, a hit moves to an in-place update of the
    /// first match.
    pub fn on_search_result(self, result: SquareResponse<SearchCustomerResponse>) -> (next:
        UpdateCustomerFlow)
        requires
            self is Searching,
        ensures
            match result {
                SquareResponse::Error(e) => next matches UpdateCustomerFlow::Failed { error }
                    && error == e,
                SquareResponse::Success(s) => if s.customers@.len() == 0 {
                    next matches UpdateCustomerFlow::Creating { request }
                        && request == self->Searching_request
                } else {
                    next matches UpdateCustomerFlow::Updating { customer_id, request }
                        && customer_id == s.customers@[0].id
                        && request == self->Searching_request
                },
            },
    {
        let request = match self {
            UpdateCustomerFlow::Searching { request } => request,
            _ => unreached(),
        };
        match result {
            SquareResponse::Error(error) => UpdateCustomerFlow::Failed { error },
            SquareResponse::Success(s) => {
                if s.customers.len() == 0 {
                    UpdateCustomerFlow::Creating { request }
                } else {
                    UpdateCustomerFlow::Updating {
                        customer_id: s.customers[0].id.clone(),
                        request,
                    }
                }
            }
        }
    }

    /// Consumes the create outcome. On success the flow does not finish
    /// yet: the new customer's session ledger must first be initialized
    /// to all-zero.
    pub fn on_create_result(self, result: SquareResponse<CustomerResponse>) -> (next:
        UpdateCustomerFlow)
        requires
            self is Creating,
        ensures
            match result {
                SquareResponse::Error(e) => next matches UpdateCustomerFlow::Failed { error }
                    && error == e,
                SquareResponse::Success(c) => next
                    matches UpdateCustomerFlow::InitializingLedger { customer }
                    && customer == c,
            },
    {
        match result {
            SquareResponse::Error(error) => UpdateCustomerFlow::Failed { error },
            SquareResponse::Success(customer) => UpdateCustomerFlow::InitializingLedger {
                customer,
            },
        }
    }

    /// Consumes the update outcome: on success the flow finishes with the
    /// updated record.
    pub fn on_update_result(self, result: SquareResponse<UpdateCustomerResponse>) -> (next:
        UpdateCustomerFlow)
        requires
            self is Updating,
        ensures
            match result {
                SquareResponse::Error(e) => next matches UpdateCustomerFlow::Failed { error }
                    && error == e,
                SquareResponse::Success(u) => next matches UpdateCustomerFlow::Complete { customer }
                    && customer == u.customer,
            },
    {
        match result {
            SquareResponse::Error(error) => UpdateCustomerFlow::Failed { error },
            SquareResponse::Success(u) => UpdateCustomerFlow::Complete { customer: u.customer },
        }
    }

    /// The three attribute writes that zero a fresh customer's ledger:
    /// balance, lifetime credits and lifetime debits, each set to "0".
    pub fn ledger_init_requests(&self) -> (r: Vec<UpdateCustomerAttributeRequest>)
        requires
            self is InitializingLedger,
        ensures
            r@.len() == 3,
            r@[0].custom_attribute.key@ == spec_attribute_key(SessionAttribute::Sessions),
            r@[1].custom_attribute.key@ == spec_attribute_key(SessionAttribute::SessionsCredited),
            r@[2].custom_attribute.key@ == spec_attribute_key(SessionAttribute::SessionsDebited),
            forall|i: int| 0 <= i < 3 ==> (#[trigger] r@[i]).custom_attribute.value@
                == spec_dec_str(0),
    {
        let customer = match self {
            UpdateCustomerFlow::InitializingLedger { customer } => customer,
            _ => unreached(),
        };
        let zeroed = SessionsInfo {
            email: customer.email_address.clone(),
            sessions: 0,
            sessions_credited: 0,
            sessions_debited: 0,
        };
        ledger_write_requests(&zeroed)
    }

    /// Marks the ledger initialization finished: the flow completes with
    /// the created customer.
    pub fn on_ledger_initialized(self) -> (next: UpdateCustomerFlow)
        requires
            self is InitializingLedger,
        ensures
            next matches UpdateCustomerFlow::Complete { customer }
                && customer == self->InitializingLedger_customer,
    {
        match self {
            UpdateCustomerFlow::InitializingLedger { customer } => UpdateCustomerFlow::Complete {
                customer,
            },
            _ => unreached(),
        }
    }
}

} // verus!
