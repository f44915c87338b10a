use squarepay::card::{CardBuilder, CardRequest};
use squarepay::catalog::{
    CatalogRequest, CatalogResponse, CatalogResponseObject, CoachingCatalogBuilder,
    SubscriptionCatalogBuilder, SubscriptionPlanData,
};
use squarepay::checkout::coaching_checkout_request;
use squarepay::coaching::CoachingPackage;
use squarepay::common::{CustomerEmailInfo, Source};
use squarepay::customer::{
    CustomerListResponse, CustomerRequest, CustomerResponse, Preferences,
    SearchCustomerRequest, SearchCustomerResponse, UpdateCustomerResponse, CustomerSearchPlan,
    UpdateCustomerAttributeRequest, CreateCustomAttributeRequest, ledger_write_requests,
    plan_customer_search,
};
use squarepay::error::{
    collect_successes, status_is_success, ApiFailure, SquareError, SquareErrorResponse,
    SquareResponse,
};
use squarepay::invoice::dedup_by_email;
use squarepay::ledger::{
    DeltaSessions, LedgerReadDecision, LedgerSnapshot, SessionsInfo, SessionsInfoUpdate,
    decide_ledger_read,
};
use squarepay::location::{Address, LocationListResponse};
use squarepay::resolver::UpdateCustomerFlow;
use squarepay::provisioning::CatalogProvisioning;
use squarepay::subscription::{SearchSubscriptionsRequest, SubscriptionRequest};
use squarepay::webhook::CreateWebhookRequest;

fn empty_address() -> Address {
    Address {
        address_line_1: None,
        address_line_2: None,
        locality: None,
        administrative_district_level_1: None,
        postal_code: None,
        country: None,
    }
}

fn customer_request(email: &str) -> CustomerRequest {
    CustomerRequest {
        email_address: email.to_string(),
        family_name: "Doe".to_string(),
        given_name: "Jo".to_string(),
        address: empty_address(),
    }
}

fn customer_record(id: &str, email: &str) -> CustomerResponse {
    CustomerResponse {
        created_at: "2024-01-01T00:00:00Z".to_string(),
        creation_source: "THIRD_PARTY".to_string(),
        email_address: email.to_string(),
        family_name: "Doe".to_string(),
        given_name: "Jo".to_string(),
        id: id.to_string(),
        preferences: Preferences { email_unsubscribed: false },
        updated_at: "2024-01-01T00:00:00Z".to_string(),
        version: 0,
        cards: None,
    }
}

fn remote_error(code: &str) -> SquareErrorResponse {
    SquareErrorResponse {
        errors: vec![SquareError {
            category: "INVALID_REQUEST_ERROR".to_string(),
            code: code.to_string(),
            detail: "rejected".to_string(),
            field: "".to_string(),
        }],
    }
}

#[test]
fn customer_lookup_without_email_makes_no_request() {
    let requests_issued: u32 = match plan_customer_search(&None) {
        CustomerSearchPlan::NoEmail => 0,
        CustomerSearchPlan::Search(_) => 1,
    };
    assert_eq!(requests_issued, 0);
}

#[test]
fn customer_lookup_with_email_searches_exactly_that_email() {
    match plan_customer_search(&Some("a@x.com".to_string())) {
        CustomerSearchPlan::NoEmail => panic!("an email must produce a search"),
        CustomerSearchPlan::Search(req) => {
            assert_eq!(req.query.filter.email_address.exact, "a@x.com");
        }
    }
}

#[test]
fn search_request_builder() {
    let req = SearchCustomerRequest::new("b@y.org".to_string());
    assert_eq!(req.query.filter.email_address.exact, "b@y.org");
}

#[test]
fn update_flow_updates_existing_customer_in_place() {
    let (flow, search) = UpdateCustomerFlow::start(customer_request("a@x.com"));
    assert_eq!(search.query.filter.email_address.exact, "a@x.com");
    let found = SearchCustomerResponse { customers: vec![customer_record("CUST1", "a@x.com")] };
    let flow = flow.on_search_result(SquareResponse::Success(found));
    match &flow {
        UpdateCustomerFlow::Updating { customer_id, request } => {
            assert_eq!(customer_id, "CUST1");
            assert_eq!(request.email_address, "a@x.com");
        }
        _ => panic!("a found customer must be updated in place"),
    }
    let updated = UpdateCustomerResponse { customer: customer_record("CUST1", "a@x.com") };
    match flow.on_update_result(SquareResponse::Success(updated)) {
        UpdateCustomerFlow::Complete { customer } => assert_eq!(customer.id, "CUST1"),
        _ => panic!("a successful update must complete the flow"),
    }
}

#[test]
fn update_flow_surfaces_remote_error() {
    let (flow, _) = UpdateCustomerFlow::start(customer_request("a@x.com"));
    match flow.on_search_result(SquareResponse::Error(remote_error("UNAUTHORIZED"))) {
        UpdateCustomerFlow::Failed { error } => {
            assert_eq!(error.errors[0].code, "UNAUTHORIZED");
        }
        _ => panic!("a remote error must fail the flow"),
    }
}

#[test]
fn end_to_end_create_and_ledger_scenario() {
    // Creating a customer for a new email: the search comes back empty.
    let (flow, _search) = UpdateCustomerFlow::start(customer_request("a@x.com"));
    let flow = flow.on_search_result(SquareResponse::Success(SearchCustomerResponse {
        customers: vec![],
    }));
    assert!(matches!(flow, UpdateCustomerFlow::Creating { .. }));
    let flow =
        flow.on_create_result(SquareResponse::Success(customer_record("CUST1", "a@x.com")));

    // The fresh customer's ledger auto-initializes to (0, 0, 0).
    let init_writes = flow.ledger_init_requests();
    assert_eq!(init_writes.len(), 3);
    for w in &init_writes {
        assert_eq!(w.custom_attribute.value, "0");
    }
    assert_eq!(init_writes[0].custom_attribute.key, "sessions");
    assert_eq!(init_writes[1].custom_attribute.key, "sessions_credited");
    assert_eq!(init_writes[2].custom_attribute.key, "sessions_debited");
    let flow = flow.on_ledger_initialized();
    assert!(matches!(flow, UpdateCustomerFlow::Complete { .. }));

    // Reading the ledger back through the stored string values.
    let snapshot = LedgerSnapshot::from_readings(
        &Some(init_writes[0].custom_attribute.value.clone()),
        &Some(init_writes[1].custom_attribute.value.clone()),
        &Some(init_writes[2].custom_attribute.value.clone()),
    );
    let info = match decide_ledger_read("a@x.com".to_string(), &snapshot) {
        LedgerReadDecision::Ready(info) => info,
        LedgerReadDecision::InitializeAllToZero => panic!("ledger was just initialized"),
    };
    assert_eq!((info.sessions, info.sessions_credited, info.sessions_debited), (0, 0, 0));

    // Credit five sessions.
    let credit = SessionsInfoUpdate {
        sessions: DeltaSessions::Increment(5),
        sessions_credited: DeltaSessions::Increment(5),
        sessions_debited: DeltaSessions::Increment(0),
    };
    let info = credit.apply(&info);
    assert_eq!((info.sessions, info.sessions_credited, info.sessions_debited), (5, 5, 0));

    // The three independent attribute writes carry the new values.
    let writes = ledger_write_requests(&info);
    let values: Vec<&str> = writes.iter().map(|w| w.custom_attribute.value.as_str()).collect();
    assert_eq!(values, vec!["5", "5", "0"]);

    // Read back, then debit seven: the balance clamps at zero.
    let snapshot = LedgerSnapshot::from_readings(
        &Some(writes[0].custom_attribute.value.clone()),
        &Some(writes[1].custom_attribute.value.clone()),
        &Some(writes[2].custom_attribute.value.clone()),
    );
    let info = match decide_ledger_read("a@x.com".to_string(), &snapshot) {
        LedgerReadDecision::Ready(info) => info,
        LedgerReadDecision::InitializeAllToZero => panic!("ledger must be readable"),
    };
    let debit = SessionsInfoUpdate {
        sessions: DeltaSessions::Decrement(7),
        sessions_credited: DeltaSessions::Increment(0),
        sessions_debited: DeltaSessions::Increment(0),
    };
    let info = debit.apply(&info);
    assert_eq!((info.sessions, info.sessions_credited, info.sessions_debited), (0, 5, 0));
}

#[test]
fn coaching_checkout_builds_order_for_matching_variation() {
    let catalog = CatalogRequest::new_coaching_catalog(CoachingCatalogBuilder {
        id: "#coaching".to_string(),
        name: "Coaching".to_string(),
        single_session_price: 10000,
        three_session_price: 27000,
        six_session_price: 48000,
        ten_session_price: 70000,
    });
    let item = catalog.object.item_data.expect("item data must be present");
    let customer = customer_record("CUST1", "a@x.com");

    let request = coaching_checkout_request(
        &CoachingPackage::Three,
        Some(&customer),
        &item,
        "LOC1".to_string(),
        "https://example.test/thanks".to_string(),
    )
    .expect("a matching variation must yield a checkout");
    let order = request.order.expect("order must be present");
    assert_eq!(order.customer_id, "CUST1");
    assert_eq!(order.location_id, "LOC1");
    assert_eq!(order.line_items[0].catalog_object_id, "#3_session");
    assert_eq!(order.line_items[0].quantity, "1");

    let missing_customer = coaching_checkout_request(
        &CoachingPackage::Three,
        None,
        &item,
        "LOC1".to_string(),
        "https://example.test/thanks".to_string(),
    );
    assert!(matches!(missing_customer, Err(ApiFailure::NotFound)));
}

#[test]
fn provisioning_saga_success_path() {
    let (saga, plan_request) = CatalogProvisioning::start(SubscriptionCatalogBuilder {
        id: "#plan".to_string(),
        name: "Monthly".to_string(),
        price: 2500,
    });
    assert_eq!(plan_request.object.type_, "SUBSCRIPTION_PLAN");
    let plan = CatalogResponse {
        catalog_object: CatalogResponseObject {
            type_: "SUBSCRIPTION_PLAN".to_string(),
            id: "ABC123".to_string(),
            updated_at: "2024-01-01T00:00:00Z".to_string(),
            created_at: "2024-01-01T00:00:00Z".to_string(),
            version: 1,
            present_at_all_locations: true,
            is_deleted: false,
            subscription_plan_data: Some(SubscriptionPlanData {
                name: "Monthly".to_string(),
                all_items: Some(true),
                subscription_plan_variations: None,
            }),
            item_data: None,
        },
        id_mappings: vec![],
    };
    let (saga, variation_request) = saga.on_plan_result(SquareResponse::Success(plan));
    let variation_request = variation_request.expect("plan success must yield a second request");
    assert_eq!(
        variation_request
            .object
            .subscription_plan_variation_data
            .expect("variation data must be present")
            .subscription_plan_id,
        "ABC123"
    );
    assert!(matches!(saga, CatalogProvisioning::CreatingVariation { .. }));
}

#[test]
fn provisioning_saga_reports_orphaned_plan() {
    let (saga, _) = CatalogProvisioning::start(SubscriptionCatalogBuilder {
        id: "#plan".to_string(),
        name: "Monthly".to_string(),
        price: 2500,
    });
    let plan = CatalogResponse {
        catalog_object: CatalogResponseObject {
            type_: "SUBSCRIPTION_PLAN".to_string(),
            id: "ABC123".to_string(),
            updated_at: "2024-01-01T00:00:00Z".to_string(),
            created_at: "2024-01-01T00:00:00Z".to_string(),
            version: 1,
            present_at_all_locations: true,
            is_deleted: false,
            subscription_plan_data: None,
            item_data: None,
        },
        id_mappings: vec![],
    };
    let (saga, _) = saga.on_plan_result(SquareResponse::Success(plan));
    match saga.on_variation_result(SquareResponse::Error(remote_error("CONFLICT"))) {
        CatalogProvisioning::PlanOrphaned { plan_id, error } => {
            assert_eq!(plan_id, "ABC123");
            assert_eq!(error.errors[0].code, "CONFLICT");
        }
        _ => panic!("a failed variation call must surface the orphaned plan"),
    }
}

#[test]
fn email_roster_deduplicates_by_address_keeping_first_names() {
    let mk = |email: &str, family: &str, given: &str| CustomerEmailInfo {
        email_address: email.to_string(),
        family_name: family.to_string(),
        given_name: given.to_string(),
    };
    let roster = dedup_by_email(vec![
        mk("a@x.com", "Doe", "Jo"),
        mk("b@y.org", "Roe", "Sam"),
        mk("a@x.com", "Other", "Name"),
        mk("c@z.net", "Poe", "Kim"),
        mk("b@y.org", "Shadow", "Copy"),
    ]);
    assert_eq!(roster.len(), 3);
    assert_eq!(roster[0].email_address, "a@x.com");
    assert_eq!(roster[0].family_name, "Doe");
    assert_eq!(roster[0].given_name, "Jo");
    assert_eq!(roster[1].email_address, "b@y.org");
    assert_eq!(roster[1].family_name, "Roe");
    assert_eq!(roster[2].email_address, "c@z.net");
}

#[test]
fn email_roster_empty_input() {
    assert!(dedup_by_email(vec![]).is_empty());
}

#[test]
fn envelope_decisions() {
    assert!(status_is_success(200));
    assert!(!status_is_success(404));
    assert!(!status_is_success(500));

    let ok: SquareResponse<u32> = SquareResponse::Success(5);
    assert!(ok.is_success());
    assert_eq!(ok.into_result().ok(), Some(5));

    let err: SquareResponse<u32> = SquareResponse::Error(remote_error("NOT_FOUND"));
    assert!(!err.is_success());
    match err.into_result() {
        Err(ApiFailure::RemoteBusinessError(body)) => {
            assert_eq!(body.errors[0].code, "NOT_FOUND");
        }
        _ => panic!("an error body must stay inspectable"),
    }
}

#[test]
fn successful_fetches_are_kept_in_order() {
    let outcomes: Vec<SquareResponse<u32>> = vec![
        SquareResponse::Success(1),
        SquareResponse::Error(remote_error("GONE")),
        SquareResponse::Success(3),
    ];
    assert_eq!(collect_successes(outcomes), vec![1, 3]);
}

#[test]
fn first_customer_and_ids() {
    let empty = SearchCustomerResponse { customers: vec![] };
    assert!(empty.first_customer().is_none());
    let found = SearchCustomerResponse {
        customers: vec![customer_record("CUST1", "a@x.com"), customer_record("CUST2", "b@y.org")],
    };
    assert_eq!(found.first_customer().expect("nonempty").id, "CUST1");

    let listing = CustomerListResponse {
        customers: vec![customer_record("CUST1", "a@x.com"), customer_record("CUST2", "b@y.org")],
    };
    assert_eq!(listing.customer_ids(), vec!["CUST1".to_string(), "CUST2".to_string()]);
}

#[test]
fn customer_info_projection() {
    let info = customer_record("CUST1", "a@x.com").to_customer_info();
    assert_eq!(info.email_address, "a@x.com");
    assert_eq!(info.family_name, "Doe");
    assert_eq!(info.given_name, "Jo");
    assert!(info.cards.is_none());
}

#[test]
fn customer_info_projects_cards() {
    let mut customer = customer_record("CUST1", "a@x.com");
    customer.cards = Some(vec![squarepay::customer::Card {
        id: "CARD1".to_string(),
        card_brand: "VISA".to_string(),
        last_4: "1111".to_string(),
        exp_month: 12,
        exp_year: 2027,
        cardholder_name: "Jo Doe".to_string(),
        billing_address: empty_address(),
    }]);
    let info = customer.to_customer_info();
    let cards = info.cards.expect("cards must carry over");
    assert_eq!(cards.len(), 1);
    assert_eq!(cards[0].card_brand, "VISA");
    assert_eq!(cards[0].last_4, "1111");
    assert_eq!(cards[0].exp_month, 12);
    assert_eq!(cards[0].exp_year, 2027);
    assert_eq!(cards[0].cardholder_name, "Jo Doe");
}

#[test]
fn subscription_dates_projection() {
    let sub = squarepay::subscription::SubscriptionResponseObject {
        actions: None,
        buyer_self_management_token: "tok".to_string(),
        canceled_date: None,
        card_id: None,
        charged_through_date: Some("2025-03-01".to_string()),
        created_at: "2024-01-01T00:00:00Z".to_string(),
        customer_id: "CUST1".to_string(),
        id: "SUB1".to_string(),
        invoice_ids: None,
        location_id: "LOC1".to_string(),
        order_template_id: "ORD1".to_string(),
        phases: None,
        plan_variation_id: "VAR1".to_string(),
        source: Source { name: "app".to_string() },
        start_date: "2024-02-01".to_string(),
        status: "ACTIVE".to_string(),
        timezone: "UTC".to_string(),
        version: 2,
        tax_percentage: None,
        price_override_money: None,
    };
    let info = sub.to_user_subscription_info();
    assert_eq!(info.start_date, "2024-02-01");
    assert_eq!(info.charged_through_date, Some("2025-03-01".to_string()));
    assert_eq!(info.canceled_date, None);

    let found = squarepay::subscription::SubscriptionSearchResponse {
        subscriptions: vec![sub],
    };
    assert_eq!(found.first_subscription().expect("nonempty").id, "SUB1");
    let none = squarepay::subscription::SubscriptionSearchResponse { subscriptions: vec![] };
    assert!(none.first_subscription().is_none());
}

#[test]
fn email_roster_collapses_repeated_address() {
    let entry = CustomerEmailInfo {
        email_address: "a@x.com".to_string(),
        family_name: "Doe".to_string(),
        given_name: "Jo".to_string(),
    };
    let roster = dedup_by_email(vec![entry.clone(), entry.clone(), entry.clone()]);
    assert_eq!(roster.len(), 1);
    assert_eq!(roster[0].email_address, "a@x.com");
}

#[test]
fn attribute_write_request_encodes_value() {
    let req = UpdateCustomerAttributeRequest::new("sessions".to_string(), 37);
    assert_eq!(req.custom_attribute.key, "sessions");
    assert_eq!(req.custom_attribute.value, "37");
    assert_eq!(req.idempotency_key.len(), 36);
}

#[test]
fn attribute_definition_request_uses_number_schema() {
    let req = CreateCustomAttributeRequest::new("sessions".to_string());
    assert_eq!(req.custom_attribute_definition.key, "sessions");
    assert!(req.custom_attribute_definition.schema.reference.ends_with("squareup.common.Number"));
    assert_eq!(req.idempotency_key.len(), 36);
}

#[test]
fn subscription_search_and_create_requests() {
    let search = SearchSubscriptionsRequest::new("CUST1".to_string());
    assert_eq!(search.query.filter.customer_ids, vec!["CUST1".to_string()]);

    let create =
        SubscriptionRequest::new("CUST1".to_string(), "LOC1".to_string(), "VAR1".to_string());
    assert_eq!(create.customer_id, "CUST1");
    assert_eq!(create.location_id, "LOC1");
    assert_eq!(create.plan_variation_id, "VAR1");
    assert!(create.phases.is_none());
    assert_eq!(create.idempotency_key.len(), 36);
}

#[test]
fn card_request_joins_names() {
    let req = CardRequest::new(CardBuilder {
        customer: customer_request("a@x.com"),
        customer_id: "CUST1".to_string(),
    });
    assert_eq!(req.card.cardholder_name, "Jo Doe");
    assert_eq!(req.card.customer_id, "CUST1");
    assert_eq!(req.card.reference_id, "a@x.com");
    assert_eq!(req.source_id, "ccof:customer-card-id-ok");
    assert_eq!(req.idempotency_key.len(), 36);
}

#[test]
fn webhook_registration_request() {
    let req = CreateWebhookRequest::new(
        "https://example.test/hooks".to_string(),
        "2023-10-18".to_string(),
    );
    assert_eq!(req.subscription.name, "Order Fulfillment Webhook");
    assert_eq!(req.subscription.event_types, vec!["order.fulfillment.updated".to_string()]);
    assert_eq!(req.subscription.notification_url, "https://example.test/hooks");
    assert_eq!(req.subscription.api_version, "2023-10-18");
    assert_eq!(req.idempotency_key.len(), 36);
}

#[test]
fn location_lookup_finds_configured_id() {
    let mk = |id: &str| squarepay::location::LocationResponse {
        id: id.to_string(),
        name: "Studio".to_string(),
        address: empty_address(),
        timezone: "UTC".to_string(),
        capabilities: vec!["CREDIT_CARD_PROCESSING".to_string()],
        status: "ACTIVE".to_string(),
        created_at: "2024-01-01T00:00:00Z".to_string(),
        merchant_id: "M1".to_string(),
        country: "US".to_string(),
        language_code: "en-US".to_string(),
        currency: "USD".to_string(),
        business_name: "Studio".to_string(),
        type_: "PHYSICAL".to_string(),
        business_hours: squarepay::location::BusinessHours {},
        mcc: "7299".to_string(),
    };
    let list = LocationListResponse { locations: vec![mk("LOC0"), mk("LOC1")] };
    assert_eq!(list.find_location_index(&"LOC1".to_string()), Some(1));
    assert_eq!(list.find_location_index(&"MISSING".to_string()), None);
}
