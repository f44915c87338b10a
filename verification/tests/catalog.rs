use squarepay::catalog::{
    CatalogListResponse, CatalogResponse, CatalogResponseObject, CoachingCatalogBuilder,
    CatalogRequest, ItemData, SubscriptionCatalogBuilder, SubscriptionPlanResponseObject,
    SubscriptionPlanData, SubscriptionPlanVariationData,
};
use squarepay::checkout::{
    CheckoutRequest, CheckoutResponse, CoachingCheckoutBuilder, NetAmounts, OrderResponse,
    PaymentLink, RelatedResources, SubscriptionCheckoutBuilder,
};
use squarepay::coaching::CoachingPackage;
use squarepay::common::{Price, Pricing, Source};

fn usd(amount: u64) -> Price {
    Price { amount, currency: "USD".to_string() }
}

#[test]
fn subscription_catalog_request_fields() {
    let request = CatalogRequest::new_subscription_catalog(SubscriptionCatalogBuilder {
        id: "#plan".to_string(),
        name: "Monthly".to_string(),
        price: 2500,
    });
    assert_eq!(request.object.type_, "SUBSCRIPTION_PLAN");
    assert_eq!(request.object.id, "#plan");
    assert_eq!(request.object.present_at_all_locations, Some(true));
    let data = request.object.subscription_plan_data.expect("plan data must be present");
    assert_eq!(data.name, "Monthly");
    assert_eq!(data.all_items, Some(true));
    assert!(data.subscription_plan_variations.is_none());
    assert!(request.object.subscription_plan_variation_data.is_none());
    assert!(request.object.item_data.is_none());
    assert_eq!(request.idempotency_key.len(), 36);
}

fn plan_create_response(permanent_id: &str) -> CatalogResponse {
    CatalogResponse {
        catalog_object: CatalogResponseObject {
            type_: "SUBSCRIPTION_PLAN".to_string(),
            id: permanent_id.to_string(),
            updated_at: "2024-01-01T00:00:00Z".to_string(),
            created_at: "2024-01-01T00:00:00Z".to_string(),
            version: 1,
            present_at_all_locations: true,
            is_deleted: false,
            subscription_plan_data: Some(SubscriptionPlanData {
                name: "Monthly".to_string(),
                all_items: Some(true),
                subscription_plan_variations: None,
            }),
            item_data: None,
        },
        id_mappings: vec![],
    }
}

#[test]
fn catalog_round_trip_links_variation_to_plan_id() {
    let response = plan_create_response("ABC123");
    let variation_request = response.subscription_plan(SubscriptionCatalogBuilder {
        id: "#plan".to_string(),
        name: "Monthly".to_string(),
        price: 2500,
    });
    assert_eq!(variation_request.object.type_, "SUBSCRIPTION_PLAN_VARIATION");
    let data = variation_request
        .object
        .subscription_plan_variation_data
        .expect("variation data must be present");
    assert_eq!(data.subscription_plan_id, "ABC123");
    assert_eq!(data.phases.len(), 1);
    assert_eq!(data.phases[0].cadence, "MONTHLY");
    let price = data.phases[0].pricing.price_money.as_ref().expect("static price");
    assert_eq!(price.amount, 2500);
    assert_eq!(price.currency, "USD");
}

#[test]
fn coaching_catalog_has_four_priced_variations() {
    let request = CatalogRequest::new_coaching_catalog(CoachingCatalogBuilder {
        id: "#coaching".to_string(),
        name: "Coaching".to_string(),
        single_session_price: 10000,
        three_session_price: 27000,
        six_session_price: 48000,
        ten_session_price: 70000,
    });
    assert_eq!(request.object.type_, "ITEM");
    let item = request.object.item_data.expect("item data must be present");
    let variations = item.variations.expect("variations must be present");
    assert_eq!(variations.len(), 4);
    let names: Vec<&str> =
        variations.iter().map(|v| v.item_variation_data.name.as_str()).collect();
    assert_eq!(names, vec!["Single Session", "Package of 3", "Package of 6", "Package of 10"]);
    let prices: Vec<u64> =
        variations.iter().map(|v| v.item_variation_data.price_money.amount).collect();
    assert_eq!(prices, vec![10000, 27000, 48000, 70000]);
    for v in &variations {
        assert_eq!(v.type_, "ITEM_VARIATION");
        assert_eq!(v.item_variation_data.item_id, "#coaching");
        assert_eq!(v.item_variation_data.pricing_type, "FIXED_PRICING");
        assert_eq!(v.item_variation_data.price_money.currency, "USD");
    }
}

#[test]
fn package_variation_lookup_matches_display_name() {
    let request = CatalogRequest::new_coaching_catalog(CoachingCatalogBuilder {
        id: "#coaching".to_string(),
        name: "Coaching".to_string(),
        single_session_price: 10000,
        three_session_price: 27000,
        six_session_price: 48000,
        ten_session_price: 70000,
    });
    let item = request.object.item_data.expect("item data must be present");
    assert_eq!(item.find_package_variation(&CoachingPackage::Single), Some(0));
    assert_eq!(item.find_package_variation(&CoachingPackage::Ten), Some(3));

    let empty = ItemData {
        abbreviation: None,
        description: None,
        name: None,
        variations: None,
        description_html: None,
        description_plaintext: None,
        is_archived: None,
        is_taxable: None,
        product_type: None,
        tax_ids: None,
        channels: None,
        ecom_available: None,
        ecom_visibility: None,
        image_ids: None,
        visibility: None,
        skip_modifier_screen: None,
    };
    assert_eq!(empty.find_package_variation(&CoachingPackage::Six), None);
}

#[test]
fn package_names() {
    assert_eq!(CoachingPackage::Single.name(), "Single Session");
    assert_eq!(CoachingPackage::Three.name(), "Package of 3");
    assert_eq!(CoachingPackage::Six.name(), "Package of 6");
    assert_eq!(CoachingPackage::Ten.name(), "Package of 10");
}

fn listed_plan(id: &str, variation_id: Option<&str>) -> CatalogResponseObject {
    CatalogResponseObject {
        type_: "SUBSCRIPTION_PLAN".to_string(),
        id: id.to_string(),
        updated_at: "2024-01-01T00:00:00Z".to_string(),
        created_at: "2024-01-01T00:00:00Z".to_string(),
        version: 1,
        present_at_all_locations: true,
        is_deleted: false,
        subscription_plan_data: Some(SubscriptionPlanData {
            name: "Monthly".to_string(),
            all_items: Some(true),
            subscription_plan_variations: variation_id.map(|vid| {
                vec![SubscriptionPlanResponseObject {
                    created_at: "2024-01-01T00:00:00Z".to_string(),
                    id: vid.to_string(),
                    is_deleted: false,
                    present_at_all_locations: true,
                    subscription_plan_variation_data: SubscriptionPlanVariationData {
                        name: "Monthly".to_string(),
                        phases: vec![squarepay::catalog::Phase {
                            uid: None,
                            cadence: "MONTHLY".to_string(),
                            ordinal: None,
                            periods: None,
                            pricing: Pricing {
                                type_: "STATIC".to_string(),
                                price: None,
                                price_money: Some(usd(2500)),
                            },
                        }],
                        subscription_plan_id: id.to_string(),
                    },
                    type_: "SUBSCRIPTION_PLAN_VARIATION".to_string(),
                    updated_at: "2024-01-01T00:00:00Z".to_string(),
                    version: 1,
                }]
            }),
        }),
        item_data: None,
    }
}

#[test]
fn catalog_lookup_finds_configured_id() {
    let list = CatalogListResponse {
        objects: vec![listed_plan("OTHER", None), listed_plan("MINE", Some("VAR1"))],
    };
    assert_eq!(list.find_catalog_index(&"MINE".to_string()), Some(1));
    assert_eq!(list.find_catalog_index(&"MISSING".to_string()), None);
    let found = &list.objects[1];
    assert_eq!(found.first_variation_id(), Some("VAR1".to_string()));
    assert_eq!(list.objects[0].first_variation_id(), None);
}

#[test]
fn catalog_lookup_takes_first_of_equal_ids() {
    let list = CatalogListResponse {
        objects: vec![listed_plan("DUP", Some("VAR1")), listed_plan("DUP", Some("VAR2"))],
    };
    assert_eq!(list.find_catalog_index(&"DUP".to_string()), Some(0));
}

#[test]
fn subscription_checkout_request_fields() {
    let request = CheckoutRequest::new_subscription(SubscriptionCheckoutBuilder {
        name: "Monthly".to_string(),
        price: 2500,
        location_id: "LOC1".to_string(),
        subscription_plan_id: "VAR1".to_string(),
        redirect_url: "https://example.test/thanks".to_string(),
        buyer_email: Some("a@x.com".to_string()),
    });
    assert_eq!(request.idempotency_key.len(), 36);
    let quick_pay = request.quick_pay.expect("quick pay must be present");
    assert_eq!(quick_pay.name, "Monthly");
    assert_eq!(quick_pay.price_money.amount, 2500);
    assert_eq!(quick_pay.location_id, "LOC1");
    let pre = request.pre_populated_data.expect("pre-populated data must be present");
    assert_eq!(pre.buyer_email, Some("a@x.com".to_string()));
    let options = request.checkout_options.expect("options must be present");
    assert_eq!(options.subscription_plan_id, "VAR1");
    assert_eq!(options.redirect_url, Some("https://example.test/thanks".to_string()));
    assert!(request.order.is_none());
}

#[test]
fn coaching_checkout_request_fields() {
    let request = CheckoutRequest::new_coaching_package(CoachingCheckoutBuilder {
        coaching_package_id: "VAR9".to_string(),
        location_id: "LOC1".to_string(),
        customer_id: "CUST1".to_string(),
        redirect_url: "https://example.test/thanks".to_string(),
        buyer_email: Some("a@x.com".to_string()),
    });
    assert_eq!(request.idempotency_key.len(), 36);
    let order = request.order.expect("order must be present");
    assert_eq!(order.location_id, "LOC1");
    assert_eq!(order.customer_id, "CUST1");
    assert_eq!(order.line_items.len(), 1);
    assert_eq!(order.line_items[0].quantity, "1");
    assert_eq!(order.line_items[0].item_type, "ITEM");
    assert_eq!(order.line_items[0].catalog_object_id, "VAR9");
    assert!(request.quick_pay.is_none());
}

fn checkout_response(net_amount_due: u64) -> CheckoutResponse {
    CheckoutResponse {
        payment_link: PaymentLink {
            checkout_options: None,
            pre_populated_data: None,
            created_at: "2024-01-01T00:00:00Z".to_string(),
            id: "LINK1".to_string(),
            long_url: "https://pay.example.test/l/LINK1".to_string(),
            order_id: "ORDER1".to_string(),
            url: "https://pay.example.test/LINK1".to_string(),
            version: 1,
        },
        related_resources: RelatedResources {
            orders: vec![OrderResponse {
                created_at: "2024-01-01T00:00:00Z".to_string(),
                fulfillments: vec![],
                id: "ORDER1".to_string(),
                line_items: vec![],
                location_id: "LOC1".to_string(),
                net_amount_due_money: usd(net_amount_due),
                net_amounts: NetAmounts {
                    discount_money: usd(0),
                    service_charge_money: usd(0),
                    tax_money: usd(0),
                    tip_money: usd(0),
                    total_money: usd(net_amount_due),
                },
                source: Source { name: "app".to_string() },
                state: "OPEN".to_string(),
                total_discount_money: usd(0),
                total_money: usd(net_amount_due),
                total_service_charge_money: usd(0),
                total_tax_money: usd(0),
                total_tip_money: usd(0),
                updated_at: "2024-01-01T00:00:00Z".to_string(),
                version: 1,
            }],
            subscription_plans: None,
        },
    }
}

#[test]
fn checkout_amount_conversion() {
    let info = checkout_response(1295).checkout_info().expect("order must be present");
    assert_eq!(info.url, "https://pay.example.test/LINK1");
    assert_eq!(info.amount.amount, 1295);
    assert_eq!(info.amount.whole_units(), 12);
    assert_eq!(info.amount.fractional_units(), 95);
    assert_eq!(info.amount.amount as f64 / 100.0, 12.95);
}

#[test]
fn checkout_without_order_is_reported() {
    let mut response = checkout_response(1295);
    response.related_resources.orders.clear();
    assert!(response.checkout_info().is_none());
}
