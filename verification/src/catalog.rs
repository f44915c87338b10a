//! Catalog provisioning: subscription plans and coaching packages.
//!
//! A subscription catalog is two linked objects. The first call creates a
//! plan under a client-supplied temporary id and yields a permanent id;
//! the second creates a monthly-priced plan variation whose
//! `subscription_plan_id` must equal that permanent id — a hard
//! create-order dependency. A coaching catalog is one item carrying four
//! fixed-price variations, one per package.

use vstd::prelude::*;
use crate::coaching::{spec_package_name, CoachingPackage};
use crate::common::{Price, Pricing};
use crate::idempotency::fresh_idempotency_key;

verus! {

/// The inputs of a subscription-catalog creation: the client-supplied
/// temporary id, the plan's display name, and the monthly price in minor
/// units.
#[derive(Clone, Debug)]
pub struct SubscriptionCatalogBuilder {
    pub id: String,
    pub name: String,
    pub price: u64,
}

/// The inputs of a coaching-catalog creation: one price per package, in
/// minor units.
#[derive(Clone, Debug)]
pub struct CoachingCatalogBuilder {
    pub id: String,
    pub name: String,
    pub single_session_price: u64,
    pub three_session_price: u64,
    pub six_session_price: u64,
    pub ten_session_price: u64,
}

/// One billing phase of a subscription plan variation.
#[derive(Clone, Debug)]
pub struct Phase {
    pub uid: Option<String>,
    pub cadence: String,
    pub ordinal: Option<u32>,
    pub periods: Option<u32>,
    pub pricing: Pricing,
}

/// The plan arm of a catalog object.
#[derive(Clone, Debug)]
pub struct SubscriptionPlanData {
    pub name: String,
    pub all_items: Option<bool>,
    pub subscription_plan_variations: Option<Vec<SubscriptionPlanResponseObject>>,
}

/// The item arm of a catalog object: a sellable item and its variations.
#[derive(Clone, Debug)]
pub struct ItemData {
    pub abbreviation: Option<String>,
    pub description: Option<String>,
    pub name: Option<String>,
    pub variations: Option<Vec<Variation>>,
    pub description_html: Option<String>,
    pub description_plaintext: Option<String>,
    pub is_archived: Option<bool>,
    pub is_taxable: Option<bool>,
    pub product_type: Option<String>,
    pub tax_ids: Option<Vec<String>>,
    pub channels: Option<Vec<String>>,
    pub ecom_available: Option<bool>,
    pub ecom_visibility: Option<String>,
    pub image_ids: Option<Vec<String>>,
    pub visibility: Option<String>,
    pub skip_modifier_screen: Option<bool>,
}

impl ItemData {
    /// The index of the first item variation filed under the package's
    /// display name, or `None` when no variation matches. A missing match
    /// is reported to the caller as a recoverable absence, never a fatal
    /// abort.
    pub fn find_package_variation(&self, package: &CoachingPackage) -> (r: Option<usize>)
        ensures
            match r {
                Some(k) => self.variations matches Some(vs) && 0 <= k < vs@.len()
                    && vs@[k as int].item_variation_data.name@ == spec_package_name(*package)
                    && forall|j: int| 0 <= j < k ==> vs@[j].item_variation_data.name@
                        != spec_package_name(*package),
                None => match self.variations {
                    Some(vs) => forall|j: int| 0 <= j < vs@.len()
                        ==> vs@[j].item_variation_data.name@ != spec_package_name(*package),
                    None => true,
                },
            },
    {
        let want = package.name();
        match &self.variations {
            None => None,
            Some(vs) => {
                let mut i: usize = 0;
                while i < vs.len()
                    invariant
                        0 <= i <= vs@.len(),
                        self.variations == Some(*vs),
                        want@ == spec_package_name(*package),
                        forall|j: int| 0 <= j < i ==> vs@[j].item_variation_data.name@
                            != spec_package_name(*package),
                    decreases vs@.len() - i,
                {
                    if vs[i].item_variation_data.name == want {
                        return Some(i);
                    }
                    i = i + 1;
                }
                None
            }
        }
    }
}

/// One item variation inside an item's catalog object.
#[derive(Clone, Debug)]
pub struct Variation {
    pub id: String,
    pub type_: String,
    pub item_variation_data: ItemVariationData,
    pub created_at: Option<String>,
    pub updated_at: Option<String>,
    pub present_at_all_locations: Option<bool>,
    pub version: Option<u64>,
    pub is_deleted: Option<bool>,
}

/// The priced payload of an item variation.
#[derive(Clone, Debug)]
pub struct ItemVariationData {
    pub name: String,
    pub price_money: Price,
    pub pricing_type: String,
    pub item_id: String,
    pub sellable: Option<bool>,
    pub stockable: Option<bool>,
    pub channels: Option<Vec<String>>,
    pub location_overrides: Option<Vec<LocationOverride>>,
    pub ordinal: Option<u64>,
    pub subscription_plan_ids: Option<Vec<String>>,
    pub track_inventory: Option<bool>,
}

/// A per-location inventory override on an item variation.
#[derive(Clone, Debug)]
pub struct LocationOverride {
    pub location_id: String,
    pub track_inventory: bool,
}

/// The variation arm of a catalog object: name, phases and the id of the
/// plan it belongs to.
#[derive(Clone, Debug)]
pub struct SubscriptionPlanVariationData {
    pub name: String,
    pub phases: Vec<Phase>,
    pub subscription_plan_id: String,
}

/// One catalog object to be created: exactly one of the three data arms
/// is populated, according to `type_`.
#[derive(Clone, Debug)]
pub struct CatalogRequestObject {
    pub present_at_all_locations: Option<bool>,
    pub type_: String,
    pub id: String,
    pub subscription_plan_data: Option<SubscriptionPlanData>,
    pub subscription_plan_variation_data: Option<SubscriptionPlanVariationData>,
    pub item_data: Option<ItemData>,
}

/// The body of a create-catalog-object call.
#[derive(Clone, Debug)]
pub struct CatalogRequest {
    pub object: CatalogRequestObject,
    pub idempotency_key: String,
}

impl CatalogRequest {
    /// The first call of subscription provisioning: a plan object under
    /// the client-supplied temporary id, carrying the display name only.
    pub fn new_subscription_catalog(request: SubscriptionCatalogBuilder) -> (r: CatalogRequest)
        ensures
            r.idempotency_key@.len() == 36,
            r.object.present_at_all_locations == Some(true),
            r.object.type_@ == "SUBSCRIPTION_PLAN"@,
            r.object.id == request.id,
            r.object.subscription_plan_data matches Some(d) && d.name == request.name
                && d.all_items == Some(true) && d.subscription_plan_variations is None,
            r.object.subscription_plan_variation_data is None,
            r.object.item_data is None,
    {
        CatalogRequest {
            object: CatalogRequestObject {
                present_at_all_locations: Some(true),
                type_: "SUBSCRIPTION_PLAN".to_owned(),
                id: request.id,
                subscription_plan_data: Some(
                    SubscriptionPlanData {
                        name: request.name,
                        all_items: Some(true),
                        subscription_plan_variations: None,
                    },
                ),
                subscription_plan_variation_data: None,
                item_data: None,
            },
            idempotency_key: fresh_idempotency_key(),
        }
    }

    /// The single call of coaching provisioning: one item carrying four
    /// fixed-price variations, one per coaching package, each filed under
    /// the package's display name and priced independently.
    pub fn new_coaching_catalog(request: CoachingCatalogBuilder) -> (r: CatalogRequest)
        ensures
            r.idempotency_key@.len() == 36,
            r.object.present_at_all_locations == Some(true),
            r.object.type_@ == "ITEM"@,
            r.object.id == request.id,
            r.object.subscription_plan_data is None,
            r.object.subscription_plan_variation_data is None,
            r.object.item_data matches Some(d) && {
                &&& d.abbreviation matches Some(a) && a@ == "Coaching"@
                &&& d.description matches Some(de) && de@ == "Coaching with Oriana"@
                &&& d.name == Some(request.name)
                &&& d.variations matches Some(vs) && {
                    &&& vs@.len() == 4
                    &&& vs@[0].id@ == "#1_session"@
                    &&& vs@[0].item_variation_data.name@ == spec_package_name(
                        CoachingPackage::Single,
                    )
                    &&& vs@[0].item_variation_data.price_money.amount
                        == request.single_session_price
                    &&& vs@[1].id@ == "#3_session"@
                    &&& vs@[1].item_variation_data.name@ == spec_package_name(
                        CoachingPackage::Three,
                    )
                    &&& vs@[1].item_variation_data.price_money.amount
                        == request.three_session_price
                    &&& vs@[2].id@ == "#6_session"@
                    &&& vs@[2].item_variation_data.name@ == spec_package_name(
                        CoachingPackage::Six,
                    )
                    &&& vs@[2].item_variation_data.price_money.amount == request.six_session_price
                    &&& vs@[3].id@ == "#10_session"@
                    &&& vs@[3].item_variation_data.name@ == spec_package_name(
                        CoachingPackage::Ten,
                    )
                    &&& vs@[3].item_variation_data.price_money.amount == request.ten_session_price
                    &&& forall|i: int| 0 <= i < 4 ==> {
                        &&& (#[trigger] vs@[i]).type_@ == "ITEM_VARIATION"@
                        &&& vs@[i].item_variation_data.pricing_type@ == "FIXED_PRICING"@
                        &&& vs@[i].item_variation_data.price_money.currency@ == "USD"@
                        &&& vs@[i].item_variation_data.item_id@ == request.id@
                    }
                }
            },
    {
        let mut variations: Vec<Variation> = Vec::new();
        variations.push(
            coaching_variation(
                "#1_session".to_owned(),
                CoachingPackage::Single.name(),
                request.single_session_price,
                request.id.clone(),
            ),
        );
        variations.push(
            coaching_variation(
                "#3_session".to_owned(),
                CoachingPackage::Three.name(),
                request.three_session_price,
                request.id.clone(),
            ),
        );
        variations.push(
            coaching_variation(
                "#6_session".to_owned(),
                CoachingPackage::Six.name(),
                request.six_session_price,
                request.id.clone(),
            ),
        );
        variations.push(
            coaching_variation(
                "#10_session".to_owned(),
                CoachingPackage::Ten.name(),
                request.ten_session_price,
                request.id.clone(),
            ),
        );
        CatalogRequest {
            object: CatalogRequestObject {
                present_at_all_locations: Some(true),
                type_: "ITEM".to_owned(),
                id: request.id,
                subscription_plan_data: None,
                subscription_plan_variation_data: None,
                item_data: Some(
                    ItemData {
                        abbreviation: Some("Coaching".to_owned()),
                        description: Some("Coaching with Oriana".to_owned()),
                        name: Some(request.name),
                        variations: Some(variations),
                        description_html: None,
                        description_plaintext: None,
                        is_archived: None,
                        is_taxable: None,
                        product_type: None,
                        tax_ids: None,
                        channels: None,
                        ecom_available: None,
                        ecom_visibility: None,
                        image_ids: None,
                        visibility: None,
                        skip_modifier_screen: None,
                    },
                ),
            },
            idempotency_key: fresh_idempotency_key(),
        }
    }
}

/// One fixed-price item variation for a coaching package.
fn coaching_variation(id: String, name: String, price: u64, item_id: String) -> (r: Variation)
    ensures
        r.id == id,
        r.type_@ == "ITEM_VARIATION"@,
        r.item_variation_data.name == name,
        r.item_variation_data.price_money.amount == price,
        r.item_variation_data.price_money.currency@ == "USD"@,
        r.item_variation_data.pricing_type@ == "FIXED_PRICING"@,
        r.item_variation_data.item_id == item_id,
{
    Variation {
        id,
        type_: "ITEM_VARIATION".to_owned(),
        item_variation_data: ItemVariationData {
            name,
            price_money: Price { amount: price, currency: "USD".to_owned() },
            pricing_type: "FIXED_PRICING".to_owned(),
            item_id,
            sellable: None,
            stockable: None,
            channels: None,
            location_overrides: None,
            ordinal: None,
            subscription_plan_ids: None,
            track_inventory: None,
        },
        created_at: None,
        updated_at: None,
        present_at_all_locations: None,
        version: None,
        is_deleted: None,
    }
}

/// The body of a successful create-catalog-object call.
#[derive(Clone, Debug)]
pub struct CatalogResponse {
    pub catalog_object: CatalogResponseObject,
    pub id_mappings: Vec<IdMapping>,
}

impl CatalogResponse {
    /// The second call of subscription provisioning: a monthly plan
    /// variation priced in minor units whose `subscription_plan_id` is
    /// exactly the permanent id the plan-create call returned.
    pub fn subscription_plan(&self, request: SubscriptionCatalogBuilder) -> (r: CatalogRequest)
        ensures
            r.idempotency_key@.len() == 36,
            r.object.present_at_all_locations == Some(true),
            r.object.type_@ == "SUBSCRIPTION_PLAN_VARIATION"@,
            r.object.id == request.id,
            r.object.subscription_plan_data is None,
            r.object.item_data is None,
            r.object.subscription_plan_variation_data matches Some(v) && {
                &&& v.name == request.name
                &&& v.subscription_plan_id == self.catalog_object.id
                &&& v.phases@.len() == 1
                &&& v.phases@[0].cadence@ == "MONTHLY"@
                &&& v.phases@[0].uid is None
                &&& v.phases@[0].ordinal is None
                &&& v.phases@[0].periods is None
                &&& v.phases@[0].pricing.type_@ == "STATIC"@
                &&& v.phases@[0].pricing.price is None
                &&& v.phases@[0].pricing.price_money matches Some(p) && p.amount == request.price
                    && p.currency@ == "USD"@
            },
    {
        let mut phases: Vec<Phase> = Vec::new();
        phases.push(
            Phase {
                uid: None,
                cadence: "MONTHLY".to_owned(),
                ordinal: None,
                periods: None,
                pricing: Pricing {
                    type_: "STATIC".to_owned(),
                    price: None,
                    price_money: Some(Price { amount: request.price, currency: "USD".to_owned() }),
                },
            },
        );
        CatalogRequest {
            object: CatalogRequestObject {
                present_at_all_locations: Some(true),
                type_: "SUBSCRIPTION_PLAN_VARIATION".to_owned(),
                id: request.id,
                subscription_plan_data: None,
                subscription_plan_variation_data: Some(
                    SubscriptionPlanVariationData {
                        name: request.name,
                        phases,
                        subscription_plan_id: self.catalog_object.id.clone(),
                    },
                ),
                item_data: None,
            },
            idempotency_key: fresh_idempotency_key(),
        }
    }
}

/// One catalog object as returned by the platform.
#[derive(Clone, Debug)]
pub struct CatalogResponseObject {
    pub type_: String,
    pub id: String,
    pub updated_at: String,
    pub created_at: String,
    pub version: u64,
    pub present_at_all_locations: bool,
    pub is_deleted: bool,
    pub subscription_plan_data: Option<SubscriptionPlanData>,
    pub item_data: Option<ItemData>,
}

/// Whether a listed plan object carries at least one plan variation.
pub open spec fn spec_has_subscription_variation(c: CatalogResponseObject) -> bool {
    c.subscription_plan_data matches Some(d) && d.subscription_plan_variations matches Some(vs)
        && vs@.len() > 0
}

impl CatalogResponseObject {
    /// The id of the first plan variation under this plan object. By
    /// construction the provisioned plan carries exactly one variation;
    /// its absence is reported, never assumed away.
    pub fn first_variation_id(&self) -> (r: Option<String>)
        ensures
            r is Some <==> spec_has_subscription_variation(*self),
            r matches Some(id) ==> id
                == (self.subscription_plan_data->0.subscription_plan_variations->0)@[0].id,
    {
        match &self.subscription_plan_data {
            None => None,
            Some(d) => match &d.subscription_plan_variations {
                None => None,
                Some(vs) => {
                    if vs.len() == 0 {
                        None
                    } else {
                        Some(vs[0].id.clone())
                    }
                }
            },
        }
    }
}

/// The mapping from a client-supplied temporary id to the permanent id
/// the platform assigned.
#[derive(Clone, Debug)]
pub struct IdMapping {
    pub client_object_id: String,
    pub object_id: String,
}

/// The body of a successful plan-variation creation.
#[derive(Clone, Debug)]
pub struct SubscriptionPlanResponse {
    pub catalog_object: SubscriptionPlanResponseObject,
    pub id_mappings: Vec<IdMapping>,
}

/// One plan variation as returned by the platform.
#[derive(Clone, Debug)]
pub struct SubscriptionPlanResponseObject {
    pub created_at: String,
    pub id: String,
    pub is_deleted: bool,
    pub present_at_all_locations: bool,
    pub subscription_plan_variation_data: SubscriptionPlanVariationData,
    pub type_: String,
    pub updated_at: String,
    pub version: u64,
}

/// The listing of plan variations.
#[derive(Clone, Debug)]
pub struct SubscriptionPlanListResponse {
    pub objects: Vec<SubscriptionPlanResponseObject>,
}

/// The listing of catalog objects of one type.
#[derive(Clone, Debug)]
pub struct CatalogListResponse {
    pub objects: Vec<CatalogResponseObject>,
}

impl CatalogListResponse {
    /// The index of the first listed object carrying the configured
    /// catalog id, or `None` when no object matches. Catalogs are small
    /// and static after provisioning, so a linear scan suffices.
    pub fn find_catalog_index(&self, id: &String) -> (r: Option<usize>)
        ensures
            match r {
                Some(k) => 0 <= k < self.objects@.len() && self.objects@[k as int].id@ == id@
                    && forall|j: int| 0 <= j < k ==> self.objects@[j].id@ != id@,
                None => forall|j: int| 0 <= j < self.objects@.len() ==> self.objects@[j].id@
                    != id@,
            },
    {
        let mut i: usize = 0;
        while i < self.objects.len()
            invariant
                0 <= i <= self.objects@.len(),
                forall|j: int| 0 <= j < i ==> self.objects@[j].id@ != id@,
            decreases self.objects@.len() - i,
        {
            if self.objects[i].id == *id {
                return Some(i);
            }
            i = i + 1;
        }
        None
    }
}

} // verus!
