//! The merchant's locations, and the lookup of the configured one.

use vstd::prelude::*;

verus! {

/// A postal address, all parts optional.
#[derive(Clone, Debug)]
pub struct Address {
    pub address_line_1: Option<String>,
    pub address_line_2: Option<String>,
    pub locality: Option<String>,
    pub administrative_district_level_1: Option<String>,
    pub postal_code: Option<String>,
    pub country: Option<String>,
}

/// Business hours as reported by the platform; carries no fields that
/// this engine reads.
#[derive(Clone, Debug)]
pub struct BusinessHours {}

/// One merchant location.
#[derive(Clone, Debug)]
pub struct LocationResponse {
    pub id: String,
    pub name: String,
    pub address: Address,
    pub timezone: String,
    pub capabilities: Vec<String>,
    pub status: String,
    pub created_at: String,
    pub merchant_id: String,
    pub country: String,
    pub language_code: String,
    pub currency: String,
    pub business_name: String,
    pub type_: String,
    pub business_hours: BusinessHours,
    pub mcc: String,
}

/// The full location listing.
#[derive(Clone, Debug)]
pub struct LocationListResponse {
    pub locations: Vec<LocationResponse>,
}

impl LocationListResponse {
    /// The index of the first location carrying the configured id, or
    /// `None` when no location matches.
    pub fn find_location_index(&self, id: &String) -> (r: Option<usize>)
        ensures
            match r {
                Some(k) => 0 <= k < self.locations@.len() && self.locations@[k as int].id@ == id@
                    && forall|j: int| 0 <= j < k ==> self.locations@[j].id@ != id@,
                None => forall|j: int|
                    0 <= j < self.locations@.len() ==> self.locations@[j].id@ != id@,
            },
    {
        let mut i: usize = 0;
        while i < self.locations.len()
            invariant
                0 <= i <= self.locations@.len(),
                forall|j: int| 0 <= j < i ==> self.locations@[j].id@ != id@,
            decreases self.locations@.len() - i,
        {
            if self.locations[i].id == *id {
                return Some(i);
            }
            i = i + 1;
        }
        None
    }
}

} // verus!
