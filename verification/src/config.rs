//! The engine's configuration surface.
//!
//! All of it is read once at process start and treated as immutable
//! afterwards; no component mutates shared state between calls. The
//! library never reads the environment itself — the embedding process
//! assembles this record and passes it in.

use vstd::prelude::*;

verus! {

/// The process-wide remote-API configuration: where to call, how to
/// authenticate, which provisioned catalog objects to use, and how the
/// subscription and coaching offerings are priced, in minor units.
#[derive(Clone, Debug)]
pub struct SquareConfig {
    pub base_url: String,
    pub token: String,
    pub version: String,
    pub app_id: String,
    pub location_id: String,
    pub subscription_catalog_id: String,
    pub coaching_catalog_id: String,
    pub subscription_price: u64,
    pub subscription_name: String,
    pub single_session_price: u64,
    pub three_session_price: u64,
    pub six_session_price: u64,
    pub ten_session_price: u64,
    pub redirect_url: String,
    pub webhook_url: String,
}

} // verus!
