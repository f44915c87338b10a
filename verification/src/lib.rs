//! Verified core of a payments and subscription orchestration engine.
//!
//! The library models the request/response surface of a remote payments
//! platform and proves the decision logic that drives it: customer
//! resolution, catalog provisioning, checkout construction, subscription
//! lifecycle, and a per-customer session-credit ledger. All network I/O
//! lives outside the library; callers feed responses back in as plain
//! values and the library decides the next step.

pub mod card;
pub mod catalog;
pub mod checkout;
pub mod coaching;
pub mod common;
pub mod config;
pub mod customer;
pub mod dates;
pub mod digits;
pub mod endpoints;
pub mod error;
mod idempotency;
pub mod invoice;
pub mod ledger;
pub mod location;
pub mod order;
pub mod provisioning;
pub mod resolver;
pub mod subscription;
pub mod webhook;
