//! Fresh idempotency keys for mutating remote requests.
//!
//! Every mutating call to the payments platform carries a client-generated
//! unique token so that a repeated delivery does not duplicate the effect.

use vstd::prelude::*;

verus! {

/// Relies on `uuid::Uuid::new_v4` and `Uuid`'s `Display` impl: a random
/// version-4 UUID rendered in the hyphenated form, which is always 36
/// ASCII characters. The value is random, so nothing more is promised
/// of it.
#[verifier::external_body]
pub(crate) fn fresh_idempotency_key() -> (r: String)
    ensures
        r@.len() == 36,
{
    uuid::Uuid::new_v4().to_string()
}

} // verus!
