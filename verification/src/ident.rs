//! Record identifiers: 128-bit values in the layout of a UUID.

use vstd::prelude::*;

verus! {

/// The bits that mark a random UUID: version 4 and the RFC variant.
pub open spec fn is_random_uuid(id: u128) -> bool {
    id & 0x0000_0000_0000_f000_c000_0000_0000_0000u128
        == 0x0000_0000_0000_4000_8000_0000_0000_0000u128
}

/// Draws a fresh identifier with `uuid::Uuid::new_v4`.
///
/// Trusted: the value carries the version and variant bits of a random
/// UUID. The other bits are random, so nothing is claimed of them.
#[verifier::external_body]
pub(crate) fn fresh_id() -> (id: u128)
    ensures
        is_random_uuid(id),
{
    uuid::Uuid::new_v4().as_u128()
}

} // verus!
