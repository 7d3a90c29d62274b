//! Fresh identifiers for new records.

use vstd::prelude::*;
use uuid::Uuid;

verus! {

/// The number is that of a UUID of version 4 in the variant of RFC 4122:
/// the thirteenth hexadecimal digit is 4, and the two highest bits of the
/// seventeenth are 1 and 0.
pub open spec fn is_random_uuid(id: u128) -> bool {
    (id >> 76) & 0xf == 4 && (id >> 62) & 0x3 == 2
}

/// `Uuid::new_v4` of the `uuid` crate, as its number: random bits from the
/// operating system, but for the version and the variant. Two calls differ,
/// so no more is stated. The crate panics where the system has no random
/// bits to give.
#[verifier::external_body]
pub(crate) fn random_id() -> (id: u128)
    ensures
        is_random_uuid(id),
{
    Uuid::new_v4().as_u128()
}

} // verus!
