//! The one-way hash under which a secret is stored.

use vstd::prelude::*;
use sha3::{Digest, Sha3_256};

verus! {

/// The SHA3-256 digest of the UTF-8 bytes of `data`, as 64 upper-case
/// hexadecimal digits.
pub uninterp spec fn sha3_256_hex(data: Seq<char>) -> Seq<char>;

/// A hexadecimal digit in upper case.
pub open spec fn is_upper_hex(c: char) -> bool {
    ('0' <= c && c <= '9') || ('A' <= c && c <= 'F')
}

/// The `sha3` crate's `Sha3_256`, fed the bytes of `data` once and
/// finalized, the digest written in upper-case hexadecimal. The result
/// depends on `data` alone; the digest has 32 bytes and is written two
/// digits a byte.
#[verifier::external_body]
pub fn get_sha3_256_hash(data: &String) -> (hash: String)
    ensures
        hash@ == sha3_256_hex(data@),
        hash@.len() == 64,
        forall|i: int| 0 <= i < 64 ==> is_upper_hex(#[trigger] hash@[i]),
{
    let mut hasher = Sha3_256::default();
    hasher.update(data);
    format!("{:X}", hasher.finalize())
}

} // verus!
