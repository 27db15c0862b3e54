//! The cryptographic primitives that block hashes and commitments rest on.

use sha2::{Digest, Sha256};
use vstd::prelude::*;

verus! {

/// The SHA-256 digest of `data`.
pub uninterp spec fn sha256_digest(data: Seq<u8>) -> Seq<u8>;

/// Hashes `data` with `sha2::Sha256::digest`.
///
/// Claimed: the 32 bytes returned are the SHA-256 digest of `data`, a
/// function of `data` alone.
#[verifier::external_body]
pub(crate) fn sha256(data: &[u8]) -> (digest: [u8; 32])
    ensures
        digest@ == sha256_digest(data@),
{
    Sha256::digest(data).into()
}

/// The integer that `bytes` encode, least significant byte first.
pub open spec fn le_value(bytes: Seq<u8>) -> nat
    decreases bytes.len(),
{
    if bytes.len() == 0 {
        0
    } else {
        bytes[0] as nat + 256 * le_value(bytes.drop_first())
    }
}

/// The modulus of the base field of the Jubjub curve (the scalar field of BLS12-381).
pub open spec fn jubjub_base_modulus() -> nat {
    0x73ed_a753_299d_7d48_3339_d808_09a1_d805_53bd_a402_fffe_5bfe_ffff_ffff_0000_0001nat
}

/// Decodes `bytes` with `jubjub::Base::from_bytes` and reports whether it
/// succeeded.
///
/// Claimed, as the function's documentation states: decoding succeeds exactly
/// when `bytes` is the canonical encoding of a field element, that is, when
/// its little-endian value is below the field modulus.
#[verifier::external_body]
pub(crate) fn is_canonical_jubjub_base(bytes: &[u8; 32]) -> (canonical: bool)
    ensures
        canonical == (le_value(bytes@) < jubjub_base_modulus()),
{
    bool::from(jubjub::Base::from_bytes(bytes).is_some())
}

} // verus!
