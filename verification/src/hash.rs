//! SHA-256, as the chain computes it.

use vstd::prelude::*;
use vstd::string::StringSliceAdditionalSpecFns;

verus! {

/// The SHA-256 digest of `data`.
pub uninterp spec fn sha256(data: Seq<u8>) -> Seq<u8>;

/// Calls `anchor_lang::solana_program::hash::hash` and takes the bytes of
/// the `Hash` it returns with `Hash::to_bytes`. Believed, not proved: the
/// result is the SHA-256 digest of `val`, which depends on nothing but the
/// bytes of `val`.
#[verifier::external_body]
pub(crate) fn hash(val: &[u8]) -> (digest: [u8; 32])
    ensures
        digest@ == sha256(val@),
{
    anchor_lang::solana_program::hash::hash(val).to_bytes()
}

/// The name by which a program built with the Anchor framework tells its
/// entry points apart: the first eight bytes of the digest of the entry
/// point's qualified name.
pub open spec fn spec_discriminator(preimage: Seq<u8>) -> Seq<u8> {
    sha256(preimage).take(8)
}

/// The first eight bytes of `digest`.
pub fn leading_bytes(digest: &[u8; 32]) -> (head: Vec<u8>)
    ensures
        head@ == digest@.take(8),
{
    let mut head: Vec<u8> = Vec::new();
    let mut i: usize = 0;
    while i < 8
        invariant
            i <= 8,
            head@ == digest@.take(i as int),
        decreases 8 - i,
    {
        head.push(digest[i]);
        assert(digest@.take(i + 1) =~= digest@.take(i as int).push(digest@[i as int]));
        i += 1;
    }
    head
}

/// The discriminator of the entry point whose qualified name is `preimage`,
/// such as `global:withdraw`.
pub fn discriminator(preimage: &str) -> (name: Vec<u8>)
    ensures
        name@ == spec_discriminator(preimage.spec_bytes()),
        name@.len() == 8,
{
    let digest = hash(preimage.as_bytes());
    leading_bytes(&digest)
}

} // verus!
