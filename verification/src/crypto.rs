//! Message digests used by the Warden protocol.
use vstd::prelude::*;
use md5::Md5;
use sha1::{Digest, Sha1};

verus! {

/// The SHA-1 digest of a byte sequence.
pub uninterp spec fn sha1_of(data: Seq<u8>) -> Seq<u8>;

/// The MD5 digest of a byte sequence.
pub uninterp spec fn md5_of(data: Seq<u8>) -> Seq<u8>;

/// Calls `sha1::Sha1::digest`; the contract names its 20-byte result as `sha1_of` of the input.
#[verifier::external_body]
pub(crate) fn sha1_digest(data: &[u8]) -> (r: [u8; 20])
    ensures
        r@ == sha1_of(data@),
{
    Sha1::digest(data).into()
}

/// Calls `md5::Md5::digest`; the contract names its 16-byte result as `md5_of` of the input.
#[verifier::external_body]
pub(crate) fn md5_digest(data: &[u8]) -> (r: [u8; 16])
    ensures
        r@ == md5_of(data@),
{
    Md5::digest(data).into()
}

} // verus!
