//! Key material.

use vstd::prelude::*;

verus! {

/// The number that `bytes` write, the most significant byte first.
pub open spec fn big_endian(bytes: Seq<u8>) -> nat
    decreases bytes.len(),
{
    if bytes.len() == 0 {
        0
    } else {
        big_endian(bytes.drop_last()) * 256 + bytes.last() as nat
    }
}

/// The order of the group of the curve secp256k1.
pub open spec fn secp256k1_order() -> nat {
    0xffff_ffff_ffff_ffff_ffff_ffff_ffff_fffe_baae_dce6_af48_a03b_bfd2_5e8c_d036_4141nat
}

/// Whether `bytes` are a secret key of the curve secp256k1: thirty-two bytes
/// that write a number above zero and below the order of the group.
pub open spec fn is_secp256k1_key(bytes: Seq<u8>) -> bool {
    bytes.len() == 32 && 0 < big_endian(bytes) < secp256k1_order()
}

/// A private key: the raw bytes of the key material, unchanged once loaded.
#[derive(PartialEq, Eq)]
pub struct PrivateKey {
    bytes: Vec<u8>,
}

impl View for PrivateKey {
    type V = Seq<u8>;

    closed spec fn view(&self) -> Seq<u8> {
        self.bytes@
    }
}

impl PrivateKey {
    /// Creates a new private key
    pub fn new(bytes: Vec<u8>) -> (key: Self)
        ensures
            key@ == bytes@,
    {
        PrivateKey { bytes }
    }

    /// Returns the private key as bytes
    pub fn as_slice(&self) -> (bytes: &[u8])
        ensures
            bytes@ == self@,
    {
        self.bytes.as_slice()
    }

    /// Consumes the private key and returns it as bytes
    pub fn into_bytes(self) -> (bytes: Vec<u8>)
        ensures
            bytes@ == self@,
    {
        self.bytes
    }
}

impl Clone for PrivateKey {
    fn clone(&self) -> (key: Self)
        ensures
            key@ == self@,
    {
        PrivateKey { bytes: self.bytes.clone() }
    }
}

} // verus!
