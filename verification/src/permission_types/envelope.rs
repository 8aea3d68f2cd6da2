//! Accessors of the encrypted payload envelope.
use vstd::prelude::*;
use crate::permission_types::types::EncryptedPayloadEnvelope;

verus! {

/// The only recognised envelope version.
pub const VERSION: u8 = 0x01;

/// Bytes of an envelope besides its ciphertext: 1 + 1 + 32 + 12 + 16 + 64.
pub const FIXED_OVERHEAD: usize = 126;

fn copy32(a: &[u8; 64], from: usize) -> (r: [u8; 32])
    requires
        from == 0 || from == 32,
    ensures
        r@ == a@.subrange(from as int, from + 32),
{
    let mut r: [u8; 32] = [0u8; 32];
    let mut i: usize = 0;
    while i < 32
        invariant
            i <= 32,
            from == 0 || from == 32,
            r@.len() == 32,
            forall|j: int| 0 <= j < i ==> r@[j] == a@[from + j],
        decreases 32 - i,
    {
        r[i] = a[from + i];
        i = i + 1;
    }
    assert(r@ =~= a@.subrange(from as int, from + 32));
    r
}

impl EncryptedPayloadEnvelope {
    /// The transaction signature: bytes 0..32 of the additional authenticated data.
    pub fn tx_signature(&self) -> (r: [u8; 32])
        ensures
            r@ == self.aad@.subrange(0, 32),
    {
        copy32(&self.aad, 0)
    }

    /// The subnet id: bytes 32..64 of the additional authenticated data.
    pub fn subnet_id(&self) -> (r: [u8; 32])
        ensures
            r@ == self.aad@.subrange(32, 64),
    {
        copy32(&self.aad, 32)
    }

    /// True exactly when the version is the recognised one.
    pub fn is_valid_version(&self) -> (r: bool)
        ensures
            r == (self.version == VERSION),
    {
        self.version == VERSION
    }
}

} // verus!
