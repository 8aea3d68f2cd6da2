//! State accounts of the finality oracle and the proof commitment.
use vstd::prelude::*;
use crate::codec::{enc_u64, lemma_u64, write_u64};
use crate::errors::{decoded, ProgramError};
use crate::finality_oracle::types::{
    dec_finality_proof, dec_oracle_config, dec_proof_request, finality_proof_from_prefix,
    oracle_config_from_prefix, proof_request_from_prefix, FinalityOracleError, FinalityProof,
    OracleConfig, ProofRequest,
};
use crate::permission_types::types::ClearanceTier;
use crate::pubkey::{bytes32_eq, make32, Pubkey};

verus! {

pub const ORACLE_CONFIG_SEED: [u8; 13] = [111, 114, 97, 99, 108, 101, 45, 99, 111, 110, 102, 105, 103];
pub const PROOF_REQUEST_SEED: [u8; 9] = [112, 114, 111, 111, 102, 45, 114, 101, 113];
pub const FINALITY_PROOF_SEED: [u8; 5] = [112, 114, 111, 111, 102];

impl OracleConfig {
    pub fn new(upgrade_authority: Pubkey, current_slot: u64) -> (r: Self)
        ensures
            r == (OracleConfig { is_initialized: true, upgrade_authority, created_at_slot: current_slot }),
    {
        OracleConfig { is_initialized: true, upgrade_authority, created_at_slot: current_slot }
    }

    pub fn deserialize_padded(data: &[u8]) -> (r: Result<Self, ProgramError>)
        ensures
            r == decoded(dec_oracle_config(data@)),
    {
        match oracle_config_from_prefix(data) {
            Some(v) => Ok(v),
            None => Err(ProgramError::InvalidAccountData),
        }
    }

    pub fn ensure_initialized(&self) -> (r: Result<(), ProgramError>)
        ensures
            r == (if self.is_initialized { Ok(()) } else { Err(ProgramError::Custom(FinalityOracleError::Uninitialized.spec_code())) }),
    {
        if self.is_initialized {
            Ok(())
        } else {
            Err(ProgramError::Custom(FinalityOracleError::Uninitialized.code()))
        }
    }
}

impl ProofRequest {
    pub fn deserialize_padded(data: &[u8]) -> (r: Result<Self, ProgramError>)
        ensures
            r == decoded(dec_proof_request(data@)),
    {
        deserialize_proof_request(data)
    }
}

/// Byte `b` mixed at position `i` with multiplier `mult`: `b + (i * mult)`, both
/// taken modulo 256.
pub open spec fn mix_byte(b: u8, i: int, mult: int) -> u8 {
    ((b + (i * mult) % 256) % 256) as u8
}

/// XOR-folding `bytes` into the 32-byte accumulator, byte `i` into position
/// `(i + offset) % 32`.
pub open spec fn mix(acc: Seq<u8>, bytes: Seq<u8>, offset: int, mult: int) -> Seq<u8>
    decreases bytes.len(),
{
    if bytes.len() == 0 {
        acc
    } else {
        let n = bytes.len() - 1;
        let prev = mix(acc, bytes.take(n), offset, mult);
        let p = (n + offset) % 32;
        prev.update(p, prev[p] ^ mix_byte(bytes[n], n, mult))
    }
}

/// The proof commitment over its fields: the slot, the transaction signature,
/// the tier, the subnet (or a marker for none), the issuer and the issuing
/// slot, each folded into a zeroed 32-byte accumulator.
pub open spec fn spec_compute_hash(
    slot: u64,
    transaction_signature: [u8; 64],
    clearance_tier: ClearanceTier,
    subnet_id: Option<[u8; 32]>,
    issued_by: Pubkey,
    issued_at_slot: u64,
) -> Seq<u8> {
    let a1 = mix(Seq::new(32, |i: int| 0u8), enc_u64(slot), 0, 7);
    let a2 = mix(a1, transaction_signature@, 0, 11);
    let t = clearance_tier.spec_rank();
    let a3 = a2.update(0, a2[0] ^ t).update(1, a2[1] ^ ((t * 13) % 256) as u8);
    let a4 = match subnet_id {
        Some(s) => mix(a3, s@, 0, 3),
        None => a3.update(4, a3[4] ^ 0xFFu8),
    };
    let a5 = mix(a4, issued_by.0@, 0, 17);
    mix(a5, enc_u64(issued_at_slot), 8, 19)
}

proof fn lemma_mix_len(acc: Seq<u8>, bytes: Seq<u8>, offset: int, mult: int)
    requires
        acc.len() == 32,
    ensures
        mix(acc, bytes, offset, mult).len() == acc.len(),
    decreases bytes.len(),
{
    if bytes.len() > 0 {
        lemma_mix_len(acc, bytes.take(bytes.len() - 1), offset, mult);
    }
}

/// Folds `bytes` into `acc` as [`mix`] describes.
fn mix_into(acc: &mut Vec<u8>, bytes: &[u8], offset: usize, mult: u32)
    requires
        old(acc)@.len() == 32,
        offset <= 8,
        mult < 256,
        bytes@.len() <= 64,
    ensures
        final(acc)@ == mix(old(acc)@, bytes@, offset as int, mult as int),
        final(acc)@.len() == 32,
{
    let ghost start = acc@;
    let mut i: usize = 0;
    while i < bytes.len()
        invariant
            i <= bytes@.len(),
            bytes@.len() <= 64,
            offset <= 8,
            mult < 256,
            acc@ == mix(start, bytes@.take(i as int), offset as int, mult as int),
            acc@.len() == 32,
            start.len() == 32,
        decreases bytes@.len() - i,
    {
        proof {
            assert(bytes@.take(i + 1).take(i as int) =~= bytes@.take(i as int));
            lemma_mix_len(start, bytes@.take(i as int), offset as int, mult as int);
        }
        let p = (i + offset) % 32;
        assert((i as u32) * mult <= 64 * 256) by (nonlinear_arith)
            requires
                i < 64,
                mult < 256,
        ;
        let m: u32 = ((bytes[i] as u32) + ((i as u32) * mult) % 256) % 256;
        let x = acc[p] ^ (m as u8);
        acc.set(p, x);
        i = i + 1;
    }
    assert(bytes@.take(bytes@.len() as int) =~= bytes@);
}

fn le_bytes(v: u64) -> (r: Vec<u8>)
    ensures
        r@ == enc_u64(v),
{
    let mut out: Vec<u8> = Vec::new();
    write_u64(&mut out, v);
    assert(out@ =~= enc_u64(v));
    out
}

impl FinalityProof {
    pub fn deserialize_padded(data: &[u8]) -> (r: Result<Self, ProgramError>)
        ensures
            r == decoded(dec_finality_proof(data@)),
    {
        deserialize_finality_proof(data)
    }

    /// The commitment recomputed from the proof's fields equals its stored hash.
    pub fn verify_hash(&self) -> (r: bool)
        ensures
            r == (self.proof_hash@ == spec_compute_hash(self.slot, self.transaction_signature, self.clearance_tier,
                self.subnet_id, self.issued_by, self.issued_at_slot)),
    {
        let subnet = match &self.subnet_id {
            Some(s) => Some(s),
            None => None,
        };
        let expected = Self::compute_hash(self.slot, &self.transaction_signature, self.clearance_tier, subnet, &self.issued_by, self.issued_at_slot);
        let eq = bytes32_eq(&expected, &self.proof_hash);
        proof {
            if expected@ == self.proof_hash@ {
                assert(expected =~= self.proof_hash);
            }
        }
        eq
    }

    /// The proof commitment; see [`spec_compute_hash`].
    pub fn compute_hash(
        slot: u64,
        transaction_signature: &[u8; 64],
        clearance_tier: ClearanceTier,
        subnet_id: Option<&[u8; 32]>,
        issued_by: &Pubkey,
        issued_at_slot: u64,
    ) -> (r: [u8; 32])
        ensures
            r@ == spec_compute_hash(slot, *transaction_signature, clearance_tier,
                match subnet_id { Some(s) => Some(*s), None => None }, *issued_by, issued_at_slot),
    {
        let mut acc: Vec<u8> = vec![0u8, 0, 0, 0, 0, 0, 0, 0, 0, 0, 0, 0, 0, 0, 0, 0, 0, 0, 0, 0, 0, 0, 0, 0, 0, 0, 0, 0, 0, 0, 0, 0];
        assert(acc@ =~= Seq::new(32, |i: int| 0u8));
        let slot_bytes = le_bytes(slot);
        mix_into(&mut acc, slot_bytes.as_slice(), 0, 7);
        mix_into(&mut acc, transaction_signature.as_slice(), 0, 11);
        let t = clearance_tier.rank();
        let x0 = acc[0] ^ t;
        acc.set(0, x0);
        let t13: u32 = ((t as u32) * 13) % 256;
        let x1 = acc[1] ^ (t13 as u8);
        acc.set(1, x1);
        match subnet_id {
            Some(sid) => {
                mix_into(&mut acc, sid.as_slice(), 0, 3);
            },
            None => {
                let x4 = acc[4] ^ 0xFFu8;
                acc.set(4, x4);
            },
        }
        mix_into(&mut acc, issued_by.0.as_slice(), 0, 17);
        let issued_bytes = le_bytes(issued_at_slot);
        mix_into(&mut acc, issued_bytes.as_slice(), 8, 19);
        let r = make32(acc.as_slice(), 0);
        assert(acc@.subrange(0, 32) =~= acc@);
        r
    }
}

pub fn deserialize_proof_request(data: &[u8]) -> (r: Result<ProofRequest, ProgramError>)
    ensures
        r == decoded(dec_proof_request(data@)),
{
    match proof_request_from_prefix(data) {
        Some(v) => Ok(v),
        None => Err(ProgramError::InvalidAccountData),
    }
}

pub fn deserialize_finality_proof(data: &[u8]) -> (r: Result<FinalityProof, ProgramError>)
    ensures
        r == decoded(dec_finality_proof(data@)),
{
    match finality_proof_from_prefix(data) {
        Some(v) => Ok(v),
        None => Err(ProgramError::InvalidAccountData),
    }
}

proof fn lemma_xor_facts(x: u8, y: u8, z: u8)
    ensures
        x != y ==> x ^ y != 0,
        (x ^ z) ^ (y ^ z) == x ^ y,
        (z ^ x) ^ (z ^ y) == x ^ y,
        x ^ x == 0,
        0u8 ^ x == x,
{
    assert(0u8 ^ x == x) by (bit_vector);
    assert(x != y ==> x ^ y != 0) by (bit_vector);
    assert((x ^ z) ^ (y ^ z) == x ^ y) by (bit_vector);
    assert((z ^ x) ^ (z ^ y) == x ^ y) by (bit_vector);
    assert(x ^ x == 0) by (bit_vector);
}

/// Folding the same bytes into two accumulators keeps the XOR of their bytes
/// at every position.
proof fn lemma_mix_keeps_xor(a: Seq<u8>, b: Seq<u8>, bytes: Seq<u8>, offset: int, mult: int, p: int)
    requires
        a.len() == 32,
        b.len() == 32,
        0 <= p < 32,
    ensures
        mix(a, bytes, offset, mult)[p] ^ mix(b, bytes, offset, mult)[p] == a[p] ^ b[p],
    decreases bytes.len(),
{
    if bytes.len() > 0 {
        let n = bytes.len() - 1;
        lemma_mix_keeps_xor(a, b, bytes.take(n), offset, mult, p);
        lemma_mix_len(a, bytes.take(n), offset, mult);
        lemma_mix_len(b, bytes.take(n), offset, mult);
        let pa = mix(a, bytes.take(n), offset, mult);
        let pb = mix(b, bytes.take(n), offset, mult);
        lemma_xor_facts(pa[p], pb[p], mix_byte(bytes[n], n, mult));
    }
}

/// Bytes folded into positions that do not wrap around land each at its own
/// position.
proof fn lemma_mix_placed(a: Seq<u8>, bytes: Seq<u8>, offset: int, mult: int, p: int)
    requires
        a.len() == 32,
        0 <= offset,
        offset + bytes.len() <= 32,
        0 <= p < 32,
    ensures
        mix(a, bytes, offset, mult)[p] == if offset <= p < offset + bytes.len() {
            a[p] ^ mix_byte(bytes[p - offset], p - offset, mult)
        } else {
            a[p]
        },
    decreases bytes.len(),
{
    if bytes.len() > 0 {
        let n = bytes.len() - 1;
        lemma_mix_placed(a, bytes.take(n), offset, mult, p);
        lemma_mix_len(a, bytes.take(n), offset, mult);
        assert((n + offset) % 32 == n + offset);
    }
}

proof fn lemma_mix_byte_injective(b1: u8, b2: u8, i: int, mult: int)
    requires
        b1 != b2,
    ensures
        mix_byte(b1, i, mult) != mix_byte(b2, i, mult),
{
    let c = (i * mult) % 256;
    assert(0 <= c < 256);
}

/// Two accumulators that differ at position `p` still differ there after the
/// rest of the commitment (the subnet, issuer and issuing slot) is folded in
/// the same way into both.
proof fn lemma_tail_keeps_difference(
    a3: Seq<u8>,
    b3: Seq<u8>,
    subnet_id: Option<[u8; 32]>,
    issued_by: Pubkey,
    issued_at_slot: u64,
    p: int,
)
    requires
        a3.len() == 32,
        b3.len() == 32,
        0 <= p < 32,
        a3[p] != b3[p],
    ensures
        ({
            let a4 = match subnet_id {
                Some(s) => mix(a3, s@, 0, 3),
                None => a3.update(4, a3[4] ^ 0xFFu8),
            };
            let b4 = match subnet_id {
                Some(s) => mix(b3, s@, 0, 3),
                None => b3.update(4, b3[4] ^ 0xFFu8),
            };
            mix(mix(a4, issued_by.0@, 0, 17), enc_u64(issued_at_slot), 8, 19)
                != mix(mix(b4, issued_by.0@, 0, 17), enc_u64(issued_at_slot), 8, 19)
        }),
{
    let a4 = match subnet_id {
        Some(s) => mix(a3, s@, 0, 3),
        None => a3.update(4, a3[4] ^ 0xFFu8),
    };
    let b4 = match subnet_id {
        Some(s) => mix(b3, s@, 0, 3),
        None => b3.update(4, b3[4] ^ 0xFFu8),
    };
    lemma_xor_facts(a3[p], b3[p], 0xFFu8);
    match subnet_id {
        Some(s) => {
            lemma_mix_keeps_xor(a3, b3, s@, 0, 3, p);
            lemma_mix_len(a3, s@, 0, 3);
            lemma_mix_len(b3, s@, 0, 3);
        },
        None => {},
    }
    assert(a4[p] ^ b4[p] == a3[p] ^ b3[p]);
    let a5 = mix(a4, issued_by.0@, 0, 17);
    let b5 = mix(b4, issued_by.0@, 0, 17);
    lemma_mix_keeps_xor(a4, b4, issued_by.0@, 0, 17, p);
    lemma_mix_len(a4, issued_by.0@, 0, 17);
    lemma_mix_len(b4, issued_by.0@, 0, 17);
    lemma_mix_keeps_xor(a5, b5, enc_u64(issued_at_slot), 8, 19, p);
    let fa = mix(a5, enc_u64(issued_at_slot), 8, 19);
    let fb = mix(b5, enc_u64(issued_at_slot), 8, 19);
    lemma_xor_facts(fa[p], fa[p], 0);
    if fa == fb {
        assert(fa[p] ^ fb[p] == 0);
    }
}

/// Proofs that differ only in their clearance tier have different
/// commitments.
pub proof fn law_tier_changes_hash(
    slot: u64,
    transaction_signature: [u8; 64],
    t1: ClearanceTier,
    t2: ClearanceTier,
    subnet_id: Option<[u8; 32]>,
    issued_by: Pubkey,
    issued_at_slot: u64,
)
    requires
        t1 != t2,
    ensures
        spec_compute_hash(slot, transaction_signature, t1, subnet_id, issued_by, issued_at_slot)
            != spec_compute_hash(slot, transaction_signature, t2, subnet_id, issued_by, issued_at_slot),
{
    let z = Seq::new(32, |i: int| 0u8);
    let a1 = mix(z, enc_u64(slot), 0, 7);
    lemma_mix_len(z, enc_u64(slot), 0, 7);
    let a2 = mix(a1, transaction_signature@, 0, 11);
    lemma_mix_len(a1, transaction_signature@, 0, 11);
    let r1 = t1.spec_rank();
    let r2 = t2.spec_rank();
    assert(r1 != r2);
    let a3 = a2.update(0, a2[0] ^ r1).update(1, a2[1] ^ ((r1 * 13) % 256) as u8);
    let b3 = a2.update(0, a2[0] ^ r2).update(1, a2[1] ^ ((r2 * 13) % 256) as u8);
    lemma_xor_facts(r1, r2, a2[0]);
    lemma_xor_facts(a3[0], a3[0], 0);
    assert(a3[0] ^ b3[0] == r1 ^ r2);
    lemma_tail_keeps_difference(a3, b3, subnet_id, issued_by, issued_at_slot, 0);
}

/// Proofs that differ only in their slot have different commitments: a proof
/// whose slot was changed after issuing no longer verifies.
pub proof fn law_slot_changes_hash(
    s1: u64,
    s2: u64,
    transaction_signature: [u8; 64],
    clearance_tier: ClearanceTier,
    subnet_id: Option<[u8; 32]>,
    issued_by: Pubkey,
    issued_at_slot: u64,
)
    requires
        s1 != s2,
    ensures
        spec_compute_hash(s1, transaction_signature, clearance_tier, subnet_id, issued_by, issued_at_slot)
            != spec_compute_hash(s2, transaction_signature, clearance_tier, subnet_id, issued_by, issued_at_slot),
{
    let z = Seq::new(32, |i: int| 0u8);
    let e1 = enc_u64(s1);
    let e2 = enc_u64(s2);
    lemma_u64(s1, Seq::empty());
    lemma_u64(s2, Seq::empty());
    assert(e1 + Seq::<u8>::empty() =~= e1);
    assert(e2 + Seq::<u8>::empty() =~= e2);
    assert(e1 != e2);
    assert(exists|k: int| 0 <= k < 8 && e1[k] != e2[k]) by {
        if forall|k: int| 0 <= k < 8 ==> e1[k] == e2[k] {
            assert(e1 =~= e2);
        }
    }
    let k = choose|k: int| 0 <= k < 8 && e1[k] != e2[k];
    let a1 = mix(z, e1, 0, 7);
    let b1 = mix(z, e2, 0, 7);
    lemma_mix_len(z, e1, 0, 7);
    lemma_mix_len(z, e2, 0, 7);
    lemma_mix_placed(z, e1, 0, 7, k);
    lemma_mix_placed(z, e2, 0, 7, k);
    lemma_mix_byte_injective(e1[k], e2[k], k, 7);
    lemma_xor_facts(mix_byte(e1[k], k, 7), mix_byte(e2[k], k, 7), 0);
    lemma_xor_facts(0u8, 0u8, mix_byte(e1[k], k, 7));
    lemma_xor_facts(0u8, 0u8, mix_byte(e2[k], k, 7));
    lemma_xor_facts(mix_byte(e2[k], k, 7), 0u8, 0u8);
    assert(a1[k] != b1[k]);
    let a2 = mix(a1, transaction_signature@, 0, 11);
    let b2 = mix(b1, transaction_signature@, 0, 11);
    lemma_mix_len(a1, transaction_signature@, 0, 11);
    lemma_mix_len(b1, transaction_signature@, 0, 11);
    lemma_mix_keeps_xor(a1, b1, transaction_signature@, 0, 11, k);
    lemma_xor_facts(a1[k], b1[k], 0);
    lemma_xor_facts(a2[k], a2[k], 0);
    assert(a2[k] != b2[k]);
    let t = clearance_tier.spec_rank();
    let u = ((t * 13) % 256) as u8;
    let a3 = a2.update(0, a2[0] ^ t).update(1, a2[1] ^ u);
    let b3 = b2.update(0, b2[0] ^ t).update(1, b2[1] ^ u);
    lemma_xor_facts(a2[k], b2[k], t);
    lemma_xor_facts(a2[k], b2[k], u);
    lemma_xor_facts(a3[k], a3[k], 0);
    assert(a3[k] != b3[k]);
    lemma_tail_keeps_difference(a3, b3, subnet_id, issued_by, issued_at_slot, k);
}

/// Proofs that differ only in their (present) subnet id have different
/// commitments.
pub proof fn law_subnet_changes_hash(
    slot: u64,
    transaction_signature: [u8; 64],
    clearance_tier: ClearanceTier,
    n1: [u8; 32],
    n2: [u8; 32],
    issued_by: Pubkey,
    issued_at_slot: u64,
)
    requires
        n1 != n2,
    ensures
        spec_compute_hash(slot, transaction_signature, clearance_tier, Some(n1), issued_by, issued_at_slot)
            != spec_compute_hash(slot, transaction_signature, clearance_tier, Some(n2), issued_by, issued_at_slot),
{
    let z = Seq::new(32, |i: int| 0u8);
    let a1 = mix(z, enc_u64(slot), 0, 7);
    lemma_mix_len(z, enc_u64(slot), 0, 7);
    let a2 = mix(a1, transaction_signature@, 0, 11);
    lemma_mix_len(a1, transaction_signature@, 0, 11);
    let t = clearance_tier.spec_rank();
    let a3 = a2.update(0, a2[0] ^ t).update(1, a2[1] ^ ((t * 13) % 256) as u8);
    assert(exists|k: int| 0 <= k < 32 && n1@[k] != n2@[k]) by {
        if forall|k: int| 0 <= k < 32 ==> n1@[k] == n2@[k] {
            assert(n1@ =~= n2@);
            assert(n1 == n2);
        }
    }
    let k = choose|k: int| 0 <= k < 32 && n1@[k] != n2@[k];
    let a4 = mix(a3, n1@, 0, 3);
    let b4 = mix(a3, n2@, 0, 3);
    lemma_mix_len(a3, n1@, 0, 3);
    lemma_mix_len(a3, n2@, 0, 3);
    lemma_mix_placed(a3, n1@, 0, 3, k);
    lemma_mix_placed(a3, n2@, 0, 3, k);
    lemma_mix_byte_injective(n1@[k], n2@[k], k, 3);
    lemma_xor_facts(mix_byte(n1@[k], k, 3), mix_byte(n2@[k], k, 3), a3[k]);
    lemma_xor_facts(a4[k], a4[k], 0);
    assert(a4[k] != b4[k]);
    let a5 = mix(a4, issued_by.0@, 0, 17);
    let b5 = mix(b4, issued_by.0@, 0, 17);
    lemma_mix_keeps_xor(a4, b4, issued_by.0@, 0, 17, k);
    lemma_mix_len(a4, issued_by.0@, 0, 17);
    lemma_mix_len(b4, issued_by.0@, 0, 17);
    lemma_mix_keeps_xor(a5, b5, enc_u64(issued_at_slot), 8, 19, k);
    let fa = mix(a5, enc_u64(issued_at_slot), 8, 19);
    let fb = mix(b5, enc_u64(issued_at_slot), 8, 19);
    lemma_xor_facts(a4[k], b4[k], 0);
    lemma_xor_facts(fa[k], fa[k], 0);
    if fa == fb {
        assert(fa[k] ^ fb[k] == 0);
    }
}


/// The byte that the no-subnet marker leaves at position `k` of the
/// accumulator: `0xFF` at position 4, nothing elsewhere.
pub open spec fn no_subnet_marker(k: int) -> u8 {
    if k == 4 { 0xFFu8 } else { 0u8 }
}

/// A proof with a subnet id and the same proof without one have different
/// commitments, for every subnet id but the single one whose folded bytes
/// reproduce the no-subnet marker at every position.
pub proof fn law_subnet_presence_changes_hash(
    slot: u64,
    transaction_signature: [u8; 64],
    clearance_tier: ClearanceTier,
    n: [u8; 32],
    issued_by: Pubkey,
    issued_at_slot: u64,
)
    requires
        exists|k: int| 0 <= k < 32 && mix_byte(n@[k], k, 3) != no_subnet_marker(k),
    ensures
        spec_compute_hash(slot, transaction_signature, clearance_tier, None, issued_by, issued_at_slot)
            != spec_compute_hash(slot, transaction_signature, clearance_tier, Some(n), issued_by, issued_at_slot),
{
    let z = Seq::new(32, |i: int| 0u8);
    let a1 = mix(z, enc_u64(slot), 0, 7);
    lemma_mix_len(z, enc_u64(slot), 0, 7);
    let a2 = mix(a1, transaction_signature@, 0, 11);
    lemma_mix_len(a1, transaction_signature@, 0, 11);
    let t = clearance_tier.spec_rank();
    let a3 = a2.update(0, a2[0] ^ t).update(1, a2[1] ^ ((t * 13) % 256) as u8);
    let k = choose|k: int| 0 <= k < 32 && mix_byte(n@[k], k, 3) != no_subnet_marker(k);
    let a4 = a3.update(4, a3[4] ^ 0xFFu8);
    let b4 = mix(a3, n@, 0, 3);
    lemma_mix_len(a3, n@, 0, 3);
    lemma_mix_placed(a3, n@, 0, 3, k);
    let m = no_subnet_marker(k);
    let c = a3[k];
    assert(c ^ 0u8 == c) by (bit_vector);
    assert(a4[k] == c ^ m);
    lemma_xor_facts(m, mix_byte(n@[k], k, 3), c);
    lemma_xor_facts(a4[k], a4[k], 0);
    assert(a4[k] != b4[k]);
    let a5 = mix(a4, issued_by.0@, 0, 17);
    let b5 = mix(b4, issued_by.0@, 0, 17);
    lemma_mix_keeps_xor(a4, b4, issued_by.0@, 0, 17, k);
    lemma_mix_len(a4, issued_by.0@, 0, 17);
    lemma_mix_len(b4, issued_by.0@, 0, 17);
    lemma_mix_keeps_xor(a5, b5, enc_u64(issued_at_slot), 8, 19, k);
    let fa = mix(a5, enc_u64(issued_at_slot), 8, 19);
    let fb = mix(b5, enc_u64(issued_at_slot), 8, 19);
    lemma_xor_facts(a4[k], b4[k], 0);
    lemma_xor_facts(fa[k], fa[k], 0);
    if fa == fb {
        assert(fa[k] ^ fb[k] == 0);
    }
}

} // verus!
