//! Instruction processing of the finality oracle.
use vstd::prelude::*;
use crate::errors::{map_err, InstructionError};
use crate::finality_oracle::state::{deserialize_finality_proof, deserialize_proof_request, spec_compute_hash};
use crate::finality_oracle::types::{
    dec_finality_oracle_instruction, dec_finality_proof, dec_oracle_config, dec_proof_request,
    enc_finality_proof, enc_oracle_config, enc_proof_request, finality_oracle_instruction_from_slice,
    finality_proof_to_vec, oracle_config_to_vec, proof_request_to_vec, FinalityOracleError,
    FinalityOracleInstruction, FinalityProof, OracleConfig, ProofRequest,
};
use crate::permission_registry::state::deserialize_clearance_sbt;
use crate::permission_types::types::{dec_clearance_sbt, ClearanceSbt, ClearanceTier, KeyState};
use crate::pubkey::{bytes32_eq, Pubkey};
use crate::revocation_registry::state::deserialize_key_record;
use crate::revocation_registry::types::dec_key_record;
use crate::subnet_registry::state::deserialize_subnet_membership;
use crate::subnet_registry::types::dec_subnet_membership;
use crate::runtime::{all_zero, and_then, is_all_zero, spec_write, ContextModel, InstructionContext};

verus! {

pub open spec fn err(e: FinalityOracleError) -> InstructionError {
    InstructionError::Custom(e.spec_code())
}

/// InitializeOracle: accounts `[config (w), upgrade authority (s)]`.
pub open spec fn spec_initialize(c: ContextModel, current_slot: u64) -> (Result<(), InstructionError>, ContextModel) {
    if c.accounts.len() < 2 {
        (Err(InstructionError::NotEnoughAccountKeys), c)
    } else if !c.is_signer(1) {
        (Err(InstructionError::MissingRequiredSignature), c)
    } else if dec_oracle_config(c.data(0)) matches Some((cfg, _)) && cfg.is_initialized {
        (Err(err(FinalityOracleError::AlreadyInitialized)), c)
    } else {
        spec_write(c, 0, enc_oracle_config(OracleConfig { is_initialized: true, upgrade_authority: c.key(1), created_at_slot: current_slot }))
    }
}

/// The clearance token in `data` lets `holder` act at `tier`: an active token
/// of that holder, of that tier or above, or no readable token when `Public`
/// is enough.
pub open spec fn spec_clearance_ok(data: Seq<u8>, holder: Pubkey, tier: ClearanceTier) -> bool {
    match dec_clearance_sbt(data) {
        Some((sbt, _)) => sbt.is_active && sbt.holder == holder && sbt.tier.spec_satisfies(tier),
        None => tier == ClearanceTier::Public,
    }
}

/// Account `i` is an active membership of `member` in subnet `s`, held by
/// the subnet registry.
pub open spec fn spec_membership_ok(c: ContextModel, i: int, subnet_registry: Pubkey, s: [u8; 32], member: Pubkey) -> bool {
    &&& c.owner(i) == subnet_registry
    &&& dec_subnet_membership(c.data(i)) matches Some((m, _))
    &&& m.is_active
    &&& m.subnet_id == s
    &&& m.member == member
}

/// For a subnet-scoped proof, account 3 is an active membership of the
/// issuer (account 4) in that subnet, held by the subnet registry.
pub open spec fn spec_member_ok(c: ContextModel, subnet_registry: Pubkey, subnet_id: Option<[u8; 32]>) -> bool {
    match subnet_id {
        None => true,
        Some(s) => spec_membership_ok(c, 3, subnet_registry, s, c.key(4)),
    }
}

/// For a subnet-scoped proof, account 2 is a still active membership of the
/// proof's issuer in that subnet, held by the subnet registry.
pub open spec fn spec_issuer_still_member(c: ContextModel, subnet_registry: Pubkey, p: FinalityProof) -> bool {
    match p.subnet_id {
        None => true,
        Some(s) => c.accounts.len() >= 3 && spec_membership_ok(c, 2, subnet_registry, s, p.issued_by),
    }
}

/// RequestFinalityProof: accounts `[request (w), requester's clearance token,
/// requester (s)]`; the token must be the requester's own.
pub open spec fn spec_request(
    c: ContextModel,
    transaction_signature: [u8; 64],
    required_clearance: ClearanceTier,
    subnet_id: Option<[u8; 32]>,
    current_slot: u64,
) -> (Result<(), InstructionError>, ContextModel) {
    if c.accounts.len() < 3 {
        (Err(InstructionError::NotEnoughAccountKeys), c)
    } else if !spec_clearance_ok(c.data(1), c.key(2), required_clearance) {
        (Err(err(FinalityOracleError::InsufficientClearance)), c)
    } else if !c.is_signer(2) {
        (Err(InstructionError::MissingRequiredSignature), c)
    } else if dec_proof_request(c.data(0)) matches Some((req, _)) && !req.is_fulfilled {
        (Err(err(FinalityOracleError::ProofRequestAlreadyExists)), c)
    } else {
        spec_write(c, 0, enc_proof_request(ProofRequest {
            transaction_signature,
            requester: c.key(2),
            required_clearance,
            subnet_id,
            requested_at_slot: current_slot,
            is_fulfilled: false,
        }))
    }
}

/// IssueFinalityProof: accounts `[proof (w), request (w), issuer's clearance
/// token, subnet membership, issuer (s)]`. The issuer holds the proof's tier
/// and, for a subnet-scoped proof, is a member of the subnet; an open request
/// for the same signature must exist, and is marked fulfilled before the
/// proof is written.
pub open spec fn spec_issue(
    c: ContextModel,
    subnet_registry: Pubkey,
    slot: u64,
    transaction_signature: [u8; 64],
    clearance_tier: ClearanceTier,
    subnet_id: Option<[u8; 32]>,
    proof_hash: [u8; 32],
    current_slot: u64,
) -> (Result<(), InstructionError>, ContextModel) {
    let proof = FinalityProof {
        slot,
        transaction_signature,
        clearance_tier,
        subnet_id,
        issued_by: c.key(4),
        issued_at_slot: current_slot,
        proof_hash,
    };
    if c.accounts.len() < 5 {
        (Err(InstructionError::NotEnoughAccountKeys), c)
    } else if !spec_clearance_ok(c.data(2), c.key(4), clearance_tier) {
        (Err(err(FinalityOracleError::InsufficientClearance)), c)
    } else if !c.is_signer(4) {
        (Err(InstructionError::MissingRequiredSignature), c)
    } else if !spec_member_ok(c, subnet_registry, subnet_id) {
        (Err(err(FinalityOracleError::IssuerNotSubnetMember)), c)
    } else if all_zero(c.data(1)) {
        (Err(err(FinalityOracleError::ProofRequestNotFound)), c)
    } else {
        match dec_proof_request(c.data(1)) {
            None => (Err(InstructionError::InvalidArgument), c),
            Some((req, _)) => if req.is_fulfilled {
                (Err(err(FinalityOracleError::ProofRequestNotFound)), c)
            } else if req.transaction_signature != transaction_signature {
                (Err(InstructionError::InvalidArgument), c)
            } else {
                and_then(
                spec_write(c, 1, enc_proof_request(ProofRequest { is_fulfilled: true, ..req })),
                    |c1: ContextModel| spec_write(c1, 0, enc_finality_proof(proof)),
                )
            },
        }
    }
}

/// VerifyFinalityProof: accounts `[proof, issuer key record, issuer's subnet
/// membership (for a subnet-scoped proof)]`. The stored proof must be for
/// the signature and match its commitment; the issuer of a subnet-scoped
/// proof must still be a member of the subnet; an issuer key record that
/// decodes must be active, while data that does not decode is refused only
/// when it is not zeroed, longer than 33 bytes and its byte at offset 32 is
/// not zero. The commitment is returned.
pub open spec fn spec_verify(c: ContextModel, subnet_registry: Pubkey, transaction_signature: [u8; 64]) -> (Result<(), InstructionError>, ContextModel) {
    if c.accounts.len() < 2 {
        (Err(InstructionError::NotEnoughAccountKeys), c)
    } else if all_zero(c.data(0)) {
        (Err(err(FinalityOracleError::ProofNotFound)), c)
    } else {
        match dec_finality_proof(c.data(0)) {
            None => (Err(InstructionError::InvalidArgument), c),
            Some((p, _)) => if p.transaction_signature != transaction_signature {
                (Err(InstructionError::InvalidArgument), c)
            } else if p.proof_hash@ != spec_compute_hash(p.slot, p.transaction_signature, p.clearance_tier, p.subnet_id, p.issued_by, p.issued_at_slot) {
                (Err(err(FinalityOracleError::ProofHashMismatch)), c)
            } else if !spec_issuer_still_member(c, subnet_registry, p) {
                (Err(err(FinalityOracleError::IssuerNotSubnetMember)), c)
            } else {
                match dec_key_record(c.data(1)) {
                    Some((k, _)) => if k.state != KeyState::Active {
                        (Err(err(FinalityOracleError::ProofIssuerRevoked)), c)
                    } else {
                        (Ok(()), c.with_return(p.proof_hash@))
                    },
                    None => if !all_zero(c.data(1)) && c.data(1).len() > 33 && c.data(1)[32] != 0 {
                        (Err(err(FinalityOracleError::ProofIssuerRevoked)), c)
                    } else {
                        (Ok(()), c.with_return(p.proof_hash@))
                    },
                }
            },
        }
    }
}

pub open spec fn spec_process(c: ContextModel, data: Seq<u8>, subnet_registry: Pubkey) -> (Result<(), InstructionError>, ContextModel) {
    match dec_finality_oracle_instruction(data) {
        Some((ix, rest)) => if rest.len() != 0 {
            (Err(InstructionError::InvalidInstructionData), c)
        } else {
            match ix {
                FinalityOracleInstruction::InitializeOracle { current_slot } => spec_initialize(c, current_slot),
                FinalityOracleInstruction::RequestFinalityProof { transaction_signature, required_clearance, subnet_id, current_slot } =>
                    spec_request(c, transaction_signature, required_clearance, subnet_id, current_slot),
                FinalityOracleInstruction::IssueFinalityProof { slot, transaction_signature, clearance_tier, subnet_id, proof_hash, current_slot } =>
                    spec_issue(c, subnet_registry, slot, transaction_signature, clearance_tier, subnet_id, proof_hash, current_slot),
                FinalityOracleInstruction::VerifyFinalityProof { transaction_signature } => spec_verify(c, subnet_registry, transaction_signature),
            }
        },
        None => (Err(InstructionError::InvalidInstructionData), c),
    }
}

fn sig_eq(a: &[u8; 64], b: &[u8; 64]) -> (r: bool)
    ensures
        r == (*a == *b),
{
    let mut i: usize = 0;
    while i < 64
        invariant
            i <= 64,
            forall|j: int| 0 <= j < i ==> a[j] == b[j],
        decreases 64 - i,
    {
        if a[i] != b[i] {
            return false;
        }
        i = i + 1;
    }
    assert(*a =~= *b);
    true
}

fn to_bytes32(a: &[u8; 32]) -> (r: Vec<u8>)
    ensures
        r@ == a@,
{
    let mut out: Vec<u8> = Vec::new();
    let mut i: usize = 0;
    while i < 32
        invariant
            i <= 32,
            out@ == a@.take(i as int),
        decreases 32 - i,
    {
        out.push(a[i]);
        assert(a@.take(i + 1) =~= a@.take(i as int).push(a@[i as int]));
        i = i + 1;
    }
    assert(a@.take(32) =~= a@);
    out
}

pub struct Processor;

impl Processor {
    /// Runs one instruction; `subnet_registry` is the id of the subnet
    /// registry program, the owner that a subnet membership must have.
    pub fn process(ctx: &mut InstructionContext, instruction_data: &[u8], subnet_registry: &Pubkey) -> (r: Result<(), InstructionError>)
        ensures
            (r, final(ctx)@) == spec_process(old(ctx)@, instruction_data@, *subnet_registry),
    {
        let instruction = match finality_oracle_instruction_from_slice(instruction_data) {
            Some(ix) => ix,
            None => return Err(InstructionError::InvalidInstructionData),
        };
        match instruction {
            FinalityOracleInstruction::InitializeOracle { current_slot } => Self::process_initialize(ctx, current_slot),
            FinalityOracleInstruction::RequestFinalityProof { transaction_signature, required_clearance, subnet_id, current_slot } =>
                Self::process_request(ctx, transaction_signature, required_clearance, subnet_id, current_slot),
            FinalityOracleInstruction::IssueFinalityProof { slot, transaction_signature, clearance_tier, subnet_id, proof_hash, current_slot } =>
                Self::process_issue(ctx, subnet_registry, slot, transaction_signature, clearance_tier, subnet_id, proof_hash, current_slot),
            FinalityOracleInstruction::VerifyFinalityProof { transaction_signature } => Self::process_verify(ctx, subnet_registry, transaction_signature),
        }
    }

    /// Reads a clearance token, or nothing when the data does not decode.
    pub fn deserialize_sbt(data: &[u8]) -> (r: Option<ClearanceSbt>)
        ensures
            r == (match dec_clearance_sbt(data@) {
                Some((sbt, _)) => Some(sbt),
                None => None::<ClearanceSbt>,
            }),
    {
        match deserialize_clearance_sbt(data) {
            Ok(sbt) => Some(sbt),
            Err(_) => None,
        }
    }

    fn clearance_ok(data: &[u8], holder: &Pubkey, tier: ClearanceTier) -> (r: bool)
        ensures
            r == spec_clearance_ok(data@, *holder, tier),
    {
        match Self::deserialize_sbt(data) {
            Some(sbt) => sbt.is_active && sbt.holder == *holder && sbt.tier.satisfies(tier),
            None => tier == ClearanceTier::Public,
        }
    }

    fn membership_ok(ctx: &InstructionContext, i: usize, subnet_registry: &Pubkey, s: &[u8; 32], member: &Pubkey) -> (r: bool)
        requires
            i < ctx@.accounts.len(),
        ensures
            r == spec_membership_ok(ctx@, i as int, *subnet_registry, *s, *member),
    {
        if ctx.owner(i) != *subnet_registry {
            return false;
        }
        match deserialize_subnet_membership(ctx.data(i)) {
            Ok(m) => m.is_active && bytes32_eq(&m.subnet_id, s) && m.member == *member,
            Err(_) => false,
        }
    }

    fn member_ok(ctx: &InstructionContext, subnet_registry: &Pubkey, subnet_id: &Option<[u8; 32]>) -> (r: bool)
        requires
            5 <= ctx@.accounts.len(),
        ensures
            r == spec_member_ok(ctx@, *subnet_registry, *subnet_id),
    {
        match subnet_id {
            None => true,
            Some(s) => Self::membership_ok(ctx, 3, subnet_registry, s, &ctx.key(4)),
        }
    }

    pub fn process_initialize(ctx: &mut InstructionContext, current_slot: u64) -> (r: Result<(), InstructionError>)
        ensures
            (r, final(ctx)@) == spec_initialize(old(ctx)@, current_slot),
    {
        if let Err(e) = ctx.check_number_of_instruction_accounts(2) {
            return Err(e);
        }
        if !ctx.is_signer(1) {
            return Err(InstructionError::MissingRequiredSignature);
        }
        let upgrade_authority = ctx.key(1);
        if let Ok(existing) = OracleConfig::deserialize_padded(ctx.data(0)) {
            if existing.is_initialized {
                return Err(InstructionError::Custom(FinalityOracleError::AlreadyInitialized.code()));
            }
        }
        let config = OracleConfig::new(upgrade_authority, current_slot);
        ctx.write_account(0, &oracle_config_to_vec(&config))
    }

    pub fn process_request(
        ctx: &mut InstructionContext,
        transaction_signature: [u8; 64],
        required_clearance: ClearanceTier,
        subnet_id: Option<[u8; 32]>,
        current_slot: u64,
    ) -> (r: Result<(), InstructionError>)
        ensures
            (r, final(ctx)@) == spec_request(old(ctx)@, transaction_signature, required_clearance, subnet_id, current_slot),
    {
        if let Err(e) = ctx.check_number_of_instruction_accounts(3) {
            return Err(e);
        }
        if !Self::clearance_ok(ctx.data(1), &ctx.key(2), required_clearance) {
            return Err(InstructionError::Custom(FinalityOracleError::InsufficientClearance.code()));
        }
        if !ctx.is_signer(2) {
            return Err(InstructionError::MissingRequiredSignature);
        }
        let requester = ctx.key(2);
        if let Ok(existing) = deserialize_proof_request(ctx.data(0)) {
            if !existing.is_fulfilled {
                return Err(InstructionError::Custom(FinalityOracleError::ProofRequestAlreadyExists.code()));
            }
        }
        let request = ProofRequest {
            transaction_signature,
            requester,
            required_clearance,
            subnet_id,
            requested_at_slot: current_slot,
            is_fulfilled: false,
        };
        ctx.write_account(0, &proof_request_to_vec(&request))
    }

    pub fn process_issue(
        ctx: &mut InstructionContext,
        subnet_registry: &Pubkey,
        slot: u64,
        transaction_signature: [u8; 64],
        clearance_tier: ClearanceTier,
        subnet_id: Option<[u8; 32]>,
        proof_hash: [u8; 32],
        current_slot: u64,
    ) -> (r: Result<(), InstructionError>)
        ensures
            (r, final(ctx)@) == spec_issue(old(ctx)@, *subnet_registry, slot, transaction_signature, clearance_tier, subnet_id, proof_hash, current_slot),
    {
        if let Err(e) = ctx.check_number_of_instruction_accounts(5) {
            return Err(e);
        }
        if !Self::clearance_ok(ctx.data(2), &ctx.key(4), clearance_tier) {
            return Err(InstructionError::Custom(FinalityOracleError::InsufficientClearance.code()));
        }
        if !ctx.is_signer(4) {
            return Err(InstructionError::MissingRequiredSignature);
        }
        let issuer = ctx.key(4);
        if !Self::member_ok(ctx, subnet_registry, &subnet_id) {
            return Err(InstructionError::Custom(FinalityOracleError::IssuerNotSubnetMember.code()));
        }
        if is_all_zero(ctx.data(1)) {
            return Err(InstructionError::Custom(FinalityOracleError::ProofRequestNotFound.code()));
        }
        let mut request = match deserialize_proof_request(ctx.data(1)) {
            Ok(r) => r,
            Err(e) => return Err(map_err(e)),
        };
        if request.is_fulfilled {
            return Err(InstructionError::Custom(FinalityOracleError::ProofRequestNotFound.code()));
        }
        if !sig_eq(&request.transaction_signature, &transaction_signature) {
            return Err(InstructionError::InvalidArgument);
        }
        request.is_fulfilled = true;
        if let Err(e) = ctx.write_account(1, &proof_request_to_vec(&request)) {
            return Err(e);
        }
        let proof = FinalityProof {
            slot,
            transaction_signature,
            clearance_tier,
            subnet_id,
            issued_by: issuer,
            issued_at_slot: current_slot,
            proof_hash,
        };
        ctx.write_account(0, &finality_proof_to_vec(&proof))
    }

    pub fn process_verify(ctx: &mut InstructionContext, subnet_registry: &Pubkey, transaction_signature: [u8; 64]) -> (r: Result<(), InstructionError>)
        ensures
            (r, final(ctx)@) == spec_verify(old(ctx)@, *subnet_registry, transaction_signature),
    {
        if let Err(e) = ctx.check_number_of_instruction_accounts(2) {
            return Err(e);
        }
        if is_all_zero(ctx.data(0)) {
            return Err(InstructionError::Custom(FinalityOracleError::ProofNotFound.code()));
        }
        let proof = match deserialize_finality_proof(ctx.data(0)) {
            Ok(p) => p,
            Err(e) => return Err(map_err(e)),
        };
        if !sig_eq(&proof.transaction_signature, &transaction_signature) {
            return Err(InstructionError::InvalidArgument);
        }
        if !proof.verify_hash() {
            return Err(InstructionError::Custom(FinalityOracleError::ProofHashMismatch.code()));
        }
        if let Some(s) = &proof.subnet_id {
            if ctx.accounts.len() < 3 || !Self::membership_ok(ctx, 2, subnet_registry, s, &proof.issued_by) {
                return Err(InstructionError::Custom(FinalityOracleError::IssuerNotSubnetMember.code()));
            }
        }
        let key_data = ctx.data(1);
        match deserialize_key_record(key_data) {
            Ok(record) => {
                if record.state != KeyState::Active {
                    return Err(InstructionError::Custom(FinalityOracleError::ProofIssuerRevoked.code()));
                }
            },
            Err(_) => {
                if !is_all_zero(key_data) && key_data.len() > 33 && key_data[32] != 0 {
                    return Err(InstructionError::Custom(FinalityOracleError::ProofIssuerRevoked.code()));
                }
            },
        }
        ctx.set_return_data(to_bytes32(&proof.proof_hash));
        Ok(())
    }
}

} // verus!
