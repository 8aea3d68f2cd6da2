//! Instruction processing of the revocation registry.
use vstd::prelude::*;
use crate::errors::{map_err, spec_map_err, InstructionError, ProgramError};
use crate::permission_types::types::{KeyAlgorithm, KeyState, KeyType};
use crate::pubkey::{bytes32_eq, Pubkey};
use crate::revocation_registry::state::{
    deserialize_key_record, deserialize_rotation_approval, deserialize_rotation_intent, spec_complete_rotation,
    spec_initiate_rotation, spec_mark_compromised, spec_revoke,
};
use crate::revocation_registry::types::{
    dec_key_record, dec_rev_registry_config, dec_revocation_registry_instruction,
    dec_rotation_approval, dec_rotation_intent, lemma_rotation_approval, enc_key_record, enc_rev_registry_config, enc_rotation_approval,
    enc_rotation_intent, fits_key_record, key_record_to_vec, rev_registry_config_to_vec,
    revocation_registry_instruction_from_slice, rotation_approval_to_vec,
    rotation_intent_to_vec, KeyRecord, KeyRecordModel, RevRegistryConfig,
    RevocationRegistryError, RevocationRegistryInstruction, RevocationRegistryInstructionModel,
    RotationApproval, RotationIntent,
};
use crate::runtime::{all_zero, and_then, is_all_zero, spec_write, ContextModel, InstructionContext};

verus! {

pub open spec fn err(e: RevocationRegistryError) -> InstructionError {
    InstructionError::Custom(e.spec_code())
}

pub open spec fn spec_store_key(c: ContextModel, i: int, k: KeyRecordModel) -> (Result<(), InstructionError>, ContextModel) {
    if !fits_key_record(k) {
        (Err(InstructionError::InvalidAccountData), c)
    } else {
        spec_write(c, i, enc_key_record(k))
    }
}

/// InitializeRegistry: accounts `[config (w), upgrade authority (s)]`.
pub open spec fn spec_initialize_registry(c: ContextModel, current_slot: u64) -> (Result<(), InstructionError>, ContextModel) {
    if c.accounts.len() < 2 {
        (Err(InstructionError::NotEnoughAccountKeys), c)
    } else if !c.is_signer(1) {
        (Err(InstructionError::MissingRequiredSignature), c)
    } else if dec_rev_registry_config(c.data(0)) matches Some((cfg, _)) && cfg.is_initialized {
        (Err(err(RevocationRegistryError::AlreadyInitialized)), c)
    } else {
        spec_write(c, 0, enc_rev_registry_config(RevRegistryConfig { is_initialized: true, upgrade_authority: c.key(1), created_at_slot: current_slot }))
    }
}

/// RegisterKey: accounts `[key record (w), owner (s)]`; a key whose record is
/// still valid (`Active`) cannot be registered again.
pub open spec fn spec_register_key(
    c: ContextModel,
    key_id: [u8; 32],
    key_type: KeyType,
    key_algorithm: KeyAlgorithm,
    public_key_bytes: Seq<u8>,
    expires_at_slot: Option<u64>,
    current_slot: u64,
) -> (Result<(), InstructionError>, ContextModel) {
    if c.accounts.len() < 2 {
        (Err(InstructionError::NotEnoughAccountKeys), c)
    } else if !c.is_signer(1) {
        (Err(InstructionError::MissingRequiredSignature), c)
    } else if dec_key_record(c.data(0)) matches Some((k, _)) && !k.state.spec_is_invalid() {
        (Err(err(RevocationRegistryError::KeyAlreadyExists)), c)
    } else {
        spec_store_key(c, 0, KeyRecordModel {
            key_id,
            owner: c.key(1),
            key_type,
            key_algorithm,
            public_key_bytes,
            state: KeyState::Active,
            created_at_slot: current_slot,
            expires_at_slot,
            successor_key_id: None,
        })
    }
}

/// InitiateRotation: accounts `[key record (w), rotation intent (w), owner (s)]`.
pub open spec fn spec_initiate(
    c: ContextModel,
    key_id: [u8; 32],
    successor_key_id: [u8; 32],
    required_approvals: u8,
    ttl_slots: u64,
    current_slot: u64,
) -> (Result<(), InstructionError>, ContextModel) {
    if c.accounts.len() < 3 {
        (Err(InstructionError::NotEnoughAccountKeys), c)
    } else if !c.is_signer(2) {
        (Err(InstructionError::MissingRequiredSignature), c)
    } else {
        match dec_key_record(c.data(0)) {
            None => (Err(InstructionError::InvalidArgument), c),
            Some((k, _)) => if k.owner != c.key(2) {
                (Err(InstructionError::IncorrectAuthority), c)
            } else if k.key_id != key_id {
                (Err(InstructionError::InvalidArgument), c)
            } else {
                match spec_initiate_rotation(k) {
                    Err(e) => (Err(spec_map_err(e)), c),
                    Ok(k2) => and_then(
                        spec_store_key(c, 0, k2),
                        |c1: ContextModel| spec_write(c1, 1, enc_rotation_intent(RotationIntent {
                            key_id,
                            successor_key_id,
                            initiator: c.key(2),
                            created_at_slot: current_slot,
                            expires_at_slot: current_slot.saturating_add(ttl_slots),
                            required_approvals,
                            approval_count: 0,
                            is_executed: false,
                        })),
                    ),
                }
            },
        }
    }
}

/// The rotation intent in account `i` for `key_id`, neither executed nor expired.
pub open spec fn spec_live_intent(c: ContextModel, i: int, key_id: [u8; 32], current_slot: u64) -> Result<RotationIntent, InstructionError> {
    match dec_rotation_intent(c.data(i)) {
        None => Err(InstructionError::InvalidArgument),
        Some((t, _)) => if t.key_id != key_id {
            Err(InstructionError::InvalidArgument)
        } else if t.is_executed {
            Err(err(RevocationRegistryError::RotationAlreadyApproved))
        } else if current_slot > t.expires_at_slot {
            Err(err(RevocationRegistryError::RotationExpired))
        } else {
            Ok(t)
        },
    }
}

/// The approval record in account 1 is fresh for `approver` on `key_id`: a
/// record of that approver's approval of that key is a second approval; an
/// unwritten (zeroed) record is fresh; anything else is another key's or
/// approver's record.
pub open spec fn spec_fresh_approval(c: ContextModel, key_id: [u8; 32], approver: Pubkey) -> Result<(), InstructionError> {
    if dec_rotation_approval(c.data(1)) matches Some((a, _)) && a.key_id == key_id && a.approver == approver {
        Err(err(RevocationRegistryError::RotationAlreadyApproved))
    } else if all_zero(c.data(1)) {
        Ok(())
    } else {
        Err(InstructionError::InvalidArgument)
    }
}

/// ApproveRotation: accounts `[rotation intent (w), approval record (w),
/// approver (s)]`. Each approver counts once: the approval record, one per
/// key and approver, must not hold an approval yet.
pub open spec fn spec_approve_rotation(c: ContextModel, key_id: [u8; 32], current_slot: u64) -> (Result<(), InstructionError>, ContextModel) {
    if c.accounts.len() < 3 {
        (Err(InstructionError::NotEnoughAccountKeys), c)
    } else if !c.is_signer(2) {
        (Err(InstructionError::MissingRequiredSignature), c)
    } else {
        match spec_live_intent(c, 0, key_id, current_slot) {
            Err(e) => (Err(e), c),
            Ok(t) => if spec_fresh_approval(c, key_id, c.key(2)) is Err {
                (Err(spec_fresh_approval(c, key_id, c.key(2))->Err_0), c)
            } else {
                and_then(
                spec_write(c, 0, enc_rotation_intent(RotationIntent { approval_count: t.approval_count.saturating_add(1), ..t })),
                    |c1: ContextModel| spec_write(c1, 1, enc_rotation_approval(RotationApproval {
                        key_id,
                        approver: c.key(2),
                        approved_at_slot: current_slot,
                    })),
                )
            },
        }
    }
}

/// The successor key record in account 1 is the registered, active key
/// `successor_key_id`.
pub open spec fn spec_successor_ok(c: ContextModel, successor_key_id: [u8; 32]) -> Result<(), InstructionError> {
    if all_zero(c.data(1)) {
        Err(err(RevocationRegistryError::SuccessorKeyMissing))
    } else {
        match dec_key_record(c.data(1)) {
            None => Err(InstructionError::InvalidArgument),
            Some((succ, _)) => if succ.key_id != successor_key_id {
                Err(InstructionError::InvalidArgument)
            } else if succ.state != KeyState::Active {
                Err(err(RevocationRegistryError::SuccessorKeyMissing))
            } else {
                Ok(())
            },
        }
    }
}

/// ExecuteRotation: accounts `[old key record (w), successor key record,
/// rotation intent (w), executor (s)]`. With quorum met and the successor a
/// registered active key, the old key becomes `Rotated` and the intent
/// executed; nothing is written on a refusal.
pub open spec fn spec_execute_rotation(c: ContextModel, key_id: [u8; 32], current_slot: u64) -> (Result<(), InstructionError>, ContextModel) {
    if c.accounts.len() < 4 {
        (Err(InstructionError::NotEnoughAccountKeys), c)
    } else if !c.is_signer(3) {
        (Err(InstructionError::MissingRequiredSignature), c)
    } else {
        match spec_live_intent(c, 2, key_id, current_slot) {
            Err(e) => (Err(e), c),
            Ok(t) => if t.approval_count < t.required_approvals {
                (Err(err(RevocationRegistryError::QuorumNotMet)), c)
            } else {
                match dec_key_record(c.data(0)) {
                    None => (Err(InstructionError::InvalidArgument), c),
                    Some((old_key, _)) => if old_key.key_id != key_id {
                        (Err(InstructionError::InvalidArgument), c)
                    } else {
                        match spec_complete_rotation(old_key, t.successor_key_id) {
                            Err(e) => (Err(spec_map_err(e)), c),
                            Ok(rotated) => if spec_successor_ok(c, t.successor_key_id) is Err {
                                (Err(spec_successor_ok(c, t.successor_key_id)->Err_0), c)
                            } else {
                                and_then(
                                    spec_store_key(c, 0, rotated),
                                    |c1: ContextModel| spec_write(c1, 2, enc_rotation_intent(RotationIntent { is_executed: true, ..t })),
                                )
                            },
                        }
                    },
                }
            },
        }
    }
}

/// RevokeKey: accounts `[key record (w), owner (s)]`.
pub open spec fn spec_revoke_key(c: ContextModel, key_id: [u8; 32]) -> (Result<(), InstructionError>, ContextModel) {
    if c.accounts.len() < 2 {
        (Err(InstructionError::NotEnoughAccountKeys), c)
    } else if !c.is_signer(1) {
        (Err(InstructionError::MissingRequiredSignature), c)
    } else {
        match dec_key_record(c.data(0)) {
            None => (Err(InstructionError::InvalidArgument), c),
            Some((k, _)) => if k.key_id != key_id {
                (Err(InstructionError::InvalidArgument), c)
            } else if k.owner != c.key(1) {
                (Err(InstructionError::IncorrectAuthority), c)
            } else {
                match spec_revoke(k) {
                    Err(e) => (Err(spec_map_err(e)), c),
                    Ok(k2) => spec_store_key(c, 0, k2),
                }
            },
        }
    }
}

/// MarkCompromised: accounts `[key record (w), config, upgrade authority (s)]`.
pub open spec fn spec_compromise(c: ContextModel, key_id: [u8; 32]) -> (Result<(), InstructionError>, ContextModel) {
    if c.accounts.len() < 3 {
        (Err(InstructionError::NotEnoughAccountKeys), c)
    } else {
        match dec_rev_registry_config(c.data(1)) {
            None => (Err(InstructionError::InvalidAccountData), c),
            Some((cfg, _)) => if !cfg.is_initialized {
                (Err(err(RevocationRegistryError::Uninitialized)), c)
            } else if !c.is_signer(2) {
                (Err(InstructionError::MissingRequiredSignature), c)
            } else if c.key(2) != cfg.upgrade_authority {
                (Err(err(RevocationRegistryError::Unauthorized)), c)
            } else {
                match dec_key_record(c.data(0)) {
                    None => (Err(InstructionError::InvalidArgument), c),
                    Some((k, _)) => if k.key_id != key_id {
                        (Err(InstructionError::InvalidArgument), c)
                    } else {
                        match spec_mark_compromised(k) {
                            Err(e) => (Err(spec_map_err(e)), c),
                            Ok(k2) => spec_store_key(c, 0, k2),
                        }
                    },
                }
            },
        }
    }
}

/// IsRevoked: accounts `[key record]`; returns `[1]` when the key must be
/// rejected, `[0]` otherwise; an unregistered (all-zero) record is not revoked.
pub open spec fn spec_is_revoked(c: ContextModel, key_id: [u8; 32]) -> (Result<(), InstructionError>, ContextModel) {
    if c.accounts.len() < 1 {
        (Err(InstructionError::NotEnoughAccountKeys), c)
    } else if all_zero(c.data(0)) {
        (Ok(()), c.with_return(seq![0u8]))
    } else {
        match dec_key_record(c.data(0)) {
            None => (Err(InstructionError::InvalidAccountData), c),
            Some((k, _)) => if k.key_id != key_id {
                (Err(InstructionError::InvalidArgument), c)
            } else {
                (Ok(()), c.with_return(seq![if k.state.spec_is_invalid() { 1u8 } else { 0u8 }]))
            },
        }
    }
}

pub open spec fn spec_process(c: ContextModel, data: Seq<u8>) -> (Result<(), InstructionError>, ContextModel) {
    match dec_revocation_registry_instruction(data) {
        Some((ix, rest)) => if rest.len() != 0 {
            (Err(InstructionError::InvalidInstructionData), c)
        } else {
            match ix {
                RevocationRegistryInstructionModel::InitializeRegistry { current_slot } => spec_initialize_registry(c, current_slot),
                RevocationRegistryInstructionModel::RegisterKey { key_id, key_type, key_algorithm, public_key_bytes, expires_at_slot, current_slot } =>
                    spec_register_key(c, key_id, key_type, key_algorithm, public_key_bytes, expires_at_slot, current_slot),
                RevocationRegistryInstructionModel::InitiateRotation { key_id, successor_key_id, required_approvals, ttl_slots, current_slot } =>
                    spec_initiate(c, key_id, successor_key_id, required_approvals, ttl_slots, current_slot),
                RevocationRegistryInstructionModel::ApproveRotation { key_id, current_slot } => spec_approve_rotation(c, key_id, current_slot),
                RevocationRegistryInstructionModel::ExecuteRotation { key_id, current_slot } => spec_execute_rotation(c, key_id, current_slot),
                RevocationRegistryInstructionModel::RevokeKey { key_id } => spec_revoke_key(c, key_id),
                RevocationRegistryInstructionModel::MarkCompromised { key_id, .. } => spec_compromise(c, key_id),
                RevocationRegistryInstructionModel::IsRevoked { key_id } => spec_is_revoked(c, key_id),
            }
        },
        None => (Err(InstructionError::InvalidInstructionData), c),
    }
}

pub struct Processor;

impl Processor {
    pub fn process(ctx: &mut InstructionContext, instruction_data: &[u8]) -> (r: Result<(), InstructionError>)
        ensures
            (r, final(ctx)@) == spec_process(old(ctx)@, instruction_data@),
    {
        let instruction = match revocation_registry_instruction_from_slice(instruction_data) {
            Some(ix) => ix,
            None => return Err(InstructionError::InvalidInstructionData),
        };
        match instruction {
            RevocationRegistryInstruction::InitializeRegistry { current_slot } => Self::process_initialize_registry(ctx, current_slot),
            RevocationRegistryInstruction::RegisterKey { key_id, key_type, key_algorithm, public_key_bytes, expires_at_slot, current_slot } =>
                Self::process_register_key(ctx, key_id, key_type, key_algorithm, public_key_bytes, expires_at_slot, current_slot),
            RevocationRegistryInstruction::InitiateRotation { key_id, successor_key_id, required_approvals, ttl_slots, current_slot } =>
                Self::process_initiate_rotation(ctx, key_id, successor_key_id, required_approvals, ttl_slots, current_slot),
            RevocationRegistryInstruction::ApproveRotation { key_id, current_slot } => Self::process_approve_rotation(ctx, key_id, current_slot),
            RevocationRegistryInstruction::ExecuteRotation { key_id, current_slot } => Self::process_execute_rotation(ctx, key_id, current_slot),
            RevocationRegistryInstruction::RevokeKey { key_id } => Self::process_revoke_key(ctx, key_id),
            RevocationRegistryInstruction::MarkCompromised { key_id, reason_code } => Self::process_mark_compromised(ctx, key_id, reason_code),
            RevocationRegistryInstruction::IsRevoked { key_id } => Self::process_is_revoked(ctx, key_id),
        }
    }

    fn write_key(ctx: &mut InstructionContext, i: usize, record: &KeyRecord) -> (r: Result<(), InstructionError>)
        requires
            i < old(ctx)@.accounts.len(),
        ensures
            (r, final(ctx)@) == spec_store_key(old(ctx)@, i as int, record@),
    {
        match key_record_to_vec(record) {
            None => Err(InstructionError::InvalidAccountData),
            Some(bytes) => ctx.write_account(i, &bytes),
        }
    }

    pub fn process_initialize_registry(ctx: &mut InstructionContext, current_slot: u64) -> (r: Result<(), InstructionError>)
        ensures
            (r, final(ctx)@) == spec_initialize_registry(old(ctx)@, current_slot),
    {
        if let Err(e) = ctx.check_number_of_instruction_accounts(2) {
            return Err(e);
        }
        if !ctx.is_signer(1) {
            return Err(InstructionError::MissingRequiredSignature);
        }
        let upgrade_authority = ctx.key(1);
        if let Ok(existing) = RevRegistryConfig::deserialize_padded(ctx.data(0)) {
            if existing.is_initialized {
                return Err(InstructionError::Custom(RevocationRegistryError::AlreadyInitialized.code()));
            }
        }
        let config = RevRegistryConfig::new(upgrade_authority, current_slot);
        ctx.write_account(0, &rev_registry_config_to_vec(&config))
    }

    pub fn process_register_key(
        ctx: &mut InstructionContext,
        key_id: [u8; 32],
        key_type: KeyType,
        key_algorithm: KeyAlgorithm,
        public_key_bytes: Vec<u8>,
        expires_at_slot: Option<u64>,
        current_slot: u64,
    ) -> (r: Result<(), InstructionError>)
        ensures
            (r, final(ctx)@) == spec_register_key(old(ctx)@, key_id, key_type, key_algorithm, public_key_bytes@, expires_at_slot, current_slot),
    {
        if let Err(e) = ctx.check_number_of_instruction_accounts(2) {
            return Err(e);
        }
        if !ctx.is_signer(1) {
            return Err(InstructionError::MissingRequiredSignature);
        }
        let owner = ctx.key(1);
        if let Ok(existing) = deserialize_key_record(ctx.data(0)) {
            if !existing.is_revoked() {
                return Err(InstructionError::Custom(RevocationRegistryError::KeyAlreadyExists.code()));
            }
        }
        let record = KeyRecord {
            key_id,
            owner,
            key_type,
            key_algorithm,
            public_key_bytes,
            state: KeyState::Active,
            created_at_slot: current_slot,
            expires_at_slot,
            successor_key_id: None,
        };
        Self::write_key(ctx, 0, &record)
    }

    pub fn process_initiate_rotation(
        ctx: &mut InstructionContext,
        key_id: [u8; 32],
        successor_key_id: [u8; 32],
        required_approvals: u8,
        ttl_slots: u64,
        current_slot: u64,
    ) -> (r: Result<(), InstructionError>)
        ensures
            (r, final(ctx)@) == spec_initiate(old(ctx)@, key_id, successor_key_id, required_approvals, ttl_slots, current_slot),
    {
        if let Err(e) = ctx.check_number_of_instruction_accounts(3) {
            return Err(e);
        }
        if !ctx.is_signer(2) {
            return Err(InstructionError::MissingRequiredSignature);
        }
        let signer = ctx.key(2);
        let mut record = match deserialize_key_record(ctx.data(0)) {
            Ok(k) => k,
            Err(e) => return Err(map_err(e)),
        };
        if record.owner != signer {
            return Err(InstructionError::IncorrectAuthority);
        }
        if !bytes32_eq(&record.key_id, &key_id) {
            return Err(InstructionError::InvalidArgument);
        }
        if let Err(e) = record.initiate_rotation() {
            return Err(map_err(e));
        }
        if let Err(e) = Self::write_key(ctx, 0, &record) {
            return Err(e);
        }
        let intent = RotationIntent {
            key_id,
            successor_key_id,
            initiator: signer,
            created_at_slot: current_slot,
            expires_at_slot: current_slot.saturating_add(ttl_slots),
            required_approvals,
            approval_count: 0,
            is_executed: false,
        };
        ctx.write_account(1, &rotation_intent_to_vec(&intent))
    }

    fn load_live_intent(ctx: &InstructionContext, i: usize, key_id: [u8; 32], current_slot: u64) -> (r: Result<RotationIntent, InstructionError>)
        requires
            i < ctx@.accounts.len(),
        ensures
            r == spec_live_intent(ctx@, i as int, key_id, current_slot),
    {
        let intent = match deserialize_rotation_intent(ctx.data(i)) {
            Ok(t) => t,
            Err(e) => return Err(map_err(e)),
        };
        if !bytes32_eq(&intent.key_id, &key_id) {
            return Err(InstructionError::InvalidArgument);
        }
        if intent.is_executed {
            return Err(InstructionError::Custom(RevocationRegistryError::RotationAlreadyApproved.code()));
        }
        if intent.is_expired(current_slot) {
            return Err(InstructionError::Custom(RevocationRegistryError::RotationExpired.code()));
        }
        Ok(intent)
    }

    pub fn process_approve_rotation(ctx: &mut InstructionContext, key_id: [u8; 32], current_slot: u64) -> (r: Result<(), InstructionError>)
        ensures
            (r, final(ctx)@) == spec_approve_rotation(old(ctx)@, key_id, current_slot),
    {
        if let Err(e) = ctx.check_number_of_instruction_accounts(3) {
            return Err(e);
        }
        if !ctx.is_signer(2) {
            return Err(InstructionError::MissingRequiredSignature);
        }
        let approver = ctx.key(2);
        let mut intent = match Self::load_live_intent(ctx, 0, key_id, current_slot) {
            Ok(t) => t,
            Err(e) => return Err(e),
        };
        if let Err(e) = Self::fresh_approval(ctx, &key_id, &approver) {
            return Err(e);
        }
        intent.approval_count = intent.approval_count.saturating_add(1);
        if let Err(e) = ctx.write_account(0, &rotation_intent_to_vec(&intent)) {
            return Err(e);
        }
        let approval = RotationApproval { key_id, approver, approved_at_slot: current_slot };
        ctx.write_account(1, &rotation_approval_to_vec(&approval))
    }

    pub fn process_execute_rotation(ctx: &mut InstructionContext, key_id: [u8; 32], current_slot: u64) -> (r: Result<(), InstructionError>)
        ensures
            (r, final(ctx)@) == spec_execute_rotation(old(ctx)@, key_id, current_slot),
    {
        if let Err(e) = ctx.check_number_of_instruction_accounts(4) {
            return Err(e);
        }
        if !ctx.is_signer(3) {
            return Err(InstructionError::MissingRequiredSignature);
        }
        let mut intent = match Self::load_live_intent(ctx, 2, key_id, current_slot) {
            Ok(t) => t,
            Err(e) => return Err(e),
        };
        if !intent.quorum_met() {
            return Err(InstructionError::Custom(RevocationRegistryError::QuorumNotMet.code()));
        }
        let successor_key_id = intent.successor_key_id;
        let mut old_record = match deserialize_key_record(ctx.data(0)) {
            Ok(k) => k,
            Err(e) => return Err(map_err(e)),
        };
        if !bytes32_eq(&old_record.key_id, &key_id) {
            return Err(InstructionError::InvalidArgument);
        }
        if let Err(e) = old_record.complete_rotation(successor_key_id) {
            return Err(map_err(e));
        }
        if let Err(e) = Self::successor_ok(ctx, &successor_key_id) {
            return Err(e);
        }
        if let Err(e) = Self::write_key(ctx, 0, &old_record) {
            return Err(e);
        }
        intent.is_executed = true;
        ctx.write_account(2, &rotation_intent_to_vec(&intent))
    }

    fn fresh_approval(ctx: &InstructionContext, key_id: &[u8; 32], approver: &Pubkey) -> (r: Result<(), InstructionError>)
        requires
            3 <= ctx@.accounts.len(),
        ensures
            r == spec_fresh_approval(ctx@, *key_id, *approver),
    {
        if let Ok(a) = deserialize_rotation_approval(ctx.data(1)) {
            if bytes32_eq(&a.key_id, key_id) && a.approver == *approver {
                return Err(InstructionError::Custom(RevocationRegistryError::RotationAlreadyApproved.code()));
            }
        }
        if is_all_zero(ctx.data(1)) {
            Ok(())
        } else {
            Err(InstructionError::InvalidArgument)
        }
    }

    fn successor_ok(ctx: &InstructionContext, successor_key_id: &[u8; 32]) -> (r: Result<(), InstructionError>)
        requires
            4 <= ctx@.accounts.len(),
        ensures
            r == spec_successor_ok(ctx@, *successor_key_id),
    {
        if is_all_zero(ctx.data(1)) {
            return Err(InstructionError::Custom(RevocationRegistryError::SuccessorKeyMissing.code()));
        }
        match deserialize_key_record(ctx.data(1)) {
            Err(_) => Err(InstructionError::InvalidArgument),
            Ok(succ) => {
                if !bytes32_eq(&succ.key_id, successor_key_id) {
                    Err(InstructionError::InvalidArgument)
                } else if succ.state != KeyState::Active {
                    Err(InstructionError::Custom(RevocationRegistryError::SuccessorKeyMissing.code()))
                } else {
                    Ok(())
                }
            },
        }
    }

    pub fn process_revoke_key(ctx: &mut InstructionContext, key_id: [u8; 32]) -> (r: Result<(), InstructionError>)
        ensures
            (r, final(ctx)@) == spec_revoke_key(old(ctx)@, key_id),
    {
        if let Err(e) = ctx.check_number_of_instruction_accounts(2) {
            return Err(e);
        }
        if !ctx.is_signer(1) {
            return Err(InstructionError::MissingRequiredSignature);
        }
        let signer = ctx.key(1);
        let mut record = match deserialize_key_record(ctx.data(0)) {
            Ok(k) => k,
            Err(e) => return Err(map_err(e)),
        };
        if !bytes32_eq(&record.key_id, &key_id) {
            return Err(InstructionError::InvalidArgument);
        }
        if record.owner != signer {
            return Err(InstructionError::IncorrectAuthority);
        }
        if let Err(e) = record.revoke() {
            return Err(map_err(e));
        }
        Self::write_key(ctx, 0, &record)
    }

    pub fn process_mark_compromised(ctx: &mut InstructionContext, key_id: [u8; 32], reason_code: u16) -> (r: Result<(), InstructionError>)
        ensures
            (r, final(ctx)@) == spec_compromise(old(ctx)@, key_id),
    {
        if let Err(e) = ctx.check_number_of_instruction_accounts(3) {
            return Err(e);
        }
        let config = match RevRegistryConfig::deserialize_padded(ctx.data(1)) {
            Ok(c) => c,
            Err(_) => return Err(InstructionError::InvalidAccountData),
        };
        if let Err(e) = config.ensure_initialized() {
            return Err(map_err(e));
        }
        if !ctx.is_signer(2) {
            return Err(InstructionError::MissingRequiredSignature);
        }
        if let Err(e) = config.ensure_upgrade_authority(&ctx.key(2)) {
            return Err(map_err(e));
        }
        let mut record = match deserialize_key_record(ctx.data(0)) {
            Ok(k) => k,
            Err(e) => return Err(map_err(e)),
        };
        if !bytes32_eq(&record.key_id, &key_id) {
            return Err(InstructionError::InvalidArgument);
        }
        if let Err(e) = record.mark_compromised() {
            return Err(map_err(e));
        }
        Self::write_key(ctx, 0, &record)
    }

    pub fn process_is_revoked(ctx: &mut InstructionContext, key_id: [u8; 32]) -> (r: Result<(), InstructionError>)
        ensures
            (r, final(ctx)@) == spec_is_revoked(old(ctx)@, key_id),
    {
        if let Err(e) = ctx.check_number_of_instruction_accounts(1) {
            return Err(e);
        }
        let revoked = if is_all_zero(ctx.data(0)) {
            false
        } else {
            match deserialize_key_record(ctx.data(0)) {
                Ok(record) => {
                    if !bytes32_eq(&record.key_id, &key_id) {
                        return Err(InstructionError::InvalidArgument);
                    }
                    record.is_revoked()
                },
                Err(_) => return Err(InstructionError::InvalidAccountData),
            }
        };
        let byte: u8 = if revoked { 1 } else { 0 };
        let out = vec![byte];
        assert(out@ =~= seq![byte]);
        ctx.set_return_data(out);
        Ok(())
    }
}

/// An approver counts once: once an approval of `key_id` has been recorded,
/// the same approver's next approval through the same approval record is
/// refused and changes nothing, so the intent's approval count stays as it
/// was.
pub proof fn law_approver_counts_once(c: ContextModel, key_id: [u8; 32], first_slot: u64, next_slot: u64)
    requires
        spec_approve_rotation(c, key_id, first_slot).0 is Ok,
    ensures
        spec_approve_rotation(spec_approve_rotation(c, key_id, first_slot).1, key_id, next_slot).0 is Err,
        spec_approve_rotation(spec_approve_rotation(c, key_id, first_slot).1, key_id, next_slot).1
            == spec_approve_rotation(c, key_id, first_slot).1,
{
    let appr = RotationApproval { key_id, approver: c.key(2), approved_at_slot: first_slot };
    let bytes = enc_rotation_approval(appr);
    let c1 = spec_approve_rotation(c, key_id, first_slot).1;
    let t = spec_live_intent(c, 0, key_id, first_slot)->Ok_0;
    let c0 = spec_write(c, 0, enc_rotation_intent(RotationIntent { approval_count: t.approval_count.saturating_add(1), ..t })).1;
    assert(c1 == spec_write(c0, 1, bytes).1);
    let zeros = Seq::new((c0.data(1).len() - bytes.len()) as nat, |k: int| 0u8);
    assert(c1.data(1) == bytes + zeros);
    lemma_rotation_approval(appr, zeros);
    assert(c1.key(2) == c.key(2));
}

} // verus!
