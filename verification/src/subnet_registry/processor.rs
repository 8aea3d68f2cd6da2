//! Instruction processing of the subnet registry.
use vstd::prelude::*;
use crate::errors::{map_err, spec_map_err, InstructionError};
use crate::permission_types::types::ClearanceTier;
use crate::pubkey::{bytes32_eq, Pubkey};
use crate::runtime::{all_zero, and_then, is_all_zero, spec_write, ContextModel, InstructionContext};
use crate::subnet_registry::state::{
    deserialize_subnet_membership, deserialize_subnet_record, spec_add_member, spec_remove_member,
};
use crate::subnet_registry::types::{
    dec_subnet_membership, dec_subnet_record, dec_subnet_registry_config,
    dec_subnet_registry_instruction, enc_subnet_membership, enc_subnet_record,
    enc_subnet_registry_config, fits_subnet_record, subnet_membership_to_vec, subnet_record_to_vec,
    subnet_registry_config_to_vec, subnet_registry_instruction_from_slice, SubnetMembership,
    SubnetRecord, SubnetRecordModel, SubnetRegistryConfig, SubnetRegistryError,
    SubnetRegistryInstruction,
};

verus! {

pub open spec fn err(e: SubnetRegistryError) -> InstructionError {
    InstructionError::Custom(e.spec_code())
}

pub open spec fn spec_store_record(c: ContextModel, r: SubnetRecordModel) -> (Result<(), InstructionError>, ContextModel) {
    if !fits_subnet_record(r) {
        (Err(InstructionError::InvalidAccountData), c)
    } else {
        spec_write(c, 0, enc_subnet_record(r))
    }
}

/// InitializeRegistry: accounts `[config (w), upgrade authority (s)]`.
pub open spec fn spec_initialize_registry(c: ContextModel, current_slot: u64) -> (Result<(), InstructionError>, ContextModel) {
    if c.accounts.len() < 2 {
        (Err(InstructionError::NotEnoughAccountKeys), c)
    } else if !c.is_signer(1) {
        (Err(InstructionError::MissingRequiredSignature), c)
    } else if dec_subnet_registry_config(c.data(0)) matches Some((cfg, _)) && cfg.is_initialized {
        (Err(err(SubnetRegistryError::AlreadyInitialized)), c)
    } else {
        spec_write(c, 0, enc_subnet_registry_config(SubnetRegistryConfig { is_initialized: true, upgrade_authority: c.key(1), created_at_slot: current_slot }))
    }
}

/// CreateSubnet: accounts `[subnet record (w), owner (s)]`; the new subnet is
/// unfrozen and has no members.
pub open spec fn spec_create_subnet(c: ContextModel, subnet_id: [u8; 32], min_clearance: ClearanceTier, current_slot: u64) -> (Result<(), InstructionError>, ContextModel) {
    if c.accounts.len() < 2 {
        (Err(InstructionError::NotEnoughAccountKeys), c)
    } else if !c.is_signer(1) {
        (Err(InstructionError::MissingRequiredSignature), c)
    } else if dec_subnet_record(c.data(0)) matches Some((r, _)) && r.is_initialized {
        (Err(err(SubnetRegistryError::SubnetAlreadyExists)), c)
    } else {
        spec_store_record(c, SubnetRecordModel {
            is_initialized: true,
            is_frozen: false,
            subnet_id,
            owner: c.key(1),
            min_clearance,
            freeze_reason_code: None,
            validator_set: Seq::empty(),
            created_at_slot: current_slot,
        })
    }
}

/// Account 2, owned by this program, holds the initialized registry
/// configuration whose upgrade authority is account 1.
pub open spec fn spec_is_upgrade_authority(c: ContextModel) -> bool {
    &&& c.accounts.len() >= 3
    &&& c.owner(2) == c.program_id
    &&& dec_subnet_registry_config(c.data(2)) matches Some((cfg, _))
    &&& cfg.is_initialized
    &&& cfg.upgrade_authority == c.key(1)
}

/// The subnet record in account 0 for `subnet_id`, owned by the signer in
/// account `s` (or, where `admin` allows it, with account 1 the registry's
/// upgrade authority).
pub open spec fn spec_owned_record(c: ContextModel, s: int, subnet_id: [u8; 32], admin: bool) -> Result<SubnetRecordModel, InstructionError> {
    if !c.is_signer(s) {
        Err(InstructionError::MissingRequiredSignature)
    } else {
        match dec_subnet_record(c.data(0)) {
            None => Err(InstructionError::InvalidArgument),
            Some((r, _)) => if r.subnet_id != subnet_id {
                Err(InstructionError::InvalidArgument)
            } else if r.owner != c.key(s) && !(admin && spec_is_upgrade_authority(c)) {
                Err(InstructionError::IncorrectAuthority)
            } else {
                Ok(r)
            },
        }
    }
}

/// FreezeSubnet / UnfreezeSubnet: accounts `[subnet record (w), owner or
/// upgrade authority (s), registry config (when the signer is not the
/// owner)]`.
pub open spec fn spec_set_frozen(c: ContextModel, subnet_id: [u8; 32], freeze: Option<u16>) -> (Result<(), InstructionError>, ContextModel) {
    if c.accounts.len() < 2 {
        (Err(InstructionError::NotEnoughAccountKeys), c)
    } else {
        match spec_owned_record(c, 1, subnet_id, true) {
            Err(e) => (Err(e), c),
            Ok(r) => spec_store_record(c, SubnetRecordModel { is_frozen: freeze is Some, freeze_reason_code: freeze, ..r }),
        }
    }
}

/// AddSubnetMember: accounts `[subnet record (w), membership (w), owner (s)]`.
pub open spec fn spec_add(c: ContextModel, subnet_id: [u8; 32], member: Pubkey, key_id: [u8; 32], current_slot: u64) -> (Result<(), InstructionError>, ContextModel) {
    if c.accounts.len() < 3 {
        (Err(InstructionError::NotEnoughAccountKeys), c)
    } else {
        match spec_owned_record(c, 2, subnet_id, false) {
            Err(e) => (Err(e), c),
            Ok(r) => match spec_add_member(r, member) {
                Err(e) => (Err(spec_map_err(e)), c),
                Ok(r2) => and_then(
                    spec_store_record(c, r2),
                    |c1: ContextModel| spec_write(c1, 1, enc_subnet_membership(SubnetMembership {
                        subnet_id,
                        member,
                        key_id,
                        joined_at_slot: current_slot,
                        is_active: true,
                    })),
                ),
            },
        }
    }
}

/// RemoveSubnetMember: accounts `[subnet record (w), membership (w), owner (s)]`;
/// a present membership is marked inactive.
pub open spec fn spec_remove(c: ContextModel, subnet_id: [u8; 32], member: Pubkey) -> (Result<(), InstructionError>, ContextModel) {
    if c.accounts.len() < 3 {
        (Err(InstructionError::NotEnoughAccountKeys), c)
    } else {
        match spec_owned_record(c, 2, subnet_id, false) {
            Err(e) => (Err(e), c),
            Ok(r) => match spec_remove_member(r, member) {
                Err(e) => (Err(spec_map_err(e)), c),
                Ok(r2) => and_then(
                    spec_store_record(c, r2),
                    |c1: ContextModel| if all_zero(c1.data(1)) {
                        (Ok(()), c1)
                    } else {
                        match dec_subnet_membership(c1.data(1)) {
                            None => (Err(InstructionError::InvalidArgument), c1),
                            Some((m, _)) => spec_write(c1, 1, enc_subnet_membership(SubnetMembership { is_active: false, ..m })),
                        }
                    },
                ),
            },
        }
    }
}

/// CheckSubnetAccess: accounts `[subnet record, membership]`; returns `[1]`
/// when the member's membership is active and the subnet not frozen.
pub open spec fn spec_check_access(c: ContextModel, subnet_id: [u8; 32], member: Pubkey) -> (Result<(), InstructionError>, ContextModel) {
    if c.accounts.len() < 2 {
        (Err(InstructionError::NotEnoughAccountKeys), c)
    } else {
        match dec_subnet_record(c.data(0)) {
            None => (Err(InstructionError::InvalidArgument), c),
            Some((r, _)) => if r.subnet_id != subnet_id {
                (Err(InstructionError::InvalidArgument), c)
            } else if r.is_frozen {
                (Err(err(SubnetRegistryError::SubnetFrozen)), c)
            } else if all_zero(c.data(1)) {
                (Err(err(SubnetRegistryError::MemberNotFound)), c)
            } else {
                match dec_subnet_membership(c.data(1)) {
                    None => (Err(InstructionError::InvalidArgument), c),
                    Some((m, _)) => if m.member != member || !m.is_active {
                        (Err(err(SubnetRegistryError::MemberNotFound)), c)
                    } else {
                        (Ok(()), c.with_return(seq![1u8]))
                    },
                }
            },
        }
    }
}

pub open spec fn spec_process(c: ContextModel, data: Seq<u8>) -> (Result<(), InstructionError>, ContextModel) {
    match dec_subnet_registry_instruction(data) {
        Some((ix, rest)) => if rest.len() != 0 {
            (Err(InstructionError::InvalidInstructionData), c)
        } else {
            match ix {
                SubnetRegistryInstruction::InitializeRegistry { current_slot } => spec_initialize_registry(c, current_slot),
                SubnetRegistryInstruction::CreateSubnet { subnet_id, min_clearance, current_slot } => spec_create_subnet(c, subnet_id, min_clearance, current_slot),
                SubnetRegistryInstruction::FreezeSubnet { subnet_id, reason_code } => spec_set_frozen(c, subnet_id, Some(reason_code)),
                SubnetRegistryInstruction::UnfreezeSubnet { subnet_id } => spec_set_frozen(c, subnet_id, None),
                SubnetRegistryInstruction::AddSubnetMember { subnet_id, member, key_id, current_slot } => spec_add(c, subnet_id, member, key_id, current_slot),
                SubnetRegistryInstruction::RemoveSubnetMember { subnet_id, member } => spec_remove(c, subnet_id, member),
                SubnetRegistryInstruction::CheckSubnetAccess { subnet_id, member } => spec_check_access(c, subnet_id, member),
            }
        },
        None => (Err(InstructionError::InvalidInstructionData), c),
    }
}

pub struct Processor;

impl Processor {
    pub fn process(ctx: &mut InstructionContext, instruction_data: &[u8]) -> (r: Result<(), InstructionError>)
        ensures
            (r, final(ctx)@) == spec_process(old(ctx)@, instruction_data@),
    {
        let instruction = match subnet_registry_instruction_from_slice(instruction_data) {
            Some(ix) => ix,
            None => return Err(InstructionError::InvalidInstructionData),
        };
        match instruction {
            SubnetRegistryInstruction::InitializeRegistry { current_slot } => Self::process_initialize_registry(ctx, current_slot),
            SubnetRegistryInstruction::CreateSubnet { subnet_id, min_clearance, current_slot } => Self::process_create_subnet(ctx, subnet_id, min_clearance, current_slot),
            SubnetRegistryInstruction::FreezeSubnet { subnet_id, reason_code } => Self::process_freeze_subnet(ctx, subnet_id, reason_code),
            SubnetRegistryInstruction::UnfreezeSubnet { subnet_id } => Self::process_unfreeze_subnet(ctx, subnet_id),
            SubnetRegistryInstruction::AddSubnetMember { subnet_id, member, key_id, current_slot } => Self::process_add_member(ctx, subnet_id, member, key_id, current_slot),
            SubnetRegistryInstruction::RemoveSubnetMember { subnet_id, member } => Self::process_remove_member(ctx, subnet_id, member),
            SubnetRegistryInstruction::CheckSubnetAccess { subnet_id, member } => Self::process_check_access(ctx, subnet_id, member),
        }
    }

    fn write_record(ctx: &mut InstructionContext, record: &SubnetRecord) -> (r: Result<(), InstructionError>)
        requires
            0 < old(ctx)@.accounts.len(),
        ensures
            (r, final(ctx)@) == spec_store_record(old(ctx)@, record@),
    {
        match subnet_record_to_vec(record) {
            None => Err(InstructionError::InvalidAccountData),
            Some(bytes) => ctx.write_account(0, &bytes),
        }
    }

    fn is_upgrade_authority(ctx: &InstructionContext) -> (r: bool)
        requires
            2 <= ctx@.accounts.len(),
        ensures
            r == spec_is_upgrade_authority(ctx@),
    {
        if ctx.accounts.len() < 3 {
            return false;
        }
        if ctx.owner(2) != ctx.program_id {
            return false;
        }
        match SubnetRegistryConfig::deserialize_padded(ctx.data(2)) {
            Ok(cfg) => cfg.is_initialized && cfg.upgrade_authority == ctx.key(1),
            Err(_) => false,
        }
    }

    fn load_owned_record(ctx: &InstructionContext, s: usize, subnet_id: &[u8; 32], admin: bool) -> (r: Result<SubnetRecord, InstructionError>)
        requires
            1 < ctx@.accounts.len(),
            s < ctx@.accounts.len(),
        ensures
            r.is_ok() == spec_owned_record(ctx@, s as int, *subnet_id, admin).is_ok(),
            r matches Ok(v) ==> spec_owned_record(ctx@, s as int, *subnet_id, admin) == Ok::<_, InstructionError>(v@),
            r matches Err(e) ==> spec_owned_record(ctx@, s as int, *subnet_id, admin) == Err::<SubnetRecordModel, _>(e),
    {
        if !ctx.is_signer(s) {
            return Err(InstructionError::MissingRequiredSignature);
        }
        let record = match deserialize_subnet_record(ctx.data(0)) {
            Ok(r) => r,
            Err(e) => return Err(map_err(e)),
        };
        if !bytes32_eq(&record.subnet_id, subnet_id) {
            return Err(InstructionError::InvalidArgument);
        }
        if record.owner != ctx.key(s) && !(admin && Self::is_upgrade_authority(ctx)) {
            return Err(InstructionError::IncorrectAuthority);
        }
        Ok(record)
    }

    pub fn process_initialize_registry(ctx: &mut InstructionContext, current_slot: u64) -> (r: Result<(), InstructionError>)
        ensures
            (r, final(ctx)@) == spec_initialize_registry(old(ctx)@, current_slot),
    {
        if let Err(e) = ctx.check_number_of_instruction_accounts(2) {
            return Err(e);
        }
        if !ctx.is_signer(1) {
            return Err(InstructionError::MissingRequiredSignature);
        }
        let upgrade_authority = ctx.key(1);
        if let Ok(existing) = SubnetRegistryConfig::deserialize_padded(ctx.data(0)) {
            if existing.is_initialized {
                return Err(InstructionError::Custom(SubnetRegistryError::AlreadyInitialized.code()));
            }
        }
        let config = SubnetRegistryConfig::new(upgrade_authority, current_slot);
        ctx.write_account(0, &subnet_registry_config_to_vec(&config))
    }

    pub fn process_create_subnet(ctx: &mut InstructionContext, subnet_id: [u8; 32], min_clearance: ClearanceTier, current_slot: u64) -> (r: Result<(), InstructionError>)
        ensures
            (r, final(ctx)@) == spec_create_subnet(old(ctx)@, subnet_id, min_clearance, current_slot),
    {
        if let Err(e) = ctx.check_number_of_instruction_accounts(2) {
            return Err(e);
        }
        if !ctx.is_signer(1) {
            return Err(InstructionError::MissingRequiredSignature);
        }
        let owner = ctx.key(1);
        if let Ok(existing) = deserialize_subnet_record(ctx.data(0)) {
            if existing.is_initialized {
                return Err(InstructionError::Custom(SubnetRegistryError::SubnetAlreadyExists.code()));
            }
        }
        let record = SubnetRecord {
            is_initialized: true,
            is_frozen: false,
            subnet_id,
            owner,
            min_clearance,
            freeze_reason_code: None,
            validator_set: Vec::new(),
            created_at_slot: current_slot,
        };
        Self::write_record(ctx, &record)
    }

    pub fn process_freeze_subnet(ctx: &mut InstructionContext, subnet_id: [u8; 32], reason_code: u16) -> (r: Result<(), InstructionError>)
        ensures
            (r, final(ctx)@) == spec_set_frozen(old(ctx)@, subnet_id, Some(reason_code)),
    {
        if let Err(e) = ctx.check_number_of_instruction_accounts(2) {
            return Err(e);
        }
        let mut record = match Self::load_owned_record(ctx, 1, &subnet_id, true) {
            Ok(r) => r,
            Err(e) => return Err(e),
        };
        record.freeze(reason_code);
        Self::write_record(ctx, &record)
    }

    pub fn process_unfreeze_subnet(ctx: &mut InstructionContext, subnet_id: [u8; 32]) -> (r: Result<(), InstructionError>)
        ensures
            (r, final(ctx)@) == spec_set_frozen(old(ctx)@, subnet_id, None),
    {
        if let Err(e) = ctx.check_number_of_instruction_accounts(2) {
            return Err(e);
        }
        let mut record = match Self::load_owned_record(ctx, 1, &subnet_id, true) {
            Ok(r) => r,
            Err(e) => return Err(e),
        };
        record.unfreeze();
        Self::write_record(ctx, &record)
    }

    pub fn process_add_member(ctx: &mut InstructionContext, subnet_id: [u8; 32], member: Pubkey, key_id: [u8; 32], current_slot: u64) -> (r: Result<(), InstructionError>)
        ensures
            (r, final(ctx)@) == spec_add(old(ctx)@, subnet_id, member, key_id, current_slot),
    {
        if let Err(e) = ctx.check_number_of_instruction_accounts(3) {
            return Err(e);
        }
        let mut record = match Self::load_owned_record(ctx, 2, &subnet_id, false) {
            Ok(r) => r,
            Err(e) => return Err(e),
        };
        if let Err(e) = record.add_member(member) {
            return Err(map_err(e));
        }
        if let Err(e) = Self::write_record(ctx, &record) {
            return Err(e);
        }
        let membership = SubnetMembership { subnet_id, member, key_id, joined_at_slot: current_slot, is_active: true };
        ctx.write_account(1, &subnet_membership_to_vec(&membership))
    }

    pub fn process_remove_member(ctx: &mut InstructionContext, subnet_id: [u8; 32], member: Pubkey) -> (r: Result<(), InstructionError>)
        ensures
            (r, final(ctx)@) == spec_remove(old(ctx)@, subnet_id, member),
    {
        if let Err(e) = ctx.check_number_of_instruction_accounts(3) {
            return Err(e);
        }
        let mut record = match Self::load_owned_record(ctx, 2, &subnet_id, false) {
            Ok(r) => r,
            Err(e) => return Err(e),
        };
        if let Err(e) = record.remove_member(&member) {
            return Err(map_err(e));
        }
        if let Err(e) = Self::write_record(ctx, &record) {
            return Err(e);
        }
        if !is_all_zero(ctx.data(1)) {
            let mut membership = match deserialize_subnet_membership(ctx.data(1)) {
                Ok(m) => m,
                Err(e) => return Err(map_err(e)),
            };
            membership.is_active = false;
            if let Err(e) = ctx.write_account(1, &subnet_membership_to_vec(&membership)) {
                return Err(e);
            }
        }
        Ok(())
    }

    pub fn process_check_access(ctx: &mut InstructionContext, subnet_id: [u8; 32], member: Pubkey) -> (r: Result<(), InstructionError>)
        ensures
            (r, final(ctx)@) == spec_check_access(old(ctx)@, subnet_id, member),
    {
        if let Err(e) = ctx.check_number_of_instruction_accounts(2) {
            return Err(e);
        }
        let record = match deserialize_subnet_record(ctx.data(0)) {
            Ok(r) => r,
            Err(e) => return Err(map_err(e)),
        };
        if !bytes32_eq(&record.subnet_id, &subnet_id) {
            return Err(InstructionError::InvalidArgument);
        }
        if let Err(e) = record.ensure_not_frozen() {
            return Err(map_err(e));
        }
        if is_all_zero(ctx.data(1)) {
            return Err(InstructionError::Custom(SubnetRegistryError::MemberNotFound.code()));
        }
        let membership = match deserialize_subnet_membership(ctx.data(1)) {
            Ok(m) => m,
            Err(e) => return Err(map_err(e)),
        };
        if membership.member != member || !membership.is_active {
            return Err(InstructionError::Custom(SubnetRegistryError::MemberNotFound.code()));
        }
        let out = vec![1u8];
        assert(out@ =~= seq![1u8]);
        ctx.set_return_data(out);
        Ok(())
    }
}

} // verus!
