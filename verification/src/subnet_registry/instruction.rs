//! Instruction builders: each returns the instruction with its encoded data and
//! the accounts it expects, in order.
use vstd::prelude::*;
use crate::permission_types::types::{ClearanceTier};
use crate::pubkey::{Pubkey};
use crate::runtime::{AccountMeta, Instruction};
use crate::subnet_registry::types::{SubnetRegistryInstruction, enc_subnet_registry_instruction, subnet_registry_instruction_to_vec};

verus! {

pub fn initialize_registry(
    program_id: &Pubkey,
    registry_config_pda: &Pubkey,
    upgrade_authority: &Pubkey,
    current_slot: u64,
) -> (r: Instruction)
    ensures
        r.program_id == *program_id,
        r.accounts@ == seq![AccountMeta { pubkey: *registry_config_pda, is_signer: false, is_writable: true }, AccountMeta { pubkey: *upgrade_authority, is_signer: true, is_writable: false }],
        r.data@ == enc_subnet_registry_instruction(SubnetRegistryInstruction::InitializeRegistry { current_slot }),
{
    let data = subnet_registry_instruction_to_vec(&SubnetRegistryInstruction::InitializeRegistry { current_slot });
    Instruction {
        program_id: *program_id,
        accounts: vec![
            AccountMeta::new(*registry_config_pda, false),
            AccountMeta::new_readonly(*upgrade_authority, true),
        ],
        data,
    }
}

pub fn create_subnet(
    program_id: &Pubkey,
    subnet_record_pda: &Pubkey,
    owner: &Pubkey,
    subnet_id: [u8; 32],
    min_clearance: ClearanceTier,
    current_slot: u64,
) -> (r: Instruction)
    ensures
        r.program_id == *program_id,
        r.accounts@ == seq![AccountMeta { pubkey: *subnet_record_pda, is_signer: false, is_writable: true }, AccountMeta { pubkey: *owner, is_signer: true, is_writable: false }],
        r.data@ == enc_subnet_registry_instruction(SubnetRegistryInstruction::CreateSubnet { subnet_id, min_clearance, current_slot }),
{
    let data = subnet_registry_instruction_to_vec(&SubnetRegistryInstruction::CreateSubnet { subnet_id, min_clearance, current_slot });
    Instruction {
        program_id: *program_id,
        accounts: vec![
            AccountMeta::new(*subnet_record_pda, false),
            AccountMeta::new_readonly(*owner, true),
        ],
        data,
    }
}

pub fn freeze_subnet(
    program_id: &Pubkey,
    subnet_record_pda: &Pubkey,
    authority: &Pubkey,
    subnet_id: [u8; 32],
    reason_code: u16,
) -> (r: Instruction)
    ensures
        r.program_id == *program_id,
        r.accounts@ == seq![AccountMeta { pubkey: *subnet_record_pda, is_signer: false, is_writable: true }, AccountMeta { pubkey: *authority, is_signer: true, is_writable: false }],
        r.data@ == enc_subnet_registry_instruction(SubnetRegistryInstruction::FreezeSubnet { subnet_id, reason_code }),
{
    let data = subnet_registry_instruction_to_vec(&SubnetRegistryInstruction::FreezeSubnet { subnet_id, reason_code });
    Instruction {
        program_id: *program_id,
        accounts: vec![
            AccountMeta::new(*subnet_record_pda, false),
            AccountMeta::new_readonly(*authority, true),
        ],
        data,
    }
}

pub fn unfreeze_subnet(
    program_id: &Pubkey,
    subnet_record_pda: &Pubkey,
    authority: &Pubkey,
    subnet_id: [u8; 32],
) -> (r: Instruction)
    ensures
        r.program_id == *program_id,
        r.accounts@ == seq![AccountMeta { pubkey: *subnet_record_pda, is_signer: false, is_writable: true }, AccountMeta { pubkey: *authority, is_signer: true, is_writable: false }],
        r.data@ == enc_subnet_registry_instruction(SubnetRegistryInstruction::UnfreezeSubnet { subnet_id }),
{
    let data = subnet_registry_instruction_to_vec(&SubnetRegistryInstruction::UnfreezeSubnet { subnet_id });
    Instruction {
        program_id: *program_id,
        accounts: vec![
            AccountMeta::new(*subnet_record_pda, false),
            AccountMeta::new_readonly(*authority, true),
        ],
        data,
    }
}

pub fn add_subnet_member(
    program_id: &Pubkey,
    subnet_record_pda: &Pubkey,
    membership_pda: &Pubkey,
    owner: &Pubkey,
    subnet_id: [u8; 32],
    member: Pubkey,
    key_id: [u8; 32],
    current_slot: u64,
) -> (r: Instruction)
    ensures
        r.program_id == *program_id,
        r.accounts@ == seq![AccountMeta { pubkey: *subnet_record_pda, is_signer: false, is_writable: true }, AccountMeta { pubkey: *membership_pda, is_signer: false, is_writable: true }, AccountMeta { pubkey: *owner, is_signer: true, is_writable: false }],
        r.data@ == enc_subnet_registry_instruction(SubnetRegistryInstruction::AddSubnetMember { subnet_id, member, key_id, current_slot }),
{
    let data = subnet_registry_instruction_to_vec(&SubnetRegistryInstruction::AddSubnetMember { subnet_id, member, key_id, current_slot });
    Instruction {
        program_id: *program_id,
        accounts: vec![
            AccountMeta::new(*subnet_record_pda, false),
            AccountMeta::new(*membership_pda, false),
            AccountMeta::new_readonly(*owner, true),
        ],
        data,
    }
}

pub fn remove_subnet_member(
    program_id: &Pubkey,
    subnet_record_pda: &Pubkey,
    membership_pda: &Pubkey,
    owner: &Pubkey,
    subnet_id: [u8; 32],
    member: Pubkey,
) -> (r: Instruction)
    ensures
        r.program_id == *program_id,
        r.accounts@ == seq![AccountMeta { pubkey: *subnet_record_pda, is_signer: false, is_writable: true }, AccountMeta { pubkey: *membership_pda, is_signer: false, is_writable: true }, AccountMeta { pubkey: *owner, is_signer: true, is_writable: false }],
        r.data@ == enc_subnet_registry_instruction(SubnetRegistryInstruction::RemoveSubnetMember { subnet_id, member }),
{
    let data = subnet_registry_instruction_to_vec(&SubnetRegistryInstruction::RemoveSubnetMember { subnet_id, member });
    Instruction {
        program_id: *program_id,
        accounts: vec![
            AccountMeta::new(*subnet_record_pda, false),
            AccountMeta::new(*membership_pda, false),
            AccountMeta::new_readonly(*owner, true),
        ],
        data,
    }
}

pub fn check_subnet_access(
    program_id: &Pubkey,
    subnet_record_pda: &Pubkey,
    membership_pda: &Pubkey,
    subnet_id: [u8; 32],
    member: Pubkey,
) -> (r: Instruction)
    ensures
        r.program_id == *program_id,
        r.accounts@ == seq![AccountMeta { pubkey: *subnet_record_pda, is_signer: false, is_writable: false }, AccountMeta { pubkey: *membership_pda, is_signer: false, is_writable: false }],
        r.data@ == enc_subnet_registry_instruction(SubnetRegistryInstruction::CheckSubnetAccess { subnet_id, member }),
{
    let data = subnet_registry_instruction_to_vec(&SubnetRegistryInstruction::CheckSubnetAccess { subnet_id, member });
    Instruction {
        program_id: *program_id,
        accounts: vec![
            AccountMeta::new_readonly(*subnet_record_pda, false),
            AccountMeta::new_readonly(*membership_pda, false),
        ],
        data,
    }
}

} // verus!
