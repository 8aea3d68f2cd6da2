//! Instruction processing of the emergency multisig.
//!
//! Accounts of each instruction are listed on [`EmergencyMultisigInstruction`].
use vstd::prelude::*;
use crate::emergency_multisig::spec_id;
use crate::emergency_multisig::state::{
    deserialize_multisig_config, deserialize_proposal, deserialize_vote, spec_ensure_executable,
    spec_is_expired, spec_is_signer, spec_required_approvals,
};
use crate::emergency_multisig::types::{
    dec_emergency_multisig_instruction, dec_multisig_config, dec_proposal, dec_proposal_vote,
    emergency_multisig_instruction_from_slice, enc_multisig_config, enc_proposal,
    enc_proposal_vote, enc_proposed_action, fits_multisig_config, multisig_config_to_vec,
    proposal_to_vec, proposal_vote_to_vec, proposed_action_to_vec, EmergencyMultisigError,
    EmergencyMultisigInstruction, EmergencyMultisigInstructionModel, MultisigConfig,
    MultisigConfigModel, Proposal, ProposalStatus, ProposalVote, ProposedAction,
};
use crate::errors::{map_err, spec_map_err, InstructionError};
use crate::pubkey::{bytes32_eq, Pubkey};
use crate::runtime::{all_zero, and_then, is_all_zero, spec_write, ContextModel, InstructionContext};
use crate::revocation_registry::state::{deserialize_key_record, spec_mark_compromised};
use crate::revocation_registry::types::{dec_key_record, enc_key_record, fits_key_record, key_record_to_vec, lemma_key_record, KeyRecordModel};
use crate::permission_types::types::KeyState;
use crate::subnet_registry::state::deserialize_subnet_record;
use crate::subnet_registry::types::{dec_subnet_record, enc_subnet_record, fits_subnet_record, lemma_subnet_record, subnet_record_to_vec, SubnetRecordModel};

verus! {

pub open spec fn err(e: EmergencyMultisigError) -> InstructionError {
    InstructionError::Custom(e.spec_code())
}

/// InitializeMultisig: accounts `[config (w), upgrade_authority (s)]`.
pub open spec fn spec_initialize(
    c: ContextModel,
    signers: Seq<Pubkey>,
    freeze_quorum: u8,
    revoke_quorum: u8,
    policy_quorum: u8,
    current_slot: u64,
) -> (Result<(), InstructionError>, ContextModel) {
    let config = MultisigConfigModel {
        is_initialized: true,
        upgrade_authority: c.key(1),
        signers,
        freeze_quorum,
        revoke_quorum,
        policy_quorum,
        created_at_slot: current_slot,
    };
    if c.accounts.len() < 2 {
        (Err(InstructionError::NotEnoughAccountKeys), c)
    } else if !c.is_signer(1) {
        (Err(InstructionError::MissingRequiredSignature), c)
    } else if dec_multisig_config(c.data(0)) matches Some((m, _)) && m.is_initialized {
        (Err(err(EmergencyMultisigError::AlreadyInitialized)), c)
    } else if !fits_multisig_config(config) {
        (Err(InstructionError::InvalidAccountData), c)
    } else {
        spec_write(c, 0, enc_multisig_config(config))
    }
}

/// The configuration in account `i` and the checks every later instruction
/// makes on it and on its signer in account `s`: decodable, initialized, signed,
/// and (when `member` is asked) a member signer.
pub open spec fn spec_config_checks(c: ContextModel, i: int, s: int, member: bool) -> Result<MultisigConfigModel, InstructionError> {
    match dec_multisig_config(c.data(i)) {
        None => Err(InstructionError::InvalidAccountData),
        Some((config, _)) => if !config.is_initialized {
            Err(err(EmergencyMultisigError::Uninitialized))
        } else if !c.is_signer(s) {
            Err(InstructionError::MissingRequiredSignature)
        } else if member && !spec_is_signer(config, c.key(s)) {
            Err(err(EmergencyMultisigError::SignerNotMember))
        } else {
            Ok(config)
        },
    }
}

/// ProposeAction: accounts `[proposal (w), config, proposer (s)]`.
pub open spec fn spec_propose(
    c: ContextModel,
    proposal_id: [u8; 32],
    action: ProposedAction,
    ttl_slots: u64,
    current_slot: u64,
) -> (Result<(), InstructionError>, ContextModel) {
    if c.accounts.len() < 3 {
        (Err(InstructionError::NotEnoughAccountKeys), c)
    } else {
        match spec_config_checks(c, 1, 2, true) {
            Err(e) => (Err(e), c),
            Ok(config) => if dec_proposal(c.data(0)) matches Some((p, _)) && p.status == ProposalStatus::Pending {
                (Err(err(EmergencyMultisigError::ProposalAlreadyExists)), c)
            } else {
                spec_write(
                    c,
                    0,
                    enc_proposal(
                        Proposal {
                            proposal_id,
                            proposer: c.key(2),
                            action,
                            status: ProposalStatus::Pending,
                            approval_count: 0,
                            required_approvals: spec_required_approvals(config, action),
                            created_at_slot: current_slot,
                            expires_at_slot: current_slot.saturating_add(ttl_slots),
                        },
                    ),
                )
            },
        }
    }
}

/// The proposal in account 0, with the id the instruction names; a proposal
/// that does not decode is reported as `InvalidArgument`.
pub open spec fn spec_named_proposal(c: ContextModel, proposal_id: [u8; 32]) -> Result<Proposal, InstructionError> {
    match dec_proposal(c.data(0)) {
        None => Err(InstructionError::InvalidArgument),
        Some((p, _)) => if p.proposal_id != proposal_id {
            Err(InstructionError::InvalidArgument)
        } else {
            Ok(p)
        },
    }
}

/// ApproveAction: accounts `[proposal (w), vote (w), config, voter (s)]`.
pub open spec fn spec_approve(c: ContextModel, proposal_id: [u8; 32], current_slot: u64) -> (Result<(), InstructionError>, ContextModel) {
    if c.accounts.len() < 4 {
        (Err(InstructionError::NotEnoughAccountKeys), c)
    } else {
        match spec_config_checks(c, 2, 3, true) {
            Err(e) => (Err(e), c),
            Ok(config) => {
                let voter = c.key(3);
                if !all_zero(c.data(1)) && (dec_proposal_vote(c.data(1)) matches Some((v, _))
                    && v.proposal_id == proposal_id && v.voter == voter) {
                    (Err(err(EmergencyMultisigError::AlreadyApproved)), c)
                } else {
                    match spec_named_proposal(c, proposal_id) {
                        Err(e) => (Err(e), c),
                        Ok(p) => if p.status != ProposalStatus::Pending {
                            (Err(err(EmergencyMultisigError::ProposalAlreadyExecuted)), c)
                        } else if spec_is_expired(p, current_slot) {
                            (Err(err(EmergencyMultisigError::ProposalExpired)), c)
                        } else {
                            let updated = Proposal { approval_count: p.approval_count.saturating_add(1), ..p };
                            let vote = ProposalVote { proposal_id, voter, voted_at_slot: current_slot };
                            and_then(
                                spec_write(c, 0, enc_proposal(updated)),
                                |c1: ContextModel| spec_write(c1, 1, enc_proposal_vote(vote)),
                            )
                        },
                    }
                }
            },
        }
    }
}

/// The subnet record in account 3 for `subnet_id`, frozen with the reason
/// (`Some`) or unfrozen (`None`), as the bytes to store back.
pub open spec fn spec_subnet_target(c: ContextModel, subnet_id: [u8; 32], freeze: Option<u16>) -> Result<Option<Seq<u8>>, InstructionError> {
    if c.accounts.len() < 4 {
        Err(InstructionError::NotEnoughAccountKeys)
    } else {
        match dec_subnet_record(c.data(3)) {
            None => Err(InstructionError::InvalidArgument),
            Some((r, _)) => if r.subnet_id != subnet_id {
                Err(InstructionError::InvalidArgument)
            } else {
                let r2 = SubnetRecordModel { is_frozen: freeze is Some, freeze_reason_code: freeze, ..r };
                if !fits_subnet_record(r2) {
                    Err(InstructionError::InvalidAccountData)
                } else {
                    Ok(Some(enc_subnet_record(r2)))
                }
            },
        }
    }
}

/// The key record in account 3 for `key_id`, marked compromised, as the
/// bytes to store back.
pub open spec fn spec_key_target(c: ContextModel, key_id: [u8; 32]) -> Result<Option<Seq<u8>>, InstructionError> {
    if c.accounts.len() < 4 {
        Err(InstructionError::NotEnoughAccountKeys)
    } else {
        match dec_key_record(c.data(3)) {
            None => Err(InstructionError::InvalidArgument),
            Some((k, _)) => if k.key_id != key_id {
                Err(InstructionError::InvalidArgument)
            } else {
                match spec_mark_compromised(k) {
                    Err(e) => Err(spec_map_err(e)),
                    Ok(k2) => if !fits_key_record(k2) {
                        Err(InstructionError::InvalidAccountData)
                    } else {
                        Ok(Some(enc_key_record(k2)))
                    },
                }
            },
        }
    }
}

/// What executing `action` writes into account 3: the frozen or unfrozen
/// subnet record, the compromised key record, or nothing for a policy
/// upgrade.
pub open spec fn spec_action_target(c: ContextModel, action: ProposedAction) -> Result<Option<Seq<u8>>, InstructionError> {
    match action {
        ProposedAction::FreezeSubnet { subnet_id, reason_code } => spec_subnet_target(c, subnet_id, Some(reason_code)),
        ProposedAction::UnfreezeSubnet { subnet_id } => spec_subnet_target(c, subnet_id, None),
        ProposedAction::EmergencyRevokeKey { key_id, .. } => spec_key_target(c, key_id),
        ProposedAction::UpgradeClearancePolicy { .. } => Ok(None),
    }
}

/// Writing the action's target, if it has one.
pub open spec fn spec_apply_target(c: ContextModel, t: Option<Seq<u8>>) -> (Result<(), InstructionError>, ContextModel) {
    match t {
        Some(bytes) => spec_write(c, 3, bytes),
        None => (Ok(()), c),
    }
}

/// ExecuteAction: accounts `[proposal (w), config, executor (s)]` and, for
/// the subnet actions, the subnet record (w), for a key revocation the key
/// record (w). The action is applied to its account, the proposal marked
/// executed, and the executed action published as return data.
pub open spec fn spec_execute(c: ContextModel, proposal_id: [u8; 32], current_slot: u64) -> (Result<(), InstructionError>, ContextModel) {
    if c.accounts.len() < 3 {
        (Err(InstructionError::NotEnoughAccountKeys), c)
    } else {
        match spec_config_checks(c, 1, 2, true) {
            Err(e) => (Err(e), c),
            Ok(_) => match spec_named_proposal(c, proposal_id) {
                Err(e) => (Err(e), c),
                Ok(p) => match spec_ensure_executable(p, current_slot) {
                    Err(e) => (Err(spec_map_err(e)), c),
                    Ok(_) => match spec_action_target(c, p.action) {
                        Err(e) => (Err(e), c),
                        Ok(t) => and_then(
                            spec_write(c, 0, enc_proposal(Proposal { status: ProposalStatus::Executed, ..p })),
                            |c1: ContextModel| and_then(
                                spec_apply_target(c1, t),
                                |c2: ContextModel| (Ok(()), c2.with_return(enc_proposed_action(p.action))),
                            ),
                        ),
                    },
                },
            },
        }
    }
}

/// CancelAction: accounts `[proposal (w), config, signer (s)]`; only the
/// proposer or the upgrade authority may cancel a pending proposal.
pub open spec fn spec_cancel(c: ContextModel, proposal_id: [u8; 32]) -> (Result<(), InstructionError>, ContextModel) {
    if c.accounts.len() < 3 {
        (Err(InstructionError::NotEnoughAccountKeys), c)
    } else {
        match spec_config_checks(c, 1, 2, false) {
            Err(e) => (Err(e), c),
            Ok(config) => match spec_named_proposal(c, proposal_id) {
                Err(e) => (Err(e), c),
                Ok(p) => if p.status != ProposalStatus::Pending {
                    (Err(err(EmergencyMultisigError::ProposalAlreadyExecuted)), c)
                } else if p.proposer != c.key(2) && config.upgrade_authority != c.key(2) {
                    (Err(InstructionError::IncorrectAuthority), c)
                } else {
                    spec_write(c, 0, enc_proposal(Proposal { status: ProposalStatus::Cancelled, ..p }))
                },
            },
        }
    }
}

/// An instruction's outcome: data that does not decode to exactly one
/// instruction is `InvalidInstructionData`.
pub open spec fn spec_process(c: ContextModel, data: Seq<u8>) -> (Result<(), InstructionError>, ContextModel) {
    match dec_emergency_multisig_instruction(data) {
        Some((ix, rest)) => if rest.len() != 0 {
            (Err(InstructionError::InvalidInstructionData), c)
        } else {
            match ix {
                EmergencyMultisigInstructionModel::InitializeMultisig { signers, freeze_quorum, revoke_quorum, policy_quorum, current_slot } =>
                    spec_initialize(c, signers, freeze_quorum, revoke_quorum, policy_quorum, current_slot),
                EmergencyMultisigInstructionModel::ProposeAction { proposal_id, action, ttl_slots, current_slot } =>
                    spec_propose(c, proposal_id, action, ttl_slots, current_slot),
                EmergencyMultisigInstructionModel::ApproveAction { proposal_id, current_slot } =>
                    spec_approve(c, proposal_id, current_slot),
                EmergencyMultisigInstructionModel::ExecuteAction { proposal_id, current_slot } =>
                    spec_execute(c, proposal_id, current_slot),
                EmergencyMultisigInstructionModel::CancelAction { proposal_id } => spec_cancel(c, proposal_id),
            }
        },
        None => (Err(InstructionError::InvalidInstructionData), c),
    }
}

pub struct Processor;

impl Processor {
    /// Decodes the instruction and runs it against the accounts in `ctx`.
    pub fn process(ctx: &mut InstructionContext, instruction_data: &[u8]) -> (r: Result<(), InstructionError>)
        ensures
            (r, final(ctx)@) == spec_process(old(ctx)@, instruction_data@),
    {
        let instruction = match emergency_multisig_instruction_from_slice(instruction_data) {
            Some(ix) => ix,
            None => return Err(InstructionError::InvalidInstructionData),
        };
        match instruction {
            EmergencyMultisigInstruction::InitializeMultisig { signers, freeze_quorum, revoke_quorum, policy_quorum, current_slot } =>
                Self::process_initialize(ctx, signers, freeze_quorum, revoke_quorum, policy_quorum, current_slot),
            EmergencyMultisigInstruction::ProposeAction { proposal_id, action, ttl_slots, current_slot } =>
                Self::process_propose(ctx, proposal_id, action, ttl_slots, current_slot),
            EmergencyMultisigInstruction::ApproveAction { proposal_id, current_slot } =>
                Self::process_approve(ctx, proposal_id, current_slot),
            EmergencyMultisigInstruction::ExecuteAction { proposal_id, current_slot } =>
                Self::process_execute(ctx, proposal_id, current_slot),
            EmergencyMultisigInstruction::CancelAction { proposal_id } => Self::process_cancel(ctx, proposal_id),
        }
    }

    pub fn process_initialize(
        ctx: &mut InstructionContext,
        signers: Vec<Pubkey>,
        freeze_quorum: u8,
        revoke_quorum: u8,
        policy_quorum: u8,
        current_slot: u64,
    ) -> (r: Result<(), InstructionError>)
        ensures
            (r, final(ctx)@) == spec_initialize(old(ctx)@, signers@, freeze_quorum, revoke_quorum, policy_quorum, current_slot),
    {
        if let Err(e) = ctx.check_number_of_instruction_accounts(2) {
            return Err(e);
        }
        if !ctx.is_signer(1) {
            return Err(InstructionError::MissingRequiredSignature);
        }
        let upgrade_authority = ctx.key(1);
        if let Ok(existing) = deserialize_multisig_config(ctx.data(0)) {
            if existing.is_initialized {
                return Err(InstructionError::Custom(EmergencyMultisigError::AlreadyInitialized.code()));
            }
        }
        let config = MultisigConfig::new(upgrade_authority, signers, freeze_quorum, revoke_quorum, policy_quorum, current_slot);
        let serialized = match multisig_config_to_vec(&config) {
            Some(b) => b,
            None => return Err(InstructionError::InvalidAccountData),
        };
        ctx.write_account(0, &serialized)
    }

    /// The configuration checks shared by the proposal instructions.
    fn load_config(ctx: &InstructionContext, i: usize, s: usize, member: bool) -> (r: Result<MultisigConfig, InstructionError>)
        requires
            i < ctx@.accounts.len(),
            s < ctx@.accounts.len(),
        ensures
            r.is_ok() == spec_config_checks(ctx@, i as int, s as int, member).is_ok(),
            r matches Ok(v) ==> spec_config_checks(ctx@, i as int, s as int, member) == Ok::<_, InstructionError>(v@),
            r matches Err(e) ==> spec_config_checks(ctx@, i as int, s as int, member) == Err::<MultisigConfigModel, _>(e),
    {
        let config = match deserialize_multisig_config(ctx.data(i)) {
            Ok(c) => c,
            Err(_) => return Err(InstructionError::InvalidAccountData),
        };
        if let Err(e) = config.ensure_initialized() {
            return Err(map_err(e));
        }
        if !ctx.is_signer(s) {
            return Err(InstructionError::MissingRequiredSignature);
        }
        if member && !config.is_signer(&ctx.key(s)) {
            return Err(InstructionError::Custom(EmergencyMultisigError::SignerNotMember.code()));
        }
        Ok(config)
    }

    fn load_named_proposal(ctx: &InstructionContext, proposal_id: [u8; 32]) -> (r: Result<Proposal, InstructionError>)
        requires
            0 < ctx@.accounts.len(),
        ensures
            r == spec_named_proposal(ctx@, proposal_id),
    {
        let proposal = match deserialize_proposal(ctx.data(0)) {
            Ok(p) => p,
            Err(e) => return Err(map_err(e)),
        };
        if !bytes32_eq(&proposal.proposal_id, &proposal_id) {
            return Err(InstructionError::InvalidArgument);
        }
        Ok(proposal)
    }

    pub fn process_propose(
        ctx: &mut InstructionContext,
        proposal_id: [u8; 32],
        action: ProposedAction,
        ttl_slots: u64,
        current_slot: u64,
    ) -> (r: Result<(), InstructionError>)
        ensures
            (r, final(ctx)@) == spec_propose(old(ctx)@, proposal_id, action, ttl_slots, current_slot),
    {
        if let Err(e) = ctx.check_number_of_instruction_accounts(3) {
            return Err(e);
        }
        let config = match Self::load_config(ctx, 1, 2, true) {
            Ok(c) => c,
            Err(e) => return Err(e),
        };
        let proposer = ctx.key(2);
        let required_approvals = config.required_approvals(&action);
        if let Ok(existing) = deserialize_proposal(ctx.data(0)) {
            if existing.status == ProposalStatus::Pending {
                return Err(InstructionError::Custom(EmergencyMultisigError::ProposalAlreadyExists.code()));
            }
        }
        let proposal = Proposal {
            proposal_id,
            proposer,
            action,
            status: ProposalStatus::Pending,
            approval_count: 0,
            required_approvals,
            created_at_slot: current_slot,
            expires_at_slot: current_slot.saturating_add(ttl_slots),
        };
        let serialized = proposal_to_vec(&proposal);
        ctx.write_account(0, &serialized)
    }

    pub fn process_approve(ctx: &mut InstructionContext, proposal_id: [u8; 32], current_slot: u64) -> (r: Result<(), InstructionError>)
        ensures
            (r, final(ctx)@) == spec_approve(old(ctx)@, proposal_id, current_slot),
    {
        if let Err(e) = ctx.check_number_of_instruction_accounts(4) {
            return Err(e);
        }
        if let Err(e) = Self::load_config(ctx, 2, 3, true) {
            return Err(e);
        }
        let voter = ctx.key(3);
        let vote_data = ctx.data(1);
        if !is_all_zero(vote_data) {
            if let Ok(existing_vote) = deserialize_vote(vote_data) {
                if bytes32_eq(&existing_vote.proposal_id, &proposal_id) && existing_vote.voter == voter {
                    return Err(InstructionError::Custom(EmergencyMultisigError::AlreadyApproved.code()));
                }
            }
        }
        let mut proposal = match Self::load_named_proposal(ctx, proposal_id) {
            Ok(p) => p,
            Err(e) => return Err(e),
        };
        if proposal.status != ProposalStatus::Pending {
            return Err(InstructionError::Custom(EmergencyMultisigError::ProposalAlreadyExecuted.code()));
        }
        if proposal.is_expired(current_slot) {
            return Err(InstructionError::Custom(EmergencyMultisigError::ProposalExpired.code()));
        }
        proposal.approval_count = proposal.approval_count.saturating_add(1);
        let serialized = proposal_to_vec(&proposal);
        if let Err(e) = ctx.write_account(0, &serialized) {
            return Err(e);
        }
        let vote = ProposalVote { proposal_id, voter, voted_at_slot: current_slot };
        let serialized = proposal_vote_to_vec(&vote);
        ctx.write_account(1, &serialized)
    }

    fn subnet_target(ctx: &InstructionContext, subnet_id: &[u8; 32], freeze: Option<u16>) -> (r: Result<Option<Vec<u8>>, InstructionError>)
        ensures
            match (r, spec_subnet_target(ctx@, *subnet_id, freeze)) {
                (Ok(Some(b)), Ok(Some(s))) => b@ == s,
                (Ok(None), Ok(None)) => true,
                (Err(e), Err(f)) => e == f,
                _ => false,
            },
    {
        if ctx.accounts.len() < 4 {
            return Err(InstructionError::NotEnoughAccountKeys);
        }
        let mut record = match deserialize_subnet_record(ctx.data(3)) {
            Ok(r) => r,
            Err(_) => return Err(InstructionError::InvalidArgument),
        };
        if !bytes32_eq(&record.subnet_id, subnet_id) {
            return Err(InstructionError::InvalidArgument);
        }
        match freeze {
            Some(code) => record.freeze(code),
            None => record.unfreeze(),
        }
        match subnet_record_to_vec(&record) {
            None => Err(InstructionError::InvalidAccountData),
            Some(b) => Ok(Some(b)),
        }
    }

    fn key_target(ctx: &InstructionContext, key_id: &[u8; 32]) -> (r: Result<Option<Vec<u8>>, InstructionError>)
        ensures
            match (r, spec_key_target(ctx@, *key_id)) {
                (Ok(Some(b)), Ok(Some(s))) => b@ == s,
                (Ok(None), Ok(None)) => true,
                (Err(e), Err(f)) => e == f,
                _ => false,
            },
    {
        if ctx.accounts.len() < 4 {
            return Err(InstructionError::NotEnoughAccountKeys);
        }
        let mut record = match deserialize_key_record(ctx.data(3)) {
            Ok(k) => k,
            Err(_) => return Err(InstructionError::InvalidArgument),
        };
        if !bytes32_eq(&record.key_id, key_id) {
            return Err(InstructionError::InvalidArgument);
        }
        if let Err(e) = record.mark_compromised() {
            return Err(map_err(e));
        }
        match key_record_to_vec(&record) {
            None => Err(InstructionError::InvalidAccountData),
            Some(b) => Ok(Some(b)),
        }
    }

    fn action_target(ctx: &InstructionContext, action: &ProposedAction) -> (r: Result<Option<Vec<u8>>, InstructionError>)
        ensures
            match (r, spec_action_target(ctx@, *action)) {
                (Ok(Some(b)), Ok(Some(s))) => b@ == s,
                (Ok(None), Ok(None)) => true,
                (Err(e), Err(f)) => e == f,
                _ => false,
            },
    {
        match action {
            ProposedAction::FreezeSubnet { subnet_id, reason_code } => Self::subnet_target(ctx, subnet_id, Some(*reason_code)),
            ProposedAction::UnfreezeSubnet { subnet_id } => Self::subnet_target(ctx, subnet_id, None),
            ProposedAction::EmergencyRevokeKey { key_id, .. } => Self::key_target(ctx, key_id),
            ProposedAction::UpgradeClearancePolicy { .. } => Ok(None),
        }
    }

    pub fn process_execute(ctx: &mut InstructionContext, proposal_id: [u8; 32], current_slot: u64) -> (r: Result<(), InstructionError>)
        ensures
            (r, final(ctx)@) == spec_execute(old(ctx)@, proposal_id, current_slot),
    {
        if let Err(e) = ctx.check_number_of_instruction_accounts(3) {
            return Err(e);
        }
        if let Err(e) = Self::load_config(ctx, 1, 2, true) {
            return Err(e);
        }
        let mut proposal = match Self::load_named_proposal(ctx, proposal_id) {
            Ok(p) => p,
            Err(e) => return Err(e),
        };
        if let Err(e) = proposal.ensure_executable(current_slot) {
            return Err(map_err(e));
        }
        let target = match Self::action_target(ctx, &proposal.action) {
            Ok(t) => t,
            Err(e) => return Err(e),
        };
        proposal.status = ProposalStatus::Executed;
        let serialized = proposal_to_vec(&proposal);
        if let Err(e) = ctx.write_account(0, &serialized) {
            return Err(e);
        }
        if let Some(bytes) = target {
            if let Err(e) = ctx.write_account(3, &bytes) {
                return Err(e);
            }
        }
        let action_bytes = proposed_action_to_vec(&proposal.action);
        ctx.set_return_data(action_bytes);
        Ok(())
    }

    pub fn process_cancel(ctx: &mut InstructionContext, proposal_id: [u8; 32]) -> (r: Result<(), InstructionError>)
        ensures
            (r, final(ctx)@) == spec_cancel(old(ctx)@, proposal_id),
    {
        if let Err(e) = ctx.check_number_of_instruction_accounts(3) {
            return Err(e);
        }
        let config = match Self::load_config(ctx, 1, 2, false) {
            Ok(c) => c,
            Err(e) => return Err(e),
        };
        let signer = ctx.key(2);
        let mut proposal = match Self::load_named_proposal(ctx, proposal_id) {
            Ok(p) => p,
            Err(e) => return Err(e),
        };
        if proposal.status != ProposalStatus::Pending {
            return Err(InstructionError::Custom(EmergencyMultisigError::ProposalAlreadyExecuted.code()));
        }
        if proposal.proposer != signer && config.upgrade_authority != signer {
            return Err(InstructionError::IncorrectAuthority);
        }
        proposal.status = ProposalStatus::Cancelled;
        let serialized = proposal_to_vec(&proposal);
        ctx.write_account(0, &serialized)
    }
}

/// Executing a subnet freeze freezes the subnet: after a successful
/// ExecuteAction of a proposal to freeze `subnet_id` for `reason_code`, the
/// subnet record in account 3 reads back as the same record, frozen for that
/// reason; the proposal is then executed.
pub proof fn law_executed_freeze_freezes_the_subnet(c: ContextModel, proposal_id: [u8; 32], current_slot: u64)
    requires
        spec_named_proposal(c, proposal_id) matches Ok(p) && p.action matches ProposedAction::FreezeSubnet { .. },
        spec_execute(c, proposal_id, current_slot).0 is Ok,
    ensures
        ({
            let p = spec_named_proposal(c, proposal_id)->Ok_0;
            let c2 = spec_execute(c, proposal_id, current_slot).1;
            &&& dec_subnet_record(c.data(3)) matches Some((r, _))
            &&& dec_subnet_record(c2.data(3)) matches Some((r2, _))
            &&& p.action matches ProposedAction::FreezeSubnet { subnet_id, reason_code }
            &&& r.subnet_id == subnet_id
            &&& r2 == SubnetRecordModel { is_frozen: true, freeze_reason_code: Some(reason_code), ..r }
        }),
{
    let p = spec_named_proposal(c, proposal_id)->Ok_0;
    let r = dec_subnet_record(c.data(3))->Some_0.0;
    let r2 = SubnetRecordModel { is_frozen: true, freeze_reason_code: Some(p.action->FreezeSubnet_reason_code), ..r };
    let bytes = enc_subnet_record(r2);
    let c1 = spec_write(c, 0, enc_proposal(Proposal { status: ProposalStatus::Executed, ..p })).1;
    let zeros = Seq::new((c1.data(3).len() - bytes.len()) as nat, |k: int| 0u8);
    lemma_subnet_record(r2, zeros);
}

/// Executing an emergency key revocation marks the key compromised: after a
/// successful ExecuteAction of such a proposal, the key record in account 3
/// reads back as the same key, now `Compromised`.
pub proof fn law_executed_revocation_compromises_the_key(c: ContextModel, proposal_id: [u8; 32], current_slot: u64)
    requires
        spec_named_proposal(c, proposal_id) matches Ok(p) && p.action matches ProposedAction::EmergencyRevokeKey { .. },
        spec_execute(c, proposal_id, current_slot).0 is Ok,
    ensures
        ({
            let p = spec_named_proposal(c, proposal_id)->Ok_0;
            let c2 = spec_execute(c, proposal_id, current_slot).1;
            &&& dec_key_record(c.data(3)) matches Some((k, _))
            &&& dec_key_record(c2.data(3)) matches Some((k2, _))
            &&& p.action matches ProposedAction::EmergencyRevokeKey { key_id, .. }
            &&& k.key_id == key_id
            &&& k2 == KeyRecordModel { state: KeyState::Compromised, ..k }
        }),
{
    let p = spec_named_proposal(c, proposal_id)->Ok_0;
    let k = dec_key_record(c.data(3))->Some_0.0;
    let k2 = KeyRecordModel { state: KeyState::Compromised, ..k };
    let bytes = enc_key_record(k2);
    let c1 = spec_write(c, 0, enc_proposal(Proposal { status: ProposalStatus::Executed, ..p })).1;
    let zeros = Seq::new((c1.data(3).len() - bytes.len()) as nat, |k: int| 0u8);
    lemma_key_record(k2, zeros);
}

} // verus!
