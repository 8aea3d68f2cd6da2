//! State accounts of the emergency multisig and their rules.
use vstd::prelude::*;
use crate::emergency_multisig::types::{
    dec_multisig_config, dec_proposal, dec_proposal_vote, EmergencyMultisigError, MultisigConfig,
    MultisigConfigModel, Proposal, ProposalStatus, ProposalVote, ProposedAction,
    multisig_config_from_prefix, proposal_from_prefix, proposal_vote_from_prefix,
};
use crate::errors::{decoded, ProgramError};
use crate::pubkey::Pubkey;

verus! {

pub const MULTISIG_CONFIG_SEED: [u8; 8] = [109, 117, 108, 116, 105, 115, 105, 103];
pub const PROPOSAL_SEED: [u8; 8] = [112, 114, 111, 112, 111, 115, 97, 108];
pub const VOTE_SEED: [u8; 4] = [118, 111, 116, 101];

/// Maximum number of signers in the multisig.
pub const MAX_SIGNERS: usize = 11;

pub open spec fn custom(e: EmergencyMultisigError) -> ProgramError {
    ProgramError::Custom(e.spec_code())
}

pub open spec fn spec_is_signer(c: MultisigConfigModel, k: Pubkey) -> bool {
    c.signers.contains(k) || k == c.upgrade_authority
}

pub open spec fn spec_required_approvals(c: MultisigConfigModel, action: ProposedAction) -> u8 {
    match action {
        ProposedAction::FreezeSubnet { .. } | ProposedAction::UnfreezeSubnet { .. } => c.freeze_quorum,
        ProposedAction::EmergencyRevokeKey { .. } => c.revoke_quorum,
        ProposedAction::UpgradeClearancePolicy { .. } => c.policy_quorum,
    }
}

impl MultisigConfig {
    pub fn new(
        upgrade_authority: Pubkey,
        signers: Vec<Pubkey>,
        freeze_quorum: u8,
        revoke_quorum: u8,
        policy_quorum: u8,
        current_slot: u64,
    ) -> (r: Self)
        ensures
            r@ == (MultisigConfigModel {
                is_initialized: true,
                upgrade_authority,
                signers: signers@,
                freeze_quorum,
                revoke_quorum,
                policy_quorum,
                created_at_slot: current_slot,
            }),
    {
        MultisigConfig {
            is_initialized: true,
            upgrade_authority,
            signers,
            freeze_quorum,
            revoke_quorum,
            policy_quorum,
            created_at_slot: current_slot,
        }
    }

    pub fn deserialize_padded(data: &[u8]) -> (r: Result<Self, ProgramError>)
        ensures
            r.is_ok() == decoded(dec_multisig_config(data@)).is_ok(),
            r matches Ok(v) ==> decoded(dec_multisig_config(data@)) == Ok::<_, ProgramError>(v@),
            r matches Err(e) ==> e == ProgramError::InvalidAccountData,
    {
        deserialize_multisig_config(data)
    }

    pub fn ensure_initialized(&self) -> (r: Result<(), ProgramError>)
        ensures
            r == (if self.is_initialized {
                Ok(())
            } else {
                Err(custom(EmergencyMultisigError::Uninitialized))
            }),
    {
        if self.is_initialized {
            Ok(())
        } else {
            Err(ProgramError::Custom(EmergencyMultisigError::Uninitialized.code()))
        }
    }

    /// A member signer, or the upgrade authority.
    pub fn is_signer(&self, pubkey: &Pubkey) -> (r: bool)
        ensures
            r == spec_is_signer(self@, *pubkey),
    {
        let mut i: usize = 0;
        while i < self.signers.len()
            invariant
                i <= self.signers@.len(),
                forall|j: int| 0 <= j < i ==> self.signers@[j] != *pubkey,
            decreases self.signers@.len() - i,
        {
            if self.signers[i] == *pubkey {
                assert(self@.signers[i as int] == *pubkey);
                return true;
            }
            i = i + 1;
        }
        *pubkey == self.upgrade_authority
    }

    /// The quorum that the kind of action requires.
    pub fn required_approvals(&self, action: &ProposedAction) -> (r: u8)
        ensures
            r == spec_required_approvals(self@, *action),
    {
        match action {
            ProposedAction::FreezeSubnet { .. } | ProposedAction::UnfreezeSubnet { .. } => {
                self.freeze_quorum
            },
            ProposedAction::EmergencyRevokeKey { .. } => self.revoke_quorum,
            ProposedAction::UpgradeClearancePolicy { .. } => self.policy_quorum,
        }
    }
}

pub open spec fn spec_is_expired(p: Proposal, current_slot: u64) -> bool {
    current_slot > p.expires_at_slot
}

pub open spec fn spec_quorum_met(p: Proposal) -> bool {
    p.approval_count >= p.required_approvals
}

/// Why a proposal cannot be executed, in the order the checks are made.
pub open spec fn spec_ensure_executable(p: Proposal, current_slot: u64) -> Result<(), ProgramError> {
    if p.status == ProposalStatus::Executed {
        Err(custom(EmergencyMultisigError::ProposalAlreadyExecuted))
    } else if p.status == ProposalStatus::Cancelled {
        Err(custom(EmergencyMultisigError::ProposalCancelled))
    } else if spec_is_expired(p, current_slot) {
        Err(custom(EmergencyMultisigError::ProposalExpired))
    } else if !spec_quorum_met(p) {
        Err(custom(EmergencyMultisigError::QuorumNotMet))
    } else {
        Ok(())
    }
}

impl Proposal {
    pub fn deserialize_padded(data: &[u8]) -> (r: Result<Self, ProgramError>)
        ensures
            r == decoded(dec_proposal(data@)),
    {
        deserialize_proposal(data)
    }

    /// Expired once the current slot is past the expiry slot.
    pub fn is_expired(&self, current_slot: u64) -> (r: bool)
        ensures
            r == spec_is_expired(*self, current_slot),
    {
        current_slot > self.expires_at_slot
    }

    pub fn quorum_met(&self) -> (r: bool)
        ensures
            r == spec_quorum_met(*self),
    {
        self.approval_count >= self.required_approvals
    }

    pub fn ensure_executable(&self, current_slot: u64) -> (r: Result<(), ProgramError>)
        ensures
            r == spec_ensure_executable(*self, current_slot),
    {
        if self.status == ProposalStatus::Executed {
            return Err(ProgramError::Custom(EmergencyMultisigError::ProposalAlreadyExecuted.code()));
        }
        if self.status == ProposalStatus::Cancelled {
            return Err(ProgramError::Custom(EmergencyMultisigError::ProposalCancelled.code()));
        }
        if self.is_expired(current_slot) {
            return Err(ProgramError::Custom(EmergencyMultisigError::ProposalExpired.code()));
        }
        if !self.quorum_met() {
            return Err(ProgramError::Custom(EmergencyMultisigError::QuorumNotMet.code()));
        }
        Ok(())
    }
}

impl ProposalVote {
    pub fn deserialize_padded(data: &[u8]) -> (r: Result<Self, ProgramError>)
        ensures
            r == decoded(dec_proposal_vote(data@)),
    {
        deserialize_vote(data)
    }
}

pub fn deserialize_multisig_config(data: &[u8]) -> (r: Result<MultisigConfig, ProgramError>)
    ensures
        r.is_ok() == decoded(dec_multisig_config(data@)).is_ok(),
        r matches Ok(v) ==> decoded(dec_multisig_config(data@)) == Ok::<_, ProgramError>(v@),
        r matches Err(e) ==> e == ProgramError::InvalidAccountData,
{
    match multisig_config_from_prefix(data) {
        Some(v) => Ok(v),
        None => Err(ProgramError::InvalidAccountData),
    }
}

pub fn deserialize_proposal(data: &[u8]) -> (r: Result<Proposal, ProgramError>)
    ensures
        r == decoded(dec_proposal(data@)),
{
    match proposal_from_prefix(data) {
        Some(v) => Ok(v),
        None => Err(ProgramError::InvalidAccountData),
    }
}

pub fn deserialize_vote(data: &[u8]) -> (r: Result<ProposalVote, ProgramError>)
    ensures
        r == decoded(dec_proposal_vote(data@)),
{
    match proposal_vote_from_prefix(data) {
        Some(v) => Ok(v),
        None => Err(ProgramError::InvalidAccountData),
    }
}

/// A proposal can be executed exactly when it is neither executed nor
/// cancelled, the current slot is not past its expiry, and its approvals reach
/// the required count.
pub proof fn law_executable_iff(p: Proposal, current_slot: u64)
    ensures
        spec_ensure_executable(p, current_slot) is Ok <==> (
            p.status != ProposalStatus::Executed
            && p.status != ProposalStatus::Cancelled
            && current_slot <= p.expires_at_slot
            && p.approval_count >= p.required_approvals),
{
}

/// Once a proposal has expired it stays expired at every later slot.
pub proof fn law_expiry_is_permanent(p: Proposal, slot: u64, later: u64)
    requires
        slot <= later,
        spec_is_expired(p, slot),
    ensures
        spec_is_expired(p, later),
{
}

/// More approvals never lose a quorum that was met.
pub proof fn law_quorum_kept_by_more_approvals(p: Proposal, approvals: u8)
    requires
        spec_quorum_met(p),
        p.approval_count <= approvals,
    ensures
        spec_quorum_met(Proposal { approval_count: approvals, ..p }),
{
}

/// An executed proposal is refused a second execution at every slot.
pub proof fn law_executed_is_final(p: Proposal, current_slot: u64)
    requires
        p.status == ProposalStatus::Executed,
    ensures
        spec_ensure_executable(p, current_slot) == Err::<(), _>(custom(EmergencyMultisigError::ProposalAlreadyExecuted)),
{
}

/// The upgrade authority always counts as a signer, besides the listed signers.
pub proof fn law_signers(c: MultisigConfigModel, k: Pubkey)
    ensures
        spec_is_signer(c, c.upgrade_authority),
        spec_is_signer(c, k) <==> (c.signers.contains(k) || k == c.upgrade_authority),
{
}

} // verus!
