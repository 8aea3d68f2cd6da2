//! State accounts of the revocation registry and the key lifecycle.
//!
//! A key is `Active` when registered. It may go to `PendingRotation` and from
//! there to `Rotated` once a rotation reaches quorum, or to `Revoked`; it may
//! be marked `Compromised` from any state that is not terminal. `Rotated`,
//! `Revoked` and `Compromised` are terminal.
use vstd::prelude::*;
use crate::errors::{decoded, ProgramError};
use crate::permission_types::types::KeyState;
use crate::pubkey::Pubkey;
use crate::revocation_registry::types::{
    dec_key_record, dec_rev_registry_config, dec_rotation_approval, dec_rotation_intent,
    key_record_from_prefix, rev_registry_config_from_prefix, rotation_approval_from_prefix,
    rotation_intent_from_prefix, KeyRecord, KeyRecordModel, RevRegistryConfig,
    RevocationRegistryError, RotationApproval, RotationIntent,
};

verus! {

pub const KEY_RECORD_SEED: [u8; 3] = [107, 101, 121];
pub const ROTATION_INTENT_SEED: [u8; 8] = [114, 111, 116, 97, 116, 105, 111, 110];
pub const ROTATION_APPROVAL_SEED: [u8; 8] = [97, 112, 112, 114, 111, 118, 97, 108];
pub const REGISTRY_CONFIG_SEED: [u8; 10] = [114, 101, 118, 45, 99, 111, 110, 102, 105, 103];

pub open spec fn custom(e: RevocationRegistryError) -> ProgramError {
    ProgramError::Custom(e.spec_code())
}

impl RevRegistryConfig {
    pub fn new(upgrade_authority: Pubkey, current_slot: u64) -> (r: Self)
        ensures
            r == (RevRegistryConfig { is_initialized: true, upgrade_authority, created_at_slot: current_slot }),
    {
        RevRegistryConfig { is_initialized: true, upgrade_authority, created_at_slot: current_slot }
    }

    pub fn deserialize_padded(data: &[u8]) -> (r: Result<Self, ProgramError>)
        ensures
            r == decoded(dec_rev_registry_config(data@)),
    {
        match rev_registry_config_from_prefix(data) {
            Some(v) => Ok(v),
            None => Err(ProgramError::InvalidAccountData),
        }
    }

    pub fn ensure_initialized(&self) -> (r: Result<(), ProgramError>)
        ensures
            r == (if self.is_initialized { Ok(()) } else { Err(custom(RevocationRegistryError::Uninitialized)) }),
    {
        if self.is_initialized {
            Ok(())
        } else {
            Err(ProgramError::Custom(RevocationRegistryError::Uninitialized.code()))
        }
    }

    pub fn ensure_upgrade_authority(&self, signer: &Pubkey) -> (r: Result<(), ProgramError>)
        ensures
            r == (if *signer == self.upgrade_authority { Ok(()) } else { Err(custom(RevocationRegistryError::Unauthorized)) }),
    {
        if *signer == self.upgrade_authority {
            Ok(())
        } else {
            Err(ProgramError::Custom(RevocationRegistryError::Unauthorized.code()))
        }
    }
}

/// The record after `Active -> PendingRotation`, or why it is refused.
pub open spec fn spec_initiate_rotation(k: KeyRecordModel) -> Result<KeyRecordModel, ProgramError> {
    if k.state.spec_is_terminal() {
        Err(custom(RevocationRegistryError::KeyAlreadyTerminal))
    } else if k.state != KeyState::Active {
        Err(custom(RevocationRegistryError::InvalidStateTransition))
    } else {
        Ok(KeyRecordModel { state: KeyState::PendingRotation, ..k })
    }
}

/// The record after `PendingRotation -> Rotated` with its successor, or why it is refused.
pub open spec fn spec_complete_rotation(k: KeyRecordModel, successor_key_id: [u8; 32]) -> Result<KeyRecordModel, ProgramError> {
    if k.state != KeyState::PendingRotation {
        Err(custom(RevocationRegistryError::InvalidStateTransition))
    } else {
        Ok(KeyRecordModel { state: KeyState::Rotated, successor_key_id: Some(successor_key_id), ..k })
    }
}

/// The record after `Active -> Revoked`, or why it is refused.
pub open spec fn spec_revoke(k: KeyRecordModel) -> Result<KeyRecordModel, ProgramError> {
    if k.state.spec_is_terminal() {
        Err(custom(RevocationRegistryError::KeyAlreadyTerminal))
    } else if k.state != KeyState::Active {
        Err(custom(RevocationRegistryError::InvalidStateTransition))
    } else {
        Ok(KeyRecordModel { state: KeyState::Revoked, ..k })
    }
}

/// The record marked `Compromised` from any state that is not terminal.
pub open spec fn spec_mark_compromised(k: KeyRecordModel) -> Result<KeyRecordModel, ProgramError> {
    if k.state.spec_is_terminal() {
        Err(custom(RevocationRegistryError::KeyAlreadyTerminal))
    } else {
        Ok(KeyRecordModel { state: KeyState::Compromised, ..k })
    }
}

/// A transition's outcome: on success the record becomes the new one; on
/// refusal it is left as it was.
pub open spec fn applied(r: Result<(), ProgramError>, before: KeyRecordModel, after: KeyRecordModel, t: Result<KeyRecordModel, ProgramError>) -> bool {
    match t {
        Ok(k) => r is Ok && after == k,
        Err(e) => r == Err::<(), ProgramError>(e) && after == before,
    }
}

impl KeyRecord {
    pub fn deserialize_padded(data: &[u8]) -> (r: Result<Self, ProgramError>)
        ensures
            r.is_ok() == decoded(dec_key_record(data@)).is_ok(),
            r matches Ok(v) ==> decoded(dec_key_record(data@)) == Ok::<_, ProgramError>(v@),
            r matches Err(e) ==> e == ProgramError::InvalidAccountData,
    {
        deserialize_key_record(data)
    }

    /// Refuses any transition out of a terminal state.
    pub fn ensure_not_terminal(&self) -> (r: Result<(), ProgramError>)
        ensures
            r == (if self.state.spec_is_terminal() { Err(custom(RevocationRegistryError::KeyAlreadyTerminal)) } else { Ok(()) }),
    {
        if self.state.is_terminal() {
            Err(ProgramError::Custom(RevocationRegistryError::KeyAlreadyTerminal.code()))
        } else {
            Ok(())
        }
    }

    /// `Active -> PendingRotation`.
    pub fn initiate_rotation(&mut self) -> (r: Result<(), ProgramError>)
        ensures
            applied(r, old(self)@, final(self)@, spec_initiate_rotation(old(self)@)),
    {
        if let Err(e) = self.ensure_not_terminal() {
            return Err(e);
        }
        if self.state != KeyState::Active {
            return Err(ProgramError::Custom(RevocationRegistryError::InvalidStateTransition.code()));
        }
        self.state = KeyState::PendingRotation;
        Ok(())
    }

    /// `PendingRotation -> Rotated`, recording the successor.
    pub fn complete_rotation(&mut self, successor_key_id: [u8; 32]) -> (r: Result<(), ProgramError>)
        ensures
            applied(r, old(self)@, final(self)@, spec_complete_rotation(old(self)@, successor_key_id)),
    {
        if self.state != KeyState::PendingRotation {
            return Err(ProgramError::Custom(RevocationRegistryError::InvalidStateTransition.code()));
        }
        self.state = KeyState::Rotated;
        self.successor_key_id = Some(successor_key_id);
        Ok(())
    }

    /// `Active -> Revoked`.
    pub fn revoke(&mut self) -> (r: Result<(), ProgramError>)
        ensures
            applied(r, old(self)@, final(self)@, spec_revoke(old(self)@)),
    {
        if let Err(e) = self.ensure_not_terminal() {
            return Err(e);
        }
        if self.state != KeyState::Active {
            return Err(ProgramError::Custom(RevocationRegistryError::InvalidStateTransition.code()));
        }
        self.state = KeyState::Revoked;
        Ok(())
    }

    /// Any state that is not terminal `-> Compromised` (emergency, without quorum).
    pub fn mark_compromised(&mut self) -> (r: Result<(), ProgramError>)
        ensures
            applied(r, old(self)@, final(self)@, spec_mark_compromised(old(self)@)),
    {
        if let Err(e) = self.ensure_not_terminal() {
            return Err(e);
        }
        self.state = KeyState::Compromised;
        Ok(())
    }

    /// The key must be rejected for authentication and encryption: any state but `Active`.
    pub fn is_revoked(&self) -> (r: bool)
        ensures
            r == self.state.spec_is_invalid(),
    {
        self.state.is_invalid()
    }
}

impl RotationIntent {
    pub fn deserialize_padded(data: &[u8]) -> (r: Result<Self, ProgramError>)
        ensures
            r == decoded(dec_rotation_intent(data@)),
    {
        deserialize_rotation_intent(data)
    }

    /// Expired once the current slot is past the expiry slot.
    pub fn is_expired(&self, current_slot: u64) -> (r: bool)
        ensures
            r == (current_slot > self.expires_at_slot),
    {
        current_slot > self.expires_at_slot
    }

    pub fn quorum_met(&self) -> (r: bool)
        ensures
            r == (self.approval_count >= self.required_approvals),
    {
        self.approval_count >= self.required_approvals
    }
}

impl RotationApproval {
    pub fn deserialize_padded(data: &[u8]) -> (r: Result<Self, ProgramError>)
        ensures
            r == decoded(dec_rotation_approval(data@)),
    {
        deserialize_rotation_approval(data)
    }
}

pub fn deserialize_key_record(data: &[u8]) -> (r: Result<KeyRecord, ProgramError>)
    ensures
        r.is_ok() == decoded(dec_key_record(data@)).is_ok(),
        r matches Ok(v) ==> decoded(dec_key_record(data@)) == Ok::<_, ProgramError>(v@),
        r matches Err(e) ==> e == ProgramError::InvalidAccountData,
{
    match key_record_from_prefix(data) {
        Some(v) => Ok(v),
        None => Err(ProgramError::InvalidAccountData),
    }
}

pub fn deserialize_rotation_intent(data: &[u8]) -> (r: Result<RotationIntent, ProgramError>)
    ensures
        r == decoded(dec_rotation_intent(data@)),
{
    match rotation_intent_from_prefix(data) {
        Some(v) => Ok(v),
        None => Err(ProgramError::InvalidAccountData),
    }
}

pub fn deserialize_rotation_approval(data: &[u8]) -> (r: Result<RotationApproval, ProgramError>)
    ensures
        r == decoded(dec_rotation_approval(data@)),
{
    match rotation_approval_from_prefix(data) {
        Some(v) => Ok(v),
        None => Err(ProgramError::InvalidAccountData),
    }
}

/// A key in a terminal state (`Rotated`, `Revoked`, `Compromised`) refuses
/// every further transition, and stays as it is.
pub proof fn law_terminal_key_is_final(k: KeyRecordModel, successor_key_id: [u8; 32])
    requires
        k.state.spec_is_terminal(),
    ensures
        spec_initiate_rotation(k) == Err::<KeyRecordModel, _>(custom(RevocationRegistryError::KeyAlreadyTerminal)),
        spec_revoke(k) == Err::<KeyRecordModel, _>(custom(RevocationRegistryError::KeyAlreadyTerminal)),
        spec_mark_compromised(k) == Err::<KeyRecordModel, _>(custom(RevocationRegistryError::KeyAlreadyTerminal)),
        spec_complete_rotation(k, successor_key_id) == Err::<KeyRecordModel, _>(custom(RevocationRegistryError::InvalidStateTransition)),
{
}

/// A key that is not terminal can always be marked compromised, and is then
/// revoked at once, whether it was active or pending rotation; nothing else of
/// the record changes.
pub proof fn law_compromise_revokes_at_once(k: KeyRecordModel)
    requires
        !k.state.spec_is_terminal(),
    ensures
        spec_mark_compromised(k) == Ok::<_, ProgramError>(KeyRecordModel { state: KeyState::Compromised, ..k }),
        KeyState::Compromised.spec_is_invalid(),
        KeyState::Compromised.spec_is_terminal(),
{
}

/// No transition makes a key usable: after any accepted transition the key is
/// revoked, and its identity (id, owner, public key) is unchanged.
pub proof fn law_transitions_never_reactivate(k: KeyRecordModel, successor_key_id: [u8; 32])
    ensures
        spec_initiate_rotation(k) matches Ok(k2) ==> k2.state.spec_is_invalid() && k2.key_id == k.key_id && k2.owner == k.owner && k2.public_key_bytes == k.public_key_bytes,
        spec_complete_rotation(k, successor_key_id) matches Ok(k2) ==> k2.state.spec_is_invalid() && k2.key_id == k.key_id && k2.owner == k.owner && k2.public_key_bytes == k.public_key_bytes,
        spec_revoke(k) matches Ok(k2) ==> k2.state.spec_is_invalid() && k2.key_id == k.key_id && k2.owner == k.owner && k2.public_key_bytes == k.public_key_bytes,
        spec_mark_compromised(k) matches Ok(k2) ==> k2.state.spec_is_invalid() && k2.key_id == k.key_id && k2.owner == k.owner && k2.public_key_bytes == k.public_key_bytes,
{
}

/// The only path from `Active` to `Rotated` goes through `PendingRotation`:
/// rotation is completed only from a pending rotation, and revocation is
/// accepted only from `Active`.
pub proof fn law_rotation_goes_through_pending(k: KeyRecordModel, successor_key_id: [u8; 32])
    ensures
        spec_complete_rotation(k, successor_key_id) is Ok <==> k.state == KeyState::PendingRotation,
        spec_initiate_rotation(k) is Ok <==> k.state == KeyState::Active,
        spec_revoke(k) is Ok <==> k.state == KeyState::Active,
{
}

} // verus!
