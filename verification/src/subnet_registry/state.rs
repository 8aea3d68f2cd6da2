//! Subnet registry configuration, subnet records and memberships.
use vstd::prelude::*;
use crate::errors::{decoded, ProgramError};
use crate::pubkey::{contains_key, first_key_index, is_first_key, lemma_first_key_unique, position_of, Pubkey};
use crate::subnet_registry::types::{
    dec_subnet_membership, dec_subnet_record, dec_subnet_registry_config,
    subnet_membership_from_prefix, subnet_record_from_prefix, subnet_registry_config_from_prefix,
    SubnetMembership, SubnetRecord, SubnetRecordModel, SubnetRegistryConfig, SubnetRegistryError,
};

verus! {

pub const SUBNET_RECORD_SEED: [u8; 6] = [115, 117, 98, 110, 101, 116];
pub const SUBNET_MEMBER_SEED: [u8; 6] = [109, 101, 109, 98, 101, 114];
pub const REGISTRY_CONFIG_SEED: [u8; 13] = [115, 117, 98, 110, 101, 116, 45, 99, 111, 110, 102, 105, 103];

pub open spec fn custom(e: SubnetRegistryError) -> ProgramError {
    ProgramError::Custom(e.spec_code())
}

impl SubnetRegistryConfig {
    pub fn new(upgrade_authority: Pubkey, current_slot: u64) -> (r: Self)
        ensures
            r == (SubnetRegistryConfig { is_initialized: true, upgrade_authority, created_at_slot: current_slot }),
    {
        SubnetRegistryConfig { is_initialized: true, upgrade_authority, created_at_slot: current_slot }
    }

    pub fn deserialize_padded(data: &[u8]) -> (r: Result<Self, ProgramError>)
        ensures
            r == decoded(dec_subnet_registry_config(data@)),
    {
        match subnet_registry_config_from_prefix(data) {
            Some(v) => Ok(v),
            None => Err(ProgramError::InvalidAccountData),
        }
    }

    pub fn ensure_initialized(&self) -> (r: Result<(), ProgramError>)
        ensures
            r == (if self.is_initialized { Ok(()) } else { Err(custom(SubnetRegistryError::Uninitialized)) }),
    {
        if self.is_initialized {
            Ok(())
        } else {
            Err(ProgramError::Custom(SubnetRegistryError::Uninitialized.code()))
        }
    }

    pub fn ensure_upgrade_authority(&self, signer: &Pubkey) -> (r: Result<(), ProgramError>)
        ensures
            r == (if *signer == self.upgrade_authority { Ok(()) } else { Err(custom(SubnetRegistryError::Unauthorized)) }),
    {
        if *signer == self.upgrade_authority {
            Ok(())
        } else {
            Err(ProgramError::Custom(SubnetRegistryError::Unauthorized.code()))
        }
    }
}

/// The record with `member` added to its validator set, unless already there.
pub open spec fn spec_add_member(r: SubnetRecordModel, member: Pubkey) -> Result<SubnetRecordModel, ProgramError> {
    if r.validator_set.contains(member) {
        Err(custom(SubnetRegistryError::MemberAlreadyExists))
    } else {
        Ok(SubnetRecordModel { validator_set: r.validator_set.push(member), ..r })
    }
}

/// The record with the first occurrence of `member` removed from its validator
/// set, the last member taking its place.
pub open spec fn spec_remove_member(r: SubnetRecordModel, member: Pubkey) -> Result<SubnetRecordModel, ProgramError> {
    if !r.validator_set.contains(member) {
        Err(custom(SubnetRegistryError::MemberNotFound))
    } else {
        let vs = r.validator_set;
        let i = first_key_index(vs, member);
        Ok(SubnetRecordModel { validator_set: vs.update(i, vs.last()).drop_last(), ..r })
    }
}

/// The record frozen, with the reason recorded.
pub open spec fn spec_freeze(r: SubnetRecordModel, reason_code: u16) -> SubnetRecordModel {
    SubnetRecordModel { is_frozen: true, freeze_reason_code: Some(reason_code), ..r }
}

/// The record unfrozen, with no reason.
pub open spec fn spec_unfreeze(r: SubnetRecordModel) -> SubnetRecordModel {
    SubnetRecordModel { is_frozen: false, freeze_reason_code: None, ..r }
}

impl SubnetRecord {
    pub fn deserialize_padded(data: &[u8]) -> (r: Result<Self, ProgramError>)
        ensures
            r.is_ok() == decoded(dec_subnet_record(data@)).is_ok(),
            r matches Ok(v) ==> decoded(dec_subnet_record(data@)) == Ok::<_, ProgramError>(v@),
            r matches Err(e) ==> e == ProgramError::InvalidAccountData,
    {
        deserialize_subnet_record(data)
    }

    pub fn ensure_not_frozen(&self) -> (r: Result<(), ProgramError>)
        ensures
            r == (if self.is_frozen { Err(custom(SubnetRegistryError::SubnetFrozen)) } else { Ok(()) }),
    {
        if self.is_frozen {
            Err(ProgramError::Custom(SubnetRegistryError::SubnetFrozen.code()))
        } else {
            Ok(())
        }
    }

    /// Freezes the subnet, recording why.
    pub fn freeze(&mut self, reason_code: u16)
        ensures
            final(self)@ == spec_freeze(old(self)@, reason_code),
    {
        self.is_frozen = true;
        self.freeze_reason_code = Some(reason_code);
    }

    /// Unfreezes the subnet and clears the reason.
    pub fn unfreeze(&mut self)
        ensures
            final(self)@ == spec_unfreeze(old(self)@),
    {
        self.is_frozen = false;
        self.freeze_reason_code = None;
    }

    pub fn add_member(&mut self, member: Pubkey) -> (r: Result<(), ProgramError>)
        ensures
            match spec_add_member(old(self)@, member) {
                Ok(m) => r is Ok && final(self)@ == m,
                Err(e) => r == Err::<(), ProgramError>(e) && final(self)@ == old(self)@,
            },
    {
        if contains_key(&self.validator_set, &member) {
            return Err(ProgramError::Custom(SubnetRegistryError::MemberAlreadyExists.code()));
        }
        self.validator_set.push(member);
        Ok(())
    }

    pub fn remove_member(&mut self, member: &Pubkey) -> (r: Result<(), ProgramError>)
        ensures
            match spec_remove_member(old(self)@, *member) {
                Ok(m) => r is Ok && final(self)@ == m,
                Err(e) => r == Err::<(), ProgramError>(e) && final(self)@ == old(self)@,
            },
    {
        match position_of(&self.validator_set, member) {
            None => Err(ProgramError::Custom(SubnetRegistryError::MemberNotFound.code())),
            Some(pos) => {
                self.validator_set.swap_remove(pos);
                Ok(())
            },
        }
    }
}

impl SubnetMembership {
    pub fn deserialize_padded(data: &[u8]) -> (r: Result<Self, ProgramError>)
        ensures
            r == decoded(dec_subnet_membership(data@)),
    {
        deserialize_subnet_membership(data)
    }
}

pub fn deserialize_subnet_record(data: &[u8]) -> (r: Result<SubnetRecord, ProgramError>)
    ensures
        r.is_ok() == decoded(dec_subnet_record(data@)).is_ok(),
        r matches Ok(v) ==> decoded(dec_subnet_record(data@)) == Ok::<_, ProgramError>(v@),
        r matches Err(e) ==> e == ProgramError::InvalidAccountData,
{
    match subnet_record_from_prefix(data) {
        Some(v) => Ok(v),
        None => Err(ProgramError::InvalidAccountData),
    }
}

pub fn deserialize_subnet_membership(data: &[u8]) -> (r: Result<SubnetMembership, ProgramError>)
    ensures
        r == decoded(dec_subnet_membership(data@)),
{
    match subnet_membership_from_prefix(data) {
        Some(v) => Ok(v),
        None => Err(ProgramError::InvalidAccountData),
    }
}

/// Adding a member that was not present and then removing it gives back the
/// record as it was; in between the member is present.
pub proof fn law_add_then_remove_restores(r: SubnetRecordModel, member: Pubkey)
    requires
        !r.validator_set.contains(member),
    ensures
        spec_add_member(r, member) matches Ok(r2) && r2.validator_set.contains(member)
            && spec_remove_member(r2, member) == Ok::<_, ProgramError>(r),
{
    let vs = r.validator_set;
    let vs2 = vs.push(member);
    assert(vs2[vs.len() as int] == member);
    assert(vs2.contains(member));
    assert(is_first_key(vs2, member, vs.len() as int)) by {
        assert forall|j: int| 0 <= j < vs.len() implies #[trigger] vs2[j] != member by {
            assert(vs2[j] == vs[j]);
            if vs[j] == member {
                assert(vs.contains(member));
            }
        }
    }
    lemma_first_key_unique(vs2, member, vs.len() as int);
    assert(vs2.update(vs.len() as int, vs2.last()).drop_last() =~= vs);
}

/// After a member is removed it is no longer present, provided it occurred
/// only once; every other member stays.
pub proof fn law_remove_drops_member(r: SubnetRecordModel, member: Pubkey, other: Pubkey)
    requires
        r.validator_set.contains(member),
        forall|i: int, j: int| 0 <= i < j < r.validator_set.len() ==> r.validator_set[i] != r.validator_set[j],
        other != member,
    ensures
        spec_remove_member(r, member) matches Ok(r2)
            && !r2.validator_set.contains(member)
            && r2.validator_set.len() + 1 == r.validator_set.len()
            && (r.validator_set.contains(other) <==> r2.validator_set.contains(other)),
{
    let vs = r.validator_set;
    let i = first_key_index(vs, member);
    let w = choose|w: int| 0 <= w < vs.len() && vs[w] == member;
    assert(is_first_key(vs, member, w)) by {
        assert forall|j: int| 0 <= j < w implies #[trigger] vs[j] != member by {
            assert(vs[j] != vs[w]);
        }
    }
    lemma_first_key_unique(vs, member, w);
    let n = vs.len() - 1;
    let vs2 = vs.update(i, vs.last()).drop_last();
    assert forall|k: int| 0 <= k < vs2.len() implies #[trigger] vs2[k] != member by {
        if k == i {
            if i != n {
                assert(vs[n] != vs[i]);
            }
        } else {
            assert(vs2[k] == vs[k]);
            assert(vs[k] != vs[i]);
        }
    }
    if vs.contains(other) {
        let o = choose|o: int| 0 <= o < vs.len() && vs[o] == other;
        if o == n {
            if i != n {
                assert(vs2[i] == other);
            }
        } else {
            assert(o != i);
            assert(vs2[o] == other);
        }
    }
    if vs2.contains(other) {
        let o = choose|o: int| 0 <= o < vs2.len() && vs2[o] == other;
        if o == i {
            assert(vs[n] == other);
        } else {
            assert(vs[o] == other);
        }
    }
}

/// A frozen subnet is frozen; unfreezing it leaves it unfrozen, and as it was
/// before the freeze when it was not frozen then.
pub proof fn law_unfreeze_undoes_freeze(r: SubnetRecordModel, reason_code: u16)
    requires
        !r.is_frozen,
        r.freeze_reason_code is None,
    ensures
        spec_freeze(r, reason_code).is_frozen,
        !spec_unfreeze(spec_freeze(r, reason_code)).is_frozen,
        spec_unfreeze(spec_freeze(r, reason_code)) == r,
{
}

} // verus!
