//! Clearance tiers and clearance records.
use vstd::prelude::*;
use crate::permission_types::types::{AccessDeniedReason, ClearanceSbt, ClearanceTier};

verus! {

impl ClearanceTier {
    /// Position of the tier in the hierarchy: `Public` is 0, `Military` is 5.
    pub open spec fn spec_rank(self) -> u8 {
        match self {
            ClearanceTier::Public => 0,
            ClearanceTier::VerifiedHuman => 1,
            ClearanceTier::Kyc => 2,
            ClearanceTier::Enterprise => 3,
            ClearanceTier::Government => 4,
            ClearanceTier::Military => 5,
        }
    }

    /// The tier's byte value (`tier as u8`).
    pub fn rank(self) -> (r: u8)
        ensures
            r == self.spec_rank(),
    {
        match self {
            ClearanceTier::Public => 0,
            ClearanceTier::VerifiedHuman => 1,
            ClearanceTier::Kyc => 2,
            ClearanceTier::Enterprise => 3,
            ClearanceTier::Government => 4,
            ClearanceTier::Military => 5,
        }
    }

    pub open spec fn spec_satisfies(self, required: ClearanceTier) -> bool {
        self.spec_rank() >= required.spec_rank()
    }

    /// A wallet at tier T satisfies any requirement at or below T.
    pub fn satisfies(self, required: ClearanceTier) -> (r: bool)
        ensures
            r == self.spec_satisfies(required),
    {
        self.rank() >= required.rank()
    }
}

/// Every tier satisfies its own requirement.
pub proof fn law_satisfies_reflexive(t: ClearanceTier)
    ensures
        t.spec_satisfies(t),
{
}

/// A tier that satisfies a requirement also satisfies every lower requirement.
pub proof fn law_satisfies_transitive(a: ClearanceTier, b: ClearanceTier, c: ClearanceTier)
    requires
        a.spec_satisfies(b),
        b.spec_satisfies(c),
    ensures
        a.spec_satisfies(c),
{
}

/// Of two tiers, one always satisfies the other, and both do only when they are equal.
pub proof fn law_satisfies_total(a: ClearanceTier, b: ClearanceTier)
    ensures
        a.spec_satisfies(b) || b.spec_satisfies(a),
        a.spec_satisfies(b) && b.spec_satisfies(a) ==> a == b,
{
}

/// `Military` satisfies every requirement; only `Public` is satisfied by `Public`.
pub proof fn law_satisfies_extremes(t: ClearanceTier)
    ensures
        ClearanceTier::Military.spec_satisfies(t),
        ClearanceTier::Public.spec_satisfies(t) <==> t == ClearanceTier::Public,
{
}

/// An active credential without expiry is valid at every slot; an inactive
/// one at none.
pub proof fn law_sbt_validity_without_expiry(sbt: ClearanceSbt, slot: u64)
    ensures
        sbt.is_active && sbt.valid_until_slot is None ==> sbt.spec_is_valid_at(slot),
        !sbt.is_active ==> !sbt.spec_is_valid_at(slot),
{
}

/// A credential stays valid through its expiry slot and is invalid at every
/// later slot; validity only ever ends as slots advance.
pub proof fn law_sbt_expiry(sbt: ClearanceSbt, slot: u64, later: u64)
    requires
        slot <= later,
    ensures
        sbt.valid_until_slot matches Some(e) && later > e ==> !sbt.spec_is_valid_at(later),
        sbt.spec_is_valid_at(later) ==> sbt.spec_is_valid_at(slot),
{
}

impl ClearanceSbt {
    pub open spec fn spec_is_valid_at(self, current_slot: u64) -> bool {
        self.is_active && match self.valid_until_slot {
            Some(expires) => current_slot <= expires,
            None => true,
        }
    }

    /// Active, and not past its expiry slot (the expiry slot itself is still valid).
    /// The revocation registry is not consulted here.
    pub fn is_valid_at(&self, current_slot: u64) -> (r: bool)
        ensures
            r == self.spec_is_valid_at(current_slot),
    {
        self.is_active && match self.valid_until_slot {
            Some(expires) => current_slot <= expires,
            None => true,
        }
    }
}

impl AccessDeniedReason {
    pub open spec fn spec_code(self) -> u32 {
        match self {
            AccessDeniedReason::ClearanceMissing => 0,
            AccessDeniedReason::ClearanceExpired => 1,
            AccessDeniedReason::ClearanceRevoked => 2,
            AccessDeniedReason::RoleMissing => 3,
            AccessDeniedReason::RoleInactive => 4,
            AccessDeniedReason::ClearanceOutOfRange => 5,
            AccessDeniedReason::SubnetFrozen => 6,
            AccessDeniedReason::SubnetMembershipMissing => 7,
            AccessDeniedReason::DenyByDefault => 8,
            AccessDeniedReason::RequiresEnclave => 9,
        }
    }

    /// The reason's numeric code (`reason as u32`).
    pub fn code(self) -> (r: u32)
        ensures
            r == self.spec_code(),
    {
        match self {
            AccessDeniedReason::ClearanceMissing => 0,
            AccessDeniedReason::ClearanceExpired => 1,
            AccessDeniedReason::ClearanceRevoked => 2,
            AccessDeniedReason::RoleMissing => 3,
            AccessDeniedReason::RoleInactive => 4,
            AccessDeniedReason::ClearanceOutOfRange => 5,
            AccessDeniedReason::SubnetFrozen => 6,
            AccessDeniedReason::SubnetMembershipMissing => 7,
            AccessDeniedReason::DenyByDefault => 8,
            AccessDeniedReason::RequiresEnclave => 9,
        }
    }
}

} // verus!
