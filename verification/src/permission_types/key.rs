//! Key lifecycle states.
use vstd::prelude::*;
use crate::permission_types::types::KeyState;

verus! {

impl KeyState {
    pub open spec fn spec_is_terminal(self) -> bool {
        self == KeyState::Rotated || self == KeyState::Revoked || self == KeyState::Compromised
    }

    /// `Rotated`, `Revoked` and `Compromised` allow no further transition.
    pub fn is_terminal(self) -> (r: bool)
        ensures
            r == self.spec_is_terminal(),
    {
        self == KeyState::Rotated || self == KeyState::Revoked || self == KeyState::Compromised
    }

    pub open spec fn spec_is_invalid(self) -> bool {
        self != KeyState::Active
    }

    /// Every state but `Active` makes the key unusable.
    pub fn is_invalid(self) -> (r: bool)
        ensures
            r == self.spec_is_invalid(),
    {
        self != KeyState::Active
    }
}

/// A terminal key is never usable.
pub proof fn law_terminal_is_invalid(s: KeyState)
    ensures
        s.spec_is_terminal() ==> s.spec_is_invalid(),
{
}

} // verus!
