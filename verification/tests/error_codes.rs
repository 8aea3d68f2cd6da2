use aeko_programs::emergency_multisig::types::EmergencyMultisigError;
use aeko_programs::finality_oracle::types::FinalityOracleError;
use aeko_programs::nft_marketplace::types::MarketplaceError;
use aeko_programs::permission_registry::types::PermissionRegistryError;
use aeko_programs::public_mint::types::PublicMintError;
use aeko_programs::revocation_registry::types::RevocationRegistryError;
use aeko_programs::social_anti_spam::types::SocialAntiSpamError;
use aeko_programs::social_monetization::types::SocialMonetizationError;
use aeko_programs::social_posts::types::SocialPostsError;
use aeko_programs::social_rewards::types::SocialRewardsError;
use aeko_programs::social_staking::types::SocialStakingError;
use aeko_programs::subnet_registry::types::SubnetRegistryError;
use aeko_programs::token20::types::Token20Error;

#[test]
fn program_error_codes() {
    assert_eq!(EmergencyMultisigError::QuorumNotMet.code(), 9);
    assert_eq!(EmergencyMultisigError::InvalidInstructionData.code(), 12);
    assert_eq!(FinalityOracleError::ProofNotFound.code(), 9);
    assert_eq!(FinalityOracleError::InvalidInstructionData.code(), 11);
    assert_eq!(PermissionRegistryError::SbtRevoked.code(), 9);
    assert_eq!(PermissionRegistryError::SubnetMembershipMissing.code(), 18);
    assert_eq!(RevocationRegistryError::RotationExpired.code(), 10);
    assert_eq!(RevocationRegistryError::InvalidInstructionData.code(), 13);
    assert_eq!(SubnetRegistryError::MemberNotFound.code(), 9);
    assert_eq!(SubnetRegistryError::InvalidInstructionData.code(), 13);
    assert_eq!(SocialAntiSpamError::ProfileNotFound.code(), 6);
    assert_eq!(SocialMonetizationError::InvalidSubscriptionWindow.code(), 11);
    assert_eq!(SocialPostsError::InvalidEdit.code(), 10);
    assert_eq!(SocialRewardsError::ClaimBelowMinimum.code(), 7);
    assert_eq!(SocialStakingError::InvalidYieldRecord.code(), 10);
}

#[test]
fn hex_error_codes() {
    assert_eq!(MarketplaceError::ListingNotActive.code(), 0xE001);
    assert_eq!(MarketplaceError::TokenNotOwnedBySeller.code(), 0xE006);
    assert_eq!(PublicMintError::AlreadyInitialized.code(), 0xC001);
    assert_eq!(PublicMintError::InvalidTokenomicsState.code(), 0xC00A);
    assert_eq!(Token20Error::AlreadyInitialized.code(), 0xB001);
    assert_eq!(Token20Error::AccountFrozen.code(), 0xB007);
}
