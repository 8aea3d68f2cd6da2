//! Instruction builders: each returns the instruction with its encoded data and
//! the accounts it expects, in order.
use vstd::prelude::*;
use crate::pubkey::{Pubkey};
use crate::runtime::{AccountMeta, Instruction};
use crate::social_posts::types::{EngagementProof, ModerationState, PostAnchor, SocialPostsInstruction, SocialPostsInstructionModel, SocialPostsStateAccount, enc_social_posts_instruction, fits_social_posts_instruction, social_posts_instruction_to_vec};

verus! {

pub fn initialize_state(
    program_id: &Pubkey,
    state_pubkey: &Pubkey,
    payer_pubkey: &Pubkey,
    authority_pubkey: &Pubkey,
    state: SocialPostsStateAccount,
) -> (r: Instruction)
    requires
        fits_social_posts_instruction(SocialPostsInstructionModel::InitializeState { state: state@ }),
    ensures
        r.program_id == *program_id,
        r.accounts@ == seq![AccountMeta { pubkey: *state_pubkey, is_signer: false, is_writable: true }, AccountMeta { pubkey: *payer_pubkey, is_signer: true, is_writable: false }, AccountMeta { pubkey: *authority_pubkey, is_signer: true, is_writable: false }],
        r.data@ == enc_social_posts_instruction(SocialPostsInstructionModel::InitializeState { state: state@ }),
{
    let data = match social_posts_instruction_to_vec(&SocialPostsInstruction::InitializeState { state }) {
        Some(d) => d,
        None => Vec::new(),
    };
    Instruction {
        program_id: *program_id,
        accounts: vec![
            AccountMeta::new(*state_pubkey, false),
            AccountMeta::new_readonly(*payer_pubkey, true),
            AccountMeta::new_readonly(*authority_pubkey, true),
        ],
        data,
    }
}

pub fn anchor_post(
    program_id: &Pubkey,
    state_pubkey: &Pubkey,
    creator_pubkey: &Pubkey,
    post: PostAnchor,
) -> (r: Instruction)
    requires
        fits_social_posts_instruction(SocialPostsInstructionModel::AnchorPost { post: post@ }),
    ensures
        r.program_id == *program_id,
        r.accounts@ == seq![AccountMeta { pubkey: *state_pubkey, is_signer: false, is_writable: true }, AccountMeta { pubkey: *creator_pubkey, is_signer: true, is_writable: false }],
        r.data@ == enc_social_posts_instruction(SocialPostsInstructionModel::AnchorPost { post: post@ }),
{
    let data = match social_posts_instruction_to_vec(&SocialPostsInstruction::AnchorPost { post }) {
        Some(d) => d,
        None => Vec::new(),
    };
    Instruction {
        program_id: *program_id,
        accounts: vec![
            AccountMeta::new(*state_pubkey, false),
            AccountMeta::new_readonly(*creator_pubkey, true),
        ],
        data,
    }
}

pub fn edit_post(
    program_id: &Pubkey,
    state_pubkey: &Pubkey,
    editor_pubkey: &Pubkey,
    post_id: [u8; 32],
    content_hash: [u8; 32],
    metadata_hash: [u8; 32],
    content_uri: String,
    edited_at_unix: i64,
) -> (r: Instruction)
    requires
        fits_social_posts_instruction(SocialPostsInstructionModel::EditPost { post_id, editor: *editor_pubkey, content_hash, metadata_hash, content_uri: content_uri@, edited_at_unix }),
    ensures
        r.program_id == *program_id,
        r.accounts@ == seq![AccountMeta { pubkey: *state_pubkey, is_signer: false, is_writable: true }, AccountMeta { pubkey: *editor_pubkey, is_signer: true, is_writable: false }],
        r.data@ == enc_social_posts_instruction(SocialPostsInstructionModel::EditPost { post_id, editor: *editor_pubkey, content_hash, metadata_hash, content_uri: content_uri@, edited_at_unix }),
{
    let data = match social_posts_instruction_to_vec(&SocialPostsInstruction::EditPost { post_id, editor: *editor_pubkey, content_hash, metadata_hash, content_uri, edited_at_unix }) {
        Some(d) => d,
        None => Vec::new(),
    };
    Instruction {
        program_id: *program_id,
        accounts: vec![
            AccountMeta::new(*state_pubkey, false),
            AccountMeta::new_readonly(*editor_pubkey, true),
        ],
        data,
    }
}

pub fn moderate_post(
    program_id: &Pubkey,
    state_pubkey: &Pubkey,
    authority_pubkey: &Pubkey,
    post_id: [u8; 32],
    moderation_state: ModerationState,
) -> (r: Instruction)
    ensures
        r.program_id == *program_id,
        r.accounts@ == seq![AccountMeta { pubkey: *state_pubkey, is_signer: false, is_writable: true }, AccountMeta { pubkey: *authority_pubkey, is_signer: true, is_writable: false }],
        r.data@ == enc_social_posts_instruction(SocialPostsInstructionModel::ModeratePost { post_id, authority: *authority_pubkey, moderation_state }),
{
    let data = match social_posts_instruction_to_vec(&SocialPostsInstruction::ModeratePost { post_id, authority: *authority_pubkey, moderation_state }) {
        Some(d) => d,
        None => Vec::new(),
    };
    Instruction {
        program_id: *program_id,
        accounts: vec![
            AccountMeta::new(*state_pubkey, false),
            AccountMeta::new_readonly(*authority_pubkey, true),
        ],
        data,
    }
}

pub fn record_engagement(
    program_id: &Pubkey,
    state_pubkey: &Pubkey,
    actor_pubkey: &Pubkey,
    proof: EngagementProof,
) -> (r: Instruction)
    ensures
        r.program_id == *program_id,
        r.accounts@ == seq![AccountMeta { pubkey: *state_pubkey, is_signer: false, is_writable: true }, AccountMeta { pubkey: *actor_pubkey, is_signer: true, is_writable: false }],
        r.data@ == enc_social_posts_instruction(SocialPostsInstructionModel::RecordEngagement { proof }),
{
    let data = match social_posts_instruction_to_vec(&SocialPostsInstruction::RecordEngagement { proof }) {
        Some(d) => d,
        None => Vec::new(),
    };
    Instruction {
        program_id: *program_id,
        accounts: vec![
            AccountMeta::new(*state_pubkey, false),
            AccountMeta::new_readonly(*actor_pubkey, true),
        ],
        data,
    }
}

pub fn read_posts_state(
    program_id: &Pubkey,
    state_pubkey: &Pubkey,
    post_id: Option<[u8; 32]>,
) -> (r: Instruction)
    ensures
        r.program_id == *program_id,
        r.accounts@ == seq![AccountMeta { pubkey: *state_pubkey, is_signer: false, is_writable: false }],
        r.data@ == enc_social_posts_instruction(SocialPostsInstructionModel::ReadPostsState { post_id }),
{
    let data = match social_posts_instruction_to_vec(&SocialPostsInstruction::ReadPostsState { post_id }) {
        Some(d) => d,
        None => Vec::new(),
    };
    Instruction {
        program_id: *program_id,
        accounts: vec![
            AccountMeta::new_readonly(*state_pubkey, false),
        ],
        data,
    }
}

} // verus!
