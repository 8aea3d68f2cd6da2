//! Instruction processing of the social posts program.
use vstd::prelude::*;
use vstd::utf8::encode_utf8;
use crate::errors::{map_err, spec_map_err, InstructionError, ProgramError};
use crate::pubkey::Pubkey;
use crate::runtime::{law_write_then_read, spec_write, ContextModel, InstructionContext};
use crate::social_anti_spam::state::{
    first_profile, has_profile, spec_decode_state as spec_decode_anti_spam,
};
use crate::social_anti_spam::types::{
    AntiSpamMode, SocialAntiSpamError, SocialAntiSpamStateAccount, SocialAntiSpamStateAccountModel,
};
use crate::social_posts::state::{
    custom, find_post, first_post, guard_matches, has_guard, has_post, has_proof, lemma_first_post,
    spec_decode_state,
};
use crate::social_posts::types::{
    dec_social_posts_instruction, dec_social_posts_state_account, enc_post_anchor,
    enc_social_posts_state_account, lemma_social_posts_state_account,
    fits_post_anchor, fits_social_posts_state_account, post_anchor_to_vec,
    social_posts_instruction_from_slice, social_posts_state_account_to_vec, EngagementProof,
    ModerationState, PostAnchor, PostAnchorModel, SocialPostsError, SocialPostsInstruction,
    SocialPostsInstructionModel, SocialPostsStateAccount, SocialPostsStateAccountModel,
};

verus! {

pub open spec fn err(e: SocialPostsError) -> InstructionError {
    InstructionError::Custom(e.spec_code())
}

/// The length in bytes of a text.
pub open spec fn byte_len(s: Seq<char>) -> usize {
    encode_utf8(s).len() as usize
}

/// The anti-spam rules for posting, as the anti-spam program applies them
/// with the score estimated from the wallet's spam flags (1000 less 50 per
/// flag, at least 0): a wallet gated until an epoch after `current_epoch` may
/// not post; under `GateByReputation` and `PenaltyEnabled` the estimated
/// score must reach the configured minimum. Stake is not known here, so
/// `GateByStake` adds no rule.
pub open spec fn spec_anti_spam_check(s: SocialAntiSpamStateAccountModel, wallet: Pubkey, current_epoch: u64) -> Result<(), InstructionError> {
    let flags: u16 = if has_profile(s.profiles, wallet) { s.profiles[first_profile(s.profiles, wallet)].spam_flags } else { 0 };
    let gate: u64 = if has_profile(s.profiles, wallet) {
        match s.profiles[first_profile(s.profiles, wallet)].gated_until_epoch { Some(g) => g, None => 0 }
    } else {
        0
    };
    if gate > current_epoch {
        Err(InstructionError::Custom(SocialAntiSpamError::CooldownActive.spec_code()))
    } else if (s.config.mode == AntiSpamMode::GateByReputation || s.config.mode == AntiSpamMode::PenaltyEnabled)
        && ((1000u32).saturating_sub((flags * 50) as u32)) < s.config.min_post_reputation {
        Err(InstructionError::Custom(SocialAntiSpamError::ReputationTooLow.spec_code()))
    } else {
        Ok(())
    }
}

pub open spec fn spec_store(c: ContextModel, s: SocialPostsStateAccountModel) -> (Result<(), InstructionError>, ContextModel) {
    if !fits_social_posts_state_account(s) {
        (Err(InstructionError::InvalidAccountData), c)
    } else {
        spec_write(c, 0, enc_social_posts_state_account(s))
    }
}

/// The state in account 0, decodable and initialized.
pub open spec fn spec_load(c: ContextModel) -> Result<SocialPostsStateAccountModel, InstructionError> {
    match spec_decode_state(c.data(0)) {
        None => Err(InstructionError::InvalidAccountData),
        Some(s) => if !s.is_initialized { Err(err(SocialPostsError::Uninitialized)) } else { Ok(s) },
    }
}

/// InitializeState: accounts `[state (w, owned), payer, authority (s)]`; a state
/// that does not encode is `InvalidInstructionData`.
pub open spec fn spec_initialize(c: ContextModel, state: SocialPostsStateAccountModel) -> (Result<(), InstructionError>, ContextModel) {
    if c.accounts.len() < 3 {
        (Err(InstructionError::NotEnoughAccountKeys), c)
    } else if !c.is_signer(2) {
        (Err(InstructionError::MissingRequiredSignature), c)
    } else if c.key(2) != state.config.authority {
        (Err(InstructionError::IncorrectAuthority), c)
    } else if c.owner(0) != c.program_id {
        (Err(InstructionError::InvalidAccountOwner), c)
    } else if !fits_social_posts_state_account(state) {
        (Err(InstructionError::InvalidInstructionData), c)
    } else {
        spec_write(c, 0, enc_social_posts_state_account(state))
    }
}

/// Why a post may not be anchored in the state, in the order checked.
pub open spec fn spec_validate_post(s: SocialPostsStateAccountModel, post: PostAnchorModel) -> Result<(), InstructionError> {
    if has_post(s.posts, post.post_id) {
        Err(err(SocialPostsError::DuplicatePost))
    } else if post.content_uri.len() == 0 || byte_len(post.content_uri) > s.config.max_content_uri_len {
        Err(err(SocialPostsError::InvalidContentUri))
    } else if post.created_at_unix <= 0 {
        Err(err(SocialPostsError::InvalidTimestamp))
    } else {
        Ok(())
    }
}

/// The anti-spam gate on the creator in account 1, when account 2 is an
/// anti-spam state owned by `anti_spam_program`.
pub open spec fn spec_anti_spam_gate(c: ContextModel, anti_spam_program: Pubkey, current_epoch: u64) -> Result<(), InstructionError> {
    if c.accounts.len() >= 3 && c.owner(2) == anti_spam_program {
        match spec_decode_anti_spam(c.data(2)) {
            None => Err(InstructionError::InvalidAccountData),
            Some(a) => if a.is_initialized { spec_anti_spam_check(a, c.key(1), current_epoch) } else { Ok(()) },
        }
    } else {
        Ok(())
    }
}

/// AnchorPost: accounts `[state (w), creator (s), anti-spam state (optional)]`.
/// An anti-spam state owned by `anti_spam_program` must decode, and when
/// initialized its rules apply to the creator.
pub open spec fn spec_anchor_post(c: ContextModel, anti_spam_program: Pubkey, current_epoch: u64, post: PostAnchorModel) -> (Result<(), InstructionError>, ContextModel) {
    if c.accounts.len() < 2 {
        (Err(InstructionError::NotEnoughAccountKeys), c)
    } else if !c.is_signer(1) {
        (Err(InstructionError::MissingRequiredSignature), c)
    } else if spec_anti_spam_gate(c, anti_spam_program, current_epoch) is Err {
        (Err(spec_anti_spam_gate(c, anti_spam_program, current_epoch)->Err_0), c)
    } else {
        match spec_load(c) {
            Err(e) => (Err(e), c),
            Ok(s) => if !s.config.posting_enabled {
                (Err(err(SocialPostsError::PostingDisabled)), c)
            } else if c.key(1) != post.creator {
                (Err(InstructionError::IncorrectAuthority), c)
            } else if spec_validate_post(s, post) is Err {
                (Err(spec_validate_post(s, post)->Err_0), c)
            } else {
                spec_store(c, SocialPostsStateAccountModel { posts: s.posts.push(post), ..s })
            },
        }
    }
}

/// EditPost: accounts `[state (w), editor (s)]`; only the creator may edit,
/// not to a time before the post's creation.
pub open spec fn spec_edit_post(
    c: ContextModel,
    post_id: [u8; 32],
    editor: Pubkey,
    content_hash: [u8; 32],
    metadata_hash: [u8; 32],
    content_uri: Seq<char>,
    edited_at_unix: i64,
) -> (Result<(), InstructionError>, ContextModel) {
    if c.accounts.len() < 2 {
        (Err(InstructionError::NotEnoughAccountKeys), c)
    } else if !c.is_signer(1) {
        (Err(InstructionError::MissingRequiredSignature), c)
    } else if c.key(1) != editor {
        (Err(InstructionError::IncorrectAuthority), c)
    } else {
        match spec_load(c) {
            Err(e) => (Err(e), c),
            Ok(s) => if !has_post(s.posts, post_id) {
                (Err(err(SocialPostsError::PostNotFound)), c)
            } else {
                let i = first_post(s.posts, post_id);
                let p = s.posts[i];
                if p.creator != editor || edited_at_unix < p.created_at_unix {
                    (Err(err(SocialPostsError::InvalidEdit)), c)
                } else if content_uri.len() == 0 || byte_len(content_uri) > s.config.max_content_uri_len {
                    (Err(err(SocialPostsError::InvalidContentUri)), c)
                } else {
                    spec_store(c, SocialPostsStateAccountModel {
                        posts: s.posts.update(i, PostAnchorModel {
                            content_hash,
                            metadata_hash,
                            content_uri,
                            edited_at_unix: Some(edited_at_unix),
                            ..p
                        }),
                        ..s
                    })
                }
            },
        }
    }
}

/// ModeratePost: accounts `[state (w), authority (s)]`.
pub open spec fn spec_moderate_post(c: ContextModel, post_id: [u8; 32], authority: Pubkey, moderation_state: ModerationState) -> (Result<(), InstructionError>, ContextModel) {
    if c.accounts.len() < 2 {
        (Err(InstructionError::NotEnoughAccountKeys), c)
    } else if !c.is_signer(1) {
        (Err(InstructionError::MissingRequiredSignature), c)
    } else if c.key(1) != authority {
        (Err(InstructionError::IncorrectAuthority), c)
    } else {
        match spec_load(c) {
            Err(e) => (Err(e), c),
            Ok(s) => if authority != s.config.authority {
                (Err(err(SocialPostsError::Unauthorized)), c)
            } else if !has_post(s.posts, post_id) {
                (Err(err(SocialPostsError::PostNotFound)), c)
            } else {
                let i = first_post(s.posts, post_id);
                spec_store(c, SocialPostsStateAccountModel {
                    posts: s.posts.update(i, PostAnchorModel { moderation_state, ..s.posts[i] }),
                    ..s
                })
            },
        }
    }
}

/// Why an engagement proof may not be recorded, in the order checked.
pub open spec fn spec_validate_proof(s: SocialPostsStateAccountModel, proof: EngagementProof) -> Result<(), InstructionError> {
    if proof.action_weight == 0 || proof.unix_timestamp <= 0 {
        Err(err(SocialPostsError::InvalidTimestamp))
    } else if has_proof(s.engagement_proofs, proof.proof_id) {
        Err(err(SocialPostsError::DuplicateEngagementProof))
    } else if has_guard(s.engagement_proofs, proof.replay_guard) {
        Err(err(SocialPostsError::DuplicateReplayGuard))
    } else {
        Ok(())
    }
}

/// RecordEngagement: accounts `[state (w), actor (s)]`.
pub open spec fn spec_record_engagement(c: ContextModel, proof: EngagementProof) -> (Result<(), InstructionError>, ContextModel) {
    if c.accounts.len() < 2 {
        (Err(InstructionError::NotEnoughAccountKeys), c)
    } else if !c.is_signer(1) {
        (Err(InstructionError::MissingRequiredSignature), c)
    } else {
        match spec_load(c) {
            Err(e) => (Err(e), c),
            Ok(s) => if !s.config.engagement_enabled {
                (Err(err(SocialPostsError::EngagementDisabled)), c)
            } else if c.key(1) != proof.actor {
                (Err(InstructionError::IncorrectAuthority), c)
            } else if spec_validate_proof(s, proof) is Err {
                (Err(spec_validate_proof(s, proof)->Err_0), c)
            } else {
                spec_store(c, SocialPostsStateAccountModel { engagement_proofs: s.engagement_proofs.push(proof), ..s })
            },
        }
    }
}

/// ReadPostsState: accounts `[state (owned)]`; returns the post with the id (if
/// any; a post that does not encode is `InvalidAccountData`), or the whole state.
pub open spec fn spec_read(c: ContextModel, post_id: Option<[u8; 32]>) -> (Result<(), InstructionError>, ContextModel) {
    if c.accounts.len() < 1 {
        (Err(InstructionError::NotEnoughAccountKeys), c)
    } else if c.owner(0) != c.program_id {
        (Err(InstructionError::InvalidAccountOwner), c)
    } else {
        match spec_load(c) {
            Err(e) => (Err(e), c),
            Ok(s) => match post_id {
                Some(id) => if !has_post(s.posts, id) {
                    (Ok(()), c.with_return(seq![0u8]))
                } else if !fits_post_anchor(s.posts[first_post(s.posts, id)]) {
                    (Err(InstructionError::InvalidAccountData), c)
                } else {
                    (Ok(()), c.with_return(seq![1u8] + enc_post_anchor(s.posts[first_post(s.posts, id)])))
                },
                None => if !fits_social_posts_state_account(s) {
                    (Err(InstructionError::InvalidAccountData), c)
                } else {
                    (Ok(()), c.with_return(enc_social_posts_state_account(s)))
                },
            },
        }
    }
}

pub open spec fn spec_process(c: ContextModel, data: Seq<u8>, anti_spam_program: Pubkey, current_epoch: u64) -> (Result<(), InstructionError>, ContextModel) {
    match dec_social_posts_instruction(data) {
        Some((ix, rest)) => if rest.len() != 0 {
            (Err(InstructionError::InvalidInstructionData), c)
        } else {
            match ix {
                SocialPostsInstructionModel::InitializeState { state } => spec_initialize(c, state),
                SocialPostsInstructionModel::AnchorPost { post } => spec_anchor_post(c, anti_spam_program, current_epoch, post),
                SocialPostsInstructionModel::EditPost { post_id, editor, content_hash, metadata_hash, content_uri, edited_at_unix } =>
                    spec_edit_post(c, post_id, editor, content_hash, metadata_hash, content_uri, edited_at_unix),
                SocialPostsInstructionModel::ModeratePost { post_id, authority, moderation_state } =>
                    spec_moderate_post(c, post_id, authority, moderation_state),
                SocialPostsInstructionModel::RecordEngagement { proof } => spec_record_engagement(c, proof),
                SocialPostsInstructionModel::ReadPostsState { post_id } => spec_read(c, post_id),
            }
        },
        None => (Err(InstructionError::InvalidInstructionData), c),
    }
}

pub struct Processor;

impl Processor {
    /// Runs one instruction; `anti_spam_program` is the id of the anti-spam
    /// program, whose state account may accompany a new post, and
    /// `current_epoch` the cluster's epoch, against which its cooldowns run.
    pub fn process(ctx: &mut InstructionContext, instruction_data: &[u8], anti_spam_program: Pubkey, current_epoch: u64) -> (r: Result<(), InstructionError>)
        ensures
            (r, final(ctx)@) == spec_process(old(ctx)@, instruction_data@, anti_spam_program, current_epoch),
    {
        let instruction = match social_posts_instruction_from_slice(instruction_data) {
            Some(ix) => ix,
            None => return Err(InstructionError::InvalidInstructionData),
        };
        match instruction {
            SocialPostsInstruction::InitializeState { state } => Self::process_initialize(ctx, state),
            SocialPostsInstruction::AnchorPost { post } => Self::process_anchor_post(ctx, anti_spam_program, current_epoch, post),
            SocialPostsInstruction::EditPost { post_id, editor, content_hash, metadata_hash, content_uri, edited_at_unix } =>
                Self::process_edit_post(ctx, post_id, editor, content_hash, metadata_hash, content_uri, edited_at_unix),
            SocialPostsInstruction::ModeratePost { post_id, authority, moderation_state } =>
                Self::process_moderate_post(ctx, post_id, authority, moderation_state),
            SocialPostsInstruction::RecordEngagement { proof } => Self::process_record_engagement(ctx, proof),
            SocialPostsInstruction::ReadPostsState { post_id } => Self::process_read(ctx, post_id),
        }
    }

    /// How program errors are reported: a custom code is kept, any other error
    /// becomes `InvalidArgument`.
    pub fn map_program_error(error: ProgramError) -> (r: InstructionError)
        ensures
            r == spec_map_err(error),
    {
        map_err(error)
    }

    fn load(ctx: &InstructionContext) -> (r: Result<SocialPostsStateAccount, InstructionError>)
        requires
            0 < ctx@.accounts.len(),
        ensures
            r.is_ok() == spec_load(ctx@).is_ok(),
            r matches Ok(s) ==> spec_load(ctx@) == Ok::<_, InstructionError>(s@),
            r matches Err(e) ==> spec_load(ctx@) == Err::<SocialPostsStateAccountModel, _>(e),
    {
        let state = match SocialPostsStateAccount::deserialize_padded(ctx.data(0)) {
            Ok(s) => s,
            Err(_) => return Err(InstructionError::InvalidAccountData),
        };
        if let Err(e) = state.ensure_initialized() {
            return Err(map_err(e));
        }
        Ok(state)
    }

    fn write_back(ctx: &mut InstructionContext, state: &SocialPostsStateAccount) -> (r: Result<(), InstructionError>)
        requires
            0 < old(ctx)@.accounts.len(),
        ensures
            (r, final(ctx)@) == spec_store(old(ctx)@, state@),
    {
        match social_posts_state_account_to_vec(state) {
            None => Err(InstructionError::InvalidAccountData),
            Some(bytes) => ctx.write_account(0, &bytes),
        }
    }

    pub fn process_initialize(ctx: &mut InstructionContext, state: SocialPostsStateAccount) -> (r: Result<(), InstructionError>)
        ensures
            (r, final(ctx)@) == spec_initialize(old(ctx)@, state@),
    {
        if let Err(e) = ctx.check_number_of_instruction_accounts(3) {
            return Err(e);
        }
        if !ctx.is_signer(2) {
            return Err(InstructionError::MissingRequiredSignature);
        }
        if ctx.key(2) != state.config.authority {
            return Err(InstructionError::IncorrectAuthority);
        }
        if ctx.owner(0) != ctx.program_id {
            return Err(InstructionError::InvalidAccountOwner);
        }
        match social_posts_state_account_to_vec(&state) {
            None => Err(InstructionError::InvalidInstructionData),
            Some(bytes) => ctx.write_account(0, &bytes),
        }
    }

    /// The anti-spam rules for posting; see [`spec_anti_spam_check`].
    pub fn check_anti_spam_eligibility(anti_spam_state: &SocialAntiSpamStateAccount, wallet: &Pubkey, current_epoch: u64) -> (r: Result<(), InstructionError>)
        ensures
            r == spec_anti_spam_check(anti_spam_state@, *wallet, current_epoch),
    {
        let profile = anti_spam_state.profile_for_wallet(wallet);
        if let Some(p) = profile {
            let gate: u64 = match p.gated_until_epoch {
                Some(g) => g,
                None => 0,
            };
            if gate > current_epoch {
                return Err(InstructionError::Custom(SocialAntiSpamError::CooldownActive.code()));
            }
        }
        match anti_spam_state.config.mode {
            AntiSpamMode::GateByReputation | AntiSpamMode::PenaltyEnabled => {
                let flags: u16 = match profile {
                    Some(p) => p.spam_flags,
                    None => 0,
                };
                let estimated: u32 = 1000u32.saturating_sub((flags as u32) * 50);
                if estimated < anti_spam_state.config.min_post_reputation as u32 {
                    return Err(InstructionError::Custom(SocialAntiSpamError::ReputationTooLow.code()));
                }
                Ok(())
            },
            _ => Ok(()),
        }
    }

    fn anti_spam_gate(ctx: &InstructionContext, anti_spam_program: Pubkey, current_epoch: u64) -> (r: Result<(), InstructionError>)
        requires
            2 <= ctx@.accounts.len(),
        ensures
            r == spec_anti_spam_gate(ctx@, anti_spam_program, current_epoch),
    {
        if ctx.accounts.len() >= 3 && ctx.owner(2) == anti_spam_program {
            let anti_spam = match SocialAntiSpamStateAccount::deserialize_padded(ctx.data(2)) {
                Ok(a) => a,
                Err(_) => return Err(InstructionError::InvalidAccountData),
            };
            if anti_spam.is_initialized {
                return Self::check_anti_spam_eligibility(&anti_spam, &ctx.key(1), current_epoch);
            }
        }
        Ok(())
    }

    fn uri_ok(uri: &String, max_len: u16) -> (r: bool)
        ensures
            r == !(uri@.len() == 0 || byte_len(uri@) > max_len),
    {
        !(uri.as_str().is_empty() || uri.as_str().len() > max_len as usize)
    }

    /// Why a post may not be anchored; see [`spec_validate_post`].
    pub fn validate_post_anchor(state: &SocialPostsStateAccount, post: &PostAnchor) -> (r: Result<(), InstructionError>)
        ensures
            r == spec_validate_post(state@, post@),
    {
        if state.post_exists(&post.post_id) {
            return Err(InstructionError::Custom(SocialPostsError::DuplicatePost.code()));
        }
        if !Self::uri_ok(&post.content_uri, state.config.max_content_uri_len) {
            return Err(InstructionError::Custom(SocialPostsError::InvalidContentUri.code()));
        }
        if post.created_at_unix <= 0 {
            return Err(InstructionError::Custom(SocialPostsError::InvalidTimestamp.code()));
        }
        Ok(())
    }

    pub fn process_anchor_post(ctx: &mut InstructionContext, anti_spam_program: Pubkey, current_epoch: u64, post: PostAnchor) -> (r: Result<(), InstructionError>)
        ensures
            (r, final(ctx)@) == spec_anchor_post(old(ctx)@, anti_spam_program, current_epoch, post@),
    {
        if let Err(e) = ctx.check_number_of_instruction_accounts(2) {
            return Err(e);
        }
        if !ctx.is_signer(1) {
            return Err(InstructionError::MissingRequiredSignature);
        }
        let creator = ctx.key(1);
        if let Err(e) = Self::anti_spam_gate(ctx, anti_spam_program, current_epoch) {
            return Err(e);
        }
        let mut state = match Self::load(ctx) {
            Ok(s) => s,
            Err(e) => return Err(e),
        };
        if !state.config.posting_enabled {
            return Err(InstructionError::Custom(SocialPostsError::PostingDisabled.code()));
        }
        if creator != post.creator {
            return Err(InstructionError::IncorrectAuthority);
        }
        if let Err(e) = Self::validate_post_anchor(&state, &post) {
            return Err(e);
        }
        let ghost before = state@;
        let ghost pm = post@;
        state.posts.push(post);
        assert(state@.posts =~= before.posts.push(pm));
        Self::write_back(ctx, &state)
    }

    pub fn process_edit_post(
        ctx: &mut InstructionContext,
        post_id: [u8; 32],
        editor: Pubkey,
        content_hash: [u8; 32],
        metadata_hash: [u8; 32],
        content_uri: String,
        edited_at_unix: i64,
    ) -> (r: Result<(), InstructionError>)
        ensures
            (r, final(ctx)@) == spec_edit_post(old(ctx)@, post_id, editor, content_hash, metadata_hash, content_uri@, edited_at_unix),
    {
        if let Err(e) = ctx.check_number_of_instruction_accounts(2) {
            return Err(e);
        }
        if !ctx.is_signer(1) {
            return Err(InstructionError::MissingRequiredSignature);
        }
        if ctx.key(1) != editor {
            return Err(InstructionError::IncorrectAuthority);
        }
        let mut state = match Self::load(ctx) {
            Ok(s) => s,
            Err(e) => return Err(e),
        };
        let max_uri_len = state.config.max_content_uri_len;
        let i = match find_post(&state.posts, &post_id) {
            Some(i) => i,
            None => return Err(InstructionError::Custom(SocialPostsError::PostNotFound.code())),
        };
        if state.posts[i].creator != editor || edited_at_unix < state.posts[i].created_at_unix {
            return Err(InstructionError::Custom(SocialPostsError::InvalidEdit.code()));
        }
        if !Self::uri_ok(&content_uri, max_uri_len) {
            return Err(InstructionError::Custom(SocialPostsError::InvalidContentUri.code()));
        }
        let ghost before = state@;
        let mut p = state.posts.remove(i);
        p.content_hash = content_hash;
        p.metadata_hash = metadata_hash;
        p.content_uri = content_uri;
        p.edited_at_unix = Some(edited_at_unix);
        state.posts.insert(i, p);
        assert(state@.posts =~= before.posts.update(i as int, PostAnchorModel {
            content_hash,
            metadata_hash,
            content_uri: content_uri@,
            edited_at_unix: Some(edited_at_unix),
            ..before.posts[i as int]
        }));
        Self::write_back(ctx, &state)
    }

    pub fn process_moderate_post(ctx: &mut InstructionContext, post_id: [u8; 32], authority: Pubkey, moderation_state: ModerationState) -> (r: Result<(), InstructionError>)
        ensures
            (r, final(ctx)@) == spec_moderate_post(old(ctx)@, post_id, authority, moderation_state),
    {
        if let Err(e) = ctx.check_number_of_instruction_accounts(2) {
            return Err(e);
        }
        if !ctx.is_signer(1) {
            return Err(InstructionError::MissingRequiredSignature);
        }
        if ctx.key(1) != authority {
            return Err(InstructionError::IncorrectAuthority);
        }
        let mut state = match Self::load(ctx) {
            Ok(s) => s,
            Err(e) => return Err(e),
        };
        if let Err(e) = state.ensure_authority(&authority) {
            return Err(map_err(e));
        }
        let i = match find_post(&state.posts, &post_id) {
            Some(i) => i,
            None => return Err(InstructionError::Custom(SocialPostsError::PostNotFound.code())),
        };
        let ghost before = state@;
        let mut p = state.posts.remove(i);
        p.moderation_state = moderation_state;
        state.posts.insert(i, p);
        assert(state@.posts =~= before.posts.update(i as int, PostAnchorModel { moderation_state, ..before.posts[i as int] }));
        Self::write_back(ctx, &state)
    }

    /// Why an engagement proof may not be recorded; see [`spec_validate_proof`].
    pub fn validate_engagement_proof(state: &SocialPostsStateAccount, proof: &EngagementProof) -> (r: Result<(), InstructionError>)
        ensures
            r == spec_validate_proof(state@, *proof),
    {
        if proof.action_weight == 0 || proof.unix_timestamp <= 0 {
            return Err(InstructionError::Custom(SocialPostsError::InvalidTimestamp.code()));
        }
        if state.proof_exists(&proof.proof_id) {
            return Err(InstructionError::Custom(SocialPostsError::DuplicateEngagementProof.code()));
        }
        if state.replay_guard_exists(&proof.replay_guard) {
            return Err(InstructionError::Custom(SocialPostsError::DuplicateReplayGuard.code()));
        }
        Ok(())
    }

    pub fn process_record_engagement(ctx: &mut InstructionContext, proof: EngagementProof) -> (r: Result<(), InstructionError>)
        ensures
            (r, final(ctx)@) == spec_record_engagement(old(ctx)@, proof),
    {
        if let Err(e) = ctx.check_number_of_instruction_accounts(2) {
            return Err(e);
        }
        if !ctx.is_signer(1) {
            return Err(InstructionError::MissingRequiredSignature);
        }
        let actor = ctx.key(1);
        let mut state = match Self::load(ctx) {
            Ok(s) => s,
            Err(e) => return Err(e),
        };
        if !state.config.engagement_enabled {
            return Err(InstructionError::Custom(SocialPostsError::EngagementDisabled.code()));
        }
        if actor != proof.actor {
            return Err(InstructionError::IncorrectAuthority);
        }
        if let Err(e) = Self::validate_engagement_proof(&state, &proof) {
            return Err(e);
        }
        state.engagement_proofs.push(proof);
        Self::write_back(ctx, &state)
    }

    pub fn process_read(ctx: &mut InstructionContext, post_id: Option<[u8; 32]>) -> (r: Result<(), InstructionError>)
        ensures
            (r, final(ctx)@) == spec_read(old(ctx)@, post_id),
    {
        if let Err(e) = ctx.check_number_of_instruction_accounts(1) {
            return Err(e);
        }
        if ctx.owner(0) != ctx.program_id {
            return Err(InstructionError::InvalidAccountOwner);
        }
        let state = match Self::load(ctx) {
            Ok(s) => s,
            Err(e) => return Err(e),
        };
        let out = match post_id {
            Some(id) => match find_post(&state.posts, &id) {
                Some(i) => match post_anchor_to_vec(&state.posts[i]) {
                    Some(body) => {
                        let mut out = vec![1u8];
                        let mut b = body;
                        out.append(&mut b);
                        assert(out@ =~= seq![1u8] + enc_post_anchor(state@.posts[i as int]));
                        out
                    },
                    None => return Err(InstructionError::InvalidAccountData),
                },
                None => {
                    let out = vec![0u8];
                    assert(out@ =~= seq![0u8]);
                    out
                },
            },
            None => match social_posts_state_account_to_vec(&state) {
                Some(b) => b,
                None => return Err(InstructionError::InvalidAccountData),
            },
        };
        ctx.set_return_data(out);
        Ok(())
    }
}

/// A post id is anchored once: once a post is in the state, any post with the
/// same id is refused as a duplicate.
pub proof fn law_post_anchors_once(s: SocialPostsStateAccountModel, post: PostAnchorModel, again: PostAnchorModel)
    requires
        again.post_id == post.post_id,
    ensures
        spec_validate_post(SocialPostsStateAccountModel { posts: s.posts.push(post), ..s }, again)
            == Err::<(), _>(err(SocialPostsError::DuplicatePost)),
{
    let ps = s.posts.push(post);
    assert(ps[s.posts.len() as int].post_id == again.post_id);
}

/// An engagement proof is recorded once per replay guard: once a proof is in
/// the state, any proof with the same replay guard is refused.
pub proof fn law_replay_guard_used_once(s: SocialPostsStateAccountModel, proof: EngagementProof, again: EngagementProof)
    requires
        again.replay_guard == proof.replay_guard,
    ensures
        spec_validate_proof(SocialPostsStateAccountModel { engagement_proofs: s.engagement_proofs.push(proof), ..s }, again) is Err,
{
    let ps = s.engagement_proofs.push(proof);
    assert(guard_matches(ps[s.engagement_proofs.len() as int], again.replay_guard));
}

/// An edit rewrites the post it names: an EditPost that succeeds was signed
/// by the editor, who is the creator of the (first) post with that id, at a
/// time not before its creation; in the stored state (read from the front of
/// account 0) that post carries the instruction's content hash, metadata hash,
/// content URI and edit time, keeps its id, creator, creation time and the
/// rest, and every other post and the configuration are as they were.
pub proof fn law_edit_rewrites_the_post(
    c: ContextModel,
    post_id: [u8; 32],
    editor: Pubkey,
    content_hash: [u8; 32],
    metadata_hash: [u8; 32],
    content_uri: Seq<char>,
    edited_at_unix: i64,
)
    requires
        spec_edit_post(c, post_id, editor, content_hash, metadata_hash, content_uri, edited_at_unix).0 is Ok,
    ensures
        ({
            let c2 = spec_edit_post(c, post_id, editor, content_hash, metadata_hash, content_uri, edited_at_unix).1;
            &&& c.is_signer(1) && c.key(1) == editor
            &&& spec_decode_state(c.data(0)) matches Some(s)
            &&& dec_social_posts_state_account(c2.data(0)) matches Some((s2, _))
            &&& s2.config == s.config
            &&& s2.posts.len() == s.posts.len()
            &&& exists|i: int| {
                &&& 0 <= i < s.posts.len()
                &&& s.posts[i].post_id == post_id
                &&& forall|j: int| 0 <= j < i ==> s.posts[j].post_id != post_id
                &&& s.posts[i].creator == editor
                &&& s.posts[i].created_at_unix <= edited_at_unix
                &&& s2.posts[i].content_hash == content_hash
                &&& s2.posts[i].metadata_hash == metadata_hash
                &&& s2.posts[i].content_uri == content_uri
                &&& s2.posts[i].edited_at_unix == Some(edited_at_unix)
                &&& s2.posts[i].post_id == post_id
                &&& s2.posts[i].creator == s.posts[i].creator
                &&& s2.posts[i].created_at_unix == s.posts[i].created_at_unix
                &&& s2.posts[i].moderation_state == s.posts[i].moderation_state
                &&& s2.posts[i].visibility == s.posts[i].visibility
                &&& forall|j: int| 0 <= j < s.posts.len() && j != i ==> s2.posts[j] == s.posts[j]
            }
        }),
{
    let s = spec_decode_state(c.data(0))->Some_0;
    lemma_first_post(s.posts, post_id);
    let i = first_post(s.posts, post_id);
    let p = s.posts[i];
    let s2 = SocialPostsStateAccountModel {
        posts: s.posts.update(i, PostAnchorModel {
            content_hash,
            metadata_hash,
            content_uri,
            edited_at_unix: Some(edited_at_unix),
            ..p
        }),
        ..s
    };
    let bytes = enc_social_posts_state_account(s2);
    law_write_then_read(c, 0, bytes);
    lemma_social_posts_state_account(s2, Seq::new((c.data(0).len() - bytes.len()) as nat, |k: int| 0u8));
    assert(forall|j: int| 0 <= j < i ==> (#[trigger] s.posts[j]).post_id != post_id);
}

/// Moderation changes only the moderation state: a ModeratePost that
/// succeeds was signed by the configured authority; in the stored state the
/// (first) post with that id has the given moderation state and is otherwise
/// as it was, and every other post and the configuration are unchanged.
pub proof fn law_moderation_sets_only_the_state(c: ContextModel, post_id: [u8; 32], authority: Pubkey, moderation_state: ModerationState)
    requires
        spec_moderate_post(c, post_id, authority, moderation_state).0 is Ok,
    ensures
        ({
            let c2 = spec_moderate_post(c, post_id, authority, moderation_state).1;
            &&& c.is_signer(1) && c.key(1) == authority
            &&& spec_decode_state(c.data(0)) matches Some(s)
            &&& authority == s.config.authority
            &&& dec_social_posts_state_account(c2.data(0)) matches Some((s2, _))
            &&& s2 == SocialPostsStateAccountModel { posts: s2.posts, ..s }
            &&& s2.posts.len() == s.posts.len()
            &&& exists|i: int| {
                &&& 0 <= i < s.posts.len()
                &&& s.posts[i].post_id == post_id
                &&& s2.posts[i] == PostAnchorModel { moderation_state, ..s.posts[i] }
                &&& forall|j: int| 0 <= j < s.posts.len() && j != i ==> s2.posts[j] == s.posts[j]
            }
        }),
{
    let s = spec_decode_state(c.data(0))->Some_0;
    lemma_first_post(s.posts, post_id);
    let i = first_post(s.posts, post_id);
    let s2 = SocialPostsStateAccountModel {
        posts: s.posts.update(i, PostAnchorModel { moderation_state, ..s.posts[i] }),
        ..s
    };
    let bytes = enc_social_posts_state_account(s2);
    law_write_then_read(c, 0, bytes);
    lemma_social_posts_state_account(s2, Seq::new((c.data(0).len() - bytes.len()) as nat, |k: int| 0u8));
    assert(s.posts[i].post_id == post_id);
    assert(s2.posts[i] == PostAnchorModel { moderation_state, ..s.posts[i] });
    assert(s2 == SocialPostsStateAccountModel { posts: s2.posts, ..s });
}

} // verus!
