//! Data types and their byte layout.
use vstd::prelude::*;
use crate::codec::{dec_arr, dec_bool, dec_i64, dec_pubkey, dec_string, dec_u16, dec_u32, dec_u64, enc_arr, enc_bool, enc_i64, enc_pubkey, enc_string, enc_u16, enc_u32, enc_u64, fits_string, fits_u32, lemma_arr, lemma_assoc, lemma_bool, lemma_i64, lemma_pubkey, lemma_skip_skip, lemma_string, lemma_u16, lemma_u32, lemma_u64, read_arr, read_bool, read_i64, read_ok, read_pubkey, read_string, read_u16, read_u32, read_u64, read_u8, write_arr, write_bool, write_i64, write_pubkey, write_string, write_u16, write_u32, write_u64};
use crate::layout::{dec_opt_arr32, dec_opt_i64, enc_opt_arr32, enc_opt_i64, lemma_opt_arr32, lemma_opt_i64, read_opt_arr32, read_opt_i64, write_opt_arr32, write_opt_i64};
use crate::pubkey::{Pubkey};

verus! {

/// Custom error codes of the social posts program.
#[derive(Clone, Copy, Debug, PartialEq, Eq, Structural)]
pub enum SocialPostsError {
    Uninitialized,
    Unauthorized,
    PostingDisabled,
    EngagementDisabled,
    PostNotFound,
    DuplicatePost,
    DuplicateEngagementProof,
    DuplicateReplayGuard,
    InvalidContentUri,
    InvalidTimestamp,
    InvalidEdit,
}

impl SocialPostsError {
    /// The custom error code carried by this error.
    pub open spec fn spec_code(self) -> u32 {
        match self {
            SocialPostsError::Uninitialized => 0,
            SocialPostsError::Unauthorized => 1,
            SocialPostsError::PostingDisabled => 2,
            SocialPostsError::EngagementDisabled => 3,
            SocialPostsError::PostNotFound => 4,
            SocialPostsError::DuplicatePost => 5,
            SocialPostsError::DuplicateEngagementProof => 6,
            SocialPostsError::DuplicateReplayGuard => 7,
            SocialPostsError::InvalidContentUri => 8,
            SocialPostsError::InvalidTimestamp => 9,
            SocialPostsError::InvalidEdit => 10,
        }
    }

    pub fn code(self) -> (c: u32)
        ensures
            c == self.spec_code(),
    {
        match self {
            SocialPostsError::Uninitialized => 0,
            SocialPostsError::Unauthorized => 1,
            SocialPostsError::PostingDisabled => 2,
            SocialPostsError::EngagementDisabled => 3,
            SocialPostsError::PostNotFound => 4,
            SocialPostsError::DuplicatePost => 5,
            SocialPostsError::DuplicateEngagementProof => 6,
            SocialPostsError::DuplicateReplayGuard => 7,
            SocialPostsError::InvalidContentUri => 8,
            SocialPostsError::InvalidTimestamp => 9,
            SocialPostsError::InvalidEdit => 10,
        }
    }
}

/// Kind of post.
#[derive(Clone, Copy, Debug, PartialEq, Eq, Structural)]
pub enum PostKind {
    Original,
    Reply,
    Repost,
    Quote,
}

#[verifier::opaque]
pub open spec fn enc_post_kind(v: PostKind) -> Seq<u8> {
    match v {
        PostKind::Original => seq![0u8],
        PostKind::Reply => seq![1u8],
        PostKind::Repost => seq![2u8],
        PostKind::Quote => seq![3u8],
    }
}

#[verifier::opaque]
pub open spec fn dec_post_kind(s: Seq<u8>) -> Option<(PostKind, Seq<u8>)> {
    if s.len() == 0 {
        None
    } else if s[0] == 0 {
        Some((PostKind::Original, s.skip(1)))
    } else if s[0] == 1 {
        Some((PostKind::Reply, s.skip(1)))
    } else if s[0] == 2 {
        Some((PostKind::Repost, s.skip(1)))
    } else if s[0] == 3 {
        Some((PostKind::Quote, s.skip(1)))
    } else { None }
}

pub fn read_post_kind(d: &[u8], pos: usize) -> (r: Option<(PostKind, usize)>)
    requires
        pos <= d@.len(),
    ensures
        read_ok(dec_post_kind(d@.skip(pos as int)), r, d@),
{
    proof {
        reveal(dec_post_kind);
    }
    match read_u8(d, pos) {
        None => None,
        Some((tag, p0)) => {
            proof {
                lemma_skip_skip(d@, pos as int, 1);
            }
            match tag {
            0 => Some((PostKind::Original, p0)),
            1 => Some((PostKind::Reply, p0)),
            2 => Some((PostKind::Repost, p0)),
            3 => Some((PostKind::Quote, p0)),
            _ => None,
            }
        },
    }
}

pub fn write_post_kind(out: &mut Vec<u8>, v: &PostKind)
    ensures
        final(out)@ == old(out)@ + enc_post_kind(*v),
{
    proof {
        reveal(enc_post_kind);
    }
    match v {
        PostKind::Original => {
            out.push(0u8);
            assert(out@ =~= old(out)@ + seq![0u8]);
        },
        PostKind::Reply => {
            out.push(1u8);
            assert(out@ =~= old(out)@ + seq![1u8]);
        },
        PostKind::Repost => {
            out.push(2u8);
            assert(out@ =~= old(out)@ + seq![2u8]);
        },
        PostKind::Quote => {
            out.push(3u8);
            assert(out@ =~= old(out)@ + seq![3u8]);
        },
    }
}

pub proof fn lemma_post_kind(v: PostKind, rest: Seq<u8>)
    ensures
        dec_post_kind(enc_post_kind(v) + rest) == Some((v, rest)),
{
    reveal(enc_post_kind);
    reveal(dec_post_kind);
    match v {
        PostKind::Original => {
            assert((enc_post_kind(v) + rest).skip(1) =~= rest);
        },
        PostKind::Reply => {
            assert((enc_post_kind(v) + rest).skip(1) =~= rest);
        },
        PostKind::Repost => {
            assert((enc_post_kind(v) + rest).skip(1) =~= rest);
        },
        PostKind::Quote => {
            assert((enc_post_kind(v) + rest).skip(1) =~= rest);
        },
    }
}

/// Who may see a post.
#[derive(Clone, Copy, Debug, PartialEq, Eq, Structural)]
pub enum VisibilityClass {
    Public,
    FollowersOnly,
    Permissioned,
    Paid,
}

#[verifier::opaque]
pub open spec fn enc_visibility_class(v: VisibilityClass) -> Seq<u8> {
    match v {
        VisibilityClass::Public => seq![0u8],
        VisibilityClass::FollowersOnly => seq![1u8],
        VisibilityClass::Permissioned => seq![2u8],
        VisibilityClass::Paid => seq![3u8],
    }
}

#[verifier::opaque]
pub open spec fn dec_visibility_class(s: Seq<u8>) -> Option<(VisibilityClass, Seq<u8>)> {
    if s.len() == 0 {
        None
    } else if s[0] == 0 {
        Some((VisibilityClass::Public, s.skip(1)))
    } else if s[0] == 1 {
        Some((VisibilityClass::FollowersOnly, s.skip(1)))
    } else if s[0] == 2 {
        Some((VisibilityClass::Permissioned, s.skip(1)))
    } else if s[0] == 3 {
        Some((VisibilityClass::Paid, s.skip(1)))
    } else { None }
}

pub fn read_visibility_class(d: &[u8], pos: usize) -> (r: Option<(VisibilityClass, usize)>)
    requires
        pos <= d@.len(),
    ensures
        read_ok(dec_visibility_class(d@.skip(pos as int)), r, d@),
{
    proof {
        reveal(dec_visibility_class);
    }
    match read_u8(d, pos) {
        None => None,
        Some((tag, p0)) => {
            proof {
                lemma_skip_skip(d@, pos as int, 1);
            }
            match tag {
            0 => Some((VisibilityClass::Public, p0)),
            1 => Some((VisibilityClass::FollowersOnly, p0)),
            2 => Some((VisibilityClass::Permissioned, p0)),
            3 => Some((VisibilityClass::Paid, p0)),
            _ => None,
            }
        },
    }
}

pub fn write_visibility_class(out: &mut Vec<u8>, v: &VisibilityClass)
    ensures
        final(out)@ == old(out)@ + enc_visibility_class(*v),
{
    proof {
        reveal(enc_visibility_class);
    }
    match v {
        VisibilityClass::Public => {
            out.push(0u8);
            assert(out@ =~= old(out)@ + seq![0u8]);
        },
        VisibilityClass::FollowersOnly => {
            out.push(1u8);
            assert(out@ =~= old(out)@ + seq![1u8]);
        },
        VisibilityClass::Permissioned => {
            out.push(2u8);
            assert(out@ =~= old(out)@ + seq![2u8]);
        },
        VisibilityClass::Paid => {
            out.push(3u8);
            assert(out@ =~= old(out)@ + seq![3u8]);
        },
    }
}

pub proof fn lemma_visibility_class(v: VisibilityClass, rest: Seq<u8>)
    ensures
        dec_visibility_class(enc_visibility_class(v) + rest) == Some((v, rest)),
{
    reveal(enc_visibility_class);
    reveal(dec_visibility_class);
    match v {
        VisibilityClass::Public => {
            assert((enc_visibility_class(v) + rest).skip(1) =~= rest);
        },
        VisibilityClass::FollowersOnly => {
            assert((enc_visibility_class(v) + rest).skip(1) =~= rest);
        },
        VisibilityClass::Permissioned => {
            assert((enc_visibility_class(v) + rest).skip(1) =~= rest);
        },
        VisibilityClass::Paid => {
            assert((enc_visibility_class(v) + rest).skip(1) =~= rest);
        },
    }
}

/// Moderation state of a post.
#[derive(Clone, Copy, Debug, PartialEq, Eq, Structural)]
pub enum ModerationState {
    Active,
    ReducedReach,
    HiddenByApp,
    LockedByProtocol,
}

#[verifier::opaque]
pub open spec fn enc_moderation_state(v: ModerationState) -> Seq<u8> {
    match v {
        ModerationState::Active => seq![0u8],
        ModerationState::ReducedReach => seq![1u8],
        ModerationState::HiddenByApp => seq![2u8],
        ModerationState::LockedByProtocol => seq![3u8],
    }
}

#[verifier::opaque]
pub open spec fn dec_moderation_state(s: Seq<u8>) -> Option<(ModerationState, Seq<u8>)> {
    if s.len() == 0 {
        None
    } else if s[0] == 0 {
        Some((ModerationState::Active, s.skip(1)))
    } else if s[0] == 1 {
        Some((ModerationState::ReducedReach, s.skip(1)))
    } else if s[0] == 2 {
        Some((ModerationState::HiddenByApp, s.skip(1)))
    } else if s[0] == 3 {
        Some((ModerationState::LockedByProtocol, s.skip(1)))
    } else { None }
}

pub fn read_moderation_state(d: &[u8], pos: usize) -> (r: Option<(ModerationState, usize)>)
    requires
        pos <= d@.len(),
    ensures
        read_ok(dec_moderation_state(d@.skip(pos as int)), r, d@),
{
    proof {
        reveal(dec_moderation_state);
    }
    match read_u8(d, pos) {
        None => None,
        Some((tag, p0)) => {
            proof {
                lemma_skip_skip(d@, pos as int, 1);
            }
            match tag {
            0 => Some((ModerationState::Active, p0)),
            1 => Some((ModerationState::ReducedReach, p0)),
            2 => Some((ModerationState::HiddenByApp, p0)),
            3 => Some((ModerationState::LockedByProtocol, p0)),
            _ => None,
            }
        },
    }
}

pub fn write_moderation_state(out: &mut Vec<u8>, v: &ModerationState)
    ensures
        final(out)@ == old(out)@ + enc_moderation_state(*v),
{
    proof {
        reveal(enc_moderation_state);
    }
    match v {
        ModerationState::Active => {
            out.push(0u8);
            assert(out@ =~= old(out)@ + seq![0u8]);
        },
        ModerationState::ReducedReach => {
            out.push(1u8);
            assert(out@ =~= old(out)@ + seq![1u8]);
        },
        ModerationState::HiddenByApp => {
            out.push(2u8);
            assert(out@ =~= old(out)@ + seq![2u8]);
        },
        ModerationState::LockedByProtocol => {
            out.push(3u8);
            assert(out@ =~= old(out)@ + seq![3u8]);
        },
    }
}

pub proof fn lemma_moderation_state(v: ModerationState, rest: Seq<u8>)
    ensures
        dec_moderation_state(enc_moderation_state(v) + rest) == Some((v, rest)),
{
    reveal(enc_moderation_state);
    reveal(dec_moderation_state);
    match v {
        ModerationState::Active => {
            assert((enc_moderation_state(v) + rest).skip(1) =~= rest);
        },
        ModerationState::ReducedReach => {
            assert((enc_moderation_state(v) + rest).skip(1) =~= rest);
        },
        ModerationState::HiddenByApp => {
            assert((enc_moderation_state(v) + rest).skip(1) =~= rest);
        },
        ModerationState::LockedByProtocol => {
            assert((enc_moderation_state(v) + rest).skip(1) =~= rest);
        },
    }
}

/// Kind of engagement.
#[derive(Clone, Copy, Debug, PartialEq, Eq, Structural)]
pub enum EngagementActionKind {
    Like,
    Comment,
    Repost,
    Quote,
    Share,
    Save,
}

#[verifier::opaque]
pub open spec fn enc_engagement_action_kind(v: EngagementActionKind) -> Seq<u8> {
    match v {
        EngagementActionKind::Like => seq![0u8],
        EngagementActionKind::Comment => seq![1u8],
        EngagementActionKind::Repost => seq![2u8],
        EngagementActionKind::Quote => seq![3u8],
        EngagementActionKind::Share => seq![4u8],
        EngagementActionKind::Save => seq![5u8],
    }
}

#[verifier::opaque]
pub open spec fn dec_engagement_action_kind(s: Seq<u8>) -> Option<(EngagementActionKind, Seq<u8>)> {
    if s.len() == 0 {
        None
    } else if s[0] == 0 {
        Some((EngagementActionKind::Like, s.skip(1)))
    } else if s[0] == 1 {
        Some((EngagementActionKind::Comment, s.skip(1)))
    } else if s[0] == 2 {
        Some((EngagementActionKind::Repost, s.skip(1)))
    } else if s[0] == 3 {
        Some((EngagementActionKind::Quote, s.skip(1)))
    } else if s[0] == 4 {
        Some((EngagementActionKind::Share, s.skip(1)))
    } else if s[0] == 5 {
        Some((EngagementActionKind::Save, s.skip(1)))
    } else { None }
}

pub fn read_engagement_action_kind(d: &[u8], pos: usize) -> (r: Option<(EngagementActionKind, usize)>)
    requires
        pos <= d@.len(),
    ensures
        read_ok(dec_engagement_action_kind(d@.skip(pos as int)), r, d@),
{
    proof {
        reveal(dec_engagement_action_kind);
    }
    match read_u8(d, pos) {
        None => None,
        Some((tag, p0)) => {
            proof {
                lemma_skip_skip(d@, pos as int, 1);
            }
            match tag {
            0 => Some((EngagementActionKind::Like, p0)),
            1 => Some((EngagementActionKind::Comment, p0)),
            2 => Some((EngagementActionKind::Repost, p0)),
            3 => Some((EngagementActionKind::Quote, p0)),
            4 => Some((EngagementActionKind::Share, p0)),
            5 => Some((EngagementActionKind::Save, p0)),
            _ => None,
            }
        },
    }
}

pub fn write_engagement_action_kind(out: &mut Vec<u8>, v: &EngagementActionKind)
    ensures
        final(out)@ == old(out)@ + enc_engagement_action_kind(*v),
{
    proof {
        reveal(enc_engagement_action_kind);
    }
    match v {
        EngagementActionKind::Like => {
            out.push(0u8);
            assert(out@ =~= old(out)@ + seq![0u8]);
        },
        EngagementActionKind::Comment => {
            out.push(1u8);
            assert(out@ =~= old(out)@ + seq![1u8]);
        },
        EngagementActionKind::Repost => {
            out.push(2u8);
            assert(out@ =~= old(out)@ + seq![2u8]);
        },
        EngagementActionKind::Quote => {
            out.push(3u8);
            assert(out@ =~= old(out)@ + seq![3u8]);
        },
        EngagementActionKind::Share => {
            out.push(4u8);
            assert(out@ =~= old(out)@ + seq![4u8]);
        },
        EngagementActionKind::Save => {
            out.push(5u8);
            assert(out@ =~= old(out)@ + seq![5u8]);
        },
    }
}

pub proof fn lemma_engagement_action_kind(v: EngagementActionKind, rest: Seq<u8>)
    ensures
        dec_engagement_action_kind(enc_engagement_action_kind(v) + rest) == Some((v, rest)),
{
    reveal(enc_engagement_action_kind);
    reveal(dec_engagement_action_kind);
    match v {
        EngagementActionKind::Like => {
            assert((enc_engagement_action_kind(v) + rest).skip(1) =~= rest);
        },
        EngagementActionKind::Comment => {
            assert((enc_engagement_action_kind(v) + rest).skip(1) =~= rest);
        },
        EngagementActionKind::Repost => {
            assert((enc_engagement_action_kind(v) + rest).skip(1) =~= rest);
        },
        EngagementActionKind::Quote => {
            assert((enc_engagement_action_kind(v) + rest).skip(1) =~= rest);
        },
        EngagementActionKind::Share => {
            assert((enc_engagement_action_kind(v) + rest).skip(1) =~= rest);
        },
        EngagementActionKind::Save => {
            assert((enc_engagement_action_kind(v) + rest).skip(1) =~= rest);
        },
    }
}

/// Social posts configuration.
#[derive(Clone, Copy, Debug, PartialEq, Eq)]
pub struct SocialPostsConfig {
    pub authority: Pubkey,
    pub posting_enabled: bool,
    pub engagement_enabled: bool,
    pub max_content_uri_len: u16,
}

#[verifier::opaque]
pub open spec fn enc_social_posts_config(v: SocialPostsConfig) -> Seq<u8> {
    enc_pubkey(v.authority) + (enc_bool(v.posting_enabled) + (enc_bool(v.engagement_enabled) + (enc_u16(v.max_content_uri_len))))
}

#[verifier::opaque]
pub open spec fn dec_social_posts_config(s: Seq<u8>) -> Option<(SocialPostsConfig, Seq<u8>)> {
    match dec_pubkey(s) {
            Some((authority, r1)) => match dec_bool(r1) {
            Some((posting_enabled, r2)) => match dec_bool(r2) {
            Some((engagement_enabled, r3)) => match dec_u16(r3) {
            Some((max_content_uri_len, r4)) => Some((SocialPostsConfig { authority, posting_enabled, engagement_enabled, max_content_uri_len }, r4)),
            None => None,
        },
            None => None,
        },
            None => None,
        },
            None => None,
        }
}

pub fn read_social_posts_config(d: &[u8], pos: usize) -> (r: Option<(SocialPostsConfig, usize)>)
    requires
        pos <= d@.len(),
    ensures
        read_ok(dec_social_posts_config(d@.skip(pos as int)), r, d@),
{
    proof {
        reveal(dec_social_posts_config);
    }
    match read_pubkey(d, pos) {
        None => None,
        Some((authority, p1)) => match read_bool(d, p1) {
        None => None,
        Some((posting_enabled, p2)) => match read_bool(d, p2) {
        None => None,
        Some((engagement_enabled, p3)) => match read_u16(d, p3) {
        None => None,
        Some((max_content_uri_len, p4)) => Some((SocialPostsConfig { authority, posting_enabled, engagement_enabled, max_content_uri_len }, p4)),
    },
    },
    },
    }
}

pub fn write_social_posts_config(out: &mut Vec<u8>, v: &SocialPostsConfig)
    ensures
        final(out)@ == old(out)@ + enc_social_posts_config(*v),
{
    proof {
        reveal(enc_social_posts_config);
    }
    write_pubkey(out, &v.authority);
    let ghost o0 = out@;
    write_bool(out, *&v.posting_enabled);
    let ghost o1 = out@;
    write_bool(out, *&v.engagement_enabled);
    let ghost o2 = out@;
    write_u16(out, *&v.max_content_uri_len);
    let ghost o3 = out@;
    proof {
        lemma_assoc(o1, enc_bool((*v).engagement_enabled), enc_u16((*v).max_content_uri_len));
        lemma_assoc(o0, enc_bool((*v).posting_enabled), enc_bool((*v).engagement_enabled) + (enc_u16((*v).max_content_uri_len)));
        lemma_assoc(old(out)@, enc_pubkey((*v).authority), enc_bool((*v).posting_enabled) + (enc_bool((*v).engagement_enabled) + (enc_u16((*v).max_content_uri_len))));
    }
}

pub proof fn lemma_social_posts_config(v: SocialPostsConfig, rest: Seq<u8>)
    ensures
        dec_social_posts_config(enc_social_posts_config(v) + rest) == Some((v, rest)),
{
    reveal(enc_social_posts_config);
    reveal(dec_social_posts_config);
    lemma_assoc(enc_pubkey(v.authority), enc_bool(v.posting_enabled) + (enc_bool(v.engagement_enabled) + (enc_u16(v.max_content_uri_len))), rest);
    lemma_pubkey(v.authority, enc_bool(v.posting_enabled) + (enc_bool(v.engagement_enabled) + (enc_u16(v.max_content_uri_len))) + rest);
    lemma_assoc(enc_bool(v.posting_enabled), enc_bool(v.engagement_enabled) + (enc_u16(v.max_content_uri_len)), rest);
    lemma_bool(v.posting_enabled, enc_bool(v.engagement_enabled) + (enc_u16(v.max_content_uri_len)) + rest);
    lemma_assoc(enc_bool(v.engagement_enabled), enc_u16(v.max_content_uri_len), rest);
    lemma_bool(v.engagement_enabled, enc_u16(v.max_content_uri_len) + rest);
    lemma_u16(v.max_content_uri_len, rest);
}

/// On-chain anchor of a post.
#[derive(Clone, Debug, PartialEq, Eq)]
pub struct PostAnchor {
    pub post_id: [u8; 32],
    pub creator: Pubkey,
    pub content_hash: [u8; 32],
    pub metadata_hash: [u8; 32],
    pub content_uri: String,
    pub parent_post_id: Option<[u8; 32]>,
    pub post_kind: PostKind,
    pub created_at_unix: i64,
    pub edited_at_unix: Option<i64>,
    pub visibility: VisibilityClass,
    pub moderation_state: ModerationState,
    pub signature_ref: Option<[u8; 32]>,
}

/// Mathematical model of [`PostAnchor`].
#[verifier::ext_equal]
pub struct PostAnchorModel {
    pub post_id: [u8; 32],
    pub creator: Pubkey,
    pub content_hash: [u8; 32],
    pub metadata_hash: [u8; 32],
    pub content_uri: Seq<char>,
    pub parent_post_id: Option<[u8; 32]>,
    pub post_kind: PostKind,
    pub created_at_unix: i64,
    pub edited_at_unix: Option<i64>,
    pub visibility: VisibilityClass,
    pub moderation_state: ModerationState,
    pub signature_ref: Option<[u8; 32]>,
}

impl View for PostAnchor {
    type V = PostAnchorModel;

    open spec fn view(&self) -> PostAnchorModel {
        PostAnchorModel {
            post_id: self.post_id,
            creator: self.creator,
            content_hash: self.content_hash,
            metadata_hash: self.metadata_hash,
            content_uri: self.content_uri@,
            parent_post_id: self.parent_post_id,
            post_kind: self.post_kind,
            created_at_unix: self.created_at_unix,
            edited_at_unix: self.edited_at_unix,
            visibility: self.visibility,
            moderation_state: self.moderation_state,
            signature_ref: self.signature_ref,
        }
    }
}

#[verifier::opaque]
pub open spec fn enc_post_anchor(v: PostAnchorModel) -> Seq<u8> {
    enc_arr::<32>(v.post_id) + (enc_pubkey(v.creator) + (enc_arr::<32>(v.content_hash) + (enc_arr::<32>(v.metadata_hash) + (enc_string(v.content_uri) + (enc_opt_arr32(v.parent_post_id) + (enc_post_kind(v.post_kind) + (enc_i64(v.created_at_unix) + (enc_opt_i64(v.edited_at_unix) + (enc_visibility_class(v.visibility) + (enc_moderation_state(v.moderation_state) + (enc_opt_arr32(v.signature_ref))))))))))))
}

#[verifier::opaque]
pub open spec fn dec_post_anchor(s: Seq<u8>) -> Option<(PostAnchorModel, Seq<u8>)> {
    match dec_arr::<32>(s) {
            Some((post_id, r1)) => match dec_pubkey(r1) {
            Some((creator, r2)) => match dec_arr::<32>(r2) {
            Some((content_hash, r3)) => match dec_arr::<32>(r3) {
            Some((metadata_hash, r4)) => match dec_string(r4) {
            Some((content_uri, r5)) => match dec_opt_arr32(r5) {
            Some((parent_post_id, r6)) => match dec_post_kind(r6) {
            Some((post_kind, r7)) => match dec_i64(r7) {
            Some((created_at_unix, r8)) => match dec_opt_i64(r8) {
            Some((edited_at_unix, r9)) => match dec_visibility_class(r9) {
            Some((visibility, r10)) => match dec_moderation_state(r10) {
            Some((moderation_state, r11)) => match dec_opt_arr32(r11) {
            Some((signature_ref, r12)) => Some((PostAnchorModel { post_id, creator, content_hash, metadata_hash, content_uri, parent_post_id, post_kind, created_at_unix, edited_at_unix, visibility, moderation_state, signature_ref }, r12)),
            None => None,
        },
            None => None,
        },
            None => None,
        },
            None => None,
        },
            None => None,
        },
            None => None,
        },
            None => None,
        },
            None => None,
        },
            None => None,
        },
            None => None,
        },
            None => None,
        },
            None => None,
        }
}

pub open spec fn fits_post_anchor(v: PostAnchorModel) -> bool {
    fits_string(v.content_uri)
}

pub fn read_post_anchor(d: &[u8], pos: usize) -> (r: Option<(PostAnchor, usize)>)
    requires
        pos <= d@.len(),
    ensures
        match r {
            None => dec_post_anchor(d@.skip(pos as int)) is None,
            Some((v, p)) => p <= d@.len() && dec_post_anchor(d@.skip(pos as int)) == Some((v@, d@.skip(p as int))),
        },
{
    proof {
        reveal(dec_post_anchor);
    }
    match read_arr::<32>(d, pos) {
        None => None,
        Some((post_id, p1)) => match read_pubkey(d, p1) {
        None => None,
        Some((creator, p2)) => match read_arr::<32>(d, p2) {
        None => None,
        Some((content_hash, p3)) => match read_arr::<32>(d, p3) {
        None => None,
        Some((metadata_hash, p4)) => match read_string(d, p4) {
        None => None,
        Some((content_uri, p5)) => match read_opt_arr32(d, p5) {
        None => None,
        Some((parent_post_id, p6)) => match read_post_kind(d, p6) {
        None => None,
        Some((post_kind, p7)) => match read_i64(d, p7) {
        None => None,
        Some((created_at_unix, p8)) => match read_opt_i64(d, p8) {
        None => None,
        Some((edited_at_unix, p9)) => match read_visibility_class(d, p9) {
        None => None,
        Some((visibility, p10)) => match read_moderation_state(d, p10) {
        None => None,
        Some((moderation_state, p11)) => match read_opt_arr32(d, p11) {
        None => None,
        Some((signature_ref, p12)) => Some((PostAnchor { post_id, creator, content_hash, metadata_hash, content_uri, parent_post_id, post_kind, created_at_unix, edited_at_unix, visibility, moderation_state, signature_ref }, p12)),
    },
    },
    },
    },
    },
    },
    },
    },
    },
    },
    },
    }
}

pub fn write_post_anchor(out: &mut Vec<u8>, v: &PostAnchor) -> (ok: bool)
    ensures
        ok == fits_post_anchor(v@),
        ok ==> final(out)@ == old(out)@ + enc_post_anchor(v@),
{
    proof {
        reveal(enc_post_anchor);
    }
    write_arr::<32>(out, &v.post_id);
    let ghost o0 = out@;
    write_pubkey(out, &v.creator);
    let ghost o1 = out@;
    write_arr::<32>(out, &v.content_hash);
    let ghost o2 = out@;
    write_arr::<32>(out, &v.metadata_hash);
    let ghost o3 = out@;
    if !write_string(out, &v.content_uri) { return false; }
    let ghost o4 = out@;
    write_opt_arr32(out, &v.parent_post_id);
    let ghost o5 = out@;
    write_post_kind(out, &v.post_kind);
    let ghost o6 = out@;
    write_i64(out, *&v.created_at_unix);
    let ghost o7 = out@;
    write_opt_i64(out, &v.edited_at_unix);
    let ghost o8 = out@;
    write_visibility_class(out, &v.visibility);
    let ghost o9 = out@;
    write_moderation_state(out, &v.moderation_state);
    let ghost o10 = out@;
    write_opt_arr32(out, &v.signature_ref);
    let ghost o11 = out@;
    proof {
        lemma_assoc(o9, enc_moderation_state(v@.moderation_state), enc_opt_arr32(v@.signature_ref));
        lemma_assoc(o8, enc_visibility_class(v@.visibility), enc_moderation_state(v@.moderation_state) + (enc_opt_arr32(v@.signature_ref)));
        lemma_assoc(o7, enc_opt_i64(v@.edited_at_unix), enc_visibility_class(v@.visibility) + (enc_moderation_state(v@.moderation_state) + (enc_opt_arr32(v@.signature_ref))));
        lemma_assoc(o6, enc_i64(v@.created_at_unix), enc_opt_i64(v@.edited_at_unix) + (enc_visibility_class(v@.visibility) + (enc_moderation_state(v@.moderation_state) + (enc_opt_arr32(v@.signature_ref)))));
        lemma_assoc(o5, enc_post_kind(v@.post_kind), enc_i64(v@.created_at_unix) + (enc_opt_i64(v@.edited_at_unix) + (enc_visibility_class(v@.visibility) + (enc_moderation_state(v@.moderation_state) + (enc_opt_arr32(v@.signature_ref))))));
        lemma_assoc(o4, enc_opt_arr32(v@.parent_post_id), enc_post_kind(v@.post_kind) + (enc_i64(v@.created_at_unix) + (enc_opt_i64(v@.edited_at_unix) + (enc_visibility_class(v@.visibility) + (enc_moderation_state(v@.moderation_state) + (enc_opt_arr32(v@.signature_ref)))))));
        lemma_assoc(o3, enc_string(v@.content_uri), enc_opt_arr32(v@.parent_post_id) + (enc_post_kind(v@.post_kind) + (enc_i64(v@.created_at_unix) + (enc_opt_i64(v@.edited_at_unix) + (enc_visibility_class(v@.visibility) + (enc_moderation_state(v@.moderation_state) + (enc_opt_arr32(v@.signature_ref))))))));
        lemma_assoc(o2, enc_arr::<32>(v@.metadata_hash), enc_string(v@.content_uri) + (enc_opt_arr32(v@.parent_post_id) + (enc_post_kind(v@.post_kind) + (enc_i64(v@.created_at_unix) + (enc_opt_i64(v@.edited_at_unix) + (enc_visibility_class(v@.visibility) + (enc_moderation_state(v@.moderation_state) + (enc_opt_arr32(v@.signature_ref)))))))));
        lemma_assoc(o1, enc_arr::<32>(v@.content_hash), enc_arr::<32>(v@.metadata_hash) + (enc_string(v@.content_uri) + (enc_opt_arr32(v@.parent_post_id) + (enc_post_kind(v@.post_kind) + (enc_i64(v@.created_at_unix) + (enc_opt_i64(v@.edited_at_unix) + (enc_visibility_class(v@.visibility) + (enc_moderation_state(v@.moderation_state) + (enc_opt_arr32(v@.signature_ref))))))))));
        lemma_assoc(o0, enc_pubkey(v@.creator), enc_arr::<32>(v@.content_hash) + (enc_arr::<32>(v@.metadata_hash) + (enc_string(v@.content_uri) + (enc_opt_arr32(v@.parent_post_id) + (enc_post_kind(v@.post_kind) + (enc_i64(v@.created_at_unix) + (enc_opt_i64(v@.edited_at_unix) + (enc_visibility_class(v@.visibility) + (enc_moderation_state(v@.moderation_state) + (enc_opt_arr32(v@.signature_ref)))))))))));
        lemma_assoc(old(out)@, enc_arr::<32>(v@.post_id), enc_pubkey(v@.creator) + (enc_arr::<32>(v@.content_hash) + (enc_arr::<32>(v@.metadata_hash) + (enc_string(v@.content_uri) + (enc_opt_arr32(v@.parent_post_id) + (enc_post_kind(v@.post_kind) + (enc_i64(v@.created_at_unix) + (enc_opt_i64(v@.edited_at_unix) + (enc_visibility_class(v@.visibility) + (enc_moderation_state(v@.moderation_state) + (enc_opt_arr32(v@.signature_ref))))))))))));
    }
    true
}

pub proof fn lemma_post_anchor(v: PostAnchorModel, rest: Seq<u8>)
    requires
        fits_post_anchor(v),
    ensures
        dec_post_anchor(enc_post_anchor(v) + rest) == Some((v, rest)),
{
    reveal(enc_post_anchor);
    reveal(dec_post_anchor);
    lemma_assoc(enc_arr::<32>(v.post_id), enc_pubkey(v.creator) + (enc_arr::<32>(v.content_hash) + (enc_arr::<32>(v.metadata_hash) + (enc_string(v.content_uri) + (enc_opt_arr32(v.parent_post_id) + (enc_post_kind(v.post_kind) + (enc_i64(v.created_at_unix) + (enc_opt_i64(v.edited_at_unix) + (enc_visibility_class(v.visibility) + (enc_moderation_state(v.moderation_state) + (enc_opt_arr32(v.signature_ref))))))))))), rest);
    lemma_arr::<32>(v.post_id, enc_pubkey(v.creator) + (enc_arr::<32>(v.content_hash) + (enc_arr::<32>(v.metadata_hash) + (enc_string(v.content_uri) + (enc_opt_arr32(v.parent_post_id) + (enc_post_kind(v.post_kind) + (enc_i64(v.created_at_unix) + (enc_opt_i64(v.edited_at_unix) + (enc_visibility_class(v.visibility) + (enc_moderation_state(v.moderation_state) + (enc_opt_arr32(v.signature_ref))))))))))) + rest);
    lemma_assoc(enc_pubkey(v.creator), enc_arr::<32>(v.content_hash) + (enc_arr::<32>(v.metadata_hash) + (enc_string(v.content_uri) + (enc_opt_arr32(v.parent_post_id) + (enc_post_kind(v.post_kind) + (enc_i64(v.created_at_unix) + (enc_opt_i64(v.edited_at_unix) + (enc_visibility_class(v.visibility) + (enc_moderation_state(v.moderation_state) + (enc_opt_arr32(v.signature_ref)))))))))), rest);
    lemma_pubkey(v.creator, enc_arr::<32>(v.content_hash) + (enc_arr::<32>(v.metadata_hash) + (enc_string(v.content_uri) + (enc_opt_arr32(v.parent_post_id) + (enc_post_kind(v.post_kind) + (enc_i64(v.created_at_unix) + (enc_opt_i64(v.edited_at_unix) + (enc_visibility_class(v.visibility) + (enc_moderation_state(v.moderation_state) + (enc_opt_arr32(v.signature_ref)))))))))) + rest);
    lemma_assoc(enc_arr::<32>(v.content_hash), enc_arr::<32>(v.metadata_hash) + (enc_string(v.content_uri) + (enc_opt_arr32(v.parent_post_id) + (enc_post_kind(v.post_kind) + (enc_i64(v.created_at_unix) + (enc_opt_i64(v.edited_at_unix) + (enc_visibility_class(v.visibility) + (enc_moderation_state(v.moderation_state) + (enc_opt_arr32(v.signature_ref))))))))), rest);
    lemma_arr::<32>(v.content_hash, enc_arr::<32>(v.metadata_hash) + (enc_string(v.content_uri) + (enc_opt_arr32(v.parent_post_id) + (enc_post_kind(v.post_kind) + (enc_i64(v.created_at_unix) + (enc_opt_i64(v.edited_at_unix) + (enc_visibility_class(v.visibility) + (enc_moderation_state(v.moderation_state) + (enc_opt_arr32(v.signature_ref))))))))) + rest);
    lemma_assoc(enc_arr::<32>(v.metadata_hash), enc_string(v.content_uri) + (enc_opt_arr32(v.parent_post_id) + (enc_post_kind(v.post_kind) + (enc_i64(v.created_at_unix) + (enc_opt_i64(v.edited_at_unix) + (enc_visibility_class(v.visibility) + (enc_moderation_state(v.moderation_state) + (enc_opt_arr32(v.signature_ref)))))))), rest);
    lemma_arr::<32>(v.metadata_hash, enc_string(v.content_uri) + (enc_opt_arr32(v.parent_post_id) + (enc_post_kind(v.post_kind) + (enc_i64(v.created_at_unix) + (enc_opt_i64(v.edited_at_unix) + (enc_visibility_class(v.visibility) + (enc_moderation_state(v.moderation_state) + (enc_opt_arr32(v.signature_ref)))))))) + rest);
    lemma_assoc(enc_string(v.content_uri), enc_opt_arr32(v.parent_post_id) + (enc_post_kind(v.post_kind) + (enc_i64(v.created_at_unix) + (enc_opt_i64(v.edited_at_unix) + (enc_visibility_class(v.visibility) + (enc_moderation_state(v.moderation_state) + (enc_opt_arr32(v.signature_ref))))))), rest);
    lemma_string(v.content_uri, enc_opt_arr32(v.parent_post_id) + (enc_post_kind(v.post_kind) + (enc_i64(v.created_at_unix) + (enc_opt_i64(v.edited_at_unix) + (enc_visibility_class(v.visibility) + (enc_moderation_state(v.moderation_state) + (enc_opt_arr32(v.signature_ref))))))) + rest);
    lemma_assoc(enc_opt_arr32(v.parent_post_id), enc_post_kind(v.post_kind) + (enc_i64(v.created_at_unix) + (enc_opt_i64(v.edited_at_unix) + (enc_visibility_class(v.visibility) + (enc_moderation_state(v.moderation_state) + (enc_opt_arr32(v.signature_ref)))))), rest);
    lemma_opt_arr32(v.parent_post_id, enc_post_kind(v.post_kind) + (enc_i64(v.created_at_unix) + (enc_opt_i64(v.edited_at_unix) + (enc_visibility_class(v.visibility) + (enc_moderation_state(v.moderation_state) + (enc_opt_arr32(v.signature_ref)))))) + rest);
    lemma_assoc(enc_post_kind(v.post_kind), enc_i64(v.created_at_unix) + (enc_opt_i64(v.edited_at_unix) + (enc_visibility_class(v.visibility) + (enc_moderation_state(v.moderation_state) + (enc_opt_arr32(v.signature_ref))))), rest);
    lemma_post_kind(v.post_kind, enc_i64(v.created_at_unix) + (enc_opt_i64(v.edited_at_unix) + (enc_visibility_class(v.visibility) + (enc_moderation_state(v.moderation_state) + (enc_opt_arr32(v.signature_ref))))) + rest);
    lemma_assoc(enc_i64(v.created_at_unix), enc_opt_i64(v.edited_at_unix) + (enc_visibility_class(v.visibility) + (enc_moderation_state(v.moderation_state) + (enc_opt_arr32(v.signature_ref)))), rest);
    lemma_i64(v.created_at_unix, enc_opt_i64(v.edited_at_unix) + (enc_visibility_class(v.visibility) + (enc_moderation_state(v.moderation_state) + (enc_opt_arr32(v.signature_ref)))) + rest);
    lemma_assoc(enc_opt_i64(v.edited_at_unix), enc_visibility_class(v.visibility) + (enc_moderation_state(v.moderation_state) + (enc_opt_arr32(v.signature_ref))), rest);
    lemma_opt_i64(v.edited_at_unix, enc_visibility_class(v.visibility) + (enc_moderation_state(v.moderation_state) + (enc_opt_arr32(v.signature_ref))) + rest);
    lemma_assoc(enc_visibility_class(v.visibility), enc_moderation_state(v.moderation_state) + (enc_opt_arr32(v.signature_ref)), rest);
    lemma_visibility_class(v.visibility, enc_moderation_state(v.moderation_state) + (enc_opt_arr32(v.signature_ref)) + rest);
    lemma_assoc(enc_moderation_state(v.moderation_state), enc_opt_arr32(v.signature_ref), rest);
    lemma_moderation_state(v.moderation_state, enc_opt_arr32(v.signature_ref) + rest);
    lemma_opt_arr32(v.signature_ref, rest);
}

/// Decodes a [`PostAnchor`] that must take up all of `d`.
pub fn post_anchor_from_slice(d: &[u8]) -> (r: Option<PostAnchor>)
    ensures
        r is Some <==> (dec_post_anchor(d@) matches Some((_, rest)) && rest.len() == 0),
        r matches Some(v) ==> dec_post_anchor(d@) == Some((v@, Seq::<u8>::empty())),
{
    assert(d@.skip(0) =~= d@);
    match read_post_anchor(d, 0) {
        None => None,
        Some((v, p)) => {
            if p == d.len() {
                assert(d@.skip(p as int) =~= Seq::<u8>::empty());
                Some(v)
            } else {
                None
            }
        },
    }
}

/// Decodes a [`PostAnchor`] from the front of `d`, ignoring what follows it.
pub fn post_anchor_from_prefix(d: &[u8]) -> (r: Option<PostAnchor>)
    ensures
        r is Some <==> dec_post_anchor(d@) is Some,
        r matches Some(v) ==> dec_post_anchor(d@) matches Some((m, _)) && m == v@,
{
    assert(d@.skip(0) =~= d@);
    match read_post_anchor(d, 0) {
        None => None,
        Some((v, _)) => Some(v),
    }
}

/// Serialises a [`PostAnchor`]; `None` when a length does not fit the `u32` prefix.
pub fn post_anchor_to_vec(v: &PostAnchor) -> (r: Option<Vec<u8>>)
    ensures
        r is Some <==> fits_post_anchor(v@),
        r matches Some(b) ==> b@ == enc_post_anchor(v@),
{
    let mut out: Vec<u8> = Vec::new();
    if write_post_anchor(&mut out, v) {
        assert(out@ =~= enc_post_anchor(v@));
        Some(out)
    } else {
        None
    }
}


pub open spec fn enc_items_post_anchor(xs: Seq<PostAnchorModel>) -> Seq<u8>
    decreases xs.len(),
{
    if xs.len() == 0 {
        Seq::empty()
    } else {
        enc_items_post_anchor(xs.drop_last()) + enc_post_anchor(xs.last())
    }
}

pub open spec fn dec_items_post_anchor(s: Seq<u8>, n: nat) -> Option<(Seq<PostAnchorModel>, Seq<u8>)>
    decreases n,
{
    if n == 0 {
        Some((Seq::empty(), s))
    } else {
        match dec_items_post_anchor(s, (n - 1) as nat) {
            Some((xs, r)) => match dec_post_anchor(r) {
                Some((x, r2)) => Some((xs.push(x), r2)),
                None => None,
            },
            None => None,
        }
    }
}

pub open spec fn enc_vec_post_anchor(xs: Seq<PostAnchorModel>) -> Seq<u8> {
    enc_u32(xs.len() as u32) + enc_items_post_anchor(xs)
}

pub open spec fn dec_vec_post_anchor(s: Seq<u8>) -> Option<(Seq<PostAnchorModel>, Seq<u8>)> {
    match dec_u32(s) {
        Some((n, r)) => dec_items_post_anchor(r, n as nat),
        None => None,
    }
}


pub open spec fn fits_vec_post_anchor(xs: Seq<PostAnchorModel>) -> bool {
    fits_u32(xs.len()) && forall|i: int| 0 <= i < xs.len() ==> #[trigger] fits_post_anchor(xs[i])
}


pub open spec fn model_vec_post_anchor(v: Seq<PostAnchor>) -> Seq<PostAnchorModel> {
    v.map_values(|x: PostAnchor| x@)
}

pub proof fn lemma_items_none_post_anchor(s: Seq<u8>, k: nat, n: nat)
    requires
        k <= n,
        dec_items_post_anchor(s, k) is None,
    ensures
        dec_items_post_anchor(s, n) is None,
    decreases n - k,
{
    if k < n {
        lemma_items_none_post_anchor(s, k, (n - 1) as nat);
    }
}

pub fn read_vec_post_anchor(d: &[u8], pos: usize) -> (r: Option<(Vec<PostAnchor>, usize)>)
    requires
        pos <= d@.len(),
    ensures
        match r {
            None => dec_vec_post_anchor(d@.skip(pos as int)) is None,
            Some((v, p)) => p <= d@.len() && dec_vec_post_anchor(d@.skip(pos as int)) == Some((model_vec_post_anchor(v@), d@.skip(p as int))),
        },
{
    match read_u32(d, pos) {
        None => None,
        Some((n, p0)) => {
            let mut v: Vec<PostAnchor> = Vec::new();
            let mut p = p0;
            let mut i: u32 = 0;
            while i < n
                invariant
                    p <= d@.len(),
                    pos <= d@.len(),
                    dec_u32(d@.skip(pos as int)) == Some((n, d@.skip(p0 as int))),
                    i <= n,
                    v@.len() == i,
                    dec_items_post_anchor(d@.skip(p0 as int), i as nat) == Some((model_vec_post_anchor(v@), d@.skip(p as int))),
                decreases n - i,
            {
                match read_post_anchor(d, p) {
                    None => {
                        proof {
                            assert(dec_post_anchor(d@.skip(p as int)) is None);
                            assert(dec_items_post_anchor(d@.skip(p0 as int), (i + 1) as nat) is None);
                            lemma_items_none_post_anchor(d@.skip(p0 as int), (i + 1) as nat, n as nat);
                        }
                        return None;
                    },
                    Some((x, p2)) => {
                        let ghost old_v = v@;
                        v.push(x);
                        proof {
                            assert(model_vec_post_anchor(v@) =~= model_vec_post_anchor(old_v).push(x@));
                        }
                        p = p2;
                        i = i + 1;
                    },
                }
            }
            Some((v, p))
        },
    }
}


pub fn write_vec_post_anchor(out: &mut Vec<u8>, v: &Vec<PostAnchor>) -> (ok: bool)
    ensures
        ok == fits_vec_post_anchor(model_vec_post_anchor(v@)),
        ok ==> final(out)@ == old(out)@ + enc_vec_post_anchor(model_vec_post_anchor(v@)),
{
    if v.len() > u32::MAX as usize {
        return false;
    }
    write_u32(out, v.len() as u32);
    let ghost base = out@;
    let mut i: usize = 0;
    while i < v.len()
        invariant
            i <= v@.len(),
            v@.len() <= u32::MAX,
            out@ == base + enc_items_post_anchor(model_vec_post_anchor(v@).take(i as int)),
            forall|j: int| 0 <= j < i ==> #[trigger] fits_post_anchor(model_vec_post_anchor(v@)[j]),
        decreases v@.len() - i,
    {
        if !write_post_anchor(out, &v[i]) { proof { assert(model_vec_post_anchor(v@)[i as int] == v@[i as int]@); } return false; }
        proof {
            assert(model_vec_post_anchor(v@).take(i + 1).drop_last() =~= model_vec_post_anchor(v@).take(i as int));
            assert(model_vec_post_anchor(v@).take(i + 1).last() == model_vec_post_anchor(v@)[i as int]);
        }
        i = i + 1;
    }
    proof {
        assert(model_vec_post_anchor(v@).take(v@.len() as int) =~= model_vec_post_anchor(v@));
    }
    true
}


pub proof fn lemma_items_post_anchor(xs: Seq<PostAnchorModel>, rest: Seq<u8>)
    requires
        forall|i: int| 0 <= i < xs.len() ==> #[trigger] fits_post_anchor(xs[i]),
        true,
    ensures
        dec_items_post_anchor(enc_items_post_anchor(xs) + rest, xs.len()) == Some((xs, rest)),
    decreases xs.len(),
{
    if xs.len() == 0 {
        assert(enc_items_post_anchor(xs) + rest =~= rest);
        assert(xs =~= Seq::<PostAnchorModel>::empty());
    } else {
        let init = xs.drop_last();
        let last = xs.last();
        assert forall|i: int| 0 <= i < init.len() implies init[i] == xs[i] by {}
        lemma_items_post_anchor(init, enc_post_anchor(last) + rest);
        assert(enc_items_post_anchor(xs) + rest =~= enc_items_post_anchor(init) + (enc_post_anchor(last) + rest));
        lemma_post_anchor(last, rest);
        assert(init.push(last) =~= xs);
    }
}

pub proof fn lemma_vec_post_anchor(xs: Seq<PostAnchorModel>, rest: Seq<u8>)
    requires
        fits_vec_post_anchor(xs),
    ensures
        dec_vec_post_anchor(enc_vec_post_anchor(xs) + rest) == Some((xs, rest)),
{
    assert(enc_vec_post_anchor(xs) + rest =~= enc_u32(xs.len() as u32) + (enc_items_post_anchor(xs) + rest));
    lemma_u32(xs.len() as u32, enc_items_post_anchor(xs) + rest);
    lemma_items_post_anchor(xs, rest);
}

/// Proof of one engagement action.
#[derive(Clone, Copy, Debug, PartialEq, Eq)]
pub struct EngagementProof {
    pub proof_id: [u8; 32],
    pub actor: Pubkey,
    pub target_post_id: Option<[u8; 32]>,
    pub target_creator: Pubkey,
    pub action_kind: EngagementActionKind,
    pub action_weight: u32,
    pub slot: u64,
    pub unix_timestamp: i64,
    pub replay_guard: [u8; 32],
}

#[verifier::opaque]
pub open spec fn enc_engagement_proof(v: EngagementProof) -> Seq<u8> {
    enc_arr::<32>(v.proof_id) + (enc_pubkey(v.actor) + (enc_opt_arr32(v.target_post_id) + (enc_pubkey(v.target_creator) + (enc_engagement_action_kind(v.action_kind) + (enc_u32(v.action_weight) + (enc_u64(v.slot) + (enc_i64(v.unix_timestamp) + (enc_arr::<32>(v.replay_guard)))))))))
}

#[verifier::opaque]
pub open spec fn dec_engagement_proof(s: Seq<u8>) -> Option<(EngagementProof, Seq<u8>)> {
    match dec_arr::<32>(s) {
            Some((proof_id, r1)) => match dec_pubkey(r1) {
            Some((actor, r2)) => match dec_opt_arr32(r2) {
            Some((target_post_id, r3)) => match dec_pubkey(r3) {
            Some((target_creator, r4)) => match dec_engagement_action_kind(r4) {
            Some((action_kind, r5)) => match dec_u32(r5) {
            Some((action_weight, r6)) => match dec_u64(r6) {
            Some((slot, r7)) => match dec_i64(r7) {
            Some((unix_timestamp, r8)) => match dec_arr::<32>(r8) {
            Some((replay_guard, r9)) => Some((EngagementProof { proof_id, actor, target_post_id, target_creator, action_kind, action_weight, slot, unix_timestamp, replay_guard }, r9)),
            None => None,
        },
            None => None,
        },
            None => None,
        },
            None => None,
        },
            None => None,
        },
            None => None,
        },
            None => None,
        },
            None => None,
        },
            None => None,
        }
}

pub fn read_engagement_proof(d: &[u8], pos: usize) -> (r: Option<(EngagementProof, usize)>)
    requires
        pos <= d@.len(),
    ensures
        read_ok(dec_engagement_proof(d@.skip(pos as int)), r, d@),
{
    proof {
        reveal(dec_engagement_proof);
    }
    match read_arr::<32>(d, pos) {
        None => None,
        Some((proof_id, p1)) => match read_pubkey(d, p1) {
        None => None,
        Some((actor, p2)) => match read_opt_arr32(d, p2) {
        None => None,
        Some((target_post_id, p3)) => match read_pubkey(d, p3) {
        None => None,
        Some((target_creator, p4)) => match read_engagement_action_kind(d, p4) {
        None => None,
        Some((action_kind, p5)) => match read_u32(d, p5) {
        None => None,
        Some((action_weight, p6)) => match read_u64(d, p6) {
        None => None,
        Some((slot, p7)) => match read_i64(d, p7) {
        None => None,
        Some((unix_timestamp, p8)) => match read_arr::<32>(d, p8) {
        None => None,
        Some((replay_guard, p9)) => Some((EngagementProof { proof_id, actor, target_post_id, target_creator, action_kind, action_weight, slot, unix_timestamp, replay_guard }, p9)),
    },
    },
    },
    },
    },
    },
    },
    },
    }
}

pub fn write_engagement_proof(out: &mut Vec<u8>, v: &EngagementProof)
    ensures
        final(out)@ == old(out)@ + enc_engagement_proof(*v),
{
    proof {
        reveal(enc_engagement_proof);
    }
    write_arr::<32>(out, &v.proof_id);
    let ghost o0 = out@;
    write_pubkey(out, &v.actor);
    let ghost o1 = out@;
    write_opt_arr32(out, &v.target_post_id);
    let ghost o2 = out@;
    write_pubkey(out, &v.target_creator);
    let ghost o3 = out@;
    write_engagement_action_kind(out, &v.action_kind);
    let ghost o4 = out@;
    write_u32(out, *&v.action_weight);
    let ghost o5 = out@;
    write_u64(out, *&v.slot);
    let ghost o6 = out@;
    write_i64(out, *&v.unix_timestamp);
    let ghost o7 = out@;
    write_arr::<32>(out, &v.replay_guard);
    let ghost o8 = out@;
    proof {
        lemma_assoc(o6, enc_i64((*v).unix_timestamp), enc_arr::<32>((*v).replay_guard));
        lemma_assoc(o5, enc_u64((*v).slot), enc_i64((*v).unix_timestamp) + (enc_arr::<32>((*v).replay_guard)));
        lemma_assoc(o4, enc_u32((*v).action_weight), enc_u64((*v).slot) + (enc_i64((*v).unix_timestamp) + (enc_arr::<32>((*v).replay_guard))));
        lemma_assoc(o3, enc_engagement_action_kind((*v).action_kind), enc_u32((*v).action_weight) + (enc_u64((*v).slot) + (enc_i64((*v).unix_timestamp) + (enc_arr::<32>((*v).replay_guard)))));
        lemma_assoc(o2, enc_pubkey((*v).target_creator), enc_engagement_action_kind((*v).action_kind) + (enc_u32((*v).action_weight) + (enc_u64((*v).slot) + (enc_i64((*v).unix_timestamp) + (enc_arr::<32>((*v).replay_guard))))));
        lemma_assoc(o1, enc_opt_arr32((*v).target_post_id), enc_pubkey((*v).target_creator) + (enc_engagement_action_kind((*v).action_kind) + (enc_u32((*v).action_weight) + (enc_u64((*v).slot) + (enc_i64((*v).unix_timestamp) + (enc_arr::<32>((*v).replay_guard)))))));
        lemma_assoc(o0, enc_pubkey((*v).actor), enc_opt_arr32((*v).target_post_id) + (enc_pubkey((*v).target_creator) + (enc_engagement_action_kind((*v).action_kind) + (enc_u32((*v).action_weight) + (enc_u64((*v).slot) + (enc_i64((*v).unix_timestamp) + (enc_arr::<32>((*v).replay_guard))))))));
        lemma_assoc(old(out)@, enc_arr::<32>((*v).proof_id), enc_pubkey((*v).actor) + (enc_opt_arr32((*v).target_post_id) + (enc_pubkey((*v).target_creator) + (enc_engagement_action_kind((*v).action_kind) + (enc_u32((*v).action_weight) + (enc_u64((*v).slot) + (enc_i64((*v).unix_timestamp) + (enc_arr::<32>((*v).replay_guard)))))))));
    }
}

pub proof fn lemma_engagement_proof(v: EngagementProof, rest: Seq<u8>)
    ensures
        dec_engagement_proof(enc_engagement_proof(v) + rest) == Some((v, rest)),
{
    reveal(enc_engagement_proof);
    reveal(dec_engagement_proof);
    lemma_assoc(enc_arr::<32>(v.proof_id), enc_pubkey(v.actor) + (enc_opt_arr32(v.target_post_id) + (enc_pubkey(v.target_creator) + (enc_engagement_action_kind(v.action_kind) + (enc_u32(v.action_weight) + (enc_u64(v.slot) + (enc_i64(v.unix_timestamp) + (enc_arr::<32>(v.replay_guard)))))))), rest);
    lemma_arr::<32>(v.proof_id, enc_pubkey(v.actor) + (enc_opt_arr32(v.target_post_id) + (enc_pubkey(v.target_creator) + (enc_engagement_action_kind(v.action_kind) + (enc_u32(v.action_weight) + (enc_u64(v.slot) + (enc_i64(v.unix_timestamp) + (enc_arr::<32>(v.replay_guard)))))))) + rest);
    lemma_assoc(enc_pubkey(v.actor), enc_opt_arr32(v.target_post_id) + (enc_pubkey(v.target_creator) + (enc_engagement_action_kind(v.action_kind) + (enc_u32(v.action_weight) + (enc_u64(v.slot) + (enc_i64(v.unix_timestamp) + (enc_arr::<32>(v.replay_guard))))))), rest);
    lemma_pubkey(v.actor, enc_opt_arr32(v.target_post_id) + (enc_pubkey(v.target_creator) + (enc_engagement_action_kind(v.action_kind) + (enc_u32(v.action_weight) + (enc_u64(v.slot) + (enc_i64(v.unix_timestamp) + (enc_arr::<32>(v.replay_guard))))))) + rest);
    lemma_assoc(enc_opt_arr32(v.target_post_id), enc_pubkey(v.target_creator) + (enc_engagement_action_kind(v.action_kind) + (enc_u32(v.action_weight) + (enc_u64(v.slot) + (enc_i64(v.unix_timestamp) + (enc_arr::<32>(v.replay_guard)))))), rest);
    lemma_opt_arr32(v.target_post_id, enc_pubkey(v.target_creator) + (enc_engagement_action_kind(v.action_kind) + (enc_u32(v.action_weight) + (enc_u64(v.slot) + (enc_i64(v.unix_timestamp) + (enc_arr::<32>(v.replay_guard)))))) + rest);
    lemma_assoc(enc_pubkey(v.target_creator), enc_engagement_action_kind(v.action_kind) + (enc_u32(v.action_weight) + (enc_u64(v.slot) + (enc_i64(v.unix_timestamp) + (enc_arr::<32>(v.replay_guard))))), rest);
    lemma_pubkey(v.target_creator, enc_engagement_action_kind(v.action_kind) + (enc_u32(v.action_weight) + (enc_u64(v.slot) + (enc_i64(v.unix_timestamp) + (enc_arr::<32>(v.replay_guard))))) + rest);
    lemma_assoc(enc_engagement_action_kind(v.action_kind), enc_u32(v.action_weight) + (enc_u64(v.slot) + (enc_i64(v.unix_timestamp) + (enc_arr::<32>(v.replay_guard)))), rest);
    lemma_engagement_action_kind(v.action_kind, enc_u32(v.action_weight) + (enc_u64(v.slot) + (enc_i64(v.unix_timestamp) + (enc_arr::<32>(v.replay_guard)))) + rest);
    lemma_assoc(enc_u32(v.action_weight), enc_u64(v.slot) + (enc_i64(v.unix_timestamp) + (enc_arr::<32>(v.replay_guard))), rest);
    lemma_u32(v.action_weight, enc_u64(v.slot) + (enc_i64(v.unix_timestamp) + (enc_arr::<32>(v.replay_guard))) + rest);
    lemma_assoc(enc_u64(v.slot), enc_i64(v.unix_timestamp) + (enc_arr::<32>(v.replay_guard)), rest);
    lemma_u64(v.slot, enc_i64(v.unix_timestamp) + (enc_arr::<32>(v.replay_guard)) + rest);
    lemma_assoc(enc_i64(v.unix_timestamp), enc_arr::<32>(v.replay_guard), rest);
    lemma_i64(v.unix_timestamp, enc_arr::<32>(v.replay_guard) + rest);
    lemma_arr::<32>(v.replay_guard, rest);
}

/// Decodes a [`EngagementProof`] that must take up all of `d`.
pub fn engagement_proof_from_slice(d: &[u8]) -> (r: Option<EngagementProof>)
    ensures
        r is Some <==> (dec_engagement_proof(d@) matches Some((_, rest)) && rest.len() == 0),
        r matches Some(v) ==> dec_engagement_proof(d@) == Some((v, Seq::<u8>::empty())),
{
    assert(d@.skip(0) =~= d@);
    match read_engagement_proof(d, 0) {
        None => None,
        Some((v, p)) => {
            if p == d.len() {
                assert(d@.skip(p as int) =~= Seq::<u8>::empty());
                Some(v)
            } else {
                None
            }
        },
    }
}

/// Decodes a [`EngagementProof`] from the front of `d`, ignoring what follows it.
pub fn engagement_proof_from_prefix(d: &[u8]) -> (r: Option<EngagementProof>)
    ensures
        r is Some <==> dec_engagement_proof(d@) is Some,
        r matches Some(v) ==> dec_engagement_proof(d@) matches Some((m, _)) && m == v,
{
    assert(d@.skip(0) =~= d@);
    match read_engagement_proof(d, 0) {
        None => None,
        Some((v, _)) => Some(v),
    }
}

/// Serialises a [`EngagementProof`].
pub fn engagement_proof_to_vec(v: &EngagementProof) -> (r: Vec<u8>)
    ensures
        r@ == enc_engagement_proof(*v),
{
    let mut out: Vec<u8> = Vec::new();
    write_engagement_proof(&mut out, v);
    assert(out@ =~= enc_engagement_proof(*v));
    out
}


pub open spec fn enc_items_engagement_proof(xs: Seq<EngagementProof>) -> Seq<u8>
    decreases xs.len(),
{
    if xs.len() == 0 {
        Seq::empty()
    } else {
        enc_items_engagement_proof(xs.drop_last()) + enc_engagement_proof(xs.last())
    }
}

pub open spec fn dec_items_engagement_proof(s: Seq<u8>, n: nat) -> Option<(Seq<EngagementProof>, Seq<u8>)>
    decreases n,
{
    if n == 0 {
        Some((Seq::empty(), s))
    } else {
        match dec_items_engagement_proof(s, (n - 1) as nat) {
            Some((xs, r)) => match dec_engagement_proof(r) {
                Some((x, r2)) => Some((xs.push(x), r2)),
                None => None,
            },
            None => None,
        }
    }
}

pub open spec fn enc_vec_engagement_proof(xs: Seq<EngagementProof>) -> Seq<u8> {
    enc_u32(xs.len() as u32) + enc_items_engagement_proof(xs)
}

pub open spec fn dec_vec_engagement_proof(s: Seq<u8>) -> Option<(Seq<EngagementProof>, Seq<u8>)> {
    match dec_u32(s) {
        Some((n, r)) => dec_items_engagement_proof(r, n as nat),
        None => None,
    }
}


pub open spec fn fits_vec_engagement_proof(xs: Seq<EngagementProof>) -> bool {
    fits_u32(xs.len())
}


pub open spec fn model_vec_engagement_proof(v: Seq<EngagementProof>) -> Seq<EngagementProof> {
    v
}

pub proof fn lemma_items_none_engagement_proof(s: Seq<u8>, k: nat, n: nat)
    requires
        k <= n,
        dec_items_engagement_proof(s, k) is None,
    ensures
        dec_items_engagement_proof(s, n) is None,
    decreases n - k,
{
    if k < n {
        lemma_items_none_engagement_proof(s, k, (n - 1) as nat);
    }
}

pub fn read_vec_engagement_proof(d: &[u8], pos: usize) -> (r: Option<(Vec<EngagementProof>, usize)>)
    requires
        pos <= d@.len(),
    ensures
        match r {
            None => dec_vec_engagement_proof(d@.skip(pos as int)) is None,
            Some((v, p)) => p <= d@.len() && dec_vec_engagement_proof(d@.skip(pos as int)) == Some((model_vec_engagement_proof(v@), d@.skip(p as int))),
        },
{
    match read_u32(d, pos) {
        None => None,
        Some((n, p0)) => {
            let mut v: Vec<EngagementProof> = Vec::new();
            let mut p = p0;
            let mut i: u32 = 0;
            while i < n
                invariant
                    p <= d@.len(),
                    pos <= d@.len(),
                    dec_u32(d@.skip(pos as int)) == Some((n, d@.skip(p0 as int))),
                    i <= n,
                    v@.len() == i,
                    dec_items_engagement_proof(d@.skip(p0 as int), i as nat) == Some((model_vec_engagement_proof(v@), d@.skip(p as int))),
                decreases n - i,
            {
                match read_engagement_proof(d, p) {
                    None => {
                        proof {
                            assert(dec_engagement_proof(d@.skip(p as int)) is None);
                            assert(dec_items_engagement_proof(d@.skip(p0 as int), (i + 1) as nat) is None);
                            lemma_items_none_engagement_proof(d@.skip(p0 as int), (i + 1) as nat, n as nat);
                        }
                        return None;
                    },
                    Some((x, p2)) => {
                        let ghost old_v = v@;
                        v.push(x);
                        proof {
                            assert(model_vec_engagement_proof(v@) =~= model_vec_engagement_proof(old_v).push(x));
                        }
                        p = p2;
                        i = i + 1;
                    },
                }
            }
            Some((v, p))
        },
    }
}


pub fn write_vec_engagement_proof(out: &mut Vec<u8>, v: &Vec<EngagementProof>) -> (ok: bool)
    ensures
        ok == fits_vec_engagement_proof(model_vec_engagement_proof(v@)),
        ok ==> final(out)@ == old(out)@ + enc_vec_engagement_proof(model_vec_engagement_proof(v@)),
{
    if v.len() > u32::MAX as usize {
        return false;
    }
    write_u32(out, v.len() as u32);
    let ghost base = out@;
    let mut i: usize = 0;
    while i < v.len()
        invariant
            i <= v@.len(),
            v@.len() <= u32::MAX,
            out@ == base + enc_items_engagement_proof(model_vec_engagement_proof(v@).take(i as int)),
        decreases v@.len() - i,
    {
        write_engagement_proof(out, &v[i]);
        proof {
            assert(model_vec_engagement_proof(v@).take(i + 1).drop_last() =~= model_vec_engagement_proof(v@).take(i as int));
            assert(model_vec_engagement_proof(v@).take(i + 1).last() == model_vec_engagement_proof(v@)[i as int]);
        }
        i = i + 1;
    }
    proof {
        assert(model_vec_engagement_proof(v@).take(v@.len() as int) =~= model_vec_engagement_proof(v@));
    }
    true
}


pub proof fn lemma_items_engagement_proof(xs: Seq<EngagementProof>, rest: Seq<u8>)
    requires
        true,
    ensures
        dec_items_engagement_proof(enc_items_engagement_proof(xs) + rest, xs.len()) == Some((xs, rest)),
    decreases xs.len(),
{
    if xs.len() == 0 {
        assert(enc_items_engagement_proof(xs) + rest =~= rest);
        assert(xs =~= Seq::<EngagementProof>::empty());
    } else {
        let init = xs.drop_last();
        let last = xs.last();
        assert forall|i: int| 0 <= i < init.len() implies init[i] == xs[i] by {}
        lemma_items_engagement_proof(init, enc_engagement_proof(last) + rest);
        assert(enc_items_engagement_proof(xs) + rest =~= enc_items_engagement_proof(init) + (enc_engagement_proof(last) + rest));
        lemma_engagement_proof(last, rest);
        assert(init.push(last) =~= xs);
    }
}

pub proof fn lemma_vec_engagement_proof(xs: Seq<EngagementProof>, rest: Seq<u8>)
    requires
        fits_vec_engagement_proof(xs),
    ensures
        dec_vec_engagement_proof(enc_vec_engagement_proof(xs) + rest) == Some((xs, rest)),
{
    assert(enc_vec_engagement_proof(xs) + rest =~= enc_u32(xs.len() as u32) + (enc_items_engagement_proof(xs) + rest));
    lemma_u32(xs.len() as u32, enc_items_engagement_proof(xs) + rest);
    lemma_items_engagement_proof(xs, rest);
}

/// The social posts state account.
#[derive(Clone, Debug, PartialEq, Eq)]
pub struct SocialPostsStateAccount {
    pub is_initialized: bool,
    pub config: SocialPostsConfig,
    pub posts: Vec<PostAnchor>,
    pub engagement_proofs: Vec<EngagementProof>,
}

/// Mathematical model of [`SocialPostsStateAccount`].
#[verifier::ext_equal]
pub struct SocialPostsStateAccountModel {
    pub is_initialized: bool,
    pub config: SocialPostsConfig,
    pub posts: Seq<PostAnchorModel>,
    pub engagement_proofs: Seq<EngagementProof>,
}

impl View for SocialPostsStateAccount {
    type V = SocialPostsStateAccountModel;

    open spec fn view(&self) -> SocialPostsStateAccountModel {
        SocialPostsStateAccountModel {
            is_initialized: self.is_initialized,
            config: self.config,
            posts: model_vec_post_anchor(self.posts@),
            engagement_proofs: self.engagement_proofs@,
        }
    }
}

#[verifier::opaque]
pub open spec fn enc_social_posts_state_account(v: SocialPostsStateAccountModel) -> Seq<u8> {
    enc_bool(v.is_initialized) + (enc_social_posts_config(v.config) + (enc_vec_post_anchor(v.posts) + (enc_vec_engagement_proof(v.engagement_proofs))))
}

#[verifier::opaque]
pub open spec fn dec_social_posts_state_account(s: Seq<u8>) -> Option<(SocialPostsStateAccountModel, Seq<u8>)> {
    match dec_bool(s) {
            Some((is_initialized, r1)) => match dec_social_posts_config(r1) {
            Some((config, r2)) => match dec_vec_post_anchor(r2) {
            Some((posts, r3)) => match dec_vec_engagement_proof(r3) {
            Some((engagement_proofs, r4)) => Some((SocialPostsStateAccountModel { is_initialized, config, posts, engagement_proofs }, r4)),
            None => None,
        },
            None => None,
        },
            None => None,
        },
            None => None,
        }
}

pub open spec fn fits_social_posts_state_account(v: SocialPostsStateAccountModel) -> bool {
    fits_vec_post_anchor(v.posts) && fits_vec_engagement_proof(v.engagement_proofs)
}

pub fn read_social_posts_state_account(d: &[u8], pos: usize) -> (r: Option<(SocialPostsStateAccount, usize)>)
    requires
        pos <= d@.len(),
    ensures
        match r {
            None => dec_social_posts_state_account(d@.skip(pos as int)) is None,
            Some((v, p)) => p <= d@.len() && dec_social_posts_state_account(d@.skip(pos as int)) == Some((v@, d@.skip(p as int))),
        },
{
    proof {
        reveal(dec_social_posts_state_account);
    }
    match read_bool(d, pos) {
        None => None,
        Some((is_initialized, p1)) => match read_social_posts_config(d, p1) {
        None => None,
        Some((config, p2)) => match read_vec_post_anchor(d, p2) {
        None => None,
        Some((posts, p3)) => match read_vec_engagement_proof(d, p3) {
        None => None,
        Some((engagement_proofs, p4)) => Some((SocialPostsStateAccount { is_initialized, config, posts, engagement_proofs }, p4)),
    },
    },
    },
    }
}

pub fn write_social_posts_state_account(out: &mut Vec<u8>, v: &SocialPostsStateAccount) -> (ok: bool)
    ensures
        ok == fits_social_posts_state_account(v@),
        ok ==> final(out)@ == old(out)@ + enc_social_posts_state_account(v@),
{
    proof {
        reveal(enc_social_posts_state_account);
    }
    write_bool(out, *&v.is_initialized);
    let ghost o0 = out@;
    write_social_posts_config(out, &v.config);
    let ghost o1 = out@;
    if !write_vec_post_anchor(out, &v.posts) { return false; }
    let ghost o2 = out@;
    if !write_vec_engagement_proof(out, &v.engagement_proofs) { return false; }
    let ghost o3 = out@;
    proof {
        lemma_assoc(o1, enc_vec_post_anchor(v@.posts), enc_vec_engagement_proof(v@.engagement_proofs));
        lemma_assoc(o0, enc_social_posts_config(v@.config), enc_vec_post_anchor(v@.posts) + (enc_vec_engagement_proof(v@.engagement_proofs)));
        lemma_assoc(old(out)@, enc_bool(v@.is_initialized), enc_social_posts_config(v@.config) + (enc_vec_post_anchor(v@.posts) + (enc_vec_engagement_proof(v@.engagement_proofs))));
    }
    true
}

pub proof fn lemma_social_posts_state_account(v: SocialPostsStateAccountModel, rest: Seq<u8>)
    requires
        fits_social_posts_state_account(v),
    ensures
        dec_social_posts_state_account(enc_social_posts_state_account(v) + rest) == Some((v, rest)),
{
    reveal(enc_social_posts_state_account);
    reveal(dec_social_posts_state_account);
    lemma_assoc(enc_bool(v.is_initialized), enc_social_posts_config(v.config) + (enc_vec_post_anchor(v.posts) + (enc_vec_engagement_proof(v.engagement_proofs))), rest);
    lemma_bool(v.is_initialized, enc_social_posts_config(v.config) + (enc_vec_post_anchor(v.posts) + (enc_vec_engagement_proof(v.engagement_proofs))) + rest);
    lemma_assoc(enc_social_posts_config(v.config), enc_vec_post_anchor(v.posts) + (enc_vec_engagement_proof(v.engagement_proofs)), rest);
    lemma_social_posts_config(v.config, enc_vec_post_anchor(v.posts) + (enc_vec_engagement_proof(v.engagement_proofs)) + rest);
    lemma_assoc(enc_vec_post_anchor(v.posts), enc_vec_engagement_proof(v.engagement_proofs), rest);
    lemma_vec_post_anchor(v.posts, enc_vec_engagement_proof(v.engagement_proofs) + rest);
    lemma_vec_engagement_proof(v.engagement_proofs, rest);
}

/// Decodes a [`SocialPostsStateAccount`] that must take up all of `d`.
pub fn social_posts_state_account_from_slice(d: &[u8]) -> (r: Option<SocialPostsStateAccount>)
    ensures
        r is Some <==> (dec_social_posts_state_account(d@) matches Some((_, rest)) && rest.len() == 0),
        r matches Some(v) ==> dec_social_posts_state_account(d@) == Some((v@, Seq::<u8>::empty())),
{
    assert(d@.skip(0) =~= d@);
    match read_social_posts_state_account(d, 0) {
        None => None,
        Some((v, p)) => {
            if p == d.len() {
                assert(d@.skip(p as int) =~= Seq::<u8>::empty());
                Some(v)
            } else {
                None
            }
        },
    }
}

/// Decodes a [`SocialPostsStateAccount`] from the front of `d`, ignoring what follows it.
pub fn social_posts_state_account_from_prefix(d: &[u8]) -> (r: Option<SocialPostsStateAccount>)
    ensures
        r is Some <==> dec_social_posts_state_account(d@) is Some,
        r matches Some(v) ==> dec_social_posts_state_account(d@) matches Some((m, _)) && m == v@,
{
    assert(d@.skip(0) =~= d@);
    match read_social_posts_state_account(d, 0) {
        None => None,
        Some((v, _)) => Some(v),
    }
}

/// Serialises a [`SocialPostsStateAccount`]; `None` when a length does not fit the `u32` prefix.
pub fn social_posts_state_account_to_vec(v: &SocialPostsStateAccount) -> (r: Option<Vec<u8>>)
    ensures
        r is Some <==> fits_social_posts_state_account(v@),
        r matches Some(b) ==> b@ == enc_social_posts_state_account(v@),
{
    let mut out: Vec<u8> = Vec::new();
    if write_social_posts_state_account(&mut out, v) {
        assert(out@ =~= enc_social_posts_state_account(v@));
        Some(out)
    } else {
        None
    }
}

/// Instructions of the social posts program.
#[derive(Clone, Debug, PartialEq, Eq)]
pub enum SocialPostsInstruction {
    InitializeState{ state: SocialPostsStateAccount },
    AnchorPost{ post: PostAnchor },
    EditPost{ post_id: [u8; 32], editor: Pubkey, content_hash: [u8; 32], metadata_hash: [u8; 32], content_uri: String, edited_at_unix: i64 },
    ModeratePost{ post_id: [u8; 32], authority: Pubkey, moderation_state: ModerationState },
    RecordEngagement{ proof: EngagementProof },
    ReadPostsState{ post_id: Option<[u8; 32]> },
}

/// Mathematical model of [`SocialPostsInstruction`].
pub enum SocialPostsInstructionModel {
    InitializeState{ state: SocialPostsStateAccountModel },
    AnchorPost{ post: PostAnchorModel },
    EditPost{ post_id: [u8; 32], editor: Pubkey, content_hash: [u8; 32], metadata_hash: [u8; 32], content_uri: Seq<char>, edited_at_unix: i64 },
    ModeratePost{ post_id: [u8; 32], authority: Pubkey, moderation_state: ModerationState },
    RecordEngagement{ proof: EngagementProof },
    ReadPostsState{ post_id: Option<[u8; 32]> },
}

impl View for SocialPostsInstruction {
    type V = SocialPostsInstructionModel;

    open spec fn view(&self) -> SocialPostsInstructionModel {
        match self {
            SocialPostsInstruction::InitializeState{ state } => SocialPostsInstructionModel::InitializeState{ state: (*state)@ },
            SocialPostsInstruction::AnchorPost{ post } => SocialPostsInstructionModel::AnchorPost{ post: (*post)@ },
            SocialPostsInstruction::EditPost{ post_id, editor, content_hash, metadata_hash, content_uri, edited_at_unix } => SocialPostsInstructionModel::EditPost{ post_id: (*post_id), editor: (*editor), content_hash: (*content_hash), metadata_hash: (*metadata_hash), content_uri: (*content_uri)@, edited_at_unix: (*edited_at_unix) },
            SocialPostsInstruction::ModeratePost{ post_id, authority, moderation_state } => SocialPostsInstructionModel::ModeratePost{ post_id: (*post_id), authority: (*authority), moderation_state: (*moderation_state) },
            SocialPostsInstruction::RecordEngagement{ proof } => SocialPostsInstructionModel::RecordEngagement{ proof: (*proof) },
            SocialPostsInstruction::ReadPostsState{ post_id } => SocialPostsInstructionModel::ReadPostsState{ post_id: (*post_id) },
        }
    }
}

#[verifier::opaque]
pub open spec fn enc_social_posts_instruction(v: SocialPostsInstructionModel) -> Seq<u8> {
    match v {
        SocialPostsInstructionModel::InitializeState{ state } => seq![0u8] + (enc_social_posts_state_account(state)),
        SocialPostsInstructionModel::AnchorPost{ post } => seq![1u8] + (enc_post_anchor(post)),
        SocialPostsInstructionModel::EditPost{ post_id, editor, content_hash, metadata_hash, content_uri, edited_at_unix } => seq![2u8] + (enc_arr::<32>(post_id) + (enc_pubkey(editor) + (enc_arr::<32>(content_hash) + (enc_arr::<32>(metadata_hash) + (enc_string(content_uri) + (enc_i64(edited_at_unix))))))),
        SocialPostsInstructionModel::ModeratePost{ post_id, authority, moderation_state } => seq![3u8] + (enc_arr::<32>(post_id) + (enc_pubkey(authority) + (enc_moderation_state(moderation_state)))),
        SocialPostsInstructionModel::RecordEngagement{ proof } => seq![4u8] + (enc_engagement_proof(proof)),
        SocialPostsInstructionModel::ReadPostsState{ post_id } => seq![5u8] + (enc_opt_arr32(post_id)),
    }
}

#[verifier::opaque]
pub open spec fn dec_social_posts_instruction(s: Seq<u8>) -> Option<(SocialPostsInstructionModel, Seq<u8>)> {
    if s.len() == 0 {
        None
    } else if s[0] == 0 {
        let r0 = s.skip(1);
        match dec_social_posts_state_account(r0) {
            Some((state, r1)) => Some((SocialPostsInstructionModel::InitializeState{ state }, r1)),
            None => None,
        }
    } else if s[0] == 1 {
        let r0 = s.skip(1);
        match dec_post_anchor(r0) {
            Some((post, r1)) => Some((SocialPostsInstructionModel::AnchorPost{ post }, r1)),
            None => None,
        }
    } else if s[0] == 2 {
        let r0 = s.skip(1);
        match dec_arr::<32>(r0) {
            Some((post_id, r1)) => match dec_pubkey(r1) {
            Some((editor, r2)) => match dec_arr::<32>(r2) {
            Some((content_hash, r3)) => match dec_arr::<32>(r3) {
            Some((metadata_hash, r4)) => match dec_string(r4) {
            Some((content_uri, r5)) => match dec_i64(r5) {
            Some((edited_at_unix, r6)) => Some((SocialPostsInstructionModel::EditPost{ post_id, editor, content_hash, metadata_hash, content_uri, edited_at_unix }, r6)),
            None => None,
        },
            None => None,
        },
            None => None,
        },
            None => None,
        },
            None => None,
        },
            None => None,
        }
    } else if s[0] == 3 {
        let r0 = s.skip(1);
        match dec_arr::<32>(r0) {
            Some((post_id, r1)) => match dec_pubkey(r1) {
            Some((authority, r2)) => match dec_moderation_state(r2) {
            Some((moderation_state, r3)) => Some((SocialPostsInstructionModel::ModeratePost{ post_id, authority, moderation_state }, r3)),
            None => None,
        },
            None => None,
        },
            None => None,
        }
    } else if s[0] == 4 {
        let r0 = s.skip(1);
        match dec_engagement_proof(r0) {
            Some((proof, r1)) => Some((SocialPostsInstructionModel::RecordEngagement{ proof }, r1)),
            None => None,
        }
    } else if s[0] == 5 {
        let r0 = s.skip(1);
        match dec_opt_arr32(r0) {
            Some((post_id, r1)) => Some((SocialPostsInstructionModel::ReadPostsState{ post_id }, r1)),
            None => None,
        }
    } else { None }
}

pub open spec fn fits_social_posts_instruction(v: SocialPostsInstructionModel) -> bool {
    match v {
        SocialPostsInstructionModel::InitializeState{ state } => fits_social_posts_state_account(state),
        SocialPostsInstructionModel::AnchorPost{ post } => fits_post_anchor(post),
        SocialPostsInstructionModel::EditPost{ post_id, editor, content_hash, metadata_hash, content_uri, edited_at_unix } => fits_string(content_uri),
        SocialPostsInstructionModel::ModeratePost{ post_id, authority, moderation_state } => true,
        SocialPostsInstructionModel::RecordEngagement{ proof } => true,
        SocialPostsInstructionModel::ReadPostsState{ post_id } => true,
    }
}

pub fn read_social_posts_instruction(d: &[u8], pos: usize) -> (r: Option<(SocialPostsInstruction, usize)>)
    requires
        pos <= d@.len(),
    ensures
        match r {
            None => dec_social_posts_instruction(d@.skip(pos as int)) is None,
            Some((v, p)) => p <= d@.len() && dec_social_posts_instruction(d@.skip(pos as int)) == Some((v@, d@.skip(p as int))),
        },
{
    proof {
        reveal(dec_social_posts_instruction);
    }
    match read_u8(d, pos) {
        None => None,
        Some((tag, p0)) => {
            proof {
                lemma_skip_skip(d@, pos as int, 1);
            }
            match tag {
            0 => match read_social_posts_state_account(d, p0) {
                None => None,
                Some((state, p1)) => Some((SocialPostsInstruction::InitializeState{ state }, p1)),
            },
            1 => match read_post_anchor(d, p0) {
                None => None,
                Some((post, p1)) => Some((SocialPostsInstruction::AnchorPost{ post }, p1)),
            },
            2 => match read_arr::<32>(d, p0) {
                None => None,
                Some((post_id, p1)) => match read_pubkey(d, p1) {
                None => None,
                Some((editor, p2)) => match read_arr::<32>(d, p2) {
                None => None,
                Some((content_hash, p3)) => match read_arr::<32>(d, p3) {
                None => None,
                Some((metadata_hash, p4)) => match read_string(d, p4) {
                None => None,
                Some((content_uri, p5)) => match read_i64(d, p5) {
                None => None,
                Some((edited_at_unix, p6)) => Some((SocialPostsInstruction::EditPost{ post_id, editor, content_hash, metadata_hash, content_uri, edited_at_unix }, p6)),
            },
            },
            },
            },
            },
            },
            3 => match read_arr::<32>(d, p0) {
                None => None,
                Some((post_id, p1)) => match read_pubkey(d, p1) {
                None => None,
                Some((authority, p2)) => match read_moderation_state(d, p2) {
                None => None,
                Some((moderation_state, p3)) => Some((SocialPostsInstruction::ModeratePost{ post_id, authority, moderation_state }, p3)),
            },
            },
            },
            4 => match read_engagement_proof(d, p0) {
                None => None,
                Some((proof, p1)) => Some((SocialPostsInstruction::RecordEngagement{ proof }, p1)),
            },
            5 => match read_opt_arr32(d, p0) {
                None => None,
                Some((post_id, p1)) => Some((SocialPostsInstruction::ReadPostsState{ post_id }, p1)),
            },
            _ => None,
            }
        },
    }
}

pub fn write_social_posts_instruction(out: &mut Vec<u8>, v: &SocialPostsInstruction) -> (ok: bool)
    ensures
        ok == fits_social_posts_instruction(v@),
        ok ==> final(out)@ == old(out)@ + enc_social_posts_instruction(v@),
{
    proof {
        reveal(enc_social_posts_instruction);
    }
    match v {
        SocialPostsInstruction::InitializeState{ state } => {
            out.push(0u8);
            let ghost ot = out@;
            assert(ot =~= old(out)@ + seq![0u8]);
            if !write_social_posts_state_account(out, state) { return false; }
            let ghost o0 = out@;
            proof {
            }
            proof {
                lemma_assoc(old(out)@, seq![0u8], enc_social_posts_state_account((*state)@));
            }
        },
        SocialPostsInstruction::AnchorPost{ post } => {
            out.push(1u8);
            let ghost ot = out@;
            assert(ot =~= old(out)@ + seq![1u8]);
            if !write_post_anchor(out, post) { return false; }
            let ghost o0 = out@;
            proof {
            }
            proof {
                lemma_assoc(old(out)@, seq![1u8], enc_post_anchor((*post)@));
            }
        },
        SocialPostsInstruction::EditPost{ post_id, editor, content_hash, metadata_hash, content_uri, edited_at_unix } => {
            out.push(2u8);
            let ghost ot = out@;
            assert(ot =~= old(out)@ + seq![2u8]);
            write_arr::<32>(out, post_id);
            let ghost o0 = out@;
            write_pubkey(out, editor);
            let ghost o1 = out@;
            write_arr::<32>(out, content_hash);
            let ghost o2 = out@;
            write_arr::<32>(out, metadata_hash);
            let ghost o3 = out@;
            if !write_string(out, content_uri) { return false; }
            let ghost o4 = out@;
            write_i64(out, *edited_at_unix);
            let ghost o5 = out@;
            proof {
                lemma_assoc(o3, enc_string((*content_uri)@), enc_i64((*edited_at_unix)));
                lemma_assoc(o2, enc_arr::<32>((*metadata_hash)), enc_string((*content_uri)@) + (enc_i64((*edited_at_unix))));
                lemma_assoc(o1, enc_arr::<32>((*content_hash)), enc_arr::<32>((*metadata_hash)) + (enc_string((*content_uri)@) + (enc_i64((*edited_at_unix)))));
                lemma_assoc(o0, enc_pubkey((*editor)), enc_arr::<32>((*content_hash)) + (enc_arr::<32>((*metadata_hash)) + (enc_string((*content_uri)@) + (enc_i64((*edited_at_unix))))));
                lemma_assoc(ot, enc_arr::<32>((*post_id)), enc_pubkey((*editor)) + (enc_arr::<32>((*content_hash)) + (enc_arr::<32>((*metadata_hash)) + (enc_string((*content_uri)@) + (enc_i64((*edited_at_unix)))))));
            }
            proof {
                lemma_assoc(old(out)@, seq![2u8], enc_arr::<32>((*post_id)) + (enc_pubkey((*editor)) + (enc_arr::<32>((*content_hash)) + (enc_arr::<32>((*metadata_hash)) + (enc_string((*content_uri)@) + (enc_i64((*edited_at_unix))))))));
            }
        },
        SocialPostsInstruction::ModeratePost{ post_id, authority, moderation_state } => {
            out.push(3u8);
            let ghost ot = out@;
            assert(ot =~= old(out)@ + seq![3u8]);
            write_arr::<32>(out, post_id);
            let ghost o0 = out@;
            write_pubkey(out, authority);
            let ghost o1 = out@;
            write_moderation_state(out, moderation_state);
            let ghost o2 = out@;
            proof {
                lemma_assoc(o0, enc_pubkey((*authority)), enc_moderation_state((*moderation_state)));
                lemma_assoc(ot, enc_arr::<32>((*post_id)), enc_pubkey((*authority)) + (enc_moderation_state((*moderation_state))));
            }
            proof {
                lemma_assoc(old(out)@, seq![3u8], enc_arr::<32>((*post_id)) + (enc_pubkey((*authority)) + (enc_moderation_state((*moderation_state)))));
            }
        },
        SocialPostsInstruction::RecordEngagement{ proof } => {
            out.push(4u8);
            let ghost ot = out@;
            assert(ot =~= old(out)@ + seq![4u8]);
            write_engagement_proof(out, proof);
            let ghost o0 = out@;
            proof {
            }
            proof {
                lemma_assoc(old(out)@, seq![4u8], enc_engagement_proof((*proof)));
            }
        },
        SocialPostsInstruction::ReadPostsState{ post_id } => {
            out.push(5u8);
            let ghost ot = out@;
            assert(ot =~= old(out)@ + seq![5u8]);
            write_opt_arr32(out, post_id);
            let ghost o0 = out@;
            proof {
            }
            proof {
                lemma_assoc(old(out)@, seq![5u8], enc_opt_arr32((*post_id)));
            }
        },
    }
    true
}

proof fn lemma_social_posts_instruction_initialize_state(state: SocialPostsStateAccountModel, rest: Seq<u8>)
    requires
        fits_social_posts_state_account(state),
    ensures
        dec_social_posts_instruction(enc_social_posts_instruction(SocialPostsInstructionModel::InitializeState{ state }) + rest) == Some((SocialPostsInstructionModel::InitializeState{ state }, rest)),
{
    reveal(enc_social_posts_instruction);
    reveal(dec_social_posts_instruction);
    assert((enc_social_posts_instruction(SocialPostsInstructionModel::InitializeState{ state }) + rest).skip(1) =~= (enc_social_posts_state_account(state)) + rest);
    lemma_social_posts_state_account(state, rest);
}

proof fn lemma_social_posts_instruction_anchor_post(post: PostAnchorModel, rest: Seq<u8>)
    requires
        fits_post_anchor(post),
    ensures
        dec_social_posts_instruction(enc_social_posts_instruction(SocialPostsInstructionModel::AnchorPost{ post }) + rest) == Some((SocialPostsInstructionModel::AnchorPost{ post }, rest)),
{
    reveal(enc_social_posts_instruction);
    reveal(dec_social_posts_instruction);
    assert((enc_social_posts_instruction(SocialPostsInstructionModel::AnchorPost{ post }) + rest).skip(1) =~= (enc_post_anchor(post)) + rest);
    lemma_post_anchor(post, rest);
}

proof fn lemma_social_posts_instruction_edit_post(post_id: [u8; 32], editor: Pubkey, content_hash: [u8; 32], metadata_hash: [u8; 32], content_uri: Seq<char>, edited_at_unix: i64, rest: Seq<u8>)
    requires
        fits_string(content_uri),
    ensures
        dec_social_posts_instruction(enc_social_posts_instruction(SocialPostsInstructionModel::EditPost{ post_id, editor, content_hash, metadata_hash, content_uri, edited_at_unix }) + rest) == Some((SocialPostsInstructionModel::EditPost{ post_id, editor, content_hash, metadata_hash, content_uri, edited_at_unix }, rest)),
{
    reveal(enc_social_posts_instruction);
    reveal(dec_social_posts_instruction);
    assert((enc_social_posts_instruction(SocialPostsInstructionModel::EditPost{ post_id, editor, content_hash, metadata_hash, content_uri, edited_at_unix }) + rest).skip(1) =~= (enc_arr::<32>(post_id) + (enc_pubkey(editor) + (enc_arr::<32>(content_hash) + (enc_arr::<32>(metadata_hash) + (enc_string(content_uri) + (enc_i64(edited_at_unix))))))) + rest);
    lemma_assoc(enc_arr::<32>(post_id), enc_pubkey(editor) + (enc_arr::<32>(content_hash) + (enc_arr::<32>(metadata_hash) + (enc_string(content_uri) + (enc_i64(edited_at_unix))))), rest);
    lemma_arr::<32>(post_id, enc_pubkey(editor) + (enc_arr::<32>(content_hash) + (enc_arr::<32>(metadata_hash) + (enc_string(content_uri) + (enc_i64(edited_at_unix))))) + rest);
    lemma_assoc(enc_pubkey(editor), enc_arr::<32>(content_hash) + (enc_arr::<32>(metadata_hash) + (enc_string(content_uri) + (enc_i64(edited_at_unix)))), rest);
    lemma_pubkey(editor, enc_arr::<32>(content_hash) + (enc_arr::<32>(metadata_hash) + (enc_string(content_uri) + (enc_i64(edited_at_unix)))) + rest);
    lemma_assoc(enc_arr::<32>(content_hash), enc_arr::<32>(metadata_hash) + (enc_string(content_uri) + (enc_i64(edited_at_unix))), rest);
    lemma_arr::<32>(content_hash, enc_arr::<32>(metadata_hash) + (enc_string(content_uri) + (enc_i64(edited_at_unix))) + rest);
    lemma_assoc(enc_arr::<32>(metadata_hash), enc_string(content_uri) + (enc_i64(edited_at_unix)), rest);
    lemma_arr::<32>(metadata_hash, enc_string(content_uri) + (enc_i64(edited_at_unix)) + rest);
    lemma_assoc(enc_string(content_uri), enc_i64(edited_at_unix), rest);
    lemma_string(content_uri, enc_i64(edited_at_unix) + rest);
    lemma_i64(edited_at_unix, rest);
}

proof fn lemma_social_posts_instruction_moderate_post(post_id: [u8; 32], authority: Pubkey, moderation_state: ModerationState, rest: Seq<u8>)
    ensures
        dec_social_posts_instruction(enc_social_posts_instruction(SocialPostsInstructionModel::ModeratePost{ post_id, authority, moderation_state }) + rest) == Some((SocialPostsInstructionModel::ModeratePost{ post_id, authority, moderation_state }, rest)),
{
    reveal(enc_social_posts_instruction);
    reveal(dec_social_posts_instruction);
    assert((enc_social_posts_instruction(SocialPostsInstructionModel::ModeratePost{ post_id, authority, moderation_state }) + rest).skip(1) =~= (enc_arr::<32>(post_id) + (enc_pubkey(authority) + (enc_moderation_state(moderation_state)))) + rest);
    lemma_assoc(enc_arr::<32>(post_id), enc_pubkey(authority) + (enc_moderation_state(moderation_state)), rest);
    lemma_arr::<32>(post_id, enc_pubkey(authority) + (enc_moderation_state(moderation_state)) + rest);
    lemma_assoc(enc_pubkey(authority), enc_moderation_state(moderation_state), rest);
    lemma_pubkey(authority, enc_moderation_state(moderation_state) + rest);
    lemma_moderation_state(moderation_state, rest);
}

proof fn lemma_social_posts_instruction_record_engagement(proof: EngagementProof, rest: Seq<u8>)
    ensures
        dec_social_posts_instruction(enc_social_posts_instruction(SocialPostsInstructionModel::RecordEngagement{ proof }) + rest) == Some((SocialPostsInstructionModel::RecordEngagement{ proof }, rest)),
{
    reveal(enc_social_posts_instruction);
    reveal(dec_social_posts_instruction);
    assert((enc_social_posts_instruction(SocialPostsInstructionModel::RecordEngagement{ proof }) + rest).skip(1) =~= (enc_engagement_proof(proof)) + rest);
    lemma_engagement_proof(proof, rest);
}

proof fn lemma_social_posts_instruction_read_posts_state(post_id: Option<[u8; 32]>, rest: Seq<u8>)
    ensures
        dec_social_posts_instruction(enc_social_posts_instruction(SocialPostsInstructionModel::ReadPostsState{ post_id }) + rest) == Some((SocialPostsInstructionModel::ReadPostsState{ post_id }, rest)),
{
    reveal(enc_social_posts_instruction);
    reveal(dec_social_posts_instruction);
    assert((enc_social_posts_instruction(SocialPostsInstructionModel::ReadPostsState{ post_id }) + rest).skip(1) =~= (enc_opt_arr32(post_id)) + rest);
    lemma_opt_arr32(post_id, rest);
}

pub proof fn lemma_social_posts_instruction(v: SocialPostsInstructionModel, rest: Seq<u8>)
    requires
        fits_social_posts_instruction(v),
    ensures
        dec_social_posts_instruction(enc_social_posts_instruction(v) + rest) == Some((v, rest)),
{
    reveal(enc_social_posts_instruction);
    reveal(dec_social_posts_instruction);
    match v {
        SocialPostsInstructionModel::InitializeState{ state } => lemma_social_posts_instruction_initialize_state(state, rest),
        SocialPostsInstructionModel::AnchorPost{ post } => lemma_social_posts_instruction_anchor_post(post, rest),
        SocialPostsInstructionModel::EditPost{ post_id, editor, content_hash, metadata_hash, content_uri, edited_at_unix } => lemma_social_posts_instruction_edit_post(post_id, editor, content_hash, metadata_hash, content_uri, edited_at_unix, rest),
        SocialPostsInstructionModel::ModeratePost{ post_id, authority, moderation_state } => lemma_social_posts_instruction_moderate_post(post_id, authority, moderation_state, rest),
        SocialPostsInstructionModel::RecordEngagement{ proof } => lemma_social_posts_instruction_record_engagement(proof, rest),
        SocialPostsInstructionModel::ReadPostsState{ post_id } => lemma_social_posts_instruction_read_posts_state(post_id, rest),
    }
}

/// Decodes a [`SocialPostsInstruction`] that must take up all of `d`.
pub fn social_posts_instruction_from_slice(d: &[u8]) -> (r: Option<SocialPostsInstruction>)
    ensures
        r is Some <==> (dec_social_posts_instruction(d@) matches Some((_, rest)) && rest.len() == 0),
        r matches Some(v) ==> dec_social_posts_instruction(d@) == Some((v@, Seq::<u8>::empty())),
{
    assert(d@.skip(0) =~= d@);
    match read_social_posts_instruction(d, 0) {
        None => None,
        Some((v, p)) => {
            if p == d.len() {
                assert(d@.skip(p as int) =~= Seq::<u8>::empty());
                Some(v)
            } else {
                None
            }
        },
    }
}

/// Decodes a [`SocialPostsInstruction`] from the front of `d`, ignoring what follows it.
pub fn social_posts_instruction_from_prefix(d: &[u8]) -> (r: Option<SocialPostsInstruction>)
    ensures
        r is Some <==> dec_social_posts_instruction(d@) is Some,
        r matches Some(v) ==> dec_social_posts_instruction(d@) matches Some((m, _)) && m == v@,
{
    assert(d@.skip(0) =~= d@);
    match read_social_posts_instruction(d, 0) {
        None => None,
        Some((v, _)) => Some(v),
    }
}

/// Serialises a [`SocialPostsInstruction`]; `None` when a length does not fit the `u32` prefix.
pub fn social_posts_instruction_to_vec(v: &SocialPostsInstruction) -> (r: Option<Vec<u8>>)
    ensures
        r is Some <==> fits_social_posts_instruction(v@),
        r matches Some(b) ==> b@ == enc_social_posts_instruction(v@),
{
    let mut out: Vec<u8> = Vec::new();
    if write_social_posts_instruction(&mut out, v) {
        assert(out@ =~= enc_social_posts_instruction(v@));
        Some(out)
    } else {
        None
    }
}

} // verus!
