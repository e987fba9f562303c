//! Data model of the core: identifiers, identities, communities, posts,
//! engagement records, requests, responses and the error taxonomy.
//!
//! Text is carried as `Vec<char>` so that every character-level rule
//! (denylist matching, title shape, trimming) is stated and proved over
//! `Seq<char>` directly.

use vstd::prelude::*;
use crate::text::{clone_text, clone_text_opt, text_view};

verus! {

/// Identifier of a local person.
#[derive(Clone, Copy, PartialEq, Eq, Structural, Debug)]
pub struct PersonId(pub u64);

/// Identifier of a community.
#[derive(Clone, Copy, PartialEq, Eq, Structural, Debug)]
pub struct CommunityId(pub u64);

/// Identifier of a post row.
#[derive(Clone, Copy, PartialEq, Eq, Structural, Debug)]
pub struct PostId(pub u64);

/// Identifier of a content language.
#[derive(Clone, Copy, PartialEq, Eq, Structural, Debug)]
pub struct LanguageId(pub u64);

/// A resolved local-user identity, immutable for the request.
///
/// `languages` is the set of languages the person writes in; it feeds the
/// default-language derivation of the post pipeline.
#[derive(Clone, Debug)]
pub struct Identity {
    pub person_id: PersonId,
    pub admin: bool,
    pub languages: Vec<LanguageId>,
}

/// A community as the storage layer hands it out; read-only to this core.
#[derive(Clone, Debug)]
pub struct Community {
    pub id: CommunityId,
    /// Locality flag: a local community accepts follows immediately.
    pub local: bool,
    pub deleted: bool,
    pub removed: bool,
    pub posting_restricted_to_mods: bool,
    /// Permitted language set of the community.
    pub languages: Vec<LanguageId>,
    /// Persons holding moderator standing in this community.
    pub moderators: Vec<PersonId>,
    /// Persons banned from this community.
    pub banned: Vec<PersonId>,
}

/// Membership relation between a person and a community.
///
/// `pending == false` denotes accepted membership, `true` denotes a follow
/// awaiting remote acceptance.
#[derive(Clone, Copy, PartialEq, Eq, Structural, Debug)]
pub struct FollowRelation {
    pub person_id: PersonId,
    pub community_id: CommunityId,
    pub pending: bool,
}

/// Globally addressable identity of a published post, minted from the
/// assigned row id and the instance's protocol/host configuration.
#[derive(Clone, Debug)]
pub struct FederatedId {
    pub host: Vec<char>,
    pub post_id: PostId,
}

/// A stored post row.
#[derive(Clone, Debug)]
pub struct Post {
    pub id: PostId,
    /// Title, already trimmed.
    pub name: Vec<char>,
    pub body: Option<Vec<char>>,
    pub url: Option<Vec<char>>,
    pub community_id: CommunityId,
    pub creator_id: PersonId,
    pub nsfw: bool,
    pub embed_title: Option<Vec<char>>,
    pub embed_description: Option<Vec<char>>,
    pub embed_video_url: Option<Vec<char>>,
    pub thumbnail_url: Option<Vec<char>>,
    pub language_id: Option<LanguageId>,
    /// Null only between row creation and identity assignment.
    pub ap_id: Option<FederatedId>,
    pub published: u64,
}

/// Engagement record: one person's vote on one post, last write wins.
#[derive(Clone, Copy, PartialEq, Eq, Structural, Debug)]
pub struct PostLike {
    pub post_id: PostId,
    pub person_id: PersonId,
    /// Vote value, constrained to -1, 0 or 1 by the store invariant.
    pub score: i8,
}

/// Engagement record: a person has read a post; pure presence semantics.
#[derive(Clone, Copy, PartialEq, Eq, Structural, Debug)]
pub struct ReadMark {
    pub person_id: PersonId,
    pub post_id: PostId,
}

/// Site-wide configuration this core reads: the content denylist and the
/// protocol/host prefix used to mint federated identifiers.
#[derive(Clone, Debug)]
pub struct SiteConfig {
    pub denylist: Vec<Vec<char>>,
    pub host: Vec<char>,
}

/// Membership state of a (person, community) pair as a view shows it.
#[derive(Clone, Copy, PartialEq, Eq, Structural, Debug)]
pub enum FollowState {
    Absent,
    Pending,
    Accepted,
}

/// Closed error taxonomy of the two workflows.
#[derive(Clone, Copy, PartialEq, Eq, Structural, Debug)]
pub enum ApiError {
    /// Invalid or expired credential.
    Unauthorized,
    /// The target community does not exist.
    CommunityNotFound,
    /// The acting identity is banned from the target community.
    BannedFromCommunity,
    /// The target community is deleted or removed.
    CommunityUnavailable,
    /// The community restricts posting to moderators and the submitter
    /// holds neither moderator nor administrator standing.
    PostingRestricted,
    /// Title or body contains a denylisted pattern.
    DisallowedContent,
    /// Generic validation failure; deliberately shared by the
    /// anti-automation check so that bots receive no signal to adapt.
    InvalidInput,
    /// Title fails the shape rule: empty after trimming, or a
    /// non-printable character.
    InvalidPostTitle,
    /// Title exceeds the maximum length once trimmed.
    TitleTooLong,
    /// Generic persistence failure.
    CreateFailed,
    /// The membership language is not permitted by the community.
    LanguageNotAllowed,
    /// A follow relation already exists for the pair.
    AlreadyFollowing,
    /// No follow relation exists for the pair.
    NotFollowing,
}

impl ApiError {
    /// The wire code of the error, as the caller-facing layer reports it.
    pub open spec fn code_spec(self) -> Seq<char> {
        match self {
            ApiError::Unauthorized => "not_logged_in"@,
            ApiError::CommunityNotFound => "couldnt_find_community"@,
            ApiError::BannedFromCommunity => "community_ban"@,
            ApiError::CommunityUnavailable => "deleted"@,
            ApiError::PostingRestricted => "only_mods_can_post_in_community"@,
            ApiError::DisallowedContent => "slurs"@,
            ApiError::InvalidInput => "invalid_input"@,
            ApiError::InvalidPostTitle => "invalid_post_title"@,
            ApiError::TitleTooLong => "post_title_too_long"@,
            ApiError::CreateFailed => "couldnt_create_post"@,
            ApiError::LanguageNotAllowed => "language_not_allowed"@,
            ApiError::AlreadyFollowing => "community_follower_already_exists"@,
            ApiError::NotFollowing => "community_follower_does_not_exist"@,
        }
    }

    /// The wire code of the error.
    pub fn code(&self) -> (r: &'static str)
        ensures
            r@ == self.code_spec(),
    {
        match self {
            ApiError::Unauthorized => "not_logged_in",
            ApiError::CommunityNotFound => "couldnt_find_community",
            ApiError::BannedFromCommunity => "community_ban",
            ApiError::CommunityUnavailable => "deleted",
            ApiError::PostingRestricted => "only_mods_can_post_in_community",
            ApiError::DisallowedContent => "slurs",
            ApiError::InvalidInput => "invalid_input",
            ApiError::InvalidPostTitle => "invalid_post_title",
            ApiError::TitleTooLong => "post_title_too_long",
            ApiError::CreateFailed => "couldnt_create_post",
            ApiError::LanguageNotAllowed => "language_not_allowed",
            ApiError::AlreadyFollowing => "community_follower_already_exists",
            ApiError::NotFollowing => "community_follower_does_not_exist",
        }
    }
}

/// Request to follow or unfollow a community.
#[derive(Clone, Copy, Debug)]
pub struct FollowRequest {
    pub community_id: CommunityId,
    /// `true` to follow, `false` to unfollow.
    pub follow: bool,
}

/// Request to submit a post.
#[derive(Clone, Debug)]
pub struct CreatePostRequest {
    pub name: Vec<char>,
    pub body: Option<Vec<char>>,
    pub url: Option<Vec<char>>,
    pub community_id: CommunityId,
    pub nsfw: bool,
    pub language_id: Option<LanguageId>,
    /// Hidden anti-automation field; any content marks the submission.
    pub honeypot: Option<Vec<char>>,
}

/// Community projection as seen by the requesting identity.
#[derive(Clone, Copy, PartialEq, Eq, Structural, Debug)]
pub struct CommunityView {
    pub community_id: CommunityId,
    pub local: bool,
    /// Number of follow relations the community currently has.
    pub subscriber_count: usize,
    /// Membership state of the requesting identity.
    pub follow_state: FollowState,
}

/// Response of the membership workflow.
#[derive(Clone, Copy, PartialEq, Eq, Structural, Debug)]
pub struct CommunityResponse {
    pub community_view: CommunityView,
}

/// Response of the post submission workflow.
#[derive(Clone, Debug)]
pub struct PostResponse {
    pub post: Post,
}

/// Planned outbound link notification: tell the owner of `target` that
/// `source` references it.  Performing it is best-effort and outside this
/// core.
#[derive(Clone, Debug)]
pub struct NotifyAction {
    pub source: FederatedId,
    pub target: Vec<char>,
}

/// Whether the person appears in the list.
pub fn contains_person(v: &Vec<PersonId>, p: PersonId) -> (r: bool)
    ensures
        r == v@.contains(p),
{
    let mut i: usize = 0;
    while i < v.len()
        invariant
            0 <= i <= v@.len(),
            forall|k: int| 0 <= k < i ==> v@[k] != p,
        decreases v@.len() - i,
    {
        if v[i] == p {
            return true;
        }
        i += 1;
    }
    false
}

/// Whether the language appears in the list.
pub fn contains_lang(v: &Vec<LanguageId>, l: LanguageId) -> (r: bool)
    ensures
        r == v@.contains(l),
{
    let mut i: usize = 0;
    while i < v.len()
        invariant
            0 <= i <= v@.len(),
            forall|k: int| 0 <= k < i ==> v@[k] != l,
        decreases v@.len() - i,
    {
        if v[i] == l {
            return true;
        }
        i += 1;
    }
    false
}

/// Planned realtime broadcast of a creation event.
#[derive(Clone, Copy, PartialEq, Eq, Structural, Debug)]
pub struct BroadcastEvent {
    pub post_id: PostId,
    pub creator: PersonId,
}


/// Page metadata a successful fetch handed back, each part independently
/// optional.  The whole value is absent when the fetch failed or no URL
/// was given; the pipeline then degrades to no metadata.
#[derive(Clone, Debug)]
pub struct FetchedMetadata {
    pub title: Option<Vec<char>>,
    pub description: Option<Vec<char>>,
    pub embed_video_url: Option<Vec<char>>,
    pub thumbnail_url: Option<Vec<char>>,
}

/// A submission that passed validation and moderation checks and now
/// awaits enrichment, language resolution and persistence.
#[derive(Clone, Debug)]
pub struct PreparedPost {
    pub creator: Identity,
    /// Title, already trimmed by the validator.
    pub name: Vec<char>,
    pub body: Option<Vec<char>>,
    pub url: Option<Vec<char>>,
    pub community_id: CommunityId,
    pub nsfw: bool,
    /// The language the request asked for, not yet resolved.
    pub language_id: Option<LanguageId>,
}

/// Everything a successful submission produces: the response for the
/// caller and the side effects the surrounding host performs after the
/// durability point, neither able to fail the request.
#[derive(Clone, Debug)]
pub struct PostCreated {
    pub response: PostResponse,
    pub notify: Option<NotifyAction>,
    pub broadcast: BroadcastEvent,
}

/// Sameness of two optional federated identifiers, hosts compared by
/// content.
pub open spec fn fid_opt_eqv(a: Option<FederatedId>, b: Option<FederatedId>) -> bool {
    match (a, b) {
        (Some(x), Some(y)) => x.host@ == y.host@ && x.post_id == y.post_id,
        (None, None) => true,
        _ => false,
    }
}

/// Field-wise sameness of two post rows, text compared by content.
pub open spec fn post_eqv(a: Post, b: Post) -> bool {
    &&& a.id == b.id
    &&& a.name@ == b.name@
    &&& text_view(a.body) == text_view(b.body)
    &&& text_view(a.url) == text_view(b.url)
    &&& a.community_id == b.community_id
    &&& a.creator_id == b.creator_id
    &&& a.nsfw == b.nsfw
    &&& text_view(a.embed_title) == text_view(b.embed_title)
    &&& text_view(a.embed_description) == text_view(b.embed_description)
    &&& text_view(a.embed_video_url) == text_view(b.embed_video_url)
    &&& text_view(a.thumbnail_url) == text_view(b.thumbnail_url)
    &&& a.language_id == b.language_id
    &&& fid_opt_eqv(a.ap_id, b.ap_id)
    &&& a.published == b.published
}

/// A copy of a post row, character for character.
pub fn clone_post(p: &Post) -> (r: Post)
    ensures
        post_eqv(r, *p),
{
    let ap_id = match &p.ap_id {
        Some(f) => Some(FederatedId { host: clone_text(&f.host), post_id: f.post_id }),
        None => None,
    };
    Post {
        id: p.id,
        name: clone_text(&p.name),
        body: clone_text_opt(&p.body),
        url: clone_text_opt(&p.url),
        community_id: p.community_id,
        creator_id: p.creator_id,
        nsfw: p.nsfw,
        embed_title: clone_text_opt(&p.embed_title),
        embed_description: clone_text_opt(&p.embed_description),
        embed_video_url: clone_text_opt(&p.embed_video_url),
        thumbnail_url: clone_text_opt(&p.thumbnail_url),
        language_id: p.language_id,
        ap_id,
        published: p.published,
    }
}


} // verus!
