//! Laws of the two workflows, proved from the contracts alone: the
//! round-trip behaviour of the membership state machine, the
//! abort-before-persistence of the validation gate, the degradation of
//! enrichment, and the uniqueness of engagement rows.

use vstd::prelude::*;
use crate::domain::{
    ApiError, CreatePostRequest, FetchedMetadata, FollowRequest, FollowState, Identity, PersonId,
    Post, PostId, PreparedPost, SiteConfig,
};
use crate::follow::{created_relation, follow_refusal};
use crate::post::{all_published, post_matches, prepare_refusal};
use crate::store::Store;
use crate::text::{deny_view, hits_denylist};

verus! {

/// An identity not banned from a local, non-deleted, non-removed
/// community it does not yet follow is owed a successful follow; the
/// fresh projection then shows accepted membership, and a second follow
/// without an intervening unfollow is refused as a conflict.
///
/// `s2` is the state `follow_community` leaves behind on success, as its
/// contract states it.
pub proof fn lemma_follow_then_refollow(s: Store, s2: Store, ident: Identity, req: FollowRequest)
    requires
        s.wf(),
        req.follow,
        s.has_community(req.community_id),
        s.community_at(req.community_id).local,
        !s.community_at(req.community_id).deleted,
        !s.community_at(req.community_id).removed,
        !s.community_at(req.community_id).banned@.contains(ident.person_id),
        !s.has_follow(ident.person_id, req.community_id),
        s2.follows@ == s.follows@.push(created_relation(s, ident.person_id, req.community_id)),
        s2.communities@ == s.communities@,
    ensures
        follow_refusal(s, Some(ident), req) is None,
        s2.follow_state_of(ident.person_id, req.community_id) == FollowState::Accepted,
        follow_refusal(s2, Some(ident), req) == Some(ApiError::AlreadyFollowing),
{
    let p = ident.person_id;
    let c = req.community_id;
    let rel = created_relation(s, p, c);
    assert(s2.follows@[s.follows@.len() as int] == rel);
    assert(s2.has_follow(p, c));
    let k = s2.follow_idx(p, c);
    assert(0 <= k < s2.follows@.len() && s2.follows@[k].person_id == p
        && s2.follows@[k].community_id == c);
    if k < s.follows@.len() {
        assert(s2.follows@[k] == s.follows@[k]);
        assert(s.has_follow(p, c));
    }
    assert(s2.follow_at(p, c) == rel);
    assert(!rel.pending);
    let i = s.community_idx(c);
    assert(0 <= i < s.communities@.len() && s.communities@[i].id == c);
    assert(s2.communities@[i] == s.communities@[i]);
    assert(s2.has_community(c));
    let j = s2.community_idx(c);
    assert(0 <= j < s2.communities@.len() && s2.communities@[j].id == c);
    if i != j {
        assert(s.communities@[j].id == c);
        assert(false);
    }
    assert(s2.community_at(c) == s.community_at(c));
}

/// An identity with an existing relation is owed a successful unfollow;
/// the relation is gone afterwards, and a second unfollow without an
/// intervening follow is refused as a conflict.
///
/// `s2` is the state `follow_community` leaves behind on success, as its
/// contract states it.
pub proof fn lemma_unfollow_then_reunfollow(
    s: Store,
    s2: Store,
    ident: Identity,
    req: FollowRequest,
)
    requires
        s.wf(),
        !req.follow,
        s.has_community(req.community_id),
        s.has_follow(ident.person_id, req.community_id),
        !s2.has_follow(ident.person_id, req.community_id),
        s2.communities@ == s.communities@,
    ensures
        follow_refusal(s, Some(ident), req) is None,
        s2.follow_state_of(ident.person_id, req.community_id) == FollowState::Absent,
        follow_refusal(s2, Some(ident), req) == Some(ApiError::NotFollowing),
{
    let c = req.community_id;
    let i = s.community_idx(c);
    assert(0 <= i < s.communities@.len() && s.communities@[i].id == c);
    assert(s2.communities@[i] == s.communities@[i]);
    assert(s2.has_community(c));
}

/// A submission whose title or body contains a denylisted pattern is
/// refused with the disallowed-content error.  `prepare_post` holds the
/// store immutably, so when it refuses, no row of any table has been
/// written for the submission.
pub proof fn lemma_denylisted_refused(
    s: Store,
    site: SiteConfig,
    ident: Identity,
    req: CreatePostRequest,
)
    requires
        hits_denylist(req.name@, deny_view(site.denylist)) || (req.body is Some && hits_denylist(
            req.body->0@,
            deny_view(site.denylist),
        )),
    ensures
        prepare_refusal(s, site, Some(ident), req) == Some(ApiError::DisallowedContent),
{
}

/// A submission with no URL, or one whose metadata fetch failed, ends
/// with every embed-metadata field empty — while the created row itself
/// stands, since the fetch outcome can never refuse a submission.
pub proof fn lemma_enrichment_degrades(
    p: Post,
    s0: Store,
    site: SiteConfig,
    prepared: PreparedPost,
    fetched: Option<FetchedMetadata>,
)
    requires
        post_matches(p, s0, site, prepared, fetched),
        prepared.url is None || fetched is None,
    ensures
        p.embed_title is None,
        p.embed_description is None,
        p.embed_video_url is None,
        p.thumbnail_url is None,
{
}

/// A well-formed store holds at most one like row per (post, person)
/// key: together with the existence `finish_post` ensures, the
/// creator's upvote exists exactly once.
pub proof fn lemma_like_unique_per_key(s: Store, post: PostId, person: PersonId, i: int, j: int)
    requires
        s.wf(),
        0 <= i < s.likes@.len(),
        0 <= j < s.likes@.len(),
        s.likes@[i].post_id == post,
        s.likes@[i].person_id == person,
        s.likes@[j].post_id == post,
        s.likes@[j].person_id == person,
    ensures
        i == j,
{
}

/// A well-formed store holds at most one read mark per (person, post)
/// key: together with the existence `finish_post` ensures, the
/// creator's read mark exists exactly once.
pub proof fn lemma_read_mark_unique_per_key(
    s: Store,
    person: PersonId,
    post: PostId,
    i: int,
    j: int,
)
    requires
        s.wf(),
        0 <= i < s.read_marks@.len(),
        0 <= j < s.read_marks@.len(),
        s.read_marks@[i].person_id == person,
        s.read_marks@[i].post_id == post,
        s.read_marks@[j].person_id == person,
        s.read_marks@[j].post_id == post,
    ensures
        i == j,
{
}

/// The identifier gap is never observable between requests: a store in
/// which every post is published stays that way across a successful
/// creation, since the new row leaves `finish_post` already carrying its
/// federated identifier.
///
/// `s1` is the state `finish_post` leaves behind on success, as its
/// contract states it.
pub proof fn lemma_publication_gap_unobservable(
    s0: Store,
    s1: Store,
    site: SiteConfig,
    prepared: PreparedPost,
    fetched: Option<FetchedMetadata>,
)
    requires
        all_published(s0),
        s1.posts@.len() == s0.posts@.len() + 1,
        forall|j: int| 0 <= j < s0.posts@.len() ==> s1.posts@[j] == #[trigger] s0.posts@[j],
        post_matches(s1.posts@.last(), s0, site, prepared, fetched),
    ensures
        all_published(s1),
{
    assert forall|i: int| 0 <= i < s1.posts@.len() implies (#[trigger] s1.posts@[i]).ap_id
        is Some by {
        if i < s0.posts@.len() {
            assert(s1.posts@[i] == s0.posts@[i]);
        } else {
            assert(s1.posts@[i] == s1.posts@.last());
        }
    }
}


} // verus!
