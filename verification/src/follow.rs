//! The community membership workflow: the follow state machine together
//! with the checks that guard it, and the fresh read projection both
//! branches return.

use vstd::prelude::*;
use crate::domain::{
    ApiError, CommunityId, CommunityResponse, CommunityView, FollowRelation, FollowRequest,
    Identity, PersonId, contains_person,
};
use crate::store::Store;

verus! {

/// Why a membership request is refused, if it is; `None` means the
/// transition is owed to succeed.
///
/// A follow of a local community demands that the caller is not banned
/// and the community is neither deleted nor removed; leaving is always
/// allowed, so an unfollow checks only that a relation exists.
pub open spec fn follow_refusal(s: Store, auth: Option<Identity>, req: FollowRequest) -> Option<
    ApiError,
> {
    if auth is None {
        Some(ApiError::Unauthorized)
    } else if !s.has_community(req.community_id) {
        Some(ApiError::CommunityNotFound)
    } else {
        let person = auth->0.person_id;
        let comm = s.community_at(req.community_id);
        if req.follow {
            if comm.local && comm.banned@.contains(person) {
                Some(ApiError::BannedFromCommunity)
            } else if comm.local && (comm.deleted || comm.removed) {
                Some(ApiError::CommunityUnavailable)
            } else if s.has_follow(person, req.community_id) {
                Some(ApiError::AlreadyFollowing)
            } else {
                None
            }
        } else {
            if !s.has_follow(person, req.community_id) {
                Some(ApiError::NotFollowing)
            } else {
                None
            }
        }
    }
}

/// The relation a successful follow creates: accepted at once for a local
/// community, pending remote acceptance otherwise.
pub open spec fn created_relation(s: Store, person: PersonId, c: CommunityId) -> FollowRelation {
    FollowRelation { person_id: person, community_id: c, pending: !s.community_at(c).local }
}

/// Performs a follow or unfollow and returns a fresh read projection of
/// the community as the caller now sees it.
pub fn follow_community(store: &mut Store, auth: Option<Identity>, req: FollowRequest) -> (r:
    Result<CommunityResponse, ApiError>)
    requires
        old(store).wf(),
    ensures
        final(store).wf(),
        final(store).communities@ == old(store).communities@,
        final(store).posts@ == old(store).posts@,
        final(store).likes@ == old(store).likes@,
        final(store).read_marks@ == old(store).read_marks@,
        final(store).next_post_id == old(store).next_post_id,
        final(store).now == old(store).now,
        match r {
            Err(e) => follow_refusal(*old(store), auth, req) == Some(e) && *final(store) == *old(
                store,
            ),
            Ok(resp) => {
                let person = auth->0.person_id;
                let comm = old(store).community_at(req.community_id);
                &&& follow_refusal(*old(store), auth, req) is None
                &&& req.follow ==> final(store).follows@ == old(store).follows@.push(
                    created_relation(*old(store), person, req.community_id),
                )
                &&& !req.follow ==> !final(store).has_follow(person, req.community_id)
                    && final(store).follows@.len() == old(store).follows@.len() - 1
                &&& resp.community_view.community_id == req.community_id
                &&& resp.community_view.local == comm.local
                &&& resp.community_view.subscriber_count as nat
                    == final(store).subscriber_count_of(req.community_id)
                &&& resp.community_view.follow_state == final(store).follow_state_of(
                    person,
                    req.community_id,
                )
            },
        },
{
    let ident = match auth {
        Some(i) => i,
        None => {
            return Err(ApiError::Unauthorized);
        },
    };
    let cidx = match store.find_community(req.community_id) {
        Some(i) => i,
        None => {
            return Err(ApiError::CommunityNotFound);
        },
    };
    let person = ident.person_id;
    let local = store.communities[cidx].local;
    if req.follow {
        if local {
            if contains_person(&store.communities[cidx].banned, person) {
                return Err(ApiError::BannedFromCommunity);
            }
            if store.communities[cidx].deleted || store.communities[cidx].removed {
                return Err(ApiError::CommunityUnavailable);
            }
        }
        match store.add_follow(person, req.community_id, !local) {
            Ok(()) => {},
            Err(e) => {
                return Err(e);
            },
        }
    } else {
        match store.remove_follow(person, req.community_id) {
            Ok(()) => {},
            Err(e) => {
                return Err(e);
            },
        }
    }
    let count = store.subscriber_count(req.community_id);
    let state = store.follow_state(person, req.community_id);
    Ok(
        CommunityResponse {
            community_view: CommunityView {
                community_id: req.community_id,
                local,
                subscriber_count: count,
                follow_state: state,
            },
        },
    )
}

} // verus!
