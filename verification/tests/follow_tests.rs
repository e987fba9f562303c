use forum_core::domain::{
    ApiError, Community, CommunityId, FollowRequest, FollowState, Identity, PersonId,
};
use forum_core::follow::follow_community;
use forum_core::store::Store;

fn community(id: u64) -> Community {
    Community {
        id: CommunityId(id),
        local: true,
        deleted: false,
        removed: false,
        posting_restricted_to_mods: false,
        languages: Vec::new(),
        moderators: Vec::new(),
        banned: Vec::new(),
    }
}

fn ident(p: u64) -> Identity {
    Identity { person_id: PersonId(p), admin: false, languages: Vec::new() }
}

fn store_with(c: Community) -> Store {
    let mut s = Store::empty();
    assert!(s.add_community(c));
    s
}

fn follow_req(id: u64) -> FollowRequest {
    FollowRequest { community_id: CommunityId(id), follow: true }
}

fn unfollow_req(id: u64) -> FollowRequest {
    FollowRequest { community_id: CommunityId(id), follow: false }
}

#[test]
fn follow_local_community_is_accepted_at_once() {
    let mut s = store_with(community(7));
    let r = follow_community(&mut s, Some(ident(3)), follow_req(7)).unwrap();
    assert_eq!(r.community_view.community_id, CommunityId(7));
    assert!(r.community_view.local);
    assert_eq!(r.community_view.follow_state, FollowState::Accepted);
    assert_eq!(r.community_view.subscriber_count, 1);
}

#[test]
fn second_follow_without_unfollow_conflicts() {
    let mut s = store_with(community(7));
    follow_community(&mut s, Some(ident(3)), follow_req(7)).unwrap();
    let r = follow_community(&mut s, Some(ident(3)), follow_req(7));
    assert_eq!(r.unwrap_err(), ApiError::AlreadyFollowing);
    assert_eq!(s.follows.len(), 1);
}

#[test]
fn unfollow_removes_the_relation() {
    let mut s = store_with(community(7));
    follow_community(&mut s, Some(ident(3)), follow_req(7)).unwrap();
    let r = follow_community(&mut s, Some(ident(3)), unfollow_req(7)).unwrap();
    assert_eq!(r.community_view.follow_state, FollowState::Absent);
    assert_eq!(r.community_view.subscriber_count, 0);
    assert_eq!(s.follows.len(), 0);
}

#[test]
fn second_unfollow_conflicts() {
    let mut s = store_with(community(7));
    follow_community(&mut s, Some(ident(3)), follow_req(7)).unwrap();
    follow_community(&mut s, Some(ident(3)), unfollow_req(7)).unwrap();
    let r = follow_community(&mut s, Some(ident(3)), unfollow_req(7));
    assert_eq!(r.unwrap_err(), ApiError::NotFollowing);
}

#[test]
fn unfollow_without_relation_conflicts() {
    let mut s = store_with(community(7));
    let r = follow_community(&mut s, Some(ident(3)), unfollow_req(7));
    assert_eq!(r.unwrap_err(), ApiError::NotFollowing);
}

#[test]
fn follow_remote_community_stays_pending() {
    let mut c = community(9);
    c.local = false;
    let mut s = store_with(c);
    let r = follow_community(&mut s, Some(ident(3)), follow_req(9)).unwrap();
    assert_eq!(r.community_view.follow_state, FollowState::Pending);
    assert_eq!(r.community_view.subscriber_count, 1);
    assert!(!r.community_view.local);
}

#[test]
fn banned_person_cannot_follow_local_community() {
    let mut c = community(7);
    c.banned.push(PersonId(3));
    let mut s = store_with(c);
    let r = follow_community(&mut s, Some(ident(3)), follow_req(7));
    assert_eq!(r.unwrap_err(), ApiError::BannedFromCommunity);
    assert_eq!(s.follows.len(), 0);
}

#[test]
fn deleted_local_community_cannot_be_followed() {
    let mut c = community(7);
    c.deleted = true;
    let mut s = store_with(c);
    let r = follow_community(&mut s, Some(ident(3)), follow_req(7));
    assert_eq!(r.unwrap_err(), ApiError::CommunityUnavailable);
}

#[test]
fn removed_local_community_cannot_be_followed() {
    let mut c = community(7);
    c.removed = true;
    let mut s = store_with(c);
    let r = follow_community(&mut s, Some(ident(3)), follow_req(7));
    assert_eq!(r.unwrap_err(), ApiError::CommunityUnavailable);
}

#[test]
fn unknown_community_is_reported() {
    let mut s = Store::empty();
    let r = follow_community(&mut s, Some(ident(3)), follow_req(42));
    assert_eq!(r.unwrap_err(), ApiError::CommunityNotFound);
}

#[test]
fn missing_credential_is_unauthorized() {
    let mut s = store_with(community(7));
    let r = follow_community(&mut s, None, follow_req(7));
    assert_eq!(r.unwrap_err(), ApiError::Unauthorized);
}

#[test]
fn two_followers_both_counted() {
    let mut s = store_with(community(7));
    follow_community(&mut s, Some(ident(3)), follow_req(7)).unwrap();
    let r = follow_community(&mut s, Some(ident(4)), follow_req(7)).unwrap();
    assert_eq!(r.community_view.subscriber_count, 2);
}
