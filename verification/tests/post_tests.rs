use forum_core::domain::{
    ApiError, Community, CommunityId, CreatePostRequest, FetchedMetadata, Identity, LanguageId,
    PersonId, SiteConfig,
};
use forum_core::post::{finish_post, prepare_post};
use forum_core::store::Store;
use forum_core::MAX_TITLE_LEN;

fn text(s: &str) -> Vec<char> {
    s.chars().collect()
}

fn string_of(t: &[char]) -> String {
    t.iter().collect()
}

fn open_community(id: u64) -> Community {
    Community {
        id: CommunityId(id),
        local: true,
        deleted: false,
        removed: false,
        posting_restricted_to_mods: false,
        languages: Vec::new(),
        moderators: Vec::new(),
        banned: Vec::new(),
    }
}

fn author(p: u64) -> Identity {
    Identity { person_id: PersonId(p), admin: false, languages: Vec::new() }
}

fn site(deny: &[&str]) -> SiteConfig {
    SiteConfig {
        denylist: deny.iter().map(|p| text(p)).collect(),
        host: text("https://example.test"),
    }
}

fn request(name: &str) -> CreatePostRequest {
    CreatePostRequest {
        name: text(name),
        body: None,
        url: None,
        community_id: CommunityId(7),
        nsfw: false,
        language_id: None,
        honeypot: None,
    }
}

fn store_with(c: Community) -> Store {
    let mut s = Store::empty();
    assert!(s.add_community(c));
    s
}

fn fetched() -> FetchedMetadata {
    FetchedMetadata {
        title: Some(text("A page")),
        description: Some(text("About something")),
        embed_video_url: None,
        thumbnail_url: Some(text("https://example.test/thumb.png")),
    }
}

#[test]
fn denylisted_title_aborts_before_persistence() {
    let s = store_with(open_community(7));
    let r = prepare_post(&s, &site(&["spam"]), Some(author(3)), request("Buy SPAM today"));
    assert_eq!(r.unwrap_err(), ApiError::DisallowedContent);
    assert_eq!(s.posts.len(), 0);
}

#[test]
fn denylisted_body_aborts_before_persistence() {
    let s = store_with(open_community(7));
    let mut req = request("A fine title");
    req.body = Some(text("hidden sPaM inside"));
    let r = prepare_post(&s, &site(&["spam"]), Some(author(3)), req);
    assert_eq!(r.unwrap_err(), ApiError::DisallowedContent);
    assert_eq!(s.posts.len(), 0);
}

#[test]
fn honeypot_content_reports_generic_failure() {
    let s = store_with(open_community(7));
    let mut req = request("A fine title");
    req.honeypot = Some(text("bot was here"));
    let r = prepare_post(&s, &site(&[]), Some(author(3)), req);
    assert_eq!(r.unwrap_err(), ApiError::InvalidInput);
}

#[test]
fn blank_title_is_invalid() {
    let s = store_with(open_community(7));
    let r = prepare_post(&s, &site(&[]), Some(author(3)), request("   "));
    assert_eq!(r.unwrap_err(), ApiError::InvalidPostTitle);
}

#[test]
fn control_character_in_title_is_invalid() {
    let s = store_with(open_community(7));
    let r = prepare_post(&s, &site(&[]), Some(author(3)), request("bad\u{1}title"));
    assert_eq!(r.unwrap_err(), ApiError::InvalidPostTitle);
}

#[test]
fn submission_without_credential_is_unauthorized() {
    let s = store_with(open_community(7));
    let r = prepare_post(&s, &site(&[]), None, request("A fine title"));
    assert_eq!(r.unwrap_err(), ApiError::Unauthorized);
}

#[test]
fn submission_to_unknown_community_is_reported() {
    let s = Store::empty();
    let r = prepare_post(&s, &site(&[]), Some(author(3)), request("A fine title"));
    assert_eq!(r.unwrap_err(), ApiError::CommunityNotFound);
}

#[test]
fn banned_author_is_refused() {
    let mut c = open_community(7);
    c.banned.push(PersonId(3));
    let s = store_with(c);
    let r = prepare_post(&s, &site(&[]), Some(author(3)), request("A fine title"));
    assert_eq!(r.unwrap_err(), ApiError::BannedFromCommunity);
}

#[test]
fn deleted_community_is_unavailable() {
    let mut c = open_community(7);
    c.deleted = true;
    let s = store_with(c);
    let r = prepare_post(&s, &site(&[]), Some(author(3)), request("A fine title"));
    assert_eq!(r.unwrap_err(), ApiError::CommunityUnavailable);
}

#[test]
fn restricted_community_refuses_non_moderator() {
    let mut c = open_community(7);
    c.posting_restricted_to_mods = true;
    let s = store_with(c);
    let r = prepare_post(&s, &site(&[]), Some(author(3)), request("A fine title"));
    assert_eq!(r.unwrap_err(), ApiError::PostingRestricted);
    assert_eq!(s.posts.len(), 0);
}

#[test]
fn restricted_community_accepts_moderator() {
    let mut c = open_community(7);
    c.posting_restricted_to_mods = true;
    c.moderators.push(PersonId(3));
    let s = store_with(c);
    assert!(prepare_post(&s, &site(&[]), Some(author(3)), request("A fine title")).is_ok());
}

#[test]
fn restricted_community_accepts_administrator() {
    let mut c = open_community(7);
    c.posting_restricted_to_mods = true;
    let s = store_with(c);
    let mut admin = author(3);
    admin.admin = true;
    assert!(prepare_post(&s, &site(&[]), Some(admin), request("A fine title")).is_ok());
}

#[test]
fn title_at_the_limit_succeeds_one_over_fails() {
    let mut s = store_with(open_community(7));
    let at_limit = "t".repeat(MAX_TITLE_LEN);
    let prepared =
        prepare_post(&s, &site(&[]), Some(author(3)), request(&at_limit)).unwrap();
    let out = finish_post(&mut s, &site(&[]), prepared, None).unwrap();
    assert_eq!(string_of(&out.response.post.name).len(), MAX_TITLE_LEN);

    let over = "t".repeat(MAX_TITLE_LEN + 1);
    let r = prepare_post(&s, &site(&[]), Some(author(3)), request(&over));
    assert_eq!(r.unwrap_err(), ApiError::TitleTooLong);
}

#[test]
fn title_is_stored_trimmed() {
    let mut s = store_with(open_community(7));
    let prepared =
        prepare_post(&s, &site(&[]), Some(author(3)), request("  A fine title  ")).unwrap();
    let out = finish_post(&mut s, &site(&[]), prepared, None).unwrap();
    assert_eq!(string_of(&out.response.post.name), "A fine title");
}

#[test]
fn denylist_matching_is_case_insensitive() {
    let s = store_with(open_community(7));
    let r = prepare_post(&s, &site(&["SpAm"]), Some(author(3)), request("plain spam here"));
    assert_eq!(r.unwrap_err(), ApiError::DisallowedContent);
}

#[test]
fn explicit_language_outside_community_set_is_refused() {
    let mut c = open_community(7);
    c.languages.push(LanguageId(1));
    let mut s = store_with(c);
    let mut req = request("A fine title");
    req.language_id = Some(LanguageId(2));
    let prepared = prepare_post(&s, &site(&[]), Some(author(3)), req).unwrap();
    let r = finish_post(&mut s, &site(&[]), prepared, None);
    assert_eq!(r.unwrap_err(), ApiError::LanguageNotAllowed);
    assert_eq!(s.posts.len(), 0);
}

#[test]
fn explicit_language_inside_community_set_is_kept() {
    let mut c = open_community(7);
    c.languages.push(LanguageId(1));
    let mut s = store_with(c);
    let mut req = request("A fine title");
    req.language_id = Some(LanguageId(1));
    let prepared = prepare_post(&s, &site(&[]), Some(author(3)), req).unwrap();
    let out = finish_post(&mut s, &site(&[]), prepared, None).unwrap();
    assert_eq!(out.response.post.language_id, Some(LanguageId(1)));
}

#[test]
fn default_language_is_the_single_common_one() {
    let mut c = open_community(7);
    c.languages.push(LanguageId(1));
    c.languages.push(LanguageId(2));
    let mut s = store_with(c);
    let mut person = author(3);
    person.languages.push(LanguageId(2));
    person.languages.push(LanguageId(9));
    let prepared = prepare_post(&s, &site(&[]), Some(person), request("A fine title")).unwrap();
    let out = finish_post(&mut s, &site(&[]), prepared, None).unwrap();
    assert_eq!(out.response.post.language_id, Some(LanguageId(2)));
}

#[test]
fn ambiguous_pairing_leaves_language_unset() {
    let mut c = open_community(7);
    c.languages.push(LanguageId(1));
    c.languages.push(LanguageId(2));
    let mut s = store_with(c);
    let mut person = author(3);
    person.languages.push(LanguageId(1));
    person.languages.push(LanguageId(2));
    let prepared = prepare_post(&s, &site(&[]), Some(person), request("A fine title")).unwrap();
    let out = finish_post(&mut s, &site(&[]), prepared, None).unwrap();
    assert_eq!(out.response.post.language_id, None);
}

#[test]
fn unreachable_url_degrades_to_empty_metadata() {
    let mut s = store_with(open_community(7));
    let mut req = request("A fine title");
    req.url = Some(text("https://gone.example/x"));
    let prepared = prepare_post(&s, &site(&[]), Some(author(3)), req).unwrap();
    let out = finish_post(&mut s, &site(&[]), prepared, None).unwrap();
    assert!(out.response.post.embed_title.is_none());
    assert!(out.response.post.embed_description.is_none());
    assert!(out.response.post.embed_video_url.is_none());
    assert!(out.response.post.thumbnail_url.is_none());
    assert!(out.response.post.ap_id.is_some());
}

#[test]
fn absent_url_has_empty_metadata_and_no_notification() {
    let mut s = store_with(open_community(7));
    let prepared =
        prepare_post(&s, &site(&[]), Some(author(3)), request("A fine title")).unwrap();
    let out = finish_post(&mut s, &site(&[]), prepared, Some(fetched())).unwrap();
    assert!(out.response.post.embed_title.is_none());
    assert!(out.response.post.thumbnail_url.is_none());
    assert!(out.notify.is_none());
}

#[test]
fn successful_creation_is_fully_published() {
    let mut s = store_with(open_community(7));
    let mut req = request("A fine title");
    req.url = Some(text("https://elsewhere.example/page"));
    req.body = Some(text("Some words"));
    let prepared = prepare_post(&s, &site(&[]), Some(author(3)), req).unwrap();
    let out = finish_post(&mut s, &site(&[]), prepared, Some(fetched())).unwrap();

    let post = &out.response.post;
    let ap_id = post.ap_id.as_ref().expect("a created post carries its identity");
    assert_eq!(string_of(&ap_id.host), "https://example.test");
    assert_eq!(ap_id.post_id, post.id);
    assert_eq!(string_of(post.embed_title.as_ref().unwrap()), "A page");
    assert_eq!(
        string_of(post.embed_description.as_ref().unwrap()),
        "About something"
    );
    assert_eq!(
        string_of(post.thumbnail_url.as_ref().unwrap()),
        "https://example.test/thumb.png"
    );

    let like = s.read_like(post.id, PersonId(3)).expect("creator's own upvote");
    assert_eq!(like.score, 1);
    assert!(s.read_mark_exists(PersonId(3), post.id));
    assert_eq!(s.likes.len(), 1);
    assert_eq!(s.read_marks.len(), 1);
    assert_eq!(s.posts.len(), 1);

    let notify = out.notify.expect("a post with a url plans a notification");
    assert_eq!(string_of(&notify.target), "https://elsewhere.example/page");
    assert_eq!(notify.source.post_id, post.id);
    assert_eq!(out.broadcast.post_id, post.id);
    assert_eq!(out.broadcast.creator, PersonId(3));
}

#[test]
fn row_counter_advances_per_creation() {
    let mut s = store_with(open_community(7));
    let p1 = prepare_post(&s, &site(&[]), Some(author(3)), request("First title")).unwrap();
    let first = finish_post(&mut s, &site(&[]), p1, None).unwrap();
    let p2 = prepare_post(&s, &site(&[]), Some(author(3)), request("Second title")).unwrap();
    let second = finish_post(&mut s, &site(&[]), p2, None).unwrap();
    assert_ne!(first.response.post.id, second.response.post.id);
    assert_eq!(s.posts.len(), 2);
    assert_eq!(s.likes.len(), 2);
    assert_eq!(s.read_marks.len(), 2);
}

#[test]
fn error_wire_codes_are_stable() {
    assert_eq!(ApiError::TitleTooLong.code(), "post_title_too_long");
    assert_eq!(ApiError::PostingRestricted.code(), "only_mods_can_post_in_community");
    assert_eq!(ApiError::AlreadyFollowing.code(), "community_follower_already_exists");
    assert_eq!(ApiError::CreateFailed.code(), "couldnt_create_post");
    assert_eq!(ApiError::LanguageNotAllowed.code(), "language_not_allowed");
}
