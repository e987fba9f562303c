//! The post submission pipeline, split at its one outside fetch.
//!
//! `prepare_post` runs everything up to the moderation gate: credential
//! check, content validation, ban and availability checks, the
//! mods-only restriction.  The host then fetches page metadata for the
//! optional URL — best-effort, bounded, never able to fail the request —
//! and hands whatever came back to `finish_post`, which resolves the
//! language, persists the row, mints and assigns the federated identity,
//! bootstraps the creator's engagement and plans the outbound
//! notification and the realtime broadcast.

use vstd::prelude::*;
use crate::domain::{
    ApiError, BroadcastEvent, CreatePostRequest, FederatedId, FetchedMetadata, Identity,
    LanguageId, NotifyAction, Post, PostCreated, PostId, PostResponse, PreparedPost, SiteConfig,
    clone_post, contains_lang, contains_person,
};
use crate::store::Store;
use crate::text::{clone_text, deny_view, text_view, trim_spec};
use crate::validate::{validate_content, validate_decision};

verus! {

/// Why a submission is refused before enrichment, if it is; `None` means
/// the pipeline proceeds to the fetch.
pub open spec fn prepare_refusal(
    s: Store,
    site: SiteConfig,
    auth: Option<Identity>,
    req: CreatePostRequest,
) -> Option<ApiError> {
    if auth is None {
        Some(ApiError::Unauthorized)
    } else {
        let v = validate_decision(
            req.name@,
            text_view(req.body),
            text_view(req.honeypot),
            deny_view(site.denylist),
        );
        if v is Err {
            Some(v->Err_0)
        } else if !s.has_community(req.community_id) {
            Some(ApiError::CommunityNotFound)
        } else {
            let person = auth->0.person_id;
            let comm = s.community_at(req.community_id);
            if comm.banned@.contains(person) {
                Some(ApiError::BannedFromCommunity)
            } else if comm.deleted || comm.removed {
                Some(ApiError::CommunityUnavailable)
            } else if comm.posting_restricted_to_mods && !(auth->0.admin
                || comm.moderators@.contains(person)) {
                Some(ApiError::PostingRestricted)
            } else {
                None
            }
        }
    }
}

/// Validation and moderation gate of the pipeline; on success the
/// submission is ready for the metadata fetch.
pub fn prepare_post(
    store: &Store,
    site: &SiteConfig,
    auth: Option<Identity>,
    req: CreatePostRequest,
) -> (r: Result<PreparedPost, ApiError>)
    requires
        store.wf(),
    ensures
        match r {
            Err(e) => prepare_refusal(*store, *site, auth, req) == Some(e),
            Ok(p) => {
                &&& prepare_refusal(*store, *site, auth, req) is None
                &&& p.creator == auth->0
                &&& p.name@ == trim_spec(req.name@)
                &&& text_view(p.body) == text_view(req.body)
                &&& text_view(p.url) == text_view(req.url)
                &&& p.community_id == req.community_id
                &&& p.nsfw == req.nsfw
                &&& p.language_id == req.language_id
            },
        },
{
    let ident = match auth {
        Some(i) => i,
        None => {
            return Err(ApiError::Unauthorized);
        },
    };
    let name = match validate_content(&req.name, &req.body, &req.honeypot, &site.denylist) {
        Ok(t) => t,
        Err(e) => {
            return Err(e);
        },
    };
    let cidx = match store.find_community(req.community_id) {
        Some(i) => i,
        None => {
            return Err(ApiError::CommunityNotFound);
        },
    };
    let person = ident.person_id;
    if contains_person(&store.communities[cidx].banned, person) {
        return Err(ApiError::BannedFromCommunity);
    }
    if store.communities[cidx].deleted || store.communities[cidx].removed {
        return Err(ApiError::CommunityUnavailable);
    }
    if store.communities[cidx].posting_restricted_to_mods {
        let standing = ident.admin || contains_person(&store.communities[cidx].moderators, person);
        if !standing {
            return Err(ApiError::PostingRestricted);
        }
    }
    Ok(
        PreparedPost {
            creator: ident,
            name,
            body: req.body,
            url: req.url,
            community_id: req.community_id,
            nsfw: req.nsfw,
            language_id: req.language_id,
        },
    )
}

/// Languages the author writes in that the community also permits.
pub open spec fn common_languages(user: Seq<LanguageId>, comm: Seq<LanguageId>) -> Seq<LanguageId>
    decreases user.len(),
{
    if user.len() == 0 {
        Seq::empty()
    } else {
        let rest = common_languages(user.drop_last(), comm);
        if comm.contains(user.last()) {
            rest.push(user.last())
        } else {
            rest
        }
    }
}

/// Default language of the pairing: the single common one, if exactly
/// one exists.
pub open spec fn default_language(user: Seq<LanguageId>, comm: Seq<LanguageId>) -> Option<
    LanguageId,
> {
    if common_languages(user, comm).len() == 1 {
        Some(common_languages(user, comm)[0])
    } else {
        None
    }
}

/// The language a post ends up declaring: the explicit request value
/// takes precedence, else the pairing's default.
pub open spec fn resolved_language(
    req: Option<LanguageId>,
    user: Seq<LanguageId>,
    comm: Seq<LanguageId>,
) -> Option<LanguageId> {
    match req {
        Some(l) => Some(l),
        None => default_language(user, comm),
    }
}

fn intersect_languages(user: &Vec<LanguageId>, comm: &Vec<LanguageId>) -> (r: Vec<LanguageId>)
    ensures
        r@ == common_languages(user@, comm@),
{
    let mut r: Vec<LanguageId> = Vec::new();
    let mut i: usize = 0;
    while i < user.len()
        invariant
            0 <= i <= user@.len(),
            r@ == common_languages(user@.take(i as int), comm@),
        decreases user@.len() - i,
    {
        proof {
            assert(user@.take(i + 1 as int).drop_last() =~= user@.take(i as int));
            assert(user@.take(i + 1 as int).last() == user@[i as int]);
        }
        if contains_lang(comm, user[i]) {
            r.push(user[i]);
        }
        i += 1;
    }
    proof {
        assert(user@.take(user@.len() as int) =~= user@);
    }
    r
}

/// Why the persistence half refuses a prepared submission, if it does;
/// `None` means the creation is owed to succeed.
pub open spec fn finish_refusal(s: Store, prepared: PreparedPost) -> Option<ApiError> {
    if !s.has_community(prepared.community_id) {
        Some(ApiError::CommunityNotFound)
    } else {
        let comm = s.community_at(prepared.community_id);
        let lang = resolved_language(
            prepared.language_id,
            prepared.creator.languages@,
            comm.languages@,
        );
        if lang is Some && !comm.languages@.contains(lang->0) {
            Some(ApiError::LanguageNotAllowed)
        } else if s.next_post_id == u64::MAX {
            Some(ApiError::CreateFailed)
        } else {
            None
        }
    }
}

/// The embed metadata a post ends up with: what the fetch handed back
/// when there was a URL to fetch, nothing at all otherwise.
pub open spec fn effective_metadata(
    url: Option<Vec<char>>,
    fetched: Option<FetchedMetadata>,
) -> FetchedMetadata {
    match (url, fetched) {
        (Some(_), Some(m)) => m,
        _ => FetchedMetadata {
            title: None,
            description: None,
            embed_video_url: None,
            thumbnail_url: None,
        },
    }
}

/// The row a successful submission stores and returns: every field
/// pinned to the prepared submission, the fetch outcome, the site
/// configuration and the store's row counter and clock.
pub open spec fn post_matches(
    p: Post,
    s0: Store,
    site: SiteConfig,
    prepared: PreparedPost,
    fetched: Option<FetchedMetadata>,
) -> bool {
    let meta = effective_metadata(prepared.url, fetched);
    let comm = s0.community_at(prepared.community_id);
    &&& p.id.0 == s0.next_post_id
    &&& p.name@ == prepared.name@
    &&& text_view(p.body) == text_view(prepared.body)
    &&& text_view(p.url) == text_view(prepared.url)
    &&& p.community_id == prepared.community_id
    &&& p.creator_id == prepared.creator.person_id
    &&& p.nsfw == prepared.nsfw
    &&& text_view(p.embed_title) == text_view(meta.title)
    &&& text_view(p.embed_description) == text_view(meta.description)
    &&& text_view(p.embed_video_url) == text_view(meta.embed_video_url)
    &&& text_view(p.thumbnail_url) == text_view(meta.thumbnail_url)
    &&& p.language_id == resolved_language(
        prepared.language_id,
        prepared.creator.languages@,
        comm.languages@,
    )
    &&& p.ap_id is Some
    &&& p.ap_id->0.host@ == site.host@
    &&& p.ap_id->0.post_id == p.id
    &&& p.published == s0.now
}


/// Every stored post row is fully published: none is left without its
/// federated identifier once a request has completed.
pub open spec fn all_published(s: Store) -> bool {
    forall|i: int| 0 <= i < s.posts@.len() ==> (#[trigger] s.posts@[i]).ap_id is Some
}

/// Persistence half of the pipeline: language resolution, row creation,
/// identity assignment, engagement bootstrap and side-effect planning.
///
/// Once the row exists and carries its identity, nothing after that
/// point can fail the request; the returned side effects are performed
/// by the host after the durability point and their failures are only
/// ever logged.
pub fn finish_post(
    store: &mut Store,
    site: &SiteConfig,
    prepared: PreparedPost,
    fetched: Option<FetchedMetadata>,
) -> (r: Result<PostCreated, ApiError>)
    requires
        old(store).wf(),
    ensures
        final(store).wf(),
        final(store).communities@ == old(store).communities@,
        final(store).follows@ == old(store).follows@,
        final(store).now == old(store).now,
        match r {
            Err(e) => finish_refusal(*old(store), prepared) == Some(e) && *final(store) == *old(
                store,
            ),
            Ok(out) => {
                let person = prepared.creator.person_id;
                let id = out.response.post.id;
                &&& finish_refusal(*old(store), prepared) is None
                &&& final(store).posts@.len() == old(store).posts@.len() + 1
                &&& forall|j: int|
                    0 <= j < old(store).posts@.len() ==> final(store).posts@[j] == #[trigger] old(
                        store,
                    ).posts@[j]
                &&& post_matches(final(store).posts@.last(), *old(store), *site, prepared, fetched)
                &&& final(store).next_post_id == old(store).next_post_id + 1
                &&& post_matches(out.response.post, *old(store), *site, prepared, fetched)
                &&& final(store).posts@.last().id == id
                &&& final(store).has_like(id, person)
                &&& final(store).like_at(id, person).score == 1
                &&& final(store).likes@.len() == old(store).likes@.len() + 1
                &&& final(store).has_read_mark(person, id)
                &&& final(store).read_marks@.len() == old(store).read_marks@.len() + 1
                &&& out.notify is Some <==> prepared.url is Some
                &&& out.notify is Some ==> out.notify->0.source.host@ == site.host@
                    && out.notify->0.source.post_id == id && text_view(Some(out.notify->0.target))
                    == text_view(prepared.url)
                &&& out.broadcast == (BroadcastEvent { post_id: id, creator: person })
            },
        },
{
    let cidx = match store.find_community(prepared.community_id) {
        Some(i) => i,
        None => {
            return Err(ApiError::CommunityNotFound);
        },
    };
    let lang: Option<LanguageId> = match prepared.language_id {
        Some(l) => Some(l),
        None => {
            let commons = intersect_languages(
                &prepared.creator.languages,
                &store.communities[cidx].languages,
            );
            if commons.len() == 1 {
                Some(commons[0])
            } else {
                None
            }
        },
    };
    match lang {
        Some(l) => {
            if !contains_lang(&store.communities[cidx].languages, l) {
                return Err(ApiError::LanguageNotAllowed);
            }
        },
        None => {},
    }
    if store.next_post_id == u64::MAX {
        return Err(ApiError::CreateFailed);
    }
    let meta = if prepared.url.is_some() {
        match fetched {
            Some(m) => m,
            None => FetchedMetadata {
                title: None,
                description: None,
                embed_video_url: None,
                thumbnail_url: None,
            },
        }
    } else {
        FetchedMetadata { title: None, description: None, embed_video_url: None, thumbnail_url: None }
    };
    let id = PostId(store.next_post_id);
    let published = store.now;
    let person = prepared.creator.person_id;
    let row = Post {
        id,
        name: prepared.name,
        body: prepared.body,
        url: prepared.url,
        community_id: prepared.community_id,
        creator_id: person,
        nsfw: prepared.nsfw,
        embed_title: meta.title,
        embed_description: meta.description,
        embed_video_url: meta.embed_video_url,
        thumbnail_url: meta.thumbnail_url,
        language_id: lang,
        ap_id: None,
        published,
    };
    store.push_post(row);
    let ghost pushed = *store;
    let assigned = store.assign_identity(
        id,
        FederatedId { host: clone_text(&site.host), post_id: id },
    );
    assert(assigned);
    store.upsert_like(id, person, 1);
    store.mark_read(person, id);
    proof {
        assert forall|j: int| 0 <= j < old(store).posts@.len() implies store.posts@[j]
            == #[trigger] old(store).posts@[j] by {
            assert(pushed.posts@[j] == old(store).posts@[j]);
            assert(old(store).posts@[j].id.0 < old(store).next_post_id);
            assert(pushed.posts@[j].id != id);
        }
    }
    let resp_post = match store.read_post(id) {
        Some(p) => clone_post(p),
        // the row was just created and nothing since has removed it
        None => vstd::pervasive::unreached(),
    };
    let notify = match &resp_post.url {
        Some(u) => Some(
            NotifyAction {
                source: FederatedId { host: clone_text(&site.host), post_id: id },
                target: clone_text(u),
            },
        ),
        None => None,
    };
    let broadcast = BroadcastEvent { post_id: id, creator: person };
    Ok(PostCreated { response: PostResponse { post: resp_post }, notify, broadcast })
}

} // verus!
