//! Verified core of a federated content-sharing platform.
//!
//! Two user-facing workflows are modelled and proved here: the community
//! membership transition (follow / unfollow) and the post submission
//! pipeline (validation, enrichment, persistence, identity assignment,
//! engagement bootstrap, notification planning).  Storage is held as an
//! in-memory table set with explicit invariants; the fallible outside
//! collaborators (credential resolution, metadata fetch, outbound
//! notification, realtime broadcast) appear as plain input values and
//! planned side effects, so that every decision the core takes is a
//! verified function.

use vstd::prelude::*;

pub mod domain;
pub mod follow;
pub mod laws;
pub mod post;
pub mod store;
pub mod text;
pub mod validate;

verus! {

/// Largest number of characters a post title may hold once trimmed.
pub const MAX_TITLE_LEN: usize = 200;

} // verus!
