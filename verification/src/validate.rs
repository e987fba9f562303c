//! The content validator of the submission pipeline.
//!
//! The checks run unconditionally and in a fixed order — denylist on the
//! title, denylist on the body, the hidden anti-automation field, then the
//! title shape rule — and the first failure wins, so that malicious
//! automation is blocked before anything more expensive runs.

use vstd::prelude::*;
use crate::domain::ApiError;
use crate::text::{
    all_printable, check_printable, deny_view, hits_denylist, matches_denylist, text_view,
    trim_spec, trimmed,
};
use crate::MAX_TITLE_LEN;

verus! {

/// What the validator decides on the given fields: the trimmed title on
/// success, the first failing check's error otherwise.
///
/// The anti-automation failure deliberately reports the same generic code
/// as any malformed input would, so bots receive no signal to adapt.
pub open spec fn validate_decision(
    name: Seq<char>,
    body: Option<Seq<char>>,
    honeypot: Option<Seq<char>>,
    deny: Seq<Seq<char>>,
) -> Result<Seq<char>, ApiError> {
    if hits_denylist(name, deny) {
        Err(ApiError::DisallowedContent)
    } else if body is Some && hits_denylist(body->0, deny) {
        Err(ApiError::DisallowedContent)
    } else if honeypot is Some && honeypot->0.len() > 0 {
        Err(ApiError::InvalidInput)
    } else if trim_spec(name).len() == 0 {
        Err(ApiError::InvalidPostTitle)
    } else if !all_printable(trim_spec(name)) {
        Err(ApiError::InvalidPostTitle)
    } else if trim_spec(name).len() > MAX_TITLE_LEN {
        Err(ApiError::TitleTooLong)
    } else {
        Ok(trim_spec(name))
    }
}

/// Runs the validator; returns the trimmed title ready for persistence.
pub fn validate_content(
    name: &Vec<char>,
    body: &Option<Vec<char>>,
    honeypot: &Option<Vec<char>>,
    deny: &Vec<Vec<char>>,
) -> (r: Result<Vec<char>, ApiError>)
    ensures
        ({
            let d = validate_decision(name@, text_view(*body), text_view(*honeypot), deny_view(*deny));
            match r {
                Ok(t) => d == Ok::<Seq<char>, ApiError>(t@),
                Err(e) => d == Err::<Seq<char>, ApiError>(e),
            }
        }),
{
    if matches_denylist(name, deny) {
        return Err(ApiError::DisallowedContent);
    }
    match body {
        Some(b) => {
            if matches_denylist(b, deny) {
                return Err(ApiError::DisallowedContent);
            }
        },
        None => {},
    }
    match honeypot {
        Some(h) => {
            if h.len() > 0 {
                return Err(ApiError::InvalidInput);
            }
        },
        None => {},
    }
    let t = trimmed(name);
    if t.len() == 0 {
        return Err(ApiError::InvalidPostTitle);
    }
    if !check_printable(&t) {
        return Err(ApiError::InvalidPostTitle);
    }
    if t.len() > MAX_TITLE_LEN {
        return Err(ApiError::TitleTooLong);
    }
    Ok(t)
}

} // verus!
