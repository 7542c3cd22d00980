//! Endorsements (accounts featured on a profile) and follow suggestions.
use vstd::prelude::*;
use crate::error::{is_unprocessable, unprocessable, ApiError};
use crate::pagination::{
    id_param, limit_view, newest_first_window, opt_int, opt_seq, PageWindow, PaginationParams,
};
use crate::text::owned;
use crate::types;

verus! {

/// Only an account one follows may be endorsed.
pub fn may_endorse(following: bool) -> (r: Result<(), ApiError>)
    ensures
        r is Ok <==> following,
        !following ==> is_unprocessable(
            r,
            "Validation failed: Account must be one you are following"@,
        ),
{
    if following {
        Ok(())
    } else {
        Err(unprocessable("Validation failed: Account must be one you are following"))
    }
}

/// The page of an account's endorsements: 40 by default, at most 80, newest
/// account first, bounded by `max_id` and `since_id`.
pub fn endorsements_page(p: &PaginationParams) -> (r: PageWindow)
    ensures
        r.limit == limit_view(opt_seq(p.limit), 40, 80),
        opt_int(r.max_id) == id_param(opt_seq(p.max_id)),
        opt_int(r.since_id) == id_param(opt_seq(p.since_id)),
        r.min_id is None,
        !r.reads_forward,
{
    newest_first_window(p, 40, 80, false)
}

/// The page of one's own endorsements: as any account's, except that
/// `limit=0` asks for all of them at once, with no `Link` header.
pub fn my_endorsements_page(p: &PaginationParams) -> (r: (PageWindow, bool))
    ensures
        r.1 <==> opt_seq(p.limit) != Some("0"@),
        r.0.limit == (if r.1 {
            limit_view(opt_seq(p.limit), 40, 80)
        } else {
            i64::MAX as int
        }),
        opt_int(r.0.max_id) == id_param(opt_seq(p.max_id)),
        opt_int(r.0.since_id) == id_param(opt_seq(p.since_id)),
        r.0.min_id is None,
        !r.0.reads_forward,
{
    let mut w = newest_first_window(p, 40, 80, false);
    match p.list_members_limit() {
        Some(_) => (w, true),
        None => {
            w.limit = i64::MAX;
            (w, false)
        },
    }
}

/// A follow suggestion: an account that follows the viewer.
pub struct SuggestionV2 {
    pub source: String,
    pub sources: Vec<String>,
    pub account: types::Account,
}

/// The suggestion of an account, from past interactions of friends of
/// friends.
pub fn suggestion(account: types::Account) -> (r: SuggestionV2)
    ensures
        r.source@ == "past_interactions"@,
        r.sources@.len() == 1,
        r.sources@[0]@ == "friends_of_friends"@,
        r.account == account,
{
    let mut sources: Vec<String> = Vec::new();
    sources.push(owned("friends_of_friends"));
    SuggestionV2 { source: owned("past_interactions"), sources, account }
}

} // verus!
