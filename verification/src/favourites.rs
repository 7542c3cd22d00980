//! A user's favourites and bookmarks: the pages they are read in, and what
//! the statuses on them say about the viewer.
use vstd::prelude::*;
use crate::approval::StatusViewerContext;
use crate::pagination::{
    id_param, limit_view, newest_first_window, opt_int, opt_seq, page_window, PageWindow,
    PaginationParams,
};

verus! {

/// The page of `GET /api/v1/favourites`, by the order favourites were
/// given: 20 by default, at most 40, forward from `min_id` or back from
/// `max_id`.
pub fn favourites_page(p: &PaginationParams) -> (r: PageWindow)
    ensures
        r.limit == limit_view(opt_seq(p.limit), 20, 40),
        opt_int(r.min_id) == id_param(opt_seq(p.min_id)),
        r.reads_forward == (r.min_id is Some),
        r.reads_forward ==> r.max_id is None && r.since_id is None,
        !r.reads_forward ==> opt_int(r.max_id) == id_param(opt_seq(p.max_id)) && opt_int(r.since_id)
            == id_param(opt_seq(p.since_id)),
{
    page_window(p, 20, 40)
}

/// A favourite is shown as favourited, whatever else the viewer's context
/// says; a status with no context gets one that says nothing else.
pub fn favourited_context(ctx: Option<StatusViewerContext>, viewer_id: i64) -> (r: StatusViewerContext)
    ensures
        r.favourited,
        match ctx {
            Some(c) => r == (StatusViewerContext { favourited: true, ..c }),
            None => r == (StatusViewerContext {
                account_id: viewer_id,
                follows_author: false,
                author_follows: false,
                favourited: true,
                reblogged: false,
                muted: false,
                bookmarked: false,
                pinned: false,
            }),
        },
{
    let mut c = match ctx {
        Some(c) => c,
        None => StatusViewerContext {
            account_id: viewer_id,
            follows_author: false,
            author_follows: false,
            favourited: true,
            reblogged: false,
            muted: false,
            bookmarked: false,
            pinned: false,
        },
    };
    c.favourited = true;
    c
}

/// The page of `GET /api/v1/bookmarks`: 20 by default, at most 40, newest
/// first, bounded by `max_id` and `since_id`.
pub fn bookmarks_page(p: &PaginationParams) -> (r: PageWindow)
    ensures
        r.limit == limit_view(opt_seq(p.limit), 20, 40),
        opt_int(r.max_id) == id_param(opt_seq(p.max_id)),
        opt_int(r.since_id) == id_param(opt_seq(p.since_id)),
        r.min_id is None,
        !r.reads_forward,
{
    newest_first_window(p, 20, 40, false)
}

/// A bookmarked status as its viewer sees it: bookmarked, and favourited or
/// boosted as looked up.
pub fn bookmark_context(viewer_id: i64, favourited: bool, reblogged: bool) -> (r: StatusViewerContext)
    ensures
        r == (StatusViewerContext {
            account_id: viewer_id,
            follows_author: false,
            author_follows: false,
            favourited,
            reblogged,
            muted: false,
            bookmarked: true,
            pinned: false,
        }),
{
    StatusViewerContext {
        account_id: viewer_id,
        follows_author: false,
        author_follows: false,
        favourited,
        reblogged,
        muted: false,
        bookmarked: true,
        pinned: false,
    }
}

} // verus!
