//! Announcements: the entity a viewer sees (with the reactions grouped per
//! announcement and the viewer's own marked), and which reactions may be
//! given.
use vstd::prelude::*;
use crate::error::{unprocessable, ApiError};
use crate::models::{mastodon_date, mastodon_text, Timestamp};
use crate::text::{int_text, int_to_string, owned, str_eq};
use crate::types;
use crate::urls::opt_view;

verus! {

/// At most this many distinct reactions may be given to an announcement.
pub const REACTION_LIMIT: i64 = 8;

/// Whether `name` is a Unicode emoji, in any of its qualified forms.
pub uninterp spec fn unicode_emoji(name: Seq<char>) -> bool;

/// `emojis::get(name).is_some()`. The crate's table is fixed at build time,
/// so the answer depends on `name` alone; which strings it holds is not
/// stated here.
#[verifier::external_body]
fn is_unicode_emoji(name: &str) -> (r: bool)
    ensures
        r == unicode_emoji(name@),
{
    emojis::get(name).is_some()
}

/// Why a reaction is refused, if it is: its name must be a local enabled
/// custom emoji or a Unicode emoji, and a new name may not be the ninth.
pub open spec fn reaction_error(custom_emoji: bool, unicode: bool, name_exists: bool, other_names: i64) -> Option<
    Seq<char>,
> {
    if !custom_emoji && !unicode {
        Some("Unrecognized emoji"@)
    } else if !name_exists && other_names >= 8 {
        Some("Reaction limit reached"@)
    } else {
        None
    }
}

fn answer(e: Option<&'static str>) -> (r: Result<(), ApiError>)
    ensures
        match e {
            Some(m) => r matches Err(ApiError::Unprocessable(t)) && t@ == m@,
            None => r is Ok,
        },
{
    match e {
        Some(m) => Err(unprocessable(m)),
        None => Ok(()),
    }
}

/// The reaction rules on values already looked up: whether a custom emoji
/// of that name exists, whether the name is a Unicode emoji, whether the
/// announcement has the reaction already, and how many other names it has.
pub fn reaction_verdict(custom_emoji: bool, unicode: bool, name_exists: bool, other_names: i64) -> (r:
    Result<(), ApiError>)
    ensures
        match reaction_error(custom_emoji, unicode, name_exists, other_names) {
            Some(m) => r matches Err(ApiError::Unprocessable(t)) && t@ == m,
            None => r is Ok,
        },
{
    if !custom_emoji && !unicode {
        answer(Some("Unrecognized emoji"))
    } else if !name_exists && other_names >= REACTION_LIMIT {
        answer(Some("Reaction limit reached"))
    } else {
        answer(None)
    }
}

/// `PUT /api/v1/announcements/:id/reactions/:name`: checks the reaction
/// `name`; the emoji table is only asked when no custom emoji matched.
pub fn check_reaction(custom_emoji: bool, name: &str, name_exists: bool, other_names: i64) -> (r:
    Result<(), ApiError>)
    ensures
        match reaction_error(
            custom_emoji,
            custom_emoji || unicode_emoji(name@),
            name_exists,
            other_names,
        ) {
            Some(m) => r matches Err(ApiError::Unprocessable(t)) && t@ == m,
            None => r is Ok,
        },
{
    let unicode = if custom_emoji {
        true
    } else {
        is_unicode_emoji(name)
    };
    reaction_verdict(custom_emoji, unicode, name_exists, other_names)
}

// ── The entity ─────────────────────────────────────────────────────────────

/// A published announcement as stored.
pub struct AnnouncementRow {
    pub id: i64,
    pub all_day: bool,
    pub starts_at: Option<Timestamp>,
    pub ends_at: Option<Timestamp>,
    pub published_at: Option<Timestamp>,
    pub updated_at: Timestamp,
}

/// How many accounts gave a reaction to an announcement, with the image of
/// its custom emoji.
pub struct ReactionRow {
    pub announcement_id: i64,
    pub name: String,
    pub count: i64,
    pub image_remote_url: Option<String>,
}

/// A reaction as `(name, count, me, url)`.
pub open spec fn reaction_view(r: types::AnnouncementReaction) -> (Seq<char>, i64, bool, Option<Seq<char>>) {
    (r.name@, r.count, r.me, opt_view(r.url))
}

/// The viewer's own reactions, as `(announcement, name)`.
pub open spec fn mine_view(mine: Seq<(i64, String)>) -> Seq<(i64, Seq<char>)> {
    mine.map_values(|p: (i64, String)| (p.0, p.1@))
}

/// The reactions of announcement `id`, in the order of the rows, each marked
/// when the viewer gave it.
pub open spec fn reactions_of(rows: Seq<ReactionRow>, mine: Seq<(i64, Seq<char>)>, id: i64) -> Seq<
    (Seq<char>, i64, bool, Option<Seq<char>>),
>
    decreases rows.len(),
{
    if rows.len() == 0 {
        Seq::empty()
    } else {
        let before = reactions_of(rows.drop_last(), mine, id);
        let row = rows.last();
        if row.announcement_id == id {
            before.push((row.name@, row.count, mine.contains((id, row.name@)), opt_view(row.image_remote_url)))
        } else {
            before
        }
    }
}

/// Whether the viewer gave reaction `name` to announcement `id`.
pub fn gave_reaction(mine: &Vec<(i64, String)>, id: i64, name: &str) -> (r: bool)
    ensures
        r == mine_view(mine@).contains((id, name@)),
{
    let mut i: usize = 0;
    while i < mine.len()
        invariant
            i <= mine@.len(),
            forall|j: int| 0 <= j < i ==> #[trigger] mine_view(mine@)[j] != (id, name@),
        decreases mine.len() - i,
    {
        if mine[i].0 == id && str_eq(mine[i].1.as_str(), name) {
            assert(mine_view(mine@)[i as int] == (id, name@));
            return true;
        }
        assert(mine_view(mine@)[i as int] == (mine@[i as int].0, mine@[i as int].1@));
        i = i + 1;
    }
    false
}

fn copy_opt(s: &Option<String>) -> (r: Option<String>)
    ensures
        opt_view(r) == opt_view(*s),
{
    match s {
        Some(t) => Some(owned(t.as_str())),
        None => None,
    }
}

/// The reactions of announcement `id`.
pub fn announcement_reactions(rows: &Vec<ReactionRow>, mine: &Vec<(i64, String)>, id: i64) -> (r: Vec<
    types::AnnouncementReaction,
>)
    ensures
        r@.map_values(|x: types::AnnouncementReaction| reaction_view(x)) == reactions_of(
            rows@,
            mine_view(mine@),
            id,
        ),
        forall|k: int| 0 <= k < r@.len() ==> opt_view(#[trigger] r@[k].static_url) == opt_view(r@[k].url),
{
    let mut out: Vec<types::AnnouncementReaction> = Vec::new();
    let mut i: usize = 0;
    while i < rows.len()
        invariant
            i <= rows@.len(),
            out@.map_values(|x: types::AnnouncementReaction| reaction_view(x)) == reactions_of(
                rows@.take(i as int),
                mine_view(mine@),
                id,
            ),
            forall|k: int| 0 <= k < out@.len() ==> opt_view(#[trigger] out@[k].static_url) == opt_view(
                out@[k].url,
            ),
        decreases rows.len() - i,
    {
        assert(rows@.take(i + 1).drop_last() =~= rows@.take(i as int));
        assert(rows@.take(i + 1).last() == rows@[i as int]);
        let row = &rows[i];
        if row.announcement_id == id {
            let me = gave_reaction(mine, id, row.name.as_str());
            let x = types::AnnouncementReaction {
                name: owned(row.name.as_str()),
                count: row.count,
                me,
                url: copy_opt(&row.image_remote_url),
                static_url: copy_opt(&row.image_remote_url),
            };
            let ghost before = out@.map_values(|x: types::AnnouncementReaction| reaction_view(x));
            let ghost v = reaction_view(x);
            out.push(x);
            assert(out@.map_values(|x: types::AnnouncementReaction| reaction_view(x)) =~= before.push(
                v,
            ));
        }
        i = i + 1;
    }
    assert(rows@.take(rows@.len() as int) =~= rows@);
    out
}

fn opt_date(t: Option<Timestamp>) -> (r: Option<String>)
    ensures
        opt_view(r) == match t {
            Some(d) => Some(mastodon_text(d)),
            None => None,
        },
{
    match t {
        Some(d) => Some(mastodon_date(d)),
        None => None,
    }
}

/// Whether announcement `id` is among those the viewer dismissed.
pub fn dismissed(ids: &Vec<i64>, id: i64) -> (r: bool)
    ensures
        r == ids@.contains(id),
{
    crate::batch::contains_id(ids, id)
}

/// The `Announcement` entity of a published announcement whose text was
/// rendered as `content`. `read` says whether the viewer dismissed it, and is
/// left out when no one is signed in.
pub fn announcement_entity(
    row: &AnnouncementRow,
    content: String,
    viewer: bool,
    dismissed_ids: &Vec<i64>,
    reactions: &Vec<ReactionRow>,
    mine: &Vec<(i64, String)>,
) -> (r: types::Announcement)
    ensures
        r.id@ == int_text(row.id as int),
        r.content@ == content@,
        r.all_day == row.all_day,
        opt_view(r.starts_at) == match row.starts_at {
            Some(d) => Some(mastodon_text(d)),
            None => None,
        },
        opt_view(r.ends_at) == match row.ends_at {
            Some(d) => Some(mastodon_text(d)),
            None => None,
        },
        r.published_at@ == match row.published_at {
            Some(d) => mastodon_text(d),
            None => Seq::empty(),
        },
        r.updated_at@ == mastodon_text(row.updated_at),
        r.read == (if viewer {
            Some(dismissed_ids@.contains(row.id))
        } else {
            None
        }),
        r.reactions@.map_values(|x: types::AnnouncementReaction| reaction_view(x)) == reactions_of(
            reactions@,
            mine_view(mine@),
            row.id,
        ),
        r.statuses@.len() == 0,
        r.tags@.len() == 0,
        r.emojis@.len() == 0,
        r.mentions@.len() == 0,
{
    let published_at = match row.published_at {
        Some(d) => mastodon_date(d),
        None => String::new(),
    };
    types::Announcement {
        id: int_to_string(row.id),
        content,
        all_day: row.all_day,
        starts_at: opt_date(row.starts_at),
        ends_at: opt_date(row.ends_at),
        published_at,
        updated_at: mastodon_date(row.updated_at),
        read: if viewer {
            Some(dismissed(dismissed_ids, row.id))
        } else {
            None
        },
        reactions: announcement_reactions(reactions, mine, row.id),
        statuses: Vec::new(),
        tags: Vec::new(),
        emojis: Vec::new(),
        mentions: Vec::new(),
    }
}

} // verus!
