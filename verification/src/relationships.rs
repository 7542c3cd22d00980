//! Relationships between accounts: the `Relationship` entity built from
//! what is stored about a pair, and the rules of following and muting (who
//! may follow whom, when a follow needs approval, the follow limit, the
//! settings a follow or mute takes).
use vstd::prelude::*;
use crate::error::{is_unprocessable, ApiError};
use crate::models::{mastodon_text, MastodonTimestamp, Timestamp};
use crate::pagination::opt_seq;
use crate::text::{int_text, int_to_string, owned, push_str};

verus! {

/// Mastodon's `Relationship` entity.
pub struct Relationship {
    pub id: String,
    pub following: bool,
    pub showing_reblogs: bool,
    pub notifying: bool,
    pub languages: Option<Vec<String>>,
    pub followed_by: bool,
    pub blocking: bool,
    pub blocked_by: bool,
    pub muting: bool,
    pub muting_notifications: bool,
    pub muting_expires_at: Option<String>,
    pub requested: bool,
    pub requested_by: bool,
    pub domain_blocking: bool,
    pub endorsed: bool,
    pub note: String,
}

/// An accepted follow from the source to the target.
pub struct FollowRow {
    pub show_reblogs: bool,
    pub notify: bool,
    pub languages: Option<Vec<String>>,
}

/// A mute of the target by the source that has not expired.
pub struct MuteRow {
    pub hide_notifications: bool,
    pub expires_at: Option<Timestamp>,
}

/// What is stored about the source's relationship to one target.
pub struct RelationshipFacts {
    pub follow: Option<FollowRow>,
    pub followed_by: bool,
    pub requested: bool,
    pub requested_by: bool,
    pub blocking: bool,
    pub blocked_by: bool,
    pub mute: Option<MuteRow>,
    /// The target's domain is on the source's own domain block list.
    pub domain_blocked: bool,
    pub endorsed: bool,
    pub note: Option<String>,
}

pub open spec fn strings(v: Vec<String>) -> Seq<Seq<char>> {
    v@.map_values(|s: String| s@)
}

/// The languages of a follow; an empty list means all, which is shown as
/// none.
pub open spec fn shown_languages(f: Option<FollowRow>) -> Option<Seq<Seq<char>>> {
    match f {
        Some(row) => match row.languages {
            Some(l) => if l@.len() > 0 {
                Some(strings(l))
            } else {
                None
            },
            None => None,
        },
        None => None,
    }
}

/// The relationship entity of a target, from what is stored about it.
pub open spec fn relationship_holds(r: Relationship, target_id: i64, f: RelationshipFacts) -> bool {
    &&& r.id@ == int_text(target_id as int)
    &&& r.following == f.follow is Some
    &&& r.showing_reblogs == (f.follow matches Some(row) && row.show_reblogs)
    &&& r.notifying == (f.follow matches Some(row) && row.notify)
    &&& match r.languages {
        Some(l) => shown_languages(f.follow) == Some(strings(l)),
        None => shown_languages(f.follow) is None,
    }
    &&& r.followed_by == f.followed_by
    &&& r.blocking == f.blocking
    &&& r.blocked_by == f.blocked_by
    &&& r.muting == f.mute is Some
    &&& r.muting_notifications == (f.mute matches Some(m) && m.hide_notifications)
    &&& opt_seq(r.muting_expires_at) == match f.mute {
        Some(m) => match m.expires_at {
            Some(t) => Some(mastodon_text(t)),
            None => None,
        },
        None => None,
    }
    &&& r.requested == f.requested
    &&& r.requested_by == f.requested_by
    &&& r.domain_blocking == f.domain_blocked
    &&& r.endorsed == f.endorsed
    &&& r.note@ == match f.note {
        Some(n) => n@,
        None => Seq::empty(),
    }
}

fn copy_strings(v: &Vec<String>) -> (r: Vec<String>)
    ensures
        strings(r) == strings(*v),
{
    let mut out: Vec<String> = Vec::new();
    let mut i: usize = 0;
    while i < v.len()
        invariant
            i <= v@.len(),
            strings(out) == strings(*v).take(i as int),
        decreases v.len() - i,
    {
        let ghost before = out@;
        let s = owned(v[i].as_str());
        out.push(s);
        assert(out@ == before.push(s));
        assert(strings(out) =~= before.map_values(|x: String| x@).push(v@[i as int]@));
        assert(strings(out) =~= strings(*v).take(i + 1));
        i = i + 1;
    }
    assert(strings(*v).take(v@.len() as int) =~= strings(*v));
    out
}

/// Builds the relationship entity of one target.
pub fn relationship_of(target_id: i64, f: &RelationshipFacts) -> (r: Relationship)
    ensures
        relationship_holds(r, target_id, *f),
{
    let (following, showing_reblogs, notifying, languages) = match &f.follow {
        Some(row) => {
            let langs = match &row.languages {
                Some(l) => if l.len() > 0 {
                    Some(copy_strings(l))
                } else {
                    None
                },
                None => None,
            };
            (true, row.show_reblogs, row.notify, langs)
        },
        None => (false, false, false, None),
    };
    let (muting, muting_notifications, muting_expires_at) = match &f.mute {
        Some(m) => {
            let e = match &m.expires_at {
                Some(t) => Some((*t).format_mastodon()),
                None => None,
            };
            (true, m.hide_notifications, e)
        },
        None => (false, false, None),
    };
    let note = match &f.note {
        Some(n) => owned(n.as_str()),
        None => String::new(),
    };
    Relationship {
        id: int_to_string(target_id),
        following,
        showing_reblogs,
        notifying,
        languages,
        followed_by: f.followed_by,
        blocking: f.blocking,
        blocked_by: f.blocked_by,
        muting,
        muting_notifications,
        muting_expires_at,
        requested: f.requested,
        requested_by: f.requested_by,
        domain_blocking: f.domain_blocked,
        endorsed: f.endorsed,
        note,
    }
}

/// The relationship entities of a batch of targets, each from what is
/// stored about it.
pub open spec fn relationships_hold(rs: Seq<Relationship>, target_ids: Seq<i64>, facts: Seq<RelationshipFacts>) -> bool {
    &&& rs.len() == target_ids.len()
    &&& forall|i: int| 0 <= i < rs.len() ==> relationship_holds(#[trigger] rs[i], target_ids[i], facts[i])
}

/// Builds the relationship entities of a batch of targets, in the order of
/// their ids, each as `relationship_of` builds it.
pub fn relationships_of(target_ids: &Vec<i64>, facts: &Vec<RelationshipFacts>) -> (r: Vec<Relationship>)
    requires
        target_ids@.len() == facts@.len(),
    ensures
        relationships_hold(r@, target_ids@, facts@),
{
    let mut out: Vec<Relationship> = Vec::new();
    let mut i: usize = 0;
    while i < target_ids.len()
        invariant
            target_ids@.len() == facts@.len(),
            i <= target_ids@.len(),
            out@.len() == i,
            forall|k: int| 0 <= k < i ==> relationship_holds(#[trigger] out@[k], target_ids@[k], facts@[k]),
        decreases target_ids.len() - i,
    {
        let r = relationship_of(target_ids[i], &facts[i]);
        out.push(r);
        i = i + 1;
    }
    out
}

// ── Following ─────────────────────────────────────────────────────────────

/// The body of `POST /api/v1/accounts/:id/follow`.
pub struct FollowParams {
    pub reblogs: Option<bool>,
    pub notify: Option<bool>,
    pub languages: Option<Vec<String>>,
}

/// The settings a follow is made or updated with: reblogs shown unless
/// asked otherwise, no notifications unless asked, all languages unless
/// some are named.
pub struct FollowSettings {
    pub show_reblogs: bool,
    pub notify: bool,
    pub languages: Vec<String>,
}

pub fn follow_settings(p: &FollowParams) -> (r: FollowSettings)
    ensures
        r.show_reblogs == (p.reblogs != Some(false)),
        r.notify == (p.notify == Some(true)),
        strings(r.languages) == match p.languages {
            Some(l) => strings(l),
            None => Seq::empty(),
        },
{
    let langs = match &p.languages {
        Some(l) => copy_strings(l),
        None => {
            let v: Vec<String> = Vec::new();
            assert(strings(v) =~= Seq::<Seq<char>>::empty());
            v
        },
    };
    FollowSettings {
        show_reblogs: match p.reblogs {
            Some(b) => b,
            None => true,
        },
        notify: match p.notify {
            Some(b) => b,
            None => false,
        },
        languages: langs,
    }
}

/// What is known of a follow's target before anything is written.
pub struct FollowTarget {
    pub unavailable: bool,
    pub moved: bool,
    /// Either account blocks the other.
    pub blocked_either: bool,
    /// The target is remote and its domain is blocked, by the instance or by
    /// the requester.
    pub domain_blocked: bool,
}

/// Mastodon's `FollowService` gate: one may not follow oneself (403); an
/// unavailable target is not found (404); a moved, blocked or
/// domain-blocked one may not be followed (403).
pub fn follow_gate(source_id: i64, target_id: i64, t: &FollowTarget) -> (r: Result<(), ApiError>)
    ensures
        source_id == target_id ==> r == Err::<(), ApiError>(ApiError::Forbidden),
        source_id != target_id && t.unavailable ==> r == Err::<(), ApiError>(ApiError::NotFound),
        source_id != target_id && !t.unavailable && (t.moved || t.blocked_either
            || t.domain_blocked) ==> r == Err::<(), ApiError>(ApiError::Forbidden),
        r is Ok <==> (source_id != target_id && !t.unavailable && !t.moved && !t.blocked_either
            && !t.domain_blocked),
{
    if source_id == target_id {
        return Err(ApiError::Forbidden);
    }
    if t.unavailable {
        return Err(ApiError::NotFound);
    }
    if t.moved || t.blocked_either || t.domain_blocked {
        return Err(ApiError::Forbidden);
    }
    Ok(())
}

/// Mastodon's `FollowLimitValidator::LIMIT`.
pub const FOLLOW_LIMIT: i64 = 7_500;

/// `round(followers × 1.1)`, half away from zero, in exact arithmetic.
pub open spec fn ratio_limit(followers: int) -> int {
    (11 * followers + 5) / 10
}

/// How many accounts one may follow: 7 500 while following fewer, then
/// `max(round(followers × 1.1), 7 500)`.
pub open spec fn follow_limit_view(following: int, followers: int) -> int {
    if following < 7500 {
        7500
    } else if ratio_limit(followers) > 7500 {
        ratio_limit(followers)
    } else {
        7500
    }
}

/// The follow limit. Follower counts are never negative; the product is
/// computed exactly, which is what rounding `followers × 1.1` in double
/// precision gives for every count below 2⁵⁰.
pub fn follow_limit(following: i64, followers: i64) -> (r: i64)
    requires
        0 <= followers <= 0x4_0000_0000_0000,
    ensures
        r == follow_limit_view(following as int, followers as int),
{
    if following < FOLLOW_LIMIT {
        FOLLOW_LIMIT
    } else {
        let scaled = (11 * followers + 5) / 10;
        if scaled > FOLLOW_LIMIT {
            scaled
        } else {
            FOLLOW_LIMIT
        }
    }
}

pub open spec fn too_many_follows_message(limit: int) -> Seq<char> {
    "Validation failed: You are trying to follow too many people (limit: "@ + int_text(limit)
        + ")"@
}

/// A new follow or request is refused once the limit is reached.
pub fn check_follow_limit(following: i64, followers: i64) -> (r: Result<(), ApiError>)
    requires
        0 <= followers <= 0x4_0000_0000_0000,
    ensures
        r is Ok <==> following < follow_limit_view(following as int, followers as int),
        r is Err ==> is_unprocessable(
            r,
            too_many_follows_message(follow_limit_view(following as int, followers as int)),
        ),
{
    let limit = follow_limit(following, followers);
    if following >= limit {
        let mut msg = owned("Validation failed: You are trying to follow too many people (limit: ");
        let n = int_to_string(limit);
        push_str(&mut msg, n.as_str());
        push_str(&mut msg, ")");
        Err(ApiError::Unprocessable(msg))
    } else {
        Ok(())
    }
}

/// What a permitted follow does.
pub enum FollowAction {
    /// Already followed: only the settings change.
    UpdateSettings,
    /// Already requested: nothing changes.
    Nothing,
    /// A request to a remote account, delivered as a `Follow` activity.
    RemoteRequest,
    /// A request the target must approve: it is locked, or the requester is
    /// silenced.
    Request,
    /// An accepted follow at once.
    Follow,
}

/// Mastodon's `FollowService`, once the follow is permitted: an existing follow is only
/// updated, a pending request left alone; a new follow of a remote account
/// is a request sent to it; of a locked account, or by a silenced
/// requester, a request; else a follow.
pub fn follow_action(
    already_following: bool,
    already_requested: bool,
    target_remote: bool,
    target_locked: bool,
    requester_silenced: bool,
) -> (r: FollowAction)
    ensures
        already_following ==> r is UpdateSettings,
        !already_following && already_requested ==> r is Nothing,
        !already_following && !already_requested && target_remote ==> r is RemoteRequest,
        !already_following && !already_requested && !target_remote && (target_locked
            || requester_silenced) ==> r is Request,
        !already_following && !already_requested && !target_remote && !target_locked
            && !requester_silenced ==> r is Follow,
{
    if already_following {
        FollowAction::UpdateSettings
    } else if already_requested {
        FollowAction::Nothing
    } else if target_remote {
        FollowAction::RemoteRequest
    } else if target_locked || requester_silenced {
        FollowAction::Request
    } else {
        FollowAction::Follow
    }
}

/// `https://{domain}/users/{username}/follows/{id}`: the id of a `Follow`
/// activity.
pub open spec fn follow_uri_view(domain: Seq<char>, username: Seq<char>, id: int) -> Seq<char> {
    "https://"@ + domain + "/users/"@ + username + "/follows/"@ + int_text(id)
}

pub fn follow_uri(domain: &str, username: &str, id: i64) -> (r: String)
    ensures
        r@ == follow_uri_view(domain@, username@, id as int),
{
    let mut r = owned("https://");
    push_str(&mut r, domain);
    push_str(&mut r, "/users/");
    push_str(&mut r, username);
    push_str(&mut r, "/follows/");
    let n = int_to_string(id);
    push_str(&mut r, n.as_str());
    r
}

// ── Muting ────────────────────────────────────────────────────────────────

/// The body of `POST /api/v1/accounts/:id/mute`.
pub struct MuteParams {
    /// Whether notifications from the account are muted too (default true).
    pub notifications: Option<bool>,
    /// Mute duration in seconds; 0 or absent means indefinite.
    pub duration: Option<i64>,
}

/// The settings a mute is stored with: whether it hides notifications, and
/// for how many seconds from now it lasts (none: indefinitely).
pub struct MuteSettings {
    pub hide_notifications: bool,
    pub expires_in: Option<i64>,
}

pub fn mute_settings(p: &MuteParams) -> (r: MuteSettings)
    ensures
        r.hide_notifications == (p.notifications != Some(false)),
        r.expires_in == match p.duration {
            Some(d) => if d > 0 {
                Some(d)
            } else {
                None
            },
            None => None,
        },
{
    MuteSettings {
        hide_notifications: match p.notifications {
            Some(b) => b,
            None => true,
        },
        expires_in: match p.duration {
            Some(d) => if d > 0 {
                Some(d)
            } else {
                None
            },
            None => None,
        },
    }
}


// ── Blocking ──────────────────────────────────────────────────────────────

/// A follow or follow request that a block removed: who made it, and the id
/// of its `Follow` activity.
pub struct RemovedFollow {
    pub account_id: i64,
    pub uri: Option<String>,
}

/// What a block tells a remote account.
pub enum BlockActivity {
    /// We no longer follow it: `Undo` of our `Follow` with this id.
    UndoFollow(String),
    /// It no longer follows us, or its request is refused: `Reject` of its
    /// `Follow` with this id.
    RejectFollow(String),
    /// The `Block` itself.
    Block,
}

/// The activity of a block, as `(kind, follow id)`: 0 undo, 1 reject, 2 the
/// block.
pub open spec fn activity_view(a: BlockActivity) -> (int, Seq<char>) {
    match a {
        BlockActivity::UndoFollow(u) => (0, u@),
        BlockActivity::RejectFollow(u) => (1, u@),
        BlockActivity::Block => (2, Seq::empty()),
    }
}

pub open spec fn follow_uri_of(f: RemovedFollow) -> Option<Seq<char>> {
    match f.uri {
        Some(u) => if u@.len() > 0 {
            Some(u@)
        } else {
            None
        },
        None => None,
    }
}

/// For each removed follow with an id: an undo of ours, a reject of theirs.
pub open spec fn follow_activities(fs: Seq<RemovedFollow>, blocker_id: i64) -> Seq<(int, Seq<char>)>
    decreases fs.len(),
{
    if fs.len() == 0 {
        Seq::empty()
    } else {
        let before = follow_activities(fs.drop_last(), blocker_id);
        match follow_uri_of(fs.last()) {
            Some(u) => before.push(
                if fs.last().account_id == blocker_id {
                    (0, u)
                } else {
                    (1, u)
                },
            ),
            None => before,
        }
    }
}

/// For each removed request of the target with an id: a reject.
pub open spec fn request_activities(rs: Seq<RemovedFollow>, target_id: i64) -> Seq<(int, Seq<char>)>
    decreases rs.len(),
{
    if rs.len() == 0 {
        Seq::empty()
    } else {
        let before = request_activities(rs.drop_last(), target_id);
        match follow_uri_of(rs.last()) {
            Some(u) => if rs.last().account_id == target_id {
                before.push((1, u))
            } else {
                before
            },
            None => before,
        }
    }
}

/// Mastodon's `BlockService` toward a remote account: undo our follow and
/// reject theirs and their pending request, then block.
pub fn block_activities(
    blocker_id: i64,
    target_id: i64,
    follows: &Vec<RemovedFollow>,
    requests: &Vec<RemovedFollow>,
) -> (r: Vec<BlockActivity>)
    ensures
        r@.map_values(|a: BlockActivity| activity_view(a)) == follow_activities(follows@, blocker_id)
            + request_activities(requests@, target_id) + seq![(2int, Seq::<char>::empty())],
{
    let mut out: Vec<BlockActivity> = Vec::new();
    let mut i: usize = 0;
    while i < follows.len()
        invariant
            i <= follows@.len(),
            out@.map_values(|a: BlockActivity| activity_view(a)) == follow_activities(
                follows@.take(i as int),
                blocker_id,
            ),
        decreases follows.len() - i,
    {
        assert(follows@.take(i + 1).drop_last() =~= follows@.take(i as int));
        let f = &follows[i];
        match &f.uri {
            Some(u) => if crate::text::char_count(u.as_str()) > 0 {
                let ghost before = out@.map_values(|a: BlockActivity| activity_view(a));
                let act = if f.account_id == blocker_id {
                    BlockActivity::UndoFollow(owned(u.as_str()))
                } else {
                    BlockActivity::RejectFollow(owned(u.as_str()))
                };
                let ghost v = activity_view(act);
                out.push(act);
                assert(out@.map_values(|a: BlockActivity| activity_view(a)) =~= before.push(v));
            },
            None => {},
        }
        i = i + 1;
    }
    assert(follows@.take(follows@.len() as int) =~= follows@);
    let ghost first = out@.map_values(|a: BlockActivity| activity_view(a));
    let mut j: usize = 0;
    while j < requests.len()
        invariant
            j <= requests@.len(),
            first == follow_activities(follows@, blocker_id),
            out@.map_values(|a: BlockActivity| activity_view(a)) == first + request_activities(
                requests@.take(j as int),
                target_id,
            ),
        decreases requests.len() - j,
    {
        assert(requests@.take(j + 1).drop_last() =~= requests@.take(j as int));
        let q = &requests[j];
        match &q.uri {
            Some(u) => if crate::text::char_count(u.as_str()) > 0 && q.account_id == target_id {
                let ghost before = out@.map_values(|a: BlockActivity| activity_view(a));
                let act = BlockActivity::RejectFollow(owned(u.as_str()));
                let ghost v = activity_view(act);
                out.push(act);
                assert(out@.map_values(|a: BlockActivity| activity_view(a)) =~= before.push(v));
                assert(first + request_activities(requests@.take(j + 1), target_id) =~= (first
                    + request_activities(requests@.take(j as int), target_id)).push(v));
            },
            None => {},
        }
        j = j + 1;
    }
    assert(requests@.take(requests@.len() as int) =~= requests@);
    let ghost before = out@.map_values(|a: BlockActivity| activity_view(a));
    out.push(BlockActivity::Block);
    assert(out@.map_values(|a: BlockActivity| activity_view(a)) =~= before.push(
        (2int, Seq::<char>::empty()),
    ));
    out
}

/// `https://{domain}/users/{username}/blocks/{target}`: the id of a `Block`.
pub open spec fn block_uri_view(domain: Seq<char>, username: Seq<char>, target_id: int) -> Seq<char> {
    "https://"@ + domain + "/users/"@ + username + "/blocks/"@ + int_text(target_id)
}

pub fn block_uri(domain: &str, username: &str, target_id: i64) -> (r: String)
    ensures
        r@ == block_uri_view(domain@, username@, target_id as int),
{
    let mut r = owned("https://");
    push_str(&mut r, domain);
    push_str(&mut r, "/users/");
    push_str(&mut r, username);
    push_str(&mut r, "/blocks/");
    let n = int_to_string(target_id);
    push_str(&mut r, n.as_str());
    r
}

} // verus!

verus! {

// ── Which accounts a relationships query names ────────────────────────────

/// The integers among the values, in order.
pub open spec fn id_values(vs: Seq<Seq<char>>) -> Seq<i64>
    decreases vs.len(),
{
    if vs.len() == 0 {
        Seq::empty()
    } else {
        let before = id_values(vs.drop_last());
        match crate::pagination::parse_i64_view(vs.last()) {
            Some(v) => before.push(v as i64),
            None => before,
        }
    }
}

/// Whether some pair asks for suspended accounts too (`with_suspended`
/// set to `true` or `1`).
pub open spec fn asks_suspended(pairs: Seq<(Seq<char>, Seq<char>)>) -> bool {
    exists|i: int|
        0 <= i < pairs.len() && (#[trigger] pairs[i]).0 == "with_suspended"@ && (pairs[i].1
            == "true"@ || pairs[i].1 == "1"@)
}

/// What `GET /api/v1/accounts/relationships` asks about.
pub struct RelationshipsQuery {
    /// The accounts, by the `id[]` and `id` pairs that are integers, in order.
    pub ids: Vec<i64>,
    /// Whether suspended accounts are answered for too.
    pub with_suspended: bool,
}

fn int_values(pairs: &Vec<(String, String)>) -> (r: Vec<i64>)
    ensures
        r@ == id_values(
            crate::notifications::values_for(
                crate::notifications::pair_views(pairs@),
                "id"@,
                "id[]"@,
            ),
        ),
{
    let ghost ps = crate::notifications::pair_views(pairs@);
    let mut out: Vec<i64> = Vec::new();
    let mut i: usize = 0;
    while i < pairs.len()
        invariant
            i <= pairs@.len(),
            ps == crate::notifications::pair_views(pairs@),
            ps.len() == pairs@.len(),
            out@ == id_values(crate::notifications::values_for(ps.take(i as int), "id"@, "id[]"@)),
        decreases pairs.len() - i,
    {
        assert(ps.take(i + 1).drop_last() =~= ps.take(i as int));
        assert(ps.take(i + 1).last() == ps[i as int]);
        let (k, v) = &pairs[i];
        if crate::text::str_eq(k.as_str(), "id") || crate::text::str_eq(k.as_str(), "id[]") {
            let ghost before = crate::notifications::values_for(ps.take(i as int), "id"@, "id[]"@);
            assert(crate::notifications::values_for(ps.take(i + 1), "id"@, "id[]"@) =~= before.push(
                v@,
            ));
            assert(crate::notifications::values_for(ps.take(i + 1), "id"@, "id[]"@).drop_last()
                =~= before);
            match crate::pagination::parse_i64(v.as_str()) {
                Some(n) => {
                    out.push(n);
                },
                None => {},
            }
        }
        i = i + 1;
    }
    assert(ps.take(ps.len() as int) =~= ps);
    out
}

fn suspended_asked(pairs: &Vec<(String, String)>) -> (r: bool)
    ensures
        r == asks_suspended(crate::notifications::pair_views(pairs@)),
{
    let ghost ps = crate::notifications::pair_views(pairs@);
    let mut i: usize = 0;
    while i < pairs.len()
        invariant
            i <= pairs@.len(),
            ps == crate::notifications::pair_views(pairs@),
            ps.len() == pairs@.len(),
            forall|j: int|
                0 <= j < i ==> !((#[trigger] ps[j]).0 == "with_suspended"@ && (ps[j].1 == "true"@
                    || ps[j].1 == "1"@)),
        decreases pairs.len() - i,
    {
        let (k, v) = &pairs[i];
        assert(ps[i as int] == (k@, v@));
        if crate::text::str_eq(k.as_str(), "with_suspended") && (crate::text::str_eq(v.as_str(), "true")
            || crate::text::str_eq(v.as_str(), "1")) {
            return true;
        }
        i = i + 1;
    }
    false
}

/// Reads the relationships query from the raw query string.
pub fn relationships_query(qs: Option<&str>) -> (r: RelationshipsQuery)
    ensures
        ({
            let pairs = crate::notifications::form_decoded_pairs(
                match qs {
                    Some(q) => q@,
                    None => Seq::empty(),
                },
            );
            &&& r.ids@ == id_values(crate::notifications::values_for(pairs, "id"@, "id[]"@))
            &&& r.with_suspended == asks_suspended(pairs)
        }),
{
    let q = match qs {
        Some(q) => q,
        None => "",
    };
    proof {
        reveal_strlit("");
        assert(""@ =~= Seq::<char>::empty());
        assert(q@ == match qs {
            Some(q) => q@,
            None => Seq::<char>::empty(),
        });
    }
    let pairs = crate::notifications::form_pairs(q);
    RelationshipsQuery { ids: int_values(&pairs), with_suspended: suspended_asked(&pairs) }
}

/// The ids that are still answered for: those among `allowed`, in order.
pub open spec fn kept_ids(ids: Seq<i64>, allowed: Seq<i64>) -> Seq<i64> {
    ids.filter(|id: i64| allowed.contains(id))
}

/// Keeps the ids of accounts that are neither suspended nor being deleted.
pub fn keep_allowed(ids: &Vec<i64>, allowed: &Vec<i64>) -> (r: Vec<i64>)
    ensures
        r@ == kept_ids(ids@, allowed@),
{
    let mut out: Vec<i64> = Vec::new();
    let mut i: usize = 0;
    while i < ids.len()
        invariant
            i <= ids@.len(),
            out@ == kept_ids(ids@.take(i as int), allowed@),
        decreases ids.len() - i,
    {
        assert(ids@.take(i + 1).drop_last() =~= ids@.take(i as int));
        let id = ids[i];
        proof {
            assert(ids@.take(i + 1) =~= ids@.take(i as int).push(id));
            reveal(Seq::filter);
            assert(ids@.take(i + 1).drop_last() =~= ids@.take(i as int));
        }
        if crate::batch::contains_id(allowed, id) {
            out.push(id);
        }
        i = i + 1;
    }
    assert(ids@.take(ids@.len() as int) =~= ids@);
    out
}

} // verus!
