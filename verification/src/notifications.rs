//! Notifications: the filters a listing takes from its query string, the
//! paging plan of a listing, the notification policy and its forms, and the
//! unread count's limit.
use vstd::prelude::*;
use crate::pagination::{id_param, limit_view, opt_int, opt_seq, parse_i64, parse_i64_view, query_pieces, PaginationParams};
use crate::error::ApiError;
use crate::json::JsonValue;
use crate::models::{mastodon_date, mastodon_text, Timestamp};
use crate::text::{int_text, int_to_string, owned, push_str, split_once, str_eq};
use crate::types;

verus! {

// ── Query-string filters ──────────────────────────────────────────────────

/// What `url::form_urlencoded::parse` yields for a query string: its
/// `&`-separated, non-empty pieces split at the first `=`, each side with `+`
/// read as a space and percent-decoded (invalid UTF-8 replaced).
pub uninterp spec fn form_decoded_pairs(query: Seq<char>) -> Seq<(Seq<char>, Seq<char>)>;

/// The views of a list of pairs of strings.
pub open spec fn pair_views(v: Seq<(String, String)>) -> Seq<(Seq<char>, Seq<char>)> {
    v.map_values(|p: (String, String)| (p.0@, p.1@))
}

/// Calls `url::form_urlencoded::parse` and keeps each pair as owned strings.
/// An empty query has no pairs, as the iterator's source shows.
#[verifier::external_body]
pub(crate) fn form_pairs(query: &str) -> (r: Vec<(String, String)>)
    ensures
        pair_views(r@) == form_decoded_pairs(query@),
        query@.len() == 0 ==> r@.len() == 0,
{
    url::form_urlencoded::parse(query.as_bytes()).into_owned().collect()
}

/// The values of the pairs whose key is `plain` or `bracket`, in order.
pub open spec fn values_for(pairs: Seq<(Seq<char>, Seq<char>)>, plain: Seq<char>, bracket: Seq<char>) -> Seq<
    Seq<char>,
>
    decreases pairs.len(),
{
    if pairs.len() == 0 {
        Seq::empty()
    } else {
        let before = values_for(pairs.drop_last(), plain, bracket);
        let (k, v) = pairs.last();
        if k == plain || k == bracket {
            before.push(v)
        } else {
            before
        }
    }
}

/// The value of the first pair whose key is `key`.
pub open spec fn first_value(pairs: Seq<(Seq<char>, Seq<char>)>, key: Seq<char>) -> Option<Seq<char>>
    decreases pairs.len(),
{
    if pairs.len() == 0 {
        None
    } else if pairs[0].0 == key {
        Some(pairs[0].1)
    } else {
        first_value(pairs.drop_first(), key)
    }
}

/// `types[]`, `exclude_types[]`, `account_id` and `include_filtered` of a
/// notifications listing.
pub struct NotifFilters {
    pub types: Option<Vec<String>>,
    pub exclude_types: Option<Vec<String>>,
    pub account_id: Option<i64>,
    pub include_filtered: bool,
}

pub open spec fn opt_values(v: Option<Vec<String>>) -> Option<Seq<Seq<char>>> {
    match v {
        Some(xs) => Some(xs@.map_values(|x: String| x@)),
        None => None,
    }
}

pub open spec fn nonempty_values(vs: Seq<Seq<char>>) -> Option<Seq<Seq<char>>> {
    if vs.len() == 0 {
        None
    } else {
        Some(vs)
    }
}

/// What the filters of a listing are, given its decoded pairs: the values
/// of `types`/`types[]` and `exclude_types`/`exclude_types[]` (none when there
/// are none), the first `account_id` when it is an integer, and whether the
/// first `include_filtered` is `true` or `1`.
pub open spec fn filters_hold(f: NotifFilters, pairs: Seq<(Seq<char>, Seq<char>)>) -> bool {
    &&& opt_values(f.types) == nonempty_values(values_for(pairs, "types"@, "types[]"@))
    &&& opt_values(f.exclude_types) == nonempty_values(
        values_for(pairs, "exclude_types"@, "exclude_types[]"@),
    )
    &&& f.account_id == match first_value(pairs, "account_id"@) {
        Some(v) => match parse_i64_view(v) {
            Some(n) => Some(n as i64),
            None => None,
        },
        None => None,
    }
    &&& f.include_filtered == match first_value(pairs, "include_filtered"@) {
        Some(v) => v == "true"@ || v == "1"@,
        None => false,
    }
}

fn collect_values(pairs: &Vec<(String, String)>, plain: &str, bracket: &str) -> (r: Option<Vec<String>>)
    ensures
        opt_values(r) == nonempty_values(values_for(pair_views(pairs@), plain@, bracket@)),
{
    let ghost ps = pair_views(pairs@);
    let mut out: Vec<String> = Vec::new();
    let n = pairs.len();
    let mut i: usize = 0;
    while i < n
        invariant
            n == pairs@.len(),
            ps == pair_views(pairs@),
            i <= n,
            out@.map_values(|x: String| x@) == values_for(ps.subrange(0, i as int), plain@, bracket@),
        decreases n - i,
    {
        assert(ps.subrange(0, i + 1).drop_last() =~= ps.subrange(0, i as int));
        assert(ps.subrange(0, i + 1).last() == ps[i as int]);
        let (k, v) = &pairs[i];
        if str_eq(k.as_str(), plain) || str_eq(k.as_str(), bracket) {
            let ghost before = out@;
            out.push(owned(v.as_str()));
            assert(out@.map_values(|x: String| x@) =~= before.map_values(|x: String| x@).push(v@));
        }
        i = i + 1;
    }
    assert(ps.subrange(0, n as int) =~= ps);
    if out.len() == 0 {
        None
    } else {
        Some(out)
    }
}

fn first_pair_value(pairs: &Vec<(String, String)>, key: &str) -> (r: Option<String>)
    ensures
        opt_seq(r) == first_value(pair_views(pairs@), key@),
{
    let ghost ps = pair_views(pairs@);
    let n = pairs.len();
    let mut i: usize = 0;
    assert(ps.subrange(0, n as int) =~= ps);
    while i < n
        invariant
            n == pairs@.len(),
            ps == pair_views(pairs@),
            i <= n,
            first_value(ps, key@) == first_value(ps.subrange(i as int, n as int), key@),
        decreases n - i,
    {
        assert(ps.subrange(i as int, n as int)[0] == ps[i as int]);
        let (k, v) = &pairs[i];
        if str_eq(k.as_str(), key) {
            return Some(owned(v.as_str()));
        }
        assert(ps.subrange(i as int, n as int).drop_first() =~= ps.subrange(i + 1, n as int));
        i = i + 1;
    }
    None
}

/// The filters of a listing from its decoded query pairs.
pub fn filters_from_pairs(pairs: &Vec<(String, String)>) -> (f: NotifFilters)
    ensures
        filters_hold(f, pair_views(pairs@)),
{
    let types = collect_values(pairs, "types", "types[]");
    let exclude_types = collect_values(pairs, "exclude_types", "exclude_types[]");
    let account_id = match first_pair_value(pairs, "account_id") {
        Some(v) => parse_i64(v.as_str()),
        None => None,
    };
    let include_filtered = match first_pair_value(pairs, "include_filtered") {
        Some(v) => str_eq(v.as_str(), "true") || str_eq(v.as_str(), "1"),
        None => false,
    };
    NotifFilters { types, exclude_types, account_id, include_filtered }
}

/// Reads `types[]=x`, `types=x`, `exclude_types[]=x`, `exclude_types=x`,
/// `account_id=x` and `include_filtered=true` from a raw query string.
pub fn parse_notif_filters(qs: Option<&str>) -> (f: NotifFilters)
    ensures
        filters_hold(
            f,
            form_decoded_pairs(
                match qs {
                    Some(q) => q@,
                    None => Seq::empty(),
                },
            ),
        ),
        qs is None ==> f.types is None && f.exclude_types is None && f.account_id is None
            && !f.include_filtered,
{
    let q = match qs {
        Some(q) => q,
        None => "",
    };
    proof {
        reveal_strlit("");
    }
    assert(q@ == match qs {
        Some(q) => q@,
        None => Seq::<char>::empty(),
    });
    let pairs = form_pairs(q);
    let f = filters_from_pairs(&pairs);
    proof {
        if qs is None {
            assert(pair_views(pairs@).len() == 0);
            assert(values_for(pair_views(pairs@), "types"@, "types[]"@).len() == 0);
            assert(values_for(pair_views(pairs@), "exclude_types"@, "exclude_types[]"@).len() == 0);
        }
    }
    f
}

/// Filtered notifications are left out unless asked for, or unless the
/// listing is narrowed to one account.
pub fn exclude_filtered(f: &NotifFilters) -> (r: bool)
    ensures
        r == (!f.include_filtered && f.account_id is None),
{
    !f.include_filtered && f.account_id.is_none()
}

// ── The listing's page ─────────────────────────────────────────────────────

/// How a page of notifications is read: at most `limit` rows below `max_id`
/// and above `since_id`, or, when `min_id` is given, the `limit` rows just
/// above it (read forward from it). Either way the page is served newest
/// first (`newest_first`).
pub struct NotificationPage {
    pub limit: i64,
    pub max_id: Option<i64>,
    pub since_id: Option<i64>,
    pub min_id: Option<i64>,
    pub reads_forward: bool,
}

/// The page of `GET /api/v1/notifications`: 40 by default, at most 80.
pub fn notification_page(p: &PaginationParams) -> (r: NotificationPage)
    ensures
        r.limit == limit_view(opt_seq(p.limit), 40, 80),
        opt_int(r.min_id) == id_param(opt_seq(p.min_id)),
        r.reads_forward == (r.min_id is Some),
        r.reads_forward ==> r.max_id is None && r.since_id is None,
        !r.reads_forward ==> opt_int(r.max_id) == id_param(opt_seq(p.max_id)) && opt_int(r.since_id)
            == id_param(opt_seq(p.since_id)),
{
    let limit = p.limit_clamped(40, 80);
    let min_id = p.min_id_value();
    match min_id {
        Some(_) => NotificationPage { limit, max_id: None, since_id: None, min_id, reads_forward: true },
        None => NotificationPage {
            limit,
            max_id: p.max_id_value(),
            since_id: p.since_id_value(),
            min_id: None,
            reads_forward: false,
        },
    }
}

/// The key of a notification that is grouped with no other.
pub open spec fn ungrouped_key_view(id: int) -> Seq<char> {
    "ungrouped-"@ + crate::text::int_text(id)
}

pub fn ungrouped_key(id: i64) -> (r: String)
    ensures
        r@ == ungrouped_key_view(id as int),
{
    let mut r = owned("ungrouped-");
    let n = int_to_string(id);
    push_str(&mut r, n.as_str());
    r
}

/// The report a notification is about: its activity, when that is a
/// `Report`.
pub fn notification_report_id(activity_type: &Option<String>, activity_id: Option<i64>) -> (r: Option<
    i64,
>)
    ensures
        r == (if opt_seq(*activity_type) == Some("Report"@) {
            activity_id
        } else {
            None
        }),
{
    match activity_type {
        Some(t) => if str_eq(t.as_str(), "Report") {
            activity_id
        } else {
            None
        },
        None => None,
    }
}

/// Whether a notification's report is fetched with the page's batch: an
/// `admin.report` notification whose activity is a `Report`.
pub fn is_report_notification(kind: &Option<String>, activity_type: &Option<String>) -> (r: bool)
    ensures
        r == (opt_seq(*kind) == Some("admin.report"@) && opt_seq(*activity_type) == Some(
            "Report"@,
        )),
{
    match (kind, activity_type) {
        (Some(k), Some(t)) => str_eq(k.as_str(), "admin.report") && str_eq(t.as_str(), "Report"),
        _ => false,
    }
}

/// `expand_accounts` from a raw query: the value of the first `&`-piece
/// that has an `=` and the key `expand_accounts`; empty when there is none.
pub open spec fn expand_accounts_view(q: Seq<char>) -> Seq<char> {
    match expand_in(crate::pagination::query_pairs(q)) {
        Some(v) => v,
        None => Seq::empty(),
    }
}

pub open spec fn expand_in(pieces: Seq<Seq<char>>) -> Option<Seq<char>>
    decreases pieces.len(),
{
    if pieces.len() == 0 {
        None
    } else {
        match crate::text::split_once_view(pieces[0], seq!['=']) {
            Some((k, v)) if k == "expand_accounts"@ => Some(v),
            _ => expand_in(pieces.drop_first()),
        }
    }
}

/// Reads `expand_accounts` from a raw query string.
pub fn expand_accounts(qs: Option<&str>) -> (r: String)
    ensures
        r@ == match qs {
            Some(q) => expand_accounts_view(q@),
            None => Seq::empty(),
        },
{
    match qs {
        Some(q) => expand_in_query(q),
        None => String::new(),
    }
}

fn expand_in_query(q: &str) -> (r: String)
    ensures
        r@ == expand_accounts_view(q@),
{
    let pieces = query_pieces(q);
    let ghost ps = pieces@.map_values(|s: String| s@);
    let n = pieces.len();
    let mut i: usize = 0;
    assert(ps.subrange(0, n as int) =~= ps);
    while i < n
        invariant
            n == pieces@.len(),
            ps == pieces@.map_values(|s: String| s@),
            ps == crate::pagination::query_pairs(q@),
            i <= n,
            expand_in(ps) == expand_in(ps.subrange(i as int, n as int)),
        decreases n - i,
    {
        assert(ps.subrange(i as int, n as int)[0] == pieces@[i as int]@);
        proof {
            reveal_strlit("=");
            assert("="@ =~= seq!['=']);
        }
        match split_once(pieces[i].as_str(), "=") {
            Some((k, v)) => {
                if str_eq(k.as_str(), "expand_accounts") {
                    proof {
                        let sub = ps.subrange(i as int, n as int);
                        assert(sub.len() > 0);
                        assert(crate::text::split_once_view(sub[0], seq!['=']) == Some((k@, v@)));
                        assert(expand_in(sub) == Some(v@));
                    }
                    return v;
                }
            },
            None => {},
        }
        assert(ps.subrange(i as int, n as int).drop_first() =~= ps.subrange(i + 1, n as int));
        i = i + 1;
    }
    String::new()
}

// ── Policy ────────────────────────────────────────────────────────────────

/// `filter` for a filtering policy, `accept` for one that lets through.
pub open spec fn policy_name(b: bool) -> Seq<char> {
    if b {
        "filter"@
    } else {
        "accept"@
    }
}

pub fn bool_to_policy(b: bool) -> (r: String)
    ensures
        r@ == policy_name(b),
{
    if b {
        owned("filter")
    } else {
        owned("accept")
    }
}

/// `filter` and `drop` filter; any other policy lets through.
pub open spec fn filters_policy(s: Seq<char>) -> bool {
    s == "filter"@ || s == "drop"@
}

pub fn policy_to_bool(s: &str) -> (r: bool)
    ensures
        r == filters_policy(s@),
{
    str_eq(s, "filter") || str_eq(s, "drop")
}

/// The body of `PATCH /api/v2/notifications/policy`.
pub struct UpdateNotificationPolicyForm {
    pub for_not_following: Option<String>,
    pub for_not_followers: Option<String>,
    pub for_new_accounts: Option<String>,
    pub for_private_mentions: Option<String>,
    pub for_limited_accounts: Option<String>,
}

/// The body of `PATCH /api/v1/notifications/policy`.
pub struct UpdateNotificationPolicyV1Form {
    pub filter_not_following: Option<bool>,
    pub filter_not_followers: Option<bool>,
    pub filter_new_accounts: Option<bool>,
    pub filter_private_mentions: Option<bool>,
}

/// The stored flags an update writes: 1 to filter, 0 to accept, none to keep
/// what is stored.
pub struct PolicyUpdate {
    pub for_not_following: Option<i32>,
    pub for_not_followers: Option<i32>,
    pub for_new_accounts: Option<i32>,
    pub for_private_mentions: Option<i32>,
    pub for_limited_accounts: Option<i32>,
}

pub open spec fn named_flag(s: Option<String>) -> Option<i32> {
    match s {
        Some(p) => Some(
            if filters_policy(p@) {
                1i32
            } else {
                0i32
            },
        ),
        None => None,
    }
}

pub open spec fn bool_flag(b: Option<bool>) -> Option<i32> {
    match b {
        Some(true) => Some(1i32),
        Some(false) => Some(0i32),
        None => None,
    }
}

fn flag_of_name(s: &Option<String>) -> (r: Option<i32>)
    ensures
        r == named_flag(*s),
{
    match s {
        Some(p) => Some(
            if policy_to_bool(p.as_str()) {
                1
            } else {
                0
            },
        ),
        None => None,
    }
}

fn flag_of_bool(b: Option<bool>) -> (r: Option<i32>)
    ensures
        r == bool_flag(b),
{
    match b {
        Some(true) => Some(1),
        Some(false) => Some(0),
        None => None,
    }
}

/// The update a v2 policy form asks for.
pub fn policy_update(form: &UpdateNotificationPolicyForm) -> (r: PolicyUpdate)
    ensures
        r.for_not_following == named_flag(form.for_not_following),
        r.for_not_followers == named_flag(form.for_not_followers),
        r.for_new_accounts == named_flag(form.for_new_accounts),
        r.for_private_mentions == named_flag(form.for_private_mentions),
        r.for_limited_accounts == named_flag(form.for_limited_accounts),
{
    PolicyUpdate {
        for_not_following: flag_of_name(&form.for_not_following),
        for_not_followers: flag_of_name(&form.for_not_followers),
        for_new_accounts: flag_of_name(&form.for_new_accounts),
        for_private_mentions: flag_of_name(&form.for_private_mentions),
        for_limited_accounts: flag_of_name(&form.for_limited_accounts),
    }
}

/// The update a v1 policy form asks for; it does not touch limited accounts.
pub fn policy_update_v1(form: &UpdateNotificationPolicyV1Form) -> (r: PolicyUpdate)
    ensures
        r.for_not_following == bool_flag(form.filter_not_following),
        r.for_not_followers == bool_flag(form.filter_not_followers),
        r.for_new_accounts == bool_flag(form.filter_new_accounts),
        r.for_private_mentions == bool_flag(form.filter_private_mentions),
        r.for_limited_accounts is None,
{
    PolicyUpdate {
        for_not_following: flag_of_bool(form.filter_not_following),
        for_not_followers: flag_of_bool(form.filter_not_followers),
        for_new_accounts: flag_of_bool(form.filter_new_accounts),
        for_private_mentions: flag_of_bool(form.filter_private_mentions),
        for_limited_accounts: None,
    }
}

/// A stored policy row: each flag nonzero when it filters.
pub struct StoredPolicy {
    pub for_not_following: i32,
    pub for_not_followers: i32,
    pub for_new_accounts: i32,
    pub for_private_mentions: i32,
    pub for_limited_accounts: i32,
}

/// The row an update leaves: a new row takes the update over the defaults
/// (accept, except private mentions and limited accounts, which filter); an
/// existing row takes the update over what it held.
pub fn apply_policy_update(stored: Option<&StoredPolicy>, u: &PolicyUpdate) -> (r: StoredPolicy)
    ensures
        ({
            let (a, b, c, d, e) = match stored {
                Some(s) => (
                    s.for_not_following,
                    s.for_not_followers,
                    s.for_new_accounts,
                    s.for_private_mentions,
                    s.for_limited_accounts,
                ),
                None => (0i32, 0i32, 0i32, 1i32, 1i32),
            };
            &&& r.for_not_following == match u.for_not_following {
                Some(v) => v,
                None => a,
            }
            &&& r.for_not_followers == match u.for_not_followers {
                Some(v) => v,
                None => b,
            }
            &&& r.for_new_accounts == match u.for_new_accounts {
                Some(v) => v,
                None => c,
            }
            &&& r.for_private_mentions == match u.for_private_mentions {
                Some(v) => v,
                None => d,
            }
            &&& r.for_limited_accounts == match u.for_limited_accounts {
                Some(v) => v,
                None => e,
            }
        }),
{
    let (a, b, c, d, e) = match stored {
        Some(s) => (
            s.for_not_following,
            s.for_not_followers,
            s.for_new_accounts,
            s.for_private_mentions,
            s.for_limited_accounts,
        ),
        None => (0i32, 0i32, 0i32, 1i32, 1i32),
    };
    StoredPolicy {
        for_not_following: match u.for_not_following {
            Some(v) => v,
            None => a,
        },
        for_not_followers: match u.for_not_followers {
            Some(v) => v,
            None => b,
        },
        for_new_accounts: match u.for_new_accounts {
            Some(v) => v,
            None => c,
        },
        for_private_mentions: match u.for_private_mentions {
            Some(v) => v,
            None => d,
        },
        for_limited_accounts: match u.for_limited_accounts {
            Some(v) => v,
            None => e,
        },
    }
}

/// The policy as the API shows it: each flag as `filter` or `accept`; an
/// account with no row accepts everything.
pub struct PolicyView {
    pub for_not_following: String,
    pub for_not_followers: String,
    pub for_new_accounts: String,
    pub for_private_mentions: String,
    pub for_limited_accounts: String,
    /// Whether any flag filters, so that pending requests are worth counting.
    pub any_filter: bool,
}

pub fn policy_view(stored: Option<&StoredPolicy>) -> (r: PolicyView)
    ensures
        ({
            let (a, b, c, d, e) = match stored {
                Some(s) => (
                    s.for_not_following != 0,
                    s.for_not_followers != 0,
                    s.for_new_accounts != 0,
                    s.for_private_mentions != 0,
                    s.for_limited_accounts != 0,
                ),
                None => (false, false, false, false, false),
            };
            &&& r.for_not_following@ == policy_name(a)
            &&& r.for_not_followers@ == policy_name(b)
            &&& r.for_new_accounts@ == policy_name(c)
            &&& r.for_private_mentions@ == policy_name(d)
            &&& r.for_limited_accounts@ == policy_name(e)
            &&& r.any_filter == (a || b || c || d || e)
        }),
{
    let (a, b, c, d, e) = match stored {
        Some(s) => (
            s.for_not_following != 0,
            s.for_not_followers != 0,
            s.for_new_accounts != 0,
            s.for_private_mentions != 0,
            s.for_limited_accounts != 0,
        ),
        None => (false, false, false, false, false),
    };
    PolicyView {
        for_not_following: bool_to_policy(a),
        for_not_followers: bool_to_policy(b),
        for_new_accounts: bool_to_policy(c),
        for_private_mentions: bool_to_policy(d),
        for_limited_accounts: bool_to_policy(e),
        any_filter: a || b || c || d || e,
    }
}

// ── Unread count ───────────────────────────────────────────────────────────

/// The query of `GET /api/v1/notifications/unread_count`.
pub struct UnreadCountParams {
    pub limit: Option<i64>,
}

/// How many unread notifications are counted at most: 100 by default, at
/// least 1 and at most 1000.
pub fn unread_limit(p: &UnreadCountParams) -> (r: i64)
    ensures
        r == crate::pagination::clamp(
            match p.limit {
                Some(l) => l as int,
                None => 100,
            },
            1,
            1000,
        ),
{
    let l = match p.limit {
        Some(l) => l,
        None => 100,
    };
    let l = if l > 1000 {
        1000
    } else {
        l
    };
    if l < 1 {
        1
    } else {
        l
    }
}

} // verus!

verus! {

// ── Notification groups ────────────────────────────────────────────────────

/// A group of notifications (`GET /api/v2/notifications`). Notifications are
/// not grouped here: each group holds one.
pub struct NotificationGroup {
    pub group_key: String,
    pub notifications_count: i64,
    pub notification_type: String,
    pub most_recent_notification_id: String,
    pub page_max_id: String,
    pub page_min_id: String,
    pub latest_page_notification_at: String,
    pub sample_account_ids: Vec<String>,
    pub status_id: Option<String>,
    pub report: Option<JsonValue>,
    pub event: Option<JsonValue>,
    pub moderation_warning: Option<JsonValue>,
    pub annual_report: Option<JsonValue>,
    pub collection: Option<JsonValue>,
    pub fallback: Option<JsonValue>,
}

/// A notification as stored, with what its group shows of it: the status
/// it is about (when that could be shown) and its report.
pub struct GroupSource {
    pub id: i64,
    pub kind: Option<String>,
    pub from_account_id: i64,
    pub created_at: Timestamp,
    pub status_id: Option<i64>,
    pub report: Option<JsonValue>,
}

/// The group of a single notification.
pub fn ungrouped(n: GroupSource) -> (r: NotificationGroup)
    ensures
        r.group_key@ == ungrouped_key_view(n.id as int),
        r.notifications_count == 1,
        r.notification_type@ == match n.kind {
            Some(k) => k@,
            None => Seq::empty(),
        },
        r.most_recent_notification_id@ == int_text(n.id as int),
        r.page_max_id@ == int_text(n.id as int),
        r.page_min_id@ == int_text(n.id as int),
        r.latest_page_notification_at@ == mastodon_text(n.created_at),
        r.sample_account_ids@.len() == 1,
        r.sample_account_ids@[0]@ == int_text(n.from_account_id as int),
        opt_seq(r.status_id) == match n.status_id {
            Some(s) => Some(int_text(s as int)),
            None => None,
        },
        r.report == n.report,
        r.event is None && r.moderation_warning is None && r.annual_report is None
            && r.collection is None && r.fallback is None,
{
    let mut samples: Vec<String> = Vec::new();
    samples.push(int_to_string(n.from_account_id));
    NotificationGroup {
        group_key: ungrouped_key(n.id),
        notifications_count: 1,
        notification_type: match n.kind {
            Some(k) => k,
            None => String::new(),
        },
        most_recent_notification_id: int_to_string(n.id),
        page_max_id: int_to_string(n.id),
        page_min_id: int_to_string(n.id),
        latest_page_notification_at: mastodon_date(n.created_at),
        sample_account_ids: samples,
        status_id: match n.status_id {
            Some(s) => Some(int_to_string(s)),
            None => None,
        },
        report: n.report,
        event: None,
        moderation_warning: None,
        annual_report: None,
        collection: None,
        fallback: None,
    }
}

/// The notification a group key names: `ungrouped-` and an id.
pub open spec fn group_key_id(key: Seq<char>) -> Option<int> {
    if crate::text::is_prefix("ungrouped-"@, key) {
        parse_i64_view(key.subrange(10, key.len() as int))
    } else {
        None
    }
}

/// Reads a group key; any other key names nothing (404).
pub fn group_notification_id(key: &str) -> (r: Result<i64, ApiError>)
    ensures
        match group_key_id(key@) {
            Some(v) => r == Ok::<i64, ApiError>(v as i64),
            None => r == Err::<i64, ApiError>(ApiError::NotFound),
        },
{
    proof {
        reveal_strlit("ungrouped-");
    }
    match crate::text::strip_prefix(key, "ungrouped-") {
        Some(rest) => match parse_i64(rest.as_str()) {
            Some(v) => Ok(v),
            None => Err(ApiError::NotFound),
        },
        None => Err(ApiError::NotFound),
    }
}

/// What `expand_accounts=partial_avatars` shows of an account.
pub struct PartialAccount {
    pub id: String,
    pub acct: String,
    pub locked: bool,
    pub bot: bool,
    pub url: String,
    pub avatar: String,
    pub avatar_static: String,
}

/// The partial account of an account entity.
pub open spec fn partial_of(a: types::Account, p: PartialAccount) -> bool {
    &&& p.id@ == a.id@
    &&& p.acct@ == a.acct@
    &&& p.locked == a.locked
    &&& p.bot == a.bot
    &&& p.url@ == a.url@
    &&& p.avatar@ == a.avatar@
    &&& p.avatar_static@ == a.avatar_static@
}

/// The partial accounts of a page, asked for by
/// `expand_accounts=partial_avatars`; `None` for any other value.
pub fn partial_accounts(expand: &str, accounts: &Vec<types::Account>) -> (r: Option<
    Vec<PartialAccount>,
>)
    ensures
        r is Some <==> expand@ == "partial_avatars"@,
        r matches Some(ps) ==> ps@.len() == accounts@.len() && forall|k: int|
            0 <= k < ps@.len() ==> partial_of(accounts@[k], #[trigger] ps@[k]),
{
    if !str_eq(expand, "partial_avatars") {
        return None;
    }
    let mut out: Vec<PartialAccount> = Vec::new();
    let mut i: usize = 0;
    while i < accounts.len()
        invariant
            i <= accounts@.len(),
            out@.len() == i,
            forall|k: int| 0 <= k < i ==> partial_of(accounts@[k], #[trigger] out@[k]),
        decreases accounts.len() - i,
    {
        let a = &accounts[i];
        out.push(
            PartialAccount {
                id: owned(a.id.as_str()),
                acct: owned(a.acct.as_str()),
                locked: a.locked,
                bot: a.bot,
                url: owned(a.url.as_str()),
                avatar: owned(a.avatar.as_str()),
                avatar_static: owned(a.avatar_static.as_str()),
            },
        );
        i = i + 1;
    }
    Some(out)
}

} // verus!

verus! {

// ── Notification entities ──────────────────────────────────────────────────

/// A report's category by its stored number: `spam` (1), `violation` (2),
/// `other` for the rest.
pub open spec fn category_name(c: i32) -> Seq<char> {
    if c == 1 {
        "spam"@
    } else if c == 2 {
        "violation"@
    } else {
        "other"@
    }
}

pub fn report_category(c: i32) -> (r: &'static str)
    ensures
        r@ == category_name(c),
{
    if c == 1 {
        "spam"
    } else if c == 2 {
        "violation"
    } else {
        "other"
    }
}

/// A stored report, as a notification about it reads it.
pub struct ReportRow {
    pub id: i64,
    pub comment: String,
    pub forwarded: Option<bool>,
    pub category: i32,
    pub action_taken_at: Option<Timestamp>,
    pub created_at: Timestamp,
    pub status_ids: Vec<i64>,
}

/// Mastodon's `Report` entity.
pub struct Report {
    pub id: String,
    pub action_taken: bool,
    pub action_taken_at: Option<String>,
    pub category: String,
    pub comment: String,
    pub forwarded: bool,
    pub created_at: String,
    pub status_ids: Vec<String>,
    pub rule_ids: Vec<String>,
    pub collection_ids: Vec<String>,
    pub target_account: types::Account,
}

pub open spec fn id_texts(ids: Seq<i64>) -> Seq<Seq<char>> {
    ids.map_values(|i: i64| int_text(i as int))
}

/// The report entity of a report on `target`.
pub fn report_entity(urls: &crate::urls::InstanceUrls, row: &ReportRow, target: &crate::models::Account) -> (r: Report)
    ensures
        r.id@ == int_text(row.id as int),
        r.action_taken == row.action_taken_at is Some,
        opt_seq(r.action_taken_at) == match row.action_taken_at {
            Some(t) => Some(mastodon_text(t)),
            None => None,
        },
        r.category@ == category_name(row.category),
        r.comment@ == row.comment@,
        r.forwarded == (row.forwarded == Some(true)),
        r.created_at@ == mastodon_text(row.created_at),
        r.status_ids@.map_values(|s: String| s@) == id_texts(row.status_ids@),
        r.rule_ids@.len() == 0 && r.collection_ids@.len() == 0,
        crate::convert::account_entity(r.target_account, *urls, *target, None),
{
    let mut ids: Vec<String> = Vec::new();
    let mut i: usize = 0;
    while i < row.status_ids.len()
        invariant
            i <= row.status_ids@.len(),
            ids@.map_values(|s: String| s@) == id_texts(row.status_ids@.take(i as int)),
        decreases row.status_ids.len() - i,
    {
        let t = int_to_string(row.status_ids[i]);
        let ghost before = ids@;
        ids.push(t);
        proof {
            assert(ids@ == before.push(t));
            assert(ids@.map_values(|s: String| s@) =~= before.map_values(|s: String| s@).push(
                int_text(row.status_ids@[i as int] as int),
            ));
            assert(id_texts(row.status_ids@.take(i + 1)) =~= id_texts(row.status_ids@.take(i as int)).push(
                int_text(row.status_ids@[i as int] as int),
            ));
        }
        i = i + 1;
    }
    assert(row.status_ids@.take(row.status_ids@.len() as int) =~= row.status_ids@);
    Report {
        id: int_to_string(row.id),
        action_taken: row.action_taken_at.is_some(),
        action_taken_at: match row.action_taken_at {
            Some(t) => Some(mastodon_date(t)),
            None => None,
        },
        category: owned(report_category(row.category)),
        comment: owned(row.comment.as_str()),
        forwarded: match row.forwarded {
            Some(b) => b,
            None => false,
        },
        created_at: mastodon_date(row.created_at),
        status_ids: ids,
        rule_ids: Vec::new(),
        collection_ids: Vec::new(),
        target_account: crate::convert::account_from_db(urls, target),
    }
}

/// Mastodon's `Notification` entity.
pub struct Notification {
    pub id: String,
    pub notification_type: String,
    pub created_at: String,
    pub group_key: String,
    pub account: types::Account,
    pub status: Option<types::Status>,
    pub report: Option<Report>,
    pub filtered: Option<JsonValue>,
    pub event: Option<JsonValue>,
    pub moderation_warning: Option<JsonValue>,
    pub fallback: Option<JsonValue>,
    pub collection: Option<JsonValue>,
}

/// The entity of a notification from `from`, about `status` and `report`
/// where it has them.
pub fn notification_entity(
    urls: &crate::urls::InstanceUrls,
    id: i64,
    kind: &Option<String>,
    created_at: Timestamp,
    from: &crate::models::Account,
    status: Option<types::Status>,
    report: Option<Report>,
) -> (r: Notification)
    ensures
        r.id@ == int_text(id as int),
        r.notification_type@ == match kind {
            Some(k) => k@,
            None => Seq::empty(),
        },
        r.created_at@ == mastodon_text(created_at),
        r.group_key@ == ungrouped_key_view(id as int),
        crate::convert::account_entity(r.account, *urls, *from, None),
        r.status == status,
        r.report == report,
        r.filtered is None && r.event is None && r.moderation_warning is None && r.fallback is None
            && r.collection is None,
{
    Notification {
        id: int_to_string(id),
        notification_type: match kind {
            Some(k) => owned(k.as_str()),
            None => String::new(),
        },
        created_at: mastodon_date(created_at),
        group_key: ungrouped_key(id),
        account: crate::convert::account_from_db(urls, from),
        status,
        report,
        filtered: None,
        event: None,
        moderation_warning: None,
        fallback: None,
        collection: None,
    }
}

/// The query of `GET /api/v1/notifications/requests`.
pub struct NotificationRequestsQuery {
    pub max_id: Option<String>,
    pub since_id: Option<String>,
    pub min_id: Option<String>,
    pub limit: Option<i64>,
}

/// The page of notification requests: 40 by default, between 1 and 80,
/// newest first, bounded by `max_id`, `since_id` and `min_id`.
pub fn notification_requests_page(q: &NotificationRequestsQuery) -> (r: crate::pagination::PageWindow)
    ensures
        r.limit == crate::pagination::clamp(
            match q.limit {
                Some(l) => l as int,
                None => 40,
            },
            1,
            80,
        ),
        opt_int(r.max_id) == id_param(opt_seq(q.max_id)),
        opt_int(r.since_id) == id_param(opt_seq(q.since_id)),
        opt_int(r.min_id) == id_param(opt_seq(q.min_id)),
        !r.reads_forward,
{
    let l = match q.limit {
        Some(l) => l,
        None => 40,
    };
    let limit = if l > 80 {
        80
    } else if l < 1 {
        1
    } else {
        l
    };
    crate::pagination::PageWindow {
        limit,
        max_id: crate::pagination::parse_id(&q.max_id),
        since_id: crate::pagination::parse_id(&q.since_id),
        min_id: crate::pagination::parse_id(&q.min_id),
        reads_forward: false,
    }
}

/// Mastodon's `NotificationRequest` entity.
pub struct NotificationRequest {
    pub id: String,
    pub created_at: String,
    pub updated_at: String,
    pub notifications_count: String,
    pub last_status: Option<types::Status>,
    pub account: types::Account,
}

/// The entity of a pending request from `from`.
pub fn notification_request_entity(
    urls: &crate::urls::InstanceUrls,
    id: i64,
    created_at: Timestamp,
    updated_at: Timestamp,
    notifications_count: i64,
    from: &crate::models::Account,
    last_status: Option<types::Status>,
) -> (r: NotificationRequest)
    ensures
        r.id@ == int_text(id as int),
        r.created_at@ == mastodon_text(created_at),
        r.updated_at@ == mastodon_text(updated_at),
        r.notifications_count@ == int_text(notifications_count as int),
        r.last_status == last_status,
        crate::convert::account_entity(r.account, *urls, *from, None),
{
    NotificationRequest {
        id: int_to_string(id),
        created_at: mastodon_date(created_at),
        updated_at: mastodon_date(updated_at),
        notifications_count: int_to_string(notifications_count),
        last_status,
        account: crate::convert::account_from_db(urls, from),
    }
}

} // verus!
