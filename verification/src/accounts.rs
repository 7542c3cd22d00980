//! Accounts: looking one up by handle (and the WebFinger answer that
//! resolves a remote one), which statuses a profile lists to whom, notes,
//! the directory, a user's posting defaults, and the custom emoji named in a
//! profile.
use vstd::prelude::*;
use crate::convert::{fields_from_db, fields_of, field_views, FieldView};
use crate::error::{is_unprocessable, unprocessable, ApiError};
use crate::formatting::{lowercase, to_lowercase};
use crate::json::{as_str, jget, json_get, json_of, Json, JsonValue};
use crate::models::Account;
use crate::pagination::{id_param, limit_view, opt_int, opt_seq, PaginationParams};
use crate::text::{
    char_count, chars_of, owned, push_char, push_str, split_once, split_once_view, str_eq,
    string_of, trim, trimmed,
};

verus! {

// ── Lookup ────────────────────────────────────────────────────────────────

/// The query of `GET /api/v1/accounts/lookup`.
pub struct LookupQuery {
    pub acct: String,
    pub resolve: Option<bool>,
}

/// A handle as it is looked up: `user` (local) or `user@domain` (remote),
/// both parts lowercased.
pub open spec fn lookup_handle_view(acct: Seq<char>) -> (Seq<char>, Option<Seq<char>>) {
    match split_once_view(acct, seq!['@']) {
        Some((u, d)) => (lowercase(u), Some(lowercase(d))),
        None => (lowercase(acct), None),
    }
}

pub fn lookup_handle(q: &LookupQuery) -> (r: (String, Option<String>))
    ensures
        (r.0@, opt_seq(r.1)) == lookup_handle_view(q.acct@),
{
    proof {
        reveal_strlit("@");
        assert("@"@ =~= seq!['@']);
    }
    match split_once(q.acct.as_str(), "@") {
        Some((u, d)) => (to_lowercase(u.as_str()), Some(to_lowercase(d.as_str()))),
        None => (to_lowercase(q.acct.as_str()), None),
    }
}

/// `https://{domain}/.well-known/webfinger?resource=acct:{user}@{domain}`.
pub open spec fn webfinger_url_view(user: Seq<char>, domain: Seq<char>) -> Seq<char> {
    "https://"@ + domain + "/.well-known/webfinger?resource=acct:"@ + user + seq!['@'] + domain
}

pub fn webfinger_url(user: &str, domain: &str) -> (r: String)
    ensures
        r@ == webfinger_url_view(user@, domain@),
{
    let mut r = owned("https://");
    push_str(&mut r, domain);
    push_str(&mut r, "/.well-known/webfinger?resource=acct:");
    push_str(&mut r, user);
    push_char(&mut r, '@');
    push_str(&mut r, domain);
    r
}

/// Whether `s` contains `p`.
pub open spec fn contains_text(s: Seq<char>, p: Seq<char>) -> bool {
    crate::text::find(s, p) is Some
}

fn contains_str(s: &str, p: &str) -> (r: bool)
    ensures
        r == contains_text(s@, p@),
{
    split_once(s, p).is_some()
}

/// Whether a WebFinger link names the actor: `rel` is `self` and its `type`
/// an ActivityPub one.
pub open spec fn actor_link(l: Json) -> bool {
    &&& as_str(jget(l, "rel"@)) == Some("self"@)
    &&& as_str(jget(l, "type"@)) matches Some(t) && (contains_text(t, "activity+json"@)
        || contains_text(t, "ld+json"@))
}

pub open spec fn first_actor_link(links: Seq<Json>) -> Option<Json>
    decreases links.len(),
{
    if links.len() == 0 {
        None
    } else if actor_link(links[0]) {
        Some(links[0])
    } else {
        first_actor_link(links.drop_first())
    }
}

/// The actor a WebFinger answer points to: the `href` of the first link
/// that names the actor, when it is a string.
pub open spec fn webfinger_actor_view(jrd: Json) -> Option<Seq<char>> {
    match jget(jrd, "links"@) {
        Some(Json::Array(links)) => match first_actor_link(links) {
            Some(l) => as_str(jget(l, "href"@)),
            None => None,
        },
        _ => None,
    }
}

fn str_field(v: &JsonValue, key: &str) -> (r: Option<String>)
    ensures
        opt_seq(r) == as_str(jget(json_of(*v), key@)),
{
    match json_get(v, key) {
        Some(JsonValue::Str(s)) => Some(owned(s.as_str())),
        _ => None,
    }
}

fn is_actor_link(l: &JsonValue) -> (r: bool)
    ensures
        r == actor_link(json_of(*l)),
{
    let rel = str_field(l, "rel");
    let is_self = match &rel {
        Some(r) => str_eq(r.as_str(), "self"),
        None => false,
    };
    if !is_self {
        return false;
    }
    match str_field(l, "type") {
        Some(t) => contains_str(t.as_str(), "activity+json") || contains_str(t.as_str(), "ld+json"),
        None => false,
    }
}

/// Reads the actor id from a WebFinger answer.
pub fn webfinger_actor(jrd: &JsonValue) -> (r: Option<String>)
    ensures
        opt_seq(r) == webfinger_actor_view(json_of(*jrd)),
{
    let found = json_get(jrd, "links");
    match found {
        Some(JsonValue::Array(links)) => {
            let ghost items = crate::json::json_items(links@);
            proof {
                crate::json::lemma_items(links@);
                assert(json_of(*found.unwrap()) == Json::Array(items));
                assert(jget(json_of(*jrd), "links"@) == Some(Json::Array(items)));
            }
            let n = links.len();
            let mut i: usize = 0;
            assert(items.subrange(0, n as int) =~= items);
            while i < n
                invariant
                    n == links@.len(),
                    items == crate::json::json_items(links@),
                    jget(json_of(*jrd), "links"@) == Some(Json::Array(items)),
                    items.len() == n,
                    forall|j: int| 0 <= j < n ==> #[trigger] items[j] == json_of(links@[j]),
                    i <= n,
                    first_actor_link(items) == first_actor_link(items.subrange(i as int, n as int)),
                decreases n - i,
            {
                assert(items.subrange(i as int, n as int)[0] == items[i as int]);
                if is_actor_link(&links[i]) {
                    proof {
                        assert(first_actor_link(items.subrange(i as int, n as int)) == Some(
                            items[i as int],
                        ));
                    }
                    return str_field(&links[i], "href");
                }
                assert(items.subrange(i as int, n as int).drop_first() =~= items.subrange(
                    i + 1,
                    n as int,
                ));
                i = i + 1;
            }
            None
        },
        _ => None,
    }
}

// ── Profile statuses ──────────────────────────────────────────────────────

/// The query of `GET /api/v1/accounts/:id/statuses`.
pub struct StatusesQuery {
    pub pagination: PaginationParams,
    pub only_media: Option<bool>,
    pub exclude_replies: Option<bool>,
    pub exclude_reblogs: Option<bool>,
    pub exclude_direct: Option<bool>,
    pub pinned: Option<bool>,
    pub tagged: Option<String>,
}

/// The query of the followers and following lists.
pub struct FollowersQuery {
    pub pagination: PaginationParams,
}

/// How a profile's statuses are read.
pub struct ProfileStatusesPlan {
    /// 20 by default, at most 40.
    pub limit: i64,
    pub max_id: Option<i64>,
    pub since_id: Option<i64>,
    pub min_id: Option<i64>,
    /// With `min_id`, the `limit` statuses just above it are read, the other
    /// bounds unused; the page is served newest first (`newest_first`).
    pub reads_forward: bool,
    pub exclude_reblogs: bool,
    pub exclude_replies: bool,
    pub only_media: bool,
    pub exclude_direct: bool,
    /// Only statuses with this tag (lowercased).
    pub tagged: Option<String>,
}

pub fn profile_statuses_plan(q: &StatusesQuery) -> (r: ProfileStatusesPlan)
    ensures
        r.limit == limit_view(opt_seq(q.pagination.limit), 20, 40),
        opt_int(r.min_id) == id_param(opt_seq(q.pagination.min_id)),
        r.reads_forward == (r.min_id is Some),
        !r.reads_forward ==> opt_int(r.max_id) == id_param(opt_seq(q.pagination.max_id)) && opt_int(
            r.since_id,
        ) == id_param(opt_seq(q.pagination.since_id)),
        r.exclude_reblogs == (q.exclude_reblogs == Some(true)),
        r.exclude_replies == (q.exclude_replies == Some(true)),
        r.only_media == (q.only_media == Some(true)),
        r.exclude_direct == (q.exclude_direct == Some(true)),
        opt_seq(r.tagged) == match q.tagged {
            Some(t) => Some(lowercase(t@)),
            None => None,
        },
{
    let p = &q.pagination;
    let limit = p.limit_clamped(20, 40);
    let min_id = p.min_id_value();
    let reads_forward = min_id.is_some();
    let (max_id, since_id) = if reads_forward {
        (None, None)
    } else {
        (p.max_id_value(), p.since_id_value())
    };
    ProfileStatusesPlan {
        limit,
        max_id,
        since_id,
        min_id,
        reads_forward,
        exclude_reblogs: q.exclude_reblogs == Some(true),
        exclude_replies: q.exclude_replies == Some(true),
        only_media: q.only_media == Some(true),
        exclude_direct: q.exclude_direct == Some(true),
        tagged: match &q.tagged {
            Some(t) => Some(to_lowercase(t.as_str())),
            None => None,
        },
    }
}

/// Whether a profile's statuses may be read: not when the account is
/// unavailable (no statuses, no error), and not by a viewer whom it blocks
/// (403). `Ok(true)` when they are listed.
pub fn profile_access(unavailable: bool, account_id: i64, viewer_id: Option<i64>, blocks_viewer: bool) -> (r:
    Result<bool, ApiError>)
    ensures
        unavailable ==> r == Ok::<bool, ApiError>(false),
        !unavailable && (viewer_id matches Some(v) && v != account_id) && blocks_viewer ==> r
            == Err::<bool, ApiError>(ApiError::Forbidden),
        !unavailable && !((viewer_id matches Some(v) && v != account_id) && blocks_viewer) ==> r
            == Ok::<bool, ApiError>(true),
{
    if unavailable {
        return Ok(false);
    }
    match viewer_id {
        Some(v) => if v != account_id && blocks_viewer {
            Err(ApiError::Forbidden)
        } else {
            Ok(true)
        },
        None => Ok(true),
    }
}

/// What is known of one of the profile's statuses.
pub struct ProfileStatusFacts {
    pub id: i64,
    pub deleted: bool,
    pub is_reblog: bool,
    pub in_reply_to_id: Option<i64>,
    pub in_reply_to_account_id: Option<i64>,
    /// 0 public, 1 unlisted, 2 private, 3 direct.
    pub visibility: i32,
    /// The viewer is mentioned in it.
    pub mentions_viewer: bool,
    pub has_text: bool,
    pub has_poll: bool,
    pub has_media: bool,
    pub tag_names: Vec<String>,
    /// A reblog of someone the viewer blocks.
    pub reblogs_blocked_account: bool,
    /// A reblog of someone on a domain the viewer blocks.
    pub reblogs_blocked_domain: bool,
}

/// Who may see a status of the profile: public and unlisted ones anyone;
/// all of them the account itself; private ones its followers; direct ones
/// a viewer they mention, unless direct ones are excluded.
pub open spec fn visible_to(
    s: ProfileStatusFacts,
    viewer_id: Option<i64>,
    is_self: bool,
    is_follower: bool,
    exclude_direct: bool,
) -> bool {
    ||| s.visibility == 0 || s.visibility == 1
    ||| is_self
    ||| is_follower && s.visibility == 2
    ||| !exclude_direct && viewer_id is Some && s.visibility == 3 && s.mentions_viewer
}

/// Whether a status is listed on the profile of `account_id`.
pub open spec fn profile_listed(
    s: ProfileStatusFacts,
    p: ProfileStatusesPlan,
    account_id: i64,
    viewer_id: Option<i64>,
    is_self: bool,
    is_follower: bool,
) -> bool {
    &&& !s.deleted
    &&& if p.reads_forward {
        p.min_id matches Some(m) ==> s.id > m
    } else {
        (p.max_id matches Some(m) ==> s.id < m) && (p.since_id matches Some(m) ==> s.id > m)
    }
    &&& p.exclude_reblogs ==> !s.is_reblog
    &&& p.exclude_replies ==> (s.in_reply_to_id is None || s.in_reply_to_account_id == Some(
        account_id,
    ))
    &&& visible_to(s, viewer_id, is_self, is_follower, p.exclude_direct)
    &&& s.has_text || s.is_reblog || s.has_poll || s.has_media
    &&& p.only_media ==> s.has_media
    &&& p.tagged matches Some(t) ==> s.tag_names@.map_values(|n: String| n@).contains(t@)
    &&& (viewer_id is Some && s.is_reblog) ==> !s.reblogs_blocked_account
        && !s.reblogs_blocked_domain
}

fn has_name(names: &Vec<String>, t: &str) -> (r: bool)
    ensures
        r == names@.map_values(|n: String| n@).contains(t@),
{
    let ghost ns = names@.map_values(|n: String| n@);
    let mut i: usize = 0;
    while i < names.len()
        invariant
            ns == names@.map_values(|n: String| n@),
            i <= names@.len(),
            forall|j: int| 0 <= j < i ==> ns[j] != t@,
        decreases names.len() - i,
    {
        if str_eq(names[i].as_str(), t) {
            assert(ns[i as int] == t@);
            return true;
        }
        i = i + 1;
    }
    false
}

/// Decides whether a status is listed on the profile.
pub fn is_profile_listed(
    s: &ProfileStatusFacts,
    p: &ProfileStatusesPlan,
    account_id: i64,
    viewer_id: Option<i64>,
    is_self: bool,
    is_follower: bool,
) -> (r: bool)
    ensures
        r == profile_listed(*s, *p, account_id, viewer_id, is_self, is_follower),
{
    if s.deleted {
        return false;
    }
    let in_bounds = if p.reads_forward {
        match p.min_id {
            Some(m) => s.id > m,
            None => true,
        }
    } else {
        (match p.max_id {
            Some(m) => s.id < m,
            None => true,
        }) && (match p.since_id {
            Some(m) => s.id > m,
            None => true,
        })
    };
    if !in_bounds {
        return false;
    }
    if p.exclude_reblogs && s.is_reblog {
        return false;
    }
    if p.exclude_replies && !(s.in_reply_to_id.is_none() || s.in_reply_to_account_id == Some(
        account_id,
    )) {
        return false;
    }
    let visible = s.visibility == 0 || s.visibility == 1 || is_self || (is_follower
        && s.visibility == 2) || (!p.exclude_direct && viewer_id.is_some() && s.visibility == 3
        && s.mentions_viewer);
    if !visible {
        return false;
    }
    if !(s.has_text || s.is_reblog || s.has_poll || s.has_media) {
        return false;
    }
    if p.only_media && !s.has_media {
        return false;
    }
    match &p.tagged {
        Some(t) => if !has_name(&s.tag_names, t.as_str()) {
            return false;
        },
        None => {},
    }
    if viewer_id.is_some() && s.is_reblog && (s.reblogs_blocked_account
        || s.reblogs_blocked_domain) {
        return false;
    }
    true
}

/// Which pinned statuses a viewer sees: public and unlisted ones, all of
/// them for the account itself, private ones for its followers.
pub fn pinned_visible(visibility: i32, is_self: bool, is_follower: bool) -> (r: bool)
    ensures
        r == (visibility == 0 || visibility == 1 || is_self || (is_follower && visibility == 2)),
{
    visibility == 0 || visibility == 1 || is_self || (is_follower && visibility == 2)
}

// ── Notes ─────────────────────────────────────────────────────────────────

/// The body of `POST /api/v1/accounts/:id/note`.
pub struct NoteForm {
    pub comment: Option<String>,
}

/// What a note form does: a comment longer than 2 000 characters is
/// refused; a blank one removes the note (`None`); any other is stored.
pub open spec fn note_comment(form: NoteForm) -> Seq<char> {
    match form.comment {
        Some(c) => c@,
        None => Seq::empty(),
    }
}

pub fn note_action(form: &NoteForm) -> (r: Result<Option<String>, ApiError>)
    ensures
        note_comment(*form).len() > 2000 ==> is_unprocessable(
            r,
            "Validation failed: Comment is too long (maximum is 2000 characters)"@,
        ),
        note_comment(*form).len() <= 2000 && trimmed(note_comment(*form)).len() == 0 ==> (r matches Ok(None)),
        note_comment(*form).len() <= 2000 && trimmed(note_comment(*form)).len() > 0 ==> (r matches Ok(Some(s)) && s@ == note_comment(*form)),
{
    let comment = match &form.comment {
        Some(c) => c.as_str(),
        None => "",
    };
    proof {
        reveal_strlit("");
    }
    if char_count(comment) > 2000 {
        return Err(
            unprocessable("Validation failed: Comment is too long (maximum is 2000 characters)"),
        );
    }
    let t = trim(comment);
    if char_count(t.as_str()) == 0 {
        Ok(None)
    } else {
        Ok(Some(owned(comment)))
    }
}

// ── Directory ─────────────────────────────────────────────────────────────

/// The query of `GET /api/v1/directory`.
pub struct DirectoryQuery {
    pub offset: Option<i64>,
    pub limit: Option<i64>,
    pub order: Option<String>,
    pub local: Option<bool>,
}

/// How the directory is read: at most `limit` (default 40, between 1 and
/// 80) discoverable accounts after `offset`, local ones only unless asked
/// otherwise, newest first for `order=new`, else by latest status.
pub struct DirectoryPlan {
    pub limit: i64,
    pub offset: i64,
    pub local_only: bool,
    pub newest_first: bool,
}

pub fn directory_plan(q: &DirectoryQuery) -> (r: DirectoryPlan)
    ensures
        r.limit == crate::pagination::clamp(
            match q.limit {
                Some(l) => l as int,
                None => 40,
            },
            1,
            80,
        ),
        r.offset == match q.offset {
            Some(o) => if o < 0 {
                0
            } else {
                o as int
            },
            None => 0,
        },
        r.local_only == (q.local != Some(false)),
        r.newest_first == (opt_seq(q.order) == Some("new"@)),
{
    let l = match q.limit {
        Some(l) => l,
        None => 40,
    };
    let limit = if l < 1 {
        1
    } else if l > 80 {
        80
    } else {
        l
    };
    let offset = match q.offset {
        Some(o) => if o < 0 {
            0
        } else {
            o
        },
        None => 0,
    };
    DirectoryPlan {
        limit,
        offset,
        local_only: match q.local {
            Some(b) => b,
            None => true,
        },
        newest_first: match &q.order {
            Some(o) => str_eq(o.as_str(), "new"),
            None => false,
        },
    }
}

// ── Posting defaults ──────────────────────────────────────────────────────

/// A user's default posting preferences.
pub struct UserDefaults {
    pub privacy: String,
    pub sensitive: bool,
    pub language: Option<String>,
    pub quote_policy: String,
}

pub open spec fn as_bool(j: Option<Json>) -> Option<bool> {
    match j {
        Some(Json::Bool(b)) => Some(b),
        _ => None,
    }
}

/// A setting under its current key, or else under its older one.
pub open spec fn setting(s: Json, key: Seq<char>, old_key: Seq<char>) -> Option<Json> {
    match jget(s, key) {
        Some(v) => Some(v),
        None => jget(s, old_key),
    }
}

/// The defaults stored in a user's settings: `private` for a locked account
/// and `public` otherwise when no privacy is set, not sensitive, no
/// language, and `public` quotes.
pub open spec fn defaults_hold(d: UserDefaults, s: Json, locked: bool) -> bool {
    &&& d.privacy@ == match as_str(setting(s, "default_privacy"@, "privacy"@)) {
        Some(p) => p,
        None => if locked {
            "private"@
        } else {
            "public"@
        },
    }
    &&& d.sensitive == match as_bool(setting(s, "web.default_sensitive"@, "sensitive"@)) {
        Some(b) => b,
        None => false,
    }
    &&& opt_seq(d.language) == as_str(setting(s, "default_language"@, "language"@))
    &&& d.quote_policy@ == match as_str(setting(s, "default_quote_policy"@, "quote_policy"@)) {
        Some(q) => q,
        None => "public"@,
    }
}

fn setting_of<'a>(s: &'a JsonValue, key: &str, old_key: &str) -> (r: Option<&'a JsonValue>)
    ensures
        match r {
            Some(v) => setting(json_of(*s), key@, old_key@) == Some(json_of(*v)),
            None => setting(json_of(*s), key@, old_key@) is None,
        },
{
    match json_get(s, key) {
        Some(v) => Some(v),
        None => json_get(s, old_key),
    }
}

fn str_setting(s: &JsonValue, key: &str, old_key: &str) -> (r: Option<String>)
    ensures
        opt_seq(r) == as_str(setting(json_of(*s), key@, old_key@)),
{
    match setting_of(s, key, old_key) {
        Some(JsonValue::Str(v)) => Some(owned(v.as_str())),
        _ => None,
    }
}

/// Reads a user's posting defaults from their settings document.
pub fn user_defaults_from(settings: &JsonValue, locked: bool) -> (d: UserDefaults)
    ensures
        defaults_hold(d, json_of(*settings), locked),
{
    let privacy = match str_setting(settings, "default_privacy", "privacy") {
        Some(p) => p,
        None => if locked {
            owned("private")
        } else {
            owned("public")
        },
    };
    let sensitive = match setting_of(settings, "web.default_sensitive", "sensitive") {
        Some(JsonValue::Bool(b)) => *b,
        _ => false,
    };
    let language = str_setting(settings, "default_language", "language");
    let quote_policy = match str_setting(settings, "default_quote_policy", "quote_policy") {
        Some(q) => q,
        None => owned("public"),
    };
    UserDefaults { privacy, sensitive, language, quote_policy }
}

// ── Profile emoji ─────────────────────────────────────────────────────────

/// `char::is_alphanumeric`: Unicode's `Alphabetic` or `Numeric` property.
pub uninterp spec fn alphanumeric(c: char) -> bool;

/// Calls `char::is_alphanumeric`.
#[verifier::external_body]
pub(crate) fn is_alphanumeric(c: char) -> (r: bool)
    ensures
        r == alphanumeric(c),
{
    c.is_alphanumeric()
}

/// A shortcode: not empty, of letters, digits and `_`.
pub open spec fn valid_shortcode(code: Seq<char>) -> bool {
    code.len() > 0 && forall|i: int| 0 <= i < code.len() ==> (alphanumeric(#[trigger] code[i])
        || code[i] == '_')
}

/// The first index at or after `i` where `s` holds `c`.
pub open spec fn next_at(s: Seq<char>, c: char, i: int) -> Option<int>
    decreases s.len() - i,
{
    if i < 0 || i >= s.len() {
        None
    } else if s[i] == c {
        Some(i)
    } else {
        next_at(s, c, i + 1)
    }
}

pub proof fn lemma_next_at(s: Seq<char>, c: char, i: int)
    requires
        0 <= i,
    ensures
        match next_at(s, c, i) {
            Some(j) => i <= j < s.len() && s[j] == c && forall|k: int| i <= k < j ==> s[k] != c,
            None => forall|k: int| i <= k < s.len() ==> s[k] != c,
        },
    decreases s.len() - i,
{
    if i < s.len() && s[i] != c {
        lemma_next_at(s, c, i + 1);
    }
}

/// The `:code:` shortcodes of a text from position `i`: between each `:`
/// and the next, the text is a shortcode when it is valid; the scan goes on
/// after the closing `:`.
pub open spec fn shortcodes_from(s: Seq<char>, i: int) -> Seq<Seq<char>>
    decreases s.len() - i,
{
    if i < 0 {
        Seq::empty()
    } else {
        match next_at(s, ':', i) {
            Some(a) => match next_at(s, ':', a + 1) {
                Some(b) => {
                    proof {
                        lemma_next_at(s, ':', i);
                        lemma_next_at(s, ':', a + 1);
                    }
                    let code = s.subrange(a + 1, b);
                    (if valid_shortcode(code) {
                        seq![code]
                    } else {
                        Seq::empty()
                    }) + shortcodes_from(s, b + 1)
                },
                None => Seq::empty(),
            },
            None => Seq::empty(),
        }
    }
}

/// The text the emoji of a profile are named in: the display name, the
/// note, and each field's name and value, separated by spaces.
pub open spec fn fields_text(fs: Seq<FieldView>) -> Seq<char>
    decreases fs.len(),
{
    if fs.len() == 0 {
        Seq::empty()
    } else {
        fields_text(fs.drop_last()) + seq![' '] + fs.last().0 + seq![' '] + fs.last().1
    }
}

pub open spec fn profile_text(a: Account) -> Seq<char> {
    a.display_name@ + seq![' '] + a.note@ + fields_text(
        match a.fields {
            Some(f) => fields_of(json_of(f)),
            None => Seq::empty(),
        },
    )
}

fn next_colon(cs: &Vec<char>, i: usize) -> (r: Option<usize>)
    requires
        i <= cs@.len(),
    ensures
        match r {
            Some(j) => next_at(cs@, ':', i as int) == Some(j as int),
            None => next_at(cs@, ':', i as int) is None,
        },
{
    let mut j = i;
    while j < cs.len()
        invariant
            i <= j <= cs@.len(),
            next_at(cs@, ':', i as int) == next_at(cs@, ':', j as int),
        decreases cs.len() - j,
    {
        if cs[j] == ':' {
            return Some(j);
        }
        j = j + 1;
    }
    None
}

fn valid_code(cs: &Vec<char>, a: usize, b: usize) -> (r: bool)
    requires
        a <= b <= cs@.len(),
    ensures
        r == valid_shortcode(cs@.subrange(a as int, b as int)),
{
    if a == b {
        return false;
    }
    let ghost code = cs@.subrange(a as int, b as int);
    let mut k = a;
    while k < b
        invariant
            a <= k <= b <= cs@.len(),
            code == cs@.subrange(a as int, b as int),
            forall|m: int| 0 <= m < k - a ==> (alphanumeric(#[trigger] code[m]) || code[m] == '_'),
        decreases b - k,
    {
        let c = cs[k];
        if !(is_alphanumeric(c) || c == '_') {
            assert(code[k - a] == c);
            return false;
        }
        k = k + 1;
    }
    true
}

/// The shortcodes of a text.
pub fn shortcodes(text: &str) -> (r: Vec<String>)
    ensures
        r@.map_values(|s: String| s@) == shortcodes_from(text@, 0),
{
    let cs = chars_of(text);
    let n = cs.len();
    let mut out: Vec<String> = Vec::new();
    let mut i: usize = 0;
    while i <= n
        invariant
            cs@ == text@,
            n == cs@.len(),
            shortcodes_from(text@, 0) == out@.map_values(|s: String| s@) + shortcodes_from(
                text@,
                i as int,
            ),
        decreases n + 1 - i,
    {
        let a = match next_colon(&cs, i) {
            Some(a) => a,
            None => {
                assert(shortcodes_from(text@, i as int) =~= Seq::<Seq<char>>::empty());
                assert(out@.map_values(|s: String| s@) + Seq::<Seq<char>>::empty() =~= out@.map_values(
                    |s: String| s@,
                ));
                return out;
            },
        };
        proof {
            lemma_next_at(cs@, ':', i as int);
        }
        let b = match next_colon(&cs, a + 1) {
            Some(b) => b,
            None => {
                assert(shortcodes_from(text@, i as int) =~= Seq::<Seq<char>>::empty());
                assert(out@.map_values(|s: String| s@) + Seq::<Seq<char>>::empty() =~= out@.map_values(
                    |s: String| s@,
                ));
                return out;
            },
        };
        proof {
            lemma_next_at(cs@, ':', a + 1);
        }
        let ghost before = out@.map_values(|s: String| s@);
        let ghost code = cs@.subrange(a + 1, b as int);
        if valid_code(&cs, a + 1, b) {
            let s = string_of(&cs, a + 1, b);
            out.push(s);
            proof {
                assert(out@.map_values(|s: String| s@) =~= before.push(code));
                assert(shortcodes_from(text@, i as int) == seq![code] + shortcodes_from(
                    text@,
                    b + 1,
                ));
                assert(before + (seq![code] + shortcodes_from(text@, b + 1)) =~= before.push(code)
                    + shortcodes_from(text@, b + 1));
            }
        } else {
            proof {
                assert(shortcodes_from(text@, i as int) =~= shortcodes_from(text@, b + 1));
            }
        }
        i = b + 1;
    }
    assert(shortcodes_from(text@, i as int) =~= Seq::<Seq<char>>::empty());
    out
}

/// The custom emoji shortcodes a profile names, in its display name, note
/// and fields.
pub fn extract_account_shortcodes(a: &Account) -> (r: Vec<String>)
    ensures
        r@.map_values(|s: String| s@) == shortcodes_from(profile_text(*a), 0),
{
    let mut combined = owned(a.display_name.as_str());
    push_char(&mut combined, ' ');
    push_str(&mut combined, a.note.as_str());
    let ghost head = combined@;
    match &a.fields {
        Some(f) => {
            let fs = fields_from_db(f);
            let ghost views = field_views(fs@);
            let mut i: usize = 0;
            while i < fs.len()
                invariant
                    views == field_views(fs@),
                    i <= fs@.len(),
                    combined@ == head + fields_text(views.take(i as int)),
                decreases fs.len() - i,
            {
                assert(views.take(i + 1).drop_last() =~= views.take(i as int));
                push_char(&mut combined, ' ');
                push_str(&mut combined, fs[i].name.as_str());
                push_char(&mut combined, ' ');
                push_str(&mut combined, fs[i].value.as_str());
                i = i + 1;
            }
            assert(views.take(fs@.len() as int) =~= views);
            assert(combined@ == profile_text(*a));
        },
        None => {
            assert(combined@ =~= head + fields_text(Seq::empty()));
            assert(combined@ == profile_text(*a));
        },
    }
    shortcodes(combined.as_str())
}

} // verus!

verus! {

/// Mastodon's `Preferences` entity.
pub struct Preferences {
    pub posting_default_visibility: String,
    pub posting_default_sensitive: bool,
    pub posting_default_language: Option<String>,
    pub posting_default_quote_policy: String,
    pub reading_expand_media: String,
    pub reading_expand_spoilers: bool,
    pub reading_autoplay_gifs: bool,
}

/// `GET /api/v1/preferences`: the posting defaults; media are expanded as
/// by default, spoilers are not, GIFs do not play by themselves.
pub fn preferences(d: UserDefaults) -> (r: Preferences)
    ensures
        r.posting_default_visibility == d.privacy,
        r.posting_default_sensitive == d.sensitive,
        r.posting_default_language == d.language,
        r.posting_default_quote_policy == d.quote_policy,
        r.reading_expand_media@ == "default"@,
        !r.reading_expand_spoilers && !r.reading_autoplay_gifs,
{
    Preferences {
        posting_default_visibility: d.privacy,
        posting_default_sensitive: d.sensitive,
        posting_default_language: d.language,
        posting_default_quote_policy: d.quote_policy,
        reading_expand_media: owned("default"),
        reading_expand_spoilers: false,
        reading_autoplay_gifs: false,
    }
}

/// The counts an account entity shows, from the account's stats row when
/// there is one.
pub struct AccountStats {
    pub statuses_count: i64,
    pub following_count: i64,
    pub followers_count: i64,
}

/// Puts the stats on an entity; without stats it is left as it is.
pub fn apply_account_stats(api: &mut crate::types::Account, stats: Option<AccountStats>)
    ensures
        match stats {
            Some(s) => *final(api) == (crate::types::Account {
                statuses_count: s.statuses_count,
                following_count: s.following_count,
                followers_count: s.followers_count,
                ..*old(api)
            }),
            None => *final(api) == *old(api),
        },
{
    match stats {
        Some(s) => {
            api.statuses_count = s.statuses_count;
            api.following_count = s.following_count;
            api.followers_count = s.followers_count;
        },
        None => {},
    }
}

} // verus!
