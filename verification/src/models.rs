//! The stored rows the conversions read, with the enumerations and bitmaps
//! that Mastodon's schema keeps in integer columns.
use vstd::prelude::*;
use crate::json::JsonValue;
use crate::text::{decimal, owned, padded, push_char, push_decimal, push_padded, push_str};

verus! {

// ── Time ───────────────────────────────────────────────────────────────────

/// A UTC date and time, to the millisecond.
#[derive(Clone, Copy, Debug)]
pub struct Timestamp {
    pub year: i32,
    pub month: u32,
    pub day: u32,
    pub hour: u32,
    pub minute: u32,
    pub second: u32,
    pub millis: u32,
}

/// `%Y`: four digits, with a sign outside years 0 to 9999.
pub open spec fn year_text(y: int) -> Seq<char> {
    if 0 <= y <= 9999 {
        padded(y as nat, 4)
    } else if y > 9999 {
        seq!['+'] + decimal(y as nat)
    } else {
        seq!['-'] + padded((-y) as nat, 4)
    }
}

/// `%Y-%m-%d`.
pub open spec fn date_text(t: Timestamp) -> Seq<char> {
    year_text(t.year as int) + seq!['-'] + padded(t.month as nat, 2) + seq!['-'] + padded(
        t.day as nat,
        2,
    )
}

/// `%Y-%m-%dT%H:%M:%S%.3fZ`, the timestamp format of the API.
pub open spec fn mastodon_text(t: Timestamp) -> Seq<char> {
    date_text(t) + seq!['T'] + padded(t.hour as nat, 2) + seq![':'] + padded(t.minute as nat, 2)
        + seq![':'] + padded(t.second as nat, 2) + seq!['.'] + padded(t.millis as nat, 3) + seq![
        'Z',
    ]
}

fn push_year(s: &mut String, y: i32)
    ensures
        final(s)@ == old(s)@ + year_text(y as int),
{
    if 0 <= y && y <= 9999 {
        push_padded(s, y as u64, 4);
    } else if y > 9999 {
        push_char(s, '+');
        push_decimal(s, y as u64);
        assert(final(s)@ =~= old(s)@ + year_text(y as int));
    } else {
        push_char(s, '-');
        let m: u64 = (-(y as i64)) as u64;
        push_padded(s, m, 4);
        assert(final(s)@ =~= old(s)@ + year_text(y as int));
    }
}

fn push_date(s: &mut String, t: &Timestamp)
    ensures
        final(s)@ == old(s)@ + date_text(*t),
{
    let ghost s0 = s@;
    push_year(s, t.year);
    push_char(s, '-');
    push_padded(s, t.month as u64, 2);
    push_char(s, '-');
    push_padded(s, t.day as u64, 2);
    assert(s@ =~= s0 + date_text(*t));
}

/// `%Y-%m-%d`.
pub fn format_date(t: &Timestamp) -> (s: String)
    ensures
        s@ == date_text(*t),
{
    let mut s = String::new();
    push_date(&mut s, t);
    s
}

/// Rendering in the API's timestamp format.
pub trait MastodonTimestamp {
    spec fn mastodon_view(&self) -> Seq<char>;

    fn format_mastodon(self) -> (s: String)
        ensures
            s@ == self.mastodon_view(),
    ;
}

impl MastodonTimestamp for Timestamp {
    open spec fn mastodon_view(&self) -> Seq<char> {
        mastodon_text(*self)
    }

    fn format_mastodon(self) -> (s: String) {
        let mut s = String::new();
        push_date(&mut s, &self);
        push_char(&mut s, 'T');
        push_padded(&mut s, self.hour as u64, 2);
        push_char(&mut s, ':');
        push_padded(&mut s, self.minute as u64, 2);
        push_char(&mut s, ':');
        push_padded(&mut s, self.second as u64, 2);
        push_char(&mut s, '.');
        push_padded(&mut s, self.millis as u64, 3);
        push_char(&mut s, 'Z');
        assert(s@ =~= mastodon_text(self));
        s
    }
}

/// Format a timestamp in the Mastodon-standard format:
/// `YYYY-MM-DDTHH:MM:SS.mmmZ`.
pub fn mastodon_date<T: MastodonTimestamp>(t: T) -> (s: String)
    ensures
        s@ == t.mastodon_view(),
{
    t.format_mastodon()
}

/// `%Y-%m-%dT00:00:00.000Z`: the day of `t`, as accounts' `created_at` is
/// served.
pub open spec fn day_text(t: Timestamp) -> Seq<char> {
    date_text(t) + "T00:00:00.000Z"@
}

pub fn format_day(t: &Timestamp) -> (s: String)
    ensures
        s@ == day_text(*t),
{
    let mut s = String::new();
    push_date(&mut s, t);
    push_str(&mut s, "T00:00:00.000Z");
    s
}

// ── Enumerations ───────────────────────────────────────────────────────────

/// The API name of a stored visibility.
pub open spec fn visibility_name(v: i32) -> Seq<char> {
    if v == 1 {
        "unlisted"@
    } else if v == 2 {
        "private"@
    } else if v == 3 {
        "direct"@
    } else if v == 4 {
        "limited"@
    } else {
        "public"@
    }
}

pub fn visibility_str(v: i32) -> (r: &'static str)
    ensures
        r@ == visibility_name(v),
{
    if v == 1 {
        "unlisted"
    } else if v == 2 {
        "private"
    } else if v == 3 {
        "direct"
    } else if v == 4 {
        "limited"
    } else {
        "public"
    }
}

/// The API name of a list's stored replies policy.
pub open spec fn replies_policy_name(v: i32) -> Seq<char> {
    if v == 1 {
        "followed"@
    } else if v == 2 {
        "none"@
    } else {
        "list"@
    }
}

/// The stored number of a replies policy.
pub open spec fn replies_policy_number(s: Seq<char>) -> i32 {
    if s == "followed"@ {
        1
    } else if s == "none"@ {
        2
    } else {
        0
    }
}

pub fn replies_policy_str(v: i32) -> (r: &'static str)
    ensures
        r@ == replies_policy_name(v),
{
    if v == 1 {
        "followed"
    } else if v == 2 {
        "none"
    } else {
        "list"
    }
}

pub fn replies_policy_from_str(s: &str) -> (r: i32)
    ensures
        r == replies_policy_number(s@),
{
    if crate::text::str_eq(s, "followed") {
        1
    } else if crate::text::str_eq(s, "none") {
        2
    } else {
        0
    }
}

// ── Interaction policies ───────────────────────────────────────────────────

/// A policy bitmap holds the automatic sub-policy in its high 16 bits and the
/// manual one in its low 16 bits; each sub-policy is a set of these flags.
pub const POLICY_UNSUPPORTED: i32 = 1;
pub const POLICY_PUBLIC: i32 = 2;
pub const POLICY_FOLLOWERS: i32 = 4;
pub const POLICY_FOLLOWING: i32 = 8;

/// A status's quote policy when anyone may quote it.
pub const QUOTE_PUBLIC: i32 = 131_072;
/// A status's quote policy when its author's followers may quote it.
pub const QUOTE_FOLLOWERS: i32 = 262_144;
/// A status's quote policy when anyone may ask to quote it.
pub const QUOTE_MANUAL: i32 = 2;

pub open spec fn automatic_part(policy: i32) -> i32 {
    policy >> 16u32
}

pub open spec fn manual_part(policy: i32) -> i32 {
    policy & 0xFFFFi32
}

pub fn automatic_policy(policy: i32) -> (r: i32)
    ensures
        r == automatic_part(policy),
{
    policy >> 16u32
}

pub fn manual_policy(policy: i32) -> (r: i32)
    ensures
        r == manual_part(policy),
{
    policy & 0xFFFF
}

/// Whether a sub-policy has any of `flag`'s bits.
pub open spec fn has_flag(sub: i32, flag: i32) -> bool {
    sub & flag != 0
}

/// The labels of a sub-policy's flags, in Mastodon's order.
pub open spec fn policy_labels(sub: i32) -> Seq<Seq<char>> {
    (if has_flag(sub, 1) {
        seq!["unsupported_policy"@]
    } else {
        Seq::empty()
    }) + (if has_flag(sub, 2) {
        seq!["public"@]
    } else {
        Seq::empty()
    }) + (if has_flag(sub, 4) {
        seq!["followers"@]
    } else {
        Seq::empty()
    }) + (if has_flag(sub, 8) {
        seq!["following"@]
    } else {
        Seq::empty()
    })
}

/// The views of a list of strings.
pub open spec fn views(v: Seq<String>) -> Seq<Seq<char>> {
    v.map_values(|s: String| s@)
}

pub fn policy_as_keys(sub: i32) -> (r: Vec<String>)
    ensures
        views(r@) == policy_labels(sub),
{
    let mut r: Vec<String> = Vec::new();
    let ghost mut expect: Seq<Seq<char>> = Seq::empty();
    if sub & 1 != 0 {
        r.push(owned("unsupported_policy"));
    }
    proof {
        expect = if has_flag(sub, 1) { seq!["unsupported_policy"@] } else { Seq::empty() };
        assert(views(r@) =~= expect);
    }
    if sub & 2 != 0 {
        r.push(owned("public"));
    }
    proof {
        expect = expect + if has_flag(sub, 2) { seq!["public"@] } else { Seq::empty() };
        assert(views(r@) =~= expect);
    }
    if sub & 4 != 0 {
        r.push(owned("followers"));
    }
    proof {
        expect = expect + if has_flag(sub, 4) { seq!["followers"@] } else { Seq::empty() };
        assert(views(r@) =~= expect);
    }
    if sub & 8 != 0 {
        r.push(owned("following"));
    }
    proof {
        expect = expect + if has_flag(sub, 8) { seq!["following"@] } else { Seq::empty() };
        assert(views(r@) =~= expect);
    }
    r
}

// ── Rows ───────────────────────────────────────────────────────────────────

/// An `accounts` row, with the timestamps the conversions only test for
/// presence held as flags.
pub struct Account {
    pub id: i64,
    pub username: String,
    /// `None` for a local account.
    pub domain: Option<String>,
    pub display_name: String,
    pub note: String,
    pub locked: bool,
    pub discoverable: Option<bool>,
    pub indexable: bool,
    pub hide_collections: Option<bool>,
    pub actor_type: Option<String>,
    pub created_at: Timestamp,
    pub url: Option<String>,
    pub uri: Option<String>,
    pub avatar_file_name: Option<String>,
    pub avatar_remote_url: Option<String>,
    pub header_file_name: Option<String>,
    pub header_remote_url: String,
    pub avatar_description: String,
    pub header_description: String,
    pub show_media: bool,
    pub show_media_replies: bool,
    pub show_featured: bool,
    pub feature_approval_policy: i32,
    /// The profile fields, a JSON array of `{name, value, verified_at}`.
    pub fields: Option<JsonValue>,
    /// `suspended_at` is set.
    pub suspended: bool,
    /// `requested_deletion_at` is set: the owner asked for deletion.
    pub deletion_requested: bool,
    /// `silenced_at` is set.
    pub silenced: bool,
    /// `sensitized_at` is set.
    pub sensitized: bool,
    pub memorial: bool,
    /// The handle does not parse as a valid `user@domain`.
    pub invalid_handle: bool,
    /// How local ActivityPub ids are built: 0 by username, 1 by numeric id.
    pub id_scheme: i32,
}

impl Account {
    /// Mastodon's `unavailable?`: suspended, or deleted by its owner.
    pub open spec fn unavailable(&self) -> bool {
        self.suspended || self.deletion_requested
    }

    /// `user` for a local account, `user@domain` for a remote one.
    pub open spec fn acct_view(&self) -> Seq<char> {
        match self.domain {
            None => self.username@,
            Some(d) => self.username@ + seq!['@'] + d@,
        }
    }

    pub fn is_unavailable(&self) -> (r: bool)
        ensures
            r == self.unavailable(),
    {
        self.suspended || self.deletion_requested
    }

    pub fn acct(&self) -> (r: String)
        ensures
            r@ == self.acct_view(),
    {
        let mut r = self.username.clone();
        if let Some(d) = &self.domain {
            push_char(&mut r, '@');
            push_str(&mut r, d.as_str());
        }
        r
    }
}

/// A `statuses` row.
pub struct Status {
    pub id: i64,
    pub created_at: Timestamp,
    pub in_reply_to_id: Option<i64>,
    pub in_reply_to_account_id: Option<i64>,
    pub sensitive: bool,
    pub spoiler_text: String,
    pub visibility: i32,
    pub language: Option<String>,
    pub uri: Option<String>,
    pub url: Option<String>,
    pub edited_at: Option<Timestamp>,
    /// Plain text for a local status, ActivityPub HTML for a remote one.
    pub text: String,
    pub reblog_of_id: Option<i64>,
    pub quote_approval_policy: i32,
}

/// A `media_attachments` row.
pub struct MediaAttachment {
    pub id: i64,
    pub media_type: Option<i32>,
    pub file_file_name: Option<String>,
    pub thumbnail_file_name: Option<String>,
    pub remote_url: Option<String>,
    pub thumbnail_remote_url: Option<String>,
    pub description: Option<String>,
    pub blurhash: Option<String>,
    pub file_meta: Option<JsonValue>,
}

/// A `lists` row.
pub struct List {
    pub id: i64,
    pub title: String,
    pub replies_policy: i32,
    pub exclusive: bool,
}

} // verus!
