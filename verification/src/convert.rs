//! Conversions from stored rows to API entities.
use vstd::prelude::*;
use crate::approval::{
    build_feature_approval, build_quote_approval, feature_automatic, feature_current_user,
    feature_manual, quote_current_user, AccountViewerContext, StatusViewerContext,
};
use crate::formatting::{
    field_html, format_field_value, mention_entries, mention_map_from_api, render_content,
    rendered, MentionMap, StatusMention,
};
use crate::json::{
    as_str, jget, json_clone, json_get, json_items, json_of, lemma_items, Json, JsonValue,
};
use crate::media::{media_type_name, media_type_str};
use crate::meta::{ensure_media_dims, media_dims, opt_json};
use crate::models::{
    automatic_part, day_text, format_day, manual_part, mastodon_text, policy_labels, views,
    visibility_name, visibility_str, Account, MastodonTimestamp, MediaAttachment, Status,
    Timestamp,
};
use crate::text::{
    char_count, int_text, int_to_string, is_prefix, owned, push_int, push_str, split_once,
    split_once_view, str_eq, strip_prefix,
};
use crate::types;
use crate::urls::{
    account_avatar_url, account_header_url, account_uri, account_uri_view, avatar_url_view,
    header_url_view, media_preview_url, media_preview_url_view, media_url, media_url_view,
    nonempty, nonempty_copy, opt_view, status_uri, status_uri_view, status_url_from_uri,
    status_url_from_uri_view, InstanceUrls,
};

verus! {

// ── Profile fields ─────────────────────────────────────────────────────────

pub type FieldView = (Seq<char>, Seq<char>, Option<Seq<char>>);

pub open spec fn field_views(fs: Seq<types::Field>) -> Seq<FieldView> {
    fs.map_values(|f: types::Field| (f.name@, f.value@, opt_view(f.verified_at)))
}

/// A stored field: an object with string `name` and `value`, and, when it is a
/// string, `verified_at`.
pub open spec fn field_of(j: Json) -> Option<FieldView> {
    match (as_str(jget(j, "name"@)), as_str(jget(j, "value"@))) {
        (Some(n), Some(v)) => Some((n, v, as_str(jget(j, "verified_at"@)))),
        _ => None,
    }
}

pub open spec fn fields_of_items(items: Seq<Json>) -> Seq<FieldView>
    decreases items.len(),
{
    if items.len() == 0 {
        Seq::empty()
    } else {
        let before = fields_of_items(items.drop_last());
        match field_of(items.last()) {
            Some(f) => before.push(f),
            None => before,
        }
    }
}

/// The profile fields of a stored `fields` document: the well-formed entries
/// of an array; nothing from anything else.
pub open spec fn fields_of(j: Json) -> Seq<FieldView> {
    match j {
        Json::Array(items) => fields_of_items(items),
        _ => Seq::empty(),
    }
}

fn str_of(v: Option<&JsonValue>) -> (r: Option<String>)
    ensures
        opt_view(r) == match v {
            Some(x) => as_str(Some(json_of(*x))),
            None => None,
        },
{
    match v {
        Some(JsonValue::Str(s)) => Some(s.clone()),
        _ => None,
    }
}

fn field_from(f: &JsonValue) -> (r: Option<types::Field>)
    ensures
        match r {
            Some(x) => field_of(json_of(*f)) == Some((x.name@, x.value@, opt_view(x.verified_at))),
            None => field_of(json_of(*f)) is None,
        },
{
    let name = match str_of(json_get(f, "name")) {
        Some(n) => n,
        None => return None,
    };
    let value = match str_of(json_get(f, "value")) {
        Some(v) => v,
        None => return None,
    };
    let verified_at = str_of(json_get(f, "verified_at"));
    Some(types::Field { name, value, verified_at })
}

pub fn fields_from_db(fields: &JsonValue) -> (r: Vec<types::Field>)
    ensures
        field_views(r@) == fields_of(json_of(*fields)),
{
    let mut r: Vec<types::Field> = Vec::new();
    match fields {
        JsonValue::Array(xs) => {
            let ghost items = json_items(xs@);
            proof {
                lemma_items(xs@);
            }
            let mut i: usize = 0;
            while i < xs.len()
                invariant
                    i <= xs@.len(),
                    items == json_items(xs@),
                    items.len() == xs@.len(),
                    forall|j: int| 0 <= j < xs@.len() ==> #[trigger] items[j] == json_of(xs@[j]),
                    field_views(r@) == fields_of_items(items.take(i as int)),
                decreases xs.len() - i,
            {
                assert(items.take(i + 1).drop_last() =~= items.take(i as int));
                let ghost before = r@;
                match field_from(&xs[i]) {
                    Some(f) => {
                        r.push(f);
                        assert(field_views(r@) =~= field_views(before).push(
                            field_of(items[i as int])->0,
                        ));
                    },
                    None => {},
                }
                i = i + 1;
            }
            assert(items.take(xs@.len() as int) =~= items);
        },
        _ => {
            assert(field_views(r@) =~= Seq::<FieldView>::empty());
        },
    }
    r
}

/// Local fields serve their values as HTML with links made anchors.
pub open spec fn local_fields(fs: Seq<FieldView>) -> Seq<FieldView> {
    fs.map_values(|f: FieldView| (f.0, field_html(f.1), f.2))
}

fn format_fields(fs: Vec<types::Field>) -> (r: Vec<types::Field>)
    ensures
        field_views(r@) == local_fields(field_views(fs@)),
{
    let ghost fv = field_views(fs@);
    let mut r: Vec<types::Field> = Vec::new();
    let mut rest = fs;
    let n = rest.len();
    let mut k: usize = 0;
    while k < n
        invariant
            k <= n,
            n == fv.len(),
            field_views(rest@) == fv.skip(k as int),
            field_views(r@) == local_fields(fv.take(k as int)),
        decreases n - k,
    {
        let ghost rv = field_views(rest@);
        assert(rv.len() == n - k);
        let ghost old_rest = rest@;
        let f = rest.remove(0);
        assert(rv[0] == fv[k as int]);
        assert(rest@ =~= old_rest.subrange(1, old_rest.len() as int));
        assert forall|j: int| 0 <= j < rest@.len() implies #[trigger] field_views(rest@)[j]
            == fv.skip(k + 1)[j] by {
            assert(field_views(rest@)[j] == rv[j + 1]);
        }
        assert(field_views(rest@) =~= fv.skip(k + 1));
        assert((f.name@, f.value@, opt_view(f.verified_at)) == fv[k as int]);
        let value = format_field_value(f.value.as_str());
        let ghost before = r@;
        assert(fv.take(k + 1) =~= fv.take(k as int).push(fv[k as int]));
        assert(local_fields(fv.take(k as int).push(fv[k as int])) =~= local_fields(fv.take(k as int)).push(
            (fv[k as int].0, field_html(fv[k as int].1), fv[k as int].2),
        ));
        r.push(types::Field { name: f.name, value, verified_at: f.verified_at });
        assert(field_views(r@) =~= local_fields(fv.take(k + 1)));
        k = k + 1;
    }
    assert(fv.take(n as int) =~= fv);
    r
}

/// The stored fields of an account as served: linkified when local.
pub open spec fn account_fields(a: Account) -> Seq<FieldView> {
    let stored = match a.fields {
        Some(f) => fields_of(json_of(f)),
        None => Seq::empty(),
    };
    if a.domain is None {
        local_fields(stored)
    } else {
        stored
    }
}

// ── Accounts ───────────────────────────────────────────────────────────────

/// The bio as served: rendered from plain text when local, as federated when
/// remote.
pub open spec fn account_note(urls: InstanceUrls, a: Account) -> Seq<char> {
    if a.note@.len() == 0 {
        Seq::empty()
    } else if a.domain is None {
        rendered(a.note@, urls.local_domain_view(), Seq::empty())
    } else {
        a.note@
    }
}

/// Render an account bio to the HTML of the API's `note`, mirroring
/// Mastodon's `account_bio_format`.
pub fn render_account_note(urls: &InstanceUrls, a: &Account) -> (r: String)
    ensures
        r@ == account_note(*urls, *a),
{
    if crate::text::char_count(a.note.as_str()) == 0 {
        return String::new();
    }
    if a.domain.is_none() {
        let map = MentionMap::new();
        render_content(a.note.as_str(), urls.local_domain(), &map)
    } else {
        a.note.clone()
    }
}

/// The web profile and ActivityPub id of an account.
pub open spec fn account_url_view(urls: InstanceUrls, a: Account) -> Seq<char> {
    if a.domain is None {
        "https://"@ + urls.local_domain_view() + "/@"@ + a.username@
    } else {
        match a.url {
            Some(u) => u@,
            None => Seq::empty(),
        }
    }
}

pub open spec fn account_id_view(urls: InstanceUrls, a: Account) -> Seq<char> {
    if a.domain is None {
        account_uri_view(urls.local_domain_view(), a.id as int, a.id_scheme, a.username@)
    } else {
        match a.uri {
            Some(u) => u@,
            None => Seq::empty(),
        }
    }
}

pub open spec fn actor_is(a: Account, t: Seq<char>) -> bool {
    a.actor_type matches Some(x) && x@ == t
}

/// Everything `account_from_db_for_viewer` promises of an entity. An
/// unavailable account (suspended, or deleted by its owner) is blanked out:
/// no name, bio, fields or pictures, and `suspended: true`.
pub open spec fn account_entity(
    r: types::Account,
    urls: InstanceUrls,
    a: Account,
    viewer: Option<AccountViewerContext>,
) -> bool {
    let gone = a.unavailable();
    &&& r.id@ == int_text(a.id as int)
    &&& r.username@ == a.username@
    &&& r.acct@ == a.acct_view()
    &&& r.display_name@ == (if gone {
        Seq::empty()
    } else {
        a.display_name@
    })
    &&& r.locked == (!gone && a.locked)
    &&& r.bot == (!gone && actor_is(a, "Service"@))
    &&& r.group == (!gone && actor_is(a, "Group"@))
    &&& r.discoverable == (if gone {
        Some(false)
    } else {
        a.discoverable
    })
    &&& r.indexable == (!gone && a.indexable)
    &&& r.hide_collections == a.hide_collections
    &&& r.created_at@ == day_text(a.created_at)
    &&& r.note@ == (if gone {
        Seq::empty()
    } else {
        account_note(urls, a)
    })
    &&& r.url@ == account_url_view(urls, a)
    &&& r.uri@ == account_id_view(urls, a)
    &&& r.avatar@ == (if gone {
        urls.missing_avatar_view()
    } else {
        avatar_url_view(urls, a.id as int, opt_view(a.avatar_file_name), opt_view(a.avatar_remote_url))
    })
    &&& r.avatar_static@ == r.avatar@
    &&& r.header@ == (if gone {
        urls.missing_header_view()
    } else {
        header_url_view(urls, a)
    })
    &&& r.header_static@ == r.header@
    &&& r.avatar_description@ == (if gone {
        Seq::empty()
    } else {
        a.avatar_description@
    })
    &&& r.header_description@ == (if gone {
        Seq::empty()
    } else {
        a.header_description@
    })
    &&& r.show_media == a.show_media
    &&& r.show_media_replies == a.show_media_replies
    &&& r.show_featured == a.show_featured
    &&& views(r.feature_approval.automatic@) == feature_automatic(a)
    &&& views(r.feature_approval.manual@) == feature_manual(a)
    &&& r.feature_approval.current_user@ == feature_current_user(a, viewer)
    &&& r.followers_count == 0
    &&& r.following_count == 0
    &&& r.statuses_count == 0
    &&& r.last_status_at is None
    &&& r.emojis@.len() == 0
    &&& field_views(r.fields@) == (if gone {
        Seq::empty()
    } else {
        account_fields(a)
    })
    &&& r.roles@.len() == 0
    &&& r.moved is None
    &&& r.suspended == (if gone {
        Some(true)
    } else {
        None
    })
    &&& r.limited == (if a.silenced {
        Some(true)
    } else {
        None
    })
    &&& r.noindex == (if a.domain is None {
        Some(false)
    } else {
        None
    })
    &&& r.memorial == (if a.memorial {
        Some(true)
    } else {
        None
    })
    &&& r.invalid_handle == (if a.invalid_handle {
        Some(true)
    } else {
        None
    })
    &&& r.mute_expires_at is None
    &&& r.source is None
    &&& r.role is None
}

fn actor_type_is(a: &Account, t: &str) -> (r: bool)
    ensures
        r == actor_is(*a, t@),
{
    match &a.actor_type {
        Some(x) => str_eq(x.as_str(), t),
        None => false,
    }
}

fn opt_clone(s: &Option<String>) -> (r: Option<String>)
    ensures
        opt_view(r) == opt_view(*s),
{
    match s {
        Some(t) => Some(t.clone()),
        None => None,
    }
}

fn account_fields_exec(a: &Account) -> (r: Vec<types::Field>)
    ensures
        field_views(r@) == account_fields(*a),
{
    let stored = match &a.fields {
        Some(f) => fields_from_db(f),
        None => {
            let v: Vec<types::Field> = Vec::new();
            assert(field_views(v@) =~= Seq::<FieldView>::empty());
            v
        },
    };
    if a.domain.is_none() {
        format_fields(stored)
    } else {
        stored
    }
}

/// The `Account` entity of a row, as a request whose viewer is known sees it.
pub fn account_from_db_for_viewer(
    urls: &InstanceUrls,
    a: &Account,
    viewer: Option<&AccountViewerContext>,
) -> (r: types::Account)
    ensures
        account_entity(
            r,
            *urls,
            *a,
            match viewer {
                Some(c) => Some(*c),
                None => None,
            },
        ),
{
    let (url, uri) = if a.domain.is_none() {
        let mut url = owned("https://");
        push_str(&mut url, urls.local_domain());
        push_str(&mut url, "/@");
        push_str(&mut url, a.username.as_str());
        (url, account_uri(urls.local_domain(), a.id, a.id_scheme, a.username.as_str()))
    } else {
        (
            match &a.url {
                Some(u) => u.clone(),
                None => String::new(),
            },
            match &a.uri {
                Some(u) => u.clone(),
                None => String::new(),
            },
        )
    };
    let gone = a.is_unavailable();
    let avatar = if gone {
        owned(urls.missing_avatar())
    } else {
        account_avatar_url(urls, a)
    };
    let header = if gone {
        owned(urls.missing_header())
    } else {
        account_header_url(urls, a)
    };
    types::Account {
        id: int_to_string(a.id),
        username: a.username.clone(),
        acct: a.acct(),
        display_name: if gone {
            String::new()
        } else {
            a.display_name.clone()
        },
        locked: if gone {
            false
        } else {
            a.locked
        },
        bot: !gone && actor_type_is(a, "Service"),
        group: !gone && actor_type_is(a, "Group"),
        discoverable: if gone {
            Some(false)
        } else {
            a.discoverable
        },
        indexable: !gone && a.indexable,
        hide_collections: a.hide_collections,
        created_at: format_day(&a.created_at),
        note: if gone {
            String::new()
        } else {
            render_account_note(urls, a)
        },
        url,
        uri,
        avatar_static: avatar.clone(),
        avatar,
        header_static: header.clone(),
        header,
        avatar_description: if gone {
            String::new()
        } else {
            a.avatar_description.clone()
        },
        header_description: if gone {
            String::new()
        } else {
            a.header_description.clone()
        },
        show_media: a.show_media,
        show_media_replies: a.show_media_replies,
        show_featured: a.show_featured,
        feature_approval: build_feature_approval(a, viewer),
        followers_count: 0,
        following_count: 0,
        statuses_count: 0,
        last_status_at: None,
        emojis: Vec::new(),
        fields: if gone {
            let v: Vec<types::Field> = Vec::new();
            assert(field_views(v@) =~= Seq::<FieldView>::empty());
            v
        } else {
            account_fields_exec(a)
        },
        roles: Vec::new(),
        moved: None,
        suspended: if gone {
            Some(true)
        } else {
            None
        },
        limited: if a.silenced {
            Some(true)
        } else {
            None
        },
        noindex: if a.domain.is_none() {
            Some(false)
        } else {
            None
        },
        memorial: if a.memorial {
            Some(true)
        } else {
            None
        },
        invalid_handle: if a.invalid_handle {
            Some(true)
        } else {
            None
        },
        mute_expires_at: None,
        source: None,
        role: None,
    }
}

/// The `Account` entity of a row, for a request with no viewer.
pub fn account_from_db(urls: &InstanceUrls, a: &Account) -> (r: types::Account)
    ensures
        account_entity(r, *urls, *a, None),
{
    account_from_db_for_viewer(urls, a, None)
}

} // verus!

verus! {

// ── Media ──────────────────────────────────────────────────────────────────

/// Everything `media_from_db` promises of an entity.
pub open spec fn media_entity(r: types::MediaAttachment, urls: InstanceUrls, m: MediaAttachment) -> bool {
    &&& r.id@ == int_text(m.id as int)
    &&& r.media_type@ == media_type_name(m.media_type)
    &&& opt_view(r.url) == media_url_view(urls, m)
    &&& opt_view(r.preview_url) == media_preview_url_view(urls, m)
    &&& opt_view(r.remote_url) == nonempty(opt_view(m.remote_url))
    &&& opt_view(r.preview_remote_url) == nonempty(opt_view(m.thumbnail_remote_url))
    &&& r.text_url is None
    &&& opt_view(r.description) == opt_view(m.description)
    &&& opt_view(r.blurhash) == opt_view(m.blurhash)
    &&& r.meta matches Some(j) && json_of(j) == media_dims(
        opt_json(m.file_meta),
        media_type_name(m.media_type),
    )
}

pub fn media_from_db(urls: &InstanceUrls, m: &MediaAttachment) -> (r: types::MediaAttachment)
    ensures
        media_entity(r, *urls, *m),
{
    let media_type = media_type_str(m.media_type);
    let meta = match &m.file_meta {
        Some(v) => Some(json_clone(v)),
        None => None,
    };
    assert(opt_json(meta) == opt_json(m.file_meta));
    types::MediaAttachment {
        id: int_to_string(m.id),
        media_type: owned(media_type),
        url: media_url(urls, m),
        preview_url: media_preview_url(urls, m),
        remote_url: nonempty_copy(&m.remote_url),
        preview_remote_url: nonempty_copy(&m.thumbnail_remote_url),
        text_url: None,
        description: opt_clone(&m.description),
        blurhash: opt_clone(&m.blurhash),
        meta: Some(ensure_media_dims(meta, media_type)),
    }
}

/// Media a status serves: those with a file or a remote URL.
pub open spec fn servable(urls: InstanceUrls, m: MediaAttachment) -> bool {
    media_url_view(urls, m) is Some || nonempty(opt_view(m.remote_url)) is Some
}

/// The media of a status that are served, in order.
pub open spec fn served_media(urls: InstanceUrls, ms: Seq<MediaAttachment>) -> Seq<MediaAttachment>
    decreases ms.len(),
{
    if ms.len() == 0 {
        Seq::empty()
    } else {
        let before = served_media(urls, ms.drop_last());
        if servable(urls, ms.last()) {
            before.push(ms.last())
        } else {
            before
        }
    }
}

/// Each entity is the conversion of the matching row.
pub open spec fn media_entities(rs: Seq<types::MediaAttachment>, urls: InstanceUrls, ms: Seq<MediaAttachment>) -> bool {
    rs.len() == ms.len() && forall|i: int| 0 <= i < rs.len() ==> media_entity(#[trigger] rs[i], urls, ms[i])
}

fn served_media_exec(urls: &InstanceUrls, media: &Vec<MediaAttachment>) -> (r: Vec<types::MediaAttachment>)
    ensures
        media_entities(r@, *urls, served_media(*urls, media@)),
{
    let mut r: Vec<types::MediaAttachment> = Vec::new();
    let mut i: usize = 0;
    while i < media.len()
        invariant
            i <= media@.len(),
            media_entities(r@, *urls, served_media(*urls, media@.take(i as int))),
        decreases media.len() - i,
    {
        assert(media@.take(i + 1).drop_last() =~= media@.take(i as int));
        let e = media_from_db(urls, &media[i]);
        let keep = e.url.is_some() || e.remote_url.is_some();
        if keep {
            r.push(e);
        }
        i = i + 1;
    }
    assert(media@.take(media@.len() as int) =~= media@);
    r
}

// ── Statuses ───────────────────────────────────────────────────────────────

/// `ammonia::clean`: remote HTML reduced to the tags and attributes
/// ammonia's default policy allows.
pub uninterp spec fn sanitized(html: Seq<char>) -> Seq<char>;

/// `ammonia::clean`.
#[verifier::external_body]
pub(crate) fn sanitize_html(html: &str) -> (r: String)
    ensures
        r@ == sanitized(html@),
{
    ammonia::clean(html)
}

/// The part of `s` before its first `/`.
pub open spec fn first_segment(s: Seq<char>) -> Seq<char> {
    match split_once_view(s, "/"@) {
        Some((a, _)) => a,
        None => s,
    }
}

/// The domain in a local status's `https://` id; empty when there is none.
pub open spec fn status_domain(uri: Option<Seq<char>>) -> Seq<char> {
    match uri {
        Some(u) => if is_prefix("https://"@, u) {
            first_segment(u.subrange("https://"@.len() as int, u.len() as int))
        } else {
            Seq::empty()
        },
        None => Seq::empty(),
    }
}

/// The view of a status's mentions.
pub open spec fn status_mention_views(ms: Seq<StatusMention>) -> Seq<(Seq<char>, Seq<char>, Seq<char>, Seq<char>)> {
    ms.map_values(|m: StatusMention| (m.id@, m.username@, m.url@, m.acct@))
}

/// A status's `content`: rendered from plain text when local, remote
/// ActivityPub HTML sanitized.
pub open spec fn status_content(s: Status, account: Account, mentions: Seq<StatusMention>) -> Seq<char> {
    if account.domain is None {
        rendered(s.text@, status_domain(opt_view(s.uri)), mention_entries(mentions))
    } else {
        sanitized(s.text@)
    }
}

fn status_domain_exec(uri: &Option<String>) -> (r: String)
    ensures
        r@ == status_domain(opt_view(*uri)),
{
    match uri {
        Some(u) => match strip_prefix(u.as_str(), "https://") {
            Some(rest) => match split_once(rest.as_str(), "/") {
                Some((a, _)) => a,
                None => rest,
            },
            None => String::new(),
        },
        None => String::new(),
    }
}

/// Render status content from raw text, matching Mastodon's convention.
pub fn render_status_content(s: &Status, account: &Account, mentions: &[StatusMention]) -> (r: String)
    ensures
        r@ == status_content(*s, *account, mentions@),
{
    if account.domain.is_none() {
        let domain = status_domain_exec(&s.uri);
        let map = mention_map_from_api(mentions);
        render_content(s.text.as_str(), domain.as_str(), &map)
    } else {
        sanitize_html(s.text.as_str())
    }
}

/// A status's ActivityPub id: computed from the account's id scheme when
/// local (`…/activity` for a boost), stored when remote (its id when none is).
pub open spec fn status_id_view(urls: InstanceUrls, s: Status, account: Account) -> Seq<char> {
    if account.domain is None {
        let base = status_uri_view(
            urls.local_domain_view(),
            account.id as int,
            account.id_scheme,
            account.username@,
            s.id as int,
        );
        if s.reblog_of_id is Some {
            base + "/activity"@
        } else {
            base
        }
    } else {
        match s.uri {
            Some(u) => u@,
            None => int_text(s.id as int),
        }
    }
}

/// Whether the stored `url` is a web page distinct from the ActivityPub id.
pub open spec fn distinct_url(s: Status) -> bool {
    s.url matches Some(u) && opt_view(s.uri) != Some(u@)
}

/// A status's web page: for a local status a stored non-empty page, else
/// `/@username/{id}`; for a remote one a stored page, else one derived from
/// its id.
pub open spec fn status_url_view(urls: InstanceUrls, s: Status, account: Account) -> Option<Seq<char>> {
    if account.domain is None {
        Some(
            if distinct_url(s) && s.url->0@.len() > 0 {
                s.url->0@
            } else {
                "https://"@ + urls.local_domain_view() + "/@"@ + account.username@ + "/"@ + int_text(
                    s.id as int,
                )
            },
        )
    } else if distinct_url(s) {
        Some(s.url->0@)
    } else {
        match s.uri {
            Some(u) => status_url_from_uri_view(u@),
            None => None,
        }
    }
}

/// Whether the viewer wrote the status.
pub open spec fn is_author(viewer: Option<StatusViewerContext>, account: Account) -> bool {
    viewer matches Some(c) && c.account_id == account.id
}

/// `pinned` is shown to the author alone, on their own public, unlisted or
/// private posts.
pub open spec fn pinned_view(s: Status, account: Account, viewer: Option<StatusViewerContext>) -> Option<bool> {
    match viewer {
        Some(c) => if is_author(viewer, account) && s.reblog_of_id is None && 0 <= s.visibility
            <= 2 {
            Some(c.pinned)
        } else {
            None
        },
        None => None,
    }
}

pub open spec fn opt_int_text(v: Option<i64>) -> Option<Seq<char>> {
    match v {
        Some(i) => Some(int_text(i as int)),
        None => None,
    }
}

/// Everything a status entity carries of its row, apart from its boost.
pub open spec fn status_entity(
    r: types::Status,
    urls: InstanceUrls,
    s: Status,
    account: Account,
    media: Seq<MediaAttachment>,
    viewer: Option<StatusViewerContext>,
    application: Option<types::Application>,
    mentions: Seq<StatusMention>,
) -> bool {
    &&& r.id@ == int_text(s.id as int)
    &&& r.created_at@ == mastodon_text(s.created_at)
    &&& opt_view(r.in_reply_to_id) == opt_int_text(s.in_reply_to_id)
    &&& opt_view(r.in_reply_to_account_id) == opt_int_text(s.in_reply_to_account_id)
    &&& r.sensitive == (if is_author(viewer, account) {
        s.sensitive
    } else {
        s.sensitive || account.sensitized
    })
    &&& r.spoiler_text@ == s.spoiler_text@
    &&& r.visibility@ == visibility_name(s.visibility)
    &&& opt_view(r.language) == opt_view(s.language)
    &&& r.uri@ == status_id_view(urls, s, account)
    &&& opt_view(r.url) == status_url_view(urls, s, account)
    &&& r.replies_count == 0 && r.reblogs_count == 0 && r.favourites_count == 0
        && r.quotes_count == 0
    &&& opt_view(r.edited_at) == match s.edited_at {
        Some(t) => Some(mastodon_text(t)),
        None => None,
    }
    &&& r.content@ == status_content(s, account, mentions)
    &&& r.application == application
    &&& account_entity(r.account, urls, account, None)
    &&& media_entities(r.media_attachments@, urls, served_media(urls, media))
    &&& status_mention_views(r.mentions@) == status_mention_views(mentions)
    &&& r.tags@.len() == 0 && r.emojis@.len() == 0 && r.tagged_collections@.len() == 0
    &&& r.card is None && r.poll is None && r.quote is None && r.text is None
    &&& views(r.quote_approval.automatic@) == policy_labels(automatic_part(s.quote_approval_policy))
    &&& views(r.quote_approval.manual@) == policy_labels(manual_part(s.quote_approval_policy))
    &&& r.quote_approval.current_user@ == quote_current_user(s.quote_approval_policy, viewer)
    &&& r.favourited == (match viewer {
        Some(c) => Some(c.favourited),
        None => None,
    })
    &&& r.reblogged == (match viewer {
        Some(c) => Some(c.reblogged),
        None => None,
    })
    &&& r.muted == (match viewer {
        Some(c) => Some(c.muted),
        None => None,
    })
    &&& r.bookmarked == (match viewer {
        Some(c) => Some(c.bookmarked),
        None => None,
    })
    &&& r.pinned == pinned_view(s, account, viewer)
    &&& (match r.filtered {
        Some(f) => viewer is Some && f@.len() == 0,
        None => viewer is None,
    })
}

fn copy_mentions(ms: &[StatusMention]) -> (r: Vec<StatusMention>)
    ensures
        status_mention_views(r@) == status_mention_views(ms@),
{
    let mut r: Vec<StatusMention> = Vec::new();
    let mut i: usize = 0;
    while i < ms.len()
        invariant
            i <= ms@.len(),
            status_mention_views(r@) == status_mention_views(ms@.take(i as int)),
        decreases ms.len() - i,
    {
        let m = &ms[i];
        let ghost before = r@;
        assert(ms@.take(i + 1) =~= ms@.take(i as int).push(ms@[i as int]));
        r.push(
            StatusMention {
                id: m.id.clone(),
                username: m.username.clone(),
                url: m.url.clone(),
                acct: m.acct.clone(),
            },
        );
        assert(r@ =~= before.push(r@.last()));
        assert(status_mention_views(before.push(r@.last())) =~= status_mention_views(before).push(
            (m.id@, m.username@, m.url@, m.acct@),
        ));
        assert(status_mention_views(ms@.take(i as int).push(ms@[i as int])) =~= status_mention_views(
            ms@.take(i as int),
        ).push((m.id@, m.username@, m.url@, m.acct@)));
        i = i + 1;
    }
    assert(ms@.take(ms@.len() as int) =~= ms@);
    r
}

fn opt_int_string(v: Option<i64>) -> (r: Option<String>)
    ensures
        opt_view(r) == opt_int_text(v),
{
    match v {
        Some(i) => Some(int_to_string(i)),
        None => None,
    }
}

fn status_uri_exec(urls: &InstanceUrls, s: &Status, account: &Account) -> (r: String)
    ensures
        r@ == status_id_view(*urls, *s, *account),
{
    if account.domain.is_none() {
        let mut base = status_uri(
            urls.local_domain(),
            account.id,
            account.id_scheme,
            account.username.as_str(),
            s.id,
        );
        if s.reblog_of_id.is_some() {
            push_str(&mut base, "/activity");
        }
        base
    } else {
        match &s.uri {
            Some(u) => u.clone(),
            None => int_to_string(s.id),
        }
    }
}

fn distinct_url_exec(s: &Status) -> (r: bool)
    ensures
        r == distinct_url(*s),
{
    match &s.url {
        Some(u) => match &s.uri {
            Some(i) => !str_eq(u.as_str(), i.as_str()),
            None => true,
        },
        None => false,
    }
}

fn status_url_exec(urls: &InstanceUrls, s: &Status, account: &Account) -> (r: Option<String>)
    ensures
        opt_view(r) == status_url_view(*urls, *s, *account),
{
    if account.domain.is_none() {
        if distinct_url_exec(s) {
            let u = s.url.as_ref().unwrap();
            if char_count(u.as_str()) > 0 {
                return Some(u.clone());
            }
        }
        let mut r = owned("https://");
        push_str(&mut r, urls.local_domain());
        push_str(&mut r, "/@");
        push_str(&mut r, account.username.as_str());
        push_str(&mut r, "/");
        push_int(&mut r, s.id);
        Some(r)
    } else if distinct_url_exec(s) {
        Some(s.url.as_ref().unwrap().clone())
    } else {
        match &s.uri {
            Some(u) => status_url_from_uri(u.as_str()),
            None => None,
        }
    }
}

fn opt_mastodon(t: &Option<Timestamp>) -> (r: Option<String>)
    ensures
        opt_view(r) == match *t {
            Some(x) => Some(mastodon_text(x)),
            None => None,
        },
{
    match t {
        Some(x) => {
            let c = Timestamp {
                year: x.year,
                month: x.month,
                day: x.day,
                hour: x.hour,
                minute: x.minute,
                second: x.second,
                millis: x.millis,
            };
            Some(c.format_mastodon())
        },
        None => None,
    }
}

fn status_entity_exec(
    urls: &InstanceUrls,
    s: &Status,
    account: &Account,
    media: &Vec<MediaAttachment>,
    viewer: Option<&StatusViewerContext>,
    application: Option<types::Application>,
    mentions: &[StatusMention],
) -> (r: types::Status)
    ensures
        status_entity(
            r,
            *urls,
            *s,
            *account,
            media@,
            match viewer {
                Some(c) => Some(*c),
                None => None,
            },
            application,
            mentions@,
        ),
        r.reblog is None,
{
    let ghost vw = match viewer {
        Some(c) => Some(*c),
        None => None::<StatusViewerContext>,
    };
    let content = render_status_content(s, account, mentions);
    let author = match viewer {
        Some(c) => c.account_id == account.id,
        None => false,
    };
    let sensitive = if author {
        s.sensitive
    } else {
        s.sensitive || account.sensitized
    };
    let (favourited, reblogged, muted, bookmarked, pinned, filtered) = match viewer {
        Some(ctx) => (
            Some(ctx.favourited),
            Some(ctx.reblogged),
            Some(ctx.muted),
            Some(ctx.bookmarked),
            if author && s.reblog_of_id.is_none() && 0 <= s.visibility && s.visibility <= 2 {
                Some(ctx.pinned)
            } else {
                None
            },
            Some(Vec::new()),
        ),
        None => (None, None, None, None, None, None),
    };
    let created = Timestamp {
        year: s.created_at.year,
        month: s.created_at.month,
        day: s.created_at.day,
        hour: s.created_at.hour,
        minute: s.created_at.minute,
        second: s.created_at.second,
        millis: s.created_at.millis,
    };
    types::Status {
        id: int_to_string(s.id),
        created_at: created.format_mastodon(),
        in_reply_to_id: opt_int_string(s.in_reply_to_id),
        in_reply_to_account_id: opt_int_string(s.in_reply_to_account_id),
        sensitive,
        spoiler_text: s.spoiler_text.clone(),
        visibility: owned(visibility_str(s.visibility)),
        language: opt_clone(&s.language),
        uri: status_uri_exec(urls, s, account),
        url: status_url_exec(urls, s, account),
        replies_count: 0,
        reblogs_count: 0,
        favourites_count: 0,
        quotes_count: 0,
        edited_at: opt_mastodon(&s.edited_at),
        content,
        reblog: None,
        application,
        account: account_from_db(urls, account),
        media_attachments: served_media_exec(urls, media),
        mentions: copy_mentions(mentions),
        tags: Vec::new(),
        emojis: Vec::new(),
        card: None,
        poll: None,
        quote: None,
        quote_approval: build_quote_approval(s, viewer),
        tagged_collections: Vec::new(),
        favourited,
        reblogged,
        muted,
        bookmarked,
        pinned,
        filtered,
        text: None,
    }
}

/// A status entity, with its boosted status when it is a boost, seen by
/// `viewer_context` (`None` when nobody is signed in), posted with
/// `application`.
pub fn status_from_db_with_app(
    urls: &InstanceUrls,
    s: &Status,
    account: &Account,
    media: Vec<MediaAttachment>,
    reblog: Option<(Status, Account, Vec<MediaAttachment>)>,
    viewer_context: Option<StatusViewerContext>,
    application: Option<types::Application>,
    mentions: &[StatusMention],
    reblog_mentions: &[StatusMention],
) -> (r: types::Status)
    ensures
        status_entity(r, *urls, *s, *account, media@, viewer_context, application, mentions@),
        match reblog {
            Some((rs, ra, rm)) => r.reblog matches Some(b) && status_entity(
                *b,
                *urls,
                rs,
                ra,
                rm@,
                viewer_context,
                None,
                reblog_mentions@,
            ) && b.reblog is None,
            None => r.reblog is None,
        },
{
    let reblog_status = match &reblog {
        Some((rs, ra, rm)) => {
            let e = status_entity_exec(urls, rs, ra, rm, viewer_context.as_ref(), None, reblog_mentions);
            Some(Box::new(e))
        },
        None => None,
    };
    let mut r = status_entity_exec(
        urls,
        s,
        account,
        &media,
        viewer_context.as_ref(),
        application,
        mentions,
    );
    r.reblog = reblog_status;
    r
}

/// A status entity without an application.
pub fn status_from_db(
    urls: &InstanceUrls,
    s: &Status,
    account: &Account,
    media: Vec<MediaAttachment>,
    reblog: Option<(Status, Account, Vec<MediaAttachment>)>,
    viewer_context: Option<StatusViewerContext>,
    mentions: &[StatusMention],
    reblog_mentions: &[StatusMention],
) -> (r: types::Status)
    ensures
        status_entity(r, *urls, *s, *account, media@, viewer_context, None, mentions@),
        match reblog {
            Some((rs, ra, rm)) => r.reblog matches Some(b) && status_entity(
                *b,
                *urls,
                rs,
                ra,
                rm@,
                viewer_context,
                None,
                reblog_mentions@,
            ) && b.reblog is None,
            None => r.reblog is None,
        },
{
    status_from_db_with_app(
        urls,
        s,
        account,
        media,
        reblog,
        viewer_context,
        None,
        mentions,
        reblog_mentions,
    )
}

} // verus!
