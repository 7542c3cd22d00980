//! Where things live: the URLs of media, avatars, headers, statuses, tags and
//! invites on an instance.
use vstd::prelude::*;
use crate::models::{Account, MediaAttachment};
use crate::text::{
    char_at, char_count, int_text, owned, padded, push_char, push_int, push_padded, push_str,
    split_once, split_once_view, strip_suffix, strip_suffix_view,
};

verus! {

/// What an instance's URLs are built from: its domain, and where its media is
/// served.
pub struct InstanceUrls {
    /// The domain local accounts' and statuses' URLs are built on.
    pub local_domain: String,
    /// The public URL media paths hang off, without a trailing slash.
    media_base: String,
    missing_avatar: String,
    missing_header: String,
}

/// The path of the default avatar, under the media base.
pub open spec fn missing_avatar_suffix() -> Seq<char> {
    "/avatars/original/missing.png"@
}

impl InstanceUrls {
    pub closed spec fn local_domain_view(&self) -> Seq<char> {
        self.local_domain@
    }

    pub closed spec fn media_base_view(&self) -> Seq<char> {
        self.media_base@
    }

    pub closed spec fn missing_avatar_view(&self) -> Seq<char> {
        self.missing_avatar@
    }

    pub closed spec fn missing_header_view(&self) -> Seq<char> {
        self.missing_header@
    }

    /// `missing_avatar` and `missing_header` are the storage's public URLs for
    /// the default images; the media base is read off the avatar's.
    pub fn new(local_domain: String, missing_avatar: String, missing_header: String) -> (r: Self)
        ensures
            r.local_domain_view() == local_domain@,
            r.missing_avatar_view() == missing_avatar@,
            r.missing_header_view() == missing_header@,
            r.media_base_view() == match strip_suffix_view(missing_avatar@, missing_avatar_suffix()) {
                Some(b) => b,
                None => Seq::empty(),
            },
    {
        let media_base = match strip_suffix(missing_avatar.as_str(), "/avatars/original/missing.png") {
            Some(b) => b,
            None => String::new(),
        };
        InstanceUrls { local_domain, media_base, missing_avatar, missing_header }
    }

    pub fn local_domain(&self) -> (r: &str)
        ensures
            r@ == self.local_domain_view(),
    {
        self.local_domain.as_str()
    }

    pub fn missing_avatar(&self) -> (r: &str)
        ensures
            r@ == self.missing_avatar_view(),
    {
        self.missing_avatar.as_str()
    }

    pub fn missing_header(&self) -> (r: &str)
        ensures
            r@ == self.missing_header_view(),
    {
        self.missing_header.as_str()
    }

    pub fn media_base(&self) -> (r: &str)
        ensures
            r@ == self.media_base_view(),
    {
        self.media_base.as_str()
    }
}

// ── Id partitions ──────────────────────────────────────────────────────────

/// The first `k` three-digit groups of `ds`, joined by `/`.
pub open spec fn groups_joined(ds: Seq<char>, k: nat) -> Seq<char>
    decreases k,
{
    if k == 0 {
        Seq::empty()
    } else if k == 1 {
        ds.subrange(0, 3)
    } else {
        groups_joined(ds, (k - 1) as nat) + seq!['/'] + ds.subrange(3 * (k - 1), 3 * k as int)
    }
}

/// The magnitude of an id.
pub open spec fn magnitude(id: int) -> nat {
    if id < 0 {
        (-id) as nat
    } else {
        id as nat
    }
}

/// Paperclip's `id_partition`: the id zero-padded to nine digits, cut into
/// three-digit groups from the left (a trailing part shorter than three digits
/// is dropped), joined by `/`.
pub open spec fn id_path(id: int) -> Seq<char> {
    let ds = padded(magnitude(id), 9);
    groups_joined(ds, ds.len() / 3)
}

pub fn int_to_path(id: i64) -> (r: String)
    ensures
        r@ == id_path(id as int),
{
    let m: u64 = if id < 0 {
        (-(id as i128)) as u64
    } else {
        id as u64
    };
    let mut digits = String::new();
    push_padded(&mut digits, m, 9);
    let ghost ds = digits@;
    assert(ds == padded(magnitude(id as int), 9));
    let n = char_count(digits.as_str());
    let groups = n / 3;
    let mut r = String::new();
    let mut k: usize = 0;
    while k < groups
        invariant
            ds == digits@,
            n == ds.len(),
            groups == n / 3,
            k <= groups,
            r@ == groups_joined(ds, k as nat),
        decreases groups - k,
    {
        if k > 0 {
            push_char(&mut r, '/');
        }
        let ghost before = r@;
        push_char(&mut r, char_at(digits.as_str(), 3 * k));
        push_char(&mut r, char_at(digits.as_str(), 3 * k + 1));
        push_char(&mut r, char_at(digits.as_str(), 3 * k + 2));
        proof {
            let kk = (k + 1) as nat;
            if k == 0 {
                assert(r@ =~= groups_joined(ds, kk));
            } else {
                assert(r@ =~= groups_joined(ds, k as nat) + seq!['/'] + ds.subrange(3 * k, 3 * kk as int));
            }
        }
        k = k + 1;
    }
    r
}

// ── Avatars, headers, media ────────────────────────────────────────────────

/// `{base}/{kind}/{id_path}/{style}/{file}`.
pub open spec fn stored_url(base: Seq<char>, kind: Seq<char>, id: int, style: Seq<char>, file: Seq<char>) -> Seq<char> {
    base + seq!['/'] + kind + seq!['/'] + id_path(id) + seq!['/'] + style + seq!['/'] + file
}

fn stored_file_url(base: &str, kind: &str, id: i64, style: &str, file: &str) -> (r: String)
    ensures
        r@ == stored_url(base@, kind@, id as int, style@, file@),
{
    let mut r = owned(base);
    push_char(&mut r, '/');
    push_str(&mut r, kind);
    push_char(&mut r, '/');
    let p = int_to_path(id);
    push_str(&mut r, p.as_str());
    push_char(&mut r, '/');
    push_str(&mut r, style);
    push_char(&mut r, '/');
    push_str(&mut r, file);
    assert(r@ =~= stored_url(base@, kind@, id as int, style@, file@));
    r
}

/// A non-empty optional text.
pub open spec fn present(s: Option<Seq<char>>) -> bool {
    s matches Some(t) && t.len() > 0
}

/// The optional text of an optional string.
pub open spec fn opt_view(s: Option<String>) -> Option<Seq<char>> {
    match s {
        Some(t) => Some(t@),
        None => None,
    }
}

/// The avatar: the remote URL when there is one, else the stored file, else
/// the default.
pub open spec fn avatar_url_view(
    urls: InstanceUrls,
    id: int,
    file_name: Option<Seq<char>>,
    remote_url: Option<Seq<char>>,
) -> Seq<char> {
    if present(remote_url) {
        remote_url->0
    } else if present(file_name) {
        stored_url(urls.media_base_view(), "accounts/avatars"@, id, "original"@, file_name->0)
    } else {
        urls.missing_avatar_view()
    }
}

/// The header: the remote URL when there is one, else the stored file, else
/// the default.
pub open spec fn header_url_view(urls: InstanceUrls, a: Account) -> Seq<char> {
    if a.header_remote_url@.len() > 0 {
        a.header_remote_url@
    } else if present(opt_view(a.header_file_name)) {
        stored_url(
            urls.media_base_view(),
            "accounts/headers"@,
            a.id as int,
            "original"@,
            a.header_file_name->0@,
        )
    } else {
        urls.missing_header_view()
    }
}

/// Whether an optional string is present and non-empty.
pub fn is_present(s: &Option<String>) -> (r: bool)
    ensures
        r == present(opt_view(*s)),
{
    match s {
        Some(t) => char_count(t.as_str()) > 0,
        None => false,
    }
}

/// Avatar URL from the minimal columns, for bulk queries that do not load a
/// whole account.
pub fn account_avatar_url_parts(
    urls: &InstanceUrls,
    id: i64,
    avatar_file_name: Option<&str>,
    avatar_remote_url: Option<&str>,
) -> (r: String)
    ensures
        r@ == avatar_url_view(
            *urls,
            id as int,
            match avatar_file_name {
                Some(f) => Some(f@),
                None => None,
            },
            match avatar_remote_url {
                Some(u) => Some(u@),
                None => None,
            },
        ),
{
    if let Some(url) = avatar_remote_url {
        if char_count(url) > 0 {
            return owned(url);
        }
    }
    if let Some(filename) = avatar_file_name {
        if char_count(filename) > 0 {
            return stored_file_url(urls.media_base(), "accounts/avatars", id, "original", filename);
        }
    }
    owned(urls.missing_avatar())
}

pub fn account_avatar_url(urls: &InstanceUrls, a: &Account) -> (r: String)
    ensures
        r@ == avatar_url_view(*urls, a.id as int, opt_view(a.avatar_file_name), opt_view(a.avatar_remote_url)),
{
    let f: Option<&str> = match &a.avatar_file_name {
        Some(s) => Some(s.as_str()),
        None => None,
    };
    let u: Option<&str> = match &a.avatar_remote_url {
        Some(s) => Some(s.as_str()),
        None => None,
    };
    account_avatar_url_parts(urls, a.id, f, u)
}

pub fn account_header_url(urls: &InstanceUrls, a: &Account) -> (r: String)
    ensures
        r@ == header_url_view(*urls, *a),
{
    if char_count(a.header_remote_url.as_str()) > 0 {
        return a.header_remote_url.clone();
    }
    if let Some(filename) = &a.header_file_name {
        if char_count(filename.as_str()) > 0 {
            return stored_file_url(
                urls.media_base(),
                "accounts/headers",
                a.id,
                "original",
                filename.as_str(),
            );
        }
    }
    owned(urls.missing_header())
}

pub fn account_avatar_url_for(urls: &InstanceUrls, a: &Account) -> (r: String)
    ensures
        r@ == avatar_url_view(*urls, a.id as int, opt_view(a.avatar_file_name), opt_view(a.avatar_remote_url)),
{
    account_avatar_url(urls, a)
}

pub fn account_header_url_for(urls: &InstanceUrls, a: &Account) -> (r: String)
    ensures
        r@ == header_url_view(*urls, *a),
{
    account_header_url(urls, a)
}

/// The present, non-empty text of an optional string.
pub open spec fn nonempty(s: Option<Seq<char>>) -> Option<Seq<char>> {
    if present(s) {
        s
    } else {
        None
    }
}

/// The media file: the stored original, else the remote URL.
pub open spec fn media_url_view(urls: InstanceUrls, m: MediaAttachment) -> Option<Seq<char>> {
    if present(opt_view(m.file_file_name)) {
        Some(
            stored_url(
                urls.media_base_view(),
                "media_attachments/files"@,
                m.id as int,
                "original"@,
                m.file_file_name->0@,
            ),
        )
    } else {
        nonempty(opt_view(m.remote_url))
    }
}

/// The preview: the stored thumbnail, else the stored file's small style,
/// else the remote thumbnail.
pub open spec fn media_preview_url_view(urls: InstanceUrls, m: MediaAttachment) -> Option<Seq<char>> {
    if present(opt_view(m.thumbnail_file_name)) {
        Some(
            stored_url(
                urls.media_base_view(),
                "media_attachments/files"@,
                m.id as int,
                "small"@,
                m.thumbnail_file_name->0@,
            ),
        )
    } else if present(opt_view(m.file_file_name)) {
        Some(
            stored_url(
                urls.media_base_view(),
                "media_attachments/files"@,
                m.id as int,
                "small"@,
                m.file_file_name->0@,
            ),
        )
    } else {
        nonempty(opt_view(m.thumbnail_remote_url))
    }
}

/// A copy of an optional string when it is present and non-empty.
pub fn nonempty_copy(s: &Option<String>) -> (r: Option<String>)
    ensures
        opt_view(r) == nonempty(opt_view(*s)),
{
    match s {
        Some(t) => if char_count(t.as_str()) > 0 {
            Some(t.clone())
        } else {
            None
        },
        None => None,
    }
}

pub fn media_url(urls: &InstanceUrls, m: &MediaAttachment) -> (r: Option<String>)
    ensures
        opt_view(r) == media_url_view(*urls, *m),
{
    if let Some(filename) = &m.file_file_name {
        if char_count(filename.as_str()) > 0 {
            return Some(
                stored_file_url(
                    urls.media_base(),
                    "media_attachments/files",
                    m.id,
                    "original",
                    filename.as_str(),
                ),
            );
        }
    }
    nonempty_copy(&m.remote_url)
}

pub fn media_preview_url(urls: &InstanceUrls, m: &MediaAttachment) -> (r: Option<String>)
    ensures
        opt_view(r) == media_preview_url_view(*urls, *m),
{
    if let Some(filename) = &m.thumbnail_file_name {
        if char_count(filename.as_str()) > 0 {
            return Some(
                stored_file_url(
                    urls.media_base(),
                    "media_attachments/files",
                    m.id,
                    "small",
                    filename.as_str(),
                ),
            );
        }
    }
    if let Some(filename) = &m.file_file_name {
        if char_count(filename.as_str()) > 0 {
            return Some(
                stored_file_url(
                    urls.media_base(),
                    "media_attachments/files",
                    m.id,
                    "small",
                    filename.as_str(),
                ),
            );
        }
    }
    nonempty_copy(&m.thumbnail_remote_url)
}

// ── ActivityPub ids and web URLs ───────────────────────────────────────────

/// `https://{domain}/users/{username}`, or `https://{domain}/ap/users/{id}`
/// under the numeric id scheme.
pub open spec fn account_uri_view(domain: Seq<char>, id: int, id_scheme: i32, username: Seq<char>) -> Seq<char> {
    if id_scheme == 1 {
        "https://"@ + domain + "/ap/users/"@ + int_text(id)
    } else {
        "https://"@ + domain + "/users/"@ + username
    }
}

/// The account's id followed by `/statuses/{status_id}`.
pub open spec fn status_uri_view(
    domain: Seq<char>,
    account_id: int,
    id_scheme: i32,
    username: Seq<char>,
    status_id: int,
) -> Seq<char> {
    account_uri_view(domain, account_id, id_scheme, username) + "/statuses/"@ + int_text(status_id)
}

pub fn account_uri(domain: &str, id: i64, id_scheme: i32, username: &str) -> (r: String)
    ensures
        r@ == account_uri_view(domain@, id as int, id_scheme, username@),
{
    let mut r = owned("https://");
    push_str(&mut r, domain);
    if id_scheme == 1 {
        push_str(&mut r, "/ap/users/");
        push_int(&mut r, id);
    } else {
        push_str(&mut r, "/users/");
        push_str(&mut r, username);
    }
    r
}

pub fn status_uri(domain: &str, account_id: i64, id_scheme: i32, username: &str, status_id: i64) -> (r: String)
    ensures
        r@ == status_uri_view(domain@, account_id as int, id_scheme, username@, status_id as int),
{
    let mut r = account_uri(domain, account_id, id_scheme, username);
    push_str(&mut r, "/statuses/");
    push_int(&mut r, status_id);
    r
}

/// `https://{domain}{path}{name}`.
pub open spec fn site_url(domain: Seq<char>, path: Seq<char>, name: Seq<char>) -> Seq<char> {
    "https://"@ + domain + path + name
}

fn site(domain: &str, path: &str, name: &str) -> (r: String)
    ensures
        r@ == site_url(domain@, path@, name@),
{
    let mut r = owned("https://");
    push_str(&mut r, domain);
    push_str(&mut r, path);
    push_str(&mut r, name);
    r
}

/// A hashtag's page: `https://{domain}/tags/{name}`.
pub fn tag_url(domain: &str, name: &str) -> (r: String)
    ensures
        r@ == site_url(domain@, "/tags/"@, name@),
{
    site(domain, "/tags/", name)
}

/// The admin API's link to a hashtag's page.
pub fn admin_tag_url(domain: &str, name: &str) -> (r: String)
    ensures
        r@ == site_url(domain@, "/tags/"@, name@),
{
    site(domain, "/tags/", name)
}

/// A featured hashtag on a profile: `https://{domain}/@{username}/tagged/{name}`.
pub fn featured_tag_url(domain: &str, username: &str, name: &str) -> (r: String)
    ensures
        r@ == site_url(domain@, "/@"@, username@ + "/tagged/"@ + name@),
{
    let mut r = site(domain, "/@", username);
    push_str(&mut r, "/tagged/");
    push_str(&mut r, name);
    assert(r@ =~= site_url(domain@, "/@"@, username@ + "/tagged/"@ + name@));
    r
}

/// The sign-up link of an invite: `https://{domain}/auth/signup?invite={code}`.
pub fn invite_url(domain: &str, code: &str) -> (r: String)
    ensures
        r@ == site_url(domain@, "/auth/signup?invite="@, code@),
{
    site(domain, "/auth/signup?invite=", code)
}

/// A collection's id: `https://{domain}/collections/{id}`.
pub fn collection_uri(domain: &str, id: i64) -> (r: String)
    ensures
        r@ == site_url(domain@, "/collections/"@, int_text(id as int)),
{
    let mut r = owned("https://");
    push_str(&mut r, domain);
    push_str(&mut r, "/collections/");
    push_int(&mut r, id);
    assert(r@ =~= site_url(domain@, "/collections/"@, int_text(id as int)));
    r
}

/// The web page of a remote status, from its ActivityPub id:
/// `{base}/users/{username}/statuses/{id}` becomes `{base}/@{username}/{id}`.
pub open spec fn status_url_from_uri_view(uri: Seq<char>) -> Option<Seq<char>> {
    match split_once_view(uri, "/users/"@) {
        Some((base, rest)) => match split_once_view(rest, "/statuses/"@) {
            Some((username, id)) => Some(base + "/@"@ + username + seq!['/'] + id),
            None => None,
        },
        None => None,
    }
}

pub fn status_url_from_uri(uri: &str) -> (r: Option<String>)
    ensures
        opt_view(r) == status_url_from_uri_view(uri@),
{
    let (base, rest) = match split_once(uri, "/users/") {
        Some(p) => p,
        None => return None,
    };
    let (username, id) = match split_once(rest.as_str(), "/statuses/") {
        Some(p) => p,
        None => return None,
    };
    let mut r = base;
    push_str(&mut r, "/@");
    push_str(&mut r, username.as_str());
    push_char(&mut r, '/');
    push_str(&mut r, id.as_str());
    Some(r)
}

} // verus!
