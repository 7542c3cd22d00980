//! One's own profile (`GET`/`PATCH /api/v1/profile`): the account's text as
//! written and as rendered, its pictures, and its featured hashtags.
use vstd::prelude::*;
use crate::convert::{actor_is, field_views, fields_from_db, fields_of, FieldView};
use crate::formatting::{field_html, format_field_value, render_content, rendered, MentionMap};
use crate::json::json_of;
use crate::models::{date_text, format_date, Account, Timestamp};
use crate::text::{int_text, int_to_string, owned, push_str};
use crate::types;
use crate::urls::{
    account_avatar_url_for, account_header_url_for, avatar_url_view, header_url_view, opt_view,
    InstanceUrls,
};

verus! {

/// A featured hashtag as stored: its id, name, how many statuses use it and
/// when the last did.
pub struct FeaturedTagRow {
    pub id: i64,
    pub name: String,
    pub statuses_count: i64,
    pub last_status_at: Option<Timestamp>,
}

/// Mastodon's `FeaturedTag` entity.
pub struct FeaturedTag {
    pub id: String,
    pub name: String,
    pub url: String,
    pub statuses_count: String,
    pub last_status_at: Option<String>,
}

/// `https://{domain}/@{username}/tagged/{name}`: the hashtag's page on the
/// profile.
pub open spec fn tagged_url(domain: Seq<char>, username: Seq<char>, name: Seq<char>) -> Seq<char> {
    "https://"@ + domain + "/@"@ + username + "/tagged/"@ + name
}

/// The featured hashtag entity of a row, on the profile of `username`.
pub open spec fn featured_tag_holds(t: FeaturedTag, domain: Seq<char>, username: Seq<char>, row: FeaturedTagRow) -> bool {
    &&& t.id@ == int_text(row.id as int)
    &&& t.name@ == row.name@
    &&& t.url@ == tagged_url(domain, username, row.name@)
    &&& t.statuses_count@ == int_text(row.statuses_count as int)
    &&& opt_view(t.last_status_at) == match row.last_status_at {
        Some(d) => Some(date_text(d)),
        None => None,
    }
}

pub fn featured_tag(domain: &str, username: &str, row: &FeaturedTagRow) -> (t: FeaturedTag)
    ensures
        featured_tag_holds(t, domain@, username@, *row),
{
    let mut url = owned("https://");
    push_str(&mut url, domain);
    push_str(&mut url, "/@");
    push_str(&mut url, username);
    push_str(&mut url, "/tagged/");
    push_str(&mut url, row.name.as_str());
    FeaturedTag {
        id: int_to_string(row.id),
        name: owned(row.name.as_str()),
        url,
        statuses_count: int_to_string(row.statuses_count),
        last_status_at: match row.last_status_at {
            Some(d) => Some(format_date(&d)),
            None => None,
        },
    }
}

/// Mastodon's `Profile` entity.
pub struct Profile {
    pub id: String,
    pub username: String,
    pub display_name: String,
    pub note: String,
    pub fields: Vec<types::Field>,
    pub formatted_note: String,
    pub formatted_fields: Vec<types::Field>,
    pub avatar: Option<String>,
    pub avatar_static: Option<String>,
    pub header: Option<String>,
    pub header_static: Option<String>,
    pub locked: bool,
    pub bot: bool,
    pub hide_collections: Option<bool>,
    pub discoverable: Option<bool>,
    pub indexable: bool,
    pub attribution_domains: Vec<String>,
    pub featured_tags: Vec<FeaturedTag>,
}

/// The stored fields of an account; an account without any has none.
pub open spec fn stored_fields(a: Account) -> Seq<FieldView> {
    match a.fields {
        Some(f) => fields_of(json_of(f)),
        None => Seq::empty(),
    }
}

/// A field with its value rendered.
pub open spec fn formatted_field(f: FieldView) -> FieldView {
    (f.0, field_html(f.1), f.2)
}

fn formatted_fields(fs: &Vec<types::Field>) -> (r: Vec<types::Field>)
    ensures
        field_views(r@) == field_views(fs@).map_values(|f: FieldView| formatted_field(f)),
{
    let mut out: Vec<types::Field> = Vec::new();
    let mut i: usize = 0;
    while i < fs.len()
        invariant
            i <= fs@.len(),
            field_views(out@) == field_views(fs@).take(i as int).map_values(
                |f: FieldView| formatted_field(f),
            ),
        decreases fs.len() - i,
    {
        let f = &fs[i];
        let g = types::Field {
            name: owned(f.name.as_str()),
            value: format_field_value(f.value.as_str()),
            verified_at: match &f.verified_at {
                Some(v) => Some(owned(v.as_str())),
                None => None,
            },
        };
        let ghost before = out@;
        out.push(g);
        proof {
            assert(out@ =~= before.push(g));
            assert(field_views(out@) =~= field_views(before).push(
                (g.name@, g.value@, opt_view(g.verified_at)),
            ));
            assert(field_views(fs@)[i as int] == (f.name@, f.value@, opt_view(f.verified_at)));
            assert(field_views(fs@).take(i + 1).map_values(|f: FieldView| formatted_field(f))
                =~= field_views(fs@).take(i as int).map_values(|f: FieldView| formatted_field(f)).push(
                formatted_field(field_views(fs@)[i as int]),
            ));
        }
        i = i + 1;
    }
    assert(field_views(fs@).take(fs@.len() as int) =~= field_views(fs@));
    out
}

fn copy_strings(v: &Vec<String>) -> (r: Vec<String>)
    ensures
        r@.map_values(|s: String| s@) == v@.map_values(|s: String| s@),
{
    let mut out: Vec<String> = Vec::new();
    let mut i: usize = 0;
    while i < v.len()
        invariant
            i <= v@.len(),
            out@.map_values(|s: String| s@) == v@.take(i as int).map_values(|s: String| s@),
        decreases v.len() - i,
    {
        let t = owned(v[i].as_str());
        let ghost before = out@;
        out.push(t);
        assert(out@ == before.push(t));
        assert(out@.map_values(|s: String| s@) =~= before.map_values(|s: String| s@).push(
            v@[i as int]@,
        ));
        assert(v@.take(i + 1).map_values(|s: String| s@) =~= v@.take(i as int).map_values(
            |s: String| s@,
        ).push(v@[i as int]@));
        i = i + 1;
    }
    assert(v@.take(v@.len() as int) =~= v@);
    out
}

/// The profile of an account on instance `domain`: its note rendered
/// without mentions, its fields as stored and with their values rendered,
/// both pictures (the static ones the same), and its featured hashtags in
/// order.
pub fn profile_entity(
    urls: &InstanceUrls,
    domain: &str,
    a: &Account,
    attribution_domains: &Option<Vec<String>>,
    featured: &Vec<FeaturedTagRow>,
) -> (r: Profile)
    ensures
        r.id@ == int_text(a.id as int),
        r.username@ == a.username@,
        r.display_name@ == a.display_name@,
        r.note@ == a.note@,
        field_views(r.fields@) == stored_fields(*a),
        r.formatted_note@ == rendered(a.note@, domain@, Seq::empty()),
        field_views(r.formatted_fields@) == stored_fields(*a).map_values(
            |f: FieldView| formatted_field(f),
        ),
        opt_view(r.avatar) == Some(
            avatar_url_view(*urls, a.id as int, opt_view(a.avatar_file_name), opt_view(a.avatar_remote_url)),
        ),
        opt_view(r.avatar_static) == opt_view(r.avatar),
        opt_view(r.header) == Some(header_url_view(*urls, *a)),
        opt_view(r.header_static) == opt_view(r.header),
        r.locked == a.locked,
        r.bot == actor_is(*a, "Service"@),
        r.hide_collections == a.hide_collections,
        r.discoverable == a.discoverable,
        r.indexable == a.indexable,
        r.attribution_domains@.map_values(|s: String| s@) == match attribution_domains {
            Some(ds) => ds@.map_values(|s: String| s@),
            None => Seq::empty(),
        },
        r.featured_tags@.len() == featured@.len(),
        forall|k: int|
            0 <= k < featured@.len() ==> featured_tag_holds(
                #[trigger] r.featured_tags@[k],
                domain@,
                a.username@,
                featured@[k],
            ),
{
    let mut tags: Vec<FeaturedTag> = Vec::new();
    let mut i: usize = 0;
    while i < featured.len()
        invariant
            i <= featured@.len(),
            tags@.len() == i,
            forall|k: int|
                0 <= k < i ==> featured_tag_holds(
                    #[trigger] tags@[k],
                    domain@,
                    a.username@,
                    featured@[k],
                ),
        decreases featured.len() - i,
    {
        tags.push(featured_tag(domain, a.username.as_str(), &featured[i]));
        i = i + 1;
    }
    let fields = match &a.fields {
        Some(f) => fields_from_db(f),
        None => {
            let v: Vec<types::Field> = Vec::new();
            assert(field_views(v@) =~= Seq::<FieldView>::empty());
            v
        },
    };
    let formatted = formatted_fields(&fields);
    let empty = MentionMap::new();
    let avatar = account_avatar_url_for(urls, a);
    let header = account_header_url_for(urls, a);
    let domains = match attribution_domains {
        Some(ds) => copy_strings(ds),
        None => {
            let v: Vec<String> = Vec::new();
            assert(v@.map_values(|s: String| s@) =~= Seq::<Seq<char>>::empty());
            v
        },
    };
    let bot = match &a.actor_type {
        Some(t) => crate::text::str_eq(t.as_str(), "Service"),
        None => false,
    };
    Profile {
        id: int_to_string(a.id),
        username: owned(a.username.as_str()),
        display_name: owned(a.display_name.as_str()),
        note: owned(a.note.as_str()),
        fields,
        formatted_note: render_content(a.note.as_str(), domain, &empty),
        formatted_fields: formatted,
        avatar: Some(owned(avatar.as_str())),
        avatar_static: Some(avatar),
        header: Some(owned(header.as_str())),
        header_static: Some(header),
        locked: a.locked,
        bot,
        hide_collections: a.hide_collections,
        discoverable: a.discoverable,
        indexable: a.indexable,
        attribution_domains: domains,
        featured_tags: tags,
    }
}

} // verus!
