//! Collections: curated lists of featured accounts with an approval workflow
//! (`pending`, `accepted`, `rejected`, `revoked`). What is checked of a
//! collection's name, description and tag, and when an account may be added.
use vstd::prelude::*;
use crate::error::{is_unprocessable, unprocessable, ApiError};
use crate::formatting::{lowercase, to_lowercase};
use crate::pagination::{parse_i64, parse_i64_view};
use crate::text::{
    char_count, int_to_string, owned, push_str, trim, trim_start_char, trimmed, without_leading,
};

verus! {

/// The body of `POST /api/v1/collections`.
pub struct CreateCollectionForm {
    pub name: Option<String>,
    pub description: Option<String>,
    pub language: Option<String>,
    pub sensitive: Option<bool>,
    pub discoverable: Option<bool>,
    pub tag_name: Option<String>,
    pub account_ids: Vec<String>,
}

/// The body of `PUT /api/v1/collections/{id}`.
pub struct UpdateCollectionForm {
    pub name: Option<String>,
    pub description: Option<String>,
    pub language: Option<String>,
    pub sensitive: Option<bool>,
    pub discoverable: Option<bool>,
    pub tag_name: Option<String>,
}

/// The body of `POST /api/v1/collections/{id}/items`.
pub struct AddItemForm {
    pub account_id: Option<String>,
}

/// Longest name, in characters.
pub const NAME_MAX: usize = 40;
/// Longest description, in characters.
pub const DESCRIPTION_MAX: usize = 100;
/// Most items pending or accepted in one collection.
pub const MAX_ITEMS: i64 = 25;
/// Most collections one account may have.
pub const DEFAULT_COLLECTION_LIMIT: i64 = 10;

/// The name of an item's stored state: 1 accepted, 2 rejected, 3 revoked,
/// anything else pending.
pub open spec fn state_name(state: i32) -> Seq<char> {
    if state == 1 {
        "accepted"@
    } else if state == 2 {
        "rejected"@
    } else if state == 3 {
        "revoked"@
    } else {
        "pending"@
    }
}

pub fn state_str(state: i32) -> (r: &'static str)
    ensures
        r@ == state_name(state),
{
    if state == 1 {
        "accepted"
    } else if state == 2 {
        "rejected"
    } else if state == 3 {
        "revoked"
    } else {
        "pending"
    }
}

pub open spec fn blank_name_message() -> Seq<char> {
    "name can't be blank"@
}

pub open spec fn long_name_message() -> Seq<char> {
    "name is too long (maximum is 40 characters)"@
}

pub open spec fn long_description_message() -> Seq<char> {
    "description is too long (maximum is 100 characters)"@
}

/// A collection's name as it is stored: trimmed, not blank, at most 40
/// characters once trimmed.
pub fn validate_name(name: &str) -> (r: Result<String, ApiError>)
    ensures
        trimmed(name@).len() == 0 ==> is_unprocessable(r, blank_name_message()),
        0 < trimmed(name@).len() && trimmed(name@).len() > 40 ==> is_unprocessable(
            r,
            long_name_message(),
        ),
        0 < trimmed(name@).len() <= 40 ==> (r matches Ok(n) && n@ == trimmed(name@)),
{
    let t = trim(name);
    let n = char_count(t.as_str());
    if n == 0 {
        return Err(unprocessable("name can't be blank"));
    }
    if n > NAME_MAX {
        return Err(unprocessable("name is too long (maximum is 40 characters)"));
    }
    Ok(t)
}

/// A description of more than 100 characters is refused.
pub fn validate_description(description: &Option<String>) -> (r: Result<(), ApiError>)
    ensures
        r is Ok <==> (description matches Some(d) ==> d@.len() <= 100),
        r is Err ==> is_unprocessable(r, long_description_message()),
{
    match description {
        Some(d) => {
            if char_count(d.as_str()) > DESCRIPTION_MAX {
                Err(unprocessable("description is too long (maximum is 100 characters)"))
            } else {
                Ok(())
            }
        },
        None => Ok(()),
    }
}

/// What `POST /api/v1/collections` checks of its form before it writes: the
/// name (a missing one is blank), then the description. Gives the stored name.
pub fn validate_create_form(form: &CreateCollectionForm) -> (r: Result<String, ApiError>)
    ensures
        ({
            let t = trimmed(
                match form.name {
                    Some(n) => n@,
                    None => Seq::empty(),
                },
            );
            &&& t.len() == 0 ==> is_unprocessable(r, blank_name_message())
            &&& 0 < t.len() && t.len() > 40 ==> is_unprocessable(r, long_name_message())
            &&& 0 < t.len() <= 40 ==> match form.description {
                Some(d) if d@.len() > 100 => is_unprocessable(r, long_description_message()),
                _ => (r matches Ok(n) && n@ == t),
            }
        }),
{
    let name = match &form.name {
        Some(n) => n.as_str(),
        None => "",
    };
    proof {
        reveal_strlit("");
    }
    let stored = validate_name(name)?;
    validate_description(&form.description)?;
    Ok(stored)
}

/// What `PUT /api/v1/collections/{id}` checks: a name, when given, as on
/// create, then the description. Gives the name to store, if any.
pub fn validate_update_form(form: &UpdateCollectionForm) -> (r: Result<Option<String>, ApiError>)
    ensures
        match form.name {
            Some(n) => {
                let t = trimmed(n@);
                &&& t.len() == 0 ==> is_unprocessable(r, blank_name_message())
                &&& 0 < t.len() && t.len() > 40 ==> is_unprocessable(r, long_name_message())
                &&& 0 < t.len() <= 40 ==> match form.description {
                    Some(d) if d@.len() > 100 => is_unprocessable(r, long_description_message()),
                    _ => r matches Ok(Some(s)) && s@ == t,
                }
            },
            None => match form.description {
                Some(d) if d@.len() > 100 => is_unprocessable(r, long_description_message()),
                _ => r matches Ok(None),
            },
        },
{
    let stored = match &form.name {
        Some(n) => Some(validate_name(n.as_str())?),
        None => None,
    };
    validate_description(&form.description)?;
    Ok(stored)
}

/// The per-account cap, checked on create.
pub fn check_collection_count(existing: i64) -> (r: Result<(), ApiError>)
    ensures
        r is Ok <==> existing < 10,
        r is Err ==> is_unprocessable(r, "You cannot create more than 10 collections"@),
{
    if existing >= DEFAULT_COLLECTION_LIMIT {
        Err(unprocessable("You cannot create more than 10 collections"))
    } else {
        Ok(())
    }
}

/// The tag name a collection is filed under: trimmed, without leading `#`,
/// lowercased.
pub open spec fn tag_name_view(raw: Seq<char>) -> Seq<char> {
    lowercase(without_leading(trimmed(raw), '#'))
}

/// Normalizes a collection's tag name; one that is empty once normalized is
/// refused.
pub fn normalize_tag_name(raw: &str) -> (r: Result<String, ApiError>)
    ensures
        tag_name_view(raw@).len() == 0 ==> is_unprocessable(r, "tag_name is invalid"@),
        tag_name_view(raw@).len() > 0 ==> (r matches Ok(n) && n@ == tag_name_view(raw@)),
{
    let t = trim(raw);
    let h = trim_start_char(t.as_str(), '#');
    let name = to_lowercase(h.as_str());
    if char_count(name.as_str()) == 0 {
        Err(unprocessable("tag_name is invalid"))
    } else {
        Ok(name)
    }
}

/// What an update does to a collection's tag.
pub enum TagChange {
    /// No `tag_name`: the tag stays.
    Keep,
    /// A blank `tag_name`: the tag goes.
    Clear,
    /// Any other: the collection is filed under this raw name.
    Rename(String),
}

/// The tag change an update form asks for.
pub fn tag_change(tag_name: &Option<String>) -> (r: TagChange)
    ensures
        match tag_name {
            None => r is Keep,
            Some(t) => if trimmed(t@).len() == 0 {
                r is Clear
            } else {
                r matches TagChange::Rename(s) && s@ == t@
            },
        },
{
    match tag_name {
        None => TagChange::Keep,
        Some(t) => {
            let tr = trim(t.as_str());
            if char_count(tr.as_str()) == 0 {
                TagChange::Clear
            } else {
                TagChange::Rename(owned(t.as_str()))
            }
        },
    }
}

pub open spec fn cannot_add_message() -> Seq<char> {
    "This account cannot be added to collections"@
}

pub open spec fn too_many_items_message() -> Seq<char> {
    "Collections cannot have more than 25 items"@
}

/// Whether an account may become an item, and the state it starts in: an
/// account that is suspended or asked to be deleted may not; nor may any once
/// 25 items are pending or accepted. A local account is accepted at once
/// (1); a remote one is pending (0) until it consents.
pub fn admit_item(unavailable: bool, current_items: i64, is_remote: bool) -> (r: Result<i32, ApiError>)
    ensures
        unavailable ==> is_unprocessable(r, cannot_add_message()),
        !unavailable && current_items >= 25 ==> is_unprocessable(r, too_many_items_message()),
        !unavailable && current_items < 25 ==> r == Ok::<i32, ApiError>(
            if is_remote {
                0i32
            } else {
                1i32
            },
        ),
{
    if unavailable {
        return Err(unprocessable("This account cannot be added to collections"));
    }
    if current_items >= MAX_ITEMS {
        return Err(unprocessable("Collections cannot have more than 25 items"));
    }
    if is_remote {
        Ok(0)
    } else {
        Ok(1)
    }
}

/// The account an add-item form names; one that is missing or not an
/// integer is refused.
pub fn item_account_id(form: &AddItemForm) -> (r: Result<i64, ApiError>)
    ensures
        match form.account_id {
            Some(s) => match parse_i64_view(s@) {
                Some(v) => r == Ok::<i64, ApiError>(v as i64),
                None => is_unprocessable(r, "`account_id` parameter is missing"@),
            },
            None => is_unprocessable(r, "`account_id` parameter is missing"@),
        },
{
    match &form.account_id {
        Some(s) => match parse_i64(s.as_str()) {
            Some(v) => Ok(v),
            None => Err(unprocessable("`account_id` parameter is missing")),
        },
        None => Err(unprocessable("`account_id` parameter is missing")),
    }
}

/// Only a collection's owner may change it.
pub fn require_owner(owner_id: i64, account_id: i64) -> (r: Result<(), ApiError>)
    ensures
        r is Ok <==> owner_id == account_id,
        r is Err ==> r == Err::<(), ApiError>(ApiError::Forbidden),
{
    if owner_id == account_id {
        Ok(())
    } else {
        Err(ApiError::Forbidden)
    }
}

/// `https://{domain}/users/{username}/feature_requests/{id}`: the id of the
/// request asking a remote account to consent.
pub open spec fn feature_request_view(domain: Seq<char>, username: Seq<char>, id: int) -> Seq<char> {
    "https://"@ + domain + "/users/"@ + username + "/feature_requests/"@ + crate::text::int_text(id)
}

pub fn feature_request_uri(domain: &str, username: &str, id: i64) -> (r: String)
    ensures
        r@ == feature_request_view(domain@, username@, id as int),
{
    let mut r = owned("https://");
    push_str(&mut r, domain);
    push_str(&mut r, "/users/");
    push_str(&mut r, username);
    push_str(&mut r, "/feature_requests/");
    let n = int_to_string(id);
    push_str(&mut r, n.as_str());
    r
}

/// Where a feature request is delivered: the shared inbox when the account
/// has one, else its own.
pub fn delivery_inbox(shared_inbox_url: &str, inbox_url: &str) -> (r: String)
    ensures
        r@ == if shared_inbox_url@.len() > 0 {
            shared_inbox_url@
        } else {
            inbox_url@
        },
{
    if char_count(shared_inbox_url) > 0 {
        owned(shared_inbox_url)
    } else {
        owned(inbox_url)
    }
}

} // verus!

verus! {

// ── The collection entity ──────────────────────────────────────────────────

/// A stored collection, with the name of its tag.
pub struct CollectionRow {
    pub id: i64,
    pub account_id: i64,
    pub name: String,
    pub description: Option<String>,
    pub description_html: Option<String>,
    pub language: Option<String>,
    pub sensitive: bool,
    pub discoverable: bool,
    pub local: bool,
    pub uri: Option<String>,
    pub url: Option<String>,
    pub tag_name: Option<String>,
    pub created_at: crate::models::Timestamp,
    pub updated_at: crate::models::Timestamp,
}

/// An item of a collection that its viewer may see.
pub struct ItemRow {
    pub id: i64,
    pub state: i32,
    pub created_at: crate::models::Timestamp,
    pub account_id: Option<i64>,
}

pub open spec fn opt_text_json(s: Option<String>) -> crate::json::Json {
    match s {
        Some(t) => crate::json::Json::Str(t@),
        None => crate::json::Json::Null,
    }
}

/// An item as the API shows it: its id, state and time, and the account it
/// features while that is pending or accepted.
pub open spec fn item_json(i: ItemRow) -> crate::json::Json {
    let base = seq![
        ("id"@, crate::json::Json::Str(crate::text::int_text(i.id as int))),
        ("state"@, crate::json::Json::Str(state_name(i.state))),
        ("created_at"@, crate::json::Json::Str(crate::models::mastodon_text(i.created_at))),
    ];
    crate::json::Json::Object(
        if (i.state == 0 || i.state == 1) && i.account_id is Some {
            base.push(
                ("account_id"@, crate::json::Json::Str(crate::text::int_text(i.account_id->0 as int))),
            )
        } else {
            base
        },
    )
}

pub fn item_value(i: &ItemRow) -> (r: crate::json::JsonValue)
    ensures
        crate::json::json_of(r) == item_json(*i),
{
    let mut es: Vec<(String, crate::json::JsonValue)> = Vec::new();
    es.push((owned("id"), crate::json::JsonValue::Str(int_to_string(i.id))));
    es.push((owned("state"), crate::json::json_str(state_str(i.state))));
    es.push(
        (owned("created_at"), crate::json::JsonValue::Str(crate::models::mastodon_date(i.created_at))),
    );
    let ghost base = es@;
    if i.state == 0 || i.state == 1 {
        match i.account_id {
            Some(a) => {
                es.push((owned("account_id"), crate::json::JsonValue::Str(int_to_string(a))));
            },
            None => {},
        }
    }
    proof {
        crate::json::lemma_entries(es@);
        let b = seq![
            ("id"@, crate::json::Json::Str(crate::text::int_text(i.id as int))),
            ("state"@, crate::json::Json::Str(state_name(i.state))),
            ("created_at"@, crate::json::Json::Str(crate::models::mastodon_text(i.created_at))),
        ];
        if (i.state == 0 || i.state == 1) && i.account_id is Some {
            assert(crate::json::json_entries(es@) =~= b.push(
                ("account_id"@, crate::json::Json::Str(crate::text::int_text(i.account_id->0 as int))),
            ));
        } else {
            assert(crate::json::json_entries(es@) =~= b);
        }
    }
    crate::json::JsonValue::Object(es)
}

/// The id of a collection: the stored one, else the local one.
pub open spec fn collection_uri_view(domain: Seq<char>, c: CollectionRow) -> Seq<char> {
    match c.uri {
        Some(u) => u@,
        None => crate::urls::site_url(domain, "/collections/"@, crate::text::int_text(c.id as int)),
    }
}

/// Mastodon's `REST::CollectionSerializer`: a remote collection shows its
/// sanitized HTML description, a local one its plain text; the URL defaults
/// to the id; the tag links to its local page.
pub open spec fn collection_json(domain: Seq<char>, c: CollectionRow, items: Seq<ItemRow>) -> crate::json::Json {
    let uri = collection_uri_view(domain, c);
    crate::json::Json::Object(
        seq![
            ("id"@, crate::json::Json::Str(crate::text::int_text(c.id as int))),
            ("uri"@, crate::json::Json::Str(uri)),
            ("name"@, crate::json::Json::Str(c.name@)),
            ("description"@, opt_text_json(
                if c.local {
                    c.description
                } else {
                    c.description_html
                },
            )),
            ("language"@, opt_text_json(c.language)),
            ("account_id"@, crate::json::Json::Str(crate::text::int_text(c.account_id as int))),
            ("local"@, crate::json::Json::Bool(c.local)),
            ("sensitive"@, crate::json::Json::Bool(c.sensitive)),
            ("discoverable"@, crate::json::Json::Bool(c.discoverable)),
            ("url"@, crate::json::Json::Str(
                match c.url {
                    Some(u) => u@,
                    None => uri,
                },
            )),
            ("item_count"@, crate::json::Json::Int(items.len() as int)),
            ("created_at"@, crate::json::Json::Str(crate::models::mastodon_text(c.created_at))),
            ("updated_at"@, crate::json::Json::Str(crate::models::mastodon_text(c.updated_at))),
            ("tag"@, match c.tag_name {
                Some(n) => crate::json::Json::Object(
                    seq![
                        ("name"@, crate::json::Json::Str(n@)),
                        ("url"@, crate::json::Json::Str(
                            crate::urls::site_url(domain, "/tags/"@, n@),
                        )),
                    ],
                ),
                None => crate::json::Json::Null,
            }),
            ("items"@, crate::json::Json::Array(items.map_values(|i: ItemRow| item_json(i)))),
        ],
    )
}

fn opt_text_value(s: &Option<String>) -> (r: crate::json::JsonValue)
    ensures
        crate::json::json_of(r) == opt_text_json(*s),
{
    match s {
        Some(t) => crate::json::json_str(t.as_str()),
        None => crate::json::JsonValue::Null,
    }
}

fn tag_value(domain: &str, tag_name: &Option<String>) -> (r: crate::json::JsonValue)
    ensures
        crate::json::json_of(r) == match tag_name {
            Some(n) => crate::json::Json::Object(
                seq![
                    ("name"@, crate::json::Json::Str(n@)),
                    ("url"@, crate::json::Json::Str(crate::urls::site_url(domain@, "/tags/"@, n@))),
                ],
            ),
            None => crate::json::Json::Null,
        },
{
    match tag_name {
        Some(n) => {
            let mut es: Vec<(String, crate::json::JsonValue)> = Vec::new();
            es.push((owned("name"), crate::json::json_str(n.as_str())));
            es.push((owned("url"), crate::json::JsonValue::Str(crate::urls::tag_url(domain, n.as_str()))));
            proof {
                crate::json::lemma_entries(es@);
                assert(crate::json::json_entries(es@) =~= seq![
                    ("name"@, crate::json::Json::Str(n@)),
                    ("url"@, crate::json::Json::Str(crate::urls::site_url(domain@, "/tags/"@, n@))),
                ]);
            }
            crate::json::JsonValue::Object(es)
        },
        None => crate::json::JsonValue::Null,
    }
}

/// The collection entity of a stored collection with the items its viewer
/// may see.
pub fn collection_value(domain: &str, c: &CollectionRow, items: &Vec<ItemRow>) -> (r:
    crate::json::JsonValue)
    requires
        items@.len() <= i64::MAX,
    ensures
        crate::json::json_of(r) == collection_json(domain@, *c, items@),
{
    let mut item_values: Vec<crate::json::JsonValue> = Vec::new();
    let mut k: usize = 0;
    while k < items.len()
        invariant
            k <= items@.len(),
            crate::json::json_items(item_values@) == items@.take(k as int).map_values(
                |i: ItemRow| item_json(i),
            ),
        decreases items.len() - k,
    {
        let v = item_value(&items[k]);
        let ghost before = item_values@;
        item_values.push(v);
        proof {
            assert(item_values@.drop_last() =~= before);
            assert(items@.take(k + 1).map_values(|i: ItemRow| item_json(i)) =~= items@.take(
                k as int,
            ).map_values(|i: ItemRow| item_json(i)).push(item_json(items@[k as int])));
        }
        k = k + 1;
    }
    assert(items@.take(items@.len() as int) =~= items@);
    let uri = match &c.uri {
        Some(u) => owned(u.as_str()),
        None => crate::urls::collection_uri(domain, c.id),
    };
    let url = match &c.url {
        Some(u) => owned(u.as_str()),
        None => owned(uri.as_str()),
    };
    let description = if c.local {
        opt_text_value(&c.description)
    } else {
        opt_text_value(&c.description_html)
    };
    let count = items.len() as i64;
    let ghost iv = item_values@;
    let mut es: Vec<(String, crate::json::JsonValue)> = Vec::new();
    es.push((owned("id"), crate::json::JsonValue::Str(int_to_string(c.id))));
    es.push((owned("uri"), crate::json::JsonValue::Str(uri)));
    es.push((owned("name"), crate::json::json_str(c.name.as_str())));
    es.push((owned("description"), description));
    es.push((owned("language"), opt_text_value(&c.language)));
    es.push((owned("account_id"), crate::json::JsonValue::Str(int_to_string(c.account_id))));
    es.push((owned("local"), crate::json::JsonValue::Bool(c.local)));
    es.push((owned("sensitive"), crate::json::JsonValue::Bool(c.sensitive)));
    es.push((owned("discoverable"), crate::json::JsonValue::Bool(c.discoverable)));
    es.push((owned("url"), crate::json::JsonValue::Str(url)));
    es.push((owned("item_count"), crate::json::JsonValue::Int(count)));
    es.push(
        (owned("created_at"), crate::json::JsonValue::Str(crate::models::mastodon_date(c.created_at))),
    );
    es.push(
        (owned("updated_at"), crate::json::JsonValue::Str(crate::models::mastodon_date(c.updated_at))),
    );
    es.push((owned("tag"), tag_value(domain, &c.tag_name)));
    es.push((owned("items"), crate::json::JsonValue::Array(item_values)));
    proof {
        crate::json::lemma_entries(es@);
        let want = collection_json(domain@, *c, items@);
        assert(want matches crate::json::Json::Object(x) && x =~= crate::json::json_entries(es@));
    }
    crate::json::JsonValue::Object(es)
}

} // verus!
