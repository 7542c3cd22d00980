//! A user's own domain blocks and featured hashtags, and how a request
//! body is read.
use vstd::prelude::*;
use crate::accounts::{alphanumeric, contains_text, is_alphanumeric};
use crate::error::{is_unprocessable, unprocessable, ApiError};
use crate::formatting::{lowercase, to_lowercase};
use crate::pagination::{limit_view, opt_seq, PaginationParams};
use crate::text::{char_count, chars_of, split_once, trim_start_char, without_leading};

verus! {

// ── Domain blocks ─────────────────────────────────────────────────────────

/// The body of `POST` and `DELETE /api/v1/domain_blocks`.
pub struct DomainBlockForm {
    pub domain: String,
}

/// The query of `GET /api/v1/domain_blocks/preview`.
pub struct DomainPreviewQuery {
    pub domain: Option<String>,
}

/// Domains are blocked, unblocked and previewed lowercased.
pub fn blocked_domain(form: &DomainBlockForm) -> (r: String)
    ensures
        r@ == lowercase(form.domain@),
{
    to_lowercase(form.domain.as_str())
}

/// The domain a preview is about: lowercased, empty when none is given.
pub fn preview_domain(q: &DomainPreviewQuery) -> (r: String)
    ensures
        r@ == lowercase(
            match q.domain {
                Some(d) => d@,
                None => Seq::empty(),
            },
        ),
{
    match &q.domain {
        Some(d) => to_lowercase(d.as_str()),
        None => {
            proof {
                reveal_strlit("");
                assert(""@ =~= Seq::<char>::empty());
            }
            to_lowercase("")
        },
    }
}

/// The page size of the domain block list: 100 by default, at most 200.
pub fn domain_blocks_limit(p: &PaginationParams) -> (r: i64)
    ensures
        r == limit_view(opt_seq(p.limit), 100, 200),
{
    p.limit_clamped(100, 200)
}

// ── Featured hashtags ─────────────────────────────────────────────────────

/// The body of `POST /api/v1/featured_tags`.
pub struct FeaturedTagForm {
    pub name: String,
}

/// Mastodon's `FeaturedTag::LIMIT`.
pub const FEATURED_TAG_LIMIT: i64 = 10;

/// The name a tag is featured under: lowercased, without leading `#`.
pub open spec fn featured_name(raw: Seq<char>) -> Seq<char> {
    without_leading(lowercase(raw), '#')
}

/// A hashtag name: letters, digits and `_`.
pub open spec fn hashtag_chars(name: Seq<char>) -> bool {
    forall|i: int| 0 <= i < name.len() ==> (alphanumeric(#[trigger] name[i]) || name[i] == '_')
}

/// Checks the name of a tag to feature and gives it as it is stored: a
/// blank name, or one with other characters than letters, digits and `_`,
/// is refused.
pub fn featured_tag_name(form: &FeaturedTagForm) -> (r: Result<String, ApiError>)
    ensures
        featured_name(form.name@).len() == 0 ==> is_unprocessable(
            r,
            "Validation failed: Name can't be blank"@,
        ),
        featured_name(form.name@).len() > 0 && !hashtag_chars(featured_name(form.name@))
            ==> is_unprocessable(r, "Validation failed: Name is not a valid hashtag"@),
        featured_name(form.name@).len() > 0 && hashtag_chars(featured_name(form.name@)) ==> (r matches Ok(n)
            && n@ == featured_name(form.name@)),
{
    let lower = to_lowercase(form.name.as_str());
    let name = trim_start_char(lower.as_str(), '#');
    if char_count(name.as_str()) == 0 {
        return Err(unprocessable("Validation failed: Name can't be blank"));
    }
    let cs = chars_of(name.as_str());
    let mut i: usize = 0;
    while i < cs.len()
        invariant
            cs@ == name@,
            name@ == featured_name(form.name@),
            name@.len() > 0,
            i <= cs@.len(),
            forall|j: int| 0 <= j < i ==> (alphanumeric(#[trigger] cs@[j]) || cs@[j] == '_'),
        decreases cs.len() - i,
    {
        if !(is_alphanumeric(cs[i]) || cs[i] == '_') {
            assert(!hashtag_chars(featured_name(form.name@))) by {
                assert(!(alphanumeric(name@[i as int]) || name@[i as int] == '_'));
            }
            return Err(unprocessable("Validation failed: Name is not a valid hashtag"));
        }
        i = i + 1;
    }
    Ok(name)
}

/// Featuring a tag not yet featured is refused once ten are.
pub fn check_featured_count(already_featured: bool, count: i64) -> (r: Result<(), ApiError>)
    ensures
        r is Ok <==> (already_featured || count < 10),
        r is Err ==> is_unprocessable(
            r,
            "Validation failed: You have already reached the limit of 10 featured hashtags"@,
        ),
{
    if !already_featured && count >= FEATURED_TAG_LIMIT {
        Err(unprocessable("Validation failed: You have already reached the limit of 10 featured hashtags"))
    } else {
        Ok(())
    }
}

// ── Request bodies ────────────────────────────────────────────────────────

/// A form read from a JSON, multipart or URL-encoded body, whichever came.
pub struct FormOrJson<T>(pub T);

/// A form read from a JSON body, or else from the query string.
pub struct QueryOrJson<T>(pub T);

/// How a request body is read.
pub enum BodyKind {
    Json,
    Multipart,
    UrlEncoded,
}

/// The kind of a body by its content type: JSON when it names
/// `application/json`, multipart when it names `multipart/form-data`, and
/// URL-encoded otherwise.
pub fn body_kind(content_type: &str) -> (r: BodyKind)
    ensures
        contains_text(content_type@, "application/json"@) ==> r is Json,
        !contains_text(content_type@, "application/json"@) && contains_text(
            content_type@,
            "multipart/form-data"@,
        ) ==> r is Multipart,
        !contains_text(content_type@, "application/json"@) && !contains_text(
            content_type@,
            "multipart/form-data"@,
        ) ==> r is UrlEncoded,
{
    if split_once(content_type, "application/json").is_some() {
        BodyKind::Json
    } else if split_once(content_type, "multipart/form-data").is_some() {
        BodyKind::Multipart
    } else {
        BodyKind::UrlEncoded
    }
}

} // verus!
