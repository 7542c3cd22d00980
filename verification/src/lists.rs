//! Lists: the validation of a list's title and replies policy, the per-account
//! cap, which accounts may be added, and the list entity.
use vstd::prelude::*;
use crate::error::{is_unprocessable, unprocessable, ApiError};
use crate::models::{replies_policy_from_str, replies_policy_name, replies_policy_number, replies_policy_str};
use crate::pagination::{parse_i64, parse_i64_view};
use crate::text::{char_count, owned, push_str, trim, trimmed};

verus! {

/// The body of `POST /api/v1/lists` and `PUT /api/v1/lists/:id`.
pub struct ListForm {
    pub title: String,
    pub replies_policy: Option<String>,
    pub exclusive: Option<bool>,
}

/// The body of `POST` and `DELETE /api/v1/lists/:id/accounts`.
pub struct ListAccountsForm {
    pub account_ids: Vec<String>,
}

/// Mastodon's `List::TITLE_LENGTH_LIMIT`.
pub const LIST_TITLE_MAX: usize = 256;

/// Mastodon's `List::PER_ACCOUNT_LIMIT`.
pub const LIST_PER_ACCOUNT_LIMIT: i64 = 50;

/// The replies policy a form asks for: `list` when it names none.
pub open spec fn requested_policy(form: ListForm) -> Seq<char> {
    match form.replies_policy {
        Some(p) => p@,
        None => "list"@,
    }
}

/// `followed`, `list` and `none` are the replies policies there are.
pub open spec fn valid_replies_policy(p: Seq<char>) -> bool {
    p == "followed"@ || p == "list"@ || p == "none"@
}

pub open spec fn blank_title_message() -> Seq<char> {
    "Title can't be blank"@
}

pub open spec fn long_title_message() -> Seq<char> {
    "Title is too long (maximum is 256 characters)"@
}

pub open spec fn bad_policy_message(p: Seq<char>) -> Seq<char> {
    "Replies policy is not included in the list: "@ + p
}

/// What `validate_list_form` answers: the first rule that the form breaks.
pub open spec fn list_form_verdict(form: ListForm) -> Option<Seq<char>> {
    if trimmed(form.title@).len() == 0 {
        Some(blank_title_message())
    } else if form.title@.len() > 256 {
        Some(long_title_message())
    } else if !valid_replies_policy(requested_policy(form)) {
        Some(bad_policy_message(requested_policy(form)))
    } else {
        None
    }
}

fn requested_policy_str(form: &ListForm) -> (r: &str)
    ensures
        r@ == requested_policy(*form),
{
    match &form.replies_policy {
        Some(p) => p.as_str(),
        None => "list",
    }
}

/// Validates a list's title and replies policy the way Mastodon's `List`
/// model does; the same rules hold for create and update.
pub fn validate_list_form(form: &ListForm) -> (r: Result<(), ApiError>)
    ensures
        match list_form_verdict(*form) {
            None => r is Ok,
            Some(msg) => is_unprocessable(r, msg),
        },
{
    let t = trim(form.title.as_str());
    if char_count(t.as_str()) == 0 {
        return Err(unprocessable("Title can't be blank"));
    }
    if char_count(form.title.as_str()) > LIST_TITLE_MAX {
        return Err(unprocessable("Title is too long (maximum is 256 characters)"));
    }
    let p = requested_policy_str(form);
    if !(crate::text::str_eq(p, "followed") || crate::text::str_eq(p, "list")
        || crate::text::str_eq(p, "none")) {
        let mut msg = owned("Replies policy is not included in the list: ");
        push_str(&mut msg, p);
        return Err(ApiError::Unprocessable(msg));
    }
    Ok(())
}

/// The stored replies policy for a form (`list` when it names none).
pub fn form_replies_policy(form: &ListForm) -> (r: i32)
    ensures
        r == replies_policy_number(requested_policy(*form)),
{
    replies_policy_from_str(requested_policy_str(form))
}

/// Whether the list is exclusive; a form that does not say makes it not.
pub fn form_exclusive(form: &ListForm) -> (r: bool)
    ensures
        r == (form.exclusive == Some(true)),
{
    match form.exclusive {
        Some(b) => b,
        None => false,
    }
}

/// The per-account cap, checked on create: an account with 50 lists may not
/// make another.
pub fn check_list_count(count: i64) -> (r: Result<(), ApiError>)
    ensures
        r is Ok <==> count < 50,
        r is Err ==> is_unprocessable(
            r,
            "Validation failed: You have reached the maximum number of lists"@,
        ),
{
    if count >= LIST_PER_ACCOUNT_LIMIT {
        Err(unprocessable("Validation failed: You have reached the maximum number of lists"))
    } else {
        Ok(())
    }
}

/// The ids that parse as integers, in order; the others are skipped.
pub open spec fn parsed_ids(ids: Seq<String>) -> Seq<i64>
    decreases ids.len(),
{
    if ids.len() == 0 {
        Seq::empty()
    } else {
        let before = parsed_ids(ids.drop_last());
        match parse_i64_view(ids.last()@) {
            Some(v) => before.push(v as i64),
            None => before,
        }
    }
}

/// The account ids of a members form that are integers.
pub fn member_ids(form: &ListAccountsForm) -> (r: Vec<i64>)
    ensures
        r@ == parsed_ids(form.account_ids@),
{
    let mut out: Vec<i64> = Vec::new();
    let n = form.account_ids.len();
    let mut i: usize = 0;
    while i < n
        invariant
            n == form.account_ids@.len(),
            i <= n,
            out@ == parsed_ids(form.account_ids@.subrange(0, i as int)),
        decreases n - i,
    {
        assert(form.account_ids@.subrange(0, i + 1).drop_last() =~= form.account_ids@.subrange(
            0,
            i as int,
        ));
        match parse_i64(form.account_ids[i].as_str()) {
            Some(v) => out.push(v),
            None => {},
        }
        i = i + 1;
    }
    assert(form.account_ids@.subrange(0, n as int) =~= form.account_ids@);
    out
}

/// Mastodon's `ListAccount#validate_relationship`: an account may go on a
/// list when its owner follows it or has asked to, or when it is the owner.
pub fn may_add_member(owner_id: i64, account_id: i64, follows_or_requested: bool) -> (r: Result<
    (),
    ApiError,
>)
    ensures
        r is Ok <==> (account_id == owner_id || follows_or_requested),
        r is Err ==> is_unprocessable(r, "Account must be followed before adding to a list"@),
{
    if account_id == owner_id || follows_or_requested {
        Ok(())
    } else {
        Err(unprocessable("Account must be followed before adding to a list"))
    }
}

/// The list entity of a stored list.
pub fn list_from_db(l: &crate::models::List) -> (r: crate::types::List)
    ensures
        r.id@ == crate::text::int_text(l.id as int),
        r.title@ == l.title@,
        r.replies_policy@ == replies_policy_name(l.replies_policy),
        r.exclusive == l.exclusive,
{
    crate::types::List {
        id: crate::text::int_to_string(l.id),
        title: owned(l.title.as_str()),
        replies_policy: owned(replies_policy_str(l.replies_policy)),
        exclusive: l.exclusive,
    }
}

} // verus!
