//! Account migration: moving to another account, and the `alsoKnownAs`
//! aliases an account lists.
use vstd::prelude::*;
use crate::models::{mastodon_date, mastodon_text, Timestamp};
use crate::text::{int_text, int_to_string, owned, push_str, starts_with};
use crate::urls::opt_view;

verus! {

/// The body of `POST /api/v1/accounts/move`.
pub struct MoveAccountForm {
    pub acct: String,
    pub current_password: String,
}

/// The body of `POST /api/v1/profile/aliases`.
pub struct CreateAliasForm {
    pub acct: String,
}

/// An alias of the account, as the API shows it.
pub struct AccountAlias {
    pub id: String,
    pub account_id: String,
    pub uri: String,
    pub created_at: String,
}

/// The entity of a stored alias.
pub fn alias_entity(id: i64, account_id: i64, uri: &str, created_at: Timestamp) -> (r: AccountAlias)
    ensures
        r.id@ == int_text(id as int),
        r.account_id@ == int_text(account_id as int),
        r.uri@ == uri@,
        r.created_at@ == mastodon_text(created_at),
{
    AccountAlias {
        id: int_to_string(id),
        account_id: int_to_string(account_id),
        uri: owned(uri),
        created_at: mastodon_date(created_at),
    }
}

/// A move target that is not known here is fetched from its server only
/// when it is named by an `https://` actor id.
pub fn fetches_move_target(known: bool, acct: &str) -> (r: bool)
    ensures
        r == (!known && crate::text::is_prefix("https://"@, acct@)),
{
    !known && starts_with(acct, "https://")
}

/// The new account's actor id that a `Move` names, when the move is
/// announced: the new account has one, and the mover can sign.
pub fn announced_move_target(new_uri: &Option<String>, can_sign: bool) -> (r: Option<String>)
    ensures
        opt_view(r) == match new_uri {
            Some(u) => if u@.len() > 0 && can_sign {
                Some(u@)
            } else {
                None
            },
            None => None,
        },
{
    match new_uri {
        Some(u) => if crate::text::char_count(u.as_str()) > 0 && can_sign {
            Some(owned(u.as_str()))
        } else {
            None
        },
        None => None,
    }
}

/// `{actor}#moves/{id}`: the id of a `Move`.
pub fn move_id(actor_uri: &str, id: i64) -> (r: String)
    ensures
        r@ == actor_uri@ + "#moves/"@ + int_text(id as int),
{
    let mut r = owned(actor_uri);
    push_str(&mut r, "#moves/");
    let n = int_to_string(id);
    push_str(&mut r, n.as_str());
    r
}

} // verus!
