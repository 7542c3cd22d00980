//! Invites: what a new invite may say, and its code.
use vstd::prelude::*;
use rand::Rng;
use crate::error::{is_unprocessable, unprocessable, ApiError};
use crate::text::{char_count, owned, push_char};

verus! {

/// The body of `POST /api/v1/invites`.
pub struct CreateInviteRequest {
    pub max_uses: Option<i32>,
    /// Seconds from now until expiry; none: never expires.
    pub expires_in: Option<i64>,
    /// Whether the new account follows the inviter.
    pub autofollow: bool,
    pub comment: Option<String>,
}

/// Mastodon's `Invite::COMMENT_SIZE_LIMIT`.
pub const COMMENT_SIZE_LIMIT: usize = 420;

/// The comment an invite is stored with: none for an empty one.
pub open spec fn invite_comment(req: CreateInviteRequest) -> Option<Seq<char>> {
    match req.comment {
        Some(c) => if c@.len() > 0 {
            Some(c@)
        } else {
            None
        },
        None => None,
    }
}

/// Checks a new invite's comment and gives the one to store: a comment
/// longer than 420 characters is refused, an empty one dropped.
pub fn validate_invite(req: &CreateInviteRequest) -> (r: Result<Option<String>, ApiError>)
    ensures
        match invite_comment(*req) {
            Some(c) => if c.len() > 420 {
                is_unprocessable(
                    r,
                    "Validation failed: Comment is too long (maximum is 420 characters)"@,
                )
            } else {
                r matches Ok(Some(s)) && s@ == c
            },
            None => r matches Ok(None),
        },
{
    match &req.comment {
        Some(c) => {
            let n = char_count(c.as_str());
            if n == 0 {
                Ok(None)
            } else if n > COMMENT_SIZE_LIMIT {
                Err(unprocessable("Validation failed: Comment is too long (maximum is 420 characters)"))
            } else {
                Ok(Some(owned(c.as_str())))
            }
        },
        None => Ok(None),
    }
}

/// Calls `rand::rng().random_range(0..n)`: a number below `n`, drawn at
/// random; nothing more is known of it.
#[verifier::external_body]
fn random_below(n: usize) -> (r: usize)
    requires
        n > 0,
    ensures
        r < n,
{
    rand::rng().random_range(0..n)
}

/// Mastodon's `VALID_CODE_CHARACTERS`: letters and digits without the
/// look-alikes `0`, `1`, `I`, `l` and `O`.
pub open spec fn code_characters() -> Seq<char> {
    "abcdefghijkmnopqrstuvwxyzABCDEFGHJKLMNPQRSTUVWXYZ23456789"@
}

/// The code spelled by draws from the code alphabet: each draw picks the
/// character at its position.
pub open spec fn code_of_draws(draws: Seq<usize>) -> Seq<char> {
    draws.map_values(|k: usize| code_characters()[k as int])
}

/// The invite code that eight draws from the code alphabet spell.
pub fn code_from_draws(draws: &Vec<usize>) -> (r: String)
    requires
        draws@.len() == 8,
        forall|i: int| 0 <= i < 8 ==> draws@[i] < 57,
    ensures
        r@ == code_of_draws(draws@),
{
    let chars = "abcdefghijkmnopqrstuvwxyzABCDEFGHJKLMNPQRSTUVWXYZ23456789";
    proof {
        reveal_strlit("abcdefghijkmnopqrstuvwxyzABCDEFGHJKLMNPQRSTUVWXYZ23456789");
    }
    let mut code = String::new();
    let mut i: usize = 0;
    while i < 8
        invariant
            chars@ == code_characters(),
            code_characters().len() == 57,
            draws@.len() == 8,
            forall|j: int| 0 <= j < 8 ==> draws@[j] < 57,
            i <= 8,
            code@ == code_of_draws(draws@.take(i as int)),
        decreases 8 - i,
    {
        let k = draws[i];
        let c = crate::text::char_at(chars, k);
        assert(code_characters()[k as int] == c);
        push_char(&mut code, c);
        assert(code_of_draws(draws@.take(i + 1)) =~= code_of_draws(draws@.take(i as int)).push(c));
        i = i + 1;
    }
    assert(draws@.take(8) =~= draws@);
    code
}

/// A fresh invite code: eight characters drawn at random from
/// [`code_characters`].
pub fn generate_code() -> (r: String)
    ensures
        exists|d: Seq<usize>|
            d.len() == 8 && (forall|i: int| 0 <= i < 8 ==> #[trigger] d[i] < 57) && r@
                == code_of_draws(d),
        r@.len() == 8,
        forall|i: int| 0 <= i < 8 ==> code_characters().contains(#[trigger] r@[i]),
{
    let mut draws: Vec<usize> = Vec::new();
    let mut i: usize = 0;
    while i < 8
        invariant
            i <= 8,
            draws@.len() == i,
            forall|j: int| 0 <= j < i ==> draws@[j] < 57,
        decreases 8 - i,
    {
        draws.push(random_below(57));
        i = i + 1;
    }
    let code = code_from_draws(&draws);
    proof {
        reveal_strlit("abcdefghijkmnopqrstuvwxyzABCDEFGHJKLMNPQRSTUVWXYZ23456789");
        assert forall|i: int| 0 <= i < 8 implies code_characters().contains(#[trigger] code@[i]) by {
            assert(code@[i] == code_characters()[draws@[i] as int]);
        }
    }
    code
}

} // verus!
