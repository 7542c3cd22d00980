//! Who may feature an account, and who may quote a status: Mastodon's
//! `feature_approval` and `quote_approval`.
use vstd::prelude::*;
use crate::models::{
    automatic_part, automatic_policy, has_flag, manual_part, manual_policy, policy_as_keys,
    policy_labels, views, Account, Status, QUOTE_FOLLOWERS, QUOTE_MANUAL, QUOTE_PUBLIC,
};
use crate::text::owned;

verus! {

/// What a viewing account knows about its relationship to the account being
/// serialized, which is what `feature_approval.current_user` turns on.
#[derive(Clone, Copy, Debug)]
pub struct AccountViewerContext {
    /// The viewer is the account being serialized.
    pub is_self: bool,
    /// The account being serialized follows the viewer.
    pub follows_viewer: bool,
    /// The viewer follows the account being serialized.
    pub followed_by_viewer: bool,
}

/// What a viewing account knows about a status and its author.
#[derive(Clone, Copy, Debug)]
pub struct StatusViewerContext {
    pub account_id: i64,
    pub follows_author: bool,
    pub author_follows: bool,
    pub favourited: bool,
    pub reblogged: bool,
    pub muted: bool,
    pub bookmarked: bool,
    pub pinned: bool,
}

/// Mastodon's `feature_approval` / `quote_approval` entity.
pub struct Approval {
    pub automatic: Vec<String>,
    pub manual: Vec<String>,
    pub current_user: String,
}

/// `feature_approval` is this shape.
pub type FeatureApproval = Approval;
/// `quote_approval` is this shape.
pub type QuoteApproval = Approval;

/// Whether a remote account's sub-policy lets this viewer in.
pub open spec fn allows(sub: i32, ctx: AccountViewerContext) -> bool {
    has_flag(sub, 2) || (has_flag(sub, 4) && ctx.follows_viewer) || (has_flag(sub, 8)
        && ctx.followed_by_viewer)
}

pub open spec fn discoverable(a: Account) -> bool {
    match a.discoverable {
        Some(b) => b,
        None => false,
    }
}

/// The automatic feature policy: a local account's is implied by its
/// settings (nobody when undiscoverable, followers when locked, else the
/// public); a remote account's is the one it federated.
pub open spec fn feature_automatic(a: Account) -> Seq<Seq<char>> {
    if a.domain is None {
        if !discoverable(a) {
            Seq::empty()
        } else if a.locked {
            seq!["followers"@]
        } else {
            seq!["public"@]
        }
    } else {
        policy_labels(automatic_part(a.feature_approval_policy))
    }
}

/// The manual feature policy: never offered for local accounts.
pub open spec fn feature_manual(a: Account) -> Seq<Seq<char>> {
    if a.domain is None {
        Seq::empty()
    } else {
        policy_labels(manual_part(a.feature_approval_policy))
    }
}

/// `feature_approval.current_user`.
pub open spec fn feature_current_user(a: Account, viewer: Option<AccountViewerContext>) -> Seq<char> {
    match viewer {
        None => "denied"@,
        Some(ctx) => if a.domain is None {
            if !discoverable(a) || (a.locked && !ctx.follows_viewer && !ctx.is_self) {
                "denied"@
            } else {
                "automatic"@
            }
        } else {
            let p = a.feature_approval_policy;
            let auto = automatic_part(p);
            let man = manual_part(p);
            if ctx.is_self {
                "automatic"@
            } else if p == 0 {
                "missing"@
            } else if allows(auto, ctx) {
                "automatic"@
            } else if allows(man, ctx) {
                "manual"@
            } else if has_flag(auto | man, 1) {
                "unknown"@
            } else {
                "denied"@
            }
        },
    }
}

fn allows_exec(sub: i32, ctx: &AccountViewerContext) -> (r: bool)
    ensures
        r == allows(sub, *ctx),
{
    sub & 2 != 0 || (sub & 4 != 0 && ctx.follows_viewer) || (sub & 8 != 0 && ctx.followed_by_viewer)
}

/// Mastodon's `feature_approval`, from `Account::InteractionPolicyConcern`.
pub fn build_feature_approval(a: &Account, viewer: Option<&AccountViewerContext>) -> (r: Approval)
    ensures
        views(r.automatic@) == feature_automatic(*a),
        views(r.manual@) == feature_manual(*a),
        r.current_user@ == feature_current_user(
            *a,
            match viewer {
                Some(c) => Some(*c),
                None => None,
            },
        ),
{
    let local = a.domain.is_none();
    let disc = match a.discoverable {
        Some(b) => b,
        None => false,
    };
    let (automatic, manual) = if local {
        let mut automatic: Vec<String> = Vec::new();
        if !disc {
        } else if a.locked {
            automatic.push(owned("followers"));
        } else {
            automatic.push(owned("public"));
        }
        assert(views(automatic@) =~= feature_automatic(*a));
        let manual: Vec<String> = Vec::new();
        assert(views(manual@) =~= feature_manual(*a));
        (automatic, manual)
    } else {
        let policy = a.feature_approval_policy;
        (policy_as_keys(automatic_policy(policy)), policy_as_keys(manual_policy(policy)))
    };
    let current_user = match viewer {
        None => owned("denied"),
        Some(ctx) => if local {
            let refused = !disc || (a.locked && !ctx.follows_viewer && !ctx.is_self);
            if refused {
                owned("denied")
            } else {
                owned("automatic")
            }
        } else {
            let policy = a.feature_approval_policy;
            let auto = automatic_policy(policy);
            let man = manual_policy(policy);
            if ctx.is_self {
                owned("automatic")
            } else if policy == 0 {
                owned("missing")
            } else if allows_exec(auto, ctx) {
                owned("automatic")
            } else if allows_exec(man, ctx) {
                owned("manual")
            } else if (auto | man) & 1 != 0 {
                owned("unknown")
            } else {
                owned("denied")
            }
        },
    };
    Approval { automatic, manual, current_user }
}

/// `quote_approval.current_user`.
pub open spec fn quote_current_user(policy: i32, viewer: Option<StatusViewerContext>) -> Seq<char> {
    match viewer {
        None => "unknown"@,
        Some(ctx) => if policy == QUOTE_PUBLIC {
            "automatic"@
        } else if policy == QUOTE_FOLLOWERS && ctx.follows_author {
            "automatic"@
        } else if policy == QUOTE_MANUAL {
            "manual"@
        } else {
            "denied"@
        },
    }
}

/// Mastodon's `quote_approval` for a status.
pub fn build_quote_approval(s: &Status, viewer: Option<&StatusViewerContext>) -> (r: Approval)
    ensures
        views(r.automatic@) == policy_labels(automatic_part(s.quote_approval_policy)),
        views(r.manual@) == policy_labels(manual_part(s.quote_approval_policy)),
        r.current_user@ == quote_current_user(
            s.quote_approval_policy,
            match viewer {
                Some(c) => Some(*c),
                None => None,
            },
        ),
{
    let policy = s.quote_approval_policy;
    let automatic = policy_as_keys(automatic_policy(policy));
    let manual = policy_as_keys(manual_policy(policy));
    let current_user = match viewer {
        None => owned("unknown"),
        Some(ctx) => if policy == QUOTE_PUBLIC {
            owned("automatic")
        } else if policy == QUOTE_FOLLOWERS && ctx.follows_author {
            owned("automatic")
        } else if policy == QUOTE_MANUAL {
            owned("manual")
        } else {
            owned("denied")
        },
    };
    Approval { automatic, manual, current_user }
}

} // verus!
