//! Follow requests: the page of pending requests, and what answering one
//! tells a remote requester (an `Accept` or `Reject` of its `Follow`).
use vstd::prelude::*;
use crate::pagination::{newest_first_window, PageWindow, PaginationParams};
use crate::text::{int_text, int_to_string, owned, push_str};

verus! {

/// The page of `GET /api/v1/follow_requests`: 40 by default, at most 80,
/// newest request first, bounded by `max_id`, `since_id` and `min_id`.
pub fn follow_request_page(p: &PaginationParams) -> (r: PageWindow)
    ensures
        r.limit == crate::pagination::limit_view(crate::pagination::opt_seq(p.limit), 40, 80),
        crate::pagination::opt_int(r.max_id) == crate::pagination::id_param(
            crate::pagination::opt_seq(p.max_id),
        ),
        crate::pagination::opt_int(r.since_id) == crate::pagination::id_param(
            crate::pagination::opt_seq(p.since_id),
        ),
        crate::pagination::opt_int(r.min_id) == crate::pagination::id_param(
            crate::pagination::opt_seq(p.min_id),
        ),
        !r.reads_forward,
{
    newest_first_window(p, 40, 80, true)
}

/// Where the answer to a remote follow request goes: the id of the `Follow`
/// it answers, the requester's actor id, and its inbox.
pub struct FollowReply {
    pub follow_uri: String,
    pub actor_uri: String,
    pub inbox: String,
}

/// When an answer is sent: the request had a `Follow` id, the requester is a
/// remote account with an actor id and an inbox, and the local account can
/// sign.
pub open spec fn replies_to(
    follow_uri: Option<String>,
    remote: bool,
    requester_uri: Seq<char>,
    can_sign: bool,
    inbox: Seq<char>,
) -> bool {
    follow_uri is Some && remote && requester_uri.len() > 0 && can_sign && inbox.len() > 0
}

/// The answer to send, if any, after a request was authorized or rejected.
pub fn follow_reply(
    follow_uri: &Option<String>,
    remote: bool,
    requester_uri: &str,
    can_sign: bool,
    inbox: &str,
) -> (r: Option<FollowReply>)
    ensures
        r is Some <==> replies_to(*follow_uri, remote, requester_uri@, can_sign, inbox@),
        r matches Some(x) ==> (follow_uri matches Some(u) && x.follow_uri@ == u@) && x.actor_uri@
            == requester_uri@ && x.inbox@ == inbox@,
{
    match follow_uri {
        Some(u) => if remote && crate::text::char_count(requester_uri) > 0 && can_sign
            && crate::text::char_count(inbox) > 0 {
            Some(
                FollowReply {
                    follow_uri: owned(u.as_str()),
                    actor_uri: owned(requester_uri),
                    inbox: owned(inbox),
                },
            )
        } else {
            None
        },
        None => None,
    }
}

/// `https://{domain}/activities/{id}`: the id of an activity.
pub open spec fn activity_uri_view(domain: Seq<char>, id: int) -> Seq<char> {
    "https://"@ + domain + "/activities/"@ + int_text(id)
}

pub fn activity_uri(domain: &str, id: i64) -> (r: String)
    ensures
        r@ == activity_uri_view(domain@, id as int),
{
    let mut r = owned("https://");
    push_str(&mut r, domain);
    push_str(&mut r, "/activities/");
    let n = int_to_string(id);
    push_str(&mut r, n.as_str());
    r
}

/// `{actor}#main-key`: the key an actor signs with.
pub fn main_key_id(actor_uri: &str) -> (r: String)
    ensures
        r@ == actor_uri@ + "#main-key"@,
{
    let mut r = owned(actor_uri);
    push_str(&mut r, "#main-key");
    r
}

/// `{name} followed you`: the text of the notification that an accepted
/// request leaves its target.
pub fn followed_you(display_name: &str) -> (r: String)
    ensures
        r@ == display_name@ + " followed you"@,
{
    let mut r = owned(display_name);
    push_str(&mut r, " followed you");
    r
}

} // verus!

verus! {

/// Where an unfollow is announced to a remote account: the `Follow` it
/// undoes (the stored id, else the actor's own id) and the inbox (the shared
/// one when there is one).
pub struct UndoTarget {
    pub follow_uri: String,
    pub inbox: String,
}

/// The `Undo` of a follow of a remote account, sent when the follower can
/// sign and the account has an inbox.
pub fn undo_follow_target(
    remote: bool,
    can_sign: bool,
    follow_uri: &Option<String>,
    actor_uri: &str,
    shared_inbox: &str,
    inbox: &str,
) -> (r: Option<UndoTarget>)
    ensures
        ({
            let target_inbox = if shared_inbox@.len() > 0 {
                shared_inbox@
            } else {
                inbox@
            };
            &&& r is Some <==> remote && can_sign && target_inbox.len() > 0
            &&& r matches Some(t) ==> t.inbox@ == target_inbox && t.follow_uri@ == match follow_uri {
                Some(u) => u@,
                None => actor_uri@,
            }
        }),
{
    if !remote || !can_sign {
        return None;
    }
    let target_inbox = crate::collections::delivery_inbox(shared_inbox, inbox);
    if crate::text::char_count(target_inbox.as_str()) == 0 {
        return None;
    }
    let undone = match follow_uri {
        Some(u) => owned(u.as_str()),
        None => owned(actor_uri),
    };
    Some(UndoTarget { follow_uri: undone, inbox: target_inbox })
}

} // verus!
