use eunha::aliases::{alias_entity, announced_move_target, fetches_move_target, move_id};
use eunha::approval::StatusViewerContext;
use eunha::endorsements::{endorsements_page, may_endorse, my_endorsements_page};
use eunha::error::ApiError;
use eunha::favourites::{bookmark_context, bookmarks_page, favourited_context, favourites_page};
use eunha::follow_requests::{activity_uri, follow_reply, follow_request_page, followed_you, main_key_id};
use eunha::models::Timestamp;
use eunha::pagination::PaginationParams;
use eunha::relationships::{
    relationships_of,
    block_activities, block_uri, check_follow_limit, follow_action, follow_gate, follow_limit,
    follow_settings, follow_uri, mute_settings, relationship_of, BlockActivity, FollowAction,
    FollowParams, FollowRow, FollowTarget, MuteParams, MuteRow, RelationshipFacts, RemovedFollow,
};

fn params(max: Option<&str>, since: Option<&str>, min: Option<&str>, limit: Option<&str>) -> PaginationParams {
    PaginationParams {
        max_id: max.map(|s| s.to_string()),
        since_id: since.map(|s| s.to_string()),
        min_id: min.map(|s| s.to_string()),
        limit: limit.map(|s| s.to_string()),
    }
}

fn no_facts() -> RelationshipFacts {
    RelationshipFacts {
        follow: None,
        followed_by: false,
        requested: false,
        requested_by: false,
        blocking: false,
        blocked_by: false,
        mute: None,
        domain_blocked: false,
        endorsed: false,
        note: None,
    }
}

#[test]
fn relationship_entity() {
    let r = relationship_of(42, &no_facts());
    assert_eq!(r.id, "42");
    assert!(!r.following && !r.muting && r.languages.is_none());
    assert_eq!(r.note, "");
    let facts = RelationshipFacts {
        follow: Some(FollowRow { show_reblogs: false, notify: true, languages: Some(vec!["en".into()]) }),
        mute: Some(MuteRow {
            hide_notifications: true,
            expires_at: Some(Timestamp { year: 2026, month: 1, day: 2, hour: 3, minute: 4, second: 5, millis: 6 }),
        }),
        note: Some("met at a conference".into()),
        ..no_facts()
    };
    let r = relationship_of(-1, &facts);
    assert_eq!(r.id, "-1");
    assert!(r.following && !r.showing_reblogs && r.notifying);
    assert_eq!(r.languages, Some(vec!["en".to_string()]));
    assert!(r.muting && r.muting_notifications);
    assert_eq!(r.muting_expires_at.as_deref(), Some("2026-01-02T03:04:05.006Z"));
    assert_eq!(r.note, "met at a conference");
    let all_languages = RelationshipFacts {
        follow: Some(FollowRow { show_reblogs: true, notify: false, languages: Some(vec![]) }),
        ..no_facts()
    };
    assert!(relationship_of(1, &all_languages).languages.is_none());
}

#[test]
fn follow_rules() {
    let target = FollowTarget { unavailable: false, moved: false, blocked_either: false, domain_blocked: false };
    assert!(follow_gate(1, 2, &target).is_ok());
    assert!(matches!(follow_gate(1, 1, &target), Err(ApiError::Forbidden)));
    assert!(matches!(
        follow_gate(1, 2, &FollowTarget { unavailable: true, ..target }),
        Err(ApiError::NotFound)
    ));
    assert!(matches!(follow_gate(1, 2, &FollowTarget { moved: true, ..target }), Err(ApiError::Forbidden)));
    assert_eq!(follow_limit(10, 100_000), 7_500);
    assert_eq!(follow_limit(7_500, 100), 7_500);
    assert_eq!(follow_limit(7_500, 10_000), 11_000);
    assert_eq!(follow_limit(8_000, 6_825), 7_508);
    assert!(check_follow_limit(7_499, 0).is_ok());
    match check_follow_limit(7_500, 0) {
        Err(ApiError::Unprocessable(m)) => {
            assert_eq!(m, "Validation failed: You are trying to follow too many people (limit: 7500)")
        }
        _ => panic!(),
    }
    assert!(matches!(follow_action(true, true, true, true, true), FollowAction::UpdateSettings));
    assert!(matches!(follow_action(false, true, false, false, false), FollowAction::Nothing));
    assert!(matches!(follow_action(false, false, true, false, false), FollowAction::RemoteRequest));
    assert!(matches!(follow_action(false, false, false, true, false), FollowAction::Request));
    assert!(matches!(follow_action(false, false, false, false, true), FollowAction::Request));
    assert!(matches!(follow_action(false, false, false, false, false), FollowAction::Follow));
    let s = follow_settings(&FollowParams { reblogs: None, notify: None, languages: None });
    assert!(s.show_reblogs && !s.notify && s.languages.is_empty());
    let s = follow_settings(&FollowParams { reblogs: Some(false), notify: Some(true), languages: Some(vec!["ko".into()]) });
    assert!(!s.show_reblogs && s.notify);
    assert_eq!(s.languages, vec!["ko".to_string()]);
    assert_eq!(follow_uri("example.social", "bob", 77), "https://example.social/users/bob/follows/77");
}

#[test]
fn mutes_and_blocks() {
    let m = mute_settings(&MuteParams { notifications: None, duration: Some(0) });
    assert!(m.hide_notifications);
    assert_eq!(m.expires_in, None);
    let m = mute_settings(&MuteParams { notifications: Some(false), duration: Some(3600) });
    assert!(!m.hide_notifications);
    assert_eq!(m.expires_in, Some(3600));
    let follows = vec![
        RemovedFollow { account_id: 1, uri: Some("https://a/f/1".into()) },
        RemovedFollow { account_id: 2, uri: Some("https://b/f/2".into()) },
        RemovedFollow { account_id: 1, uri: Some("".into()) },
    ];
    let requests = vec![
        RemovedFollow { account_id: 2, uri: Some("https://b/r/3".into()) },
        RemovedFollow { account_id: 1, uri: Some("https://a/r/4".into()) },
    ];
    let acts = block_activities(1, 2, &follows, &requests);
    let view: Vec<(u8, String)> = acts
        .into_iter()
        .map(|a| match a {
            BlockActivity::UndoFollow(u) => (0, u),
            BlockActivity::RejectFollow(u) => (1, u),
            BlockActivity::Block => (2, String::new()),
        })
        .collect();
    assert_eq!(
        view,
        vec![
            (0, "https://a/f/1".to_string()),
            (1, "https://b/f/2".to_string()),
            (1, "https://b/r/3".to_string()),
            (2, String::new()),
        ]
    );
    assert_eq!(block_uri("example.social", "alice", 9), "https://example.social/users/alice/blocks/9");
}

#[test]
fn follow_request_answers() {
    let w = follow_request_page(&params(Some("90"), Some("10"), Some("20"), Some("100")));
    assert_eq!((w.limit, w.max_id, w.since_id, w.min_id, w.reads_forward), (80, Some(90), Some(10), Some(20), false));
    let uri = Some("https://r.example/follows/1".to_string());
    let reply = follow_reply(&uri, true, "https://r.example/users/x", true, "https://r.example/inbox").unwrap();
    assert_eq!(reply.follow_uri, "https://r.example/follows/1");
    assert_eq!(reply.actor_uri, "https://r.example/users/x");
    assert_eq!(reply.inbox, "https://r.example/inbox");
    assert!(follow_reply(&None, true, "https://r.example/users/x", true, "https://r.example/inbox").is_none());
    assert!(follow_reply(&uri, false, "https://r.example/users/x", true, "https://r.example/inbox").is_none());
    assert!(follow_reply(&uri, true, "", true, "https://r.example/inbox").is_none());
    assert!(follow_reply(&uri, true, "https://r.example/users/x", false, "https://r.example/inbox").is_none());
    assert!(follow_reply(&uri, true, "https://r.example/users/x", true, "").is_none());
    assert_eq!(activity_uri("example.social", 123), "https://example.social/activities/123");
    assert_eq!(main_key_id("https://example.social/users/a"), "https://example.social/users/a#main-key");
    assert_eq!(followed_you("Alice"), "Alice followed you");
}

#[test]
fn moving_and_aliases() {
    let a = alias_entity(
        3,
        4,
        "https://new.example/users/me",
        Timestamp { year: 2024, month: 12, day: 31, hour: 23, minute: 59, second: 59, millis: 999 },
    );
    assert_eq!((a.id.as_str(), a.account_id.as_str()), ("3", "4"));
    assert_eq!(a.uri, "https://new.example/users/me");
    assert_eq!(a.created_at, "2024-12-31T23:59:59.999Z");
    assert!(fetches_move_target(false, "https://new.example/users/me"));
    assert!(!fetches_move_target(false, "me@new.example"));
    assert!(!fetches_move_target(true, "https://new.example/users/me"));
    assert_eq!(announced_move_target(&Some("https://n/u".into()), true), Some("https://n/u".to_string()));
    assert_eq!(announced_move_target(&Some("".into()), true), None);
    assert_eq!(announced_move_target(&Some("https://n/u".into()), false), None);
    assert_eq!(announced_move_target(&None, true), None);
    assert_eq!(move_id("https://example.social/users/a", 5), "https://example.social/users/a#moves/5");
}

#[test]
fn endorsements() {
    assert!(may_endorse(true).is_ok());
    match may_endorse(false) {
        Err(ApiError::Unprocessable(m)) => {
            assert_eq!(m, "Validation failed: Account must be one you are following")
        }
        _ => panic!(),
    }
    let w = endorsements_page(&params(Some("5"), None, Some("1"), None));
    assert_eq!((w.limit, w.max_id, w.since_id, w.min_id, w.reads_forward), (40, Some(5), None, None, false));
    let (w, paged) = my_endorsements_page(&params(None, None, None, Some("0")));
    assert!(!paged);
    assert_eq!(w.limit, i64::MAX);
    let (w, paged) = my_endorsements_page(&params(None, None, None, Some("90")));
    assert!(paged);
    assert_eq!(w.limit, 80);
}

#[test]
fn favourites_and_bookmarks() {
    let w = favourites_page(&params(Some("50"), Some("2"), Some("30"), None));
    assert_eq!((w.limit, w.max_id, w.since_id, w.min_id, w.reads_forward), (20, None, None, Some(30), true));
    let w = favourites_page(&params(Some("50"), Some("2"), None, Some("41")));
    assert_eq!((w.limit, w.max_id, w.since_id, w.min_id, w.reads_forward), (40, Some(50), Some(2), None, false));
    let c = favourited_context(None, 7);
    assert!(c.favourited && !c.bookmarked && !c.reblogged);
    assert_eq!(c.account_id, 7);
    let given = StatusViewerContext {
        account_id: 7,
        follows_author: true,
        author_follows: false,
        favourited: false,
        reblogged: true,
        muted: false,
        bookmarked: true,
        pinned: false,
    };
    let c = favourited_context(Some(given), 8);
    assert!(c.favourited && c.follows_author && c.reblogged && c.bookmarked);
    assert_eq!(c.account_id, 7);
    let w = bookmarks_page(&params(Some("9"), None, Some("3"), Some("0")));
    assert_eq!((w.limit, w.max_id, w.min_id), (1, Some(9), None));
    let b = bookmark_context(4, true, false);
    assert!(b.bookmarked && b.favourited && !b.reblogged && !b.pinned);
}

#[test]
fn batch_relationships_follow_the_ids() {
    let mut blocked = no_facts();
    blocked.blocking = true;
    let rs = relationships_of(&vec![7, 3], &vec![no_facts(), blocked]);
    assert_eq!(rs.len(), 2);
    assert_eq!((rs[0].id.as_str(), rs[0].blocking), ("7", false));
    assert_eq!((rs[1].id.as_str(), rs[1].blocking), ("3", true));
    assert!(relationships_of(&vec![], &vec![]).is_empty());
}
