use eunha::accounts::{apply_account_stats, preferences, AccountStats, UserDefaults};
use eunha::admin::{
    report_window,
    admin_account, admin_gate, admin_report, cohorts, retention_cohort, retention_continues,
    retention_point, AdminReportRow, CohortRow, IpRow, UserRow,
};
use eunha::convert::account_from_db;
use eunha::error::ApiError;
use eunha::follow_requests::undo_follow_target;
use eunha::json::JsonValue;
use eunha::models::{Account, Timestamp};
use eunha::profile::{profile_entity, FeaturedTagRow};
use eunha::relationships::{keep_allowed, relationships_query};
use eunha::urls::InstanceUrls;

fn json_text(v: &JsonValue) -> String {
    match v {
        JsonValue::Null => "null".to_string(),
        JsonValue::Bool(b) => b.to_string(),
        JsonValue::Int(i) => i.to_string(),
        JsonValue::Number(n) => n.clone(),
        JsonValue::Ratio(a, b) => format!("{}/{}", a, b),
        JsonValue::Str(s) => format!("{:?}", s),
        JsonValue::Array(xs) => {
            format!("[{}]", xs.iter().map(json_text).collect::<Vec<_>>().join(","))
        }
        JsonValue::Object(es) => format!(
            "{{{}}}",
            es.iter()
                .map(|(k, v)| format!("{:?}:{}", k, json_text(v)))
                .collect::<Vec<_>>()
                .join(",")
        ),
    }
}

fn ts(day: u32, hour: u32) -> Timestamp {
    Timestamp { year: 2024, month: 4, day, hour, minute: 0, second: 0, millis: 0 }
}

fn urls() -> InstanceUrls {
    InstanceUrls::new(
        "example.social".into(),
        "https://media.example/accounts/avatars/original/missing.png".into(),
        "https://media.example/headers/original/missing.png".into(),
    )
}

fn account(id: i64, username: &str, domain: Option<&str>) -> Account {
    Account {
        id,
        username: username.to_string(),
        domain: domain.map(|d| d.to_string()),
        display_name: "Someone".to_string(),
        note: "Hello #world".to_string(),
        locked: true,
        discoverable: Some(true),
        indexable: true,
        hide_collections: Some(false),
        actor_type: Some("Service".to_string()),
        created_at: ts(1, 9),
        url: None,
        uri: None,
        avatar_file_name: None,
        avatar_remote_url: None,
        header_file_name: None,
        header_remote_url: String::new(),
        avatar_description: String::new(),
        header_description: String::new(),
        show_media: true,
        show_media_replies: true,
        show_featured: true,
        feature_approval_policy: 0,
        fields: Some(JsonValue::Array(vec![JsonValue::Object(vec![
            ("name".to_string(), JsonValue::Str("Site".to_string())),
            ("value".to_string(), JsonValue::Str("https://me.example".to_string())),
        ])])),
        suspended: false,
        deletion_requested: false,
        silenced: true,
        sensitized: false,
        memorial: false,
        invalid_handle: false,
        id_scheme: 0,
    }
}

#[test]
fn admin_access() {
    assert!(admin_gate(Some("admin")).is_ok());
    assert!(admin_gate(Some("moderator")).is_ok());
    assert!(matches!(admin_gate(Some("user")), Err(ApiError::Forbidden)));
    assert!(matches!(admin_gate(None), Err(ApiError::Unauthorized)));
}

#[test]
fn admin_account_entity() {
    let a = account(5, "mod", None);
    let user = Some(UserRow {
        email: "mod@example.social".into(),
        confirmed: true,
        approved: false,
        reason: Some("let me in".into()),
        role: "moderator".into(),
    });
    let ips = vec![
        IpRow { ip: Some("10.0.0.2".into()), used_at: Some(ts(3, 4)) },
        IpRow { ip: None, used_at: None },
    ];
    let r = admin_account(&urls(), &a, &user, &ips);
    assert_eq!(r.id, "5");
    assert_eq!(r.username, "mod");
    assert_eq!(r.domain, None);
    assert_eq!(r.created_at, "2024-04-01T09:00:00.000Z");
    assert_eq!(r.email, "mod@example.social");
    assert_eq!(r.ip.as_deref(), Some("10.0.0.2"));
    let ips_text: Vec<String> = r.ips.iter().map(json_text).collect();
    assert_eq!(
        ips_text,
        vec![
            "{\"ip\":\"10.0.0.2\",\"used_at\":\"2024-04-03T04:00:00.000Z\"}".to_string(),
            "{\"ip\":\"\",\"used_at\":null}".to_string(),
        ]
    );
    assert_eq!(r.role.name, "Moderator");
    assert!(r.confirmed && !r.approved && r.silenced && !r.suspended && !r.disabled);
    assert_eq!(r.invite_request.as_deref(), Some("let me in"));
    assert_eq!(r.account.username, "mod");
    let remote = admin_account(&urls(), &account(6, "far", Some("r.example")), &None, &vec![]);
    assert!(remote.confirmed && remote.approved);
    assert_eq!(remote.email, "");
    assert_eq!(remote.ip, None);
    assert_eq!(remote.role.id, "0");
    assert_eq!(remote.domain.as_deref(), Some("r.example"));
}

#[test]
fn admin_report_entity() {
    let row = AdminReportRow {
        id: 31,
        account_id: 5,
        target_account_id: 6,
        comment: "spam".into(),
        forwarded: None,
        category: "spam".into(),
        action_taken_at: Some(ts(9, 1)),
        created_at: ts(8, 1),
        updated_at: ts(9, 2),
    };
    let r = admin_report(&urls(), &row, &account(5, "a", None), &account(6, "b", Some("r.example")));
    assert_eq!(r.id, "31");
    assert!(r.action_taken && !r.forwarded);
    assert_eq!(r.action_taken_at.as_deref(), Some("2024-04-09T01:00:00.000Z"));
    assert_eq!((r.category.as_str(), r.comment.as_str()), ("spam", "spam"));
    assert_eq!(r.account.username, "a");
    assert_eq!(r.target_account.acct, "b@r.example");
    assert!(r.assigned_account.is_none() && r.statuses.is_empty());
}

#[test]
fn retention_cohorts() {
    let rows = vec![
        CohortRow { period: Some(ts(1, 0)), account_id: 1 },
        CohortRow { period: Some(ts(1, 0)), account_id: 2 },
        CohortRow { period: None, account_id: 3 },
        CohortRow { period: Some(ts(2, 0)), account_id: 4 },
    ];
    let cs = cohorts(&rows);
    assert_eq!(cs.len(), 2);
    assert_eq!(cs[0].account_ids, vec![1, 2]);
    assert_eq!((cs[1].period.day, cs[1].account_ids.clone()), (2, vec![4]));
    assert!(retention_continues(&ts(1, 0), &ts(1, 0), 0));
    assert!(!retention_continues(&ts(2, 0), &ts(1, 23), 0));
    assert!(!retention_continues(&ts(1, 0), &ts(3, 0), 100));
    let p = retention_point(ts(1, 0), 1, 2);
    assert_eq!(json_text(&p), "{\"date\":\"2024-04-01T00:00:00.000Z\",\"rate\":1/2,\"value\":1}");
    let empty = retention_point(ts(1, 0), 0, 0);
    assert_eq!(json_text(&empty), "{\"date\":\"2024-04-01T00:00:00.000Z\",\"rate\":0/1,\"value\":0}");
    let c = retention_cohort(ts(1, 0), "day", 2, vec![p]);
    assert_eq!(
        json_text(&c),
        "{\"period\":\"2024-04-01T00:00:00.000Z\",\"frequency\":\"day\",\"cohort_size\":2,\"data\":[{\"date\":\"2024-04-01T00:00:00.000Z\",\"rate\":1/2,\"value\":1}]}"
    );
}

#[test]
fn profile_entity_renders_the_account() {
    let a = account(7, "alice", None);
    let featured = vec![
        FeaturedTagRow { id: 1, name: "rust".into(), statuses_count: 12, last_status_at: Some(ts(5, 8)) },
        FeaturedTagRow { id: 2, name: "cats".into(), statuses_count: 0, last_status_at: None },
    ];
    let p = profile_entity(&urls(), "example.social", &a, &Some(vec!["me.example".into()]), &featured);
    assert_eq!(p.id, "7");
    assert_eq!(p.note, "Hello #world");
    assert_eq!(
        p.formatted_note,
        "<p>Hello&#32;<a href=\"https:&#47;&#47;example.social&#47;tags&#47;world\" class=\"mention hashtag\" rel=\"tag\">#<span>world</span></a></p>"
    );
    assert_eq!(p.fields.len(), 1);
    assert_eq!(p.fields[0].value, "https://me.example");
    assert!(p.formatted_fields[0].value.contains("<a href="));
    assert!(p.bot && p.locked && p.indexable);
    assert_eq!(p.avatar, p.avatar_static);
    assert_eq!(p.avatar.as_deref(), Some("https://media.example/accounts/avatars/original/missing.png"));
    assert_eq!(p.attribution_domains, vec!["me.example".to_string()]);
    assert_eq!(p.featured_tags.len(), 2);
    assert_eq!(p.featured_tags[0].url, "https://example.social/@alice/tagged/rust");
    assert_eq!(p.featured_tags[0].statuses_count, "12");
    assert_eq!(p.featured_tags[0].last_status_at.as_deref(), Some("2024-04-05"));
    assert_eq!(p.featured_tags[1].last_status_at, None);
    let entity = account_from_db(&urls(), &a);
    assert_eq!(entity.avatar, p.avatar.unwrap());
}

#[test]
fn preferences_and_stats() {
    let p = preferences(UserDefaults {
        privacy: "private".into(),
        sensitive: true,
        language: Some("ko".into()),
        quote_policy: "followers".into(),
    });
    assert_eq!(p.posting_default_visibility, "private");
    assert!(p.posting_default_sensitive);
    assert_eq!(p.posting_default_language.as_deref(), Some("ko"));
    assert_eq!(p.posting_default_quote_policy, "followers");
    assert_eq!(p.reading_expand_media, "default");
    assert!(!p.reading_expand_spoilers && !p.reading_autoplay_gifs);
    let mut e = account_from_db(&urls(), &account(3, "c", None));
    apply_account_stats(&mut e, Some(AccountStats { statuses_count: 4, following_count: 5, followers_count: 6 }));
    assert_eq!((e.statuses_count, e.following_count, e.followers_count), (4, 5, 6));
    apply_account_stats(&mut e, None);
    assert_eq!((e.statuses_count, e.following_count, e.followers_count), (4, 5, 6));
}

#[test]
fn relationships_queries() {
    let q = relationships_query(Some("id[]=3&id=4&id%5B%5D=x&with_suspended=true&id[]=5"));
    assert_eq!(q.ids, vec![3, 4, 5]);
    assert!(q.with_suspended);
    let q = relationships_query(Some("id[]=9&with_suspended=yes"));
    assert_eq!(q.ids, vec![9]);
    assert!(!q.with_suspended);
    let q = relationships_query(None);
    assert!(q.ids.is_empty() && !q.with_suspended);
    assert_eq!(keep_allowed(&vec![5, 3, 9, 3], &vec![3, 5]), vec![5, 3, 3]);
}

#[test]
fn undoing_remote_follows() {
    let t = undo_follow_target(true, true, &None, "https://example.social/users/a", "", "https://r/inbox").unwrap();
    assert_eq!(t.follow_uri, "https://example.social/users/a");
    assert_eq!(t.inbox, "https://r/inbox");
    let t = undo_follow_target(true, true, &Some("https://example.social/f/1".into()), "x", "https://r/shared", "https://r/inbox").unwrap();
    assert_eq!((t.follow_uri.as_str(), t.inbox.as_str()), ("https://example.social/f/1", "https://r/shared"));
    assert!(undo_follow_target(false, true, &None, "x", "s", "i").is_none());
    assert!(undo_follow_target(true, false, &None, "x", "s", "i").is_none());
    assert!(undo_follow_target(true, true, &None, "x", "", "").is_none());
}

fn at(year: i32, month: u32, day: u32, hour: u32) -> (i32, u32, u32, u32, u32, u32, u32) {
    (year, month, day, hour, 0, 0, 0)
}

fn parts(t: Timestamp) -> (i32, u32, u32, u32, u32, u32, u32) {
    (t.year, t.month, t.day, t.hour, t.minute, t.second, t.millis)
}

fn stamp(year: i32, month: u32, day: u32, hour: u32) -> Timestamp {
    Timestamp { year, month, day, hour, minute: 0, second: 0, millis: 0 }
}

#[test]
fn dashboard_report_windows() {
    let now = stamp(2024, 3, 1, 12);
    let (s, e, p) = report_window(Some("2024-01-08T00:00:00Z"), Some("2024-01-15T00:00:00Z"), now, 7).unwrap();
    assert_eq!((parts(s), parts(e), parts(p)), (at(2024, 1, 8, 0), at(2024, 1, 15, 0), at(2024, 1, 1, 0)));
    let (s, e, p) = report_window(None, None, now, 7).unwrap();
    assert_eq!((parts(s), parts(e), parts(p)), (at(2024, 2, 23, 12), parts(now), at(2024, 2, 16, 12)));
    let (s, _, _) = report_window(Some("2024-01-08T09:00:00+09:00"), None, now, 30).unwrap();
    assert_eq!(parts(s), at(2024, 1, 8, 0));
    let (s, _, _) = report_window(Some("yesterday"), None, now, 30).unwrap();
    assert_eq!(parts(s), at(2024, 1, 31, 12));
    assert!(report_window(Some("2016-12-31T23:59:60Z"), None, now, 7).is_none());
    let (_, _, p) = report_window(Some("2024-03-01T00:00:00.250Z"), Some("2024-03-01T00:00:01Z"), now, 7).unwrap();
    assert_eq!(parts(p), (2024, 2, 29, 23, 59, 59, 500));
}
