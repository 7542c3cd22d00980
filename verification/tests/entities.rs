use eunha::convert::account_from_db;
use eunha::filters::{filter_entity, filter_v1_entity, FilterRow, FilterStatusRow, KeywordRow};
use eunha::instance::obfuscate_domain;
use eunha::json::JsonValue;
use eunha::models::{Account, Timestamp};
use eunha::notifications::{
    notification_entity, notification_request_entity, notification_requests_page, report_category,
    report_entity, NotificationRequestsQuery, ReportRow,
};
use eunha::urls::InstanceUrls;

fn ts() -> Timestamp {
    Timestamp { year: 2023, month: 11, day: 30, hour: 1, minute: 2, second: 3, millis: 4 }
}

fn row(action: &str) -> FilterRow {
    FilterRow {
        id: 12,
        phrase: "spoilers".into(),
        context: vec!["home".into(), "public".into()],
        expires_at: Some(ts()),
        action: action.into(),
    }
}

#[test]
fn filter_entities() {
    let f = filter_entity(
        &row("warn"),
        &vec![KeywordRow { id: 1, keyword: "finale".into(), whole_word: true }],
        &vec![FilterStatusRow { id: 4, status_id: 99 }],
    );
    assert_eq!(f.id, "12");
    assert_eq!(f.title, "spoilers");
    assert_eq!(f.context, vec!["home".to_string(), "public".to_string()]);
    assert_eq!(f.expires_at.as_deref(), Some("2023-11-30T01:02:03.004Z"));
    assert_eq!(f.filter_action, "warn");
    assert_eq!(f.keywords.len(), 1);
    assert_eq!((f.keywords[0].id.as_str(), f.keywords[0].keyword.as_str(), f.keywords[0].whole_word), ("1", "finale", true));
    match &f.statuses[0] {
        JsonValue::Object(es) => {
            assert_eq!(es.len(), 2);
            assert!(matches!(&es[0], (k, JsonValue::Str(v)) if k == "id" && v == "4"));
            assert!(matches!(&es[1], (k, JsonValue::Str(v)) if k == "status_id" && v == "99"));
        }
        _ => panic!(),
    }
    let v1 = filter_v1_entity(&row("hide"), false);
    assert_eq!(v1.phrase, "spoilers");
    assert!(v1.irreversible && !v1.whole_word);
    assert!(!filter_v1_entity(&row("warn"), true).irreversible);
}

#[test]
fn obfuscation_keeps_the_length() {
    for d in ["example.com", "xn--bcher-kva.example", "한국어.kr", "plain"] {
        assert_eq!(obfuscate_domain(d).len(), d.len());
    }
    assert_eq!(obfuscate_domain("한국어.kr"), "한******.kr");
    assert_eq!(obfuscate_domain("ab.org"), "*.org");
}

#[test]
fn unavailable_accounts_are_blanked() {
    let urls = InstanceUrls::new(
        "example.social".into(),
        "https://media.example/accounts/avatars/original/missing.png".into(),
        "https://media.example/headers/original/missing.png".into(),
    );
    let gone = Account {
        id: 5,
        username: "gone".into(),
        domain: None,
        display_name: "Gone Person".into(),
        note: "bio".into(),
        locked: true,
        discoverable: Some(true),
        indexable: true,
        hide_collections: None,
        actor_type: Some("Service".into()),
        created_at: ts(),
        url: None,
        uri: None,
        avatar_file_name: Some("me.png".into()),
        avatar_remote_url: None,
        header_file_name: None,
        header_remote_url: String::new(),
        avatar_description: "me".into(),
        header_description: String::new(),
        show_media: true,
        show_media_replies: true,
        show_featured: true,
        feature_approval_policy: 0,
        fields: None,
        suspended: true,
        deletion_requested: false,
        silenced: false,
        sensitized: false,
        memorial: false,
        invalid_handle: false,
        id_scheme: 0,
    };
    let e = account_from_db(&urls, &gone);
    assert_eq!(e.display_name, "");
    assert_eq!(e.note, "");
    assert!(!e.locked && !e.bot);
    assert_eq!(e.avatar, "https://media.example/accounts/avatars/original/missing.png");
    assert_eq!(e.avatar_description, "");
    assert_eq!(e.suspended, Some(true));
    assert_eq!(e.created_at, "2023-11-30T00:00:00.000Z");
}

fn urls() -> InstanceUrls {
    InstanceUrls::new(
        "example.social".into(),
        "https://media.example/accounts/avatars/original/missing.png".into(),
        "https://media.example/headers/original/missing.png".into(),
    )
}

fn person(id: i64, username: &str) -> Account {
    Account {
        id,
        username: username.into(),
        domain: None,
        display_name: "Someone".into(),
        note: String::new(),
        locked: false,
        discoverable: None,
        indexable: false,
        hide_collections: None,
        actor_type: None,
        created_at: ts(),
        url: None,
        uri: None,
        avatar_file_name: None,
        avatar_remote_url: None,
        header_file_name: None,
        header_remote_url: String::new(),
        avatar_description: String::new(),
        header_description: String::new(),
        show_media: true,
        show_media_replies: true,
        show_featured: true,
        feature_approval_policy: 0,
        fields: None,
        suspended: false,
        deletion_requested: false,
        silenced: false,
        sensitized: false,
        memorial: false,
        invalid_handle: false,
        id_scheme: 0,
    }
}

#[test]
fn report_categories_by_number() {
    assert_eq!(report_category(1), "spam");
    assert_eq!(report_category(2), "violation");
    assert_eq!(report_category(0), "other");
    assert_eq!(report_category(7), "other");
}

#[test]
fn report_and_notification_entities() {
    let target = person(31, "troll");
    let row = ReportRow {
        id: 8,
        comment: "rude".into(),
        forwarded: None,
        category: 2,
        action_taken_at: Some(ts()),
        created_at: ts(),
        status_ids: vec![101, 102],
    };
    let r = report_entity(&urls(), &row, &target);
    assert_eq!(r.id, "8");
    assert!(r.action_taken);
    assert_eq!(r.action_taken_at.as_deref(), Some("2023-11-30T01:02:03.004Z"));
    assert_eq!(r.category, "violation");
    assert_eq!(r.comment, "rude");
    assert!(!r.forwarded);
    assert_eq!(r.status_ids, vec!["101".to_string(), "102".to_string()]);
    assert!(r.rule_ids.is_empty() && r.collection_ids.is_empty());
    assert_eq!(r.target_account.username, "troll");

    let from = person(9, "alice");
    let n = notification_entity(&urls(), 77, &Some("admin.report".into()), ts(), &from, None, Some(r));
    assert_eq!(n.id, "77");
    assert_eq!(n.notification_type, "admin.report");
    assert_eq!(n.group_key, "ungrouped-77");
    assert_eq!(n.created_at, "2023-11-30T01:02:03.004Z");
    assert_eq!(n.account.id, "9");
    assert!(n.status.is_none());
    assert_eq!(n.report.as_ref().map(|r| r.id.as_str()), Some("8"));
    let plain = notification_entity(&urls(), 78, &None, ts(), &from, None, None);
    assert_eq!(plain.notification_type, "");
    assert!(plain.report.is_none() && plain.filtered.is_none());
}

#[test]
fn notification_request_pages_and_entities() {
    let q = |limit: Option<i64>| NotificationRequestsQuery {
        max_id: Some("500".into()),
        since_id: None,
        min_id: Some("x".into()),
        limit,
    };
    let w = notification_requests_page(&q(None));
    assert_eq!(w.limit, 40);
    assert_eq!(w.max_id, Some(500));
    assert_eq!(w.since_id, None);
    assert_eq!(w.min_id, None);
    assert!(!w.reads_forward);
    assert_eq!(notification_requests_page(&q(Some(200))).limit, 80);
    assert_eq!(notification_requests_page(&q(Some(0))).limit, 1);
    assert_eq!(notification_requests_page(&q(Some(25))).limit, 25);

    let r = notification_request_entity(&urls(), 4, ts(), ts(), 12, &person(3, "bob"), None);
    assert_eq!(r.id, "4");
    assert_eq!(r.notifications_count, "12");
    assert_eq!(r.updated_at, "2023-11-30T01:02:03.004Z");
    assert_eq!(r.account.username, "bob");
    assert!(r.last_status.is_none());
}
