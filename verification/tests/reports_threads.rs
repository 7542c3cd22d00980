use eunha::admin::{
    dimension, dimension_has_rows, dimension_limit, measure, measure_kind, MeasureDay, MeasureKind,
    ServerCount,
};
use eunha::announcements::{
    announcement_entity, check_reaction, reaction_verdict, AnnouncementRow, ReactionRow,
};
use eunha::annual_reports::{
    archetype, generation, report_data, report_from_row, report_state, report_status_ids,
    AnnualReport, Generation, TopStatuses, YearCounts,
};
use eunha::batch::{order_by_ids, unique_ids};
use eunha::conversations::{conversation_entity, conversation_page, last_status_rows};
use eunha::error::ApiError;
use eunha::instance::{
    document_url, instance_activity, instance_icons, instance_rules, streaming_url, thumbnail_url,
    RegistrationRow, WeekRow,
};
use eunha::json::JsonValue;
use eunha::models::{Account, Timestamp};
use eunha::notifications::{group_notification_id, ungrouped, GroupSource};
use eunha::pagination::PaginationParams;
use eunha::urls::InstanceUrls;

fn json_text(v: &JsonValue) -> String {
    match v {
        JsonValue::Null => "null".to_string(),
        JsonValue::Bool(b) => b.to_string(),
        JsonValue::Int(i) => i.to_string(),
        JsonValue::Number(n) => n.clone(),
        JsonValue::Ratio(a, b) => format!("{}/{}", a, b),
        JsonValue::Str(s) => format!("{:?}", s),
        JsonValue::Array(xs) => {
            format!("[{}]", xs.iter().map(json_text).collect::<Vec<_>>().join(","))
        }
        JsonValue::Object(es) => format!(
            "{{{}}}",
            es.iter()
                .map(|(k, v)| format!("{:?}:{}", k, json_text(v)))
                .collect::<Vec<_>>()
                .join(",")
        ),
    }
}

fn ts(day: u32) -> Timestamp {
    Timestamp { year: 2024, month: 2, day, hour: 10, minute: 20, second: 30, millis: 400 }
}

fn counts(reblogs: i64, replies: i64, standalone: i64, polls: i64) -> YearCounts {
    YearCounts { reblogs, replies, standalone, polls }
}

#[test]
fn archetypes() {
    assert_eq!(archetype(&counts(10, 10, 10, 0)), "lurker");
    assert_eq!(archetype(&counts(110, 0, 12, 0)), "booster");
    assert_eq!(archetype(&counts(20, 20, 100, 11)), "pollster");
    assert_eq!(archetype(&counts(20, 20, 100, 10)), "oracle");
    assert_eq!(archetype(&counts(0, 250, 100, 0)), "replier");
    assert_eq!(archetype(&counts(0, 0, 113, 0)), "oracle");
}

#[test]
fn annual_report_data_and_statuses() {
    let top = TopStatuses { by_reblogs: Some(5), by_favourites: None, by_replies: Some(7) };
    let data = report_data(&counts(0, 0, 200, 0), &top, 200, 3, &Some(("rust".to_string(), Some(9))));
    assert_eq!(
        json_text(&data),
        "{\"archetype\":\"oracle\",\"top_statuses\":{\"by_reblogs\":\"5\",\"by_favourites\":null,\"by_replies\":\"7\"},\"time_series\":[{\"month\":12,\"statuses\":200,\"followers\":3}],\"top_hashtags\":[{\"name\":\"rust\",\"count\":9}]}"
    );
    let empty = report_data(&counts(1, 1, 1, 0), &TopStatuses { by_reblogs: None, by_favourites: None, by_replies: None }, 3, 0, &None);
    assert!(json_text(&empty).ends_with("\"top_hashtags\":[]}"));
    let second = report_data(&counts(0, 0, 200, 0), &TopStatuses { by_reblogs: Some(8), by_favourites: Some(5), by_replies: None }, 1, 1, &None);
    let reports = vec![
        report_from_row(1, 2023, Some(data), 1),
        report_from_row(1, 2022, None, 1),
        report_from_row(1, 2021, Some(second), 1),
    ];
    assert_eq!(reports[0].account_id, "1");
    assert!(reports[0].share_url.is_none());
    assert_eq!(report_status_ids(&reports), vec![5, 7, 8]);
    let odd: Vec<AnnualReport> = vec![report_from_row(2, 2020, Some(JsonValue::Str("x".into())), 1)];
    assert!(report_status_ids(&odd).is_empty());
}

#[test]
fn report_generation_and_state() {
    match generation(2025, 2025, false, true) {
        Generation::Refused(m) => assert_eq!(m, "Report can only be generated for completed years"),
        _ => panic!(),
    }
    assert!(matches!(generation(2024, 2025, true, false), Generation::Done));
    match generation(2024, 2025, false, false) {
        Generation::Refused(m) => assert_eq!(m, "Not eligible for this year"),
        _ => panic!(),
    }
    assert!(matches!(generation(2024, 2025, false, true), Generation::Generate));
    assert_eq!(report_state(Some(true), 2024, 2025, false), "available");
    assert_eq!(report_state(Some(false), 2024, 2025, false), "generating");
    assert_eq!(report_state(None, 2024, 2025, true), "eligible");
    assert_eq!(report_state(None, 2025, 2025, true), "ineligible");
}

#[test]
fn reactions() {
    assert!(reaction_verdict(true, false, false, 3).is_ok());
    match reaction_verdict(false, false, true, 0) {
        Err(ApiError::Unprocessable(m)) => assert_eq!(m, "Unrecognized emoji"),
        _ => panic!(),
    }
    match reaction_verdict(false, true, false, 8) {
        Err(ApiError::Unprocessable(m)) => assert_eq!(m, "Reaction limit reached"),
        _ => panic!(),
    }
    assert!(reaction_verdict(false, true, true, 8).is_ok());
    assert!(check_reaction(false, "🚀", false, 0).is_ok());
    assert!(check_reaction(false, "👍", false, 7).is_ok());
    assert!(matches!(check_reaction(false, "rocket", false, 0), Err(ApiError::Unprocessable(_))));
    assert!(check_reaction(true, "blobcat", false, 0).is_ok());
}

#[test]
fn announcement_entities() {
    let row = AnnouncementRow {
        id: 3,
        all_day: false,
        starts_at: Some(ts(1)),
        ends_at: None,
        published_at: None,
        updated_at: ts(2),
    };
    let rows = vec![
        ReactionRow { announcement_id: 3, name: "👍".into(), count: 2, image_remote_url: None },
        ReactionRow { announcement_id: 4, name: "👍".into(), count: 9, image_remote_url: None },
        ReactionRow { announcement_id: 3, name: "blob".into(), count: 1, image_remote_url: Some("https://e/b.png".into()) },
    ];
    let mine = vec![(3i64, "blob".to_string()), (4i64, "👍".to_string())];
    let a = announcement_entity(&row, "<p>hi</p>".into(), true, &vec![3], &rows, &mine);
    assert_eq!(a.id, "3");
    assert_eq!(a.content, "<p>hi</p>");
    assert_eq!(a.starts_at.as_deref(), Some("2024-02-01T10:20:30.400Z"));
    assert_eq!(a.ends_at, None);
    assert_eq!(a.published_at, "");
    assert_eq!(a.updated_at, "2024-02-02T10:20:30.400Z");
    assert_eq!(a.read, Some(true));
    let got: Vec<(String, i64, bool, Option<String>, Option<String>)> = a
        .reactions
        .into_iter()
        .map(|r| (r.name, r.count, r.me, r.url, r.static_url))
        .collect();
    assert_eq!(
        got,
        vec![
            ("👍".to_string(), 2, false, None, None),
            ("blob".to_string(), 1, true, Some("https://e/b.png".to_string()), Some("https://e/b.png".to_string())),
        ]
    );
    let anonymous = announcement_entity(&row, String::new(), false, &vec![3], &rows, &vec![]);
    assert_eq!(anonymous.read, None);
}

#[test]
fn measures_and_dimensions() {
    assert!(matches!(measure_kind("new_users"), MeasureKind::NewUsers));
    assert!(matches!(measure_kind("resolved_reports"), MeasureKind::ResolvedReports));
    assert!(matches!(measure_kind("tag_uses"), MeasureKind::Unknown));
    let m = measure(
        "new_users",
        12,
        4,
        &vec![MeasureDay { day: Some(ts(3)), value: Some(12) }, MeasureDay { day: None, value: None }],
    );
    assert_eq!(
        json_text(&m),
        "{\"key\":\"new_users\",\"unit\":null,\"total\":\"12\",\"human_value\":\"12\",\"previous_total\":\"4\",\"data\":[{\"date\":\"2024-02-03T10:20:30.400Z\",\"value\":\"12\"},{\"date\":\"\",\"value\":\"0\"}]}"
    );
    assert_eq!(dimension_limit(None), 10);
    assert_eq!(dimension_limit(Some(500)), 50);
    assert_eq!(dimension_limit(Some(-1)), 1);
    assert!(dimension_has_rows("servers"));
    assert!(!dimension_has_rows("sources"));
    let d = dimension("servers", &vec![ServerCount { server: Some("local".into()), count: Some(30) }]);
    assert_eq!(
        json_text(&d),
        "{\"key\":\"servers\",\"data\":[{\"key\":\"local\",\"human_key\":\"local\",\"value\":\"30\",\"unit\":null,\"human_value\":\"30\"}]}"
    );
}

#[test]
fn instance_entity_parts() {
    assert_eq!(streaming_url("example.social"), "wss://example.social/api/v1/streaming");
    assert_eq!(thumbnail_url("example.social", &None), "https://example.social/instance-thumbnail.png");
    assert_eq!(thumbnail_url("example.social", &Some("https://cdn/i.png".into())), "https://cdn/i.png");
    assert_eq!(document_url("example.social", "", "/api/v1/instance/privacy_policy"), None);
    assert_eq!(
        document_url("example.social", "Be nice.", "/api/v1/instance/terms_of_service"),
        Some("https://example.social/api/v1/instance/terms_of_service".to_string())
    );
    assert!(instance_icons(&None).is_empty());
    let icons: Vec<String> = instance_icons(&Some("https://cdn/i.png".into())).iter().map(json_text).collect();
    assert_eq!(
        icons,
        vec![
            "{\"src\":\"https://cdn/i.png\",\"size\":\"192x192\"}".to_string(),
            "{\"src\":\"https://cdn/i.png\",\"size\":\"512x512\"}".to_string(),
        ]
    );
    let rules = JsonValue::Array(vec![
        JsonValue::Object(vec![("text".into(), JsonValue::Str("No spam".into())), ("hint".into(), JsonValue::Str("ads".into()))]),
        JsonValue::Object(vec![("text".into(), JsonValue::Int(3))]),
    ]);
    let rs = instance_rules(&rules);
    assert_eq!(rs.len(), 2);
    assert_eq!((rs[0].id.as_str(), rs[0].text.as_str(), rs[0].hint.as_str()), ("1", "No spam", "ads"));
    assert_eq!((rs[1].id.as_str(), rs[1].text.as_str(), rs[1].hint.as_str()), ("2", "", ""));
    assert_eq!(json_text(&rs[0].translations), "{}");
    assert!(instance_rules(&JsonValue::Null).is_empty());
    let weeks = vec![
        WeekRow { week: Some(1_700_000_000), statuses: Some(5), logins: Some(2) },
        WeekRow { week: Some(1_699_395_200), statuses: None, logins: Some(1) },
        WeekRow { week: Some(1_698_790_400), statuses: Some(1), logins: Some(1) },
    ];
    let regs = vec![
        RegistrationRow { week: Some(1_700_000_000), registrations: Some(3) },
        RegistrationRow { week: Some(1_700_000_000), registrations: Some(4) },
    ];
    let act: Vec<String> = instance_activity(&weeks, &regs).iter().map(json_text).collect();
    assert_eq!(
        act,
        vec![
            "{\"week\":\"1700000000\",\"statuses\":\"5\",\"logins\":\"2\",\"registrations\":\"4\"}".to_string(),
            "{\"week\":\"1698790400\",\"statuses\":\"1\",\"logins\":\"1\",\"registrations\":\"0\"}".to_string(),
        ]
    );
}

#[test]
fn batches_keep_the_listing_order() {
    assert_eq!(order_by_ids(&vec![3, 1, 9, 3], &vec![1, 2, 3]), vec![2, 0, 2]);
    assert_eq!(order_by_ids(&vec![5], &vec![5, 5]), vec![1]);
    assert!(order_by_ids(&vec![], &vec![1]).is_empty());
    assert_eq!(unique_ids(&vec![4, 2, 4, 4, 1, 2]), vec![4, 2, 1]);
}

fn row(id: i64, username: &str) -> Account {
    Account {
        id,
        username: username.to_string(),
        domain: None,
        display_name: username.to_uppercase(),
        note: String::new(),
        locked: false,
        discoverable: None,
        indexable: false,
        hide_collections: None,
        actor_type: None,
        created_at: ts(5),
        url: None,
        uri: None,
        avatar_file_name: None,
        avatar_remote_url: None,
        header_file_name: None,
        header_remote_url: String::new(),
        avatar_description: String::new(),
        header_description: String::new(),
        show_media: true,
        show_media_replies: true,
        show_featured: true,
        feature_approval_policy: 0,
        fields: None,
        suspended: false,
        deletion_requested: false,
        silenced: false,
        sensitized: false,
        memorial: false,
        invalid_handle: false,
        id_scheme: 0,
    }
}

#[test]
fn conversations() {
    let w = conversation_page(&PaginationParams { max_id: Some("9".into()), since_id: None, min_id: None, limit: Some("100".into()) });
    assert_eq!((w.limit, w.max_id, w.reads_forward), (40, Some(9), false));
    let urls = InstanceUrls::new(
        "example.social".into(),
        "https://media.example/accounts/avatars/original/missing.png".into(),
        "https://media.example/headers/original/missing.png".into(),
    );
    let accounts = vec![row(2, "bob"), row(1, "alice")];
    let c = conversation_entity(&urls, 77, true, &vec![1, 5, 2], &accounts, None);
    assert_eq!(c.id, "77");
    assert!(c.unread);
    assert!(c.last_status.is_none());
    let names: Vec<(String, String)> = c.accounts.iter().map(|a| (a.id.clone(), a.username.clone())).collect();
    assert_eq!(names, vec![("1".to_string(), "alice".to_string()), ("2".to_string(), "bob".to_string())]);
    assert_eq!(c.accounts[0].display_name, "ALICE");
    assert_eq!(
        last_status_rows(&vec![10, 11, 12], &vec![Some(11), None, Some(10), Some(11)]),
        vec![Some(2), Some(3), None]
    );
}

#[test]
fn notification_groups() {
    let g = ungrouped(GroupSource {
        id: 501,
        kind: Some("favourite".into()),
        from_account_id: 8,
        created_at: ts(9),
        status_id: Some(40),
        report: None,
    });
    assert_eq!(g.group_key, "ungrouped-501");
    assert_eq!(g.notifications_count, 1);
    assert_eq!(g.notification_type, "favourite");
    assert_eq!((g.most_recent_notification_id.as_str(), g.page_max_id.as_str(), g.page_min_id.as_str()), ("501", "501", "501"));
    assert_eq!(g.latest_page_notification_at, "2024-02-09T10:20:30.400Z");
    assert_eq!(g.sample_account_ids, vec!["8".to_string()]);
    assert_eq!(g.status_id.as_deref(), Some("40"));
    assert!(matches!(group_notification_id("ungrouped-501"), Ok(501)));
    assert!(matches!(group_notification_id(&g.group_key), Ok(501)));
    assert!(matches!(group_notification_id("grouped-501"), Err(ApiError::NotFound)));
    assert!(matches!(group_notification_id("ungrouped-x"), Err(ApiError::NotFound)));
}
