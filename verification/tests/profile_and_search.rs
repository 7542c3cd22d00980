use eunha::credentials::{
    actor_type, merge_fields, note_too_long, validate_fields, validate_profile_text, CredentialsForm,
};
use eunha::error::ApiError;
use eunha::filters::{
    filter_action, filter_action_v1, irreversible, keyword_updates, keywords_to_create,
    publish_filters_changed, whole_word_v1, CreateFilterForm, CreateFilterV1Form, KeywordAttr,
    KeywordOp, StreamEvent,
};
use eunha::formatting::{mention_map_from_api, render_content, StatusMention};
use eunha::instance::{
    obfuscate_domain, peers_pattern, public_domain_block, terms_of_service,
    terms_of_service_by_date, PeersSearchParams,
};
use eunha::json::JsonValue;
use eunha::markers::{form_marker_ids, json_marker_ids, marker_timelines, stored_position};
use eunha::media::{
    classify_media_type, media_deletion, media_file_key, media_job_failure, media_type_int,
    media_type_str, upload_kind, validate_media_description, JobFailure, UploadKind,
};
use eunha::models::Timestamp;
use eunha::notifications::{
    apply_policy_update, exclude_filtered, expand_accounts, notification_page,
    notification_report_id, parse_notif_filters, policy_update, policy_update_v1, policy_view,
    unread_limit, PolicyUpdate, StoredPolicy, UnreadCountParams, UpdateNotificationPolicyForm,
    UpdateNotificationPolicyV1Form,
};
use eunha::pagination::PaginationParams;
use eunha::search::{account_tsquery, keep_exact, merge_results, ranked_limit, search_plan, AccountSearchQuery};

fn obj(entries: Vec<(&str, JsonValue)>) -> JsonValue {
    JsonValue::Object(entries.into_iter().map(|(k, v)| (k.to_string(), v)).collect())
}

fn form_of(parts: &[(&str, &str)]) -> CredentialsForm {
    let mut f = CredentialsForm::new();
    for (name, text) in parts {
        f.accept_part(name, text.to_string());
    }
    f
}

#[test]
fn credential_parts() {
    let f = form_of(&[
        ("display_name", "  Alice  "),
        ("locked", "1"),
        ("bot", "false"),
        ("source[privacy]", "secret"),
        ("source[privacy]", "unlisted"),
        ("source[language]", ""),
        ("attribution_domains[]", "a.example"),
        ("attribution_domains[]", "b.example"),
        ("unknown", "x"),
    ]);
    assert_eq!(f.display_name.as_deref(), Some("  Alice  "));
    assert_eq!(f.locked, Some(true));
    assert_eq!(f.bot, Some(false));
    assert_eq!(f.source_privacy.as_deref(), Some("unlisted"));
    assert_eq!(f.source_language, Some(None));
    assert_eq!(f.attribution_domains, Some(vec!["a.example".to_string(), "b.example".to_string()]));
    assert!(!f.fields_submitted);
    let (name, note) = validate_profile_text(&f).unwrap();
    assert_eq!(name.as_deref(), Some("Alice"));
    assert_eq!(note, None);
    assert_eq!(actor_type(true), "Service");
    assert_eq!(actor_type(false), "Person");
}

#[test]
fn credential_fields() {
    let f = form_of(&[
        ("fields_attributes[1][name]", "Site"),
        ("fields_attributes[0][name]", "Pronouns"),
        ("fields_attributes[0][value]", "she/her"),
        ("fields_attributes[1][value]", "https://alice.example"),
        ("fields_attributes[2][name]", ""),
        ("fields_attributes[x][name]", "ignored"),
    ]);
    assert!(f.fields_submitted);
    let fields = validate_fields(&f).unwrap().unwrap();
    assert_eq!(
        fields,
        vec![
            ("Pronouns".to_string(), "she/her".to_string()),
            ("Site".to_string(), "https://alice.example".to_string()),
        ]
    );
    let old = JsonValue::Array(vec![obj(vec![
        ("name", JsonValue::Str("Web".into())),
        ("value", JsonValue::Str("https://alice.example".into())),
        ("verified_at", JsonValue::Str("2024-01-01T00:00:00.000Z".into())),
    ])]);
    match merge_fields(&fields, &old) {
        JsonValue::Array(items) => {
            assert_eq!(items.len(), 2);
            match &items[1] {
                JsonValue::Object(es) => {
                    assert!(es.iter().any(|(k, v)| k == "verified_at"
                        && matches!(v, JsonValue::Str(s) if s == "2024-01-01T00:00:00.000Z")));
                }
                _ => panic!(),
            }
            match &items[0] {
                JsonValue::Object(es) => {
                    assert!(es.iter().any(|(k, v)| k == "verified_at" && matches!(v, JsonValue::Null)));
                }
                _ => panic!(),
            }
        }
        _ => panic!(),
    }
    let five: Vec<(String, String)> = (0..5).map(|i| (format!("fields_attributes[{}][name]", i), "n".to_string())).collect();
    let parts: Vec<(&str, &str)> = five.iter().map(|(a, b)| (a.as_str(), b.as_str())).collect();
    match validate_fields(&form_of(&parts)) {
        Err(ApiError::Unprocessable(m)) => assert_eq!(m, "Validation failed: Fields can't have more than 4 entries"),
        _ => panic!(),
    }
    assert!(matches!(validate_fields(&CredentialsForm::new()), Ok(None)));
}

#[test]
fn note_length_counts_links_as_23() {
    let link = format!("https://example.com/{}", "a".repeat(200));
    let note = format!("{}{}", "x".repeat(470), link);
    assert!(!note_too_long(&note));
    assert!(note_too_long(&"y".repeat(501)));
    assert!(!note_too_long(&"y".repeat(500)));
    let f = form_of(&[("note", &"z".repeat(501))]);
    match validate_profile_text(&f) {
        Err(ApiError::Unprocessable(m)) => {
            assert_eq!(m, "Validation failed: Note is too long (maximum is 500 characters)")
        }
        _ => panic!(),
    }
    let f = form_of(&[("display_name", &"n".repeat(41))]);
    assert!(validate_profile_text(&f).is_err());
}

#[test]
fn notification_filters_from_the_query() {
    let f = parse_notif_filters(Some("types[]=mention&types%5B%5D=follow&exclude_types=poll&account_id=12&include_filtered=1"));
    assert_eq!(f.types, Some(vec!["mention".to_string(), "follow".to_string()]));
    assert_eq!(f.exclude_types, Some(vec!["poll".to_string()]));
    assert_eq!(f.account_id, Some(12));
    assert!(f.include_filtered);
    assert!(!exclude_filtered(&f));
    let f = parse_notif_filters(None);
    assert!(f.types.is_none() && f.exclude_types.is_none() && f.account_id.is_none() && !f.include_filtered);
    assert!(exclude_filtered(&f));
    assert_eq!(expand_accounts(Some("a=1&expand_accounts=partial_avatars")), "partial_avatars");
    assert_eq!(expand_accounts(Some("expand_accounts")), "");
    assert_eq!(notification_report_id(&Some("Report".into()), Some(4)), Some(4));
    assert_eq!(notification_report_id(&Some("Status".into()), Some(4)), None);
    let page = notification_page(&PaginationParams { max_id: Some("10".into()), since_id: None, min_id: None, limit: None });
    assert_eq!((page.limit, page.max_id, page.reads_forward), (40, Some(10), false));
    assert_eq!(unread_limit(&UnreadCountParams { limit: None }), 100);
    assert_eq!(unread_limit(&UnreadCountParams { limit: Some(5000) }), 1000);
}

#[test]
fn notification_policy() {
    let u = policy_update(&UpdateNotificationPolicyForm {
        for_not_following: Some("filter".into()),
        for_not_followers: Some("accept".into()),
        for_new_accounts: Some("drop".into()),
        for_private_mentions: None,
        for_limited_accounts: None,
    });
    assert_eq!(
        (u.for_not_following, u.for_not_followers, u.for_new_accounts, u.for_private_mentions),
        (Some(1), Some(0), Some(1), None)
    );
    let stored = apply_policy_update(None, &u);
    assert_eq!(
        (stored.for_not_following, stored.for_not_followers, stored.for_new_accounts, stored.for_private_mentions, stored.for_limited_accounts),
        (1, 0, 1, 1, 1)
    );
    let v = policy_view(Some(&stored));
    assert_eq!(v.for_not_following, "filter");
    assert_eq!(v.for_not_followers, "accept");
    assert!(v.any_filter);
    let none = policy_view(None);
    assert_eq!(none.for_private_mentions, "accept");
    assert!(!none.any_filter);
    let u1 = policy_update_v1(&UpdateNotificationPolicyV1Form {
        filter_not_following: Some(false),
        filter_not_followers: None,
        filter_new_accounts: Some(true),
        filter_private_mentions: None,
    });
    assert_eq!(u1.for_limited_accounts, None);
    let kept = StoredPolicy { for_not_following: 1, for_not_followers: 1, for_new_accounts: 0, for_private_mentions: 0, for_limited_accounts: 0 };
    let after = apply_policy_update(Some(&kept), &u1);
    assert_eq!(
        (after.for_not_following, after.for_not_followers, after.for_new_accounts),
        (0, 1, 1)
    );
    let _unused = PolicyUpdate { for_not_following: None, for_not_followers: None, for_new_accounts: None, for_private_mentions: None, for_limited_accounts: None };
}

#[test]
fn markers() {
    assert_eq!(
        marker_timelines("timeline[]=home&timeline%5B%5D=notifications&other=1"),
        vec!["home".to_string(), "notifications".to_string()]
    );
    assert_eq!(
        form_marker_ids("home%5Blast_read_id%5D=10&notifications[last_read_id]=20&home[last_read_id]=11"),
        (Some("11".to_string()), Some("20".to_string()))
    );
    let body = obj(vec![("home", obj(vec![("last_read_id", JsonValue::Int(5))]))]);
    assert_eq!(json_marker_ids(&body), (Some("5".to_string()), None));
    assert_eq!(json_marker_ids(&JsonValue::Array(vec![])), (None, None));
    assert_eq!(json_marker_ids(&obj(vec![("home", JsonValue::Int(1))])), (None, None));
    assert_eq!(stored_position("123"), 123);
    assert_eq!(stored_position("abc"), 0);
}

#[test]
fn account_search_plans() {
    let q = |text: &str| AccountSearchQuery { q: text.to_string(), limit: None, offset: None, resolve: Some(true), following: None };
    assert!(search_plan(&q("  @ "), "example.social", true).is_none());
    let p = search_plan(&q(" @@alice@Example.Social "), "example.social", false).unwrap();
    assert_eq!(p.query, "alice@Example.Social");
    assert_eq!(p.username, "alice");
    assert_eq!(p.domain.as_deref(), Some("Example.Social"));
    assert!(p.domain_is_local && p.exact_lookup && p.resolve && !p.following && p.ranked);
    assert_eq!(p.tsquery, "' alice ':*");
    let p = search_plan(&q("bo"), "example.social", false).unwrap();
    assert!(!p.ranked && !p.exact_lookup);
    let p = search_plan(&q("bob@remote.example"), "example.social", true).unwrap();
    assert!(!p.domain_is_local);
    assert_eq!(p.tsquery, "' bob@remote.example ':*");
    assert_eq!(account_tsquery("o'neil?"), "' o neil  ':*");
    assert!(keep_exact(false, None));
    assert!(keep_exact(true, Some(true)));
    assert!(!keep_exact(true, Some(false)));
    assert_eq!(ranked_limit(40, 1), 39);
    let mut found = vec![3, 1];
    merge_results(&mut found, &vec![1, 5, 3, 7]);
    assert_eq!(found, vec![3, 1, 5, 7]);
}

#[test]
fn instance_domain_blocks_and_terms() {
    assert_eq!(obfuscate_domain("example.com"), "ex*****.com");
    assert_eq!(obfuscate_domain("ab.org"), "*.org");
    assert_eq!(obfuscate_domain("localhost"), "localhost");
    let b = public_domain_block("spam.example", "suspend", &None, true);
    assert_eq!(b.domain, "s***.example");
    assert_eq!(b.severity, "suspend");
    assert_eq!(b.comment, "");
    assert_eq!(b.digest.len(), 64);
    let shown = public_domain_block("spam.example", "silence", &Some("ads".into()), false);
    assert_eq!(shown.domain, "spam.example");
    assert_eq!(shown.digest, b.digest);
    assert_eq!(shown.comment, "ads");
    assert_eq!(peers_pattern(&PeersSearchParams { q: Some("  mast ".into()) }), "%mast%");
    let t = Timestamp { year: 2025, month: 6, day: 1, hour: 0, minute: 0, second: 0, millis: 0 };
    assert!(terms_of_service("", &t).is_empty());
    let terms = terms_of_service("Be kind.", &t);
    assert_eq!(terms.len(), 1);
    assert_eq!(terms[0].effective_date, "2025-06-01");
    assert!(terms[0].effective);
    assert!(terms_of_service_by_date("Be kind.", &t, "2025-06-01").is_ok());
    assert!(matches!(terms_of_service_by_date("Be kind.", &t, "2025-06-02"), Err(ApiError::NotFound)));
    assert!(matches!(terms_of_service_by_date("", &t, "2025-06-01"), Err(ApiError::NotFound)));
}

#[test]
fn media_rules() {
    assert_eq!(media_type_str(Some(2)), "video");
    assert_eq!(media_type_str(None), "unknown");
    assert_eq!(media_type_int("gifv"), 1);
    assert_eq!(classify_media_type("image/gif"), "gifv");
    assert_eq!(classify_media_type("image/png"), "image");
    assert_eq!(classify_media_type("text/plain"), "unknown");
    assert!(validate_media_description(Some(&"d".repeat(10_000))).is_ok());
    assert!(validate_media_description(Some(&"d".repeat(10_001))).is_err());
    match media_job_failure(0, 5) {
        JobFailure::Retry { attempts, backoff_secs } => assert_eq!((attempts, backoff_secs), (1, 30)),
        JobFailure::GiveUp => panic!(),
    }
    match media_job_failure(3, 10) {
        JobFailure::Retry { attempts, backoff_secs } => assert_eq!((attempts, backoff_secs), (4, 240)),
        JobFailure::GiveUp => panic!(),
    }
    match media_job_failure(8, 20) {
        JobFailure::Retry { backoff_secs, .. } => assert_eq!(backoff_secs, 960),
        JobFailure::GiveUp => panic!(),
    }
    assert!(matches!(media_job_failure(4, 5), JobFailure::GiveUp));
    assert!(matches!(upload_kind(true, None, "video/mp4"), Ok(UploadKind::Deferred)));
    assert!(matches!(upload_kind(true, None, "image/jpeg"), Ok(UploadKind::Immediate)));
    match upload_kind(false, None, "image/jpeg") {
        Err(ApiError::Unprocessable(m)) => assert_eq!(m, "missing file field"),
        _ => panic!(),
    }
    assert_eq!(media_file_key(1234567, "original", "a.png"), "media_attachments/files/001/234/567/original/a.png");
    assert_eq!(
        media_deletion(5, None, &Some("b.jpg".into())).unwrap(),
        Some("media_attachments/files/000/000/005/original/b.jpg".to_string())
    );
    assert_eq!(media_deletion(5, None, &Some("".into())).unwrap(), None);
    match media_deletion(5, Some(9), &None) {
        Err(ApiError::Unprocessable(m)) => assert_eq!(m, "Media attachment is currently used by a status"),
        _ => panic!(),
    }
}

fn keyword(id: Option<i64>, word: Option<&str>, whole: Option<bool>, destroy: Option<bool>) -> KeywordAttr {
    KeywordAttr { id, keyword: word.map(|s| s.to_string()), whole_word: whole, destroy }
}

#[test]
fn filter_forms() {
    let form = CreateFilterForm {
        title: "Spoilers".into(),
        context: vec!["home".into()],
        expires_in: None,
        filter_action: None,
        keywords_attributes: Some(vec![
            keyword(None, Some("finale"), Some(true), None),
            keyword(Some(3), Some("ending"), None, None),
            keyword(Some(4), None, None, Some(true)),
            keyword(None, Some("gone"), None, Some(true)),
        ]),
    };
    assert_eq!(filter_action(&form), "warn");
    assert_eq!(
        keywords_to_create(&form),
        vec![("finale".to_string(), true), ("ending".to_string(), false)]
    );
    let ops: Vec<String> = keyword_updates(&form)
        .into_iter()
        .map(|op| match op {
            KeywordOp::Delete(id) => format!("delete {}", id),
            KeywordOp::Update(id, w, b) => format!("update {} {} {}", id, w, b),
            KeywordOp::Insert(w, b) => format!("insert {} {}", w, b),
        })
        .collect();
    assert_eq!(ops, vec!["insert finale true", "update 3 ending false", "delete 4"]);
    let v1 = CreateFilterV1Form { phrase: "x".into(), context: vec![], irreversible: Some(true), whole_word: None, expires_in: None };
    assert_eq!(filter_action_v1(&v1), "hide");
    assert!(!whole_word_v1(&v1));
    assert!(irreversible("hide"));
    assert!(!irreversible("warn"));
    let mut outbox = vec![];
    publish_filters_changed(&mut outbox, 12);
    assert_eq!(outbox.len(), 1);
    assert!(matches!(outbox[0], StreamEvent::FiltersChanged { for_account_id: 12 }));
}

#[test]
fn status_text_rendering() {
    let map = mention_map_from_api(&[StatusMention {
        id: "2".into(),
        username: "Bob".into(),
        url: "https://r.example/@bob".into(),
        acct: "bob@r.example".into(),
    }]);
    assert_eq!(render_content("", "d.example", &map), "");
    assert_eq!(render_content("a b", "d.example", &map), "<p>a&#32;b</p>");
    assert_eq!(render_content("a\nb", "ex.com", &map), "<p>a<br />b</p>");
    assert_eq!(render_content("x\n#y\n\nz", "ex.com", &map).matches("<br />").count(), 1);
    assert_eq!(
        render_content("Hi #Rust", "d.example", &map),
        "<p>Hi&#32;<a href=\"https:&#47;&#47;d.example&#47;tags&#47;rust\" class=\"mention hashtag\" rel=\"tag\">#<span>Rust</span></a></p>"
    );
    assert_eq!(
        render_content("@bob@r.example hey\n\nx", "d.example", &map),
        "<p><span class=\"h-card\" translate=\"no\"><a href=\"https:&#47;&#47;r.example&#47;@bob\" class=\"u-url mention\">@<span>bob@r.example</span></a></span>&#32;hey</p><p>x</p>"
    );
    assert_eq!(
        render_content("see https://x.org/a", "d.example", &map),
        "<p>see&#32;<a href=\"https:&#47;&#47;x.org&#47;a\" target=\"_blank\" rel=\"nofollow noopener noreferrer\">https:&#47;&#47;x.org&#47;a</a></p>"
    );
}

#[test]
fn first_mention_under_a_handle_wins() {
    let mention = |url: &str| StatusMention {
        id: "1".into(),
        username: "Bob".into(),
        url: url.to_string(),
        acct: "bob".into(),
    };
    let map = mention_map_from_api(&[mention("https://one.example/@bob"), mention("https://two.example/@bob")]);
    let html = render_content("@bob", "d.example", &map);
    assert!(html.contains("one.example"));
    assert!(!html.contains("two.example"));
}
