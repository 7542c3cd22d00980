use eunha::accounts::{
    directory_plan, extract_account_shortcodes, is_profile_listed, lookup_handle, note_action,
    pinned_visible, profile_access, profile_statuses_plan, shortcodes, user_defaults_from,
    webfinger_actor, webfinger_url, DirectoryQuery, LookupQuery, NoteForm, ProfileStatusFacts,
    StatusesQuery,
};
use eunha::error::ApiError;
use eunha::json::JsonValue;
use eunha::models::{Account, Timestamp};
use eunha::pagination::PaginationParams;

fn s(v: &str) -> JsonValue {
    JsonValue::Str(v.to_string())
}

fn obj(entries: Vec<(&str, JsonValue)>) -> JsonValue {
    JsonValue::Object(entries.into_iter().map(|(k, v)| (k.to_string(), v)).collect())
}

fn ts() -> Timestamp {
    Timestamp { year: 2024, month: 5, day: 17, hour: 8, minute: 3, second: 9, millis: 42 }
}

fn account(display_name: &str, note: &str, fields: Option<JsonValue>) -> Account {
    Account {
        id: 7,
        username: "alice".to_string(),
        domain: None,
        display_name: display_name.to_string(),
        note: note.to_string(),
        locked: false,
        discoverable: Some(true),
        indexable: true,
        hide_collections: None,
        actor_type: None,
        created_at: ts(),
        url: None,
        uri: None,
        avatar_file_name: None,
        avatar_remote_url: None,
        header_file_name: None,
        header_remote_url: String::new(),
        avatar_description: String::new(),
        header_description: String::new(),
        show_media: true,
        show_media_replies: true,
        show_featured: true,
        feature_approval_policy: 0,
        fields,
        suspended: false,
        deletion_requested: false,
        silenced: false,
        sensitized: false,
        memorial: false,
        invalid_handle: false,
        id_scheme: 0,
    }
}

fn no_paging() -> PaginationParams {
    PaginationParams { max_id: None, since_id: None, min_id: None, limit: None }
}

fn facts(visibility: i32) -> ProfileStatusFacts {
    ProfileStatusFacts {
        id: 100,
        deleted: false,
        is_reblog: false,
        in_reply_to_id: None,
        in_reply_to_account_id: None,
        visibility,
        mentions_viewer: false,
        has_text: true,
        has_poll: false,
        has_media: false,
        tag_names: vec![],
        reblogs_blocked_account: false,
        reblogs_blocked_domain: false,
    }
}

#[test]
fn lookup_lowercases_both_parts() {
    let (u, d) = lookup_handle(&LookupQuery { acct: "Alice@Example.COM".to_string(), resolve: None });
    assert_eq!(u, "alice");
    assert_eq!(d, Some("example.com".to_string()));
    let (u, d) = lookup_handle(&LookupQuery { acct: "Bob".to_string(), resolve: Some(true) });
    assert_eq!(u, "bob");
    assert_eq!(d, None);
    assert_eq!(
        webfinger_url("bob", "x.org"),
        "https://x.org/.well-known/webfinger?resource=acct:bob@x.org"
    );
}

#[test]
fn webfinger_picks_the_activitypub_self_link() {
    let jrd = obj(vec![(
        "links",
        JsonValue::Array(vec![
            obj(vec![("rel", s("http://webfinger.net/rel/profile-page")), ("href", s("https://x/@a"))]),
            obj(vec![("rel", s("self")), ("type", s("text/html")), ("href", s("https://x/html"))]),
            obj(vec![
                ("rel", s("self")),
                ("type", s("application/activity+json")),
                ("href", s("https://x/users/a")),
            ]),
        ]),
    )]);
    assert_eq!(webfinger_actor(&jrd), Some("https://x/users/a".to_string()));
    assert_eq!(webfinger_actor(&obj(vec![])), None);
}

#[test]
fn profile_plan_reads_the_query() {
    let q = StatusesQuery {
        pagination: PaginationParams { max_id: Some("90".into()), since_id: None, min_id: None, limit: Some("100".into()) },
        only_media: Some(true),
        exclude_replies: None,
        exclude_reblogs: Some(false),
        exclude_direct: None,
        pinned: None,
        tagged: Some("Rust".to_string()),
    };
    let p = profile_statuses_plan(&q);
    assert_eq!(p.limit, 40);
    assert_eq!(p.max_id, Some(90));
    assert!(!p.reads_forward);
    assert!(p.only_media);
    assert!(!p.exclude_reblogs);
    assert_eq!(p.tagged, Some("rust".to_string()));
}

#[test]
fn profile_visibility_rules() {
    let q = StatusesQuery {
        pagination: no_paging(),
        only_media: None,
        exclude_replies: None,
        exclude_reblogs: None,
        exclude_direct: None,
        pinned: None,
        tagged: None,
    };
    let p = profile_statuses_plan(&q);
    assert_eq!(p.limit, 20);
    // A private status: its author and followers see it, others do not.
    assert!(is_profile_listed(&facts(2), &p, 7, Some(7), true, false));
    assert!(is_profile_listed(&facts(2), &p, 7, Some(8), false, true));
    assert!(!is_profile_listed(&facts(2), &p, 7, Some(8), false, false));
    assert!(!is_profile_listed(&facts(2), &p, 7, None, false, false));
    // A direct one: only a mentioned viewer.
    let mut d = facts(3);
    assert!(!is_profile_listed(&d, &p, 7, Some(8), false, true));
    d.mentions_viewer = true;
    assert!(is_profile_listed(&d, &p, 7, Some(8), false, false));
    // An empty status is never listed.
    let mut e = facts(0);
    e.has_text = false;
    assert!(!is_profile_listed(&e, &p, 7, None, false, false));
    assert!(pinned_visible(1, false, false));
    assert!(!pinned_visible(3, false, true));
}

#[test]
fn profile_access_errors() {
    assert!(matches!(profile_access(true, 7, Some(8), true), Ok(false)));
    assert!(matches!(profile_access(false, 7, Some(8), true), Err(ApiError::Forbidden)));
    assert!(matches!(profile_access(false, 7, Some(7), true), Ok(true)));
    assert!(matches!(profile_access(false, 7, None, true), Ok(true)));
}

#[test]
fn note_rules() {
    let long = "x".repeat(2001);
    match note_action(&NoteForm { comment: Some(long) }) {
        Err(ApiError::Unprocessable(m)) => {
            assert_eq!(m, "Validation failed: Comment is too long (maximum is 2000 characters)")
        }
        other => panic!("unexpected {:?}", other),
    }
    assert!(matches!(note_action(&NoteForm { comment: Some("  ".into()) }), Ok(None)));
    assert!(matches!(note_action(&NoteForm { comment: None }), Ok(None)));
    match note_action(&NoteForm { comment: Some(" kind ".into()) }) {
        Ok(Some(c)) => assert_eq!(c, " kind "),
        other => panic!("unexpected {:?}", other),
    }
}

#[test]
fn directory_defaults() {
    let p = directory_plan(&DirectoryQuery { offset: None, limit: None, order: None, local: None });
    assert_eq!((p.limit, p.offset, p.local_only, p.newest_first), (40, 0, true, false));
    let p = directory_plan(&DirectoryQuery {
        offset: Some(-3),
        limit: Some(500),
        order: Some("new".into()),
        local: Some(false),
    });
    assert_eq!((p.limit, p.offset, p.local_only, p.newest_first), (80, 0, false, true));
}

#[test]
fn posting_defaults_from_settings() {
    let d = user_defaults_from(&obj(vec![]), true);
    assert_eq!(d.privacy, "private");
    assert!(!d.sensitive);
    assert_eq!(d.language, None);
    assert_eq!(d.quote_policy, "public");
    let d = user_defaults_from(
        &obj(vec![
            ("privacy", s("unlisted")),
            ("web.default_sensitive", JsonValue::Bool(true)),
            ("default_language", s("ko")),
            ("quote_policy", s("nobody")),
        ]),
        false,
    );
    assert_eq!(d.privacy, "unlisted");
    assert!(d.sensitive);
    assert_eq!(d.language, Some("ko".to_string()));
    assert_eq!(d.quote_policy, "nobody");
}

#[test]
fn shortcodes_in_profile_text() {
    assert_eq!(shortcodes("hi :blob_cat: and :not valid: :x:"), vec!["blob_cat".to_string(), "x".to_string()]);
    assert_eq!(shortcodes("::"), Vec::<String>::new());
    let fields = JsonValue::Array(vec![
        obj(vec![("name", s(":flag:")), ("value", s("see :star:"))]),
        obj(vec![("name", JsonValue::Int(1)), ("value", s(":skipped:"))]),
    ]);
    let a = account(":wave: Alice", "likes :tea:", Some(fields));
    assert_eq!(
        extract_account_shortcodes(&a),
        vec!["wave".to_string(), "tea".to_string(), "flag".to_string(), "star".to_string()]
    );
}
