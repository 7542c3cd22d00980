use eunha::blocks::{
    blocked_domain, body_kind, check_featured_count, featured_tag_name, preview_domain, BodyKind,
    DomainBlockForm, DomainPreviewQuery, FeaturedTagForm,
};
use eunha::collections::{
    admit_item, check_collection_count, collection_value, delivery_inbox, feature_request_uri,
    item_account_id, normalize_tag_name, require_owner, state_str, tag_change, validate_create_form,
    validate_update_form, AddItemForm, CollectionRow, CreateCollectionForm, ItemRow, TagChange,
    UpdateCollectionForm,
};
use eunha::error::ApiError;
use eunha::invites::{code_from_draws, generate_code, validate_invite, CreateInviteRequest};
use eunha::json::JsonValue;
use eunha::lists::{
    check_list_count, form_exclusive, form_replies_policy, list_from_db, may_add_member, member_ids,
    validate_list_form, ListAccountsForm, ListForm,
};
use eunha::models::{List, Timestamp};

fn unprocessable(r: Result<(), ApiError>) -> String {
    match r {
        Err(ApiError::Unprocessable(m)) => m,
        other => panic!("expected a validation failure, got {:?}", other),
    }
}

fn json_text(v: &JsonValue) -> String {
    match v {
        JsonValue::Null => "null".to_string(),
        JsonValue::Bool(b) => b.to_string(),
        JsonValue::Int(i) => i.to_string(),
        JsonValue::Number(n) => n.clone(),
        JsonValue::Ratio(a, b) => format!("{}/{}", a, b),
        JsonValue::Str(s) => format!("{:?}", s),
        JsonValue::Array(xs) => {
            format!("[{}]", xs.iter().map(json_text).collect::<Vec<_>>().join(","))
        }
        JsonValue::Object(es) => format!(
            "{{{}}}",
            es.iter()
                .map(|(k, v)| format!("{:?}:{}", k, json_text(v)))
                .collect::<Vec<_>>()
                .join(",")
        ),
    }
}

fn list_form(title: &str, policy: Option<&str>) -> ListForm {
    ListForm { title: title.to_string(), replies_policy: policy.map(|s| s.to_string()), exclusive: None }
}

#[test]
fn list_titles_and_policies() {
    assert!(validate_list_form(&list_form("Friends", None)).is_ok());
    assert!(validate_list_form(&list_form("Friends", Some("followed"))).is_ok());
    assert_eq!(unprocessable(validate_list_form(&list_form("   ", None))), "Title can't be blank");
    assert_eq!(
        unprocessable(validate_list_form(&list_form(&"a".repeat(257), None))),
        "Title is too long (maximum is 256 characters)"
    );
    assert!(validate_list_form(&list_form(&"가".repeat(256), None)).is_ok());
    assert_eq!(
        unprocessable(validate_list_form(&list_form("Friends", Some("everyone")))),
        "Replies policy is not included in the list: everyone"
    );
    assert_eq!(form_replies_policy(&list_form("x", None)), form_replies_policy(&list_form("x", Some("list"))));
    assert!(!form_exclusive(&list_form("x", None)));
    let mut f = list_form("x", None);
    f.exclusive = Some(true);
    assert!(form_exclusive(&f));
}

#[test]
fn list_caps_and_members() {
    assert!(check_list_count(49).is_ok());
    assert_eq!(
        unprocessable(check_list_count(50)),
        "Validation failed: You have reached the maximum number of lists"
    );
    let form = ListAccountsForm { account_ids: vec!["12".into(), "x".into(), "-3".into(), "".into()] };
    assert_eq!(member_ids(&form), vec![12, -3]);
    assert!(may_add_member(1, 1, false).is_ok());
    assert!(may_add_member(1, 2, true).is_ok());
    assert_eq!(unprocessable(may_add_member(1, 2, false)), "Account must be followed before adding to a list");
    let l = list_from_db(&List { id: 7, title: "Close".into(), replies_policy: 0, exclusive: true });
    assert_eq!(l.id, "7");
    assert_eq!(l.title, "Close");
    assert!(l.exclusive);
}

fn create_form(name: Option<&str>, description: Option<&str>) -> CreateCollectionForm {
    CreateCollectionForm {
        name: name.map(|s| s.to_string()),
        description: description.map(|s| s.to_string()),
        language: None,
        sensitive: None,
        discoverable: None,
        tag_name: None,
        account_ids: vec![],
    }
}

#[test]
fn collection_forms() {
    assert_eq!(validate_create_form(&create_form(Some("  Cats  "), None)).unwrap(), "Cats");
    match validate_create_form(&create_form(None, None)) {
        Err(ApiError::Unprocessable(m)) => assert_eq!(m, "name can't be blank"),
        _ => panic!(),
    }
    match validate_create_form(&create_form(Some(&"n".repeat(41)), None)) {
        Err(ApiError::Unprocessable(m)) => assert_eq!(m, "name is too long (maximum is 40 characters)"),
        _ => panic!(),
    }
    match validate_create_form(&create_form(Some("ok"), Some(&"d".repeat(101)))) {
        Err(ApiError::Unprocessable(m)) => {
            assert_eq!(m, "description is too long (maximum is 100 characters)")
        }
        _ => panic!(),
    }
    let upd = UpdateCollectionForm {
        name: None,
        description: Some("short".into()),
        language: None,
        sensitive: None,
        discoverable: None,
        tag_name: None,
    };
    assert!(matches!(validate_update_form(&upd), Ok(None)));
    assert!(check_collection_count(9).is_ok());
    assert_eq!(unprocessable(check_collection_count(10)), "You cannot create more than 10 collections");
}

#[test]
fn collection_tags_items_and_owners() {
    assert_eq!(normalize_tag_name("  #Rust ").unwrap(), "rust");
    assert!(matches!(normalize_tag_name(" ## "), Err(ApiError::Unprocessable(_))));
    assert!(matches!(tag_change(&None), TagChange::Keep));
    assert!(matches!(tag_change(&Some("  ".into())), TagChange::Clear));
    match tag_change(&Some("Art".into())) {
        TagChange::Rename(s) => assert_eq!(s, "Art"),
        _ => panic!(),
    }
    assert!(matches!(admit_item(false, 3, true), Ok(0)));
    assert!(matches!(admit_item(false, 3, false), Ok(1)));
    match admit_item(false, 25, false) {
        Err(ApiError::Unprocessable(m)) => assert_eq!(m, "Collections cannot have more than 25 items"),
        _ => panic!(),
    }
    match admit_item(true, 0, false) {
        Err(ApiError::Unprocessable(m)) => assert_eq!(m, "This account cannot be added to collections"),
        _ => panic!(),
    }
    assert!(matches!(item_account_id(&AddItemForm { account_id: Some("44".into()) }), Ok(44)));
    assert!(matches!(item_account_id(&AddItemForm { account_id: None }), Err(ApiError::Unprocessable(_))));
    assert!(require_owner(3, 3).is_ok());
    assert!(matches!(require_owner(3, 4), Err(ApiError::Forbidden)));
    assert_eq!(state_str(1), "accepted");
    assert_eq!(state_str(9), "pending");
    assert_eq!(
        feature_request_uri("example.social", "alice", 5),
        "https://example.social/users/alice/feature_requests/5"
    );
    assert_eq!(delivery_inbox("", "https://r.example/inbox"), "https://r.example/inbox");
    assert_eq!(delivery_inbox("https://r.example/shared", "https://r.example/inbox"), "https://r.example/shared");
}

fn ts(day: u32) -> Timestamp {
    Timestamp { year: 2025, month: 3, day, hour: 4, minute: 5, second: 6, millis: 7 }
}

#[test]
fn collection_entity_json() {
    let c = CollectionRow {
        id: 9,
        account_id: 2,
        name: "Birds".into(),
        description: Some("plain".into()),
        description_html: Some("<p>html</p>".into()),
        language: None,
        sensitive: false,
        discoverable: true,
        local: true,
        uri: None,
        url: None,
        tag_name: Some("birds".into()),
        created_at: ts(1),
        updated_at: ts(2),
    };
    let items = vec![
        ItemRow { id: 1, state: 1, created_at: ts(3), account_id: Some(11) },
        ItemRow { id: 2, state: 3, created_at: ts(4), account_id: Some(12) },
    ];
    let v = collection_value("example.social", &c, &items);
    assert_eq!(
        json_text(&v),
        "{\"id\":\"9\",\"uri\":\"https://example.social/collections/9\",\"name\":\"Birds\",\"description\":\"plain\",\"language\":null,\"account_id\":\"2\",\"local\":true,\"sensitive\":false,\"discoverable\":true,\"url\":\"https://example.social/collections/9\",\"item_count\":2,\"created_at\":\"2025-03-01T04:05:06.007Z\",\"updated_at\":\"2025-03-02T04:05:06.007Z\",\"tag\":{\"name\":\"birds\",\"url\":\"https://example.social/tags/birds\"},\"items\":[{\"id\":\"1\",\"state\":\"accepted\",\"created_at\":\"2025-03-03T04:05:06.007Z\",\"account_id\":\"11\"},{\"id\":\"2\",\"state\":\"revoked\",\"created_at\":\"2025-03-04T04:05:06.007Z\"}]}"
    );
    let remote = CollectionRow { local: false, uri: Some("https://r.example/c/1".into()), tag_name: None, ..c };
    let v = collection_value("example.social", &remote, &vec![]);
    let t = json_text(&v);
    assert!(t.contains("\"description\":\"<p>html</p>\""));
    assert!(t.contains("\"url\":\"https://r.example/c/1\""));
    assert!(t.contains("\"tag\":null"));
}

#[test]
fn domain_blocks_and_featured_tags() {
    assert_eq!(blocked_domain(&DomainBlockForm { domain: "Spam.Example".into() }), "spam.example");
    assert_eq!(preview_domain(&DomainPreviewQuery { domain: None }), "");
    assert_eq!(featured_tag_name(&FeaturedTagForm { name: "#Rust_Lang".into() }).unwrap(), "rust_lang");
    match featured_tag_name(&FeaturedTagForm { name: "#".into() }) {
        Err(ApiError::Unprocessable(m)) => assert_eq!(m, "Validation failed: Name can't be blank"),
        _ => panic!(),
    }
    match featured_tag_name(&FeaturedTagForm { name: "two words".into() }) {
        Err(ApiError::Unprocessable(m)) => assert_eq!(m, "Validation failed: Name is not a valid hashtag"),
        _ => panic!(),
    }
    assert!(check_featured_count(true, 10).is_ok());
    assert!(check_featured_count(false, 9).is_ok());
    assert!(check_featured_count(false, 10).is_err());
    assert!(matches!(body_kind("application/json; charset=utf-8"), BodyKind::Json));
    assert!(matches!(body_kind("multipart/form-data; boundary=x"), BodyKind::Multipart));
    assert!(matches!(body_kind("application/x-www-form-urlencoded"), BodyKind::UrlEncoded));
}

#[test]
fn invites() {
    let req = |c: Option<&str>| CreateInviteRequest {
        max_uses: None,
        expires_in: None,
        autofollow: false,
        comment: c.map(|s| s.to_string()),
    };
    assert!(matches!(validate_invite(&req(None)), Ok(None)));
    assert!(matches!(validate_invite(&req(Some(""))), Ok(None)));
    assert_eq!(validate_invite(&req(Some("hi"))).unwrap(), Some("hi".to_string()));
    match validate_invite(&req(Some(&"c".repeat(421)))) {
        Err(ApiError::Unprocessable(m)) => {
            assert_eq!(m, "Validation failed: Comment is too long (maximum is 420 characters)")
        }
        _ => panic!(),
    }
    let code = generate_code();
    assert_eq!(code.chars().count(), 8);
    assert!(code.chars().all(|c| "abcdefghijkmnopqrstuvwxyzABCDEFGHJKLMNPQRSTUVWXYZ23456789".contains(c)));
}

#[test]
fn invite_codes_spell_their_draws() {
    assert_eq!(code_from_draws(&vec![0, 1, 2, 3, 4, 5, 6, 7]), "abcdefgh");
    assert_eq!(code_from_draws(&vec![56, 25, 11, 24, 48, 49, 8, 9]), "9AmzZ2ij");
}
