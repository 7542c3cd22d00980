use eunha::approval::StatusViewerContext;
use eunha::convert::status_from_db;
use eunha::formatting::StatusMention;
use eunha::models::{Account, MediaAttachment, Status, Timestamp};
use eunha::urls::InstanceUrls;

fn ts() -> Timestamp {
    Timestamp { year: 2024, month: 7, day: 8, hour: 9, minute: 10, second: 11, millis: 12 }
}

fn urls() -> InstanceUrls {
    InstanceUrls::new(
        "example.social".into(),
        "https://media.example/accounts/avatars/original/missing.png".into(),
        "https://media.example/headers/original/missing.png".into(),
    )
}

fn account(id: i64, username: &str, domain: Option<&str>) -> Account {
    Account {
        id,
        username: username.to_string(),
        domain: domain.map(|d| d.to_string()),
        display_name: username.to_string(),
        note: String::new(),
        locked: false,
        discoverable: None,
        indexable: false,
        hide_collections: None,
        actor_type: None,
        created_at: ts(),
        url: None,
        uri: domain.map(|d| format!("https://{}/users/{}", d, username)),
        avatar_file_name: None,
        avatar_remote_url: None,
        header_file_name: None,
        header_remote_url: String::new(),
        avatar_description: String::new(),
        header_description: String::new(),
        show_media: true,
        show_media_replies: true,
        show_featured: true,
        feature_approval_policy: 0,
        fields: None,
        suspended: false,
        deletion_requested: false,
        silenced: false,
        sensitized: false,
        memorial: false,
        invalid_handle: false,
        id_scheme: 0,
    }
}

fn status(id: i64, text: &str, reblog_of: Option<i64>, uri: Option<&str>) -> Status {
    Status {
        id,
        created_at: ts(),
        in_reply_to_id: None,
        in_reply_to_account_id: None,
        sensitive: false,
        spoiler_text: String::new(),
        visibility: 0,
        language: Some("en".into()),
        uri: uri.map(|u| u.to_string()),
        url: None,
        edited_at: None,
        text: text.to_string(),
        reblog_of_id: reblog_of,
        quote_approval_policy: 0,
    }
}

#[test]
fn local_status_entity() {
    let alice = account(7, "alice", None);
    let s = status(100, "Hi @bob", None, None);
    let mentions = vec![StatusMention {
        id: "8".into(),
        username: "bob".into(),
        url: "https://example.social/@bob".into(),
        acct: "bob".into(),
    }];
    let media = vec![MediaAttachment {
        id: 3,
        media_type: Some(0),
        file_file_name: Some("a.png".into()),
        thumbnail_file_name: None,
        remote_url: None,
        thumbnail_remote_url: None,
        description: Some("a cat".into()),
        blurhash: None,
        file_meta: None,
    }];
    let ctx = StatusViewerContext {
        account_id: 9,
        follows_author: true,
        author_follows: false,
        favourited: true,
        reblogged: false,
        muted: false,
        bookmarked: false,
        pinned: true,
    };
    let r = status_from_db(&urls(), &s, &alice, media, None, Some(ctx), &mentions, &[]);
    assert_eq!(r.id, "100");
    assert_eq!(r.created_at, "2024-07-08T09:10:11.012Z");
    assert_eq!(r.visibility, "public");
    assert_eq!(r.uri, "https://example.social/users/alice/statuses/100");
    assert_eq!(r.url.as_deref(), Some("https://example.social/@alice/100"));
    assert_eq!(
        r.content,
        "<p>Hi&#32;<span class=\"h-card\" translate=\"no\"><a href=\"https:&#47;&#47;example.social&#47;@bob\" class=\"u-url mention\">@<span>bob</span></a></span></p>"
    );
    assert_eq!(r.account.username, "alice");
    assert_eq!(r.media_attachments.len(), 1);
    assert_eq!(r.media_attachments[0].media_type, "image");
    assert_eq!(r.favourited, Some(true));
    assert_eq!(r.reblogged, Some(false));
    assert_eq!(r.pinned, None);
    assert!(r.reblog.is_none());
    assert_eq!(r.mentions.len(), 1);
}

#[test]
fn boost_entity() {
    let alice = account(7, "alice", None);
    let carol = account(11, "carol", Some("r.example"));
    let boost = status(101, "", Some(50), None);
    let original = status(
        50,
        "<script>alert(1)</script><p onclick=\"x()\">remote</p>",
        None,
        Some("https://r.example/users/carol/statuses/50"),
    );
    let r = status_from_db(&urls(), &boost, &alice, vec![], Some((original, carol, vec![])), None, &[], &[]);
    assert_eq!(r.uri, "https://example.social/users/alice/statuses/101/activity");
    assert_eq!(r.favourited, None);
    let b = r.reblog.expect("the boosted status");
    assert_eq!(b.id, "50");
    assert_eq!(b.uri, "https://r.example/users/carol/statuses/50");
    assert_eq!(b.account.acct, "carol@r.example");
    assert_eq!(b.content, "<p>remote</p>");
    assert!(b.reblog.is_none());
}
