//! The API entities, as the endpoints serialize them.
use vstd::prelude::*;
use crate::approval::Approval;
use crate::formatting::StatusMention;
use crate::json::JsonValue;

verus! {

/// A profile field.
pub struct Field {
    pub name: String,
    pub value: String,
    pub verified_at: Option<String>,
}

/// A custom emoji.
pub struct CustomEmoji {
    pub shortcode: String,
    pub url: String,
    pub static_url: String,
    pub visible_in_picker: bool,
    pub category: Option<String>,
    pub featured: Option<bool>,
}

/// A highlighted role shown on a profile.
pub struct AccountRole {
    pub id: String,
    pub name: String,
    pub color: String,
}

/// The role of the authenticated user.
pub struct Role {
    pub id: String,
    pub name: String,
    pub color: String,
    pub permissions: String,
    pub highlighted: bool,
    pub collection_limit: i32,
}

/// Mastodon's `Account` entity.
pub struct Account {
    pub id: String,
    pub username: String,
    pub acct: String,
    pub display_name: String,
    pub locked: bool,
    pub bot: bool,
    pub group: bool,
    pub discoverable: Option<bool>,
    pub indexable: bool,
    pub hide_collections: Option<bool>,
    pub created_at: String,
    pub note: String,
    pub url: String,
    pub uri: String,
    pub avatar: String,
    pub avatar_static: String,
    pub header: String,
    pub header_static: String,
    pub avatar_description: String,
    pub header_description: String,
    pub show_media: bool,
    pub show_media_replies: bool,
    pub show_featured: bool,
    pub feature_approval: Approval,
    pub followers_count: i64,
    pub following_count: i64,
    pub statuses_count: i64,
    pub last_status_at: Option<String>,
    pub emojis: Vec<CustomEmoji>,
    pub fields: Vec<Field>,
    pub roles: Vec<AccountRole>,
    pub moved: Option<Box<Account>>,
    pub suspended: Option<bool>,
    pub limited: Option<bool>,
    pub noindex: Option<bool>,
    pub memorial: Option<bool>,
    pub invalid_handle: Option<bool>,
    pub mute_expires_at: Option<String>,
    pub source: Option<JsonValue>,
    pub role: Option<Role>,
}

/// Mastodon's `MediaAttachment` entity.
pub struct MediaAttachment {
    pub id: String,
    pub media_type: String,
    pub url: Option<String>,
    pub preview_url: Option<String>,
    pub remote_url: Option<String>,
    pub preview_remote_url: Option<String>,
    pub text_url: Option<String>,
    pub description: Option<String>,
    pub blurhash: Option<String>,
    pub meta: Option<JsonValue>,
}

/// The application a status was posted with.
pub struct Application {
    pub name: String,
    pub website: Option<String>,
}

/// Mastodon's `Status` entity.
pub struct Status {
    pub id: String,
    pub created_at: String,
    pub in_reply_to_id: Option<String>,
    pub in_reply_to_account_id: Option<String>,
    pub sensitive: bool,
    pub spoiler_text: String,
    pub visibility: String,
    pub language: Option<String>,
    pub uri: String,
    pub url: Option<String>,
    pub replies_count: i64,
    pub reblogs_count: i64,
    pub favourites_count: i64,
    pub quotes_count: i64,
    pub edited_at: Option<String>,
    pub content: String,
    pub reblog: Option<Box<Status>>,
    pub application: Option<Application>,
    pub account: Account,
    pub media_attachments: Vec<MediaAttachment>,
    pub mentions: Vec<StatusMention>,
    pub tags: Vec<JsonValue>,
    pub emojis: Vec<CustomEmoji>,
    pub card: Option<JsonValue>,
    pub poll: Option<JsonValue>,
    pub quote: Option<JsonValue>,
    pub quote_approval: Approval,
    pub tagged_collections: Vec<JsonValue>,
    pub favourited: Option<bool>,
    pub reblogged: Option<bool>,
    pub muted: Option<bool>,
    pub bookmarked: Option<bool>,
    pub pinned: Option<bool>,
    pub filtered: Option<Vec<JsonValue>>,
    pub text: Option<String>,
}

/// Mastodon's `Conversation` entity: a direct-message thread.
pub struct Conversation {
    pub id: String,
    pub unread: bool,
    pub accounts: Vec<Account>,
    pub last_status: Option<Status>,
}

/// A reaction to an announcement: its name, how many gave it, whether the
/// viewer did, and the image of a custom emoji.
pub struct AnnouncementReaction {
    pub name: String,
    pub count: i64,
    pub me: bool,
    pub url: Option<String>,
    pub static_url: Option<String>,
}

/// Mastodon's `Announcement` entity.
pub struct Announcement {
    pub id: String,
    pub content: String,
    pub all_day: bool,
    pub starts_at: Option<String>,
    pub ends_at: Option<String>,
    pub published_at: String,
    pub updated_at: String,
    pub read: Option<bool>,
    pub reactions: Vec<AnnouncementReaction>,
    pub statuses: Vec<JsonValue>,
    pub tags: Vec<JsonValue>,
    pub emojis: Vec<CustomEmoji>,
    pub mentions: Vec<JsonValue>,
}

/// Mastodon's `List` entity.
pub struct List {
    pub id: String,
    pub title: String,
    pub replies_policy: String,
    pub exclusive: bool,
}

} // verus!
