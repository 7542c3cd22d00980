//! Eunha's Mastodon API layer: the conversions from stored rows to API
//! entities, status and bio rendering, media metadata, and the request
//! validation and pagination rules of the endpoints.

pub mod accounts;
pub mod admin;
pub mod aliases;
pub mod announcements;
pub mod annual_reports;
pub mod approval;
pub mod batch;
pub mod blocks;
pub mod calendar;
pub mod collections;
pub mod conversations;
pub mod convert;
pub mod credentials;
pub mod digest;
pub mod endorsements;
pub mod error;
pub mod favourites;
pub mod filters;
pub mod follow_requests;
pub mod formatting;
pub mod instance;
pub mod invites;
pub mod json;
pub mod laws;
pub mod lists;
pub mod markers;
pub mod media;
pub mod meta;
pub mod models;
pub mod notifications;
pub mod pagination;
pub mod profile;
pub mod relationships;
pub mod search;
pub mod text;
pub mod types;
pub mod urls;
