//! Media attachments: type names, description limits, the retry schedule of
//! the processing queue, and the `meta` shape that visual media must carry.
use vstd::prelude::*;
use crate::error::{is_unprocessable, unprocessable, ApiError};
use crate::text::{char_count, is_prefix, starts_with, str_eq};

verus! {

// ── Types ───────────────────────────────────────────────────────────────────

/// The API name of a stored media type.
pub open spec fn media_type_name(t: Option<i32>) -> Seq<char> {
    match t {
        Some(0) => "image"@,
        Some(1) => "gifv"@,
        Some(2) => "video"@,
        Some(3) => "audio"@,
        _ => "unknown"@,
    }
}

/// The stored number of an API media type.
pub open spec fn media_type_number(mt: Seq<char>) -> i32 {
    if mt == "image"@ {
        0
    } else if mt == "gifv"@ {
        1
    } else if mt == "video"@ {
        2
    } else if mt == "audio"@ {
        3
    } else {
        4
    }
}

/// The media type an upload's content type makes it.
pub open spec fn media_type_of(content_type: Seq<char>) -> Seq<char> {
    if is_prefix("image/gif"@, content_type) {
        "gifv"@
    } else if is_prefix("image/"@, content_type) {
        "image"@
    } else if is_prefix("video/"@, content_type) {
        "video"@
    } else if is_prefix("audio/"@, content_type) {
        "audio"@
    } else {
        "unknown"@
    }
}

pub fn media_type_str(type_int: Option<i32>) -> (r: &'static str)
    ensures
        r@ == media_type_name(type_int),
{
    match type_int {
        Some(0) => "image",
        Some(1) => "gifv",
        Some(2) => "video",
        Some(3) => "audio",
        _ => "unknown",
    }
}

pub fn media_type_int(mt: &str) -> (r: i32)
    ensures
        r == media_type_number(mt@),
{
    if str_eq(mt, "image") {
        0
    } else if str_eq(mt, "gifv") {
        1
    } else if str_eq(mt, "video") {
        2
    } else if str_eq(mt, "audio") {
        3
    } else {
        4
    }
}

pub fn classify_media_type(content_type: &str) -> (r: &'static str)
    ensures
        r@ == media_type_of(content_type@),
{
    if starts_with(content_type, "image/gif") {
        "gifv"
    } else if starts_with(content_type, "image/") {
        "image"
    } else if starts_with(content_type, "video/") {
        "video"
    } else if starts_with(content_type, "audio/") {
        "audio"
    } else {
        "unknown"
    }
}

/// Mastodon's `MediaAttachment::MAX_DESCRIPTION_LENGTH`.
pub const MAX_DESCRIPTION_LENGTH: usize = 10_000;

/// Rejects a description longer than 10 000 characters.
pub fn validate_media_description(description: Option<&str>) -> (r: Result<(), ApiError>)
    ensures
        r is Ok <==> (description matches Some(d) ==> d@.len() <= 10_000),
        r is Err ==> is_unprocessable(
            r,
            "Validation failed: Description is too long (maximum is 10000 characters)"@,
        ),
{
    if let Some(desc) = description {
        if char_count(desc) > MAX_DESCRIPTION_LENGTH {
            return Err(
                unprocessable(
                    "Validation failed: Description is too long (maximum is 10000 characters)",
                ),
            );
        }
    }
    Ok(())
}

// ── Processing queue ────────────────────────────────────────────────────────

/// What becomes of a processing job whose attempt failed.
pub enum JobFailure {
    /// Run again after `backoff_secs`, counting `attempts` tries so far.
    Retry { attempts: i32, backoff_secs: i64 },
    /// No tries left: mark the attachment failed and drop the job.
    GiveUp,
}

/// Seconds to wait before the `n`th retry: 30 s, doubling to at most 960 s.
pub open spec fn retry_backoff(n: int) -> int {
    if n <= 1 {
        30
    } else if n == 2 {
        60
    } else if n == 3 {
        120
    } else if n == 4 {
        240
    } else if n == 5 {
        480
    } else {
        960
    }
}

/// After a failed attempt: give up once `max_attempts` tries are spent, else
/// retry with exponential backoff.
pub fn media_job_failure(attempts: i32, max_attempts: i32) -> (r: JobFailure)
    requires
        attempts < i32::MAX,
    ensures
        attempts + 1 >= max_attempts <==> r is GiveUp,
        r matches JobFailure::Retry { attempts: a, backoff_secs: b } ==> a == attempts + 1 && b
            == retry_backoff(attempts + 1),
{
    let next = attempts + 1;
    if next >= max_attempts {
        JobFailure::GiveUp
    } else {
        let n: i32 = if next < 1 {
            1
        } else if next > 6 {
            6
        } else {
            next
        };
        let backoff: i64 = 30i64 << ((n - 1) as u32);
        assert(backoff == retry_backoff(next as int)) by (bit_vector)
            requires
                1 <= n <= 6,
                n == (if next < 1 { 1 } else if next > 6 { 6 } else { next }),
                backoff == 30i64 << ((n - 1) as u32),
        ;
        JobFailure::Retry { attempts: next, backoff_secs: backoff }
    }
}

} // verus!

verus! {

// ── Uploads and deletion ───────────────────────────────────────────────────

/// How an upload is stored.
pub enum UploadKind {
    /// Video, GIF and audio are transcoded in the background: the upload is
    /// answered with 202 and polled.
    Deferred,
    /// Images are processed at once and answered with 200.
    Immediate,
}

/// What an upload is, once its parts are read: refused without a file or
/// with too long a description; deferred for video, GIF and audio; else
/// immediate.
pub fn upload_kind(has_file: bool, description: Option<&str>, content_type: &str) -> (r: Result<UploadKind, ApiError>)
    ensures
        !has_file ==> is_unprocessable(r, "missing file field"@),
        has_file && (description matches Some(d) && d@.len() > 10_000) ==> is_unprocessable(
            r,
            "Validation failed: Description is too long (maximum is 10000 characters)"@,
        ),
        has_file && !(description matches Some(d) && d@.len() > 10_000) ==> match r {
            Ok(UploadKind::Deferred) => media_type_of(content_type@) == "video"@ || media_type_of(
                content_type@,
            ) == "gifv"@ || media_type_of(content_type@) == "audio"@,
            Ok(UploadKind::Immediate) => !(media_type_of(content_type@) == "video"@ || media_type_of(
                content_type@,
            ) == "gifv"@ || media_type_of(content_type@) == "audio"@),
            Err(_) => false,
        },
{
    if !has_file {
        return Err(unprocessable("missing file field"));
    }
    validate_media_description(description)?;
    let t = classify_media_type(content_type);
    if str_eq(t, "video") || str_eq(t, "gifv") || str_eq(t, "audio") {
        Ok(UploadKind::Deferred)
    } else {
        Ok(UploadKind::Immediate)
    }
}

/// `media_attachments/files/{id path}/{style}/{file}`: where a media file is
/// stored.
pub open spec fn media_key_view(id: int, style: Seq<char>, file: Seq<char>) -> Seq<char> {
    "media_attachments/files/"@ + crate::urls::id_path(id) + seq!['/'] + style + seq!['/'] + file
}

pub fn media_file_key(id: i64, style: &str, file: &str) -> (r: String)
    ensures
        r@ == media_key_view(id as int, style@, file@),
{
    let mut r = crate::text::owned("media_attachments/files/");
    let p = crate::urls::int_to_path(id);
    crate::text::push_str(&mut r, p.as_str());
    crate::text::push_char(&mut r, '/');
    crate::text::push_str(&mut r, style);
    crate::text::push_char(&mut r, '/');
    crate::text::push_str(&mut r, file);
    r
}

/// A media attachment may be deleted only while no status uses it; the
/// stored original is removed with it when it has a file name.
pub fn media_deletion(id: i64, status_id: Option<i64>, file_file_name: &Option<String>) -> (r: Result<
    Option<String>,
    ApiError,
>)
    ensures
        status_id is Some ==> is_unprocessable(r, "Media attachment is currently used by a status"@),
        status_id is None ==> match file_file_name {
            Some(f) => if f@.len() > 0 {
                r matches Ok(Some(k)) && k@ == media_key_view(id as int, "original"@, f@)
            } else {
                r matches Ok(None)
            },
            None => r matches Ok(None),
        },
{
    if status_id.is_some() {
        return Err(unprocessable("Media attachment is currently used by a status"));
    }
    match file_file_name {
        Some(f) => if char_count(f.as_str()) > 0 {
            Ok(Some(media_file_key(id, "original", f.as_str())))
        } else {
            Ok(None)
        },
        None => Ok(None),
    }
}

} // verus!
