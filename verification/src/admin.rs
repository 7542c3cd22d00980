//! The admin API: roles, the account, report and block entities and forms,
//! which accounts a status filter selects, what an account action does, how
//! canonical e-mail blocks are hashed, and the report frequencies.
use vstd::prelude::*;
use crate::digest::{sha256_hex, sha256_hex_view};
use crate::error::{is_unprocessable, unprocessable, ApiError};
use crate::formatting::{lowercase, to_lowercase};
use crate::pagination::{clamp, opt_seq, parse_i64, parse_i64_view, PaginationParams};
use crate::text::{owned, str_eq, trim, trimmed};

verus! {

// ── Roles ─────────────────────────────────────────────────────────────────

/// A role as the admin API shows it.
pub struct AdminRole {
    pub id: String,
    pub name: String,
    pub color: String,
    pub position: i32,
    pub permissions: i64,
    pub highlighted: bool,
    pub created_at: String,
    pub updated_at: String,
}

/// When the built-in roles were made.
pub open spec fn roles_epoch() -> Seq<char> {
    "2022-09-08T22:48:07.983Z"@
}

/// The built-in role of a stored role name: `admin` (id 1, position 100,
/// all admin permissions), `moderator` (id 2, position 10), or the empty
/// everyone role (id 0).
pub open spec fn role_holds(r: AdminRole, role: Seq<char>) -> bool {
    &&& r.created_at@ == roles_epoch()
    &&& r.updated_at@ == roles_epoch()
    &&& if role == "admin"@ {
        r.id@ == "1"@ && r.name@ == "Admin"@ && r.color@ == "#6364ff"@ && r.position == 100
            && r.permissions == 2031612 && r.highlighted
    } else if role == "moderator"@ {
        r.id@ == "2"@ && r.name@ == "Moderator"@ && r.color@ == "#6364ff"@ && r.position == 10
            && r.permissions == 1049884 && r.highlighted
    } else {
        r.id@ == "0"@ && r.name@ == ""@ && r.color@ == ""@ && r.position == 0 && r.permissions
            == 0 && !r.highlighted
    }
}

pub fn role_for(role_str: &str) -> (r: AdminRole)
    ensures
        role_holds(r, role_str@),
{
    if str_eq(role_str, "admin") {
        AdminRole {
            id: owned("1"),
            name: owned("Admin"),
            color: owned("#6364ff"),
            position: 100,
            permissions: 2031612,
            highlighted: true,
            created_at: owned("2022-09-08T22:48:07.983Z"),
            updated_at: owned("2022-09-08T22:48:07.983Z"),
        }
    } else if str_eq(role_str, "moderator") {
        AdminRole {
            id: owned("2"),
            name: owned("Moderator"),
            color: owned("#6364ff"),
            position: 10,
            permissions: 1049884,
            highlighted: true,
            created_at: owned("2022-09-08T22:48:07.983Z"),
            updated_at: owned("2022-09-08T22:48:07.983Z"),
        }
    } else {
        AdminRole {
            id: owned("0"),
            name: owned(""),
            color: owned(""),
            position: 0,
            permissions: 0,
            highlighted: false,
            created_at: owned("2022-09-08T22:48:07.983Z"),
            updated_at: owned("2022-09-08T22:48:07.983Z"),
        }
    }
}

// ── Accounts ──────────────────────────────────────────────────────────────

/// The query of `GET /api/v1/admin/accounts`.
pub struct AdminAccountsParams {
    pub status: Option<String>,
    pub username: Option<String>,
    pub by_domain: Option<String>,
    pub role_ids: Option<Vec<String>>,
    pub limit: Option<i64>,
    pub max_id: Option<String>,
    pub min_id: Option<String>,
    pub since_id: Option<String>,
}

/// The query of `GET /api/v2/admin/accounts`.
pub struct AdminAccountsV2Params {
    pub origin: Option<String>,
    pub status: Option<String>,
    pub username: Option<String>,
    pub display_name: Option<String>,
    pub by_domain: Option<String>,
    pub email: Option<String>,
    pub role_ids: Option<Vec<String>>,
    pub limit: Option<i64>,
    pub max_id: Option<String>,
    pub min_id: Option<String>,
    pub since_id: Option<String>,
}

/// The page size of the admin account lists: 40 by default, between 1 and
/// 80.
pub fn admin_accounts_limit(limit: Option<i64>) -> (r: i64)
    ensures
        r == clamp(
            match limit {
                Some(l) => l as int,
                None => 40,
            },
            1,
            80,
        ),
{
    let l = match limit {
        Some(l) => l,
        None => 40,
    };
    if l > 80 {
        80
    } else if l < 1 {
        1
    } else {
        l
    }
}

/// What the status filter of the account lists reads of an account.
pub struct AdminAccountState {
    pub suspended: bool,
    pub silenced: bool,
    pub sensitized: bool,
    /// Its user has not been approved yet.
    pub pending: bool,
}

/// Which accounts a status filter selects: `suspended` and `disabled` the
/// suspended ones, `silenced`, `sensitized` and `pending` theirs, `active`
/// those neither suspended, silenced nor pending; no other status selects
/// any, and no filter selects all.
pub open spec fn status_selects(status: Option<Seq<char>>, a: AdminAccountState) -> bool {
    match status {
        None => true,
        Some(s) => (s == "suspended"@ && a.suspended) || (s == "silenced"@ && a.silenced) || (s
            == "sensitized"@ && a.sensitized) || (s == "disabled"@ && a.suspended) || (s
            == "pending"@ && a.pending) || (s == "active"@ && !a.suspended && !a.silenced
            && !a.pending),
    }
}

pub fn status_filter_selects(status: &Option<String>, a: &AdminAccountState) -> (r: bool)
    ensures
        r == status_selects(opt_seq(*status), *a),
{
    match status {
        None => true,
        Some(s) => {
            let s = s.as_str();
            (str_eq(s, "suspended") && a.suspended) || (str_eq(s, "silenced") && a.silenced) || (
            str_eq(s, "sensitized") && a.sensitized) || (str_eq(s, "disabled") && a.suspended) || (
            str_eq(s, "pending") && a.pending) || (str_eq(s, "active") && !a.suspended
                && !a.silenced && !a.pending)
        },
    }
}

/// The body of `POST /api/v1/admin/accounts/:id/action`.
pub struct AccountActionForm {
    pub action_type: Option<String>,
    pub text: Option<String>,
    pub report_id: Option<String>,
    pub warning_preset_id: Option<String>,
    pub send_email_notification: Option<bool>,
}

/// What an account action does to the account.
pub enum AccountAction {
    /// `disable` and `suspend` suspend it; `suspend` deletes its statuses too.
    Suspend { delete_statuses: bool },
    Sensitize,
    Silence,
    /// `none`, or any other type: the account is left as it is.
    Nothing,
}

/// The action a type names.
pub open spec fn action_named(t: Seq<char>) -> AccountAction {
    if t == "disable"@ {
        AccountAction::Suspend { delete_statuses: false }
    } else if t == "suspend"@ {
        AccountAction::Suspend { delete_statuses: true }
    } else if t == "sensitive"@ {
        AccountAction::Sensitize
    } else if t == "silence"@ {
        AccountAction::Silence
    } else {
        AccountAction::Nothing
    }
}

pub fn account_action_of(form: &AccountActionForm) -> (r: AccountAction)
    ensures
        r == match form.action_type {
            Some(t) => action_named(t@),
            None => AccountAction::Nothing,
        },
{
    match &form.action_type {
        Some(t) => {
            let t = t.as_str();
            if str_eq(t, "disable") {
                AccountAction::Suspend { delete_statuses: false }
            } else if str_eq(t, "suspend") {
                AccountAction::Suspend { delete_statuses: true }
            } else if str_eq(t, "sensitive") {
                AccountAction::Sensitize
            } else if str_eq(t, "silence") {
                AccountAction::Silence
            } else {
                AccountAction::Nothing
            }
        },
        None => AccountAction::Nothing,
    }
}

/// The report an action resolves: its `report_id`, when it is an integer.
pub fn action_report_id(form: &AccountActionForm) -> (r: Option<i64>)
    ensures
        crate::pagination::opt_int(r) == match form.report_id {
            Some(s) => parse_i64_view(s@),
            None => None,
        },
{
    match &form.report_id {
        Some(s) => parse_i64(s.as_str()),
        None => None,
    }
}

// ── Reports and measures ──────────────────────────────────────────────────

/// The query of `GET /api/v1/admin/reports`.
pub struct AdminReportsParams {
    pub resolved: Option<bool>,
    pub limit: Option<i64>,
    pub max_id: Option<String>,
    pub min_id: Option<String>,
    pub since_id: Option<String>,
}

/// The page size of the report list: 20 by default, between 1 and 40.
pub fn admin_reports_limit(p: &AdminReportsParams) -> (r: i64)
    ensures
        r == clamp(
            match p.limit {
                Some(l) => l as int,
                None => 20,
            },
            1,
            40,
        ),
{
    let l = match p.limit {
        Some(l) => l,
        None => 20,
    };
    if l > 40 {
        40
    } else if l < 1 {
        1
    } else {
        l
    }
}

/// The body of `POST /api/v1/admin/measures`.
pub struct MeasuresRequest {
    pub keys: Vec<String>,
    pub start_at: Option<String>,
    pub end_at: Option<String>,
}

/// The body of `POST /api/v1/admin/dimensions`.
pub struct DimensionsRequest {
    pub keys: Vec<String>,
    pub start_at: Option<String>,
    pub end_at: Option<String>,
    pub limit: Option<i64>,
}

/// The body of `POST /api/v1/admin/retention`.
pub struct RetentionRequest {
    pub start_at: Option<String>,
    pub end_at: Option<String>,
    pub frequency: Option<String>,
}

/// The unit a retention report is cut in: `week` or `month` when asked for,
/// else `day`.
pub open spec fn frequency_view(f: Option<String>) -> Seq<char> {
    match f {
        Some(s) => if s@ == "week"@ {
            "week"@
        } else if s@ == "month"@ {
            "month"@
        } else {
            "day"@
        },
        None => "day"@,
    }
}

pub fn retention_frequency(r: &RetentionRequest) -> (f: &'static str)
    ensures
        f@ == frequency_view(r.frequency),
{
    match &r.frequency {
        Some(s) => if str_eq(s.as_str(), "week") {
            "week"
        } else if str_eq(s.as_str(), "month") {
            "month"
        } else {
            "day"
        },
        None => "day",
    }
}

// ── Custom emoji ──────────────────────────────────────────────────────────

/// A custom emoji as the admin API shows it.
pub struct AdminCustomEmoji {
    pub id: String,
    pub shortcode: String,
    pub url: String,
    pub static_url: String,
    pub visible_in_picker: bool,
    pub disabled: bool,
    pub category: Option<String>,
}

/// The body of `PATCH /api/v1/admin/custom_emojis/:id`.
pub struct PatchEmojiForm {
    pub shortcode: Option<String>,
    pub visible_in_picker: Option<bool>,
    pub disabled: Option<bool>,
}

// ── Domain, IP and e-mail blocks ──────────────────────────────────────────

/// A domain block as the admin API shows it.
pub struct AdminDomainBlock {
    pub id: String,
    pub domain: String,
    pub digest: String,
    pub created_at: String,
    pub severity: String,
    pub reject_media: bool,
    pub reject_reports: bool,
    pub private_comment: Option<String>,
    pub public_comment: Option<String>,
    pub obfuscate: bool,
}

/// A domain allow as the admin API shows it.
pub struct AdminDomainAllow {
    pub id: String,
    pub domain: String,
    pub created_at: String,
}

/// The body of `POST /api/v1/admin/domain_blocks`.
pub struct CreateDomainBlockForm {
    pub domain: String,
    pub severity: Option<String>,
    pub reject_media: Option<bool>,
    pub reject_reports: Option<bool>,
    pub private_comment: Option<String>,
    pub public_comment: Option<String>,
    pub obfuscate: Option<bool>,
}

/// The body of `POST /api/v1/admin/domain_allows`.
pub struct CreateDomainAllowForm {
    pub domain: String,
}

/// The stored severity of a domain block: 0 `noop`, 1 `silence`, 2
/// `suspend`; any other name is a silence.
pub open spec fn domain_severity_number(s: Seq<char>) -> i32 {
    if s == "noop"@ {
        0
    } else if s == "suspend"@ {
        2
    } else {
        1
    }
}

/// The name of a stored domain severity; an unknown number reads as
/// `silence`.
pub open spec fn domain_severity_name(n: i32) -> Seq<char> {
    if n == 0 {
        "noop"@
    } else if n == 2 {
        "suspend"@
    } else {
        "silence"@
    }
}

/// The severity a create form asks for, as stored: a silence (1) when it
/// names none.
pub fn domain_block_severity(form: &CreateDomainBlockForm) -> (r: i32)
    ensures
        r == match form.severity {
            Some(s) => domain_severity_number(s@),
            None => 1,
        },
{
    match &form.severity {
        Some(s) => if str_eq(s.as_str(), "noop") {
            0
        } else if str_eq(s.as_str(), "suspend") {
            2
        } else {
            1
        },
        None => 1,
    }
}

pub fn domain_severity_str(n: i32) -> (r: &'static str)
    ensures
        r@ == domain_severity_name(n),
{
    if n == 0 {
        "noop"
    } else if n == 2 {
        "suspend"
    } else {
        "silence"
    }
}

/// A domain block's flags on create: nothing rejected and nothing
/// obfuscated unless asked.
pub fn domain_block_flags(form: &CreateDomainBlockForm) -> (r: (bool, bool, bool))
    ensures
        r == (form.reject_media == Some(true), form.reject_reports == Some(true), form.obfuscate
            == Some(true)),
{
    (form.reject_media == Some(true), form.reject_reports == Some(true), form.obfuscate == Some(
        true,
    ))
}

/// The digest an admin domain block carries: the hex SHA-256 of the domain.
pub fn admin_domain_digest(domain: &str) -> (r: String)
    ensures
        r@ == sha256_hex_view(domain@),
{
    sha256_hex(domain)
}

/// An IP block as the admin API shows it.
pub struct AdminIpBlock {
    pub id: String,
    pub ip: String,
    pub severity: String,
    pub comment: Option<String>,
    pub expires_at: Option<String>,
    pub created_at: String,
}

/// The body of `POST /api/v1/admin/ip_blocks`.
pub struct CreateIpBlockForm {
    pub ip: String,
    pub severity: Option<String>,
    pub comment: Option<String>,
    pub expires_in: Option<i64>,
}

/// The stored severity of an IP block: 0 `noop`, 1
/// `sign_up_requires_approval`, 2 `sign_up_block`, 3 `block`; any other name
/// is a no-op.
pub open spec fn ip_severity_number(s: Seq<char>) -> i32 {
    if s == "sign_up_requires_approval"@ {
        1
    } else if s == "sign_up_block"@ {
        2
    } else if s == "block"@ {
        3
    } else {
        0
    }
}

/// The severity an IP block form asks for, as stored: `sign_up_block` (2)
/// when it names none.
pub fn ip_block_severity(form: &CreateIpBlockForm) -> (r: i32)
    ensures
        r == match form.severity {
            Some(s) => ip_severity_number(s@),
            None => 2,
        },
{
    match &form.severity {
        Some(s) => {
            let s = s.as_str();
            if str_eq(s, "sign_up_requires_approval") {
                1
            } else if str_eq(s, "sign_up_block") {
                2
            } else if str_eq(s, "block") {
                3
            } else {
                0
            }
        },
        None => 2,
    }
}

/// An e-mail domain block as the admin API shows it.
pub struct AdminEmailDomainBlock {
    pub id: String,
    pub domain: String,
    pub created_at: String,
    pub history: Vec<AdminEmailDomainBlockHistory>,
    pub allow_with_approval: bool,
}

/// A day of an e-mail domain block's history.
pub struct AdminEmailDomainBlockHistory {
    pub day: String,
    pub accounts: String,
    pub uses: String,
}

/// The body of `POST /api/v1/admin/email_domain_blocks`.
pub struct CreateEmailDomainBlockForm {
    pub domain: String,
}

/// A canonical e-mail block as the admin API shows it.
pub struct CanonicalEmailBlock {
    pub id: String,
    pub canonical_email_hash: String,
    pub created_at: String,
}

/// The body of `POST /api/v1/admin/canonical_email_blocks` and of its test.
pub struct CreateCanonicalEmailBlockForm {
    pub email: Option<String>,
    pub canonical_email_hash: Option<String>,
}

/// The hash a canonical e-mail block is stored and looked up by: the one
/// given, else the hex SHA-256 of the e-mail address trimmed and
/// lowercased; a form with neither is refused.
pub fn canonical_email_hash(form: &CreateCanonicalEmailBlockForm) -> (r: Result<String, ApiError>)
    ensures
        match (form.canonical_email_hash, form.email) {
            (Some(h), _) => r matches Ok(s) && s@ == h@,
            (None, Some(e)) => r matches Ok(s) && s@ == sha256_hex_view(lowercase(trimmed(e@))),
            (None, None) => is_unprocessable(r, "email or canonical_email_hash required"@),
        },
{
    match &form.canonical_email_hash {
        Some(h) => Ok(owned(h.as_str())),
        None => match &form.email {
            Some(e) => {
                let t = trim(e.as_str());
                let normalized = to_lowercase(t.as_str());
                Ok(sha256_hex(normalized.as_str()))
            },
            None => Err(unprocessable("email or canonical_email_hash required")),
        },
    }
}

// ── Tags ──────────────────────────────────────────────────────────────────

/// A tag as the admin API shows it.
pub struct AdminTag {
    pub id: String,
    pub name: String,
    pub url: String,
    pub trendable: bool,
    pub usable: bool,
    pub requires_review: bool,
    pub listable: bool,
}

/// The body of `PUT /api/v1/admin/tags/:id`.
pub struct UpdateAdminTagForm {
    pub trendable: Option<bool>,
    pub usable: Option<bool>,
    pub listable: Option<bool>,
}

/// The query of `GET /api/v1/admin/tags`.
pub struct AdminTagsParams {
    pub pagination: PaginationParams,
    pub name: Option<String>,
}

/// A tag's flags after an update: each one the form names takes its value,
/// the others keep theirs.
pub fn updated_tag_flags(form: &UpdateAdminTagForm, trendable: bool, usable: bool, listable: bool) -> (r: (
    bool,
    bool,
    bool,
))
    ensures
        r.0 == match form.trendable {
            Some(b) => b,
            None => trendable,
        },
        r.1 == match form.usable {
            Some(b) => b,
            None => usable,
        },
        r.2 == match form.listable {
            Some(b) => b,
            None => listable,
        },
{
    (
        match form.trendable {
            Some(b) => b,
            None => trendable,
        },
        match form.usable {
            Some(b) => b,
            None => usable,
        },
        match form.listable {
            Some(b) => b,
            None => listable,
        },
    )
}

} // verus!

verus! {

// ── Measures and dimensions ───────────────────────────────────────────────

/// The instant an optional request time names, when it parses.
pub open spec fn given_time(s: Option<Seq<char>>) -> Option<crate::models::Timestamp> {
    match s {
        Some(x) => crate::calendar::rfc3339_utc(x),
        None => None,
    }
}

/// A given time that falls in a leap second.
pub open spec fn in_leap_second(t: Option<crate::models::Timestamp>) -> bool {
    t matches Some(u) && u.millis >= 1000
}

/// A day in milliseconds.
pub open spec fn day_millis() -> int {
    86_400_000
}

/// Where a report's period starts: the given time, else `default_days`
/// before `now`.
pub open spec fn window_start_ms(
    given: Option<crate::models::Timestamp>,
    now: crate::models::Timestamp,
    default_days: int,
) -> int {
    match given {
        Some(t) => crate::calendar::epoch_millis(t),
        None => crate::calendar::epoch_millis(now) - default_days * day_millis(),
    }
}

/// Where a report's period ends: the given time, else `now`.
pub open spec fn window_end(given: Option<crate::models::Timestamp>, now: crate::models::Timestamp) -> crate::models::Timestamp {
    match given {
        Some(t) => t,
        None => now,
    }
}

/// Whether the period of a report, and the one of the same length before
/// it, can be formed: no given time falls in a leap second, and both
/// starts are instants `chrono` represents (a given start always is).
pub open spec fn window_formed(
    s: Option<crate::models::Timestamp>,
    e: Option<crate::models::Timestamp>,
    now: crate::models::Timestamp,
    default_days: int,
) -> bool {
    let start = window_start_ms(s, now, default_days);
    &&& !in_leap_second(s)
    &&& !in_leap_second(e)
    &&& (s is None ==> crate::calendar::in_chrono_range(start))
    &&& crate::calendar::in_chrono_range(2 * start - crate::calendar::epoch_millis(window_end(e, now)))
}

pub open spec fn opt_str(s: Option<&str>) -> Option<Seq<char>> {
    match s {
        Some(x) => Some(x@),
        None => None,
    }
}

/// The period a dashboard report covers, and the start of the period of the
/// same length before it: it starts at `start_at` (else `default_days` days
/// before `now`) and ends at `end_at` (else `now`); a time that does not
/// parse as RFC 3339 is as if not given.
#[verifier::rlimit(40)]
pub fn report_window(start_at: Option<&str>, end_at: Option<&str>, now: crate::models::Timestamp, default_days: i64) -> (r: Option<
    (crate::models::Timestamp, crate::models::Timestamp, crate::models::Timestamp),
>)
    requires
        crate::calendar::valid_timestamp(now),
        0 <= default_days <= 1_000_000,
    ensures
        ({
            let s = given_time(opt_str(start_at));
            let e = given_time(opt_str(end_at));
            match r {
                Some((start, end, previous)) => {
                    &&& window_formed(s, e, now, default_days as int)
                    &&& (s matches Some(t) ==> start == t)
                    &&& crate::calendar::epoch_millis(start) == window_start_ms(s, now, default_days as int)
                    &&& end == window_end(e, now)
                    &&& crate::calendar::epoch_millis(previous) == 2 * crate::calendar::epoch_millis(start)
                        - crate::calendar::epoch_millis(end)
                    &&& crate::calendar::valid_timestamp(start)
                    &&& crate::calendar::valid_timestamp(end)
                    &&& crate::calendar::valid_timestamp(previous)
                },
                None => !window_formed(s, e, now, default_days as int),
            }
        }),
{
    let s = match start_at {
        Some(x) => crate::calendar::parse_rfc3339(x),
        None => None,
    };
    let e = match end_at {
        Some(x) => crate::calendar::parse_rfc3339(x),
        None => None,
    };
    let leap_s = match s {
        Some(t) => t.millis >= 1000,
        None => false,
    };
    let leap_e = match e {
        Some(t) => t.millis >= 1000,
        None => false,
    };
    if leap_s || leap_e {
        return None;
    }
    let start = match s {
        Some(t) => t,
        None => match crate::calendar::add_millis(now, -(default_days * 86_400_000)) {
            Some(u) => u,
            None => return None,
        },
    };
    let end = match e {
        Some(t) => t,
        None => now,
    };
    proof {
        crate::calendar::lemma_epoch_millis_bounded(start);
        crate::calendar::lemma_epoch_millis_bounded(end);
    }
    let d = crate::calendar::millis_between(start, end);
    match crate::calendar::add_millis(start, -d) {
        Some(previous) => Some((start, end, previous)),
        None => None,
    }
}


/// The measures the dashboard can ask for, by what they count.
pub enum MeasureKind {
    /// Local accounts created, with a daily series.
    NewUsers,
    /// Local accounts that posted, with a daily series.
    ActiveUsers,
    /// Statuses of local accounts, with a daily series.
    NewStatuses,
    /// Reports opened, without a series.
    OpenedReports,
    /// Reports resolved, without a series.
    ResolvedReports,
    /// Anything else: zero, without a series.
    Unknown,
}

pub open spec fn measure_kind_view(key: Seq<char>) -> MeasureKind {
    if key == "new_users"@ {
        MeasureKind::NewUsers
    } else if key == "active_users"@ {
        MeasureKind::ActiveUsers
    } else if key == "new_statuses"@ {
        MeasureKind::NewStatuses
    } else if key == "opened_reports"@ {
        MeasureKind::OpenedReports
    } else if key == "resolved_reports"@ {
        MeasureKind::ResolvedReports
    } else {
        MeasureKind::Unknown
    }
}

/// What a measure key asks for.
pub fn measure_kind(key: &str) -> (r: MeasureKind)
    ensures
        r == measure_kind_view(key@),
{
    if str_eq(key, "new_users") {
        MeasureKind::NewUsers
    } else if str_eq(key, "active_users") {
        MeasureKind::ActiveUsers
    } else if str_eq(key, "new_statuses") {
        MeasureKind::NewStatuses
    } else if str_eq(key, "opened_reports") {
        MeasureKind::OpenedReports
    } else if str_eq(key, "resolved_reports") {
        MeasureKind::ResolvedReports
    } else {
        MeasureKind::Unknown
    }
}

/// A day of a measure's series: the day (when the database gave one) and
/// the count.
pub struct MeasureDay {
    pub day: Option<crate::models::Timestamp>,
    pub value: Option<i64>,
}

/// A day as the dashboard shows it; a missing day is empty and a missing
/// count zero.
pub open spec fn day_json(d: MeasureDay) -> crate::json::Json {
    crate::json::Json::Object(
        seq![
            ("date"@, crate::json::Json::Str(
                match d.day {
                    Some(t) => crate::models::mastodon_text(t),
                    None => Seq::empty(),
                },
            )),
            ("value"@, crate::json::Json::Str(crate::text::int_text(
                match d.value {
                    Some(v) => v as int,
                    None => 0,
                },
            ))),
        ],
    )
}

/// A measure: its key, no unit, its total (also as the human value), the
/// total of the period before, and its daily series.
pub open spec fn measure_json(key: Seq<char>, total: i64, previous_total: i64, days: Seq<MeasureDay>) -> crate::json::Json {
    crate::json::Json::Object(
        seq![
            ("key"@, crate::json::Json::Str(key)),
            ("unit"@, crate::json::Json::Null),
            ("total"@, crate::json::Json::Str(crate::text::int_text(total as int))),
            ("human_value"@, crate::json::Json::Str(crate::text::int_text(total as int))),
            ("previous_total"@, crate::json::Json::Str(crate::text::int_text(previous_total as int))),
            ("data"@, crate::json::Json::Array(days.map_values(|d: MeasureDay| day_json(d)))),
        ],
    )
}

fn day_value(d: &MeasureDay) -> (r: crate::json::JsonValue)
    ensures
        crate::json::json_of(r) == day_json(*d),
{
    let date = match d.day {
        Some(t) => crate::models::mastodon_date(t),
        None => String::new(),
    };
    let v: i64 = match d.value {
        Some(v) => v,
        None => 0,
    };
    let mut es: Vec<(String, crate::json::JsonValue)> = Vec::new();
    es.push((owned("date"), crate::json::JsonValue::Str(date)));
    es.push((owned("value"), crate::json::JsonValue::Str(crate::text::int_to_string(v))));
    proof {
        crate::json::lemma_entries(es@);
        let want = seq![
            ("date"@, crate::json::Json::Str(
                match d.day {
                    Some(t) => crate::models::mastodon_text(t),
                    None => Seq::empty(),
                },
            )),
            ("value"@, crate::json::Json::Str(crate::text::int_text(v as int))),
        ];
        assert(crate::json::json_entries(es@) =~= want);
        assert(day_json(*d) matches crate::json::Json::Object(x) && x =~= want);
    }
    crate::json::JsonValue::Object(es)
}

/// The measure `key` with these counts.
pub fn measure(key: &str, total: i64, previous_total: i64, days: &Vec<MeasureDay>) -> (r:
    crate::json::JsonValue)
    ensures
        crate::json::json_of(r) == measure_json(key@, total, previous_total, days@),
{
    let mut series: Vec<crate::json::JsonValue> = Vec::new();
    let mut i: usize = 0;
    while i < days.len()
        invariant
            i <= days@.len(),
            crate::json::json_items(series@) == days@.take(i as int).map_values(
                |d: MeasureDay| day_json(d),
            ),
        decreases days.len() - i,
    {
        let v = day_value(&days[i]);
        let ghost before = series@;
        series.push(v);
        proof {
            assert(series@.drop_last() =~= before);
            assert(days@.take(i + 1).map_values(|d: MeasureDay| day_json(d)) =~= days@.take(
                i as int,
            ).map_values(|d: MeasureDay| day_json(d)).push(day_json(days@[i as int])));
        }
        i = i + 1;
    }
    assert(days@.take(days@.len() as int) =~= days@);
    let mut es: Vec<(String, crate::json::JsonValue)> = Vec::new();
    es.push((owned("key"), crate::json::json_str(key)));
    es.push((owned("unit"), crate::json::JsonValue::Null));
    es.push((owned("total"), crate::json::JsonValue::Str(crate::text::int_to_string(total))));
    es.push((owned("human_value"), crate::json::JsonValue::Str(crate::text::int_to_string(total))));
    es.push(
        (
            owned("previous_total"),
            crate::json::JsonValue::Str(crate::text::int_to_string(previous_total)),
        ),
    );
    let ghost sv = series@;
    es.push((owned("data"), crate::json::JsonValue::Array(series)));
    proof {
        crate::json::lemma_entries(es@);
        assert(crate::json::json_entries(es@) =~= seq![
            ("key"@, crate::json::Json::Str(key@)),
            ("unit"@, crate::json::Json::Null),
            ("total"@, crate::json::Json::Str(crate::text::int_text(total as int))),
            ("human_value"@, crate::json::Json::Str(crate::text::int_text(total as int))),
            ("previous_total"@, crate::json::Json::Str(crate::text::int_text(previous_total as int))),
            ("data"@, crate::json::Json::Array(crate::json::json_items(sv))),
        ]);
    }
    crate::json::JsonValue::Object(es)
}

/// How many rows a dimension lists: 10 by default, between 1 and 50.
pub fn dimension_limit(limit: Option<i64>) -> (r: i64)
    ensures
        r == clamp(
            match limit {
                Some(l) => l as int,
                None => 10,
            },
            1,
            50,
        ),
{
    let l = match limit {
        Some(l) => l,
        None => 10,
    };
    if l > 50 {
        50
    } else if l < 1 {
        1
    } else {
        l
    }
}

/// Whether a dimension key is one with rows (`servers`); the others, such as
/// `sources`, which statuses do not record, come back empty.
pub fn dimension_has_rows(key: &str) -> (r: bool)
    ensures
        r == (key@ == "servers"@),
{
    str_eq(key, "servers")
}

/// A server and how many statuses it posted in the period.
pub struct ServerCount {
    pub server: Option<String>,
    pub count: Option<i64>,
}

pub open spec fn opt_str_json(s: Option<String>) -> crate::json::Json {
    match s {
        Some(t) => crate::json::Json::Str(t@),
        None => crate::json::Json::Null,
    }
}

/// A row of a dimension: the server as key and human key, its count as
/// value and human value, no unit.
pub open spec fn server_json(c: ServerCount) -> crate::json::Json {
    let v = crate::json::Json::Str(crate::text::int_text(
        match c.count {
            Some(n) => n as int,
            None => 0,
        },
    ));
    crate::json::Json::Object(
        seq![
            ("key"@, opt_str_json(c.server)),
            ("human_key"@, opt_str_json(c.server)),
            ("value"@, v),
            ("unit"@, crate::json::Json::Null),
            ("human_value"@, v),
        ],
    )
}

/// A dimension: its key and its rows.
pub open spec fn dimension_json(key: Seq<char>, rows: Seq<ServerCount>) -> crate::json::Json {
    crate::json::Json::Object(
        seq![
            ("key"@, crate::json::Json::Str(key)),
            ("data"@, crate::json::Json::Array(rows.map_values(|c: ServerCount| server_json(c)))),
        ],
    )
}

fn opt_str_value(s: &Option<String>) -> (r: crate::json::JsonValue)
    ensures
        crate::json::json_of(r) == opt_str_json(*s),
{
    match s {
        Some(t) => crate::json::json_str(t.as_str()),
        None => crate::json::JsonValue::Null,
    }
}

fn server_value(c: &ServerCount) -> (r: crate::json::JsonValue)
    ensures
        crate::json::json_of(r) == server_json(*c),
{
    let n: i64 = match c.count {
        Some(n) => n,
        None => 0,
    };
    let mut es: Vec<(String, crate::json::JsonValue)> = Vec::new();
    es.push((owned("key"), opt_str_value(&c.server)));
    es.push((owned("human_key"), opt_str_value(&c.server)));
    es.push((owned("value"), crate::json::JsonValue::Str(crate::text::int_to_string(n))));
    es.push((owned("unit"), crate::json::JsonValue::Null));
    es.push((owned("human_value"), crate::json::JsonValue::Str(crate::text::int_to_string(n))));
    proof {
        crate::json::lemma_entries(es@);
        let v = crate::json::Json::Str(crate::text::int_text(n as int));
        let want = seq![
            ("key"@, opt_str_json(c.server)),
            ("human_key"@, opt_str_json(c.server)),
            ("value"@, v),
            ("unit"@, crate::json::Json::Null),
            ("human_value"@, v),
        ];
        assert(crate::json::json_entries(es@) =~= want);
        assert(server_json(*c) matches crate::json::Json::Object(x) && x =~= want);
    }
    crate::json::JsonValue::Object(es)
}

/// The dimension `key` with these rows.
pub fn dimension(key: &str, rows: &Vec<ServerCount>) -> (r: crate::json::JsonValue)
    ensures
        crate::json::json_of(r) == dimension_json(key@, rows@),
{
    let mut data: Vec<crate::json::JsonValue> = Vec::new();
    let mut i: usize = 0;
    while i < rows.len()
        invariant
            i <= rows@.len(),
            crate::json::json_items(data@) == rows@.take(i as int).map_values(
                |c: ServerCount| server_json(c),
            ),
        decreases rows.len() - i,
    {
        let v = server_value(&rows[i]);
        let ghost before = data@;
        data.push(v);
        proof {
            assert(data@.drop_last() =~= before);
            assert(rows@.take(i + 1).map_values(|c: ServerCount| server_json(c)) =~= rows@.take(
                i as int,
            ).map_values(|c: ServerCount| server_json(c)).push(server_json(rows@[i as int])));
        }
        i = i + 1;
    }
    assert(rows@.take(rows@.len() as int) =~= rows@);
    let mut es: Vec<(String, crate::json::JsonValue)> = Vec::new();
    es.push((owned("key"), crate::json::json_str(key)));
    let ghost dv = data@;
    es.push((owned("data"), crate::json::JsonValue::Array(data)));
    proof {
        crate::json::lemma_entries(es@);
        assert(crate::json::json_entries(es@) =~= seq![
            ("key"@, crate::json::Json::Str(key@)),
            ("data"@, crate::json::Json::Array(crate::json::json_items(dv))),
        ]);
    }
    crate::json::JsonValue::Object(es)
}

} // verus!

verus! {

// ── Access and the admin account entity ───────────────────────────────────

/// Only admins and moderators reach the admin API: a request without a user
/// is unauthorized, any other role is forbidden.
pub fn admin_gate(role: Option<&str>) -> (r: Result<(), ApiError>)
    ensures
        match role {
            None => r == Err::<(), ApiError>(ApiError::Unauthorized),
            Some(x) => if x@ == "admin"@ || x@ == "moderator"@ {
                r is Ok
            } else {
                r == Err::<(), ApiError>(ApiError::Forbidden)
            },
        },
{
    match role {
        None => Err(ApiError::Unauthorized),
        Some(x) => if str_eq(x, "admin") || str_eq(x, "moderator") {
            Ok(())
        } else {
            Err(ApiError::Forbidden)
        },
    }
}

/// The user behind a local account.
pub struct UserRow {
    pub email: String,
    pub confirmed: bool,
    pub approved: bool,
    pub reason: Option<String>,
    pub role: String,
}

/// An address a user signed in from, and when.
pub struct IpRow {
    pub ip: Option<String>,
    pub used_at: Option<crate::models::Timestamp>,
}

/// An address as the admin API lists it.
pub open spec fn ip_json(r: IpRow) -> crate::json::Json {
    crate::json::Json::Object(
        seq![
            ("ip"@, crate::json::Json::Str(
                match r.ip {
                    Some(s) => s@,
                    None => Seq::empty(),
                },
            )),
            ("used_at"@, match r.used_at {
                Some(t) => crate::json::Json::Str(crate::models::mastodon_text(t)),
                None => crate::json::Json::Null,
            }),
        ],
    )
}

/// An account as the admin API shows it.
pub struct AdminAccount {
    pub id: String,
    pub username: String,
    pub domain: Option<String>,
    pub created_at: String,
    pub email: String,
    pub ip: Option<String>,
    pub ips: Vec<crate::json::JsonValue>,
    pub role: AdminRole,
    pub confirmed: bool,
    pub suspended: bool,
    pub silenced: bool,
    pub sensitized: bool,
    pub disabled: bool,
    pub approved: bool,
    pub locale: Option<String>,
    pub invite_request: Option<String>,
    pub created_by_application_id: Option<String>,
    pub invited_by_account_id: Option<String>,
    pub account: crate::types::Account,
}

fn ip_value(r: &IpRow) -> (v: crate::json::JsonValue)
    ensures
        crate::json::json_of(v) == ip_json(*r),
{
    let ip = match &r.ip {
        Some(s) => owned(s.as_str()),
        None => String::new(),
    };
    let used = match r.used_at {
        Some(t) => crate::json::JsonValue::Str(crate::models::mastodon_date(t)),
        None => crate::json::JsonValue::Null,
    };
    let mut es: Vec<(String, crate::json::JsonValue)> = Vec::new();
    es.push((owned("ip"), crate::json::JsonValue::Str(ip)));
    es.push((owned("used_at"), used));
    proof {
        crate::json::lemma_entries(es@);
        assert(ip_json(*r) matches crate::json::Json::Object(x) && x =~= crate::json::json_entries(
            es@,
        ));
    }
    crate::json::JsonValue::Object(es)
}

/// Mastodon's `Admin::Account` of an account, its user (none for a remote
/// account, which counts as confirmed and approved) and the addresses the
/// user signed in from, newest first; the first is the account's `ip`.
pub fn admin_account(
    urls: &crate::urls::InstanceUrls,
    account: &crate::models::Account,
    user: &Option<UserRow>,
    ips: &Vec<IpRow>,
) -> (r: AdminAccount)
    ensures
        r.id@ == crate::text::int_text(account.id as int),
        r.username@ == account.username@,
        opt_seq(r.domain) == opt_seq(account.domain),
        r.created_at@ == crate::models::mastodon_text(account.created_at),
        r.email@ == match user {
            Some(u) => u.email@,
            None => Seq::empty(),
        },
        opt_seq(r.ip) == (if ips@.len() == 0 {
            None
        } else {
            Some(
                match ips@[0].ip {
                    Some(s) => s@,
                    None => Seq::empty(),
                },
            )
        }),
        crate::json::json_items(r.ips@) == ips@.map_values(|x: IpRow| ip_json(x)),
        role_holds(
            r.role,
            match user {
                Some(u) => u.role@,
                None => "user"@,
            },
        ),
        r.confirmed == match user {
            Some(u) => u.confirmed,
            None => true,
        },
        r.approved == match user {
            Some(u) => u.approved,
            None => true,
        },
        opt_seq(r.invite_request) == match user {
            Some(u) => opt_seq(u.reason),
            None => None,
        },
        r.suspended == account.suspended,
        r.silenced == account.silenced,
        r.sensitized == account.sensitized,
        !r.disabled,
        r.locale is None && r.created_by_application_id is None && r.invited_by_account_id is None,
        crate::convert::account_entity(r.account, *urls, *account, None),
{
    let mut list: Vec<crate::json::JsonValue> = Vec::new();
    let mut k: usize = 0;
    while k < ips.len()
        invariant
            k <= ips@.len(),
            crate::json::json_items(list@) == ips@.take(k as int).map_values(|x: IpRow| ip_json(x)),
        decreases ips.len() - k,
    {
        let v = ip_value(&ips[k]);
        let ghost before = list@;
        list.push(v);
        proof {
            assert(list@.drop_last() =~= before);
            assert(ips@.take(k + 1).map_values(|x: IpRow| ip_json(x)) =~= ips@.take(
                k as int,
            ).map_values(|x: IpRow| ip_json(x)).push(ip_json(ips@[k as int])));
        }
        k = k + 1;
    }
    assert(ips@.take(ips@.len() as int) =~= ips@);
    let first_ip = if ips.len() == 0 {
        None
    } else {
        Some(
            match &ips[0].ip {
                Some(s) => owned(s.as_str()),
                None => String::new(),
            },
        )
    };
    let (email, confirmed, approved, reason, role) = match user {
        Some(u) => (
            owned(u.email.as_str()),
            u.confirmed,
            u.approved,
            match &u.reason {
                Some(x) => Some(owned(x.as_str())),
                None => None,
            },
            role_for(u.role.as_str()),
        ),
        None => (String::new(), true, true, None, role_for("user")),
    };
    AdminAccount {
        id: crate::text::int_to_string(account.id),
        username: owned(account.username.as_str()),
        domain: match &account.domain {
            Some(d) => Some(owned(d.as_str())),
            None => None,
        },
        created_at: crate::models::mastodon_date(account.created_at),
        email,
        ip: first_ip,
        ips: list,
        role,
        confirmed,
        suspended: account.suspended,
        silenced: account.silenced,
        sensitized: account.sensitized,
        disabled: false,
        approved,
        locale: None,
        invite_request: reason,
        created_by_application_id: None,
        invited_by_account_id: None,
        account: crate::convert::account_from_db(urls, account),
    }
}

} // verus!

verus! {

// ── Retention ──────────────────────────────────────────────────────────────

/// Whether two times are the same instant.
pub open spec fn same_time(a: crate::models::Timestamp, b: crate::models::Timestamp) -> bool {
    a == b
}

/// `a <= b`, in time order.
pub open spec fn not_after(a: crate::models::Timestamp, b: crate::models::Timestamp) -> bool {
    if a.year != b.year {
        a.year < b.year
    } else if a.month != b.month {
        a.month < b.month
    } else if a.day != b.day {
        a.day < b.day
    } else if a.hour != b.hour {
        a.hour < b.hour
    } else if a.minute != b.minute {
        a.minute < b.minute
    } else if a.second != b.second {
        a.second < b.second
    } else {
        a.millis <= b.millis
    }
}

pub fn same_instant(a: &crate::models::Timestamp, b: &crate::models::Timestamp) -> (r: bool)
    ensures
        r == same_time(*a, *b),
{
    a.year == b.year && a.month == b.month && a.day == b.day && a.hour == b.hour && a.minute
        == b.minute && a.second == b.second && a.millis == b.millis
}

pub fn is_not_after(a: &crate::models::Timestamp, b: &crate::models::Timestamp) -> (r: bool)
    ensures
        r == not_after(*a, *b),
{
    if a.year != b.year {
        a.year < b.year
    } else if a.month != b.month {
        a.month < b.month
    } else if a.day != b.day {
        a.day < b.day
    } else if a.hour != b.hour {
        a.hour < b.hour
    } else if a.minute != b.minute {
        a.minute < b.minute
    } else if a.second != b.second {
        a.second < b.second
    } else {
        a.millis <= b.millis
    }
}

/// A retention report follows a cohort for at most this many periods.
pub const MAX_RETENTION_PERIODS: usize = 100;

/// Whether a cohort's activity is counted for the period starting at
/// `check`: periods are counted up to the end of the report, at most 100.
pub fn retention_continues(check: &crate::models::Timestamp, end: &crate::models::Timestamp, counted: usize) -> (r: bool)
    ensures
        r == (not_after(*check, *end) && counted < 100),
{
    is_not_after(check, end) && counted < MAX_RETENTION_PERIODS
}

/// A sign-up of a local account: its period (the truncated sign-up time, when
/// the database gave one) and the account.
pub struct CohortRow {
    pub period: Option<crate::models::Timestamp>,
    pub account_id: i64,
}

/// A cohort: the accounts that signed up in a period.
pub struct Cohort {
    pub period: crate::models::Timestamp,
    pub account_ids: Vec<i64>,
}

pub open spec fn cohort_view(c: Cohort) -> (crate::models::Timestamp, Seq<i64>) {
    (c.period, c.account_ids@)
}

/// The index of the cohort of `period`, if there is one yet.
pub open spec fn cohort_index(cs: Seq<(crate::models::Timestamp, Seq<i64>)>, period: crate::models::Timestamp) -> Option<int>
    decreases cs.len(),
{
    if cs.len() == 0 {
        None
    } else if same_time(cs.last().0, period) {
        Some(cs.len() - 1)
    } else {
        cohort_index(cs.drop_last(), period)
    }
}

/// The cohorts of the sign-ups, in the order their periods first occur (the
/// rows come ordered by period), each with its accounts in order; a row
/// without a period belongs to none.
pub open spec fn cohorts_of(rows: Seq<CohortRow>) -> Seq<(crate::models::Timestamp, Seq<i64>)>
    decreases rows.len(),
{
    if rows.len() == 0 {
        Seq::empty()
    } else {
        let before = cohorts_of(rows.drop_last());
        let r = rows.last();
        match r.period {
            Some(p) => match cohort_index(before, p) {
                Some(i) => before.update(i, (before[i].0, before[i].1.push(r.account_id))),
                None => before.push((p, seq![r.account_id])),
            },
            None => before,
        }
    }
}

proof fn lemma_cohort_index(cs: Seq<(crate::models::Timestamp, Seq<i64>)>, period: crate::models::Timestamp)
    ensures
        cohort_index(cs, period) matches Some(i) ==> 0 <= i < cs.len() && same_time(cs[i].0, period),
    decreases cs.len(),
{
    if cs.len() > 0 && !same_time(cs.last().0, period) {
        lemma_cohort_index(cs.drop_last(), period);
    }
}

fn find_cohort(cs: &Vec<Cohort>, period: &crate::models::Timestamp) -> (r: Option<usize>)
    ensures
        match r {
            Some(i) => cohort_index(cs@.map_values(|c: Cohort| cohort_view(c)), *period) == Some(
                i as int,
            ),
            None => cohort_index(cs@.map_values(|c: Cohort| cohort_view(c)), *period) is None,
        },
{
    let ghost all = cs@.map_values(|c: Cohort| cohort_view(c));
    let mut i: usize = cs.len();
    assert(all.take(i as int) =~= all);
    while i > 0
        invariant
            i <= cs@.len(),
            all == cs@.map_values(|c: Cohort| cohort_view(c)),
            cohort_index(all, *period) == cohort_index(all.take(i as int), *period),
        decreases i,
    {
        assert(all.take(i as int).last() == cohort_view(cs@[i - 1]));
        if same_instant(&cs[i - 1].period, period) {
            return Some(i - 1);
        }
        assert(all.take(i as int).drop_last() =~= all.take(i - 1));
        i = i - 1;
    }
    None
}

/// Groups the sign-ups into cohorts.
pub fn cohorts(rows: &Vec<CohortRow>) -> (r: Vec<Cohort>)
    ensures
        r@.map_values(|c: Cohort| cohort_view(c)) == cohorts_of(rows@),
{
    let mut out: Vec<Cohort> = Vec::new();
    let mut k: usize = 0;
    while k < rows.len()
        invariant
            k <= rows@.len(),
            out@.map_values(|c: Cohort| cohort_view(c)) == cohorts_of(rows@.take(k as int)),
        decreases rows.len() - k,
    {
        assert(rows@.take(k + 1).drop_last() =~= rows@.take(k as int));
        assert(rows@.take(k + 1).last() == rows@[k as int]);
        let ghost before = out@.map_values(|c: Cohort| cohort_view(c));
        match rows[k].period {
            Some(p) => match find_cohort(&out, &p) {
                Some(i) => {
                    proof {
                        lemma_cohort_index(before, p);
                    }
                    let mut ids = out[i].account_ids.clone();
                    ids.push(rows[k].account_id);
                    let period = out[i].period;
                    out.set(i, Cohort { period, account_ids: ids });
                    assert(out@.map_values(|c: Cohort| cohort_view(c)) =~= before.update(
                        i as int,
                        (before[i as int].0, before[i as int].1.push(rows@[k as int].account_id)),
                    ));
                },
                None => {
                    let mut ids: Vec<i64> = Vec::new();
                    ids.push(rows[k].account_id);
                    out.push(Cohort { period: p, account_ids: ids });
                    assert(out@.map_values(|c: Cohort| cohort_view(c)) =~= before.push(
                        (p, seq![rows@[k as int].account_id]),
                    ));
                },
            },
            None => {},
        }
        k = k + 1;
    }
    assert(rows@.take(rows@.len() as int) =~= rows@);
    out
}

/// A period of a cohort: when it starts, the share of the cohort that
/// posted in it (0 for an empty cohort) and how many did.
pub open spec fn retention_point_json(date: crate::models::Timestamp, active: i64, cohort_size: i64) -> crate::json::Json {
    crate::json::Json::Object(
        seq![
            ("date"@, crate::json::Json::Str(crate::models::mastodon_text(date))),
            ("rate"@, if cohort_size > 0 {
                crate::json::Json::Ratio(active as int, cohort_size as int)
            } else {
                crate::json::Json::Ratio(0, 1)
            }),
            ("value"@, crate::json::Json::Int(active as int)),
        ],
    )
}

pub fn retention_point(date: crate::models::Timestamp, active: i64, cohort_size: i64) -> (r:
    crate::json::JsonValue)
    ensures
        crate::json::json_of(r) == retention_point_json(date, active, cohort_size),
{
    let rate = if cohort_size > 0 {
        crate::json::JsonValue::Ratio(active, cohort_size)
    } else {
        crate::json::JsonValue::Ratio(0, 1)
    };
    let mut es: Vec<(String, crate::json::JsonValue)> = Vec::new();
    es.push((owned("date"), crate::json::JsonValue::Str(crate::models::mastodon_date(date))));
    es.push((owned("rate"), rate));
    es.push((owned("value"), crate::json::JsonValue::Int(active)));
    proof {
        crate::json::lemma_entries(es@);
        assert(retention_point_json(date, active, cohort_size) matches crate::json::Json::Object(x)
            && x =~= crate::json::json_entries(es@));
    }
    crate::json::JsonValue::Object(es)
}

/// A cohort as the retention report lists it.
pub open spec fn cohort_json(period: crate::models::Timestamp, frequency: Seq<char>, cohort_size: i64, points: Seq<crate::json::Json>) -> crate::json::Json {
    crate::json::Json::Object(
        seq![
            ("period"@, crate::json::Json::Str(crate::models::mastodon_text(period))),
            ("frequency"@, crate::json::Json::Str(frequency)),
            ("cohort_size"@, crate::json::Json::Int(cohort_size as int)),
            ("data"@, crate::json::Json::Array(points)),
        ],
    )
}

pub fn retention_cohort(
    period: crate::models::Timestamp,
    frequency: &str,
    cohort_size: i64,
    points: Vec<crate::json::JsonValue>,
) -> (r: crate::json::JsonValue)
    ensures
        crate::json::json_of(r) == cohort_json(
            period,
            frequency@,
            cohort_size,
            crate::json::json_items(points@),
        ),
{
    let ghost pv = points@;
    let mut es: Vec<(String, crate::json::JsonValue)> = Vec::new();
    es.push((owned("period"), crate::json::JsonValue::Str(crate::models::mastodon_date(period))));
    es.push((owned("frequency"), crate::json::json_str(frequency)));
    es.push((owned("cohort_size"), crate::json::JsonValue::Int(cohort_size)));
    es.push((owned("data"), crate::json::JsonValue::Array(points)));
    proof {
        crate::json::lemma_entries(es@);
        assert(cohort_json(period, frequency@, cohort_size, crate::json::json_items(pv)) matches crate::json::Json::Object(x)
            && x =~= crate::json::json_entries(es@));
    }
    crate::json::JsonValue::Object(es)
}

} // verus!

verus! {

// ── The admin report entity ───────────────────────────────────────────────

/// A stored report.
pub struct AdminReportRow {
    pub id: i64,
    pub account_id: i64,
    pub target_account_id: i64,
    pub comment: String,
    pub forwarded: Option<bool>,
    pub category: String,
    pub action_taken_at: Option<crate::models::Timestamp>,
    pub created_at: crate::models::Timestamp,
    pub updated_at: crate::models::Timestamp,
}

/// A report as the admin API shows it.
pub struct AdminReport {
    pub id: String,
    pub action_taken: bool,
    pub action_taken_at: Option<String>,
    pub category: String,
    pub comment: String,
    pub forwarded: bool,
    pub created_at: String,
    pub updated_at: String,
    pub account: crate::types::Account,
    pub target_account: crate::types::Account,
    pub assigned_account: Option<crate::types::Account>,
    pub action_taken_by_account: Option<crate::types::Account>,
    pub statuses: Vec<crate::json::JsonValue>,
    pub rules: Vec<crate::json::JsonValue>,
}

/// Mastodon's `Admin::Report` of a report, its reporter and the reported
/// account: acted on once an action was taken, not forwarded unless it says
/// so; no assignee, statuses or rules are shown.
pub fn admin_report(
    urls: &crate::urls::InstanceUrls,
    row: &AdminReportRow,
    reporter: &crate::models::Account,
    target: &crate::models::Account,
) -> (r: AdminReport)
    ensures
        r.id@ == crate::text::int_text(row.id as int),
        r.action_taken == row.action_taken_at is Some,
        opt_seq(r.action_taken_at) == match row.action_taken_at {
            Some(t) => Some(crate::models::mastodon_text(t)),
            None => None,
        },
        r.category@ == row.category@,
        r.comment@ == row.comment@,
        r.forwarded == (row.forwarded == Some(true)),
        r.created_at@ == crate::models::mastodon_text(row.created_at),
        r.updated_at@ == crate::models::mastodon_text(row.updated_at),
        crate::convert::account_entity(r.account, *urls, *reporter, None),
        crate::convert::account_entity(r.target_account, *urls, *target, None),
        r.assigned_account is None && r.action_taken_by_account is None,
        r.statuses@.len() == 0 && r.rules@.len() == 0,
{
    AdminReport {
        id: crate::text::int_to_string(row.id),
        action_taken: row.action_taken_at.is_some(),
        action_taken_at: match row.action_taken_at {
            Some(t) => Some(crate::models::mastodon_date(t)),
            None => None,
        },
        category: owned(row.category.as_str()),
        comment: owned(row.comment.as_str()),
        forwarded: match row.forwarded {
            Some(b) => b,
            None => false,
        },
        created_at: crate::models::mastodon_date(row.created_at),
        updated_at: crate::models::mastodon_date(row.updated_at),
        account: crate::convert::account_from_db(urls, reporter),
        target_account: crate::convert::account_from_db(urls, target),
        assigned_account: None,
        action_taken_by_account: None,
        statuses: Vec::new(),
        rules: Vec::new(),
    }
}

} // verus!
