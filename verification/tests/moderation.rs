use eunha::admin::{
    account_action_of, action_report_id, admin_accounts_limit, admin_domain_digest,
    admin_reports_limit, canonical_email_hash, domain_block_flags, domain_block_severity,
    domain_severity_str, ip_block_severity, retention_frequency, role_for, status_filter_selects,
    updated_tag_flags, AccountAction, AccountActionForm, AdminAccountState, AdminReportsParams,
    CreateCanonicalEmailBlockForm, CreateDomainBlockForm, CreateIpBlockForm, RetentionRequest,
    UpdateAdminTagForm,
};
use eunha::calendar::advance_period;
use eunha::error::ApiError;
use eunha::models::Timestamp;

fn ts(year: i32, month: u32, day: u32) -> Timestamp {
    Timestamp { year, month, day, hour: 13, minute: 14, second: 15, millis: 160 }
}

fn ymd(t: &Timestamp) -> (i32, u32, u32, u32, u32, u32, u32) {
    (t.year, t.month, t.day, t.hour, t.minute, t.second, t.millis)
}

fn action(t: Option<&str>, report: Option<&str>) -> AccountActionForm {
    AccountActionForm {
        action_type: t.map(|s| s.to_string()),
        text: None,
        report_id: report.map(|s| s.to_string()),
        warning_preset_id: None,
        send_email_notification: None,
    }
}

fn domain_form(severity: Option<&str>) -> CreateDomainBlockForm {
    CreateDomainBlockForm {
        domain: "bad.example".into(),
        severity: severity.map(|s| s.to_string()),
        reject_media: Some(true),
        reject_reports: None,
        private_comment: None,
        public_comment: None,
        obfuscate: Some(false),
    }
}

#[test]
fn built_in_roles() {
    let a = role_for("admin");
    assert_eq!((a.id.as_str(), a.name.as_str(), a.position, a.permissions, a.highlighted), ("1", "Admin", 100, 2031612, true));
    let m = role_for("moderator");
    assert_eq!((m.id.as_str(), m.name.as_str(), m.position, m.permissions), ("2", "Moderator", 10, 1049884));
    let u = role_for("user");
    assert_eq!((u.id.as_str(), u.name.as_str(), u.color.as_str(), u.permissions, u.highlighted), ("0", "", "", 0, false));
    assert_eq!(u.created_at, "2022-09-08T22:48:07.983Z");
}

#[test]
fn account_lists_filter_by_status() {
    let suspended = AdminAccountState { suspended: true, silenced: false, sensitized: false, pending: false };
    let fresh = AdminAccountState { suspended: false, silenced: false, sensitized: false, pending: true };
    let fine = AdminAccountState { suspended: false, silenced: false, sensitized: false, pending: false };
    assert!(status_filter_selects(&Some("disabled".into()), &suspended));
    assert!(!status_filter_selects(&Some("active".into()), &suspended));
    assert!(status_filter_selects(&Some("pending".into()), &fresh));
    assert!(!status_filter_selects(&Some("active".into()), &fresh));
    assert!(status_filter_selects(&Some("active".into()), &fine));
    assert!(!status_filter_selects(&Some("bogus".into()), &fine));
    assert!(status_filter_selects(&None, &suspended));
    assert_eq!(admin_accounts_limit(None), 40);
    assert_eq!(admin_accounts_limit(Some(0)), 1);
    assert_eq!(admin_accounts_limit(Some(200)), 80);
    let p = AdminReportsParams { resolved: None, limit: Some(100), max_id: None, min_id: None, since_id: None };
    assert_eq!(admin_reports_limit(&p), 40);
}

#[test]
fn account_actions() {
    assert!(matches!(account_action_of(&action(Some("suspend"), None)), AccountAction::Suspend { delete_statuses: true }));
    assert!(matches!(account_action_of(&action(Some("disable"), None)), AccountAction::Suspend { delete_statuses: false }));
    assert!(matches!(account_action_of(&action(Some("silence"), None)), AccountAction::Silence));
    assert!(matches!(account_action_of(&action(Some("sensitive"), None)), AccountAction::Sensitize));
    assert!(matches!(account_action_of(&action(Some("none"), None)), AccountAction::Nothing));
    assert!(matches!(account_action_of(&action(None, None)), AccountAction::Nothing));
    assert_eq!(action_report_id(&action(None, Some("44"))), Some(44));
    assert_eq!(action_report_id(&action(None, Some("x"))), None);
}

#[test]
fn block_severities() {
    assert_eq!(domain_block_severity(&domain_form(None)), 1);
    assert_eq!(domain_block_severity(&domain_form(Some("suspend"))), 2);
    assert_eq!(domain_block_severity(&domain_form(Some("noop"))), 0);
    assert_eq!(domain_severity_str(2), "suspend");
    assert_eq!(domain_severity_str(9), "silence");
    assert_eq!(domain_block_flags(&domain_form(None)), (true, false, false));
    let ip = |s: Option<&str>| CreateIpBlockForm { ip: "10.0.0.1".into(), severity: s.map(|x| x.to_string()), comment: None, expires_in: None };
    assert_eq!(ip_block_severity(&ip(None)), 2);
    assert_eq!(ip_block_severity(&ip(Some("block"))), 3);
    assert_eq!(ip_block_severity(&ip(Some("sign_up_requires_approval"))), 1);
    assert_eq!(ip_block_severity(&ip(Some("whatever"))), 0);
}

#[test]
fn canonical_email_hashes() {
    let f = CreateCanonicalEmailBlockForm { email: Some("  Alice@Example.COM ".into()), canonical_email_hash: None };
    assert_eq!(
        canonical_email_hash(&f).unwrap(),
        "ff8d9819fc0e12bf0d24892e45987e249a28dce836a85cad60e28eaaa8c6d976"
    );
    let f = CreateCanonicalEmailBlockForm { email: Some("a@b".into()), canonical_email_hash: Some("abc".into()) };
    assert_eq!(canonical_email_hash(&f).unwrap(), "abc");
    let f = CreateCanonicalEmailBlockForm { email: None, canonical_email_hash: None };
    match canonical_email_hash(&f) {
        Err(ApiError::Unprocessable(m)) => assert_eq!(m, "email or canonical_email_hash required"),
        other => panic!("unexpected {:?}", other),
    }
    assert_eq!(
        admin_domain_digest("example.com"),
        "a379a6f6eeafb9a55e378c118034e2751e682fab9f2d30ab13d2125586ce1947"
    );
}

#[test]
fn tag_flag_updates() {
    let f = UpdateAdminTagForm { trendable: Some(false), usable: None, listable: Some(true) };
    assert_eq!(updated_tag_flags(&f, true, true, false), (false, true, true));
}

#[test]
fn retention_periods() {
    let r = |f: Option<&str>| RetentionRequest { start_at: None, end_at: None, frequency: f.map(|s| s.to_string()) };
    assert_eq!(retention_frequency(&r(None)), "day");
    assert_eq!(retention_frequency(&r(Some("week"))), "week");
    assert_eq!(retention_frequency(&r(Some("month"))), "month");
    assert_eq!(retention_frequency(&r(Some("year"))), "day");

    assert_eq!(ymd(&advance_period(ts(2024, 2, 28), "day")), (2024, 2, 29, 13, 14, 15, 160));
    assert_eq!(ymd(&advance_period(ts(2023, 12, 30), "week")), (2024, 1, 6, 13, 14, 15, 160));
    assert_eq!(ymd(&advance_period(ts(2024, 12, 15), "month")), (2025, 1, 15, 13, 14, 15, 160));
    // 31 January has no counterpart in February: 30 days later instead.
    assert_eq!(ymd(&advance_period(ts(2024, 1, 31), "month")), (2024, 3, 1, 13, 14, 15, 160));
    assert_eq!(ymd(&advance_period(ts(2024, 2, 29), "month")), (2024, 3, 29, 13, 14, 15, 160));
    assert_eq!(ymd(&advance_period(ts(2024, 3, 31), "month")), (2024, 4, 30, 13, 14, 15, 160));
    assert_eq!(ymd(&advance_period(ts(2023, 12, 31), "day")), (2024, 1, 1, 13, 14, 15, 160));
}
