use eunha::notifications::{bool_to_policy, policy_to_bool};
use eunha::pagination::{
    link_header, newest_first, non_pagination_query, parse_i64, parse_id, query_pieces, OffsetParams, PaginationParams,
};
use eunha::text::{eq_ignore_ascii_case, int_to_string, trim, trim_start_char};

fn paging(limit: Option<&str>) -> PaginationParams {
    PaginationParams {
        max_id: None,
        since_id: None,
        min_id: None,
        limit: limit.map(|s| s.to_string()),
    }
}

#[test]
fn rendered_ids_parse_back() {
    for i in [0i64, 7, -7, 1234567890, i64::MAX, i64::MIN] {
        assert_eq!(parse_i64(&int_to_string(i)), Some(i));
    }
    assert_eq!(int_to_string(-42), "-42");
}

#[test]
fn parse_i64_follows_std() {
    assert_eq!(parse_i64("+15"), Some(15));
    assert_eq!(parse_i64(""), None);
    assert_eq!(parse_i64("-"), None);
    assert_eq!(parse_i64("12a"), None);
    assert_eq!(parse_i64("9223372036854775808"), None);
    assert_eq!(parse_i64("-9223372036854775808"), Some(i64::MIN));
}

#[test]
fn trim_is_idempotent_and_unicode_aware() {
    assert_eq!(trim("  hi \n"), "hi");
    assert_eq!(trim("\u{3000}wide\u{a0}"), "wide");
    assert_eq!(trim(&trim(" x ")), trim(" x "));
    assert_eq!(trim("   "), "");
    assert_eq!(trim_start_char("##tag#", '#'), "tag#");
}

#[test]
fn ascii_case_comparison() {
    assert!(eq_ignore_ascii_case("Example.COM", "example.com"));
    assert!(!eq_ignore_ascii_case("example.com", "example.org"));
    assert!(!eq_ignore_ascii_case("É", "é"));
}

#[test]
fn limits_default_and_clamp() {
    assert_eq!(paging(None).limit_clamped(40, 80), 40);
    assert_eq!(paging(Some("500")).limit_clamped(40, 80), 80);
    assert_eq!(paging(Some("0")).limit_clamped(40, 80), 1);
    assert_eq!(paging(Some("abc")).limit_clamped(40, 80), 40);
    assert_eq!(paging(Some("0")).list_members_limit(), None);
    assert_eq!(paging(Some("10")).list_members_limit(), Some(10));
    let o = OffsetParams { offset: Some(-5), limit: Some(1000) };
    assert_eq!(o.offset(), 0);
    assert_eq!(o.limit(), 100);
    let d = OffsetParams { offset: None, limit: None };
    assert_eq!(d.limit(), 40);
}

#[test]
fn paging_keys_are_stripped() {
    assert_eq!(
        non_pagination_query(Some("max_id=5&only_media=true&limit=20&&since_id=1&min_id=2&tagged=cat")),
        "only_media=true&tagged=cat"
    );
    assert_eq!(non_pagination_query(None), "");
    assert_eq!(non_pagination_query(Some("limit=3")), "");
}

#[test]
fn query_pieces_split_like_std() {
    assert_eq!(query_pieces("a=1&&b"), vec!["a=1".to_string(), "".to_string(), "b".to_string()]);
    assert_eq!(query_pieces(""), vec!["".to_string()]);
}

#[test]
fn link_header_points_both_ways() {
    let h = link_header(Some("example.social"), None, "/api/v1/timelines/home", "local=true", "30", "10");
    assert_eq!(
        h,
        "<https://example.social/api/v1/timelines/home?local=true&max_id=10>; rel=\"next\", <https://example.social/api/v1/timelines/home?local=true&min_id=30>; rel=\"prev\""
    );
    let h = link_header(None, Some("http"), "/x", "", "2", "1");
    assert_eq!(h, "<http://localhost/x?max_id=1>; rel=\"next\", <http://localhost/x?min_id=2>; rel=\"prev\"");
}

#[test]
fn policy_names_round_trip() {
    assert_eq!(bool_to_policy(true), "filter");
    assert_eq!(bool_to_policy(false), "accept");
    for b in [true, false] {
        assert_eq!(policy_to_bool(&bool_to_policy(b)), b);
    }
    assert!(policy_to_bool("drop"));
    assert!(!policy_to_bool("anything"));
}

#[test]
fn ids_from_query_parameters() {
    assert_eq!(parse_id(&Some("110".into())), Some(110));
    assert_eq!(parse_id(&Some("-3".into())), Some(-3));
    assert_eq!(parse_id(&Some("12a".into())), None);
    assert_eq!(parse_id(&Some(String::new())), None);
    assert_eq!(parse_id(&None), None);
    assert_eq!(parse_id(&Some(int_to_string(i64::MAX))), Some(i64::MAX));
}

#[test]
fn pages_are_served_newest_first() {
    assert_eq!(newest_first(vec![11, 12, 13], true), vec![13, 12, 11]);
    assert_eq!(newest_first(vec![13, 12, 11], false), vec![13, 12, 11]);
    assert_eq!(newest_first(Vec::<i64>::new(), true), Vec::<i64>::new());
}
