//! Annual reports: the archetype that a year of posting earns, the data a
//! report stores, the statuses a report points at, and when a report may be
//! generated.
use vstd::prelude::*;
use crate::batch::{first_occurrences, unique_ids};
use crate::json::{as_str, jget, json_get, json_of, lemma_entries, lemma_items, Json, JsonValue};
use crate::pagination::{parse_i64, parse_i64_view};
use crate::text::{int_text, int_to_string, owned};
use crate::types;

verus! {

/// The version of the report data's shape.
pub const SCHEMA_VERSION: i32 = 1;

/// Fewer posts than this in a year make a lurker.
pub const AVERAGE_POSTS_PER_YEAR: i64 = 113;

/// An annual report as the API shows it.
pub struct AnnualReport {
    pub year: i32,
    pub data: Option<JsonValue>,
    pub schema_version: i32,
    pub share_url: Option<String>,
    pub account_id: String,
}

/// The answer of the annual report endpoints: the reports, and the accounts
/// and statuses they refer to.
pub struct AnnualReportsResponse {
    pub annual_reports: Vec<AnnualReport>,
    pub accounts: Vec<types::Account>,
    pub statuses: Vec<types::Status>,
}

/// A stored report row as the API shows it; reports are not shared by URL.
pub fn report_from_row(
    account_id: i64,
    year: i32,
    data: Option<JsonValue>,
    schema_version: i32,
) -> (r: AnnualReport)
    ensures
        r.year == year,
        r.data == data,
        r.schema_version == schema_version,
        r.share_url is None,
        r.account_id@ == int_text(account_id as int),
{
    AnnualReport { year, data, schema_version, share_url: None, account_id: int_to_string(account_id) }
}

// ── The archetype ──────────────────────────────────────────────────────────

/// A year's statuses, by kind: boosts, replies to others, posts of one's
/// own (threads included), and polls.
pub struct YearCounts {
    pub reblogs: i64,
    pub replies: i64,
    pub standalone: i64,
    pub polls: i64,
}

/// `x / 10` rounded toward zero, as integer division on `i64` does.
pub open spec fn tenth(x: int) -> int {
    if x >= 0 {
        x / 10
    } else {
        -((-x) / 10)
    }
}

/// The archetype of a year: a lurker below the average number of posts;
/// else a booster, pollster or replier when that kind dominates; else an
/// oracle.
pub open spec fn archetype_name(c: YearCounts) -> Seq<char> {
    if c.reblogs + c.replies + c.standalone < 113 {
        "lurker"@
    } else if c.reblogs > c.standalone * 2 {
        "booster"@
    } else if c.polls > tenth(c.standalone as int) {
        "pollster"@
    } else if c.replies > c.standalone * 2 {
        "replier"@
    } else {
        "oracle"@
    }
}

/// The sums and products the archetype is decided by fit in an `i64`.
pub open spec fn counts_in_range(c: YearCounts) -> bool {
    &&& i64::MIN <= c.reblogs + c.replies <= i64::MAX
    &&& i64::MIN <= c.reblogs + c.replies + c.standalone <= i64::MAX
    &&& c.reblogs + c.replies + c.standalone >= 113 ==> i64::MIN <= c.standalone * 2 <= i64::MAX
}

pub fn archetype(c: &YearCounts) -> (r: &'static str)
    requires
        counts_in_range(*c),
    ensures
        r@ == archetype_name(*c),
{
    let total = c.reblogs + c.replies + c.standalone;
    if total < AVERAGE_POSTS_PER_YEAR {
        "lurker"
    } else if c.reblogs > c.standalone * 2 {
        "booster"
    } else if c.polls > c.standalone / 10 {
        "pollster"
    } else if c.replies > c.standalone * 2 {
        "replier"
    } else {
        "oracle"
    }
}

// ── The report's data ──────────────────────────────────────────────────────

/// A status id as the report names it: its decimal text, or `null`.
pub open spec fn id_json(id: Option<i64>) -> Json {
    match id {
        Some(i) => Json::Str(int_text(i as int)),
        None => Json::Null,
    }
}

/// A hashtag and how often it was used, as the report lists it.
pub open spec fn hashtag_json(name: Seq<char>, count: Option<i64>) -> Json {
    Json::Object(
        seq![
            ("name"@, Json::Str(name)),
            ("count"@, Json::Int(
                match count {
                    Some(c) => c as int,
                    None => 0,
                },
            )),
        ],
    )
}

/// The most used hashtag as the report lists it.
pub open spec fn hashtags_json(top: Option<(Seq<char>, Option<i64>)>) -> Seq<Json> {
    match top {
        Some(t) => seq![hashtag_json(t.0, t.1)],
        None => Seq::empty(),
    }
}

/// The statuses a year is remembered by: the most boosted, the most liked
/// of the others, and the most replied to of the rest.
pub struct TopStatuses {
    pub by_reblogs: Option<i64>,
    pub by_favourites: Option<i64>,
    pub by_replies: Option<i64>,
}

/// The data of a report.
pub open spec fn report_json(
    c: YearCounts,
    top: TopStatuses,
    statuses: i64,
    followers: i64,
    hashtag: Option<(Seq<char>, Option<i64>)>,
) -> Json {
    Json::Object(
        seq![
            ("archetype"@, Json::Str(archetype_name(c))),
            ("top_statuses"@, Json::Object(
                seq![
                    ("by_reblogs"@, id_json(top.by_reblogs)),
                    ("by_favourites"@, id_json(top.by_favourites)),
                    ("by_replies"@, id_json(top.by_replies)),
                ],
            )),
            ("time_series"@, Json::Array(
                seq![
                    Json::Object(
                        seq![
                            ("month"@, Json::Int(12)),
                            ("statuses"@, Json::Int(statuses as int)),
                            ("followers"@, Json::Int(followers as int)),
                        ],
                    ),
                ],
            )),
            ("top_hashtags"@, Json::Array(hashtags_json(hashtag))),
        ],
    )
}

fn id_value(id: Option<i64>) -> (r: JsonValue)
    ensures
        json_of(r) == id_json(id),
{
    match id {
        Some(i) => JsonValue::Str(int_to_string(i)),
        None => JsonValue::Null,
    }
}

fn hashtags_value(top: &Option<(String, Option<i64>)>) -> (r: JsonValue)
    ensures
        json_of(r) == Json::Array(
            hashtags_json(
                match top {
                    Some(t) => Some((t.0@, t.1)),
                    None => None,
                },
            ),
        ),
{
    let mut items: Vec<JsonValue> = Vec::new();
    match top {
        Some((name, count)) => {
            let mut es: Vec<(String, JsonValue)> = Vec::new();
            es.push((owned("name"), JsonValue::Str(owned(name.as_str()))));
            let n: i64 = match count {
                Some(c) => *c,
                None => 0,
            };
            es.push((owned("count"), JsonValue::Int(n)));
            proof {
                lemma_entries(es@);
                assert(crate::json::json_entries(es@) =~= seq![
                    ("name"@, Json::Str(name@)),
                    ("count"@, Json::Int(n as int)),
                ]);
            }
            let ghost ev = es@;
            let obj = JsonValue::Object(es);
            assert(json_of(obj) == Json::Object(crate::json::json_entries(ev)));
            items.push(obj);
            proof {
                lemma_items(items@);
                assert(items@[0] == obj);
                let inner = seq![("name"@, Json::Str(name@)), ("count"@, Json::Int(n as int))];
                assert(json_of(obj) == Json::Object(inner));
                let hj = hashtag_json(name@, *count);
                assert(hj matches Json::Object(es) && es =~= inner);
                assert(json_of(obj) == hj);
                assert(crate::json::json_items(items@) =~= hashtags_json(Some((name@, *count))));
            }
        },
        None => {
            proof {
                assert(crate::json::json_items(items@) =~= Seq::<Json>::empty());
            }
        },
    }
    JsonValue::Array(items)
}

/// The data of a report on a year with these counts and these statuses.
pub fn report_data(
    c: &YearCounts,
    top: &TopStatuses,
    statuses: i64,
    followers: i64,
    hashtag: &Option<(String, Option<i64>)>,
) -> (r: JsonValue)
    requires
        counts_in_range(*c),
    ensures
        json_of(r) == report_json(
            *c,
            *top,
            statuses,
            followers,
            match hashtag {
                Some(t) => Some((t.0@, t.1)),
                None => None,
            },
        ),
{
    let mut tops: Vec<(String, JsonValue)> = Vec::new();
    tops.push((owned("by_reblogs"), id_value(top.by_reblogs)));
    tops.push((owned("by_favourites"), id_value(top.by_favourites)));
    tops.push((owned("by_replies"), id_value(top.by_replies)));
    let mut month: Vec<(String, JsonValue)> = Vec::new();
    month.push((owned("month"), JsonValue::Int(12)));
    month.push((owned("statuses"), JsonValue::Int(statuses)));
    month.push((owned("followers"), JsonValue::Int(followers)));
    let mut series: Vec<JsonValue> = Vec::new();
    let ghost tops_v = tops@;
    let ghost month_v = month@;
    series.push(JsonValue::Object(month));
    let mut es: Vec<(String, JsonValue)> = Vec::new();
    es.push((owned("archetype"), JsonValue::Str(owned(archetype(c)))));
    es.push((owned("top_statuses"), JsonValue::Object(tops)));
    es.push((owned("time_series"), JsonValue::Array(series)));
    es.push((owned("top_hashtags"), hashtags_value(hashtag)));
    proof {
        lemma_entries(tops_v);
        lemma_entries(month_v);
        lemma_items(series@);
        lemma_entries(es@);
        assert(crate::json::json_entries(tops_v) =~= seq![
            ("by_reblogs"@, id_json(top.by_reblogs)),
            ("by_favourites"@, id_json(top.by_favourites)),
            ("by_replies"@, id_json(top.by_replies)),
        ]);
        assert(crate::json::json_entries(month_v) =~= seq![
            ("month"@, Json::Int(12)),
            ("statuses"@, Json::Int(statuses as int)),
            ("followers"@, Json::Int(followers as int)),
        ]);
        assert(crate::json::json_items(series@) =~= seq![
            Json::Object(
                seq![
                    ("month"@, Json::Int(12)),
                    ("statuses"@, Json::Int(statuses as int)),
                    ("followers"@, Json::Int(followers as int)),
                ],
            ),
        ]);
    }
    let r = JsonValue::Object(es);
    proof {
        let hv = match hashtag {
            Some(t) => Some((t.0@, t.1)),
            None => None,
        };
        assert(crate::json::json_entries(es@) =~= seq![
            ("archetype"@, Json::Str(archetype_name(*c))),
            ("top_statuses"@, Json::Object(
                seq![
                    ("by_reblogs"@, id_json(top.by_reblogs)),
                    ("by_favourites"@, id_json(top.by_favourites)),
                    ("by_replies"@, id_json(top.by_replies)),
                ],
            )),
            ("time_series"@, Json::Array(
                seq![
                    Json::Object(
                        seq![
                            ("month"@, Json::Int(12)),
                            ("statuses"@, Json::Int(statuses as int)),
                            ("followers"@, Json::Int(followers as int)),
                        ],
                    ),
                ],
            )),
            ("top_hashtags"@, Json::Array(hashtags_json(hv))),
        ]);
    }
    r
}

// ── The statuses a report points at ────────────────────────────────────────

/// `data["top_statuses"][key]`, when it is the text of an `i64`.
pub open spec fn top_status_id(data: Json, key: Seq<char>) -> Option<int> {
    match jget(data, "top_statuses"@) {
        Some(top) => match as_str(jget(top, key)) {
            Some(s) => parse_i64_view(s),
            None => None,
        },
        None => None,
    }
}

pub open spec fn id_seq(o: Option<int>) -> Seq<i64> {
    match o {
        Some(v) => seq![v as i64],
        None => Seq::empty(),
    }
}

/// The ids a report's data names, most boosted first.
pub open spec fn named_ids(data: Option<JsonValue>) -> Seq<i64> {
    match data {
        Some(d) => id_seq(top_status_id(json_of(d), "by_reblogs"@)) + id_seq(
            top_status_id(json_of(d), "by_favourites"@),
        ) + id_seq(top_status_id(json_of(d), "by_replies"@)),
        None => Seq::empty(),
    }
}

/// The ids all the reports name, report by report.
pub open spec fn reports_ids(reports: Seq<AnnualReport>) -> Seq<i64>
    decreases reports.len(),
{
    if reports.len() == 0 {
        Seq::empty()
    } else {
        reports_ids(reports.drop_last()) + named_ids(reports.last().data)
    }
}

fn top_id(data: &JsonValue, key: &str) -> (r: Option<i64>)
    ensures
        match r {
            Some(v) => top_status_id(json_of(*data), key@) == Some(v as int),
            None => top_status_id(json_of(*data), key@) is None,
        },
{
    match json_get(data, "top_statuses") {
        Some(top) => match json_get(top, key) {
            Some(JsonValue::Str(s)) => parse_i64(s.as_str()),
            _ => None,
        },
        None => None,
    }
}

fn push_opt(out: &mut Vec<i64>, o: Option<i64>)
    ensures
        final(out)@ == old(out)@ + match o {
            Some(v) => seq![v],
            None => Seq::<i64>::empty(),
        },
{
    match o {
        Some(v) => {
            out.push(v);
        },
        None => {},
    }
}

/// The statuses the reports point at, each once, in the order the reports
/// name them.
pub fn report_status_ids(reports: &Vec<AnnualReport>) -> (r: Vec<i64>)
    ensures
        r@ == first_occurrences(reports_ids(reports@)),
{
    let mut named: Vec<i64> = Vec::new();
    let mut i: usize = 0;
    while i < reports.len()
        invariant
            i <= reports@.len(),
            named@ == reports_ids(reports@.take(i as int)),
        decreases reports.len() - i,
    {
        assert(reports@.take(i + 1).drop_last() =~= reports@.take(i as int));
        assert(reports@.take(i + 1).last() == reports@[i as int]);
        match &reports[i].data {
            Some(d) => {
                push_opt(&mut named, top_id(d, "by_reblogs"));
                push_opt(&mut named, top_id(d, "by_favourites"));
                push_opt(&mut named, top_id(d, "by_replies"));
            },
            None => {},
        }
        proof {
            assert(named@ =~= reports_ids(reports@.take(i as int)) + named_ids(reports@[i as int].data));
        }
        i = i + 1;
    }
    assert(reports@.take(reports@.len() as int) =~= reports@);
    unique_ids(&named)
}

// ── Generating ─────────────────────────────────────────────────────────────

/// What a request to generate a year's report comes to.
pub enum Generation {
    /// 422 with this message.
    Refused(&'static str),
    /// 202: the report is there already.
    Done,
    /// 202 once the report is generated and stored.
    Generate,
}

/// Reports are generated for completed years only, once, and for a year in
/// which the account posted. `existing` and `eligible` are looked up in that
/// order, each only when the answer is still open.
pub fn generation(year: i32, current_year: i32, existing: bool, eligible: bool) -> (r: Generation)
    ensures
        year >= current_year ==> (r matches Generation::Refused(m) && m@
            == "Report can only be generated for completed years"@),
        year < current_year && existing ==> r is Done,
        year < current_year && !existing && !eligible ==> (r matches Generation::Refused(m) && m@
            == "Not eligible for this year"@),
        year < current_year && !existing && eligible ==> r is Generate,
{
    if year >= current_year {
        Generation::Refused("Report can only be generated for completed years")
    } else if existing {
        Generation::Done
    } else if !eligible {
        Generation::Refused("Not eligible for this year")
    } else {
        Generation::Generate
    }
}

/// The state of a year's report: `available` once its data is stored,
/// `generating` while a row has none, and otherwise `eligible` for a
/// completed year the account posted in, else `ineligible`.
pub fn report_state(stored: Option<bool>, year: i32, current_year: i32, eligible: bool) -> (r:
    &'static str)
    ensures
        r@ == match stored {
            Some(true) => "available"@,
            Some(false) => "generating"@,
            None => if year < current_year && eligible {
                "eligible"@
            } else {
                "ineligible"@
            },
        },
{
    match stored {
        Some(true) => "available",
        Some(false) => "generating",
        None => if year < current_year && eligible {
            "eligible"
        } else {
            "ineligible"
        },
    }
}

} // verus!
