//! What an instance publishes about itself: its domain blocks (each with the
//! digest of the domain, and the domain obfuscated when the block says so),
//! the peer search pattern, and its terms of service by date.
use vstd::prelude::*;
use vstd::utf8::{encode_scalar, encode_utf8, is_char_boundary};
use crate::digest::{sha256_hex, sha256_hex_view};
use crate::error::ApiError;
use crate::models::{date_text, format_date, Timestamp};
use crate::json::{as_str, jget, json_get, json_of, json_str, lemma_entries, lemma_items, Json, JsonValue};
use crate::text::{
    char_count, chars_of, decimal, int_text, int_to_string, owned, push_char, push_decimal, push_str,
    split_once, split_once_view, trim, trimmed,
};

verus! {

broadcast use vstd::utf8::encode_utf8_valid_utf8;

/// `encode_utf8` of a concatenation is the concatenation of the encodings.
pub proof fn lemma_encode_concat(a: Seq<char>, b: Seq<char>)
    ensures
        encode_utf8(a + b) == encode_utf8(a) + encode_utf8(b),
    decreases a.len(),
{
    if a.len() > 0 {
        assert((a + b)[0] == a[0]);
        assert((a + b).drop_first() =~= a.drop_first() + b);
        lemma_encode_concat(a.drop_first(), b);
        assert(encode_utf8(a + b) =~= encode_utf8(a) + encode_utf8(b));
    } else {
        assert(a + b =~= b);
        assert(encode_utf8(a) + encode_utf8(b) =~= encode_utf8(b));
    }
}

/// An ASCII character encodes as its own byte.
proof fn lemma_encode_ascii(c: char)
    requires
        (c as u32) < 128,
    ensures
        encode_utf8(seq![c]) == seq![((c as u32) as u8)],
{
    let u = c as u32;
    assert(seq![c].drop_first() =~= Seq::<char>::empty());
    assert(seq![c][0] == c);
    assert(((u & 0x7f) as u8) == (u as u8)) by (bit_vector)
        requires
            u < 128,
    ;
    assert(encode_utf8(Seq::<char>::empty()) =~= Seq::<u8>::empty());
    assert(encode_utf8(seq![c]) == encode_scalar(u) + encode_utf8(Seq::<char>::empty()));
    assert(encode_utf8(seq![c]) =~= seq![((c as u32) as u8)]);
}

/// `n` stars.
pub open spec fn stars(n: nat) -> Seq<char> {
    Seq::new(n, |i: int| '*')
}

/// Whether obfuscating `domain` slices its first label at a character
/// boundary (the byte third of a label longer than two bytes). Where it does
/// not, the slice would panic.
pub open spec fn obfuscation_defined(domain: Seq<char>) -> bool {
    match split_once_view(domain, seq!['.']) {
        Some((label, _)) => {
            let n = encode_utf8(label).len();
            n > 2 ==> is_char_boundary(encode_utf8(label), (n / 3) as int)
        },
        None => true,
    }
}

/// The UTF-8 bytes of an obfuscated domain. A domain without a dot stays as
/// it is; else its first label, when at most two bytes long, becomes `*`, and
/// otherwise keeps its first third (in bytes) and has the rest starred, one
/// star per byte.
pub open spec fn obfuscated_bytes(domain: Seq<char>) -> Seq<u8> {
    match split_once_view(domain, seq!['.']) {
        Some((label, rest)) => {
            let b = encode_utf8(label);
            let n = b.len();
            if n <= 2 {
                seq![42u8, 46u8] + encode_utf8(rest)
            } else {
                b.subrange(0, (n / 3) as int) + Seq::new((n - n / 3) as nat, |i: int| 42u8) + seq![
                    46u8,
                ] + encode_utf8(rest)
            }
        },
        None => encode_utf8(domain),
    }
}

proof fn lemma_encode_stars(n: nat)
    ensures
        encode_utf8(stars(n)) == Seq::new(n, |i: int| 42u8),
    decreases n,
{
    if n > 0 {
        let m = (n - 1) as nat;
        assert(stars(n) =~= stars(m) + seq!['*']);
        lemma_encode_stars(m);
        lemma_encode_concat(stars(m), seq!['*']);
        lemma_encode_ascii('*');
        assert(Seq::new(n, |i: int| 42u8) =~= Seq::new(m, |i: int| 42u8) + seq![42u8]);
    } else {
        assert(stars(n) =~= Seq::<char>::empty());
        assert(Seq::new(n, |i: int| 42u8) =~= Seq::<u8>::empty());
    }
}

/// Obfuscates a blocked domain for publication (`*.example`, `exa****.org`).
pub fn obfuscate_domain(domain: &str) -> (r: String)
    requires
        obfuscation_defined(domain@),
        encode_utf8(domain@).len() <= usize::MAX,
    ensures
        encode_utf8(r@) == obfuscated_bytes(domain@),
{
    proof {
        reveal_strlit(".");
        assert("."@ =~= seq!['.']);
    }
    match split_once(domain, ".") {
        None => owned(domain),
        Some((label, rest)) => {
            proof {
                crate::text::lemma_find_from(domain@, seq!['.'], 0);
                assert(domain@ =~= label@ + (seq!['.'] + rest@));
                lemma_encode_concat(label@, seq!['.'] + rest@);
            }
            let n = label.as_str().len();
            let mut r = String::new();
            if n <= 2 {
                push_char(&mut r, '*');
                push_char(&mut r, '.');
                push_str(&mut r, rest.as_str());
                proof {
                    assert(r@ =~= seq!['*'] + seq!['.'] + rest@);
                    lemma_encode_concat(seq!['*'] + seq!['.'], rest@);
                    lemma_encode_concat(seq!['*'], seq!['.']);
                    lemma_encode_ascii('*');
                    lemma_encode_ascii('.');
                    assert(seq![42u8] + seq![46u8] =~= seq![42u8, 46u8]);
                }
            } else {
                let keep = n / 3;
                let (head, _tail) = label.as_str().split_at(keep);
                push_str(&mut r, head);
                let mut i: usize = keep;
                while i < n
                    invariant
                        keep <= i <= n,
                        r@ == head@ + stars((i - keep) as nat),
                    decreases n - i,
                {
                    push_char(&mut r, '*');
                    assert(stars((i + 1 - keep) as nat) =~= stars((i - keep) as nat) + seq!['*']);
                    i = i + 1;
                }
                push_char(&mut r, '.');
                push_str(&mut r, rest.as_str());
                proof {
                    let st = stars((n - keep) as nat);
                    assert(r@ =~= head@ + st + seq!['.'] + rest@);
                    lemma_encode_concat(head@ + st + seq!['.'], rest@);
                    lemma_encode_concat(head@ + st, seq!['.']);
                    lemma_encode_concat(head@, st);
                    lemma_encode_stars((n - keep) as nat);
                    lemma_encode_ascii('.');
                }
            }
            r
        },
    }
}

/// The digest a domain block is published with: the hex SHA-256 of the
/// domain.
pub fn domain_digest(domain: &str) -> (r: String)
    ensures
        r@ == sha256_hex_view(domain@),
{
    sha256_hex(domain)
}

/// A domain block as `GET /api/v1/instance/domain_blocks` lists it.
pub struct PublicDomainBlock {
    pub domain: String,
    pub digest: String,
    pub severity: String,
    pub comment: String,
}

/// A stored block as the public sees it: the domain obfuscated when the
/// block says so, the digest of the real domain, and the public comment
/// (empty when there is none).
pub fn public_domain_block(
    domain: &str,
    severity: &str,
    public_comment: &Option<String>,
    obfuscate: bool,
) -> (r: PublicDomainBlock)
    requires
        obfuscate ==> obfuscation_defined(domain@),
        encode_utf8(domain@).len() <= usize::MAX,
    ensures
        obfuscate ==> encode_utf8(r.domain@) == obfuscated_bytes(domain@),
        !obfuscate ==> r.domain@ == domain@,
        r.digest@ == sha256_hex_view(domain@),
        r.severity@ == severity@,
        r.comment@ == match public_comment {
            Some(c) => c@,
            None => Seq::empty(),
        },
{
    let digest = domain_digest(domain);
    let shown = if obfuscate {
        obfuscate_domain(domain)
    } else {
        owned(domain)
    };
    let comment = match public_comment {
        Some(c) => owned(c.as_str()),
        None => String::new(),
    };
    PublicDomainBlock { domain: shown, digest, severity: owned(severity), comment }
}

/// The query of `GET /api/v1/peers/search`.
pub struct PeersSearchParams {
    pub q: Option<String>,
}

/// The `ILIKE` pattern peers are searched with: the trimmed query between
/// `%`s.
pub fn peers_pattern(p: &PeersSearchParams) -> (r: String)
    ensures
        r@ == seq!['%'] + trimmed(
            match p.q {
                Some(q) => q@,
                None => Seq::empty(),
            },
        ) + seq!['%'],
{
    let q = match &p.q {
        Some(q) => trim(q.as_str()),
        None => {
            let t = trim("");
            proof {
                reveal_strlit("");
            }
            t
        },
    };
    let mut r = String::new();
    push_char(&mut r, '%');
    push_str(&mut r, q.as_str());
    push_char(&mut r, '%');
    r
}

/// The terms of service in force from a date.
pub struct TermsOfServiceByDate {
    pub effective_date: String,
    pub effective: bool,
    pub content: String,
    pub succeeded_by: Option<String>,
}

/// Whether a path segment looks like a date: ten characters, each a digit
/// or `-`.
pub open spec fn date_like(d: Seq<char>) -> bool {
    d.len() == 10 && forall|i: int| 0 <= i < 10 ==> (('0' <= #[trigger] d[i] && d[i] <= '9') || d[i]
        == '-')
}

/// `GET /api/v1/instance/terms_of_service`: the one version there is, dated
/// by the instance's last update; none when the instance has no terms.
pub fn terms_of_service(terms: &str, updated_at: &Timestamp) -> (r: Vec<TermsOfServiceByDate>)
    ensures
        terms@.len() == 0 ==> r@.len() == 0,
        terms@.len() > 0 ==> r@.len() == 1 && r@[0].effective_date@ == date_text(*updated_at)
            && r@[0].effective && r@[0].content@ == terms@ && r@[0].succeeded_by is None,
{
    let mut v: Vec<TermsOfServiceByDate> = Vec::new();
    if char_count(terms) > 0 {
        v.push(
            TermsOfServiceByDate {
                effective_date: format_date(updated_at),
                effective: true,
                content: owned(terms),
                succeeded_by: None,
            },
        );
    }
    v
}

/// `GET /api/v1/instance/terms_of_service/{date}`: the terms, when there are
/// any and `date` is the day they took effect; else not found.
pub fn terms_of_service_by_date(terms: &str, updated_at: &Timestamp, date: &str) -> (r: Result<
    TermsOfServiceByDate,
    ApiError,
>)
    ensures
        (terms@.len() > 0 && date_like(date@) && date@ == date_text(*updated_at)) ==> (r matches Ok(
            t,
        ) && t.effective_date@ == date@ && t.effective && t.content@ == terms@
            && t.succeeded_by is None),
        !(terms@.len() > 0 && date_like(date@) && date@ == date_text(*updated_at)) ==> r
            == Err::<TermsOfServiceByDate, ApiError>(ApiError::NotFound),
{
    if char_count(terms) == 0 {
        return Err(ApiError::NotFound);
    }
    let cs = chars_of(date);
    if cs.len() != 10 {
        return Err(ApiError::NotFound);
    }
    let mut i: usize = 0;
    while i < 10
        invariant
            cs@ == date@,
            cs@.len() == 10,
            i <= 10,
            forall|j: int| 0 <= j < i ==> (('0' <= #[trigger] cs@[j] && cs@[j] <= '9') || cs@[j]
                == '-'),
        decreases 10 - i,
    {
        let c = cs[i];
        if !(('0' <= c && c <= '9') || c == '-') {
            return Err(ApiError::NotFound);
        }
        i = i + 1;
    }
    let updated = format_date(updated_at);
    if !crate::text::str_eq(date, updated.as_str()) {
        return Err(ApiError::NotFound);
    }
    Ok(
        TermsOfServiceByDate {
            effective_date: owned(date),
            effective: true,
            content: owned(terms),
            succeeded_by: None,
        },
    )
}

} // verus!

verus! {

// ── The instance entity ────────────────────────────────────────────────────

/// `wss://{domain}/api/v1/streaming`.
pub fn streaming_url(domain: &str) -> (r: String)
    ensures
        r@ == "wss://"@ + domain@ + "/api/v1/streaming"@,
{
    let mut r = owned("wss://");
    push_str(&mut r, domain);
    push_str(&mut r, "/api/v1/streaming");
    r
}

/// `https://{domain}{path}`: a page of the instance's site.
pub open spec fn site_page(domain: Seq<char>, path: Seq<char>) -> Seq<char> {
    "https://"@ + domain + path
}

pub fn site_page_url(domain: &str, path: &str) -> (r: String)
    ensures
        r@ == site_page(domain@, path@),
{
    let mut r = owned("https://");
    push_str(&mut r, domain);
    push_str(&mut r, path);
    r
}

/// The thumbnail: the instance's icon, else the default picture.
pub fn thumbnail_url(domain: &str, icon_url: &Option<String>) -> (r: String)
    ensures
        r@ == match icon_url {
            Some(u) => u@,
            None => site_page(domain@, "/instance-thumbnail.png"@),
        },
{
    match icon_url {
        Some(u) => owned(u.as_str()),
        None => site_page_url(domain, "/instance-thumbnail.png"),
    }
}

/// The link to a document of the instance (its privacy policy or terms of
/// service), given only when the document is written.
pub fn document_url(domain: &str, document: &str, path: &str) -> (r: Option<String>)
    ensures
        match r {
            Some(u) => document@.len() > 0 && u@ == site_page(domain@, path@),
            None => document@.len() == 0,
        },
{
    if char_count(document) == 0 {
        None
    } else {
        Some(site_page_url(domain, path))
    }
}

/// An icon of the instance at one size.
pub open spec fn icon_json(src: Seq<char>, size: Seq<char>) -> Json {
    Json::Object(seq![("src"@, Json::Str(src)), ("size"@, Json::Str(size))])
}

fn icon_value(src: &str, size: &str) -> (r: JsonValue)
    ensures
        json_of(r) == icon_json(src@, size@),
{
    let mut es: Vec<(String, JsonValue)> = Vec::new();
    es.push((owned("src"), json_str(src)));
    es.push((owned("size"), json_str(size)));
    proof {
        lemma_entries(es@);
        assert(crate::json::json_entries(es@) =~= seq![
            ("src"@, Json::Str(src@)),
            ("size"@, Json::Str(size@)),
        ]);
    }
    JsonValue::Object(es)
}

/// The instance's icon at 192 and 512 pixels; none without an icon.
pub fn instance_icons(icon_url: &Option<String>) -> (r: Vec<JsonValue>)
    ensures
        crate::json::json_items(r@) == match icon_url {
            Some(u) => seq![icon_json(u@, "192x192"@), icon_json(u@, "512x512"@)],
            None => Seq::<Json>::empty(),
        },
{
    let mut out: Vec<JsonValue> = Vec::new();
    match icon_url {
        Some(u) => {
            out.push(icon_value(u.as_str(), "192x192"));
            out.push(icon_value(u.as_str(), "512x512"));
            proof {
                lemma_items(out@);
                assert(crate::json::json_items(out@) =~= seq![
                    icon_json(u@, "192x192"@),
                    icon_json(u@, "512x512"@),
                ]);
            }
        },
        None => {
            assert(crate::json::json_items(out@) =~= Seq::<Json>::empty());
        },
    }
    out
}

/// A rule of the instance.
pub struct Rule {
    pub id: String,
    pub text: String,
    pub hint: String,
    pub translations: JsonValue,
}

/// The rules as stored: the items of an array, nothing otherwise.
pub open spec fn rule_items(rules: Json) -> Seq<Json> {
    match rules {
        Json::Array(xs) => xs,
        _ => Seq::empty(),
    }
}

/// `rule[key]` when it is a string, else empty.
pub open spec fn rule_text(rule: Json, key: Seq<char>) -> Seq<char> {
    match as_str(jget(rule, key)) {
        Some(s) => s,
        None => Seq::empty(),
    }
}

fn text_under(v: &JsonValue, key: &str) -> (r: String)
    ensures
        r@ == rule_text(json_of(*v), key@),
{
    match json_get(v, key) {
        Some(JsonValue::Str(s)) => owned(s.as_str()),
        _ => String::new(),
    }
}

/// The instance's rules, numbered from 1 in the order they are stored.
pub fn instance_rules(rules: &JsonValue) -> (r: Vec<Rule>)
    ensures
        r@.len() == rule_items(json_of(*rules)).len(),
        forall|k: int|
            0 <= k < r@.len() ==> {
                &&& (#[trigger] r@[k]).id@ == decimal((k + 1) as nat)
                &&& r@[k].text@ == rule_text(rule_items(json_of(*rules))[k], "text"@)
                &&& r@[k].hint@ == rule_text(rule_items(json_of(*rules))[k], "hint"@)
                &&& json_of(r@[k].translations) == Json::Object(Seq::empty())
            },
{
    let mut out: Vec<Rule> = Vec::new();
    match rules {
        JsonValue::Array(xs) => {
            proof {
                lemma_items(xs@);
            }
            let mut k: usize = 0;
            while k < xs.len()
                invariant
                    k <= xs@.len(),
                    json_of(*rules) == Json::Array(crate::json::json_items(xs@)),
                    crate::json::json_items(xs@).len() == xs@.len(),
                    forall|i: int|
                        0 <= i < xs@.len() ==> #[trigger] crate::json::json_items(xs@)[i] == json_of(
                            xs@[i],
                        ),
                    out@.len() == k,
                    forall|j: int|
                        0 <= j < k ==> {
                            &&& (#[trigger] out@[j]).id@ == decimal((j + 1) as nat)
                            &&& out@[j].text@ == rule_text(json_of(xs@[j]), "text"@)
                            &&& out@[j].hint@ == rule_text(json_of(xs@[j]), "hint"@)
                            &&& json_of(out@[j].translations) == Json::Object(Seq::empty())
                        },
                decreases xs.len() - k,
            {
                let mut id = String::new();
                push_decimal(&mut id, (k as u64) + 1);
                assert(id@ =~= decimal((k + 1) as nat));
                let rule = Rule {
                    id,
                    text: text_under(&xs[k], "text"),
                    hint: text_under(&xs[k], "hint"),
                    translations: JsonValue::Object(Vec::new()),
                };
                assert(crate::json::json_entries(Seq::<(String, JsonValue)>::empty()) =~= Seq::<
                    (Seq<char>, Json),
                >::empty());
                out.push(rule);
                k = k + 1;
            }
        },
        _ => {},
    }
    out
}

// ── Activity ───────────────────────────────────────────────────────────────

/// A week of posting: its start (seconds since the epoch), the statuses
/// posted and the accounts that posted.
pub struct WeekRow {
    pub week: Option<i64>,
    pub statuses: Option<i64>,
    pub logins: Option<i64>,
}

/// Sign-ups in a week.
pub struct RegistrationRow {
    pub week: Option<i64>,
    pub registrations: Option<i64>,
}

/// The sign-ups of week `w`: the last row that counts that week, else 0.
pub open spec fn registrations_in(regs: Seq<RegistrationRow>, w: i64) -> int
    decreases regs.len(),
{
    if regs.len() == 0 {
        0
    } else {
        let r = regs.last();
        if r.week == Some(w) && r.registrations is Some {
            r.registrations->0 as int
        } else {
            registrations_in(regs.drop_last(), w)
        }
    }
}

/// A week of activity as the API shows it.
pub open spec fn week_json(week: i64, statuses: i64, logins: i64, registrations: int) -> Json {
    Json::Object(
        seq![
            ("week"@, Json::Str(int_text(week as int))),
            ("statuses"@, Json::Str(int_text(statuses as int))),
            ("logins"@, Json::Str(int_text(logins as int))),
            ("registrations"@, Json::Str(int_text(registrations))),
        ],
    )
}

/// The weeks that have all their counts, in order.
pub open spec fn activity_json(weeks: Seq<WeekRow>, regs: Seq<RegistrationRow>) -> Seq<Json>
    decreases weeks.len(),
{
    if weeks.len() == 0 {
        Seq::empty()
    } else {
        let before = activity_json(weeks.drop_last(), regs);
        let w = weeks.last();
        match (w.week, w.statuses, w.logins) {
            (Some(wk), Some(s), Some(l)) => before.push(
                week_json(wk, s, l, registrations_in(regs, wk)),
            ),
            _ => before,
        }
    }
}

fn registrations_of(regs: &Vec<RegistrationRow>, w: i64) -> (r: i64)
    ensures
        r == registrations_in(regs@, w),
{
    let mut i: usize = regs.len();
    assert(regs@.take(i as int) =~= regs@);
    while i > 0
        invariant
            i <= regs@.len(),
            registrations_in(regs@, w) == registrations_in(regs@.take(i as int), w),
        decreases i,
    {
        assert(regs@.take(i as int).drop_last() =~= regs@.take(i - 1));
        assert(regs@.take(i as int).last() == regs@[i - 1]);
        match regs[i - 1].registrations {
            Some(n) => if regs[i - 1].week == Some(w) {
                return n;
            },
            None => {},
        }
        i = i - 1;
    }
    assert(regs@.take(0) =~= Seq::<RegistrationRow>::empty());
    0
}

fn week_value(week: i64, statuses: i64, logins: i64, registrations: i64) -> (r: JsonValue)
    ensures
        json_of(r) == week_json(week, statuses, logins, registrations as int),
{
    let mut es: Vec<(String, JsonValue)> = Vec::new();
    es.push((owned("week"), JsonValue::Str(int_to_string(week))));
    es.push((owned("statuses"), JsonValue::Str(int_to_string(statuses))));
    es.push((owned("logins"), JsonValue::Str(int_to_string(logins))));
    es.push((owned("registrations"), JsonValue::Str(int_to_string(registrations))));
    proof {
        lemma_entries(es@);
        assert(crate::json::json_entries(es@) =~= seq![
            ("week"@, Json::Str(int_text(week as int))),
            ("statuses"@, Json::Str(int_text(statuses as int))),
            ("logins"@, Json::Str(int_text(logins as int))),
            ("registrations"@, Json::Str(int_text(registrations as int))),
        ]);
    }
    JsonValue::Object(es)
}

/// `GET /api/v1/instance/activity`: each week with its counts, joined with
/// the sign-ups of that week.
pub fn instance_activity(weeks: &Vec<WeekRow>, regs: &Vec<RegistrationRow>) -> (r: Vec<JsonValue>)
    ensures
        crate::json::json_items(r@) == activity_json(weeks@, regs@),
{
    let mut out: Vec<JsonValue> = Vec::new();
    let mut i: usize = 0;
    while i < weeks.len()
        invariant
            i <= weeks@.len(),
            crate::json::json_items(out@) == activity_json(weeks@.take(i as int), regs@),
        decreases weeks.len() - i,
    {
        assert(weeks@.take(i + 1).drop_last() =~= weeks@.take(i as int));
        assert(weeks@.take(i + 1).last() == weeks@[i as int]);
        let w = &weeks[i];
        match (w.week, w.statuses, w.logins) {
            (Some(wk), Some(s), Some(l)) => {
                let n = registrations_of(regs, wk);
                let v = week_value(wk, s, l, n);
                let ghost before = out@;
                out.push(v);
                assert(out@.drop_last() =~= before);
            },
            _ => {},
        }
        i = i + 1;
    }
    assert(weeks@.take(weeks@.len() as int) =~= weeks@);
    out
}

} // verus!
