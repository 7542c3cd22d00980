//! Paging through lists: limits, ids from query strings, and the `Link`
//! header that points at the next and previous pages.
use vstd::prelude::*;
use crate::text::{chars_of, find, is_prefix, owned, push_char, push_str, starts_with, string_of};

verus! {

// ── Integers from text ─────────────────────────────────────────────────────

pub open spec fn is_digit(c: char) -> bool {
    '0' <= c && c <= '9'
}

/// The value of a run of decimal digits.
pub open spec fn digits_value(s: Seq<char>) -> int
    decreases s.len(),
{
    if s.len() == 0 {
        0
    } else {
        digits_value(s.drop_last()) * 10 + (s.last() as int - 48)
    }
}

pub open spec fn all_digits(s: Seq<char>) -> bool {
    forall|i: int| 0 <= i < s.len() ==> is_digit(#[trigger] s[i])
}

/// The text after an optional leading sign.
pub open spec fn unsigned_part(s: Seq<char>) -> Seq<char> {
    if s.len() > 0 && (s[0] == '-' || s[0] == '+') {
        s.skip(1)
    } else {
        s
    }
}

/// `str::parse::<i64>`: an optional `+` or `-`, then one or more ASCII
/// digits, whose value fits in an `i64`.
pub open spec fn parse_i64_view(s: Seq<char>) -> Option<int> {
    let neg = s.len() > 0 && s[0] == '-';
    let body = unsigned_part(s);
    if body.len() == 0 || !all_digits(body) {
        None
    } else {
        let v = if neg {
            -digits_value(body)
        } else {
            digits_value(body)
        };
        if i64::MIN <= v <= i64::MAX {
            Some(v)
        } else {
            None
        }
    }
}

proof fn lemma_digits_nonneg(s: Seq<char>)
    requires
        forall|i: int| 0 <= i < s.len() ==> is_digit(#[trigger] s[i]),
    ensures
        digits_value(s) >= 0,
    decreases s.len(),
{
    if s.len() > 0 {
        lemma_digits_nonneg(s.drop_last());
    }
}

/// Parses a decimal integer as `str::parse::<i64>` does.
pub fn parse_i64(s: &str) -> (r: Option<i64>)
    ensures
        match r {
            Some(v) => parse_i64_view(s@) == Some(v as int),
            None => parse_i64_view(s@) is None,
        },
{
    let cs = chars_of(s);
    let n = cs.len();
    let neg = n > 0 && cs[0] == '-';
    let signed = n > 0 && (cs[0] == '-' || cs[0] == '+');
    let start: usize = if signed {
        1
    } else {
        0
    };
    let ghost body = unsigned_part(s@);
    assert(body =~= s@.subrange(start as int, n as int));
    if start >= n {
        assert(body.len() == 0);
        return None;
    }
    // The magnitude so far, capped just above the largest one that fits.
    let cap: i128 = 9_223_372_036_854_775_809;
    let mut acc: i128 = 0;
    let mut i = start;
    while i < n
        invariant
            cs@ == s@,
            n == cs@.len(),
            start <= i <= n,
            body == s@.subrange(start as int, n as int),
            body == unsigned_part(s@),
            cap == 9_223_372_036_854_775_809i128,
            forall|j: int| start <= j < i ==> is_digit(#[trigger] cs@[j]),
            0 <= acc <= cap,
            acc == (if digits_value(s@.subrange(start as int, i as int)) < cap {
                digits_value(s@.subrange(start as int, i as int))
            } else {
                cap as int
            }),
        decreases n - i,
    {
        let c = cs[i];
        if !('0' <= c && c <= '9') {
            assert(!is_digit(body[i - start]));
            return None;
        }
        let d = (c as u32 - 48) as i128;
        let ghost prefix = s@.subrange(start as int, i as int);
        assert(s@.subrange(start as int, i + 1).drop_last() =~= prefix);
        proof {
            lemma_digits_nonneg(prefix);
        }
        let next = acc * 10 + d;
        acc = if next > cap {
            cap
        } else {
            next
        };
        i = i + 1;
    }
    assert(s@.subrange(start as int, n as int) == body);
    proof {
        lemma_digits_nonneg(body);
    }
    if neg {
        if acc > 9_223_372_036_854_775_808 {
            None
        } else {
            Some((-acc) as i64)
        }
    } else {
        if acc > 9_223_372_036_854_775_807 {
            None
        } else {
            Some(acc as i64)
        }
    }
}

/// An optional id from a query parameter: `None` unless it parses.
pub open spec fn id_param(s: Option<Seq<char>>) -> Option<int> {
    match s {
        Some(t) => parse_i64_view(t),
        None => None,
    }
}

pub fn parse_id(s: &Option<String>) -> (r: Option<i64>)
    ensures
        match r {
            Some(v) => id_param(opt_seq(*s)) == Some(v as int),
            None => id_param(opt_seq(*s)) is None,
        },
{
    match s {
        Some(t) => parse_i64(t.as_str()),
        None => None,
    }
}

/// An optional machine integer read as a mathematical one.
pub open spec fn opt_int(o: Option<i64>) -> Option<int> {
    match o {
        Some(v) => Some(v as int),
        None => None,
    }
}

pub open spec fn opt_seq(s: Option<String>) -> Option<Seq<char>> {
    match s {
        Some(t) => Some(t@),
        None => None,
    }
}

// ── Limits ─────────────────────────────────────────────────────────────────

/// `value.clamp(lo, hi)`.
pub open spec fn clamp(value: int, lo: int, hi: int) -> int {
    if value < lo {
        lo
    } else if value > hi {
        hi
    } else {
        value
    }
}

/// The paging parameters of a list endpoint, as the query string gives them.
pub struct PaginationParams {
    pub max_id: Option<String>,
    pub since_id: Option<String>,
    pub min_id: Option<String>,
    pub limit: Option<String>,
}

/// The page size asked for, `default` when absent or unreadable, kept
/// between 1 and `max`.
pub open spec fn limit_view(limit: Option<Seq<char>>, default: int, max: int) -> int {
    clamp(
        match id_param(limit) {
            Some(v) => v,
            None => default,
        },
        1,
        max,
    )
}

impl PaginationParams {
    pub fn limit_clamped(&self, default: i64, max: i64) -> (r: i64)
        requires
            max >= 1,
        ensures
            r == limit_view(opt_seq(self.limit), default as int, max as int),
    {
        let v = match parse_id(&self.limit) {
            Some(v) => v,
            None => default,
        };
        if v < 1 {
            1
        } else if v > max {
            max
        } else {
            v
        }
    }

    pub fn max_id_value(&self) -> (r: Option<i64>)
        ensures
            match r {
                Some(v) => id_param(opt_seq(self.max_id)) == Some(v as int),
                None => id_param(opt_seq(self.max_id)) is None,
            },
    {
        parse_id(&self.max_id)
    }

    pub fn since_id_value(&self) -> (r: Option<i64>)
        ensures
            match r {
                Some(v) => id_param(opt_seq(self.since_id)) == Some(v as int),
                None => id_param(opt_seq(self.since_id)) is None,
            },
    {
        parse_id(&self.since_id)
    }

    pub fn min_id_value(&self) -> (r: Option<i64>)
        ensures
            match r {
                Some(v) => id_param(opt_seq(self.min_id)) == Some(v as int),
                None => id_param(opt_seq(self.min_id)) is None,
            },
    {
        parse_id(&self.min_id)
    }

    /// A list's members come unpaged when `limit=0` is asked for; `None`
    /// then, else the page size (default 40, at most 80).
    pub fn list_members_limit(&self) -> (r: Option<i64>)
        ensures
            (opt_seq(self.limit) == Some("0"@)) <==> r is None,
            r matches Some(v) ==> v == limit_view(opt_seq(self.limit), 40, 80),
    {
        let unlimited = match &self.limit {
            Some(l) => crate::text::str_eq(l.as_str(), "0"),
            None => false,
        };
        if unlimited {
            None
        } else {
            Some(self.limit_clamped(40, 80))
        }
    }
}

/// Offset paging: `offset` (never negative) and `limit` (default 40, between
/// 1 and 100).
pub struct OffsetParams {
    pub offset: Option<i64>,
    pub limit: Option<i64>,
}

impl OffsetParams {
    pub fn offset(&self) -> (r: i64)
        ensures
            r == match self.offset {
                Some(o) => if o < 0 {
                    0
                } else {
                    o as int
                },
                None => 0,
            },
    {
        let o = match self.offset {
            Some(o) => o,
            None => 0,
        };
        if o < 0 {
            0
        } else {
            o
        }
    }

    pub fn limit(&self) -> (r: i64)
        ensures
            r == clamp(
                match self.limit {
                    Some(l) => l as int,
                    None => 40,
                },
                1,
                100,
            ),
    {
        let l = match self.limit {
            Some(l) => l,
            None => 40,
        };
        if l < 1 {
            1
        } else if l > 100 {
            100
        } else {
            l
        }
    }
}

// ── Windows ────────────────────────────────────────────────────────────────

/// The rows a page reads: at most `limit` of them, with ids below `max_id`
/// and above `since_id` and `min_id` (each where given). With
/// `reads_forward` they are the `limit` rows just above `min_id`, read in
/// ascending order; every page is served newest first (`newest_first`).
pub struct PageWindow {
    pub limit: i64,
    pub max_id: Option<i64>,
    pub since_id: Option<i64>,
    pub min_id: Option<i64>,
    pub reads_forward: bool,
}

/// The window of a listing that reads forward from `min_id` when one is
/// given, and back from `max_id` (down to `since_id`) otherwise.
pub fn page_window(p: &PaginationParams, default: i64, max: i64) -> (r: PageWindow)
    requires
        max >= 1,
    ensures
        r.limit == limit_view(opt_seq(p.limit), default as int, max as int),
        opt_int(r.min_id) == id_param(opt_seq(p.min_id)),
        r.reads_forward == (r.min_id is Some),
        r.reads_forward ==> r.max_id is None && r.since_id is None,
        !r.reads_forward ==> opt_int(r.max_id) == id_param(opt_seq(p.max_id)) && opt_int(r.since_id)
            == id_param(opt_seq(p.since_id)),
{
    let limit = p.limit_clamped(default, max);
    let min_id = p.min_id_value();
    match min_id {
        Some(_) => PageWindow { limit, max_id: None, since_id: None, min_id, reads_forward: true },
        None => PageWindow {
            limit,
            max_id: p.max_id_value(),
            since_id: p.since_id_value(),
            min_id: None,
            reads_forward: false,
        },
    }
}

/// The order a page is served in: a page read forward from `min_id` came
/// out oldest first and is turned round; one read back already is newest
/// first.
pub open spec fn served_order<T>(rows: Seq<T>, reads_forward: bool) -> Seq<T> {
    if reads_forward {
        rows.reverse()
    } else {
        rows
    }
}

/// Puts the rows a window read into the order the page is served in,
/// newest first.
pub fn newest_first<T>(rows: Vec<T>, reads_forward: bool) -> (r: Vec<T>)
    ensures
        r@ == served_order(rows@, reads_forward),
{
    if !reads_forward {
        return rows;
    }
    let ghost all = rows@;
    let mut rest = rows;
    let mut out: Vec<T> = Vec::new();
    while rest.len() > 0
        invariant
            rest@ == all.take(rest@.len() as int),
            rest@.len() <= all.len(),
            out@ == all.skip(rest@.len() as int).reverse(),
        decreases rest.len(),
    {
        let ghost n = rest@.len();
        let x = rest.pop().unwrap();
        proof {
            assert(x == all[n - 1]);
            assert(rest@ =~= all.take(n - 1));
            assert(all.skip(n - 1).reverse() =~= all.skip(n as int).reverse().push(all[n - 1]));
        }
        out.push(x);
    }
    assert(all.skip(0) =~= all);
    out
}

/// The window of a listing that always reads back from `max_id`; it stops
/// at `since_id`, and at `min_id` too when the listing honours it.
pub fn newest_first_window(p: &PaginationParams, default: i64, max: i64, honour_min_id: bool) -> (r:
    PageWindow)
    requires
        max >= 1,
    ensures
        r.limit == limit_view(opt_seq(p.limit), default as int, max as int),
        opt_int(r.max_id) == id_param(opt_seq(p.max_id)),
        opt_int(r.since_id) == id_param(opt_seq(p.since_id)),
        opt_int(r.min_id) == (if honour_min_id {
            id_param(opt_seq(p.min_id))
        } else {
            None
        }),
        !r.reads_forward,
{
    PageWindow {
        limit: p.limit_clamped(default, max),
        max_id: p.max_id_value(),
        since_id: p.since_id_value(),
        min_id: if honour_min_id {
            p.min_id_value()
        } else {
            None
        },
        reads_forward: false,
    }
}

} // verus!

verus! {

// ── Query strings ──────────────────────────────────────────────────────────

/// The `&`-separated pieces of a query string.
pub open spec fn query_pairs(s: Seq<char>) -> Seq<Seq<char>>
    decreases s.len(),
{
    match find(s, seq!['&']) {
        Some(i) => {
            proof {
                crate::text::lemma_find_from(s, seq!['&'], 0);
            }
            seq![s.subrange(0, i)] + query_pairs(s.subrange(i + 1, s.len() as int))
        },
        None => seq![s],
    }
}

/// A pair that pagination does not own: non-empty, and not `max_id`,
/// `min_id`, `since_id` or `limit`.
pub open spec fn kept_pair(kv: Seq<char>) -> bool {
    kv.len() > 0 && !is_prefix("max_id="@, kv) && !is_prefix("min_id="@, kv) && !is_prefix(
        "since_id="@,
        kv,
    ) && !is_prefix("limit="@, kv)
}

/// The kept pairs, joined with `&`.
pub open spec fn joined_kept(pairs: Seq<Seq<char>>) -> Seq<char>
    decreases pairs.len(),
{
    if pairs.len() == 0 {
        Seq::empty()
    } else {
        let before = joined_kept(pairs.drop_last());
        let kv = pairs.last();
        if !kept_pair(kv) {
            before
        } else if before.len() == 0 {
            kv
        } else {
            before + seq!['&'] + kv
        }
    }
}

/// A query string without its paging parameters.
pub open spec fn non_pagination_view(raw: Option<Seq<char>>) -> Seq<char> {
    joined_kept(
        query_pairs(
            match raw {
                Some(q) => q,
                None => Seq::empty(),
            },
        ),
    )
}

fn is_kept_pair(kv: &str) -> (r: bool)
    ensures
        r == kept_pair(kv@),
{
    crate::text::char_count(kv) > 0 && !starts_with(kv, "max_id=") && !starts_with(kv, "min_id=")
        && !starts_with(kv, "since_id=") && !starts_with(kv, "limit=")
}

proof fn lemma_joined_kept_empty(pairs: Seq<Seq<char>>)
    ensures
        joined_kept(pairs).len() == 0 <==> forall|j: int| 0 <= j < pairs.len() ==> !kept_pair(
            #[trigger] pairs[j],
        ),
    decreases pairs.len(),
{
    if pairs.len() > 0 {
        lemma_joined_kept_empty(pairs.drop_last());
        let before = joined_kept(pairs.drop_last());
        if kept_pair(pairs.last()) {
            assert(!kept_pair(pairs.last()) == false);
        }
        assert forall|j: int| 0 <= j < pairs.len() - 1 implies pairs.drop_last()[j] == pairs[j] by {}
    }
}

/// Strip pagination-specific keys from a query string and return the rest.
pub fn non_pagination_query(raw_query: Option<&str>) -> (r: String)
    ensures
        r@ == non_pagination_view(
            match raw_query {
                Some(q) => Some(q@),
                None => None,
            },
        ),
{
    let q = match raw_query {
        Some(q) => q,
        None => "",
    };
    proof {
        reveal_strlit("");
    }
    assert(q@ == match raw_query {
        Some(q) => q@,
        None => Seq::<char>::empty(),
    });
    let cs = chars_of(q);
    let n = cs.len();
    let ghost t = cs@;
    let mut out = String::new();
    let mut start: usize = 0;
    let mut i: usize = 0;
    // `done` are the pieces already seen, `t[start..]` what remains.
    let ghost mut done: Seq<Seq<char>> = Seq::empty();
    assert(t.subrange(0, n as int) =~= t);
    while i < n
        invariant
            cs@ == t,
            n == t.len(),
            start <= i <= n,
            query_pairs(t) == done + query_pairs(t.subrange(start as int, n as int)),
            out@ == joined_kept(done),
            find(t.subrange(start as int, n as int), seq!['&']) == crate::text::find_from(
                t.subrange(start as int, n as int),
                seq!['&'],
                (i - start) as int,
            ),
        decreases n - i,
    {
        let ghost sub = t.subrange(start as int, n as int);
        if cs[i] == '&' {
            proof {
                assert(sub.subrange(i - start, i - start + 1) =~= seq!['&']);
                assert(sub.subrange(0, i - start) =~= t.subrange(start as int, i as int));
                assert(sub.subrange(i - start + 1, sub.len() as int) =~= t.subrange(i + 1, n as int));
            }
            let piece = string_of(&cs, start, i);
            let ghost kv = piece@;
            proof {
                assert(query_pairs(sub) == seq![kv] + query_pairs(t.subrange(i + 1, n as int)));
                assert(done + query_pairs(sub) =~= done.push(kv) + query_pairs(t.subrange(i + 1, n as int)));
                assert(done.push(kv).drop_last() =~= done);
            }
            if is_kept_pair(piece.as_str()) {
                if crate::text::char_count(out.as_str()) > 0 {
                    push_char(&mut out, '&');
                }
                push_str(&mut out, piece.as_str());
            }
            proof {
                done = done.push(kv);
            }
            start = i + 1;
            i = i + 1;
        } else {
            proof {
                assert(sub.subrange(i - start, i - start + 1) != seq!['&']) by {
                    if sub.subrange(i - start, i - start + 1) == seq!['&'] {
                        assert(sub.subrange(i - start, i - start + 1)[0] == t[i as int]);
                    }
                }
            }
            i = i + 1;
        }
    }
    let piece = string_of(&cs, start, n);
    let ghost kv = piece@;
    proof {
        let sub = t.subrange(start as int, n as int);
        assert(find(sub, seq!['&']) is None);
        assert(query_pairs(t) == done.push(kv));
        assert(done.push(kv).drop_last() =~= done);
    }
    if is_kept_pair(piece.as_str()) {
        if crate::text::char_count(out.as_str()) > 0 {
            push_char(&mut out, '&');
        }
        push_str(&mut out, piece.as_str());
    }
    assert(done.push(kv).last() == kv);
    assert(out@ == joined_kept(done.push(kv)));
    assert(out@ == joined_kept(query_pairs(t)));
    out
}

/// `<{base}{path}?{query}max_id={oldest}>; rel="next", <…min_id={newest}>;
/// rel="prev"`, where `base` is `{proto}://{host}` (`https` and `localhost`
/// when the request does not say).
pub open spec fn link_header_view(
    host: Option<Seq<char>>,
    proto: Option<Seq<char>>,
    path: Seq<char>,
    extra_query: Seq<char>,
    newest_id: Seq<char>,
    oldest_id: Seq<char>,
) -> Seq<char> {
    let base = (match proto {
        Some(p) => p,
        None => "https"@,
    }) + "://"@ + (match host {
        Some(h) => h,
        None => "localhost"@,
    });
    let sep = if extra_query.len() == 0 {
        Seq::empty()
    } else {
        seq!['&']
    };
    let next = base + path + seq!['?'] + extra_query + sep + "max_id="@ + oldest_id;
    let prev = base + path + seq!['?'] + extra_query + sep + "min_id="@ + newest_id;
    seq!['<'] + next + ">; rel=\"next\", <"@ + prev + ">; rel=\"prev\""@
}

/// The `Link` header value for a paginated list endpoint. `host` and `proto`
/// are the request's `Host` and `X-Forwarded-Proto` headers, when readable.
pub fn link_header(
    host: Option<&str>,
    proto: Option<&str>,
    path: &str,
    extra_query: &str,
    newest_id: &str,
    oldest_id: &str,
) -> (r: String)
    ensures
        r@ == link_header_view(
            match host {
                Some(h) => Some(h@),
                None => None,
            },
            match proto {
                Some(p) => Some(p@),
                None => None,
            },
            path@,
            extra_query@,
            newest_id@,
            oldest_id@,
        ),
{
    let mut base = owned(
        match proto {
            Some(p) => p,
            None => "https",
        },
    );
    push_str(&mut base, "://");
    push_str(
        &mut base,
        match host {
            Some(h) => h,
            None => "localhost",
        },
    );
    let empty_query = crate::text::char_count(extra_query) == 0;
    let mut next = owned(base.as_str());
    push_str(&mut next, path);
    push_char(&mut next, '?');
    push_str(&mut next, extra_query);
    if !empty_query {
        push_char(&mut next, '&');
    }
    let mut prev = owned(next.as_str());
    push_str(&mut next, "max_id=");
    push_str(&mut next, oldest_id);
    push_str(&mut prev, "min_id=");
    push_str(&mut prev, newest_id);
    let mut r = owned("<");
    push_str(&mut r, next.as_str());
    push_str(&mut r, ">; rel=\"next\", <");
    push_str(&mut r, prev.as_str());
    push_str(&mut r, ">; rel=\"prev\"");
    proof {
        reveal_strlit("<");
    }
    assert(r@ =~= link_header_view(
        match host {
            Some(h) => Some(h@),
            None => None,
        },
        match proto {
            Some(p) => Some(p@),
            None => None,
        },
        path@,
        extra_query@,
        newest_id@,
        oldest_id@,
    ));
    r
}

} // verus!

verus! {

/// The `&`-separated pieces of a query string, as `str::split('&')` gives
/// them.
pub fn query_pieces(q: &str) -> (r: Vec<String>)
    ensures
        r@.map_values(|s: String| s@) == query_pairs(q@),
{
    let cs = chars_of(q);
    let n = cs.len();
    let ghost t = cs@;
    let mut out: Vec<String> = Vec::new();
    let mut start: usize = 0;
    let mut i: usize = 0;
    assert(t.subrange(0, n as int) =~= t);
    while i < n
        invariant
            cs@ == t,
            n == t.len(),
            start <= i <= n,
            query_pairs(t) == out@.map_values(|s: String| s@) + query_pairs(
                t.subrange(start as int, n as int),
            ),
            find(t.subrange(start as int, n as int), seq!['&']) == crate::text::find_from(
                t.subrange(start as int, n as int),
                seq!['&'],
                (i - start) as int,
            ),
        decreases n - i,
    {
        let ghost sub = t.subrange(start as int, n as int);
        if cs[i] == '&' {
            proof {
                assert(sub.subrange(i - start, i - start + 1) =~= seq!['&']);
                assert(sub.subrange(0, i - start) =~= t.subrange(start as int, i as int));
                assert(sub.subrange(i - start + 1, sub.len() as int) =~= t.subrange(i + 1, n as int));
            }
            let piece = string_of(&cs, start, i);
            let ghost before = out@.map_values(|s: String| s@);
            proof {
                assert(query_pairs(sub) == seq![piece@] + query_pairs(t.subrange(i + 1, n as int)));
            }
            out.push(piece);
            proof {
                assert(out@.map_values(|s: String| s@) =~= before.push(piece@));
                assert(before + query_pairs(sub) =~= before.push(piece@) + query_pairs(
                    t.subrange(i + 1, n as int),
                ));
            }
            start = i + 1;
            i = i + 1;
        } else {
            proof {
                assert(sub.subrange(i - start, i - start + 1) != seq!['&']) by {
                    if sub.subrange(i - start, i - start + 1) == seq!['&'] {
                        assert(sub.subrange(i - start, i - start + 1)[0] == t[i as int]);
                    }
                }
            }
            i = i + 1;
        }
    }
    let piece = string_of(&cs, start, n);
    let ghost before = out@.map_values(|s: String| s@);
    proof {
        let sub = t.subrange(start as int, n as int);
        assert(find(sub, seq!['&']) is None);
        assert(query_pairs(sub) == seq![piece@]);
    }
    out.push(piece);
    assert(out@.map_values(|s: String| s@) =~= before.push(piece@));
    assert(before + seq![piece@] =~= before.push(piece@));
    out
}

} // verus!
