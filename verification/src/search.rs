//! Account search: how a query is read (limit, offset, the handle and its
//! domain), when an exact match is looked up and when ranked results are,
//! the text-search query, and how the two are merged.
use vstd::prelude::*;
use crate::text::{
    char_count, chars_of, eq_ignore_ascii_case, eq_ignoring_ascii_case, owned, push_char,
    push_str, split_once, split_once_view, trim, trim_start_char, trimmed, without_leading,
};

verus! {

/// The query of `GET /api/v1/accounts/search`.
pub struct AccountSearchQuery {
    pub q: String,
    pub limit: Option<i64>,
    pub offset: Option<i64>,
    pub resolve: Option<bool>,
    pub following: Option<bool>,
}

/// Mastodon's `MIN_QUERY_LENGTH`: anonymous searches shorter than this get no
/// ranked results.
pub const MIN_ACCOUNT_QUERY_LENGTH: usize = 3;

/// Mastodon's relevance boost: reputation (followers per following),
/// follower volume and recency of the last status, averaged; over
/// `account_stats s`.
pub fn account_boost_expr() -> (r: String)
    ensures
        r@ == "(("@ + "(greatest(0, coalesce(s.followers_count, 0)) / (greatest(0, coalesce(s.following_count, 0)) + 1.0))"@
            + " + "@ + "log(greatest(0, coalesce(s.followers_count, 0)) + 2)"@ + " + "@
            + "(case when s.last_status_at is null then 0 else exp(-1.0 * ((greatest(0, abs(extract(DAY FROM age(s.last_status_at))) - 30.0)^2) / (2.0 * ((-1.0 * 30^2) / (2.0 * ln(0.3)))))) end)"@
            + ") / 3.0)"@,
{
    let reputation = "(greatest(0, coalesce(s.followers_count, 0)) / (greatest(0, coalesce(s.following_count, 0)) + 1.0))";
    let followers = "log(greatest(0, coalesce(s.followers_count, 0)) + 2)";
    let time_distance = "(case when s.last_status_at is null then 0 else exp(-1.0 * ((greatest(0, abs(extract(DAY FROM age(s.last_status_at))) - 30.0)^2) / (2.0 * ((-1.0 * 30^2) / (2.0 * ln(0.3)))))) end)";
    let mut r = owned("((");
    push_str(&mut r, reputation);
    push_str(&mut r, " + ");
    push_str(&mut r, followers);
    push_str(&mut r, " + ");
    push_str(&mut r, time_distance);
    push_str(&mut r, ") / 3.0)");
    r
}

/// The characters that mean something to `to_tsquery`, which a search term
/// loses: `'`, `?`, `\`, `:` and the curly single quotes.
pub open spec fn tsquery_meta(c: char) -> bool {
    c == '\'' || c == '?' || c == '\\' || c == ':' || c == '\u{2018}' || c == '\u{2019}'
}

/// The terms with each metacharacter made a space.
pub open spec fn sanitized(terms: Seq<char>) -> Seq<char> {
    terms.map_values(|c: char| if tsquery_meta(c) { ' ' } else { c })
}

/// Mastodon's `generate_query_for_search`: the sanitized terms as a prefix
/// query, `' terms ':*`.
pub open spec fn tsquery_view(terms: Seq<char>) -> Seq<char> {
    "' "@ + sanitized(terms) + " ':*"@
}

pub fn account_tsquery(terms: &str) -> (r: String)
    ensures
        r@ == tsquery_view(terms@),
{
    let cs = chars_of(terms);
    let mut r = owned("' ");
    let ghost r0 = r@;
    let mut i: usize = 0;
    while i < cs.len()
        invariant
            cs@ == terms@,
            i <= cs@.len(),
            r@ == r0 + sanitized(terms@).take(i as int),
        decreases cs.len() - i,
    {
        let c = cs[i];
        let d = if c == '\'' || c == '?' || c == '\\' || c == ':' || c == '\u{2018}' || c
            == '\u{2019}' {
            ' '
        } else {
            c
        };
        push_char(&mut r, d);
        assert(sanitized(terms@).take(i + 1) =~= sanitized(terms@).take(i as int).push(d));
        i = i + 1;
    }
    assert(sanitized(terms@).take(cs@.len() as int) =~= sanitized(terms@));
    push_str(&mut r, " ':*");
    r
}

/// How a search is carried out.
pub struct SearchPlan {
    /// At most this many accounts (default 40, between 1 and 80).
    pub limit: i64,
    /// Skipping this many (never negative).
    pub offset: i64,
    /// The query, trimmed and without its leading `@`s.
    pub query: String,
    /// The handle's user part: the query before its first `@`, or all of it.
    pub username: String,
    /// The handle's domain, after the first `@`.
    pub domain: Option<String>,
    /// A handle without a domain, or with the instance's own, is local.
    pub domain_is_local: bool,
    /// An exact match is looked up on the first page for a query with `@`.
    pub exact_lookup: bool,
    /// A remote exact match may be fetched with WebFinger.
    pub resolve: bool,
    /// Only accounts the viewer follows are kept.
    pub following: bool,
    /// Ranked results are read: always for a signed-in viewer, else for
    /// queries of three characters or more.
    pub ranked: bool,
    /// The text-search query of the ranked results: on the user part for a
    /// local handle, on the whole query for a remote one.
    pub tsquery: String,
}

pub open spec fn search_text(q: AccountSearchQuery) -> Seq<char> {
    without_leading(trimmed(q.q@), '@')
}

/// The plan of a search; none when the query is empty once trimmed, which
/// answers with no accounts.
pub fn search_plan(q: &AccountSearchQuery, local_domain: &str, signed_in: bool) -> (r: Option<
    SearchPlan,
>)
    ensures
        search_text(*q).len() == 0 <==> r is None,
        r matches Some(p) ==> {
            let text = search_text(*q);
            let handle = split_once_view(text, seq!['@']);
            &&& p.limit == crate::pagination::clamp(
                match q.limit {
                    Some(l) => l as int,
                    None => 40,
                },
                1,
                80,
            )
            &&& p.offset == (match q.offset {
                Some(o) => if o < 0 {
                    0
                } else {
                    o as int
                },
                None => 0,
            })
            &&& p.query@ == text
            &&& p.username@ == (match handle {
                Some((u, _)) => u,
                None => text,
            })
            &&& crate::pagination::opt_seq(p.domain) == (match handle {
                Some((_, d)) => Some(d),
                None => None,
            })
            &&& p.domain_is_local == (match handle {
                Some((_, d)) => eq_ignoring_ascii_case(d, local_domain@),
                None => true,
            })
            &&& p.exact_lookup == (p.offset == 0 && handle is Some)
            &&& p.resolve == (q.resolve == Some(true))
            &&& p.following == (q.following == Some(true))
            &&& p.ranked == (signed_in || text.len() >= 3)
            &&& p.tsquery@ == tsquery_view(
                if p.domain_is_local {
                    p.username@
                } else {
                    text
                },
            )
        },
{
    let limit = match q.limit {
        Some(l) => l,
        None => 40,
    };
    let limit = if limit < 1 {
        1
    } else if limit > 80 {
        80
    } else {
        limit
    };
    let offset = match q.offset {
        Some(o) => if o < 0 {
            0
        } else {
            o
        },
        None => 0,
    };
    let t = trim(q.q.as_str());
    let query = trim_start_char(t.as_str(), '@');
    if char_count(query.as_str()) == 0 {
        return None;
    }
    proof {
        reveal_strlit("@");
        assert("@"@ =~= seq!['@']);
    }
    let (username, domain) = match split_once(query.as_str(), "@") {
        Some((u, d)) => (u, Some(d)),
        None => (owned(query.as_str()), None),
    };
    let domain_is_local = match &domain {
        Some(d) => eq_ignore_ascii_case(d.as_str(), local_domain),
        None => true,
    };
    let exact_lookup = offset == 0 && domain.is_some();
    let ranked = signed_in || char_count(query.as_str()) >= MIN_ACCOUNT_QUERY_LENGTH;
    let tsquery = if domain_is_local {
        account_tsquery(username.as_str())
    } else {
        account_tsquery(query.as_str())
    };
    let resolve = match q.resolve {
        Some(b) => b,
        None => false,
    };
    let following = match q.following {
        Some(b) => b,
        None => false,
    };
    Some(
        SearchPlan {
            limit,
            offset,
            query,
            username,
            domain,
            domain_is_local,
            exact_lookup,
            resolve,
            following,
            ranked,
            tsquery,
        },
    )
}

/// Whether an exact match is kept: always, unless the search is restricted
/// to the viewer's follows and the viewer is known not to follow it.
pub fn keep_exact(following: bool, viewer_follows: Option<bool>) -> (r: bool)
    ensures
        r == (!following || match viewer_follows {
            Some(f) => f,
            None => true,
        }),
{
    !following || match viewer_follows {
        Some(f) => f,
        None => true,
    }
}

/// How many ranked results are asked for once the exact matches are in.
pub fn ranked_limit(limit: i64, found: usize) -> (r: i64)
    requires
        1 <= limit <= 80,
        found <= i64::MAX,
    ensures
        r == limit - found,
{
    limit - found as i64
}

/// The ids of `ranked` appended to `found`, each only when no earlier
/// result has it.
pub open spec fn merged(found: Seq<i64>, ranked: Seq<i64>) -> Seq<i64>
    decreases ranked.len(),
{
    if ranked.len() == 0 {
        found
    } else {
        let before = merged(found, ranked.drop_last());
        if before.contains(ranked.last()) {
            before
        } else {
            before.push(ranked.last())
        }
    }
}

/// Appends the ranked results that are not already there, in order.
pub fn merge_results(found: &mut Vec<i64>, ranked: &Vec<i64>)
    ensures
        final(found)@ == merged(old(found)@, ranked@),
{
    let ghost f0 = found@;
    let mut i: usize = 0;
    while i < ranked.len()
        invariant
            i <= ranked@.len(),
            found@ == merged(f0, ranked@.take(i as int)),
        decreases ranked.len() - i,
    {
        assert(ranked@.take(i + 1).drop_last() =~= ranked@.take(i as int));
        let id = ranked[i];
        let mut present = false;
        let mut j: usize = 0;
        while j < found.len()
            invariant
                j <= found@.len(),
                present <==> exists|k: int| 0 <= k < j && found@[k] == id,
            decreases found.len() - j,
        {
            if found[j] == id {
                present = true;
            }
            j = j + 1;
        }
        if !present {
            found.push(id);
        } else {
            assert(found@.contains(id));
        }
        i = i + 1;
    }
    assert(ranked@.take(ranked@.len() as int) =~= ranked@);
}

} // verus!
