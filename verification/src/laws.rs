//! Properties that hold of the library as a whole, stated over the models
//! its functions are specified by, and proved.
use vstd::prelude::*;
use crate::json::{jget, jinsert, lemma_jget_jinsert, lemma_lookup_insert_other, lookup, Json};
use crate::pagination::{all_digits, digits_value, is_digit, parse_i64_view, unsigned_part};
use crate::text::{decimal, digit_char, int_text};
use crate::instance::{lemma_encode_concat, obfuscated_bytes};
use crate::notifications::{filters_policy, policy_name};
use crate::text::{is_white_space, split_once_view, trim_end, trim_start, trimmed};
use vstd::utf8::encode_utf8;
use crate::meta::{
    bare_dims, base_meta, geometry, is_image_type, is_video_type, media_dims, or_insert,
    positive_dims, size_text,
};

verus! {

proof fn lemma_meta_keys()
    ensures
        "original"@ != "small"@,
        "width"@ != "height"@,
        "width"@ != "size"@,
        "width"@ != "aspect"@,
        "height"@ != "size"@,
        "height"@ != "aspect"@,
{
    reveal_strlit("original");
    reveal_strlit("small");
    reveal_strlit("width");
    reveal_strlit("height");
    reveal_strlit("size");
    reveal_strlit("aspect");
    assert("original"@.len() == 8);
    assert("small"@.len() == 5);
    assert("width"@.len() == 5);
    assert("height"@.len() == 6);
    assert("size"@.len() == 4);
    assert("aspect"@.len() == 6);
    assert("height"@[0] == 'h');
    assert("aspect"@[0] == 'a');
}

/// A freshly made `{width, height, …}` block has the dimensions it was made
/// with.
proof fn lemma_fresh_dims(w: int, h: int)
    requires
        w > 0,
        h > 0,
    ensures
        positive_dims(Some(geometry(w, h))) == Some((w, h)),
        positive_dims(Some(bare_dims(w, h))) == Some((w, h)),
{
    lemma_meta_keys();
    let g = geometry(w, h);
    let es = g->Object_0;
    assert(es[0].0 == "width"@);
    assert(es[1].0 == "height"@);
    assert(crate::json::find_key(es, "width"@) == Some(0int));
    assert(crate::json::find_key_from(es, "height"@, 0) == crate::json::find_key_from(es, "height"@, 1));
    assert(crate::json::find_key(es, "height"@) == Some(1int));
    let b = bare_dims(w, h);
    let bs = b->Object_0;
    assert(crate::json::find_key(bs, "width"@) == Some(0int));
    assert(crate::json::find_key_from(bs, "height"@, 0) == crate::json::find_key_from(bs, "height"@, 1));
    assert(crate::json::find_key(bs, "height"@) == Some(1int));
}

proof fn lemma_or_insert_other(es: Seq<(Seq<char>, Json)>, k: Seq<char>, v: Json, k2: Seq<char>)
    requires
        k != k2,
    ensures
        lookup(or_insert(es, k, v), k2) == lookup(es, k2),
{
    if crate::json::find_key(es, k) is None {
        lemma_lookup_insert_other(es, k, v, k2);
    }
}

/// Audio, and anything else that is neither a picture nor a video, keeps
/// the meta it has: no dimensions are made up for it.
pub proof fn law_non_visual_meta_untouched(file_meta: Option<Json>, media_type: Seq<char>)
    requires
        !is_image_type(media_type),
        !is_video_type(media_type),
    ensures
        media_dims(file_meta, media_type) == base_meta(file_meta),
{
}

/// A picture or video always comes out with an `original` of positive
/// width and height and with a `small`, so that clients sizing a grid by
/// aspect ratios never divide by zero.
pub proof fn law_visual_meta_has_dims(file_meta: Option<Json>, media_type: Seq<char>)
    requires
        is_image_type(media_type) || is_video_type(media_type),
    ensures
        positive_dims(jget(media_dims(file_meta, media_type), "original"@)) is Some,
        jget(media_dims(file_meta, media_type), "small"@) is Some,
{
    lemma_meta_keys();
    let m0 = base_meta(file_meta);
    let img = is_image_type(media_type);
    let d = positive_dims(jget(m0, "original"@));
    let (w, h) = match d {
        Some(p) => p,
        None => (1, 1),
    };
    let m1 = match d {
        Some(_) => m0,
        None => jinsert(
            m0,
            "original"@,
            if img {
                geometry(1, 1)
            } else {
                bare_dims(1, 1)
            },
        ),
    };
    lemma_fresh_dims(1, 1);
    if d is None {
        lemma_jget_jinsert(
            m0,
            "original"@,
            if img {
                geometry(1, 1)
            } else {
                bare_dims(1, 1)
            },
            "original"@,
        );
    }
    assert(positive_dims(jget(m1, "original"@)) == Some((w, h)));
    let m2 = if img {
        match jget(m1, "original"@) {
            Some(Json::Object(oes)) => jinsert(
                m1,
                "original"@,
                Json::Object(
                    or_insert(
                        or_insert(oes, "size"@, Json::Str(size_text(w, h))),
                        "aspect"@,
                        Json::Ratio(w, h),
                    ),
                ),
            ),
            _ => m1,
        }
    } else {
        m1
    };
    if img {
        match jget(m1, "original"@) {
            Some(Json::Object(oes)) => {
                let inner = or_insert(
                    or_insert(oes, "size"@, Json::Str(size_text(w, h))),
                    "aspect"@,
                    Json::Ratio(w, h),
                );
                lemma_or_insert_other(oes, "size"@, Json::Str(size_text(w, h)), "width"@);
                lemma_or_insert_other(oes, "size"@, Json::Str(size_text(w, h)), "height"@);
                lemma_or_insert_other(
                    or_insert(oes, "size"@, Json::Str(size_text(w, h))),
                    "aspect"@,
                    Json::Ratio(w, h),
                    "width"@,
                );
                lemma_or_insert_other(
                    or_insert(oes, "size"@, Json::Str(size_text(w, h))),
                    "aspect"@,
                    Json::Ratio(w, h),
                    "height"@,
                );
                lemma_jget_jinsert(m1, "original"@, Json::Object(inner), "original"@);
            },
            _ => {},
        }
    }
    assert(positive_dims(jget(m2, "original"@)) == Some((w, h)));
    if !crate::json::has_key(m2, "small"@) {
        let s = geometry(
            crate::meta::scaled(w, h, 230_400).0,
            crate::meta::scaled(w, h, 230_400).1,
        );
        lemma_jget_jinsert(m2, "small"@, s, "small"@);
        lemma_jget_jinsert(m2, "small"@, s, "original"@);
    }
}

/// A `small` the stored meta already has is served as it is: imported
/// media keep the thumbnail they came with.
pub proof fn law_existing_small_kept(file_meta: Option<Json>, media_type: Seq<char>)
    requires
        jget(base_meta(file_meta), "small"@) is Some,
    ensures
        jget(media_dims(file_meta, media_type), "small"@) == jget(base_meta(file_meta), "small"@),
{
    lemma_meta_keys();
    let m0 = base_meta(file_meta);
    if is_image_type(media_type) || is_video_type(media_type) {
        let img = is_image_type(media_type);
        let d = positive_dims(jget(m0, "original"@));
        let (w, h) = match d {
            Some(p) => p,
            None => (1, 1),
        };
        let fresh = if img {
            geometry(1, 1)
        } else {
            bare_dims(1, 1)
        };
        let m1 = match d {
            Some(_) => m0,
            None => jinsert(m0, "original"@, fresh),
        };
        if d is None {
            lemma_jget_jinsert(m0, "original"@, fresh, "small"@);
        }
        assert(jget(m1, "small"@) == jget(m0, "small"@));
        if img {
            match jget(m1, "original"@) {
                Some(Json::Object(oes)) => {
                    let inner = or_insert(
                        or_insert(oes, "size"@, Json::Str(size_text(w, h))),
                        "aspect"@,
                        Json::Ratio(w, h),
                    );
                    lemma_jget_jinsert(m1, "original"@, Json::Object(inner), "small"@);
                },
                _ => {},
            }
        }
    }
}


proof fn lemma_decimal(n: nat)
    ensures
        decimal(n).len() >= 1,
        all_digits(decimal(n)),
        digits_value(decimal(n)) == n,
    decreases n,
{
    let c = digit_char(n % 10);
    assert(c as int == 48 + n % 10);
    assert(is_digit(c));
    if n < 10 {
        let s = decimal(n);
        assert(s == seq![c]);
        assert(s.drop_last() =~= Seq::<char>::empty());
        assert(digits_value(s.drop_last()) == 0);
        assert(s.last() == c);
        assert(n % 10 == n);
        assert(digits_value(s) == digits_value(s.drop_last()) * 10 + (s.last() as int - 48));
    } else {
        lemma_decimal(n / 10);
        let s = decimal(n);
        assert(s.drop_last() =~= decimal(n / 10));
        assert(s.last() == c);
        assert(n == (n / 10) * 10 + n % 10);
        assert(digits_value(s) == digits_value(s.drop_last()) * 10 + (s.last() as int - 48));
        assert forall|i: int| 0 <= i < s.len() implies is_digit(#[trigger] s[i]) by {
            if i < s.len() - 1 {
                assert(s[i] == decimal(n / 10)[i]);
            }
        };
    }
}

/// Every id the library writes out as text reads back as the same integer:
/// the ids in a `Link` header come back as the next page's bounds.
pub proof fn law_rendered_ids_parse_back(i: i64)
    ensures
        parse_i64_view(int_text(i as int)) == Some(i as int),
{
    if i < 0 {
        let n = (-(i as int)) as nat;
        lemma_decimal(n);
        let s = int_text(i as int);
        assert(s == seq!['-'] + decimal(n));
        assert(s[0] == '-');
        assert(unsigned_part(s) =~= decimal(n));
    } else {
        let n = i as nat;
        lemma_decimal(n);
        let s = int_text(i as int);
        assert(is_digit(s[0]));
        assert(unsigned_part(s) == s);
    }
}

/// `bool_to_policy` and `policy_to_bool` undo each other.
pub proof fn law_policy_round_trip(b: bool)
    ensures
        crate::notifications::filters_policy(crate::notifications::policy_name(b)) == b,
{
    reveal_strlit("filter");
    reveal_strlit("accept");
    reveal_strlit("drop");
    assert("accept"@.len() == 6);
    assert("filter"@.len() == 6);
    assert("drop"@.len() == 4);
    assert("accept"@[0] == 'a');
    assert("filter"@[0] == 'f');
}

/// A limit reached never falls below Mastodon's floor of 7 500 follows.
pub proof fn law_follow_limit_floor(following: int, followers: int)
    ensures
        crate::relationships::follow_limit_view(following, followers) >= 7500,
{
}

/// A note without links counts as long as it is.
pub proof fn law_link_free_note_counts_chars(text: Seq<char>)
    requires
        crate::formatting::link_scan(text).len() == 0,
    ensures
        crate::credentials::countable_length(text) == text.len(),
{
}

/// A profile lists every status of the account to the account itself,
/// whatever their visibility, when no filter is asked for (reblogs of
/// accounts or domains it blocks aside).
pub proof fn law_owner_sees_own_statuses(
    s: crate::accounts::ProfileStatusFacts,
    p: crate::accounts::ProfileStatusesPlan,
    account_id: i64,
)
    requires
        !s.deleted,
        !p.reads_forward,
        p.max_id is None,
        p.since_id is None,
        !p.exclude_reblogs,
        !p.exclude_replies,
        !p.only_media,
        p.tagged is None,
        s.has_text || s.is_reblog || s.has_poll || s.has_media,
        s.is_reblog ==> !s.reblogs_blocked_account && !s.reblogs_blocked_domain,
    ensures
        crate::accounts::profile_listed(s, p, account_id, Some(account_id), true, false),
        crate::accounts::visible_to(s, Some(account_id), true, false, p.exclude_direct),
{
}

/// The ids merged into a search's results keep the exact matches first,
/// add every ranked id, and add none twice.
pub proof fn law_merge_results(found: Seq<i64>, ranked: Seq<i64>)
    requires
        found.no_duplicates(),
    ensures
        crate::search::merged(found, ranked).len() >= found.len(),
        crate::search::merged(found, ranked).subrange(0, found.len() as int) == found,
        crate::search::merged(found, ranked).no_duplicates(),
        forall|x: i64| #[trigger] crate::search::merged(found, ranked).contains(x) <==> (found.contains(x) || ranked.contains(x)),
    decreases ranked.len(),
{
    if ranked.len() > 0 {
        law_merge_results(found, ranked.drop_last());
        let before = crate::search::merged(found, ranked.drop_last());
        let x = ranked.last();
        assert forall|y: i64| ranked.drop_last().contains(y) || y == x <==> ranked.contains(y) by {
            if ranked.contains(y) {
                let k = choose|k: int| 0 <= k < ranked.len() && ranked[k] == y;
                if k < ranked.len() - 1 {
                    assert(ranked.drop_last()[k] == y);
                }
            }
            if ranked.drop_last().contains(y) {
                let k = choose|k: int| 0 <= k < ranked.drop_last().len() && ranked.drop_last()[k] == y;
                assert(ranked[k] == y);
            }
            if y == x {
                assert(ranked[ranked.len() - 1] == y);
            }
        };
        if !before.contains(x) {
            let after = before.push(x);
            assert(after.subrange(0, found.len() as int) =~= before.subrange(0, found.len() as int));
            assert forall|y: i64| #[trigger] after.contains(y) <==> before.contains(y) || y == x by {
                if after.contains(y) {
                    let k = choose|k: int| 0 <= k < after.len() && after[k] == y;
                    if k < before.len() {
                        assert(before[k] == y);
                    }
                }
                if before.contains(y) {
                    let k = choose|k: int| 0 <= k < before.len() && before[k] == y;
                    assert(after[k] == y);
                }
                if y == x {
                    assert(after[before.len() as int] == y);
                }
            };
            assert forall|a: int, b: int| 0 <= a < after.len() && 0 <= b < after.len() && a != b implies after[a] != after[b] by {
                if a < before.len() && b < before.len() {
                } else if a == before.len() {
                    assert(after[a] == x);
                    assert(before[b] == after[b]);
                } else {
                    assert(after[b] == x);
                    assert(before[a] == after[a]);
                }
            };
        }
    } else {
        assert(found.subrange(0, found.len() as int) =~= found);
    }
}


proof fn lemma_trim_start_shape(s: Seq<char>)
    ensures
        trim_start(s).len() > 0 ==> !is_white_space(trim_start(s)[0]),
        trim_start(trim_start(s)) == trim_start(s),
    decreases s.len(),
{
    if s.len() > 0 && is_white_space(s[0]) {
        lemma_trim_start_shape(s.drop_first());
    }
}

proof fn lemma_trim_end_shape(s: Seq<char>)
    ensures
        trim_end(s).len() > 0 ==> !is_white_space(trim_end(s).last()),
        trim_end(trim_end(s)) == trim_end(s),
        trim_end(s).len() <= s.len(),
        forall|i: int| 0 <= i < trim_end(s).len() ==> trim_end(s)[i] == s[i],
    decreases s.len(),
{
    if s.len() > 0 && is_white_space(s.last()) {
        lemma_trim_end_shape(s.drop_last());
        assert forall|i: int| 0 <= i < trim_end(s).len() implies trim_end(s)[i] == s[i] by {
            assert(trim_end(s)[i] == s.drop_last()[i]);
        };
    }
}

/// Trimming twice is trimming once.
pub proof fn law_trim_idempotent(s: Seq<char>)
    ensures
        trimmed(trimmed(s)) == trimmed(s),
{
    let a = trim_start(s);
    let t = trim_end(a);
    lemma_trim_start_shape(s);
    lemma_trim_end_shape(a);
    if t.len() > 0 {
        assert(t[0] == a[0]);
        assert(!is_white_space(t[0]));
    }
    assert(trim_start(t) == t);
}

/// Obfuscating a domain whose first label is longer than two bytes keeps
/// its length in bytes: one star stands for each hidden byte.
pub proof fn law_obfuscation_keeps_length(domain: Seq<char>)
    requires
        split_once_view(domain, seq!['.']) matches Some((label, _)) && encode_utf8(label).len() > 2,
    ensures
        obfuscated_bytes(domain).len() == encode_utf8(domain).len(),
{
    let (label, rest) = split_once_view(domain, seq!['.']).unwrap();
    crate::text::lemma_find_from(domain, seq!['.'], 0);
    assert(domain =~= label + (seq!['.'] + rest));
    lemma_encode_concat(label, seq!['.'] + rest);
    lemma_encode_concat(seq!['.'], rest);
    assert(seq!['.'].drop_first() =~= Seq::<char>::empty());
    assert(encode_utf8(Seq::<char>::empty()) =~= Seq::<u8>::empty());
    assert(encode_utf8(seq!['.']).len() == 1);
}

/// A policy set through the v2 form reads back as set: `filter` and `drop`
/// as `filter`, anything else as `accept`; a setting the form leaves out
/// reads as it was.
pub proof fn law_policy_reads_back(stored: i32, given: Option<Seq<char>>)
    ensures
        policy_name(
            match given {
                Some(p) => if filters_policy(p) {
                    1i32
                } else {
                    0i32
                },
                None => stored,
            } != 0,
        ) == match given {
            Some(p) => policy_name(filters_policy(p)),
            None => policy_name(stored != 0),
        },
{
}


/// An account that is suspended, or whose owner asked for its deletion,
/// shows nothing of its profile: no name, bio, fields or pictures, and is
/// marked suspended.
pub proof fn law_unavailable_account_blanked(
    r: crate::types::Account,
    urls: crate::urls::InstanceUrls,
    a: crate::models::Account,
    viewer: Option<crate::approval::AccountViewerContext>,
)
    requires
        crate::convert::account_entity(r, urls, a, viewer),
        a.unavailable(),
    ensures
        r.display_name@.len() == 0,
        r.note@.len() == 0,
        r.fields@.len() == 0,
        r.avatar@ == urls.missing_avatar_view(),
        r.header@ == urls.missing_header_view(),
        !r.locked && !r.bot && !r.indexable,
        r.suspended == Some(true),
{
    assert(crate::convert::field_views(r.fields@).len() == r.fields@.len());
}

} // verus!

verus! {

/// The ids a batch query is asked with hold every id that was collected, and
/// each only once.
pub proof fn law_unique_ids_keep_each_once(ids: Seq<i64>)
    ensures
        crate::batch::first_occurrences(ids).no_duplicates(),
        forall|x: i64| #[trigger] crate::batch::first_occurrences(ids).contains(x) <==> ids.contains(x),
{
    crate::batch::lemma_first_occurrences(ids);
}

/// The wanted ids that some row has, in the order wanted.
pub open spec fn found_ids(wanted: Seq<i64>, ids: Seq<i64>) -> Seq<i64>
    decreases wanted.len(),
{
    if wanted.len() == 0 {
        Seq::empty()
    } else {
        let before = found_ids(wanted.drop_last(), ids);
        if ids.contains(wanted.last()) {
            before.push(wanted.last())
        } else {
            before
        }
    }
}

/// Rows put in the order of a listing are the rows of the wanted ids that
/// were found, in the order they were wanted: nothing is dropped but what is
/// missing, and nothing comes out of order.
pub proof fn law_rows_follow_wanted_order(wanted: Seq<i64>, ids: Seq<i64>)
    ensures
        crate::batch::ordered_rows(wanted, ids).len() == found_ids(wanted, ids).len(),
        forall|k: int|
            0 <= k < found_ids(wanted, ids).len() ==> ids[crate::batch::ordered_rows(wanted, ids)[k]]
                == #[trigger] found_ids(wanted, ids)[k],
    decreases wanted.len(),
{
    if wanted.len() > 0 {
        let d = wanted.drop_last();
        law_rows_follow_wanted_order(d, ids);
        crate::batch::lemma_row_for(ids, wanted.last());
        let rows = crate::batch::ordered_rows(wanted, ids);
        let found = found_ids(wanted, ids);
        assert forall|k: int| 0 <= k < found.len() implies ids[rows[k]] == #[trigger] found[k] by {
            if k < found_ids(d, ids).len() {
                assert(rows[k] == crate::batch::ordered_rows(d, ids)[k]);
                assert(found[k] == found_ids(d, ids)[k]);
            }
        }
    }
}

/// A group's key names the notification it was made for.
pub proof fn law_group_key_names_its_notification(id: i64)
    ensures
        crate::notifications::group_key_id(crate::notifications::ungrouped_key_view(id as int))
            == Some(id as int),
{
    let key = crate::notifications::ungrouped_key_view(id as int);
    reveal_strlit("ungrouped-");
    assert("ungrouped-"@.len() == 10);
    assert(crate::text::is_prefix("ungrouped-"@, key)) by {
        assert(key.subrange(0, 10) =~= "ungrouped-"@);
    }
    assert(key.subrange(10, key.len() as int) =~= int_text(id as int));
    law_rendered_ids_parse_back(id);
}

} // verus!

verus! {

proof fn lemma_find_handle_push(
    es: crate::formatting::MentionEntries,
    x: (Seq<char>, Seq<char>, Seq<char>),
    k: Seq<char>,
    i: int,
)
    requires
        0 <= i,
    ensures
        crate::formatting::find_handle_from(es.push(x), k, i) == match crate::formatting::find_handle_from(
            es,
            k,
            i,
        ) {
            Some(j) => Some(j),
            None => if x.0 == k && i <= es.len() {
                Some(es.len() as int)
            } else {
                None
            },
        },
    decreases es.len() + 1 - i,
{
    if i < es.len() {
        assert(es.push(x)[i] == es[i]);
        if es[i].0 != k {
            lemma_find_handle_push(es, x, k, i + 1);
        }
    } else if i == es.len() {
        assert(es.push(x)[i] == x);
        assert(crate::formatting::find_handle_from(es.push(x), k, i + 1) is None);
    }
}

/// A status's mentions are looked up by the first entry under each handle:
/// a later mention with the same handle changes nothing, a new handle finds
/// its own entry, and the other handles are untouched.
pub proof fn law_first_mention_wins(
    es: crate::formatting::MentionEntries,
    key: Seq<char>,
    url: Seq<char>,
    display: Seq<char>,
    other: Seq<char>,
)
    ensures
        crate::formatting::handle_lookup(crate::formatting::handle_or_insert(es, key, url, display), key)
            == match crate::formatting::handle_lookup(es, key) {
            Some(v) => Some(v),
            None => Some((url, display)),
        },
        other != key ==> crate::formatting::handle_lookup(
            crate::formatting::handle_or_insert(es, key, url, display),
            other,
        ) == crate::formatting::handle_lookup(es, other),
{
    let x = (key, url, display);
    lemma_find_handle_push(es, x, key, 0);
    lemma_find_handle_push(es, x, other, 0);
    if crate::formatting::find_handle_from(es, key, 0) is None {
        assert(es.push(x)[es.len() as int] == x);
        if let Some(j) = crate::formatting::find_handle_from(es, other, 0) {
            lemma_find_handle_index(es, other, 0);
            assert(es.push(x)[j] == es[j]);
        }
    }
}

proof fn lemma_find_handle_index(es: crate::formatting::MentionEntries, k: Seq<char>, i: int)
    ensures
        crate::formatting::find_handle_from(es, k, i) matches Some(j) ==> 0 <= j < es.len(),
    decreases es.len() - i,
{
    if 0 <= i < es.len() && es[i].0 != k {
        lemma_find_handle_index(es, k, i + 1);
    }
}

/// Ids that strictly rise, one after another.
pub open spec fn strictly_rising(ids: Seq<i64>) -> bool {
    forall|i: int, j: int| 0 <= i < j < ids.len() ==> ids[i] < ids[j]
}

/// Ids that strictly fall, one after another.
pub open spec fn strictly_falling(ids: Seq<i64>) -> bool {
    forall|i: int, j: int| 0 <= i < j < ids.len() ==> ids[i] > ids[j]
}

/// Every page is served newest first: the ids read forward from `min_id`
/// come in rising, those read back from `max_id` falling, and either way
/// the served page has them falling.
pub proof fn law_pages_served_newest_first(ids: Seq<i64>, reads_forward: bool)
    requires
        reads_forward ==> strictly_rising(ids),
        !reads_forward ==> strictly_falling(ids),
    ensures
        strictly_falling(crate::pagination::served_order(ids, reads_forward)),
{
    if reads_forward {
        let r = ids.reverse();
        assert forall|i: int, j: int| 0 <= i < j < r.len() implies r[i] > r[j] by {
            assert(r[i] == ids[ids.len() - 1 - i]);
            assert(r[j] == ids[ids.len() - 1 - j]);
        }
    }
}

/// The status serializer that takes no application is the one given none:
/// what it promises is what the other promises with `None`, and the entity
/// names no application.
pub proof fn law_status_without_application(
    r: crate::types::Status,
    urls: crate::urls::InstanceUrls,
    s: crate::models::Status,
    account: crate::models::Account,
    media: Seq<crate::models::MediaAttachment>,
    viewer: Option<crate::approval::StatusViewerContext>,
    application: Option<crate::types::Application>,
    mentions: Seq<crate::formatting::StatusMention>,
)
    requires
        application is None,
    ensures
        crate::convert::status_entity(r, urls, s, account, media, viewer, application, mentions)
            == crate::convert::status_entity(r, urls, s, account, media, viewer, None, mentions),
        crate::convert::status_entity(r, urls, s, account, media, viewer, None, mentions)
            ==> r.application is None,
{
}

/// The account serializer without a viewer is the one given no viewer: the
/// current user may not feature the account, no counts, emoji or roles are
/// shown, and no source, role or move.
pub proof fn law_account_without_viewer(
    r: crate::types::Account,
    urls: crate::urls::InstanceUrls,
    a: crate::models::Account,
)
    requires
        crate::convert::account_entity(r, urls, a, None),
    ensures
        r.feature_approval.current_user@ == "denied"@,
        r.followers_count == 0 && r.following_count == 0 && r.statuses_count == 0,
        r.emojis@.len() == 0 && r.roles@.len() == 0,
        r.source is None && r.role is None && r.moved is None,
{
}

/// Two viewers of one account see the same entity, but for whether they
/// may feature it.
pub proof fn law_viewers_change_only_current_user(
    r1: crate::types::Account,
    r2: crate::types::Account,
    urls: crate::urls::InstanceUrls,
    a: crate::models::Account,
    v1: Option<crate::approval::AccountViewerContext>,
    v2: Option<crate::approval::AccountViewerContext>,
)
    requires
        crate::convert::account_entity(r1, urls, a, v1),
        crate::convert::account_entity(r2, urls, a, v2),
    ensures
        r1.id@ == r2.id@ && r1.username@ == r2.username@ && r1.acct@ == r2.acct@,
        r1.display_name@ == r2.display_name@ && r1.note@ == r2.note@,
        r1.locked == r2.locked && r1.bot == r2.bot && r1.group == r2.group,
        r1.discoverable == r2.discoverable && r1.indexable == r2.indexable,
        r1.hide_collections == r2.hide_collections,
        r1.created_at@ == r2.created_at@ && r1.url@ == r2.url@ && r1.uri@ == r2.uri@,
        r1.avatar@ == r2.avatar@ && r1.avatar_static@ == r2.avatar_static@,
        r1.header@ == r2.header@ && r1.header_static@ == r2.header_static@,
        r1.avatar_description@ == r2.avatar_description@,
        r1.header_description@ == r2.header_description@,
        r1.show_media == r2.show_media && r1.show_media_replies == r2.show_media_replies
            && r1.show_featured == r2.show_featured,
        crate::models::views(r1.feature_approval.automatic@) == crate::models::views(
            r2.feature_approval.automatic@,
        ),
        crate::models::views(r1.feature_approval.manual@) == crate::models::views(
            r2.feature_approval.manual@,
        ),
        r1.followers_count == r2.followers_count && r1.following_count == r2.following_count
            && r1.statuses_count == r2.statuses_count,
        r1.last_status_at == r2.last_status_at,
        r1.emojis@.len() == r2.emojis@.len() && r1.roles@.len() == r2.roles@.len(),
        crate::convert::field_views(r1.fields@) == crate::convert::field_views(r2.fields@),
        r1.moved == r2.moved,
        r1.suspended == r2.suspended && r1.limited == r2.limited && r1.noindex == r2.noindex,
        r1.memorial == r2.memorial && r1.invalid_handle == r2.invalid_handle,
        r1.mute_expires_at == r2.mute_expires_at && r1.source == r2.source && r1.role == r2.role,
{
}

proof fn lemma_decimal_short(n: nat)
    ensures
        n < 10 ==> decimal(n).len() == 1,
        n < 100 ==> decimal(n).len() <= 2,
        n < 1000 ==> decimal(n).len() <= 3,
        n < 10000 ==> decimal(n).len() <= 4,
        decimal(n).len() >= 1,
    decreases n,
{
    if n >= 10 {
        lemma_decimal_short(n / 10);
    }
}

proof fn lemma_padded_width(n: nat, width: nat)
    requires
        decimal(n).len() <= width,
    ensures
        crate::text::padded(n, width).len() == width,
{
}

/// Every timestamp of a four-digit year renders in the API's format as 24
/// characters ending in `Z`.
pub proof fn law_dates_render_in_24_chars(t: crate::models::Timestamp)
    requires
        crate::calendar::valid_timestamp(t),
        0 <= t.year <= 9999,
    ensures
        crate::models::mastodon_text(t).len() == 24,
        crate::models::mastodon_text(t).last() == 'Z',
{
    lemma_decimal_short(t.year as nat);
    lemma_decimal_short(t.month as nat);
    lemma_decimal_short(t.day as nat);
    lemma_decimal_short(t.hour as nat);
    lemma_decimal_short(t.minute as nat);
    lemma_decimal_short(t.second as nat);
    lemma_decimal_short(t.millis as nat);
    lemma_padded_width(t.year as nat, 4);
    lemma_padded_width(t.month as nat, 2);
    lemma_padded_width(t.day as nat, 2);
    lemma_padded_width(t.hour as nat, 2);
    lemma_padded_width(t.minute as nat, 2);
    lemma_padded_width(t.second as nat, 2);
    lemma_padded_width(t.millis as nat, 3);
}

/// Two relationship entities that agree in every field.
pub open spec fn same_relationship(a: crate::relationships::Relationship, b: crate::relationships::Relationship) -> bool {
    &&& a.id@ == b.id@
    &&& a.following == b.following && a.showing_reblogs == b.showing_reblogs && a.notifying == b.notifying
    &&& match (a.languages, b.languages) {
        (Some(x), Some(y)) => crate::relationships::strings(x) == crate::relationships::strings(y),
        (None, None) => true,
        _ => false,
    }
    &&& a.followed_by == b.followed_by && a.blocking == b.blocking && a.blocked_by == b.blocked_by
    &&& a.muting == b.muting && a.muting_notifications == b.muting_notifications
    &&& crate::pagination::opt_seq(a.muting_expires_at) == crate::pagination::opt_seq(b.muting_expires_at)
    &&& a.requested == b.requested && a.requested_by == b.requested_by
    &&& a.domain_blocking == b.domain_blocking && a.endorsed == b.endorsed
    &&& a.note@ == b.note@
}

/// A batch of relationships is the single builder's relationship for each
/// target, in the order of the ids.
pub proof fn law_batch_relationships_match_single(
    rs: Seq<crate::relationships::Relationship>,
    target_ids: Seq<i64>,
    facts: Seq<crate::relationships::RelationshipFacts>,
    i: int,
    single: crate::relationships::Relationship,
)
    requires
        crate::relationships::relationships_hold(rs, target_ids, facts),
        0 <= i < target_ids.len(),
        crate::relationships::relationship_holds(single, target_ids[i], facts[i]),
    ensures
        rs.len() == target_ids.len(),
        same_relationship(rs[i], single),
{
    assert(crate::relationships::relationship_holds(rs[i], target_ids[i], facts[i]));
}

proof fn lemma_paragraphs_shape(s: Seq<char>, domain: Seq<char>, map: crate::formatting::MentionEntries)
    ensures
        crate::formatting::paragraphs_html(s, domain, map).len() >= 7,
        crate::formatting::paragraphs_html(s, domain, map).subrange(0, 3) == "<p>"@,
        ({
            let h = crate::formatting::paragraphs_html(s, domain, map);
            h.subrange(h.len() - 4, h.len() as int) == "</p>"@
        }),
    decreases s.len(),
{
    reveal_strlit("<p>");
    reveal_strlit("</p>");
    crate::text::lemma_find_from(s, crate::formatting::para_break(), 0);
    match crate::text::find(s, crate::formatting::para_break()) {
        Some(i) => {
            let p = crate::formatting::paragraph_html(s.subrange(0, i), domain, map);
            let rest = crate::formatting::paragraphs_html(s.subrange(i + 2, s.len() as int), domain, map);
            lemma_paragraphs_shape(s.subrange(i + 2, s.len() as int), domain, map);
            assert((p + rest).subrange(0, 3) =~= p.subrange(0, 3));
            assert(p.subrange(0, 3) =~= "<p>"@);
            let h = p + rest;
            assert(h.subrange(h.len() - 4, h.len() as int) =~= rest.subrange(
                rest.len() - 4,
                rest.len() as int,
            ));
        },
        None => {
            let p = crate::formatting::paragraph_html(s, domain, map);
            assert(p.subrange(0, 3) =~= "<p>"@);
            assert(p.subrange(p.len() - 4, p.len() as int) =~= "</p>"@);
        },
    }
}

/// A local account's bio is served as HTML: the plain text rendered into
/// paragraphs with the instance's domain and no mentions, so the note
/// opens with `<p>` and closes with `</p>`. A remote account's bio is
/// served as it federated.
pub proof fn law_local_bio_rendered(
    r: crate::types::Account,
    urls: crate::urls::InstanceUrls,
    a: crate::models::Account,
    viewer: Option<crate::approval::AccountViewerContext>,
)
    requires
        crate::convert::account_entity(r, urls, a, viewer),
        !a.unavailable(),
        a.note@.len() > 0,
    ensures
        a.domain is None ==> r.note@ == crate::formatting::rendered(
            a.note@,
            urls.local_domain_view(),
            Seq::empty(),
        ),
        a.domain is None ==> r.note@.len() >= 7 && r.note@.subrange(0, 3) == "<p>"@ && r.note@.subrange(
            r.note@.len() - 4,
            r.note@.len() as int,
        ) == "</p>"@,
        a.domain is Some ==> r.note@ == a.note@,
{
    lemma_paragraphs_shape(a.note@, urls.local_domain_view(), Seq::empty());
}

/// The domain a local status is rendered with is the host of its
/// `https://` id: for an id `https://H/P` with no `/` in `H`, hashtags link
/// under `https://H/tags/`.
pub proof fn law_status_domain_is_host(
    r: crate::types::Status,
    urls: crate::urls::InstanceUrls,
    s: crate::models::Status,
    account: crate::models::Account,
    media: Seq<crate::models::MediaAttachment>,
    viewer: Option<crate::approval::StatusViewerContext>,
    application: Option<crate::types::Application>,
    mentions: Seq<crate::formatting::StatusMention>,
    host: Seq<char>,
    path: Seq<char>,
)
    requires
        crate::convert::status_entity(r, urls, s, account, media, viewer, application, mentions),
        account.domain is None,
        s.uri matches Some(u) && u@ == "https://"@ + host + "/"@ + path,
        !host.contains('/'),
    ensures
        crate::convert::status_domain(crate::urls::opt_view(s.uri)) == host,
        r.content@ == crate::formatting::rendered(
            s.text@,
            host,
            crate::formatting::mention_entries(mentions),
        ),
{
    reveal_strlit("https://");
    reveal_strlit("/");
    let u = "https://"@ + host + "/"@ + path;
    assert(crate::text::is_prefix("https://"@, u)) by {
        assert(u.subrange(0, 8) =~= "https://"@);
    }
    let t = u.subrange(8, u.len() as int);
    assert(t =~= host + "/"@ + path);
    let k = host.len() as int;
    assert(crate::text::occurs_at(t, "/"@, k)) by {
        assert(t.subrange(k, k + 1) =~= "/"@);
    }
    crate::text::lemma_find_from(t, "/"@, 0);
    match crate::text::find(t, "/"@) {
        Some(j) => {
            if j < k {
                assert(t.subrange(j, j + 1)[0] == t[j]);
                assert(t[j] == host[j]);
                assert(host.contains('/'));
            }
            assert(j == k);
            assert(t.subrange(0, j) =~= host);
        },
        None => {},
    }
}

/// Storing the form's preferences writes each one it gives under its key,
/// as given, and leaves the others as they were: `web.default_sensitive`
/// holds the submitted flag, `default_privacy` and `default_quote_policy`
/// the submitted names, and `default_language` the language or null.
pub proof fn law_settings_store_what_was_given(
    s: Seq<(Seq<char>, crate::json::Json)>,
    form: crate::credentials::CredentialsForm,
)
    ensures
        ({
            let out = crate::credentials::settings_after(s, form);
            &&& form.source_sensitive matches Some(b) ==> lookup(out, "web.default_sensitive"@) == Some(
                Json::Bool(b),
            )
            &&& form.source_sensitive is None ==> lookup(out, "web.default_sensitive"@) == lookup(
                s,
                "web.default_sensitive"@,
            )
            &&& form.source_privacy matches Some(p) ==> lookup(out, "default_privacy"@) == Some(
                Json::Str(p@),
            )
            &&& form.source_quote_policy matches Some(q) ==> lookup(out, "default_quote_policy"@)
                == Some(Json::Str(q@))
            &&& form.source_language matches Some(Some(l)) ==> lookup(out, "default_language"@)
                == Some(Json::Str(l@))
            &&& form.source_language matches Some(None) ==> lookup(out, "default_language"@) == Some(
                Json::Null,
            )
        }),
{
    reveal_strlit("web.default_sensitive");
    reveal_strlit("default_privacy");
    reveal_strlit("default_language");
    reveal_strlit("default_quote_policy");
    let ks = "web.default_sensitive"@;
    let kp = "default_privacy"@;
    let kl = "default_language"@;
    let kq = "default_quote_policy"@;
    assert(ks.len() == 21 && kp.len() == 15 && kl.len() == 16 && kq.len() == 20);
    let s1 = match form.source_privacy {
        Some(p) => crate::json::insert_entry(s, kp, Json::Str(p@)),
        None => s,
    };
    let s2 = match form.source_sensitive {
        Some(b) => crate::json::insert_entry(s1, ks, Json::Bool(b)),
        None => s1,
    };
    let s3 = match form.source_language {
        Some(Some(l)) => crate::json::insert_entry(s2, kl, Json::Str(l@)),
        Some(None) => crate::json::insert_entry(s2, kl, Json::Null),
        None => s2,
    };
    // Each write lands under its own key and no later write touches it.
    match form.source_privacy {
        Some(p) => {
            crate::json::lemma_lookup_insert_same(s, kp, Json::Str(p@));
        },
        None => {
            crate::json::lemma_lookup_insert_same(s, kp, Json::Null);
        },
    }
    match form.source_sensitive {
        Some(b) => {
            crate::json::lemma_lookup_insert_same(s1, ks, Json::Bool(b));
            crate::json::lemma_lookup_insert_other(s1, ks, Json::Bool(b), kp);
        },
        None => {},
    }
    if let Some(p) = form.source_privacy {
        crate::json::lemma_lookup_insert_other(s, kp, Json::Str(p@), ks);
    }
    match form.source_language {
        Some(Some(l)) => {
            crate::json::lemma_lookup_insert_same(s2, kl, Json::Str(l@));
            crate::json::lemma_lookup_insert_other(s2, kl, Json::Str(l@), ks);
            crate::json::lemma_lookup_insert_other(s2, kl, Json::Str(l@), kp);
        },
        Some(None) => {
            crate::json::lemma_lookup_insert_same(s2, kl, Json::Null);
            crate::json::lemma_lookup_insert_other(s2, kl, Json::Null, ks);
            crate::json::lemma_lookup_insert_other(s2, kl, Json::Null, kp);
        },
        None => {},
    }
    match form.source_quote_policy {
        Some(q) => {
            crate::json::lemma_lookup_insert_same(s3, kq, Json::Str(q@));
            crate::json::lemma_lookup_insert_other(s3, kq, Json::Str(q@), ks);
            crate::json::lemma_lookup_insert_other(s3, kq, Json::Str(q@), kp);
            crate::json::lemma_lookup_insert_other(s3, kq, Json::Str(q@), kl);
        },
        None => {},
    }
}

/// A notifications listing includes filtered notifications exactly when the
/// first `include_filtered` parameter is `true` or `1`; any other value,
/// or none, leaves them out (unless the listing is of one account).
pub proof fn law_include_filtered_true(
    f: crate::notifications::NotifFilters,
    pairs: Seq<(Seq<char>, Seq<char>)>,
)
    requires
        crate::notifications::filters_hold(f, pairs),
    ensures
        crate::notifications::first_value(pairs, "include_filtered"@) == Some("true"@) ==> f.include_filtered,
        crate::notifications::first_value(pairs, "include_filtered"@) == Some("1"@) ==> f.include_filtered,
        f.include_filtered ==> (crate::notifications::first_value(pairs, "include_filtered"@) == Some("true"@)
            || crate::notifications::first_value(pairs, "include_filtered"@) == Some("1"@)),
{
}

/// A stored media file is served at its original-style path under the
/// media base, `/media_attachments/files/<id path>/original/<file>`, and its
/// preview, when there is no thumbnail, at the small style of the same file:
/// the two URLs differ.
pub proof fn law_media_url_is_original(
    r: crate::types::MediaAttachment,
    urls: crate::urls::InstanceUrls,
    m: crate::models::MediaAttachment,
)
    requires
        crate::convert::media_entity(r, urls, m),
        m.file_file_name matches Some(f) && f@.len() > 0,
    ensures
        crate::urls::opt_view(r.url) == Some(
            urls.media_base_view() + "/media_attachments/files/"@ + crate::urls::id_path(m.id as int)
                + "/original/"@ + m.file_file_name->0@,
        ),
        !crate::urls::present(crate::urls::opt_view(m.thumbnail_file_name)) ==> crate::urls::opt_view(r.url)
            != crate::urls::opt_view(r.preview_url),
{
    reveal_strlit("/media_attachments/files/");
    reveal_strlit("media_attachments/files");
    reveal_strlit("/original/");
    reveal_strlit("original");
    reveal_strlit("small");
    let base = urls.media_base_view();
    let f = m.file_file_name->0@;
    let idp = crate::urls::id_path(m.id as int);
    let u = crate::urls::stored_url(base, "media_attachments/files"@, m.id as int, "original"@, f);
    assert(u =~= base + "/media_attachments/files/"@ + idp + "/original/"@ + f);
    if !crate::urls::present(crate::urls::opt_view(m.thumbnail_file_name)) {
        let v = crate::urls::stored_url(base, "media_attachments/files"@, m.id as int, "small"@, f);
        let k: int = base.len() as int + 26 + idp.len() as int;
        assert(u[k] == 'o');
        assert(v[k] == 's');
    }
}

} // verus!
