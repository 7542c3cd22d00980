//! The `meta` that visual media carry: `original` and `small` dimensions, in
//! the shapes Mastodon stores (`image_geometry` and `video_metadata`).
use vstd::prelude::*;
use crate::json::{
    as_int, entry_index, entry_set, find_key, has_key, insert_entry, jget, jinsert, json_entries,
    json_of, lemma_entries, lemma_find_from, Json, JsonValue,
};
use crate::text::{int_text, int_to_string, owned, push_int, push_str, str_eq};

verus! {

// ── Scaling ────────────────────────────────────────────────────────────────

/// `n` is `d * sqrt(max_px / (d * other))` rounded half up: the side `d` of a
/// `d` by `other` picture scaled to `max_px` pixels, kept at least 1.
pub open spec fn is_scaled_side(n: int, d: int, other: int, max_px: int) -> bool {
    if 4 * d * max_px < other {
        n == 1
    } else {
        n >= 1 && (2 * n - 1) * (2 * n - 1) * other <= 4 * d * max_px && 4 * d * max_px < (2 * n
            + 1) * (2 * n + 1) * other
    }
}

pub open spec fn scaled_side(d: int, other: int, max_px: int) -> int {
    choose|n: int| is_scaled_side(n, d, other, max_px)
}

/// A `w` by `h` picture fit within `max_px` pixels, aspect kept and never
/// enlarged (Paperclip's `pixels:` geometry).
pub open spec fn scaled(w: int, h: int, max_px: int) -> (int, int) {
    if w * h <= max_px {
        (w, h)
    } else {
        (scaled_side(w, h, max_px), scaled_side(h, w, max_px))
    }
}

proof fn lemma_square_mono(a: int, b: int)
    requires
        0 <= a <= b,
    ensures
        a * a <= b * b,
{
    assert(a * a <= b * b) by (nonlinear_arith)
        requires
            0 <= a <= b,
    ;
}

proof fn lemma_scaled_side_unique(n: int, m: int, d: int, other: int, max_px: int)
    requires
        is_scaled_side(n, d, other, max_px),
        is_scaled_side(m, d, other, max_px),
        other > 0,
    ensures
        n == m,
{
    if 4 * d * max_px >= other && n != m {
        let (lo, hi) = if n < m {
            (n, m)
        } else {
            (m, n)
        };
        lemma_square_mono(2 * lo + 1, 2 * hi - 1);
        let a = (2 * lo + 1) * (2 * lo + 1);
        let b = (2 * hi - 1) * (2 * hi - 1);
        assert(a * other <= b * other) by (nonlinear_arith)
            requires
                a <= b,
                other > 0,
        ;
    }
}

/// The floor of the square root.
fn isqrt(q: u128) -> (r: u64)
    ensures
        r * r <= q < (r + 1) * (r + 1),
{
    let mut lo: u128 = 0;
    let mut hi: u128 = 0x1_0000_0000_0000_0000;
    assert(q < hi * hi) by (nonlinear_arith)
        requires
            hi == 0x1_0000_0000_0000_0000u128,
            q <= u128::MAX,
    ;
    while hi - lo > 1
        invariant
            lo < hi <= 0x1_0000_0000_0000_0000u128,
            lo * lo <= q < hi * hi,
        decreases hi - lo,
    {
        let mid = lo + (hi - lo) / 2;
        assert(mid * mid <= u128::MAX) by (nonlinear_arith)
            requires
                mid < 0x1_0000_0000_0000_0000u128,
        ;
        if mid * mid <= q {
            lo = mid;
        } else {
            hi = mid;
        }
    }
    assert(hi == lo + 1);
    lo as u64
}

fn scaled_side_exec(d: i64, other: i64, max_px: i64) -> (n: i64)
    requires
        d > 0,
        other > 0,
        max_px > 0,
        d * other > max_px,
    ensures
        n == scaled_side(d as int, other as int, max_px as int),
        1 <= n <= d,
{
    assert(4 * (d as u128) * (max_px as u128) <= u128::MAX) by (nonlinear_arith)
        requires
            0 < d <= i64::MAX,
            0 < max_px <= i64::MAX,
    ;
    let num: u128 = 4 * (d as u128) * (max_px as u128);
    let q: u128 = num / (other as u128);
    let r = isqrt(q);
    let n0: u128 = ((r as u128) + 1) / 2;
    proof {
        let di = d as int;
        let oi = other as int;
        let mi = max_px as int;
        let ni = n0 as int;
        let ri = r as int;
        let qi = q as int;
        assert(num == 4 * di * mi);
        assert(qi * oi <= 4 * di * mi < (qi + 1) * oi) by (nonlinear_arith)
            requires
                qi == (4 * di * mi) / oi,
                oi > 0,
                4 * di * mi >= 0,
        ;
        // The odd numbers around `r` bracket `q`.
        if ri >= 1 {
            if ri % 2 == 1 {
                assert(ri == 2 * ni - 1);
                assert(qi < (2 * ni + 1) * (2 * ni + 1)) by (nonlinear_arith)
                    requires
                        ri == 2 * ni - 1,
                        ri >= 1,
                        qi < (ri + 1) * (ri + 1),
                ;
            } else {
                assert(ri == 2 * ni);
                assert((2 * ni - 1) * (2 * ni - 1) <= qi) by (nonlinear_arith)
                    requires
                        ri == 2 * ni,
                        ri >= 1,
                        ri * ri <= qi,
                ;
            }
        }
        if 4 * di * mi < oi {
            assert(qi == 0) by (nonlinear_arith)
                requires
                    qi * oi <= 4 * di * mi < oi,
                    oi > 0,
                    qi >= 0,
            ;
            assert(ri == 0) by (nonlinear_arith)
                requires
                    ri * ri <= qi,
                    qi == 0,
                    ri >= 0,
            ;
            assert(ni == 0);
        } else {
            assert(qi >= 1) by (nonlinear_arith)
                requires
                    oi <= 4 * di * mi < (qi + 1) * oi,
                    oi > 0,
                    qi >= 0,
            ;
            assert(ri >= 1) by (nonlinear_arith)
                requires
                    ri >= 0,
                    qi < (ri + 1) * (ri + 1),
                    qi >= 1,
            ;
            assert(ni >= 1);
            let a = (2 * ni - 1) * (2 * ni - 1);
            let b = (2 * ni + 1) * (2 * ni + 1);
            assert(a * oi <= qi * oi) by (nonlinear_arith)
                requires
                    a <= qi,
                    oi > 0,
            ;
            assert((qi + 1) * oi <= b * oi) by (nonlinear_arith)
                requires
                    qi + 1 <= b,
                    oi > 0,
            ;
            assert(is_scaled_side(ni, di, oi, mi));
        }
    }
    let n: i64 = if n0 < 1 {
        1
    } else {
        // `n0` is within `d`, since `d * other > max_px` makes `q < 4 d^2`.
        proof {
            let di = d as int;
            let oi = other as int;
            let mi = max_px as int;
            let ni = n0 as int;
            assert(4 * di * mi < 4 * di * di * oi) by (nonlinear_arith)
                requires
                    di * oi > mi,
                    di > 0,
            ;
            assert((2 * ni - 1) * (2 * ni - 1) * oi <= 4 * di * mi);
            assert(ni <= di) by (nonlinear_arith)
                requires
                    (2 * ni - 1) * (2 * ni - 1) * oi <= 4 * di * mi,
                    4 * di * mi < 4 * di * di * oi,
                    oi > 0,
                    ni >= 1,
                    di > 0,
            ;
        }
        n0 as i64
    };
    proof {
        assert(is_scaled_side(n as int, d as int, other as int, max_px as int));
        let c = scaled_side(d as int, other as int, max_px as int);
        assert(is_scaled_side(c, d as int, other as int, max_px as int));
        lemma_scaled_side_unique(n as int, c, d as int, other as int, max_px as int);
    }
    n
}

/// Scale `(w, h)` to fit within `max_px` pixels, preserving aspect and never
/// enlarging.
pub fn scaled_to_pixels(w: i64, h: i64, max_px: i64) -> (r: (i64, i64))
    requires
        w > 0,
        h > 0,
        max_px > 0,
    ensures
        (r.0 as int, r.1 as int) == scaled(w as int, h as int, max_px as int),
        1 <= r.0 <= w,
        1 <= r.1 <= h,
{
    assert((w as i128) * (h as i128) <= i128::MAX) by (nonlinear_arith)
        requires
            0 < w <= i64::MAX,
            0 < h <= i64::MAX,
    ;
    let area: i128 = (w as i128) * (h as i128);
    if area <= max_px as i128 {
        return (w, h);
    }
    proof {
        assert(w * h == h * w) by (nonlinear_arith);
    }
    (scaled_side_exec(w, h, max_px), scaled_side_exec(h, w, max_px))
}

// ── Geometry ───────────────────────────────────────────────────────────────

/// `"WxH"`.
pub open spec fn size_text(w: int, h: int) -> Seq<char> {
    int_text(w) + "x"@ + int_text(h)
}

/// Mastodon's `image_geometry`: `{width, height, size: "WxH", aspect: w/h}`.
pub open spec fn geometry(w: int, h: int) -> Json {
    Json::Object(
        seq![
            ("width"@, Json::Int(w)),
            ("height"@, Json::Int(h)),
            ("size"@, Json::Str(size_text(w, h))),
            ("aspect"@, Json::Ratio(w, h)),
        ],
    )
}

/// Video metadata without frame rate, duration or bitrate: `{width, height}`.
pub open spec fn bare_dims(w: int, h: int) -> Json {
    Json::Object(seq![("width"@, Json::Int(w)), ("height"@, Json::Int(h))])
}

fn size_string(w: i64, h: i64) -> (s: String)
    ensures
        s@ == size_text(w as int, h as int),
{
    let mut s = int_to_string(w);
    push_str(&mut s, "x");
    push_int(&mut s, h);
    s
}

pub fn image_geometry(w: i64, h: i64) -> (r: JsonValue)
    ensures
        json_of(r) == geometry(w as int, h as int),
{
    let mut es: Vec<(String, JsonValue)> = Vec::new();
    es.push((owned("width"), JsonValue::Int(w)));
    es.push((owned("height"), JsonValue::Int(h)));
    es.push((owned("size"), JsonValue::Str(size_string(w, h))));
    es.push((owned("aspect"), JsonValue::Ratio(w, h)));
    proof {
        lemma_entries(es@);
        assert(json_entries(es@) =~= seq![
            ("width"@, Json::Int(w as int)),
            ("height"@, Json::Int(h as int)),
            ("size"@, Json::Str(size_text(w as int, h as int))),
            ("aspect"@, Json::Ratio(w as int, h as int)),
        ]);
    }
    JsonValue::Object(es)
}

fn bare_dims_value(w: i64, h: i64) -> (r: JsonValue)
    ensures
        json_of(r) == bare_dims(w as int, h as int),
{
    let mut es: Vec<(String, JsonValue)> = Vec::new();
    es.push((owned("width"), JsonValue::Int(w)));
    es.push((owned("height"), JsonValue::Int(h)));
    proof {
        lemma_entries(es@);
        assert(json_entries(es@) =~= seq![
            ("width"@, Json::Int(w as int)),
            ("height"@, Json::Int(h as int)),
        ]);
    }
    JsonValue::Object(es)
}

// ── Ensuring the shape ─────────────────────────────────────────────────────

/// The model of an optional stored document.
pub open spec fn opt_json(v: Option<JsonValue>) -> Option<Json> {
    match v {
        Some(x) => Some(json_of(x)),
        None => None,
    }
}

pub open spec fn is_image_type(t: Seq<char>) -> bool {
    t == "image"@
}

pub open spec fn is_video_type(t: Seq<char>) -> bool {
    t == "gifv"@ || t == "video"@
}

/// The stored meta as an object: anything else counts as `{}`.
pub open spec fn base_meta(file_meta: Option<Json>) -> Json {
    match file_meta {
        Some(Json::Object(es)) => Json::Object(es),
        _ => Json::Object(Seq::empty()),
    }
}

/// `original.width` and `original.height`, when both are positive integers.
pub open spec fn positive_dims(original: Option<Json>) -> Option<(int, int)> {
    match original {
        Some(o) => match (as_int(jget(o, "width"@)), as_int(jget(o, "height"@))) {
            (Some(w), Some(h)) => if w > 0 && h > 0 {
                Some((w, h))
            } else {
                None
            },
            _ => None,
        },
        None => None,
    }
}

/// `entry(key).or_insert(val)`.
pub open spec fn or_insert(es: Seq<(Seq<char>, Json)>, key: Seq<char>, val: Json) -> Seq<(Seq<char>, Json)> {
    if find_key(es, key) is Some {
        es
    } else {
        insert_entry(es, key, val)
    }
}

/// The pixel budget of the `small` style.
pub const SMALL_PIXELS: i64 = 230_400;

/// The meta served for a media attachment of `media_type`:
/// - image: `original` and `small` are both `image_geometry`;
/// - gifv and video: `original` is video metadata (no size or aspect), and
///   `small` is the `image_geometry` of a 230 400-pixel thumbnail;
/// - anything else: the stored meta, untouched.
/// Existing blocks are kept; an `original` without positive dimensions is
/// replaced by a neutral 1x1 one.
pub open spec fn media_dims(file_meta: Option<Json>, media_type: Seq<char>) -> Json {
    let m0 = base_meta(file_meta);
    let img = is_image_type(media_type);
    if !img && !is_video_type(media_type) {
        m0
    } else {
        let d = positive_dims(jget(m0, "original"@));
        let w = match d {
            Some(p) => p.0,
            None => 1,
        };
        let h = match d {
            Some(p) => p.1,
            None => 1,
        };
        let m1 = match d {
            Some(_) => m0,
            None => jinsert(
                m0,
                "original"@,
                if img {
                    geometry(1, 1)
                } else {
                    bare_dims(1, 1)
                },
            ),
        };
        let m2 = if img {
            match jget(m1, "original"@) {
                Some(Json::Object(oes)) => jinsert(
                    m1,
                    "original"@,
                    Json::Object(
                        or_insert(
                            or_insert(oes, "size"@, Json::Str(size_text(w, h))),
                            "aspect"@,
                            Json::Ratio(w, h),
                        ),
                    ),
                ),
                _ => m1,
            }
        } else {
            m1
        };
        if has_key(m2, "small"@) {
            m2
        } else {
            jinsert(
                m2,
                "small"@,
                geometry(scaled(w, h, 230_400).0, scaled(w, h, 230_400).1),
            )
        }
    }
}

/// `original`'s positive dimensions among an object's entries.
fn original_dims(es: &Vec<(String, JsonValue)>) -> (r: Option<(i64, i64)>)
    ensures
        match r {
            Some(p) => positive_dims(jget(Json::Object(json_entries(es@)), "original"@)) == Some(
                (p.0 as int, p.1 as int),
            ),
            None => positive_dims(jget(Json::Object(json_entries(es@)), "original"@)) is None,
        },
{
    let o = match crate::json::entry_get(es, "original") {
        Some(o) => o,
        None => return None,
    };
    let w = match crate::json::json_get(o, "width") {
        Some(JsonValue::Int(w)) => *w,
        _ => return None,
    };
    let h = match crate::json::json_get(o, "height") {
        Some(JsonValue::Int(h)) => *h,
        _ => return None,
    };
    if w > 0 && h > 0 {
        Some((w, h))
    } else {
        None
    }
}

/// `entry(key).or_insert(val)` on an object's entries.
fn entry_or_insert(es: &mut Vec<(String, JsonValue)>, key: &str, val: JsonValue)
    ensures
        json_entries(final(es)@) == or_insert(json_entries(old(es)@), key@, json_of(val)),
{
    if entry_index(es, key).is_none() {
        entry_set(es, owned(key), val);
    }
}

/// Guarantee the `meta` shape Mastodon stores for visual media (see
/// [`media_dims`]), so that clients sizing a grid by aspect ratios never
/// divide by zero.
pub fn ensure_media_dims(file_meta: Option<JsonValue>, media_type: &str) -> (r: JsonValue)
    ensures
        json_of(r) == media_dims(opt_json(file_meta), media_type@),
{
    let ghost fm = opt_json(file_meta);
    let mut es: Vec<(String, JsonValue)> = match file_meta {
        Some(JsonValue::Object(es)) => es,
        _ => Vec::new(),
    };
    proof {
        lemma_entries(es@);
        assert(Json::Object(json_entries(es@)) == base_meta(fm));
    }
    let is_image = str_eq(media_type, "image");
    let is_video = str_eq(media_type, "gifv") || str_eq(media_type, "video");
    if !is_image && !is_video {
        return JsonValue::Object(es);
    }
    let dims = original_dims(&es);
    let (w, h) = match dims {
        Some(d) => d,
        None => {
            let orig = if is_image {
                image_geometry(1, 1)
            } else {
                bare_dims_value(1, 1)
            };
            entry_set(&mut es, owned("original"), orig);
            (1i64, 1i64)
        },
    };
    let ghost m1 = Json::Object(json_entries(es@));
    if is_image {
        match entry_index(&es, "original") {
            Some(i) => {
                let ghost before = es@;
                proof {
                    lemma_entries(es@);
                    lemma_find_from(json_entries(es@), "original"@, 0);
                }
                let (k, v) = es.remove(i);
                let v2 = match v {
                    JsonValue::Object(mut oes) => {
                        let ghost o0 = json_entries(oes@);
                        let size = size_string(w, h);
                        entry_or_insert(&mut oes, "size", JsonValue::Str(size));
                        entry_or_insert(&mut oes, "aspect", JsonValue::Ratio(w, h));
                        JsonValue::Object(oes)
                    },
                    other => other,
                };
                let ghost is_obj = v2 is Object;
                es.insert(i, (k, v2));
                proof {
                    lemma_entries(es@);
                    lemma_entries(before);
                    if is_obj {
                        assert(json_entries(es@) =~= json_entries(before).update(
                            i as int,
                            ("original"@, json_of(v2)),
                        ));
                    } else {
                        assert(es@ =~= before);
                    }
                }
            },
            None => {},
        }
    }
    if entry_index(&es, "small").is_none() {
        let (sw, sh) = scaled_to_pixels(w, h, SMALL_PIXELS);
        entry_set(&mut es, owned("small"), image_geometry(sw, sh));
    }
    JsonValue::Object(es)
}

} // verus!
