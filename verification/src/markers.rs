//! Read markers: which timelines a request asks about, and the positions a
//! client sets, from a form body or a JSON one.
use vstd::prelude::*;
use vstd::utf8::{decode_utf8, encode_utf8, valid_utf8};
use crate::json::{jget, json_get, json_of, Json, JsonValue};
use crate::pagination::{opt_seq, parse_i64, parse_i64_view, query_pairs, query_pieces};
use crate::text::{int_text, int_to_string, owned, split_once, split_once_view, str_eq};

verus! {

/// The value of a hexadecimal digit byte, when it is one.
pub open spec fn hex_value(b: u8) -> Option<int> {
    if 48 <= b <= 57 {
        Some(b - 48)
    } else if 65 <= b <= 70 {
        Some(b - 55)
    } else if 97 <= b <= 102 {
        Some(b - 87)
    } else {
        None
    }
}

/// Percent-decoding: each `%` followed by two hex digits becomes the byte
/// they spell; every other byte, a lone `%` included, stays. `+` stays too.
pub open spec fn pct_decoded(b: Seq<u8>) -> Seq<u8>
    decreases b.len(),
{
    if b.len() == 0 {
        Seq::empty()
    } else if b[0] == 37 && b.len() >= 3 && hex_value(b[1]) is Some && hex_value(b[2]) is Some {
        seq![(hex_value(b[1]).unwrap() * 16 + hex_value(b[2]).unwrap()) as u8] + pct_decoded(
            b.subrange(3, b.len() as int),
        )
    } else {
        seq![b[0]] + pct_decoded(b.drop_first())
    }
}

/// Calls `urlencoding::decode`: the percent-decoded text when its bytes are
/// valid UTF-8, else none.
#[verifier::external_body]
fn url_decode(s: &str) -> (r: Option<String>)
    ensures
        match r {
            Some(t) => valid_utf8(pct_decoded(encode_utf8(s@))) && t@ == decode_utf8(
                pct_decoded(encode_utf8(s@)),
            ),
            None => !valid_utf8(pct_decoded(encode_utf8(s@))),
        },
{
    match urlencoding::decode(s) {
        Ok(t) => Some(t.into_owned()),
        Err(_) => None,
    }
}

/// The percent-decoded text, when its bytes are valid UTF-8.
pub open spec fn decoded(s: Seq<char>) -> Option<Seq<char>> {
    if valid_utf8(pct_decoded(encode_utf8(s))) {
        Some(decode_utf8(pct_decoded(encode_utf8(s))))
    } else {
        None
    }
}

fn decode_text(s: &str) -> (r: Option<String>)
    ensures
        opt_seq(r) == decoded(s@),
{
    url_decode(s)
}

// ── GET /api/v1/markers ───────────────────────────────────────────────────

/// The timelines a query asks about: the decodable values of its
/// `timeline[]` pairs (the brackets written out or percent-encoded), in
/// order.
pub open spec fn timelines_in(pieces: Seq<Seq<char>>) -> Seq<Seq<char>>
    decreases pieces.len(),
{
    if pieces.len() == 0 {
        Seq::empty()
    } else {
        let before = timelines_in(pieces.drop_last());
        match split_once_view(pieces.last(), seq!['=']) {
            Some((k, v)) => if k == "timeline%5B%5D"@ || k == "timeline[]"@ {
                match decoded(v) {
                    Some(t) => before.push(t),
                    None => before,
                }
            } else {
                before
            },
            None => before,
        }
    }
}

pub fn marker_timelines(query: &str) -> (r: Vec<String>)
    ensures
        r@.map_values(|s: String| s@) == timelines_in(query_pairs(query@)),
{
    let pieces = query_pieces(query);
    let ghost ps = pieces@.map_values(|s: String| s@);
    let mut out: Vec<String> = Vec::new();
    let mut i: usize = 0;
    while i < pieces.len()
        invariant
            ps == pieces@.map_values(|s: String| s@),
            ps.len() == pieces@.len(),
            i <= pieces@.len(),
            out@.map_values(|s: String| s@) == timelines_in(ps.take(i as int)),
        decreases pieces.len() - i,
    {
        assert(ps.take(i + 1).drop_last() =~= ps.take(i as int));
        assert(ps.take(i + 1).last() == pieces@[i as int]@);
        proof {
            reveal_strlit("=");
            assert("="@ =~= seq!['=']);
        }
        match split_once(pieces[i].as_str(), "=") {
            Some((k, v)) => {
                if str_eq(k.as_str(), "timeline%5B%5D") || str_eq(k.as_str(), "timeline[]") {
                    match decode_text(v.as_str()) {
                        Some(t) => {
                            let ghost before = out@.map_values(|s: String| s@);
                            let ghost tv = t@;
                            out.push(t);
                            assert(out@.map_values(|s: String| s@) =~= before.push(tv));
                        },
                        None => {},
                    }
                }
            },
            None => {},
        }
        i = i + 1;
    }
    assert(ps.take(ps.len() as int) =~= ps);
    out
}

// ── POST /api/v1/markers ──────────────────────────────────────────────────

/// The positions a form body sets, for the home timeline and for
/// notifications: the last `home[last_read_id]` and
/// `notifications[last_read_id]` pairs, keys and values percent-decoded
/// (undecodable ones read as empty).
pub open spec fn form_positions(pieces: Seq<Seq<char>>) -> (Option<Seq<char>>, Option<Seq<char>>)
    decreases pieces.len(),
{
    if pieces.len() == 0 {
        (None, None)
    } else {
        let (h, n) = form_positions(pieces.drop_last());
        match split_once_view(pieces.last(), seq!['=']) {
            Some((k, v)) => {
                let key = match decoded(k) {
                    Some(t) => t,
                    None => Seq::empty(),
                };
                let val = match decoded(v) {
                    Some(t) => t,
                    None => Seq::empty(),
                };
                if key == "home[last_read_id]"@ {
                    (Some(val), n)
                } else if key == "notifications[last_read_id]"@ {
                    (h, Some(val))
                } else {
                    (h, n)
                }
            },
            None => (h, n),
        }
    }
}

pub fn form_marker_ids(body: &str) -> (r: (Option<String>, Option<String>))
    ensures
        (opt_seq(r.0), opt_seq(r.1)) == form_positions(query_pairs(body@)),
{
    let pieces = query_pieces(body);
    let ghost ps = pieces@.map_values(|s: String| s@);
    let mut home: Option<String> = None;
    let mut notif: Option<String> = None;
    let mut i: usize = 0;
    while i < pieces.len()
        invariant
            ps == pieces@.map_values(|s: String| s@),
            ps.len() == pieces@.len(),
            i <= pieces@.len(),
            (opt_seq(home), opt_seq(notif)) == form_positions(ps.take(i as int)),
        decreases pieces.len() - i,
    {
        assert(ps.take(i + 1).drop_last() =~= ps.take(i as int));
        assert(ps.take(i + 1).last() == pieces@[i as int]@);
        proof {
            reveal_strlit("=");
            assert("="@ =~= seq!['=']);
        }
        match split_once(pieces[i].as_str(), "=") {
            Some((k, v)) => {
                let key = match decode_text(k.as_str()) {
                    Some(t) => t,
                    None => String::new(),
                };
                let val = match decode_text(v.as_str()) {
                    Some(t) => t,
                    None => String::new(),
                };
                if str_eq(key.as_str(), "home[last_read_id]") {
                    home = Some(val);
                } else if str_eq(key.as_str(), "notifications[last_read_id]") {
                    notif = Some(val);
                }
            },
            None => {},
        }
        i = i + 1;
    }
    assert(ps.take(ps.len() as int) =~= ps);
    (home, notif)
}

/// A position's id, which clients send quoted or bare: a string as it is,
/// a number as its text; nothing else names a position.
pub open spec fn position_id(v: Option<Json>) -> Option<Seq<char>> {
    match v {
        Some(Json::Str(s)) => Some(s),
        Some(Json::Int(i)) => Some(int_text(i)),
        Some(Json::Number(t)) => Some(t),
        _ => None,
    }
}

/// What a marker entry of a JSON body is: missing or null (no position),
/// an object (its `last_read_id`), or anything else, which makes the body
/// unreadable.
pub open spec fn entry_position(e: Option<Json>) -> Option<Option<Seq<char>>> {
    match e {
        None => Some(None),
        Some(Json::Null) => Some(None),
        Some(Json::Object(_)) => Some(position_id(jget(e.unwrap(), "last_read_id"@))),
        _ => None,
    }
}

/// The positions a JSON body sets: none at all when the body is not an
/// object or an entry is unreadable.
pub open spec fn json_positions(body: Json) -> (Option<Seq<char>>, Option<Seq<char>>) {
    match body {
        Json::Object(_) => match (
            entry_position(jget(body, "home"@)),
            entry_position(jget(body, "notifications"@)),
        ) {
            (Some(h), Some(n)) => (h, n),
            _ => (None, None),
        },
        _ => (None, None),
    }
}

fn position_of(e: Option<&JsonValue>) -> (r: Option<Option<String>>)
    ensures
        match r {
            Some(p) => entry_position(
                match e {
                    Some(v) => Some(json_of(*v)),
                    None => None,
                },
            ) == Some(opt_seq(p)),
            None => entry_position(
                match e {
                    Some(v) => Some(json_of(*v)),
                    None => None,
                },
            ) is None,
        },
{
    match e {
        None => Some(None),
        Some(JsonValue::Null) => Some(None),
        Some(v) => match v {
            JsonValue::Object(_) => Some(
                match json_get(v, "last_read_id") {
                    Some(JsonValue::Str(s)) => Some(owned(s.as_str())),
                    Some(JsonValue::Int(i)) => Some(int_to_string(*i)),
                    Some(JsonValue::Number(t)) => Some(owned(t.as_str())),
                    _ => None,
                },
            ),
            _ => None,
        },
    }
}

pub fn json_marker_ids(body: &JsonValue) -> (r: (Option<String>, Option<String>))
    ensures
        (opt_seq(r.0), opt_seq(r.1)) == json_positions(json_of(*body)),
{
    match body {
        JsonValue::Object(_) => {
            let h = position_of(json_get(body, "home"));
            let n = position_of(json_get(body, "notifications"));
            match (h, n) {
                (Some(h), Some(n)) => (h, n),
                _ => (None, None),
            }
        },
        _ => (None, None),
    }
}

/// The id a position is stored with: its integer value, 0 when it is not
/// one.
pub fn stored_position(id: &str) -> (r: i64)
    ensures
        r == match parse_i64_view(id@) {
            Some(v) => v,
            None => 0,
        },
{
    match parse_i64(id) {
        Some(v) => v,
        None => 0,
    }
}

} // verus!
