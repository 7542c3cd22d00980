//! A JSON document as the library holds it: the stored `meta` of media and the
//! `fields` of profiles travel through the conversions in this shape.
use vstd::prelude::*;

verus! {

/// A JSON value. Numbers that are integers within `i64` are `Int`; any other
/// number is `Number`, holding its JSON text; `Ratio(a, b)` is the number
/// `a / b`, which the serializer writes out as a float.
#[derive(Debug)]
pub enum JsonValue {
    Null,
    Bool(bool),
    Int(i64),
    Number(String),
    Ratio(i64, i64),
    Str(String),
    Array(Vec<JsonValue>),
    Object(Vec<(String, JsonValue)>),
}

/// The mathematical value of a JSON document.
pub enum Json {
    Null,
    Bool(bool),
    Int(int),
    Number(Seq<char>),
    Ratio(int, int),
    Str(Seq<char>),
    Array(Seq<Json>),
    Object(Seq<(Seq<char>, Json)>),
}

pub open spec fn json_items(xs: Seq<JsonValue>) -> Seq<Json>
    decreases xs,
{
    if xs.len() == 0 {
        Seq::empty()
    } else {
        json_items(xs.drop_last()).push(json_of(xs.last()))
    }
}

pub open spec fn json_entries(es: Seq<(String, JsonValue)>) -> Seq<(Seq<char>, Json)>
    decreases es,
{
    if es.len() == 0 {
        Seq::empty()
    } else {
        json_entries(es.drop_last()).push((es.last().0@, json_of(es.last().1)))
    }
}

pub open spec fn json_of(v: JsonValue) -> Json
    decreases v,
{
    match v {
        JsonValue::Null => Json::Null,
        JsonValue::Bool(b) => Json::Bool(b),
        JsonValue::Int(i) => Json::Int(i as int),
        JsonValue::Number(t) => Json::Number(t@),
        JsonValue::Ratio(a, b) => Json::Ratio(a as int, b as int),
        JsonValue::Str(s) => Json::Str(s@),
        JsonValue::Array(xs) => Json::Array(json_items(xs@)),
        JsonValue::Object(es) => Json::Object(json_entries(es@)),
    }
}

} // verus!

verus! {

/// The position of the first entry under `key`, looking from `i` on.
pub open spec fn find_key_from(es: Seq<(Seq<char>, Json)>, key: Seq<char>, i: int) -> Option<int>
    decreases es.len() - i,
{
    if i < 0 || i >= es.len() {
        None
    } else if es[i].0 == key {
        Some(i)
    } else {
        find_key_from(es, key, i + 1)
    }
}

/// The position of the first entry under `key`.
pub open spec fn find_key(es: Seq<(Seq<char>, Json)>, key: Seq<char>) -> Option<int> {
    find_key_from(es, key, 0)
}

/// What an object's entries hold under `key`.
pub open spec fn lookup(es: Seq<(Seq<char>, Json)>, key: Seq<char>) -> Option<Json> {
    match find_key(es, key) {
        Some(i) => Some(es[i].1),
        None => None,
    }
}

/// `value[key]` for an object, `None` for anything else.
pub open spec fn jget(j: Json, key: Seq<char>) -> Option<Json> {
    match j {
        Json::Object(es) => lookup(es, key),
        _ => None,
    }
}

/// Whether `j` is an object with an entry under `key`.
pub open spec fn has_key(j: Json, key: Seq<char>) -> bool {
    jget(j, key) is Some
}

/// The entries after setting `key` to `val`: an existing entry is replaced
/// in place, a new one goes last.
pub open spec fn insert_entry(es: Seq<(Seq<char>, Json)>, key: Seq<char>, val: Json) -> Seq<(Seq<char>, Json)> {
    match find_key(es, key) {
        Some(i) => es.update(i, (key, val)),
        None => es.push((key, val)),
    }
}

/// `object.insert(key, val)`; a value that is not an object is left alone.
pub open spec fn jinsert(j: Json, key: Seq<char>, val: Json) -> Json {
    match j {
        Json::Object(es) => Json::Object(insert_entry(es, key, val)),
        _ => j,
    }
}

/// The value as an `i64`, when it is an integer.
pub open spec fn as_int(j: Option<Json>) -> Option<int> {
    match j {
        Some(Json::Int(i)) => Some(i),
        _ => None,
    }
}

/// The value's text, when it is a string.
pub open spec fn as_str(j: Option<Json>) -> Option<Seq<char>> {
    match j {
        Some(Json::Str(s)) => Some(s),
        _ => None,
    }
}

pub proof fn lemma_entries(es: Seq<(String, JsonValue)>)
    ensures
        json_entries(es).len() == es.len(),
        forall|i: int|
            0 <= i < es.len() ==> #[trigger] json_entries(es)[i] == (es[i].0@, json_of(es[i].1)),
    decreases es.len(),
{
    if es.len() > 0 {
        lemma_entries(es.drop_last());
    }
}

pub proof fn lemma_items(xs: Seq<JsonValue>)
    ensures
        json_items(xs).len() == xs.len(),
        forall|i: int| 0 <= i < xs.len() ==> #[trigger] json_items(xs)[i] == json_of(xs[i]),
    decreases xs.len(),
{
    if xs.len() > 0 {
        lemma_items(xs.drop_last());
    }
}

pub proof fn lemma_find_from(es: Seq<(Seq<char>, Json)>, key: Seq<char>, j: int)
    requires
        0 <= j,
    ensures
        match find_key_from(es, key, j) {
            Some(i) => j <= i < es.len() && es[i].0 == key && forall|m: int|
                j <= m < i ==> #[trigger] es[m].0 != key,
            None => forall|m: int| j <= m < es.len() ==> #[trigger] es[m].0 != key,
        },
    decreases es.len() - j,
{
    if j < es.len() && es[j].0 != key {
        lemma_find_from(es, key, j + 1);
    }
}

/// The position of the first entry under `key`.
pub fn entry_index(es: &Vec<(String, JsonValue)>, key: &str) -> (r: Option<usize>)
    ensures
        match r {
            Some(i) => find_key(json_entries(es@), key@) == Some(i as int) && i < es.len(),
            None => find_key(json_entries(es@), key@) is None,
        },
{
    let ghost e = json_entries(es@);
    proof {
        lemma_entries(es@);
    }
    let mut i: usize = 0;
    while i < es.len()
        invariant
            e == json_entries(es@),
            e.len() == es.len(),
            forall|j: int| 0 <= j < es.len() ==> #[trigger] e[j] == (es@[j].0@, json_of(es@[j].1)),
            i <= es.len(),
            find_key(e, key@) == find_key_from(e, key@, i as int),
        decreases es.len() - i,
    {
        if crate::text::str_eq(es[i].0.as_str(), key) {
            assert(e[i as int].0 == key@);
            return Some(i);
        }
        assert(e[i as int].0 != key@);
        i = i + 1;
    }
    None
}

/// `value.get(key)` on an object's entries.
pub fn entry_get<'a>(es: &'a Vec<(String, JsonValue)>, key: &str) -> (r: Option<&'a JsonValue>)
    ensures
        match r {
            Some(v) => lookup(json_entries(es@), key@) == Some(json_of(*v)),
            None => lookup(json_entries(es@), key@) is None,
        },
{
    proof {
        lemma_entries(es@);
    }
    match entry_index(es, key) {
        Some(i) => Some(&es[i].1),
        None => None,
    }
}

/// `value.get(key)`: `None` unless `v` is an object with an entry under `key`.
pub fn json_get<'a>(v: &'a JsonValue, key: &str) -> (r: Option<&'a JsonValue>)
    ensures
        match r {
            Some(x) => jget(json_of(*v), key@) == Some(json_of(*x)),
            None => jget(json_of(*v), key@) is None,
        },
{
    match v {
        JsonValue::Object(es) => entry_get(es, key),
        _ => None,
    }
}

/// `object.insert(key, val)` on an object's entries.
pub fn entry_set(es: &mut Vec<(String, JsonValue)>, key: String, val: JsonValue)
    ensures
        json_entries(final(es)@) == insert_entry(json_entries(old(es)@), key@, json_of(val)),
{
    proof {
        lemma_entries(es@);
    }
    let ghost old_es = es@;
    let ghost jv = json_of(val);
    match entry_index(es, key.as_str()) {
        Some(i) => {
            proof {
                lemma_find_from(json_entries(old_es), key@, 0);
            }
            let (k, _old) = es.remove(i);
            es.insert(i, (k, val));
            proof {
                assert(es@ =~= old_es.update(i as int, (k, val)));
                lemma_entries(es@);
                assert(json_entries(es@) =~= json_entries(old_es).update(i as int, (key@, jv)));
            }
        },
        None => {
            es.push((key, val));
            proof {
                lemma_entries(es@);
                assert(json_entries(es@) =~= json_entries(old_es).push((key@, jv)));
            }
        },
    }
}

/// A string value from a string slice.
pub fn json_str(s: &str) -> (r: JsonValue)
    ensures
        json_of(r) == Json::Str(s@),
{
    JsonValue::Str(crate::text::owned(s))
}

} // verus!

verus! {

/// A copy of a document.
#[verifier::loop_isolation(false)]
pub fn json_clone(v: &JsonValue) -> (r: JsonValue)
    ensures
        json_of(r) == json_of(*v),
    decreases v,
{
    match v {
        JsonValue::Null => JsonValue::Null,
        JsonValue::Bool(b) => JsonValue::Bool(*b),
        JsonValue::Int(i) => JsonValue::Int(*i),
        JsonValue::Number(t) => JsonValue::Number(t.clone()),
        JsonValue::Ratio(a, b) => JsonValue::Ratio(*a, *b),
        JsonValue::Str(s) => JsonValue::Str(s.clone()),
        JsonValue::Array(xs) => {
            let mut out: Vec<JsonValue> = Vec::new();
            let mut i: usize = 0;
            proof {
                lemma_items(xs@);
            }
            while i < xs.len()
                invariant
                    i <= xs@.len(),
                    out@.len() == i,
                    forall|j: int| 0 <= j < i ==> #[trigger] json_of(out@[j]) == json_of(xs@[j]),
                decreases xs.len() - i,
            {
                let c = json_clone(&xs[i]);
                out.push(c);
                i = i + 1;
            }
            proof {
                lemma_items(out@);
                assert(json_items(out@) =~= json_items(xs@));
            }
            JsonValue::Array(out)
        },
        JsonValue::Object(es) => {
            let mut out: Vec<(String, JsonValue)> = Vec::new();
            let mut i: usize = 0;
            proof {
                lemma_entries(es@);
            }
            while i < es.len()
                invariant
                    i <= es@.len(),
                    out@.len() == i,
                    forall|j: int|
                        0 <= j < i ==> #[trigger] json_of(out@[j].1) == json_of(es@[j].1)
                            && out@[j].0@ == es@[j].0@,
                decreases es.len() - i,
            {
                let c = json_clone(&es[i].1);
                out.push((es[i].0.clone(), c));
                i = i + 1;
            }
            proof {
                lemma_entries(out@);
                assert(json_entries(out@) =~= json_entries(es@));
            }
            JsonValue::Object(out)
        },
    }
}

} // verus!

verus! {

/// Setting a key, then reading it, gives what was set.
pub proof fn lemma_lookup_insert_same(es: Seq<(Seq<char>, Json)>, k: Seq<char>, v: Json)
    ensures
        lookup(insert_entry(es, k, v), k) == Some(v),
{
    lemma_find_from(es, k, 0);
    let es2 = insert_entry(es, k, v);
    lemma_find_from(es2, k, 0);
    match find_key(es, k) {
        Some(i) => {
            assert(es2[i].0 == k);
            match find_key(es2, k) {
                Some(j) => {
                    if j < i {
                        assert(es2[j] == es[j]);
                    }
                    if j > i {
                        assert(es2[i].0 != k);
                    }
                },
                None => {
                    assert(es2[i].0 != k);
                },
            }
        },
        None => {
            assert(es2[es.len() as int].0 == k);
            match find_key(es2, k) {
                Some(j) => {
                    if j < es.len() {
                        assert(es2[j] == es[j]);
                    }
                },
                None => {
                    assert(es2[es.len() as int].0 != k);
                },
            }
        },
    }
}

/// Setting a key leaves what the other keys hold.
pub proof fn lemma_lookup_insert_other(es: Seq<(Seq<char>, Json)>, k: Seq<char>, v: Json, k2: Seq<char>)
    requires
        k != k2,
    ensures
        lookup(insert_entry(es, k, v), k2) == lookup(es, k2),
{
    lemma_find_from(es, k, 0);
    lemma_find_from(es, k2, 0);
    let es2 = insert_entry(es, k, v);
    lemma_find_from(es2, k2, 0);
    assert(forall|m: int| 0 <= m < es.len() ==> #[trigger] es2[m].0 == es[m].0);
    assert(forall|m: int| 0 <= m < es.len() && es[m].0 != k ==> #[trigger] es2[m] == es[m]);
    match find_key(es2, k2) {
        Some(j) => {
            if j < es.len() {
                assert(es2[j] == es[j]);
            }
            match find_key(es, k2) {
                Some(i) => {
                    if i < j {
                        assert(es2[i].0 == k2);
                    }
                    if j < i {
                        assert(es[j].0 == k2);
                    }
                },
                None => {},
            }
        },
        None => {
            match find_key(es, k2) {
                Some(i) => {
                    assert(es2[i].0 == k2);
                },
                None => {},
            }
        },
    }
}

/// `jget` after `jinsert` on an object.
pub proof fn lemma_jget_jinsert(j: Json, k: Seq<char>, v: Json, k2: Seq<char>)
    requires
        j is Object,
    ensures
        jget(jinsert(j, k, v), k2) == if k == k2 {
            Some(v)
        } else {
            jget(j, k2)
        },
{
    let es = j->Object_0;
    if k == k2 {
        lemma_lookup_insert_same(es, k, v);
    } else {
        lemma_lookup_insert_other(es, k, v, k2);
    }
}

} // verus!
