//! Filters: the action a filter takes, what the keyword attributes of a
//! create or update do, the v1 view of a filter, and the event that tells a
//! user's streams their filters changed.
use vstd::prelude::*;
use crate::pagination::opt_seq;
use crate::text::{owned, str_eq};

verus! {

/// The body of `POST` and `PUT /api/v2/filters`.
pub struct CreateFilterForm {
    pub title: String,
    pub context: Vec<String>,
    pub expires_in: Option<i64>,
    pub filter_action: Option<String>,
    pub keywords_attributes: Option<Vec<KeywordAttr>>,
}

/// A keyword of a v2 filter form.
pub struct KeywordAttr {
    pub id: Option<i64>,
    pub keyword: Option<String>,
    pub whole_word: Option<bool>,
    pub destroy: Option<bool>,
}

/// The body of `POST /api/v2/filters/:id/keywords`.
pub struct CreateKeywordForm {
    pub keyword: String,
    pub whole_word: Option<bool>,
}

/// The body of `POST /api/v2/filters/:id/statuses`.
pub struct AddFilterStatusForm {
    pub status_id: String,
}

/// The body of `POST` and `PUT /api/v1/filters`.
pub struct CreateFilterV1Form {
    pub phrase: String,
    pub context: Vec<String>,
    pub irreversible: Option<bool>,
    pub whole_word: Option<bool>,
    pub expires_in: Option<i64>,
}

/// What a v2 filter does: `warn` unless it says.
pub fn filter_action(form: &CreateFilterForm) -> (r: String)
    ensures
        r@ == match form.filter_action {
            Some(a) => a@,
            None => "warn"@,
        },
{
    match &form.filter_action {
        Some(a) => owned(a.as_str()),
        None => owned("warn"),
    }
}

/// What a v1 filter does: `hide` when irreversible, else `warn`.
pub fn filter_action_v1(form: &CreateFilterV1Form) -> (r: &'static str)
    ensures
        r@ == if form.irreversible == Some(true) {
            "hide"@
        } else {
            "warn"@
        },
{
    if form.irreversible == Some(true) {
        "hide"
    } else {
        "warn"
    }
}

/// A v1 filter's keyword matches whole words only when asked.
pub fn whole_word_v1(form: &CreateFilterV1Form) -> (r: bool)
    ensures
        r == (form.whole_word == Some(true)),
{
    form.whole_word == Some(true)
}

/// Whether a stored filter action reads as irreversible in v1.
pub fn irreversible(action: &str) -> (r: bool)
    ensures
        r == (action@ == "hide"@),
{
    str_eq(action, "hide")
}

/// A change to a filter's keywords.
pub enum KeywordOp {
    /// Remove the keyword with this id.
    Delete(i64),
    /// Set the keyword with this id.
    Update(i64, String, bool),
    /// Add a keyword.
    Insert(String, bool),
}

/// What one keyword attribute asks for on create: a new keyword, unless it
/// is to be destroyed or has no text.
pub open spec fn create_op(k: KeywordAttr) -> Option<(Seq<char>, bool)> {
    if k.destroy == Some(true) {
        None
    } else {
        match k.keyword {
            Some(w) => Some((w@, k.whole_word == Some(true))),
            None => None,
        }
    }
}

/// What one keyword attribute asks for on update: one with an id and
/// `_destroy` is removed; one with an id and text is set; one without an id,
/// with text and not to be destroyed, is added.
pub open spec fn update_op(k: KeywordAttr) -> Option<KeywordOp> {
    match k.id {
        Some(kid) => if k.destroy == Some(true) {
            Some(KeywordOp::Delete(kid))
        } else {
            match k.keyword {
                Some(w) => Some(KeywordOp::Update(kid, w, k.whole_word == Some(true))),
                None => None,
            }
        },
        None => if k.destroy == Some(true) {
            None
        } else {
            match k.keyword {
                Some(w) => Some(KeywordOp::Insert(w, k.whole_word == Some(true))),
                None => None,
            }
        },
    }
}

/// The view of a keyword change.
pub open spec fn op_view(op: KeywordOp) -> (int, int, Seq<char>, bool) {
    match op {
        KeywordOp::Delete(kid) => (0, kid as int, Seq::empty(), false),
        KeywordOp::Update(kid, w, b) => (1, kid as int, w@, b),
        KeywordOp::Insert(w, b) => (2, 0, w@, b),
    }
}

pub open spec fn create_ops(ks: Seq<KeywordAttr>) -> Seq<(Seq<char>, bool)>
    decreases ks.len(),
{
    if ks.len() == 0 {
        Seq::empty()
    } else {
        let before = create_ops(ks.drop_last());
        match create_op(ks.last()) {
            Some(o) => before.push(o),
            None => before,
        }
    }
}

pub open spec fn update_ops(ks: Seq<KeywordAttr>) -> Seq<(int, int, Seq<char>, bool)>
    decreases ks.len(),
{
    if ks.len() == 0 {
        Seq::empty()
    } else {
        let before = update_ops(ks.drop_last());
        match update_op(ks.last()) {
            Some(o) => before.push(op_view(o)),
            None => before,
        }
    }
}

/// The keywords a new filter is made with, in order.
pub fn keywords_to_create(form: &CreateFilterForm) -> (r: Vec<(String, bool)>)
    ensures
        r@.map_values(|p: (String, bool)| (p.0@, p.1)) == match form.keywords_attributes {
            Some(ks) => create_ops(ks@),
            None => Seq::empty(),
        },
{
    let mut out: Vec<(String, bool)> = Vec::new();
    match &form.keywords_attributes {
        Some(ks) => {
            let mut i: usize = 0;
            while i < ks.len()
                invariant
                    i <= ks@.len(),
                    out@.map_values(|p: (String, bool)| (p.0@, p.1)) == create_ops(ks@.take(i as int)),
                decreases ks.len() - i,
            {
                assert(ks@.take(i + 1).drop_last() =~= ks@.take(i as int));
                let k = &ks[i];
                if k.destroy != Some(true) {
                    match &k.keyword {
                        Some(w) => {
                            let ghost before = out@;
                            let p = (owned(w.as_str()), k.whole_word == Some(true));
                            out.push(p);
                            assert(out@.map_values(|p: (String, bool)| (p.0@, p.1)) =~= before.map_values(
                                |p: (String, bool)| (p.0@, p.1),
                            ).push((w@, k.whole_word == Some(true))));
                        },
                        None => {},
                    }
                }
                i = i + 1;
            }
            assert(ks@.take(ks@.len() as int) =~= ks@);
        },
        None => {},
    }
    out
}

/// The keyword changes an update makes, in order.
pub fn keyword_updates(form: &CreateFilterForm) -> (r: Vec<KeywordOp>)
    ensures
        r@.map_values(|o: KeywordOp| op_view(o)) == match form.keywords_attributes {
            Some(ks) => update_ops(ks@),
            None => Seq::empty(),
        },
{
    let mut out: Vec<KeywordOp> = Vec::new();
    match &form.keywords_attributes {
        Some(ks) => {
            let mut i: usize = 0;
            while i < ks.len()
                invariant
                    i <= ks@.len(),
                    out@.map_values(|o: KeywordOp| op_view(o)) == update_ops(ks@.take(i as int)),
                decreases ks.len() - i,
            {
                assert(ks@.take(i + 1).drop_last() =~= ks@.take(i as int));
                let k = &ks[i];
                let ww = k.whole_word == Some(true);
                let op: Option<KeywordOp> = match k.id {
                    Some(kid) => if k.destroy == Some(true) {
                        Some(KeywordOp::Delete(kid))
                    } else {
                        match &k.keyword {
                            Some(w) => Some(KeywordOp::Update(kid, owned(w.as_str()), ww)),
                            None => None,
                        }
                    },
                    None => if k.destroy == Some(true) {
                        None
                    } else {
                        match &k.keyword {
                            Some(w) => Some(KeywordOp::Insert(owned(w.as_str()), ww)),
                            None => None,
                        }
                    },
                };
                match op {
                    Some(o) => {
                        let ghost before = out@;
                        let ghost v = op_view(o);
                        out.push(o);
                        assert(out@.map_values(|o: KeywordOp| op_view(o)) =~= before.map_values(
                            |o: KeywordOp| op_view(o),
                        ).push(v));
                    },
                    None => {},
                }
                i = i + 1;
            }
            assert(ks@.take(ks@.len() as int) =~= ks@);
        },
        None => {},
    }
    out
}

/// An event for a user's streaming connections.
pub enum StreamEvent {
    /// The user's filters changed; their clients reload them.
    FiltersChanged { for_account_id: i64 },
}

/// Queues the event that tells a user's streams their filters changed.
pub fn publish_filters_changed(outbox: &mut Vec<StreamEvent>, account_id: i64)
    ensures
        final(outbox)@ == old(outbox)@.push((StreamEvent::FiltersChanged { for_account_id: account_id })),
{
    outbox.push(StreamEvent::FiltersChanged { for_account_id: account_id });
}

} // verus!

verus! {

// ── The filter entities ───────────────────────────────────────────────────

/// A stored filter.
pub struct FilterRow {
    pub id: i64,
    pub phrase: String,
    pub context: Vec<String>,
    pub expires_at: Option<crate::models::Timestamp>,
    pub action: String,
}

/// A stored keyword of a filter.
pub struct KeywordRow {
    pub id: i64,
    pub keyword: String,
    pub whole_word: bool,
}

/// A status a filter hides.
pub struct FilterStatusRow {
    pub id: i64,
    pub status_id: i64,
}

/// Mastodon's `FilterKeyword` entity.
pub struct FilterKeyword {
    pub id: String,
    pub keyword: String,
    pub whole_word: bool,
}

/// Mastodon's `Filter` entity (v2).
pub struct Filter {
    pub id: String,
    pub title: String,
    pub context: Vec<String>,
    pub expires_at: Option<String>,
    pub filter_action: String,
    pub keywords: Vec<FilterKeyword>,
    pub statuses: Vec<crate::json::JsonValue>,
}

/// Mastodon's v1 `Filter` entity: one phrase.
pub struct FilterV1 {
    pub id: String,
    pub phrase: String,
    pub context: Vec<String>,
    pub whole_word: bool,
    pub expires_at: Option<String>,
    pub irreversible: bool,
}

pub open spec fn texts(v: Seq<String>) -> Seq<Seq<char>> {
    v.map_values(|s: String| s@)
}

pub open spec fn keyword_view(k: FilterKeyword) -> (Seq<char>, Seq<char>, bool) {
    (k.id@, k.keyword@, k.whole_word)
}

pub open spec fn keyword_row_view(k: KeywordRow) -> (Seq<char>, Seq<char>, bool) {
    (crate::text::int_text(k.id as int), k.keyword@, k.whole_word)
}

/// A filtered status as the filter lists it.
pub open spec fn status_json(s: FilterStatusRow) -> crate::json::Json {
    crate::json::Json::Object(
        seq![
            ("id"@, crate::json::Json::Str(crate::text::int_text(s.id as int))),
            ("status_id"@, crate::json::Json::Str(crate::text::int_text(s.status_id as int))),
        ],
    )
}

pub open spec fn expiry_view(t: Option<crate::models::Timestamp>) -> Option<Seq<char>> {
    match t {
        Some(d) => Some(crate::models::mastodon_text(d)),
        None => None,
    }
}

fn copy_texts(v: &Vec<String>) -> (r: Vec<String>)
    ensures
        texts(r@) == texts(v@),
{
    let mut out: Vec<String> = Vec::new();
    let mut i: usize = 0;
    while i < v.len()
        invariant
            i <= v@.len(),
            texts(out@) == texts(v@.take(i as int)),
        decreases v.len() - i,
    {
        let t = owned(v[i].as_str());
        let ghost before = out@;
        out.push(t);
        assert(out@ == before.push(t));
        assert(texts(out@) =~= texts(before).push(v@[i as int]@));
        assert(texts(v@.take(i + 1)) =~= texts(v@.take(i as int)).push(v@[i as int]@));
        i = i + 1;
    }
    assert(v@.take(v@.len() as int) =~= v@);
    out
}

fn expiry(t: Option<crate::models::Timestamp>) -> (r: Option<String>)
    ensures
        crate::pagination::opt_seq(r) == expiry_view(t),
{
    match t {
        Some(d) => Some(crate::models::mastodon_date(d)),
        None => None,
    }
}

fn status_value(s: &FilterStatusRow) -> (r: crate::json::JsonValue)
    ensures
        crate::json::json_of(r) == status_json(*s),
{
    let mut es: Vec<(String, crate::json::JsonValue)> = Vec::new();
    es.push((owned("id"), crate::json::JsonValue::Str(crate::text::int_to_string(s.id))));
    es.push(
        (owned("status_id"), crate::json::JsonValue::Str(crate::text::int_to_string(s.status_id))),
    );
    proof {
        crate::json::lemma_entries(es@);
        assert(status_json(*s) matches crate::json::Json::Object(x) && x =~= crate::json::json_entries(
            es@,
        ));
    }
    crate::json::JsonValue::Object(es)
}

/// The v2 entity of a filter with its keywords and statuses, in order.
pub fn filter_entity(f: &FilterRow, keywords: &Vec<KeywordRow>, statuses: &Vec<FilterStatusRow>) -> (r:
    Filter)
    ensures
        r.id@ == crate::text::int_text(f.id as int),
        r.title@ == f.phrase@,
        texts(r.context@) == texts(f.context@),
        crate::pagination::opt_seq(r.expires_at) == expiry_view(f.expires_at),
        r.filter_action@ == f.action@,
        r.keywords@.map_values(|k: FilterKeyword| keyword_view(k)) == keywords@.map_values(
            |k: KeywordRow| keyword_row_view(k),
        ),
        crate::json::json_items(r.statuses@) == statuses@.map_values(|s: FilterStatusRow| status_json(s)),
{
    let mut ks: Vec<FilterKeyword> = Vec::new();
    let mut i: usize = 0;
    while i < keywords.len()
        invariant
            i <= keywords@.len(),
            ks@.map_values(|k: FilterKeyword| keyword_view(k)) == keywords@.take(i as int).map_values(
                |k: KeywordRow| keyword_row_view(k),
            ),
        decreases keywords.len() - i,
    {
        let k = &keywords[i];
        let x = FilterKeyword {
            id: crate::text::int_to_string(k.id),
            keyword: owned(k.keyword.as_str()),
            whole_word: k.whole_word,
        };
        let ghost before = ks@;
        ks.push(x);
        proof {
            assert(ks@ == before.push(x));
            assert(ks@.map_values(|k: FilterKeyword| keyword_view(k)) =~= before.map_values(
                |k: FilterKeyword| keyword_view(k),
            ).push(keyword_row_view(keywords@[i as int])));
            assert(keywords@.take(i + 1).map_values(|k: KeywordRow| keyword_row_view(k))
                =~= keywords@.take(i as int).map_values(|k: KeywordRow| keyword_row_view(k)).push(
                keyword_row_view(keywords@[i as int]),
            ));
        }
        i = i + 1;
    }
    assert(keywords@.take(keywords@.len() as int) =~= keywords@);
    let mut ss: Vec<crate::json::JsonValue> = Vec::new();
    let mut j: usize = 0;
    while j < statuses.len()
        invariant
            j <= statuses@.len(),
            crate::json::json_items(ss@) == statuses@.take(j as int).map_values(
                |s: FilterStatusRow| status_json(s),
            ),
        decreases statuses.len() - j,
    {
        let v = status_value(&statuses[j]);
        let ghost before = ss@;
        ss.push(v);
        proof {
            assert(ss@.drop_last() =~= before);
            assert(statuses@.take(j + 1).map_values(|s: FilterStatusRow| status_json(s))
                =~= statuses@.take(j as int).map_values(|s: FilterStatusRow| status_json(s)).push(
                status_json(statuses@[j as int]),
            ));
        }
        j = j + 1;
    }
    assert(statuses@.take(statuses@.len() as int) =~= statuses@);
    Filter {
        id: crate::text::int_to_string(f.id),
        title: owned(f.phrase.as_str()),
        context: copy_texts(&f.context),
        expires_at: expiry(f.expires_at),
        filter_action: owned(f.action.as_str()),
        keywords: ks,
        statuses: ss,
    }
}

/// The v1 entity of a filter: its phrase, whether its first keyword is whole
/// word, and whether it hides rather than warns.
pub fn filter_v1_entity(f: &FilterRow, whole_word: bool) -> (r: FilterV1)
    ensures
        r.id@ == crate::text::int_text(f.id as int),
        r.phrase@ == f.phrase@,
        texts(r.context@) == texts(f.context@),
        r.whole_word == whole_word,
        crate::pagination::opt_seq(r.expires_at) == expiry_view(f.expires_at),
        r.irreversible == (f.action@ == "hide"@),
{
    FilterV1 {
        id: crate::text::int_to_string(f.id),
        phrase: owned(f.phrase.as_str()),
        context: copy_texts(&f.context),
        whole_word,
        expires_at: expiry(f.expires_at),
        irreversible: irreversible(f.action.as_str()),
    }
}

} // verus!
