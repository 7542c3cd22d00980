//! Updating one's own profile (`PATCH /api/v1/accounts/update_credentials`):
//! how the parts of the form are read, what is checked before anything is
//! written (Mastodon's local-account validations), which posting preferences
//! are stored, and how the profile fields keep their verification.
use vstd::prelude::*;
use crate::error::{is_unprocessable, unprocessable, ApiError};
use crate::formatting::{link_matches, link_scan, link_views, LinkMatch};
use crate::json::{
    as_str, entry_set, jget, jinsert, json_get, json_items, json_of, json_str, lemma_items, Json,
    JsonValue,
};
use crate::pagination::{opt_seq, parse_i64, parse_i64_view};
use crate::text::{
    char_count, is_prefix, owned, split_once, split_once_view, str_eq, strip_prefix, trim, trimmed,
};

verus! {

// ── Reading the parts ─────────────────────────────────────────────────────

/// `str::parse::<u32>`: an optional `+`, then digits, within `u32`.
pub open spec fn parse_u32_view(s: Seq<char>) -> Option<int> {
    if s.len() > 0 && s[0] == '-' {
        None
    } else {
        match parse_i64_view(s) {
            Some(v) => if 0 <= v <= u32::MAX {
                Some(v)
            } else {
                None
            },
            None => None,
        }
    }
}

pub fn parse_u32(s: &str) -> (r: Option<u32>)
    ensures
        match r {
            Some(v) => parse_u32_view(s@) == Some(v as int),
            None => parse_u32_view(s@) is None,
        },
{
    let neg = crate::text::starts_with(s, "-");
    proof {
        reveal_strlit("-");
        assert("-"@ =~= seq!['-']);
        if s@.len() > 0 && s@[0] == '-' {
            assert(s@.subrange(0, 1) =~= seq!['-']);
        }
        if neg {
            assert(s@.subrange(0, 1)[0] == s@[0]);
        }
    }
    if neg {
        return None;
    }
    match parse_i64(s) {
        Some(v) => if 0 <= v && v <= 0xffff_ffff {
            Some(v as u32)
        } else {
            None
        },
        None => None,
    }
}

/// Whether a submitted flag is set: `true` or `1`.
pub open spec fn flag_set(v: Seq<char>) -> bool {
    v == "true"@ || v == "1"@
}

pub fn flag(v: &str) -> (r: bool)
    ensures
        r == flag_set(v@),
{
    str_eq(v, "true") || str_eq(v, "1")
}

/// A part named `fields_attributes[N]…`: its index, when `N` is a `u32`,
/// and what follows the `]`.
pub open spec fn field_part_view(name: Seq<char>) -> Option<(int, Seq<char>)> {
    let prefix = "fields_attributes["@;
    if is_prefix(prefix, name) {
        match split_once_view(name.subrange(prefix.len() as int, name.len() as int), seq![']']) {
            Some((idx, key)) => match parse_u32_view(idx) {
                Some(i) => Some((i, key)),
                None => None,
            },
            None => None,
        }
    } else {
        None
    }
}

/// The values a field index has been given: its name and its value.
pub type FieldEntry = (u32, String, String);

pub open spec fn entry_views(es: Seq<FieldEntry>) -> Seq<(u32, Seq<char>, Seq<char>)> {
    es.map_values(|e: FieldEntry| (e.0, e.1@, e.2@))
}

/// Entries are kept in strictly increasing index order.
pub open spec fn sorted_entries(es: Seq<(u32, Seq<char>, Seq<char>)>) -> bool {
    forall|i: int, j: int| 0 <= i < j < es.len() ==> es[i].0 < es[j].0
}

/// The name and value given for an index, empty when not given.
pub open spec fn entry_of(es: Seq<(u32, Seq<char>, Seq<char>)>, idx: u32) -> (Seq<char>, Seq<char>) {
    if exists|i: int| 0 <= i < es.len() && es[i].0 == idx {
        let i = choose|i: int| 0 <= i < es.len() && es[i].0 == idx;
        (es[i].1, es[i].2)
    } else {
        (Seq::empty(), Seq::empty())
    }
}

pub open spec fn has_index(es: Seq<(u32, Seq<char>, Seq<char>)>, idx: u32) -> bool {
    exists|i: int| 0 <= i < es.len() && es[i].0 == idx
}

/// What one part does to an entry: `[name]` sets the name, `[value]` the
/// value, anything else neither.
pub open spec fn set_part(e: (Seq<char>, Seq<char>), key: Seq<char>, text: Seq<char>) -> (Seq<char>, Seq<char>) {
    if key == "[name]"@ {
        (text, e.1)
    } else if key == "[value]"@ {
        (e.0, text)
    } else {
        e
    }
}

proof fn lemma_entry_at(es: Seq<(u32, Seq<char>, Seq<char>)>, i: int)
    requires
        sorted_entries(es),
        0 <= i < es.len(),
    ensures
        entry_of(es, es[i].0) == (es[i].1, es[i].2),
        has_index(es, es[i].0),
{
    let j = choose|j: int| 0 <= j < es.len() && es[j].0 == es[i].0;
    if j != i {
        if j < i {
            assert(es[j].0 < es[i].0);
        } else {
            assert(es[i].0 < es[j].0);
        }
    }
}

pub open spec fn unchanged_elsewhere(
    nv: Seq<(u32, Seq<char>, Seq<char>)>,
    ov: Seq<(u32, Seq<char>, Seq<char>)>,
    idx: u32,
) -> bool {
    forall|j: u32|
        j != idx ==> (#[trigger] has_index(nv, j) == has_index(ov, j) && entry_of(nv, j)
            == entry_of(ov, j))
}

proof fn lemma_update_entry(
    ov: Seq<(u32, Seq<char>, Seq<char>)>,
    p: int,
    e: (u32, Seq<char>, Seq<char>),
)
    requires
        sorted_entries(ov),
        0 <= p < ov.len(),
        e.0 == ov[p].0,
    ensures
        sorted_entries(ov.update(p, e)),
        has_index(ov.update(p, e), e.0),
        entry_of(ov.update(p, e), e.0) == (e.1, e.2),
        unchanged_elsewhere(ov.update(p, e), ov, e.0),
{
    let nv = ov.update(p, e);
    assert(sorted_entries(nv));
    lemma_entry_at(nv, p);
    assert forall|j: u32| j != e.0 implies #[trigger] has_index(nv, j) == has_index(ov, j)
        && entry_of(nv, j) == entry_of(ov, j) by {
        if has_index(ov, j) {
            let k = choose|k: int| 0 <= k < ov.len() && ov[k].0 == j;
            lemma_entry_at(ov, k);
            lemma_entry_at(nv, k);
        }
        if has_index(nv, j) {
            let k = choose|k: int| 0 <= k < nv.len() && nv[k].0 == j;
            lemma_entry_at(ov, k);
            lemma_entry_at(nv, k);
        }
    };
}

proof fn lemma_insert_entry(
    ov: Seq<(u32, Seq<char>, Seq<char>)>,
    p: int,
    e: (u32, Seq<char>, Seq<char>),
)
    requires
        sorted_entries(ov),
        0 <= p <= ov.len(),
        forall|k: int| 0 <= k < p ==> ov[k].0 < e.0,
        p < ov.len() ==> e.0 < ov[p].0,
    ensures
        sorted_entries(ov.insert(p, e)),
        !has_index(ov, e.0),
        has_index(ov.insert(p, e), e.0),
        entry_of(ov.insert(p, e), e.0) == (e.1, e.2),
        unchanged_elsewhere(ov.insert(p, e), ov, e.0),
{
    let nv = ov.insert(p, e);
    if has_index(ov, e.0) {
        let k = choose|k: int| 0 <= k < ov.len() && ov[k].0 == e.0;
        if k >= p {
            assert(ov[p].0 <= ov[k].0);
        }
    }
    assert forall|i: int, j: int| 0 <= i < j < nv.len() implies nv[i].0 < nv[j].0 by {
        if j < p {
        } else if j == p {
        } else if i < p {
            assert(ov[j - 1].0 >= ov[p].0 || j - 1 == p);
        } else if i == p {
            assert(ov[j - 1].0 >= ov[p].0 || j - 1 == p);
        } else {
        }
    };
    lemma_entry_at(nv, p);
    assert forall|j: u32| j != e.0 implies #[trigger] has_index(nv, j) == has_index(ov, j)
        && entry_of(nv, j) == entry_of(ov, j) by {
        if has_index(ov, j) {
            let k = choose|k: int| 0 <= k < ov.len() && ov[k].0 == j;
            lemma_entry_at(ov, k);
            let k2 = if k < p {
                k
            } else {
                k + 1
            };
            assert(nv[k2] == ov[k]);
            lemma_entry_at(nv, k2);
        }
        if has_index(nv, j) {
            let k = choose|k: int| 0 <= k < nv.len() && nv[k].0 == j;
            lemma_entry_at(nv, k);
            assert(k != p);
            if k < p {
                assert(nv[k] == ov[k]);
                lemma_entry_at(ov, k);
            } else if k > p {
                assert(nv[k] == ov[k - 1]);
                lemma_entry_at(ov, k - 1);
            }
        }
    };
}

/// The profile form as its parts arrive.
pub struct CredentialsForm {
    pub display_name: Option<String>,
    pub note: Option<String>,
    pub locked: Option<bool>,
    pub bot: Option<bool>,
    pub discoverable: Option<bool>,
    pub source_privacy: Option<String>,
    pub source_sensitive: Option<bool>,
    pub source_language: Option<Option<String>>,
    pub source_hide_collections: Option<bool>,
    pub source_quote_policy: Option<String>,
    pub indexable: Option<bool>,
    /// The profile fields given so far, by index.
    pub fields: Vec<FieldEntry>,
    /// Some `fields_attributes[N]` part came.
    pub fields_submitted: bool,
    pub attribution_domains: Option<Vec<String>>,
}

impl CredentialsForm {
    pub open spec fn wf(&self) -> bool {
        sorted_entries(entry_views(self.fields@))
    }

    /// A form that has received nothing.
    pub fn new() -> (r: Self)
        ensures
            r.wf(),
            r.fields@.len() == 0,
            !r.fields_submitted,
            r.display_name is None && r.note is None && r.locked is None && r.bot is None
                && r.discoverable is None && r.source_privacy is None && r.source_sensitive is None
                && r.source_language is None && r.source_hide_collections is None
                && r.source_quote_policy is None && r.indexable is None
                && r.attribution_domains is None,
    {
        CredentialsForm {
            display_name: None,
            note: None,
            locked: None,
            bot: None,
            discoverable: None,
            source_privacy: None,
            source_sensitive: None,
            source_language: None,
            source_hide_collections: None,
            source_quote_policy: None,
            indexable: None,
            fields: Vec::new(),
            fields_submitted: false,
            attribution_domains: None,
        }
    }

    /// Gives index `idx` the part `key` of a field.
    fn set_field(&mut self, idx: u32, key: &str, text: String)
        requires
            old(self).wf(),
        ensures
            final(self).wf(),
            has_index(entry_views(final(self).fields@), idx),
            entry_of(entry_views(final(self).fields@), idx) == set_part(
                entry_of(entry_views(old(self).fields@), idx),
                key@,
                text@,
            ),
            unchanged_elsewhere(entry_views(final(self).fields@), entry_views(old(self).fields@), idx),
            final(self).display_name == old(self).display_name,
            final(self).note == old(self).note,
            final(self).locked == old(self).locked,
            final(self).bot == old(self).bot,
            final(self).discoverable == old(self).discoverable,
            final(self).source_privacy == old(self).source_privacy,
            final(self).source_sensitive == old(self).source_sensitive,
            final(self).source_language == old(self).source_language,
            final(self).source_hide_collections == old(self).source_hide_collections,
            final(self).source_quote_policy == old(self).source_quote_policy,
            final(self).indexable == old(self).indexable,
            final(self).fields_submitted == old(self).fields_submitted,
            final(self).attribution_domains == old(self).attribution_domains,
    {
        let ghost ov = entry_views(self.fields@);
        let n = self.fields.len();
        let mut p: usize = 0;
        while p < n && self.fields[p].0 < idx
            invariant
                n == self.fields@.len(),
                ov == entry_views(self.fields@),
                sorted_entries(ov),
                p <= n,
                forall|k: int| 0 <= k < p ==> ov[k].0 < idx,
            decreases n - p,
        {
            p = p + 1;
        }
        let is_name = str_eq(key, "[name]");
        let is_value = str_eq(key, "[value]");
        if p < n && self.fields[p].0 == idx {
            proof {
                lemma_entry_at(ov, p as int);
            }
            let (i0, name0, value0) = self.fields.remove(p);
            let e = if is_name {
                (i0, text, value0)
            } else if is_value {
                (i0, name0, text)
            } else {
                (i0, name0, value0)
            };
            let ghost ev = (e.0, e.1@, e.2@);
            self.fields.insert(p, e);
            proof {
                assert(entry_views(self.fields@) =~= ov.update(p as int, ev));
                lemma_update_entry(ov, p as int, ev);
            }
        } else {
            let e = if is_name {
                (idx, text, String::new())
            } else if is_value {
                (idx, String::new(), text)
            } else {
                (idx, String::new(), String::new())
            };
            let ghost ev = (e.0, e.1@, e.2@);
            self.fields.insert(p, e);
            proof {
                assert(entry_views(self.fields@) =~= ov.insert(p as int, ev));
                lemma_insert_entry(ov, p as int, ev);
                assert(entry_of(ov, idx) == (Seq::<char>::empty(), Seq::<char>::empty()));
            }
        }
    }

    /// Takes one text part of the form, by its name.
    pub fn accept_part(&mut self, name: &str, text: String)
        requires
            old(self).wf(),
        ensures
            final(self).wf(),
            part_accepted(*old(self), name@, text@, *final(self)),
    {
        if str_eq(name, "attribution_domains[]") {
            let ghost before = match old(self).attribution_domains {
                Some(v) => v@.map_values(|s: String| s@),
                None => Seq::empty(),
            };
            let mut ds = match self.attribution_domains.take() {
                Some(v) => v,
                None => Vec::new(),
            };
            assert(ds@.map_values(|s: String| s@) =~= before);
            let ghost t = text@;
            ds.push(text);
            assert(ds@.map_values(|s: String| s@) =~= before.push(t));
            self.attribution_domains = Some(ds);
            return;
        }
        let rest = strip_prefix(name, "fields_attributes[");
        match rest {
            Some(rest) => {
                proof {
                    reveal_strlit("]");
                    assert("]"@ =~= seq![']']);
                }
                match split_once(rest.as_str(), "]") {
                    Some((idx_str, key)) => match parse_u32(idx_str.as_str()) {
                        Some(idx) => {
                            self.fields_submitted = true;
                            self.set_field(idx, key.as_str(), text);
                        },
                        None => {},
                    },
                    None => {},
                }
                return;
            },
            None => {},
        }
        if str_eq(name, "display_name") {
            self.display_name = Some(text);
        } else if str_eq(name, "note") {
            self.note = Some(text);
        } else if str_eq(name, "locked") {
            self.locked = Some(flag(text.as_str()));
        } else if str_eq(name, "bot") {
            self.bot = Some(flag(text.as_str()));
        } else if str_eq(name, "discoverable") {
            self.discoverable = Some(flag(text.as_str()));
        } else if str_eq(name, "source[privacy]") {
            let t = text.as_str();
            if str_eq(t, "public") || str_eq(t, "unlisted") || str_eq(t, "private") || str_eq(
                t,
                "direct",
            ) {
                self.source_privacy = Some(text);
            }
        } else if str_eq(name, "source[sensitive]") {
            self.source_sensitive = Some(flag(text.as_str()));
        } else if str_eq(name, "source[language]") {
            if char_count(text.as_str()) == 0 {
                self.source_language = Some(None);
            } else {
                self.source_language = Some(Some(text));
            }
        } else if str_eq(name, "hide_collections") || str_eq(name, "source[hide_collections]") {
            self.source_hide_collections = Some(flag(text.as_str()));
        } else if str_eq(name, "source[quote_policy]") {
            let t = text.as_str();
            if str_eq(t, "public") || str_eq(t, "followers") || str_eq(t, "nobody") {
                self.source_quote_policy = Some(text);
            }
        } else if str_eq(name, "indexable") || str_eq(name, "source[indexable]") {
            self.indexable = Some(flag(text.as_str()));
        }
    }
}

/// Everything stays as it was but, at most, the setting numbered `k`
/// (0 display name, 1 note, 2 locked, 3 bot, 4 discoverable, 5 privacy,
/// 6 sensitive, 7 language, 8 hide collections, 9 quote policy,
/// 10 indexable, 11 attribution domains, 12 the fields).
pub open spec fn same_except(f: CredentialsForm, g: CredentialsForm, k: int) -> bool {
    &&& k != 0 ==> g.display_name == f.display_name
    &&& k != 1 ==> g.note == f.note
    &&& k != 2 ==> g.locked == f.locked
    &&& k != 3 ==> g.bot == f.bot
    &&& k != 4 ==> g.discoverable == f.discoverable
    &&& k != 5 ==> g.source_privacy == f.source_privacy
    &&& k != 6 ==> g.source_sensitive == f.source_sensitive
    &&& k != 7 ==> g.source_language == f.source_language
    &&& k != 8 ==> g.source_hide_collections == f.source_hide_collections
    &&& k != 9 ==> g.source_quote_policy == f.source_quote_policy
    &&& k != 10 ==> g.indexable == f.indexable
    &&& k != 11 ==> g.attribution_domains == f.attribution_domains
    &&& k != 12 ==> g.fields == f.fields && g.fields_submitted == f.fields_submitted
}

/// The privacies a default may be set to.
pub open spec fn privacy_name(t: Seq<char>) -> bool {
    t == "public"@ || t == "unlisted"@ || t == "private"@ || t == "direct"@
}

/// The quote policies a default may be set to.
pub open spec fn quote_policy_name(t: Seq<char>) -> bool {
    t == "public"@ || t == "followers"@ || t == "nobody"@
}

/// What taking a part does to the form: `attribution_domains[]` adds a
/// domain; `fields_attributes[N][name]` and `[value]` give field `N` its
/// name or value (any other key after a valid index only marks the fields
/// as submitted; a part with no valid index does nothing); the flags take
/// `true` or `1` as set; a privacy or quote policy that is not one of
/// theirs is ignored; an empty language clears it; any other part is
/// ignored.
pub open spec fn part_accepted(f: CredentialsForm, name: Seq<char>, text: Seq<char>, g: CredentialsForm) -> bool {
    if name == "attribution_domains[]"@ {
        &&& same_except(f, g, 11)
        &&& g.attribution_domains matches Some(ds) && ds@.map_values(|s: String| s@) == (match f.attribution_domains {
            Some(old) => old@.map_values(|s: String| s@),
            None => Seq::empty(),
        }).push(text)
    } else if is_prefix("fields_attributes["@, name) {
        match field_part_view(name) {
            Some((i, key)) => {
                &&& same_except(f, g, 12)
                &&& g.fields_submitted
                &&& entry_of(entry_views(g.fields@), i as u32) == set_part(
                    entry_of(entry_views(f.fields@), i as u32),
                    key,
                    text,
                )
                &&& has_index(entry_views(g.fields@), i as u32)
                &&& unchanged_elsewhere(entry_views(g.fields@), entry_views(f.fields@), i as u32)
            },
            None => same_except(f, g, 99),
        }
    } else if name == "display_name"@ {
        same_except(f, g, 0) && opt_seq(g.display_name) == Some(text)
    } else if name == "note"@ {
        same_except(f, g, 1) && opt_seq(g.note) == Some(text)
    } else if name == "locked"@ {
        same_except(f, g, 2) && g.locked == Some(flag_set(text))
    } else if name == "bot"@ {
        same_except(f, g, 3) && g.bot == Some(flag_set(text))
    } else if name == "discoverable"@ {
        same_except(f, g, 4) && g.discoverable == Some(flag_set(text))
    } else if name == "source[privacy]"@ {
        if privacy_name(text) {
            same_except(f, g, 5) && opt_seq(g.source_privacy) == Some(text)
        } else {
            same_except(f, g, 99)
        }
    } else if name == "source[sensitive]"@ {
        same_except(f, g, 6) && g.source_sensitive == Some(flag_set(text))
    } else if name == "source[language]"@ {
        &&& same_except(f, g, 7)
        &&& if text.len() == 0 {
            g.source_language == Some(None::<String>)
        } else {
            g.source_language matches Some(Some(l)) && l@ == text
        }
    } else if name == "hide_collections"@ || name == "source[hide_collections]"@ {
        same_except(f, g, 8) && g.source_hide_collections == Some(flag_set(text))
    } else if name == "source[quote_policy]"@ {
        if quote_policy_name(text) {
            same_except(f, g, 9) && opt_seq(g.source_quote_policy) == Some(text)
        } else {
            same_except(f, g, 99)
        }
    } else if name == "indexable"@ || name == "source[indexable]"@ {
        same_except(f, g, 10) && g.indexable == Some(flag_set(text))
    } else {
        same_except(f, g, 99)
    }
}


// ── Checks before writing ─────────────────────────────────────────────────

/// The total length of the links of a text, in characters.
pub open spec fn links_len(ls: Seq<(int, int, Seq<char>)>) -> int
    decreases ls.len(),
{
    if ls.len() == 0 {
        0
    } else {
        links_len(ls.drop_last()) + ls.last().2.len()
    }
}

/// How long a note counts as: its characters, each link counting as 23.
pub open spec fn countable_length(text: Seq<char>) -> int {
    text.len() + 23 * link_scan(text).len() - links_len(link_scan(text))
}

proof fn lemma_links_len_mono(ls: Seq<(int, int, Seq<char>)>, i: int)
    requires
        0 <= i <= ls.len(),
    ensures
        links_len(ls.take(i)) <= links_len(ls),
        links_len(ls.take(i)) >= 0,
    decreases ls.len(),
{
    if ls.len() > 0 {
        if i == ls.len() {
            assert(ls.take(i) =~= ls);
            lemma_links_len_mono(ls.drop_last(), i - 1);
            assert(ls.drop_last().take(i - 1) =~= ls.drop_last().take(i - 1));
            lemma_links_len_mono(ls.drop_last(), ls.len() - 1);
            assert(ls.drop_last().take(ls.len() - 1) =~= ls.drop_last());
        } else {
            assert(ls.take(i) =~= ls.drop_last().take(i));
            lemma_links_len_mono(ls.drop_last(), i);
        }
    } else {
        assert(ls.take(i) =~= ls);
    }
}

/// Whether a note counts as longer than 500 characters.
pub fn note_too_long(text: &str) -> (r: bool)
    ensures
        r == (countable_length(text@) > 500),
{
    let links = link_matches(text);
    let ghost ls = link_views(links@);
    let n = char_count(text) as u128;
    let count = links.len() as u128;
    let mut sum: u128 = 0;
    let mut i: usize = 0;
    while i < links.len()
        invariant
            ls == link_views(links@),
            ls == link_scan(text@),
            ls.len() == links@.len(),
            n == text@.len(),
            n <= usize::MAX,
            count == ls.len(),
            count <= usize::MAX,
            i <= links@.len(),
            sum == links_len(ls.take(i as int)),
        decreases links.len() - i,
    {
        assert(ls.take(i + 1).drop_last() =~= ls.take(i as int));
        assert(ls[i as int].2 == links@[i as int].url@);
        let len = char_count(links[i].url.as_str()) as u128;
        proof {
            assert(ls.take(i + 1).last() == ls[i as int]);
            assert(links_len(ls.take(i + 1)) == sum + len);
        }
        match sum.checked_add(len) {
            Some(t) => {
                sum = t;
            },
            None => {
                proof {
                    lemma_links_len_mono(ls, i + 1);
                    assert(links_len(ls) >= 0x1_0000_0000_0000_0000_0000_0000_0000_0000);
                }
                return false;
            },
        }
        i = i + 1;
    }
    assert(ls.take(ls.len() as int) =~= ls);
    let total = n + 23 * count;
    total > 500 && total - 500 > sum
}

pub open spec fn long_name_message() -> Seq<char> {
    "Validation failed: Display name is too long (maximum is 40 characters)"@
}

pub open spec fn long_note_message() -> Seq<char> {
    "Validation failed: Note is too long (maximum is 500 characters)"@
}

/// The display name and note to store: trimmed, the name at most 40
/// characters and the note counting at most 500. These are checked before
/// anything is written.
pub fn validate_profile_text(form: &CredentialsForm) -> (r: Result<(Option<String>, Option<String>), ApiError>)
    ensures
        ({
            let name = match form.display_name {
                Some(d) => Some(trimmed(d@)),
                None => None,
            };
            let note = match form.note {
                Some(n) => Some(trimmed(n@)),
                None => None,
            };
            if name matches Some(d) && d.len() > 40 {
                is_unprocessable(r, long_name_message())
            } else if note matches Some(n) && countable_length(n) > 500 {
                is_unprocessable(r, long_note_message())
            } else {
                r matches Ok((d, n)) && opt_seq(d) == name && opt_seq(n) == note
            }
        }),
{
    let name = match &form.display_name {
        Some(d) => Some(trim(d.as_str())),
        None => None,
    };
    let note = match &form.note {
        Some(n) => Some(trim(n.as_str())),
        None => None,
    };
    match &name {
        Some(d) => if char_count(d.as_str()) > 40 {
            return Err(
                unprocessable("Validation failed: Display name is too long (maximum is 40 characters)"),
            );
        },
        None => {},
    }
    match &note {
        Some(n) => if note_too_long(n.as_str()) {
            return Err(
                unprocessable("Validation failed: Note is too long (maximum is 500 characters)"),
            );
        },
        None => {},
    }
    Ok((name, note))
}

/// The fields given, in index order, without those left entirely blank.
pub open spec fn nonblank(es: Seq<(u32, Seq<char>, Seq<char>)>) -> Seq<(Seq<char>, Seq<char>)>
    decreases es.len(),
{
    if es.len() == 0 {
        Seq::empty()
    } else {
        let before = nonblank(es.drop_last());
        let e = es.last();
        if e.1.len() == 0 && e.2.len() == 0 {
            before
        } else {
            before.push((e.1, e.2))
        }
    }
}

pub open spec fn pair_views(v: Seq<(String, String)>) -> Seq<(Seq<char>, Seq<char>)> {
    v.map_values(|p: (String, String)| (p.0@, p.1@))
}

pub open spec fn too_many_fields_message() -> Seq<char> {
    "Validation failed: Fields can't have more than 4 entries"@
}

pub open spec fn long_field_message() -> Seq<char> {
    "Validation failed: Field name and value can't be longer than 255 characters"@
}

/// Whether every name and value is at most 255 characters.
pub open spec fn fields_fit(fs: Seq<(Seq<char>, Seq<char>)>) -> bool {
    forall|i: int| 0 <= i < fs.len() ==> #[trigger] fs[i].0.len() <= 255 && fs[i].1.len() <= 255
}

/// The profile fields to store, when any were submitted: the non-blank
/// ones in index order, at most four, each name and value at most 255
/// characters. Checked after the other settings are written.
pub fn validate_fields(form: &CredentialsForm) -> (r: Result<Option<Vec<(String, String)>>, ApiError>)
    ensures
        !form.fields_submitted ==> r matches Ok(None),
        form.fields_submitted ==> ({
            let fs = nonblank(entry_views(form.fields@));
            if fs.len() > 4 {
                is_unprocessable(r, too_many_fields_message())
            } else if !fields_fit(fs) {
                is_unprocessable(r, long_field_message())
            } else {
                r matches Ok(Some(v)) && pair_views(v@) == fs
            }
        }),
{
    if !form.fields_submitted {
        return Ok(None);
    }
    let ghost es = entry_views(form.fields@);
    let mut out: Vec<(String, String)> = Vec::new();
    let mut i: usize = 0;
    while i < form.fields.len()
        invariant
            es == entry_views(form.fields@),
            es.len() == form.fields@.len(),
            i <= form.fields@.len(),
            pair_views(out@) == nonblank(es.take(i as int)),
        decreases form.fields.len() - i,
    {
        assert(es.take(i + 1).drop_last() =~= es.take(i as int));
        let (_, n, v) = &form.fields[i];
        if !(char_count(n.as_str()) == 0 && char_count(v.as_str()) == 0) {
            let ghost before = pair_views(out@);
            out.push((owned(n.as_str()), owned(v.as_str())));
            assert(pair_views(out@) =~= before.push((n@, v@)));
        }
        i = i + 1;
    }
    assert(es.take(es.len() as int) =~= es);
    if out.len() > 4 {
        return Err(unprocessable("Validation failed: Fields can't have more than 4 entries"));
    }
    let ghost fs = nonblank(es);
    let mut j: usize = 0;
    while j < out.len()
        invariant
            form.fields_submitted,
            fs == nonblank(entry_views(form.fields@)),
            pair_views(out@) == fs,
            fs.len() <= 4,
            j <= out@.len(),
            forall|k: int| 0 <= k < j ==> #[trigger] pair_views(out@)[k].0.len() <= 255 && pair_views(
                out@,
            )[k].1.len() <= 255,
        decreases out.len() - j,
    {
        if char_count(out[j].0.as_str()) > 255 || char_count(out[j].1.as_str()) > 255 {
            proof {
                assert(!(pair_views(out@)[j as int].0.len() <= 255 && pair_views(out@)[j as int].1.len()
                    <= 255));
            }
            return Err(
                unprocessable(
                    "Validation failed: Field name and value can't be longer than 255 characters",
                ),
            );
        }
        j = j + 1;
    }
    Ok(Some(out))
}

// ── Writing ───────────────────────────────────────────────────────────────

/// The actor type a profile is federated with: a bot is a `Service`.
pub fn actor_type(bot: bool) -> (r: &'static str)
    ensures
        r@ == if bot {
            "Service"@
        } else {
            "Person"@
        },
{
    if bot {
        "Service"
    } else {
        "Person"
    }
}

/// Whether the form changes a posting preference kept in the user's
/// settings.
pub fn settings_changed(form: &CredentialsForm) -> (r: bool)
    ensures
        r == (form.source_privacy is Some || form.source_sensitive is Some || form.source_language
            is Some || form.source_quote_policy is Some),
{
    form.source_privacy.is_some() || form.source_sensitive.is_some()
        || form.source_language.is_some() || form.source_quote_policy.is_some()
}

/// The settings document after the form's preferences are stored:
/// `default_privacy`, `web.default_sensitive`, `default_language` (null to
/// clear it) and `default_quote_policy`, each when the form gives it.
pub open spec fn settings_after(s: Seq<(Seq<char>, Json)>, form: CredentialsForm) -> Seq<(Seq<char>, Json)> {
    let s1 = match form.source_privacy {
        Some(p) => crate::json::insert_entry(s, "default_privacy"@, Json::Str(p@)),
        None => s,
    };
    let s2 = match form.source_sensitive {
        Some(b) => crate::json::insert_entry(s1, "web.default_sensitive"@, Json::Bool(b)),
        None => s1,
    };
    let s3 = match form.source_language {
        Some(Some(l)) => crate::json::insert_entry(s2, "default_language"@, Json::Str(l@)),
        Some(None) => crate::json::insert_entry(s2, "default_language"@, Json::Null),
        None => s2,
    };
    match form.source_quote_policy {
        Some(q) => crate::json::insert_entry(s3, "default_quote_policy"@, Json::Str(q@)),
        None => s3,
    }
}

/// Stores the form's posting preferences in the entries of the user's
/// settings object.
pub fn apply_settings(settings: &mut Vec<(String, JsonValue)>, form: &CredentialsForm)
    ensures
        crate::json::json_entries(final(settings)@) == settings_after(
            crate::json::json_entries(old(settings)@),
            *form,
        ),
{
    match &form.source_privacy {
        Some(p) => entry_set(settings, owned("default_privacy"), json_str(p.as_str())),
        None => {},
    }
    match form.source_sensitive {
        Some(b) => entry_set(settings, owned("web.default_sensitive"), JsonValue::Bool(b)),
        None => {},
    }
    match &form.source_language {
        Some(Some(l)) => entry_set(settings, owned("default_language"), json_str(l.as_str())),
        Some(None) => entry_set(settings, owned("default_language"), JsonValue::Null),
        None => {},
    }
    match &form.source_quote_policy {
        Some(q) => entry_set(settings, owned("default_quote_policy"), json_str(q.as_str())),
        None => {},
    }
}

// ── Field verification ────────────────────────────────────────────────────

/// The verification a stored field carries over: that of the first stored
/// field with the same value, unless it is null or missing.
pub open spec fn kept_verification(old: Seq<Json>, value: Seq<char>) -> Json
    decreases old.len(),
{
    if old.len() == 0 {
        Json::Null
    } else if as_str(jget(old[0], "value"@)) == Some(value) {
        match jget(old[0], "verified_at"@) {
            Some(v) => v,
            None => Json::Null,
        }
    } else {
        kept_verification(old.drop_first(), value)
    }
}

/// The stored field objects: one per field with a name, in order, each
/// `{name, value, verified_at}`.
pub open spec fn stored_fields(fs: Seq<(Seq<char>, Seq<char>)>, old: Seq<Json>) -> Seq<Json>
    decreases fs.len(),
{
    if fs.len() == 0 {
        Seq::empty()
    } else {
        let before = stored_fields(fs.drop_last(), old);
        let (n, v) = fs.last();
        if n.len() == 0 {
            before
        } else {
            before.push(
                Json::Object(
                    seq![
                        ("name"@, Json::Str(n)),
                        ("value"@, Json::Str(v)),
                        ("verified_at"@, kept_verification(old, v)),
                    ],
                ),
            )
        }
    }
}

/// The stored fields of an account as a list: the items of an array, else
/// none.
pub open spec fn old_field_items(old: Json) -> Seq<Json> {
    match old {
        Json::Array(items) => items,
        _ => Seq::empty(),
    }
}

fn kept_verification_exec(old: &Vec<JsonValue>, value: &str) -> (r: JsonValue)
    ensures
        json_of(r) == kept_verification(json_items(old@), value@),
{
    let ghost items = json_items(old@);
    proof {
        lemma_items(old@);
    }
    let n = old.len();
    let mut i: usize = 0;
    assert(items.subrange(0, n as int) =~= items);
    while i < n
        invariant
            n == old@.len(),
            items == json_items(old@),
            items.len() == n,
            forall|j: int| 0 <= j < n ==> #[trigger] items[j] == json_of(old@[j]),
            i <= n,
            kept_verification(items, value@) == kept_verification(items.subrange(i as int, n as int), value@),
        decreases n - i,
    {
        let ghost sub = items.subrange(i as int, n as int);
        assert(sub[0] == items[i as int]);
        let matches = match json_get(&old[i], "value") {
            Some(JsonValue::Str(s)) => str_eq(s.as_str(), value),
            _ => false,
        };
        if matches {
            return match json_get(&old[i], "verified_at") {
                Some(v) => crate::json::json_clone(v),
                None => JsonValue::Null,
            };
        }
        assert(sub.drop_first() =~= items.subrange(i + 1, n as int));
        i = i + 1;
    }
    JsonValue::Null
}

/// The stored fields after an update: each field with a name becomes
/// `{name, value, verified_at}`, keeping the verification of a stored field
/// with the same value; a changed value loses it.
pub fn merge_fields(fields: &Vec<(String, String)>, old: &JsonValue) -> (r: JsonValue)
    ensures
        json_of(r) == Json::Array(stored_fields(pair_views(fields@), old_field_items(json_of(*old)))),
{
    let empty: Vec<JsonValue> = Vec::new();
    let old_items: &Vec<JsonValue> = match old {
        JsonValue::Array(xs) => xs,
        _ => &empty,
    };
    let ghost olds = json_items(old_items@);
    proof {
        lemma_items(old_items@);
        assert(olds == old_field_items(json_of(*old)));
    }
    let ghost fs = pair_views(fields@);
    let mut out: Vec<JsonValue> = Vec::new();
    let mut i: usize = 0;
    while i < fields.len()
        invariant
            fs == pair_views(fields@),
            fs.len() == fields@.len(),
            olds == json_items(old_items@),
            i <= fields@.len(),
            json_items(out@) == stored_fields(fs.take(i as int), olds),
        decreases fields.len() - i,
    {
        assert(fs.take(i + 1).drop_last() =~= fs.take(i as int));
        let (n, v) = &fields[i];
        if char_count(n.as_str()) > 0 {
            let va = kept_verification_exec(old_items, v.as_str());
            let mut es: Vec<(String, JsonValue)> = Vec::new();
            es.push((owned("name"), json_str(n.as_str())));
            es.push((owned("value"), json_str(v.as_str())));
            es.push((owned("verified_at"), va));
            let ghost before = out@;
            let obj = JsonValue::Object(es);
            proof {
                crate::json::lemma_entries(es@);
                assert(crate::json::json_entries(es@) =~= seq![
                    ("name"@, Json::Str(n@)),
                    ("value"@, Json::Str(v@)),
                    ("verified_at"@, kept_verification(olds, v@)),
                ]);
            }
            out.push(obj);
            proof {
                lemma_items(out@);
                lemma_items(before);
                assert(json_items(out@) =~= json_items(before).push(json_of(obj)));
            }
        }
        i = i + 1;
    }
    assert(fs.take(fs.len() as int) =~= fs);
    JsonValue::Array(out)
}

} // verus!
