//! Status and bio rendering: plain text becomes paragraphs of HTML with
//! hashtags, mentions and links turned into anchors.
use vstd::prelude::*;
use vstd::utf8::encode_utf8;
use crate::text::{chars_of, find, owned, push_char, push_str, str_eq, string_of};

verus! {

// ── Outside building blocks ────────────────────────────────────────────────

/// What `ammonia::clean_text` turns one character into.
pub open spec fn escape_char(c: char) -> Seq<char> {
    if c == '<' {
        "&lt;"@
    } else if c == '>' {
        "&gt;"@
    } else if c == '"' {
        "&quot;"@
    } else if c == '\'' {
        "&apos;"@
    } else if c == '`' {
        "&grave;"@
    } else if c == '/' {
        "&#47;"@
    } else if c == '&' {
        "&amp;"@
    } else if c == '=' {
        "&#61;"@
    } else if c == ' ' {
        "&#32;"@
    } else if c == '\t' {
        "&#9;"@
    } else if c == '\n' {
        "&#10;"@
    } else if c == '\x0c' {
        "&#12;"@
    } else if c == '\r' {
        "&#13;"@
    } else if c == '\0' {
        "&#65533;"@
    } else {
        seq![c]
    }
}

/// Text made safe to place anywhere in HTML, character by character.
pub open spec fn escaped(s: Seq<char>) -> Seq<char>
    decreases s.len(),
{
    if s.len() == 0 {
        Seq::empty()
    } else {
        escaped(s.drop_last()) + escape_char(s.last())
    }
}

/// `ammonia::clean_text`: every character that could end an attribute or
/// open markup is replaced by its entity; all others pass through.
#[verifier::external_body]
pub(crate) fn clean_text(s: &str) -> (r: String)
    ensures
        r@ == escaped(s@),
{
    ammonia::clean_text(s)
}

/// Whether `urlencoding` leaves a byte as it is.
pub open spec fn unreserved(b: u8) -> bool {
    (48 <= b <= 57) || (65 <= b <= 90) || (97 <= b <= 122) || b == 45 || b == 46 || b == 95 || b
        == 126
}

/// An upper-case hexadecimal digit.
pub open spec fn hex_digit(d: u8) -> char {
    if d < 10 {
        (48 + d) as char
    } else {
        (55 + d) as char
    }
}

/// Percent-encoding of a byte sequence.
pub open spec fn percent_encoded(bs: Seq<u8>) -> Seq<char>
    decreases bs.len(),
{
    if bs.len() == 0 {
        Seq::empty()
    } else {
        let b = bs.last();
        percent_encoded(bs.drop_last()) + if unreserved(b) {
            seq![b as char]
        } else {
            seq!['%', hex_digit(b / 16), hex_digit(b % 16)]
        }
    }
}

/// `urlencoding::encode`: every UTF-8 byte but ASCII letters, digits and
/// `-._~` becomes `%XX`.
#[verifier::external_body]
pub(crate) fn url_encode(s: &str) -> (r: String)
    ensures
        r@ == percent_encoded(encode_utf8(s@)),
{
    urlencoding::encode(s).into_owned()
}

/// `str::to_lowercase`: Unicode's lowercase mapping of each character.
pub uninterp spec fn lowercase(s: Seq<char>) -> Seq<char>;

/// `str::to_lowercase`.
#[verifier::external_body]
pub(crate) fn to_lowercase(s: &str) -> (r: String)
    ensures
        r@ == lowercase(s@),
{
    s.to_lowercase()
}

/// The hashtags `regex` finds in a text: for each, where the `#tag` begins
/// (after the separator the pattern consumed) and ends, in bytes, and the tag.
pub uninterp spec fn hashtag_scan(text: Seq<char>) -> Seq<(int, int, Seq<char>)>;

/// The mentions `regex` finds in a text: where `@user[@domain]` begins and
/// ends, in bytes, the user and the domain.
pub uninterp spec fn mention_scan(text: Seq<char>) -> Seq<(int, int, Seq<char>, Option<Seq<char>>)>;

/// The links `regex` finds in a text: where each begins and ends, in bytes,
/// and the link.
pub uninterp spec fn link_scan(text: Seq<char>) -> Seq<(int, int, Seq<char>)>;

/// `text.get(start..end)`, byte offsets: `None` unless both are character
/// boundaries within the text and `start <= end`.
pub uninterp spec fn byte_range(text: Seq<char>, start: int, end: int) -> Option<Seq<char>>;

/// A hashtag found in a text.
pub struct HashtagMatch {
    pub start: usize,
    pub end: usize,
    pub tag: String,
}

/// A mention found in a text.
pub struct MentionMatch {
    pub start: usize,
    pub end: usize,
    pub username: String,
    pub domain: Option<String>,
}

/// A link found in a text.
pub struct LinkMatch {
    pub start: usize,
    pub end: usize,
    pub url: String,
}

pub open spec fn hashtag_views(ms: Seq<HashtagMatch>) -> Seq<(int, int, Seq<char>)> {
    ms.map_values(|m: HashtagMatch| (m.start as int, m.end as int, m.tag@))
}

pub open spec fn mention_views(ms: Seq<MentionMatch>) -> Seq<(int, int, Seq<char>, Option<Seq<char>>)> {
    ms.map_values(
        |m: MentionMatch|
            (
                m.start as int,
                m.end as int,
                m.username@,
                match m.domain {
                    Some(d) => Some(d@),
                    None => None,
                },
            ),
    )
}

pub open spec fn link_views(ms: Seq<LinkMatch>) -> Seq<(int, int, Seq<char>)> {
    ms.map_values(|m: LinkMatch| (m.start as int, m.end as int, m.url@))
}

/// `#tag` after start, a separator or `/`: `(^|[\s,.:;!?\(\[\{/])#([a-zA-Z][a-zA-Z0-9_]*)`.
#[verifier::external_body]
pub(crate) fn hashtag_matches(text: &str) -> (r: Vec<HashtagMatch>)
    ensures
        hashtag_views(r@) == hashtag_scan(text@),
{
    let re = regex::Regex::new("(^|[\\s,.:;!?\\(\\[\\{/])#([a-zA-Z][a-zA-Z0-9_]*)").unwrap();
    re.captures_iter(text).map(|c| HashtagMatch {
        start: c.get(1).unwrap().end(),
        end: c.get(0).unwrap().end(),
        tag: c[2].to_string(),
    }).collect()
}

/// `@user` or `@user@domain` after start or a separator:
/// `(^|[\s,.:;!?\(\[\{/])@([a-zA-Z0-9_]+)(?:@([a-zA-Z0-9._:\-]+))?`.
#[verifier::external_body]
pub(crate) fn mention_matches(text: &str) -> (r: Vec<MentionMatch>)
    ensures
        mention_views(r@) == mention_scan(text@),
{
    let re = regex::Regex::new("(^|[\\s,.:;!?\\(\\[\\{/])@([a-zA-Z0-9_]+)(?:@([a-zA-Z0-9._:\\-]+))?").unwrap();
    re.captures_iter(text).map(|c| MentionMatch {
        start: c.get(1).unwrap().end(),
        end: c.get(0).unwrap().end(),
        username: c[2].to_string(),
        domain: c.get(3).map(|m| m.as_str().to_string()),
    }).collect()
}

/// `https?://[^\s<>&"]+`.
#[verifier::external_body]
pub(crate) fn link_matches(text: &str) -> (r: Vec<LinkMatch>)
    ensures
        link_views(r@) == link_scan(text@),
{
    let re = regex::Regex::new("https?://[^\\s<>&\"]+").unwrap();
    re.find_iter(text).map(|m| LinkMatch {
        start: m.start(),
        end: m.end(),
        url: m.as_str().to_string(),
    }).collect()
}

/// `text.get(start..end)`.
#[verifier::external_body]
pub(crate) fn byte_slice(text: &str, start: usize, end: usize) -> (r: Option<String>)
    ensures
        match r {
            Some(s) => byte_range(text@, start as int, end as int) == Some(s@),
            None => byte_range(text@, start as int, end as int) is None,
        },
{
    text.get(start..end).map(|s| s.to_string())
}

} // verus!

verus! {

// ── Mentions ───────────────────────────────────────────────────────────────

/// An account a status mentions.
pub struct StatusMention {
    pub id: String,
    pub username: String,
    pub url: String,
    pub acct: String,
}

/// Lower-case handles (`user` or `user@domain`) to the profile URL and the
/// handle to show, the first entry under a handle winning.
pub struct MentionMap {
    entries: Vec<(String, String, String)>,
}

pub type MentionEntries = Seq<(Seq<char>, Seq<char>, Seq<char>)>;

pub open spec fn find_handle_from(es: MentionEntries, key: Seq<char>, i: int) -> Option<int>
    decreases es.len() - i,
{
    if i < 0 || i >= es.len() {
        None
    } else if es[i].0 == key {
        Some(i)
    } else {
        find_handle_from(es, key, i + 1)
    }
}

/// The URL and display handle under `key`.
pub open spec fn handle_lookup(es: MentionEntries, key: Seq<char>) -> Option<(Seq<char>, Seq<char>)> {
    match find_handle_from(es, key, 0) {
        Some(i) => Some((es[i].1, es[i].2)),
        None => None,
    }
}

/// `entry(key).or_insert(..)`.
pub open spec fn handle_or_insert(es: MentionEntries, key: Seq<char>, url: Seq<char>, display: Seq<char>) -> MentionEntries {
    if find_handle_from(es, key, 0) is Some {
        es
    } else {
        es.push((key, url, display))
    }
}

impl View for MentionMap {
    type V = MentionEntries;

    closed spec fn view(&self) -> MentionEntries {
        self.entries@.map_values(|e: (String, String, String)| (e.0@, e.1@, e.2@))
    }
}

impl MentionMap {
    pub fn new() -> (r: Self)
        ensures
            r@ == Seq::<(Seq<char>, Seq<char>, Seq<char>)>::empty(),
    {
        let r = MentionMap { entries: Vec::new() };
        assert(r@ =~= Seq::<(Seq<char>, Seq<char>, Seq<char>)>::empty());
        r
    }

    fn index_of(&self, key: &str) -> (r: Option<usize>)
        ensures
            match r {
                Some(i) => find_handle_from(self@, key@, 0) == Some(i as int) && i < self@.len(),
                None => find_handle_from(self@, key@, 0) is None,
            },
            self@.len() == self.entries@.len(),
    {
        let mut i: usize = 0;
        while i < self.entries.len()
            invariant
                i <= self.entries@.len(),
                self@.len() == self.entries@.len(),
                find_handle_from(self@, key@, 0) == find_handle_from(self@, key@, i as int),
            decreases self.entries.len() - i,
        {
            assert(self@[i as int] == (self.entries@[i as int].0@, self.entries@[i as int].1@, self.entries@[i as int].2@));
            if str_eq(self.entries[i].0.as_str(), key) {
                return Some(i);
            }
            i = i + 1;
        }
        None
    }

    /// Adds `key` unless it is already there.
    pub fn insert_if_absent(&mut self, key: String, url: String, display: String)
        ensures
            final(self)@ == handle_or_insert(old(self)@, key@, url@, display@),
    {
        if self.index_of(key.as_str()).is_none() {
            let ghost before = self@;
            let ghost kv = (key@, url@, display@);
            self.entries.push((key, url, display));
            assert(self@ =~= before.push(kv));
        }
    }

    /// The URL and display handle under `key`.
    pub fn get(&self, key: &str) -> (r: Option<(String, String)>)
        ensures
            match r {
                Some((u, d)) => handle_lookup(self@, key@) == Some((u@, d@)),
                None => handle_lookup(self@, key@) is None,
            },
    {
        match self.index_of(key) {
            Some(i) => {
                assert(self@[i as int] == (self.entries@[i as int].0@, self.entries@[i as int].1@, self.entries@[i as int].2@));
                Some((self.entries[i].1.clone(), self.entries[i].2.clone()))
            },
            None => None,
        }
    }
}

/// The lookup map of a status's mentions: each under its lower-case
/// username, and, for a remote account, also under its lower-case acct.
pub open spec fn mention_entries(ms: Seq<StatusMention>) -> MentionEntries
    decreases ms.len(),
{
    if ms.len() == 0 {
        Seq::empty()
    } else {
        let m = ms.last();
        let e1 = handle_or_insert(mention_entries(ms.drop_last()), lowercase(m.username@), m.url@, m.acct@);
        if m.acct@.contains('@') {
            handle_or_insert(e1, lowercase(m.acct@), m.url@, m.acct@)
        } else {
            e1
        }
    }
}

/// Whether `s` contains `c`.
pub fn has_char(s: &str, c: char) -> (r: bool)
    ensures
        r == s@.contains(c),
{
    let cs = chars_of(s);
    let mut i: usize = 0;
    while i < cs.len()
        invariant
            cs@ == s@,
            i <= cs@.len(),
            forall|j: int| 0 <= j < i ==> cs@[j] != c,
        decreases cs.len() - i,
    {
        if cs[i] == c {
            assert(s@[i as int] == c);
            return true;
        }
        i = i + 1;
    }
    false
}

/// Build a mention lookup map from a status's mentions. Keys are the
/// lower-case acct handle (`user` or `user@domain`).
pub fn mention_map_from_api(mentions: &[StatusMention]) -> (r: MentionMap)
    ensures
        r@ == mention_entries(mentions@),
{
    let mut map = MentionMap::new();
    let mut i: usize = 0;
    while i < mentions.len()
        invariant
            i <= mentions@.len(),
            map@ == mention_entries(mentions@.take(i as int)),
        decreases mentions.len() - i,
    {
        let m = &mentions[i];
        assert(mentions@.take(i + 1).drop_last() =~= mentions@.take(i as int));
        map.insert_if_absent(to_lowercase(m.username.as_str()), m.url.clone(), m.acct.clone());
        if has_char(m.acct.as_str(), '@') {
            map.insert_if_absent(to_lowercase(m.acct.as_str()), m.url.clone(), m.acct.clone());
        }
        i = i + 1;
    }
    assert(mentions@.take(mentions@.len() as int) =~= mentions@);
    map
}

} // verus!

verus! {

// ── Entities ───────────────────────────────────────────────────────────────

/// A piece of the text, by byte offsets, and the HTML that replaces it.
pub struct Entity {
    pub start: usize,
    pub end: usize,
    pub html: String,
}

pub type EntityView = (int, int, Seq<char>);

pub open spec fn entity_views(es: Seq<Entity>) -> Seq<EntityView> {
    es.map_values(|e: Entity| (e.start as int, e.end as int, e.html@))
}

/// `https://{domain}/tags/{percent-encoded lower-case tag}`.
pub open spec fn tag_link(domain: Seq<char>, tag: Seq<char>) -> Seq<char> {
    "https://"@ + domain + "/tags/"@ + percent_encoded(encode_utf8(lowercase(tag)))
}

pub open spec fn hashtag_html(domain: Seq<char>, tag: Seq<char>) -> Seq<char> {
    "<a href=\""@ + escaped(tag_link(domain, tag)) + "\" class=\"mention hashtag\" rel=\"tag\">#<span>"@
        + escaped(tag) + "</span></a>"@
}

pub open spec fn mention_html(url: Seq<char>, display: Seq<char>) -> Seq<char> {
    "<span class=\"h-card\" translate=\"no\"><a href=\""@ + escaped(url)
        + "\" class=\"u-url mention\">@<span>"@ + escaped(display) + "</span></a></span>"@
}

pub open spec fn link_html(url: Seq<char>) -> Seq<char> {
    "<a href=\""@ + escaped(url) + "\" target=\"_blank\" rel=\"nofollow noopener noreferrer\">"@
        + escaped(url) + "</a>"@
}

/// The lookup key of a mention: lower-case `user` or `user@domain`.
pub open spec fn mention_key(user: Seq<char>, domain: Option<Seq<char>>) -> Seq<char> {
    match domain {
        Some(d) => lowercase(user) + seq!['@'] + lowercase(d),
        None => lowercase(user),
    }
}

pub open spec fn hashtag_entities(ms: Seq<(int, int, Seq<char>)>, domain: Seq<char>) -> Seq<EntityView>
    decreases ms.len(),
{
    if ms.len() == 0 {
        Seq::empty()
    } else {
        let m = ms.last();
        hashtag_entities(ms.drop_last(), domain).push((m.0, m.1, hashtag_html(domain, m.2)))
    }
}

/// Mentions of accounts the map knows; the others stay text.
pub open spec fn mention_entities(ms: Seq<(int, int, Seq<char>, Option<Seq<char>>)>, map: MentionEntries) -> Seq<EntityView>
    decreases ms.len(),
{
    if ms.len() == 0 {
        Seq::empty()
    } else {
        let m = ms.last();
        let before = mention_entities(ms.drop_last(), map);
        match handle_lookup(map, mention_key(m.2, m.3)) {
            Some((url, display)) => before.push((m.0, m.1, mention_html(url, display))),
            None => before,
        }
    }
}

pub open spec fn link_entities(ms: Seq<(int, int, Seq<char>)>) -> Seq<EntityView>
    decreases ms.len(),
{
    if ms.len() == 0 {
        Seq::empty()
    } else {
        let m = ms.last();
        link_entities(ms.drop_last()).push((m.0, m.1, link_html(m.2)))
    }
}

fn hashtag_html_exec(domain: &str, tag: &str) -> (r: String)
    ensures
        r@ == hashtag_html(domain@, tag@),
{
    let lower = to_lowercase(tag);
    let enc = url_encode(lower.as_str());
    let mut link = owned("https://");
    push_str(&mut link, domain);
    push_str(&mut link, "/tags/");
    push_str(&mut link, enc.as_str());
    let mut r = owned("<a href=\"");
    push_str(&mut r, clean_text(link.as_str()).as_str());
    push_str(&mut r, "\" class=\"mention hashtag\" rel=\"tag\">#<span>");
    push_str(&mut r, clean_text(tag).as_str());
    push_str(&mut r, "</span></a>");
    r
}

fn mention_html_exec(url: &str, display: &str) -> (r: String)
    ensures
        r@ == mention_html(url@, display@),
{
    let mut r = owned("<span class=\"h-card\" translate=\"no\"><a href=\"");
    push_str(&mut r, clean_text(url).as_str());
    push_str(&mut r, "\" class=\"u-url mention\">@<span>");
    push_str(&mut r, clean_text(display).as_str());
    push_str(&mut r, "</span></a></span>");
    r
}

fn link_html_exec(url: &str) -> (r: String)
    ensures
        r@ == link_html(url@),
{
    let mut r = owned("<a href=\"");
    push_str(&mut r, clean_text(url).as_str());
    push_str(&mut r, "\" target=\"_blank\" rel=\"nofollow noopener noreferrer\">");
    push_str(&mut r, clean_text(url).as_str());
    push_str(&mut r, "</a>");
    r
}

fn push_hashtags(out: &mut Vec<Entity>, text: &str, domain: &str)
    ensures
        entity_views(final(out)@) == entity_views(old(out)@) + hashtag_entities(hashtag_scan(text@), domain@),
{
    let ms = hashtag_matches(text);
    let ghost base = entity_views(out@);
    let ghost mv = hashtag_views(ms@);
    let mut i: usize = 0;
    while i < ms.len()
        invariant
            i <= ms@.len(),
            mv == hashtag_views(ms@),
            mv.len() == ms@.len(),
            entity_views(out@) == base + hashtag_entities(mv.take(i as int), domain@),
        decreases ms.len() - i,
    {
        let m = &ms[i];
        let html = hashtag_html_exec(domain, m.tag.as_str());
        let ghost before = out@;
        out.push(Entity { start: m.start, end: m.end, html });
        proof {
            assert(mv.take(i + 1).drop_last() =~= mv.take(i as int));
            assert(mv[i as int] == (m.start as int, m.end as int, m.tag@));
            assert(entity_views(out@) =~= entity_views(before).push((m.start as int, m.end as int, hashtag_html(domain@, m.tag@))));
        }
        i = i + 1;
    }
    assert(mv.take(ms@.len() as int) =~= mv);
}

fn mention_key_exec(username: &str, domain: &Option<String>) -> (r: String)
    ensures
        r@ == mention_key(username@, match domain {
            Some(d) => Some(d@),
            None => None,
        }),
{
    let mut r = to_lowercase(username);
    if let Some(d) = domain {
        push_char(&mut r, '@');
        push_str(&mut r, to_lowercase(d.as_str()).as_str());
    }
    r
}

fn push_mentions(out: &mut Vec<Entity>, text: &str, map: &MentionMap)
    ensures
        entity_views(final(out)@) == entity_views(old(out)@) + mention_entities(mention_scan(text@), map@),
{
    let ms = mention_matches(text);
    let ghost base = entity_views(out@);
    let ghost mv = mention_views(ms@);
    let mut i: usize = 0;
    while i < ms.len()
        invariant
            i <= ms@.len(),
            mv == mention_views(ms@),
            mv.len() == ms@.len(),
            entity_views(out@) == base + mention_entities(mv.take(i as int), map@),
        decreases ms.len() - i,
    {
        let m = &ms[i];
        let key = mention_key_exec(m.username.as_str(), &m.domain);
        let ghost before = out@;
        proof {
            assert(mv.take(i + 1).drop_last() =~= mv.take(i as int));
            assert(mv[i as int] == (m.start as int, m.end as int, m.username@, match m.domain {
                Some(d) => Some(d@),
                None => None,
            }));
        }
        match map.get(key.as_str()) {
            Some((url, display)) => {
                let html = mention_html_exec(url.as_str(), display.as_str());
                out.push(Entity { start: m.start, end: m.end, html });
                assert(entity_views(out@) =~= entity_views(before).push((m.start as int, m.end as int, mention_html(url@, display@))));
            },
            None => {},
        }
        i = i + 1;
    }
    assert(mv.take(ms@.len() as int) =~= mv);
}

fn push_links(out: &mut Vec<Entity>, text: &str)
    ensures
        entity_views(final(out)@) == entity_views(old(out)@) + link_entities(link_scan(text@)),
{
    let ms = link_matches(text);
    let ghost base = entity_views(out@);
    let ghost mv = link_views(ms@);
    let mut i: usize = 0;
    while i < ms.len()
        invariant
            i <= ms@.len(),
            mv == link_views(ms@),
            mv.len() == ms@.len(),
            entity_views(out@) == base + link_entities(mv.take(i as int)),
        decreases ms.len() - i,
    {
        let m = &ms[i];
        let html = link_html_exec(m.url.as_str());
        let ghost before = out@;
        out.push(Entity { start: m.start, end: m.end, html });
        proof {
            assert(mv.take(i + 1).drop_last() =~= mv.take(i as int));
            assert(mv[i as int] == (m.start as int, m.end as int, m.url@));
            assert(entity_views(out@) =~= entity_views(before).push((m.start as int, m.end as int, link_html(m.url@))));
        }
        i = i + 1;
    }
    assert(mv.take(ms@.len() as int) =~= mv);
}

// ── Ordering and splicing ──────────────────────────────────────────────────

/// Where an entity starting at `start` goes in a list ordered by start,
/// after every entity that starts no later (so equal starts keep their order).
pub open spec fn insert_pos_from(sorted: Seq<EntityView>, start: int, i: int) -> int
    decreases sorted.len() - i,
{
    if i < 0 || i >= sorted.len() {
        sorted.len() as int
    } else if sorted[i].0 > start {
        i
    } else {
        insert_pos_from(sorted, start, i + 1)
    }
}

/// A stable sort of the entities by where they start.
pub open spec fn sort_by_start(es: Seq<EntityView>) -> Seq<EntityView>
    decreases es.len(),
{
    if es.len() == 0 {
        Seq::empty()
    } else {
        let s = sort_by_start(es.drop_last());
        s.insert(insert_pos_from(s, es.last().0, 0), es.last())
    }
}

proof fn lemma_insert_pos_bound(sorted: Seq<EntityView>, start: int, i: int)
    requires
        0 <= i <= sorted.len(),
    ensures
        i <= insert_pos_from(sorted, start, i) <= sorted.len(),
    decreases sorted.len() - i,
{
    if i < sorted.len() && sorted[i].0 <= start {
        lemma_insert_pos_bound(sorted, start, i + 1);
    }
}

proof fn lemma_sort_len(es: Seq<EntityView>)
    ensures
        sort_by_start(es).len() == es.len(),
    decreases es.len(),
{
    if es.len() > 0 {
        lemma_sort_len(es.drop_last());
        lemma_insert_pos_bound(sort_by_start(es.drop_last()), es.last().0, 0);
    }
}

fn sort_entities(es: Vec<Entity>) -> (r: Vec<Entity>)
    ensures
        entity_views(r@) == sort_by_start(entity_views(es@)),
{
    let ghost ev = entity_views(es@);
    let mut r: Vec<Entity> = Vec::new();
    let mut rest = es;
    let n = rest.len();
    let mut k: usize = 0;
    while k < n
        invariant
            k <= n,
            n == ev.len(),
            entity_views(rest@) == ev.skip(k as int),
            entity_views(r@) == sort_by_start(ev.take(k as int)),
        decreases n - k,
    {
        let ghost rv = entity_views(rest@);
        assert(rv.len() == n - k);
        let ghost old_rest = rest@;
        let e = rest.remove(0);
        assert(rv[0] == ev[k as int]);
        assert(rest@ =~= old_rest.subrange(1, old_rest.len() as int));
        assert forall|j: int| 0 <= j < rest@.len() implies #[trigger] entity_views(rest@)[j] == ev.skip(
            k + 1,
        )[j] by {
            assert(entity_views(rest@)[j] == rv[j + 1]);
        }
        assert(entity_views(rest@) =~= ev.skip(k + 1));
        assert(e.start as int == ev[k as int].0 && e.end as int == ev[k as int].1 && e.html@ == ev[k as int].2);
        let ghost s = entity_views(r@);
        let mut pos: usize = 0;
        while pos < r.len() && r[pos].start <= e.start
            invariant
                pos <= r@.len(),
                s == entity_views(r@),
                s.len() == r@.len(),
                insert_pos_from(s, e.start as int, 0) == insert_pos_from(s, e.start as int, pos as int),
            decreases r.len() - pos,
        {
            assert(s[pos as int].0 == r@[pos as int].start as int);
            pos = pos + 1;
        }
        proof {
            if pos < r@.len() {
                assert(s[pos as int].0 == r@[pos as int].start as int);
            }
            assert(ev.take(k + 1).drop_last() =~= ev.take(k as int));
            assert(ev.take(k + 1).last() == (e.start as int, e.end as int, e.html@));
        }
        let ghost ee = (e.start as int, e.end as int, e.html@);
        r.insert(pos, e);
        assert(entity_views(r@) =~= s.insert(pos as int, ee));
        k = k + 1;
    }
    assert(ev.take(n as int) =~= ev);
    r
}

/// The text between two byte offsets, or nothing when they do not cut it at
/// character boundaries.
pub open spec fn gap(text: Seq<char>, a: int, b: int) -> Seq<char> {
    match byte_range(text, a, b) {
        Some(s) => s,
        None => Seq::empty(),
    }
}

/// The output so far and where the last replaced entity ended, after the
/// first `k` entities: an entity overlapping one already placed is skipped;
/// the text before an entity is escaped.
pub open spec fn splice_state(text: Seq<char>, es: Seq<EntityView>, k: int) -> (Seq<char>, int)
    decreases k,
{
    if k <= 0 {
        (Seq::empty(), 0)
    } else {
        let (out, last) = splice_state(text, es, k - 1);
        let e = es[k - 1];
        if e.0 < last {
            (out, last)
        } else {
            (out + escaped(gap(text, last, e.0)) + e.2, e.1)
        }
    }
}

/// The text with its entities replaced, everything else escaped.
pub open spec fn splice(text: Seq<char>, es: Seq<EntityView>) -> Seq<char> {
    let (out, last) = splice_state(text, es, es.len() as int);
    out + escaped(gap(text, last, (encode_utf8(text).len() as usize) as int))
}

fn gap_exec(text: &str, a: usize, b: usize) -> (r: String)
    ensures
        r@ == gap(text@, a as int, b as int),
{
    match byte_slice(text, a, b) {
        Some(s) => s,
        None => String::new(),
    }
}

fn splice_exec(text: &str, es: &Vec<Entity>) -> (r: String)
    ensures
        r@ == splice(text@, entity_views(es@)),
{
    let ghost ev = entity_views(es@);
    let mut out = String::new();
    let mut last: usize = 0;
    let mut k: usize = 0;
    while k < es.len()
        invariant
            k <= es@.len(),
            ev == entity_views(es@),
            ev.len() == es@.len(),
            (out@, last as int) == splice_state(text@, ev, k as int),
        decreases es.len() - k,
    {
        let e = &es[k];
        assert(ev[k as int] == (e.start as int, e.end as int, e.html@));
        if e.start < last {
        } else {
            let g = gap_exec(text, last, e.start);
            push_str(&mut out, clean_text(g.as_str()).as_str());
            push_str(&mut out, e.html.as_str());
            last = e.end;
        }
        k = k + 1;
    }
    let tail = gap_exec(text, last, text.len());
    push_str(&mut out, clean_text(tail.as_str()).as_str());
    out
}

/// The entities a text holds: hashtags, mentions the map knows, and links,
/// in that order.
pub open spec fn text_entities(text: Seq<char>, domain: Seq<char>, map: MentionEntries) -> Seq<EntityView> {
    hashtag_entities(hashtag_scan(text), domain) + mention_entities(mention_scan(text), map)
        + link_entities(link_scan(text))
}

/// The HTML of one paragraph: its text escaped, with hashtags, known
/// mentions and links made anchors.
pub open spec fn linkified(text: Seq<char>, domain: Seq<char>, map: MentionEntries) -> Seq<char> {
    splice(text, sort_by_start(text_entities(text, domain, map)))
}

/// The HTML of a profile field's value: escaped, with its links made anchors.
pub open spec fn field_html(value: Seq<char>) -> Seq<char> {
    splice(value, sort_by_start(link_entities(link_scan(value))))
}

pub fn linkify_entities(text: &str, domain: &str, mention_map: &MentionMap) -> (r: String)
    ensures
        r@ == linkified(text@, domain@, mention_map@),
{
    let mut es: Vec<Entity> = Vec::new();
    assert(entity_views(es@) =~= Seq::<EntityView>::empty());
    push_hashtags(&mut es, text, domain);
    push_mentions(&mut es, text, mention_map);
    push_links(&mut es, text);
    assert(entity_views(es@) =~= text_entities(text@, domain@, mention_map@));
    let sorted = sort_entities(es);
    splice_exec(text, &sorted)
}

/// A profile field's value as HTML: escaped, with its links made anchors.
pub fn format_field_value(value: &str) -> (r: String)
    ensures
        r@ == field_html(value@),
{
    let mut es: Vec<Entity> = Vec::new();
    assert(entity_views(es@) =~= Seq::<EntityView>::empty());
    push_links(&mut es, value);
    assert(entity_views(es@) =~= link_entities(link_scan(value@)));
    let sorted = sort_entities(es);
    splice_exec(value, &sorted)
}

} // verus!

verus! {

// ── Paragraphs ─────────────────────────────────────────────────────────────

/// The paragraph break: a blank line.
pub open spec fn para_break() -> Seq<char> {
    seq!['\n', '\n']
}

/// A line break.
pub open spec fn line_break() -> Seq<char> {
    seq!['\n']
}

/// The lines of a paragraph, each made HTML (escaped, with its hashtags,
/// known mentions and links made anchors), with `<br />` between them: a
/// line break inside a paragraph becomes `<br />`.
pub open spec fn lines_html(s: Seq<char>, domain: Seq<char>, map: MentionEntries) -> Seq<char>
    decreases s.len(),
{
    match find(s, line_break()) {
        Some(i) => {
            proof {
                crate::text::lemma_find_from(s, line_break(), 0);
            }
            linkified(s.subrange(0, i), domain, map) + "<br />"@ + lines_html(
                s.subrange(i + 1, s.len() as int),
                domain,
                map,
            )
        },
        None => linkified(s, domain, map),
    }
}

/// One paragraph: `<p>…</p>`.
pub open spec fn paragraph_html(p: Seq<char>, domain: Seq<char>, map: MentionEntries) -> Seq<char> {
    "<p>"@ + lines_html(p, domain, map) + "</p>"@
}

/// The paragraphs of a text (split at each blank line), each rendered.
pub open spec fn paragraphs_html(s: Seq<char>, domain: Seq<char>, map: MentionEntries) -> Seq<char>
    decreases s.len(),
{
    match find(s, para_break()) {
        Some(i) => {
            proof {
                crate::text::lemma_find_from(s, para_break(), 0);
            }
            paragraph_html(s.subrange(0, i), domain, map) + paragraphs_html(
                s.subrange(i + 2, s.len() as int),
                domain,
                map,
            )
        },
        None => paragraph_html(s, domain, map),
    }
}

/// A status's or bio's HTML from its plain text.
pub open spec fn rendered(text: Seq<char>, domain: Seq<char>, map: MentionEntries) -> Seq<char> {
    if text.len() == 0 {
        Seq::empty()
    } else {
        paragraphs_html(text, domain, map)
    }
}

fn push_paragraph(out: &mut String, p: &str, domain: &str, map: &MentionMap)
    ensures
        final(out)@ == old(out)@ + paragraph_html(p@, domain@, map@),
{
    let ghost start0 = out@;
    push_str(out, "<p>");
    let cs = chars_of(p);
    let n = cs.len();
    let ghost t = p@;
    let ghost head = out@;
    let mut start: usize = 0;
    let mut i: usize = 0;
    assert(t.subrange(0, n as int) =~= t);
    while i < n
        invariant
            cs@ == t,
            n == t.len(),
            start <= i <= n,
            head == start0 + "<p>"@,
            head + lines_html(t, domain@, map@) == out@ + lines_html(
                t.subrange(start as int, n as int),
                domain@,
                map@,
            ),
            find(t.subrange(start as int, n as int), line_break()) == crate::text::find_from(
                t.subrange(start as int, n as int),
                line_break(),
                (i - start) as int,
            ),
        decreases n - i,
    {
        let ghost sub = t.subrange(start as int, n as int);
        if cs[i] == '\n' {
            proof {
                assert(sub.subrange(i - start, i - start + 1) =~= line_break());
                assert(crate::text::occurs_at(sub, line_break(), i - start));
                assert(sub.subrange(0, i - start) =~= t.subrange(start as int, i as int));
                assert(sub.subrange(i - start + 1, sub.len() as int) =~= t.subrange(i + 1, n as int));
            }
            let line = string_of(&cs, start, i);
            let linked = linkify_entities(line.as_str(), domain, map);
            push_str(out, linked.as_str());
            push_str(out, "<br />");
            start = i + 1;
            i = i + 1;
        } else {
            proof {
                assert(sub.subrange(i - start, i - start + 1) != line_break()) by {
                    if sub.subrange(i - start, i - start + 1) == line_break() {
                        assert(sub.subrange(i - start, i - start + 1)[0] == t[i as int]);
                    }
                }
            }
            i = i + 1;
        }
    }
    proof {
        let sub = t.subrange(start as int, n as int);
        assert(find(sub, line_break()) is None);
    }
    let line = string_of(&cs, start, n);
    let linked = linkify_entities(line.as_str(), domain, map);
    push_str(out, linked.as_str());
    push_str(out, "</p>");
    assert(out@ =~= start0 + paragraph_html(p@, domain@, map@));
}

/// Render plain text as Mastodon does: paragraphs split at blank lines,
/// line breaks as `<br />`, and hashtags, known mentions and links as anchors.
pub fn render_content(text: &str, domain: &str, mention_map: &MentionMap) -> (r: String)
    ensures
        r@ == rendered(text@, domain@, mention_map@),
{
    let cs = chars_of(text);
    let n = cs.len();
    if n == 0 {
        return String::new();
    }
    let ghost t = text@;
    let mut out = String::new();
    let mut start: usize = 0;
    let mut i: usize = 0;
    assert(t.subrange(0, n as int) =~= t);
    while i < n - 1
        invariant
            cs@ == t,
            n == t.len(),
            n >= 1,
            i <= n,
            start <= i,
            start <= n,
            paragraphs_html(t, domain@, mention_map@) == out@ + paragraphs_html(
                t.subrange(start as int, n as int),
                domain@,
                mention_map@,
            ),
            find(t.subrange(start as int, n as int), para_break()) == crate::text::find_from(
                t.subrange(start as int, n as int),
                para_break(),
                (i - start) as int,
            ),
        decreases n - i,
    {
        let ghost sub = t.subrange(start as int, n as int);
        if cs[i] == '\n' && cs[i + 1] == '\n' {
            proof {
                assert(sub.subrange(i - start, i - start + 2) =~= para_break());
                assert(crate::text::occurs_at(sub, para_break(), i - start));
                assert(sub.subrange(0, i - start) =~= t.subrange(start as int, i as int));
                assert(sub.subrange(i - start + 2, sub.len() as int) =~= t.subrange(i + 2, n as int));
            }
            let p = string_of(&cs, start, i);
            push_paragraph(&mut out, p.as_str(), domain, mention_map);
            start = i + 2;
            i = i + 2;
            proof {
                if start < n {
                    assert(crate::text::find_from(t.subrange(start as int, n as int), para_break(), 0)
                        == crate::text::find_from(t.subrange(start as int, n as int), para_break(), (i - start) as int));
                }
            }
        } else {
            proof {
                assert(sub.subrange(i - start, i - start + 2) != para_break()) by {
                    if sub.subrange(i - start, i - start + 2) == para_break() {
                        assert(sub.subrange(i - start, i - start + 2)[0] == t[i as int]);
                        assert(sub.subrange(i - start, i - start + 2)[1] == t[i + 1]);
                    }
                }
            }
            i = i + 1;
        }
    }
    proof {
        let sub = t.subrange(start as int, n as int);
        assert(find(sub, para_break()) is None);
    }
    let p = string_of(&cs, start, n);
    push_paragraph(&mut out, p.as_str(), domain, mention_map);
    out
}

} // verus!
