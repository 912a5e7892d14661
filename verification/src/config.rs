//! The configuration store: a durable key-value mapping over the two
//! recognized keys `api_base_url` and `api_key`, with defaulting,
//! validation, and an atomic textual save format (a flat JSON object).
//!
//! The store itself is pure in-memory state; reading and writing the
//! backing file is left to the surrounding shell, which hands the file's
//! text to [`ConfigStore::from_saved`] and persists the text returned by
//! [`ConfigStore::save_to_string`] in a single atomic write.

use vstd::prelude::*;
use crate::strutil::str_eq;

verus! {

/// The recognized key naming the endpoint base URL.
pub open spec fn base_url_key() -> Seq<char> {
    "api_base_url"@
}

/// The recognized key naming the API credential.
pub open spec fn api_key_key() -> Seq<char> {
    "api_key"@
}

/// Default value for `api_base_url`.
pub open spec fn default_base_url() -> Seq<char> {
    "http://localhost:4000"@
}

/// Default value for `api_key`.
pub open spec fn default_api_key() -> Seq<char> {
    Seq::<char>::empty()
}

/// A key the store understands; any other key is rejected by `set`.
pub open spec fn recognized_key(k: Seq<char>) -> bool {
    k == base_url_key() || k == api_key_key()
}

/// The default value of a recognized key.
pub open spec fn default_of(k: Seq<char>) -> Seq<char> {
    if k == base_url_key() {
        default_base_url()
    } else {
        default_api_key()
    }
}

/// A character the completeness check treats as blank. The set is the
/// ASCII whitespace characters: a field of spaces and tabs reads as unset,
/// while exotic Unicode spacing is taken at face value.
pub open spec fn is_space_char(c: char) -> bool {
    c == ' ' || c == '\t' || c == '\n' || c == '\r' || c == '\u{000B}' || c == '\u{000C}'
}

/// True iff every character of `s` is whitespace; the empty string is blank.
pub open spec fn blank_text(s: Seq<char>) -> bool {
    forall|i: int| 0 <= i < s.len() ==> is_space_char(s[i])
}

/// View of one stored `(key, value)` pair.
pub open spec fn pair_view(p: (String, String)) -> (Seq<char>, Seq<char>) {
    (p.0@, p.1@)
}

/// View of a sequence of stored `(key, value)` pairs.
pub open spec fn entries_view(s: Seq<(String, String)>) -> Seq<(Seq<char>, Seq<char>)> {
    s.map_values(|p: (String, String)| pair_view(p))
}

/// View of an optional stored value.
pub open spec fn opt_str_view(o: Option<String>) -> Option<Seq<char>> {
    match o {
        Some(s) => Some(s@),
        None => None,
    }
}

/// The mathematical model of the store: the two recognized slots, plus the
/// unrecognized pairs found in the backing file, preserved uninterpreted.
#[verifier::ext_equal]
pub struct StoreModel {
    pub api_base_url: Option<Seq<char>>,
    pub api_key: Option<Seq<char>>,
    pub extras: Seq<(Seq<char>, Seq<char>)>,
}

impl StoreModel {
    /// The model of a freshly created, never-seeded store.
    pub open spec fn empty() -> StoreModel {
        StoreModel { api_base_url: None, api_key: None, extras: Seq::empty() }
    }

    /// What `get` observes: recognized keys read their slot, anything else
    /// reads nothing (preserved pairs are not interpreted).
    pub open spec fn get(self, k: Seq<char>) -> Option<Seq<char>> {
        if k == base_url_key() {
            self.api_base_url
        } else if k == api_key_key() {
            self.api_key
        } else {
            None
        }
    }

    /// The store after seeding: each absent recognized slot takes its
    /// default, present slots and preserved pairs are untouched.
    pub open spec fn seed(self) -> StoreModel {
        StoreModel {
            api_base_url: if self.api_base_url is None {
                Some(default_base_url())
            } else {
                self.api_base_url
            },
            api_key: if self.api_key is None {
                Some(default_api_key())
            } else {
                self.api_key
            },
            extras: self.extras,
        }
    }

    /// The store after `set(k, v)` for a recognized key `k`.
    pub open spec fn with(self, k: Seq<char>, v: Seq<char>) -> StoreModel {
        if k == base_url_key() {
            StoreModel { api_base_url: Some(v), ..self }
        } else if k == api_key_key() {
            StoreModel { api_key: Some(v), ..self }
        } else {
            self
        }
    }

    /// Completeness: both recognized values present and not blank.
    pub open spec fn complete(self) -> bool {
        &&& self.api_base_url matches Some(u) && !blank_text(u)
        &&& self.api_key matches Some(k) && !blank_text(k)
    }

    /// The base URL as observed by a snapshot: the stored value, or the
    /// default when absent.
    pub open spec fn base_url_or_default(self) -> Seq<char> {
        match self.api_base_url {
            Some(u) => u,
            None => default_base_url(),
        }
    }

    /// The API key as observed by a snapshot.
    pub open spec fn api_key_or_default(self) -> Seq<char> {
        match self.api_key {
            Some(k) => k,
            None => default_api_key(),
        }
    }

    /// The pairs the save format lays out, in order: the recognized slots
    /// that are present, then the preserved pairs.
    pub open spec fn entries(self) -> Seq<(Seq<char>, Seq<char>)> {
        let base = match self.api_base_url {
            Some(u) => seq![(base_url_key(), u)],
            None => Seq::<(Seq<char>, Seq<char>)>::empty(),
        };
        let key = match self.api_key {
            Some(k) => seq![(api_key_key(), k)],
            None => Seq::<(Seq<char>, Seq<char>)>::empty(),
        };
        base + key + self.extras
    }
}

/// The store a sequence of `(key, value)` pairs builds up, read left to
/// right: recognized keys fill their slot (a later pair wins), anything
/// else is preserved in order.
pub open spec fn store_of_entries(es: Seq<(Seq<char>, Seq<char>)>) -> StoreModel
    decreases es.len(),
{
    if es.len() == 0 {
        StoreModel::empty()
    } else {
        let prev = store_of_entries(es.drop_last());
        let last = es.last();
        if last.0 == base_url_key() {
            StoreModel { api_base_url: Some(last.1), ..prev }
        } else if last.0 == api_key_key() {
            StoreModel { api_key: Some(last.1), ..prev }
        } else {
            StoreModel { extras: prev.extras.push(last), ..prev }
        }
    }
}

/// Errors the store reports.
#[derive(Debug, Clone, Copy, PartialEq, Eq)]
pub enum ConfigError {
    /// `set` was handed a key outside the recognized set.
    UnknownKey,
    /// The persisted content could not be read back (corrupt store).
    StoreIo,
}

/// The materialized snapshot of the whole configuration, with defaults
/// filled in for absent values.
pub struct AppConfig {
    pub api_base_url: String,
    pub api_key: String,
}

impl Default for AppConfig {
    /// The configuration before anything was ever stored.
    fn default() -> (r: AppConfig)
        ensures
            r.api_base_url@ == default_base_url(),
            r.api_key@ == default_api_key(),
    {
        AppConfig { api_base_url: "http://localhost:4000".to_owned(), api_key: String::new() }
    }
}

/// The text that the save format gives a sequence of `(key, value)`
/// pairs: a flat JSON object, one member per pair, serialized by
/// `serde_json` (member order is by key, as its default map is ordered).
pub uninterp spec fn json_text_of(entries: Seq<(Seq<char>, Seq<char>)>) -> Seq<char>;

/// The `(key, value)` pairs that reading a saved text yields: `Some`
/// exactly when the text is a JSON object whose members are all strings,
/// `None` otherwise.
pub uninterp spec fn entries_of_json(text: Seq<char>) -> Option<Seq<(Seq<char>, Seq<char>)>>;

/// The keys of a store's preserved pairs.
pub open spec fn extras_keys(m: StoreModel) -> Set<Seq<char>> {
    m.extras.map_values(|p: (Seq<char>, Seq<char>)| p.0).to_set()
}

/// What a reload of a saved document restores, relative to the store the
/// saved pairs describe directly: the same recognized slots, and the
/// preserved pairs kept up to key-dedup and ordering (every rebuilt pair
/// is one of the direct ones, over the same set of keys).
pub open spec fn rebuild_preserves(es: Seq<(Seq<char>, Seq<char>)>, direct: StoreModel) -> bool {
    let rebuilt = store_of_entries(es);
    &&& rebuilt.api_base_url == direct.api_base_url
    &&& rebuilt.api_key == direct.api_key
    &&& forall|i: int|
        0 <= i < rebuilt.extras.len() ==> direct.extras.contains(#[trigger] rebuilt.extras[i])
    &&& extras_keys(rebuilt) == extras_keys(direct)
}

/// Relies on `serde_json`: building a `serde_json::Map` from the pairs and
/// serializing it yields a text that depends on the pairs alone. The map
/// is built by inserting the pairs in order (a later pair with the same
/// key wins, exactly as `store_of_entries` reads them), and parsing the
/// serialized text back yields precisely the map's string members; so
/// decoding the produced text succeeds, rebuilds the same recognized
/// slots, and preserves the unrecognized pairs up to key-dedup and
/// ordering.
#[verifier::external_body]
fn encode_entries(entries: &Vec<(String, String)>) -> (r: String)
    ensures
        r@ == json_text_of(entries_view(entries@)),
        entries_of_json(r@) is Some,
        (entries_of_json(r@) matches Some(es) ==> rebuild_preserves(
            es,
            store_of_entries(entries_view(entries@)),
        )),
{
    let mut m = serde_json::Map::new();
    for p in entries.iter() {
        m.insert(p.0.clone(), serde_json::Value::String(p.1.clone()));
    }
    serde_json::Value::Object(m).to_string()
}

/// Relies on `serde_json::from_str`: parsing the text as a JSON object of
/// string members succeeds or fails as a function of the text alone, and
/// yields those members as pairs. The store exclusively owns its backing
/// file and only ever writes a flat object of string members, so a
/// non-object document or a non-string member is deliberately treated as
/// corrupt rather than coerced.
#[verifier::external_body]
fn decode_entries(text: &str) -> (r: Option<Vec<(String, String)>>)
    ensures
        r is Some <==> entries_of_json(text@) is Some,
        (r matches Some(v) ==> entries_of_json(text@) matches Some(es) && entries_view(v@)
            == es),
{
    let parsed: serde_json::Value = serde_json::from_str(text).ok()?;
    let obj = parsed.as_object()?;
    let mut out: Vec<(String, String)> = Vec::new();
    for (k, v) in obj.iter() {
        out.push((k.clone(), v.as_str()?.to_owned()));
    }
    Some(out)
}

/// True iff every character of `s` is whitespace.
pub fn is_blank(s: &str) -> (r: bool)
    ensures
        r == blank_text(s@),
{
    let n = s.unicode_len();
    let mut i: usize = 0;
    while i < n
        invariant
            n == s@.len(),
            i <= n,
            forall|j: int| 0 <= j < i ==> is_space_char(s@[j]),
        decreases n - i,
    {
        let c = s.get_char(i);
        if !(c == ' ' || c == '\t' || c == '\n' || c == '\r' || c == '\u{000B}' || c
            == '\u{000C}') {
            return false;
        }
        i += 1;
    }
    true
}

/// The in-memory configuration store. It exclusively owns the mapping; the
/// backing file is read and written by the shell through `from_saved` and
/// `save_to_string`.
pub struct ConfigStore {
    api_base_url: Option<String>,
    api_key: Option<String>,
    extras: Vec<(String, String)>,
}

impl View for ConfigStore {
    type V = StoreModel;

    closed spec fn view(&self) -> StoreModel {
        StoreModel {
            api_base_url: opt_str_view(self.api_base_url),
            api_key: opt_str_view(self.api_key),
            extras: entries_view(self.extras@),
        }
    }
}

impl ConfigStore {
    /// A fresh, empty store (what `load_or_create` yields for a missing file).
    pub fn new() -> (r: ConfigStore)
        ensures
            r@ == StoreModel::empty(),
    {
        let r = ConfigStore { api_base_url: None, api_key: None, extras: Vec::new() };
        proof {
            assert(r@ =~= StoreModel::empty());
        }
        r
    }

    /// Rebuild a store from the `(key, value)` pairs of a saved document.
    pub fn from_entries(entries: Vec<(String, String)>) -> (r: ConfigStore)
        ensures
            r@ == store_of_entries(entries_view(entries@)),
    {
        let ghost es = entries_view(entries@);
        let mut r = ConfigStore::new();
        let mut i: usize = 0;
        while i < entries.len()
            invariant
                i <= entries.len(),
                es == entries_view(entries@),
                r@ == store_of_entries(es.take(i as int)),
            decreases entries.len() - i,
        {
            proof {
                assert(es.take(i + 1).drop_last() =~= es.take(i as int));
                assert(es.take(i + 1).last() == es[i as int]);
            }
            let k = &entries[i].0;
            if str_eq(k.as_str(), "api_base_url") {
                r.api_base_url = Some(entries[i].1.clone());
            } else if str_eq(k.as_str(), "api_key") {
                r.api_key = Some(entries[i].1.clone());
            } else {
                r.extras.push((entries[i].0.clone(), entries[i].1.clone()));
            }
            proof {
                assert(r@ =~= store_of_entries(es.take(i + 1)));
            }
            i += 1;
        }
        proof {
            assert(es.take(entries@.len() as int) =~= es);
        }
        r
    }

    /// Rebuild a store from a saved document. Fails exactly when the text
    /// is not a JSON object of string members (a corrupt store).
    pub fn from_saved(text: &str) -> (r: Result<ConfigStore, ConfigError>)
        ensures
            r is Ok <==> entries_of_json(text@) is Some,
            (r matches Ok(s) ==> entries_of_json(text@) matches Some(es) && s@
                == store_of_entries(es)),
            (r matches Err(e) ==> e == ConfigError::StoreIo),
    {
        match decode_entries(text) {
            Some(v) => Ok(ConfigStore::from_entries(v)),
            None => Err(ConfigError::StoreIo),
        }
    }

    /// Write each absent recognized key's default value. Idempotent; never
    /// touches a present value or a preserved pair.
    pub fn seed_defaults(&mut self)
        ensures
            final(self)@ == old(self)@.seed(),
    {
        if self.api_base_url.is_none() {
            self.api_base_url = Some("http://localhost:4000".to_owned());
        }
        if self.api_key.is_none() {
            self.api_key = Some(String::new());
        }
        proof {
            assert(self@ =~= old(self)@.seed());
        }
    }

    /// The stored value of `key`: `Some` for a recognized key that has a
    /// value, `None` otherwise.
    pub fn get(&self, key: &str) -> (r: Option<String>)
        ensures
            opt_str_view(r) == self@.get(key@),
    {
        if str_eq(key, "api_base_url") {
            match &self.api_base_url {
                Some(u) => Some(u.clone()),
                None => None,
            }
        } else if str_eq(key, "api_key") {
            match &self.api_key {
                Some(k) => Some(k.clone()),
                None => None,
            }
        } else {
            None
        }
    }

    /// Store `value` under `key` in memory. Fails with `UnknownKey`, and
    /// changes nothing, for a key outside the recognized set; nothing is
    /// persisted until the saved text is written out.
    pub fn set(&mut self, key: &str, value: String) -> (r: Result<(), ConfigError>)
        ensures
            r is Ok <==> recognized_key(key@),
            recognized_key(key@) ==> final(self)@ == old(self)@.with(key@, value@),
            !recognized_key(key@) ==> final(self)@ == old(self)@ && (r matches Err(e) && e
                == ConfigError::UnknownKey),
    {
        if str_eq(key, "api_base_url") {
            self.api_base_url = Some(value);
            proof {
                assert(self@ =~= old(self)@.with(key@, value@));
            }
            Ok(())
        } else if str_eq(key, "api_key") {
            self.api_key = Some(value);
            proof {
                assert(self@ =~= old(self)@.with(key@, value@));
            }
            Ok(())
        } else {
            Err(ConfigError::UnknownKey)
        }
    }

    /// True iff both recognized values are present and not blank
    /// (whitespace-only counts as blank, as does the empty string).
    pub fn is_complete(&self) -> (r: bool)
        ensures
            r == self@.complete(),
    {
        let base_ok = match &self.api_base_url {
            Some(u) => !is_blank(u.as_str()),
            None => false,
        };
        let key_ok = match &self.api_key {
            Some(k) => !is_blank(k.as_str()),
            None => false,
        };
        base_ok && key_ok
    }

    /// The materialized snapshot: every recognized value, with its default
    /// filled in where the store holds nothing.
    pub fn snapshot(&self) -> (r: AppConfig)
        ensures
            r.api_base_url@ == self@.base_url_or_default(),
            r.api_key@ == self@.api_key_or_default(),
    {
        let api_base_url = match &self.api_base_url {
            Some(u) => u.clone(),
            None => "http://localhost:4000".to_owned(),
        };
        let api_key = match &self.api_key {
            Some(k) => k.clone(),
            None => String::new(),
        };
        AppConfig { api_base_url, api_key }
    }

    /// The `(key, value)` pairs the save format lays out for this store.
    pub fn to_entries(&self) -> (out: Vec<(String, String)>)
        ensures
            entries_view(out@) == self@.entries(),
    {
        let mut out: Vec<(String, String)> = Vec::new();
        if let Some(u) = &self.api_base_url {
            out.push(("api_base_url".to_owned(), u.clone()));
        }
        if let Some(k) = &self.api_key {
            out.push(("api_key".to_owned(), k.clone()));
        }
        let ghost head = entries_view(out@);
        proof {
            assert(head =~= self@.entries().take(head.len() as int));
        }
        let mut i: usize = 0;
        while i < self.extras.len()
            invariant
                i <= self.extras.len(),
                head == self@.entries().take(head.len() as int),
                self@.entries().len() == head.len() + self.extras@.len(),
                entries_view(out@) =~= head + self@.extras.take(i as int),
            decreases self.extras.len() - i,
        {
            let ghost prev_out = out@;
            out.push((self.extras[i].0.clone(), self.extras[i].1.clone()));
            proof {
                assert(out@.last().0@ == self.extras@[i as int].0@);
                assert(out@.last().1@ == self.extras@[i as int].1@);
                assert(out@ =~= prev_out.push(out@.last()));
                lemma_entries_view_push(prev_out, out@.last());
                assert(pair_view(out@.last()) == self@.extras[i as int]);
            }
            i += 1;
            proof {
                assert(self@.extras.take(i as int) =~= self@.extras.take(i - 1).push(
                    self@.extras[i - 1],
                ));
                assert(entries_view(out@) =~= head + self@.extras.take(i as int));
            }
        }
        proof {
            assert(self@.extras.take(self.extras@.len() as int) =~= self@.extras);
            assert(head + self@.extras =~= self@.entries());
        }
        out
    }

    /// The saved document for this store: the flat JSON object the shell
    /// writes to the backing file in one atomic step. Reloading this
    /// document succeeds and rebuilds the same recognized slots — with
    /// `lemma_entries_round_trip`, a set value survives save and reload.
    pub fn save_to_string(&self) -> (r: String)
        ensures
            r@ == json_text_of(self@.entries()),
            entries_of_json(r@) is Some,
            (entries_of_json(r@) matches Some(es) ==> rebuild_preserves(
                es,
                store_of_entries(self@.entries()),
            )),
    {
        let entries = self.to_entries();
        encode_entries(&entries)
    }
}

proof fn lemma_entries_view_push(s: Seq<(String, String)>, p: (String, String))
    ensures
        entries_view(s.push(p)) =~= entries_view(s).push(pair_view(p)),
{
}

/// Appending pairs that hold no recognized key only extends the preserved
/// pairs; the recognized slots are untouched.
proof fn lemma_store_of_entries_unrecognized_suffix(
    es: Seq<(Seq<char>, Seq<char>)>,
    tail: Seq<(Seq<char>, Seq<char>)>,
)
    requires
        forall|i: int| 0 <= i < tail.len() ==> !recognized_key(#[trigger] tail[i].0),
    ensures
        store_of_entries(es + tail).api_base_url == store_of_entries(es).api_base_url,
        store_of_entries(es + tail).api_key == store_of_entries(es).api_key,
        store_of_entries(es + tail).extras == store_of_entries(es).extras + tail,
    decreases tail.len(),
{
    if tail.len() == 0 {
        assert(es + tail =~= es);
        assert(store_of_entries(es).extras + tail =~= store_of_entries(es).extras);
    } else {
        lemma_store_of_entries_unrecognized_suffix(es, tail.drop_last());
        assert((es + tail).drop_last() =~= es + tail.drop_last());
        assert((es + tail).last() == tail.last());
        assert(!recognized_key(tail.last().0));
        assert(store_of_entries(es).extras + tail =~= (store_of_entries(es).extras
            + tail.drop_last()).push(tail.last()));
    }
}

/// Law: the save layout loses nothing — rebuilding a store from the pairs
/// it lays out yields the store itself, provided the preserved pairs hold
/// no recognized key (which is how reloading sorts them in the first
/// place).
pub proof fn lemma_entries_round_trip(m: StoreModel)
    requires
        forall|i: int| 0 <= i < m.extras.len() ==> !recognized_key(#[trigger] m.extras[i].0),
    ensures
        store_of_entries(m.entries()) == m,
{
    reveal_strlit("api_base_url");
    reveal_strlit("api_key");
    assert(base_url_key().len() == 12);
    assert(api_key_key().len() == 7);
    assert(base_url_key() != api_key_key());
    let base = match m.api_base_url {
        Some(u) => seq![(base_url_key(), u)],
        None => Seq::<(Seq<char>, Seq<char>)>::empty(),
    };
    let key = match m.api_key {
        Some(k) => seq![(api_key_key(), k)],
        None => Seq::<(Seq<char>, Seq<char>)>::empty(),
    };
    let head = base + key;
    let e0 = Seq::<(Seq<char>, Seq<char>)>::empty();
    assert(store_of_entries(e0) == StoreModel::empty());
    if m.api_base_url is Some {
        assert(base.drop_last() =~= e0);
        assert(base.last() == (base_url_key(), m.api_base_url->0));
    } else {
        assert(base =~= e0);
    }
    assert(store_of_entries(base) == StoreModel {
        api_base_url: m.api_base_url,
        api_key: None,
        extras: e0,
    });
    if m.api_key is Some {
        assert(head.drop_last() =~= base);
        assert(head.last() == (api_key_key(), m.api_key->0));
        assert(head.last().0 != base_url_key());
    } else {
        assert(head =~= base);
    }
    assert(store_of_entries(head) == StoreModel {
        api_base_url: m.api_base_url,
        api_key: m.api_key,
        extras: e0,
    });
    lemma_store_of_entries_unrecognized_suffix(head, m.extras);
    assert(m.entries() == head + m.extras);
    assert(store_of_entries(m.entries()).extras =~= m.extras);
    assert(store_of_entries(m.entries()) =~= m);
}

/// Every preserved pair of a rebuilt store holds an unrecognized key: a
/// recognized key always lands in its slot.
pub proof fn lemma_store_of_entries_extras_unrecognized(es: Seq<(Seq<char>, Seq<char>)>)
    ensures
        forall|i: int|
            0 <= i < store_of_entries(es).extras.len() ==> !recognized_key(
                (#[trigger] store_of_entries(es).extras[i]).0,
            ),
    decreases es.len(),
{
    if es.len() != 0 {
        lemma_store_of_entries_extras_unrecognized(es.drop_last());
    }
}

/// Law: reloading the document that a rebuilt store saves yields that
/// store again — the save layout and the rebuild are mutually inverse at
/// the level of `(key, value)` pairs.
pub proof fn lemma_reload_of_saved_store(es: Seq<(Seq<char>, Seq<char>)>)
    ensures
        store_of_entries(store_of_entries(es).entries()) == store_of_entries(es),
{
    lemma_store_of_entries_extras_unrecognized(es);
    lemma_entries_round_trip(store_of_entries(es));
}

/// Law: seeding is idempotent — a second seeding changes nothing.
pub proof fn lemma_seed_idempotent(m: StoreModel)
    ensures
        m.seed().seed() == m.seed(),
{
    assert(m.seed().seed() =~= m.seed());
}

/// Law: after seeding, a recognized key reads its default if it was
/// absent, and its prior value unchanged if it was present.
pub proof fn lemma_seed_defaults(m: StoreModel, k: Seq<char>)
    requires
        recognized_key(k),
    ensures
        m.seed().get(k) == (if m.get(k) is None {
            Some(default_of(k))
        } else {
            m.get(k)
        }),
{
}

} // verus!
