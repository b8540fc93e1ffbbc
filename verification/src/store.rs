//! What the service keeps in its shared key-value store: the record of a
//! login handshake in flight, and the marker of a live session.

use crate::error::{status_code, Error};
use vstd::prelude::*;
use vstd::string::StringExecFns;

verus! {

/// Seconds a login handshake may stay open before its record is discarded.
pub const ROUNDTRIP_TTL: u64 = 600;

/// Seconds a session stays valid, counted from the moment it is issued.
pub const SESSION_TTL: u64 = 86400;

/// What a login redirect leaves behind for the callback to pick up.
#[derive(Debug, Clone, PartialEq, Eq)]
pub struct OAuth2RoundtripData {
    /// The PKCE verifier whose challenge went to the provider.
    pub pkce: String,
    /// The path the user asked for before being sent to log in.
    pub redirect: String,
}

/// An `OAuth2RoundtripData` as pure text.
pub struct RoundtripModel {
    pub pkce: Seq<char>,
    pub redirect: Seq<char>,
}

impl View for OAuth2RoundtripData {
    type V = RoundtripModel;

    open spec fn view(&self) -> RoundtripModel {
        RoundtripModel { pkce: self.pkce@, redirect: self.redirect@ }
    }
}

/// A value held in the store.
#[derive(Debug, Clone, PartialEq, Eq)]
pub enum Stored {
    /// The state of a login handshake, kept under the key of its CSRF token.
    Roundtrip(OAuth2RoundtripData),
    /// The presence marker of a session, kept under the key of its token.
    Session,
}

/// A `Stored` value as pure text.
pub enum StoredModel {
    Roundtrip(RoundtripModel),
    Session,
}

impl View for Stored {
    type V = StoredModel;

    open spec fn view(&self) -> StoredModel {
        match self {
            Stored::Roundtrip(data) => StoredModel::Roundtrip(data@),
            Stored::Session => StoredModel::Session,
        }
    }
}

/// A write that the caller is to perform on the store: `value` under `key`,
/// to be discarded by the store `ttl` seconds later.
#[derive(Debug, Clone, PartialEq, Eq)]
pub struct StoreWrite {
    pub key: String,
    pub value: Stored,
    pub ttl: u64,
}

/// A `StoreWrite` as pure text.
pub struct StoreWriteModel {
    pub key: Seq<char>,
    pub value: StoredModel,
    pub ttl: u64,
}

impl View for StoreWrite {
    type V = StoreWriteModel;

    open spec fn view(&self) -> StoreWriteModel {
        StoreWriteModel { key: self.key@, value: self.value@, ttl: self.ttl }
    }
}

/// Why the store did not answer.
#[derive(Debug, Clone, Copy, PartialEq, Eq)]
pub enum StoreFailure {
    /// The store could not be reached, or refused the command.
    Unreachable,
    /// What the store holds could not be read as a value.
    Malformed,
}

/// The failure of a request that ran into `failure`.
pub open spec fn store_error(failure: StoreFailure) -> Error {
    match failure {
        StoreFailure::Unreachable => Error::Redis,
        StoreFailure::Malformed => Error::Json,
    }
}

impl StoreFailure {
    /// The failure with which the request ends.
    pub fn error(self) -> (e: Error)
        ensures
            e == store_error(self),
            status_code(e) == 500,
    {
        match self {
            StoreFailure::Unreachable => Error::Redis,
            StoreFailure::Malformed => Error::Json,
        }
    }
}

/// The store key of the handshake that carries the CSRF token `csrf`.
pub open spec fn roundtrip_key_of(csrf: Seq<char>) -> Seq<char> {
    "token:csrf:"@ + csrf
}

/// The store key of the session that carries the token `token`.
pub open spec fn session_key_of(token: Seq<char>) -> Seq<char> {
    "token:auth:"@ + token
}

/// The key under which the handshake with CSRF token `csrf` is kept.
pub fn roundtrip_key(csrf: &str) -> (key: String)
    ensures
        key@ == roundtrip_key_of(csrf@),
{
    String::from_str("token:csrf:").concat(csrf)
}

/// The key under which the session with token `token` is kept.
pub fn session_key(token: &str) -> (key: String)
    ensures
        key@ == session_key_of(token@),
{
    String::from_str("token:auth:").concat(token)
}

impl OAuth2RoundtripData {
    /// A second copy of the record.
    pub fn duplicate(&self) -> (copy: OAuth2RoundtripData)
        ensures
            copy@ == self@,
    {
        OAuth2RoundtripData { pkce: self.pkce.clone(), redirect: self.redirect.clone() }
    }
}

impl Stored {
    /// A second copy of the value.
    pub fn duplicate(&self) -> (copy: Stored)
        ensures
            copy@ == self@,
    {
        match self {
            Stored::Roundtrip(data) => Stored::Roundtrip(data.duplicate()),
            Stored::Session => Stored::Session,
        }
    }
}

/// A value in the store together with the instant at which it lapses.
pub struct EntryModel {
    pub value: StoredModel,
    pub expires: nat,
}

/// The store as a mathematical object: a clock that counts seconds, and
/// under each key at most one value with the instant at which the store
/// discards it.
pub struct StoreModel {
    pub now: nat,
    pub entries: Map<Seq<char>, EntryModel>,
}

/// The store with `value` under `key` for the next `ttl` seconds.
pub open spec fn put(m: StoreModel, key: Seq<char>, value: StoredModel, ttl: nat) -> StoreModel {
    StoreModel {
        now: m.now,
        entries: m.entries.insert(key, EntryModel { value, expires: m.now + ttl }),
    }
}

/// The value that a reader finds under `key`: the one that was written
/// there, unless it has been taken or its time has run out.
pub open spec fn peek(m: StoreModel, key: Seq<char>) -> Option<StoredModel> {
    if m.entries.contains_key(key) && m.now < m.entries[key].expires {
        Some(m.entries[key].value)
    } else {
        None
    }
}

/// The store without anything under `key`.
pub open spec fn without(m: StoreModel, key: Seq<char>) -> StoreModel {
    StoreModel { now: m.now, entries: m.entries.remove(key) }
}

/// The store `secs` seconds later.
pub open spec fn later(m: StoreModel, secs: nat) -> StoreModel {
    StoreModel { now: m.now + secs, entries: m.entries }
}

/// One key of the in-memory store.
struct Entry {
    key: String,
    value: Stored,
    expires: u128,
}

impl Entry {
    spec fn model(self) -> EntryModel {
        EntryModel { value: self.value@, expires: self.expires as nat }
    }

    fn duplicate(&self) -> (copy: Entry)
        ensures
            copy.key@ == self.key@,
            copy.model() == self.model(),
    {
        Entry { key: self.key.clone(), value: self.value.duplicate(), expires: self.expires }
    }
}

/// The map that a list of entries stands for: a later entry replaces an
/// earlier one of the same key.
spec fn map_of(entries: Seq<Entry>) -> Map<Seq<char>, EntryModel>
    decreases entries.len(),
{
    if entries.len() == 0 {
        Map::empty()
    } else {
        map_of(entries.drop_last()).insert(entries.last().key@, entries.last().model())
    }
}

/// The entries of `entries` whose key is not `key`, in order.
spec fn others(entries: Seq<Entry>, key: Seq<char>) -> Seq<Entry>
    decreases entries.len(),
{
    if entries.len() == 0 {
        Seq::empty()
    } else if entries.last().key@ == key {
        others(entries.drop_last(), key)
    } else {
        others(entries.drop_last(), key).push(entries.last())
    }
}

proof fn lemma_others_removes(entries: Seq<Entry>, key: Seq<char>)
    ensures
        map_of(others(entries, key)) == map_of(entries).remove(key),
    decreases entries.len(),
{
    if entries.len() == 0 {
        assert(map_of(entries).remove(key) =~= Map::empty());
    } else {
        let init = entries.drop_last();
        let last = entries.last();
        lemma_others_removes(init, key);
        if last.key@ == key {
            assert(map_of(entries).remove(key) =~= map_of(init).remove(key));
        } else {
            let kept = others(init, key).push(last);
            assert(kept.drop_last() == others(init, key));
            assert(kept.last() == last);
            assert(map_of(kept) =~= map_of(entries).remove(key));
        }
    }
}

/// A key-value store with expiry that lives in memory and keeps its own
/// clock. It stands in for the shared store where none is at hand, and
/// behaves as `StoreModel` says.
pub struct MemoryStore {
    entries: Vec<Entry>,
    now: u64,
}

impl View for MemoryStore {
    type V = StoreModel;

    closed spec fn view(&self) -> StoreModel {
        StoreModel { now: self.now as nat, entries: map_of(self.entries@) }
    }
}

impl MemoryStore {
    /// An empty store whose clock reads zero.
    pub fn new() -> (store: MemoryStore)
        ensures
            store@ == (StoreModel { now: 0, entries: Map::empty() }),
    {
        MemoryStore { entries: Vec::new(), now: 0 }
    }

    /// What the clock reads, in seconds.
    pub fn now(&self) -> (now: u64)
        ensures
            now == self@.now,
    {
        self.now
    }

    /// Lets `secs` seconds pass, if the clock can count that far; if it
    /// cannot, nothing changes and the answer is `false`.
    pub fn advance(&mut self, secs: u64) -> (moved: bool)
        ensures
            moved == (old(self)@.now + secs <= u64::MAX),
            moved ==> final(self)@ == later(old(self)@, secs as nat),
            !moved ==> final(self)@ == old(self)@,
    {
        match self.now.checked_add(secs) {
            Some(now) => {
                self.now = now;
                true
            },
            None => false,
        }
    }

    fn find(&self, key: &String) -> (found: Option<usize>)
        ensures
            match found {
                Some(i) => i < self.entries@.len() && peek(self@, key@) == Some(
                    self.entries@[i as int].value@,
                ),
                None => peek(self@, key@) is None,
            },
    {
        let mut at: Option<usize> = None;
        let mut i: usize = 0;
        while i < self.entries.len()
            invariant
                i <= self.entries.len(),
                match at {
                    Some(j) => {
                        &&& j < i
                        &&& map_of(self.entries@.take(i as int)).contains_key(key@)
                        &&& map_of(self.entries@.take(i as int))[key@]
                            == self.entries@[j as int].model()
                    },
                    None => !map_of(self.entries@.take(i as int)).contains_key(key@),
                },
            decreases self.entries.len() - i,
        {
            proof {
                let next = self.entries@.take(i + 1);
                assert(next.drop_last() == self.entries@.take(i as int));
                assert(next.last() == self.entries@[i as int]);
            }
            if self.entries[i].key == *key {
                at = Some(i);
            }
            i += 1;
        }
        assert(self.entries@.take(self.entries.len() as int) == self.entries@);
        match at {
            Some(j) => {
                if (self.now as u128) < self.entries[j].expires {
                    Some(j)
                } else {
                    None
                }
            },
            None => None,
        }
    }

    fn purge(&mut self, key: &String)
        ensures
            final(self)@ == without(old(self)@, key@),
    {
        let mut kept: Vec<Entry> = Vec::new();
        let mut i: usize = 0;
        while i < self.entries.len()
            invariant
                i <= self.entries.len(),
                kept@.len() == others(self.entries@.take(i as int), key@).len(),
                forall|k: int|
                    0 <= k < kept@.len() ==> {
                        let seen = others(self.entries@.take(i as int), key@);
                        (#[trigger] kept@[k]).key@ == seen[k].key@ && kept@[k].model()
                            == seen[k].model()
                    },
            decreases self.entries.len() - i,
        {
            proof {
                let next = self.entries@.take(i + 1);
                assert(next.drop_last() == self.entries@.take(i as int));
                assert(next.last() == self.entries@[i as int]);
            }
            if self.entries[i].key != *key {
                kept.push(self.entries[i].duplicate());
            }
            i += 1;
        }
        proof {
            assert(self.entries@.take(self.entries.len() as int) == self.entries@);
            lemma_others_removes(self.entries@, key@);
            lemma_same_map(kept@, others(self.entries@, key@));
        }
        self.entries = kept;
    }

    /// Writes `value` under `key`, to be discarded `ttl` seconds from now.
    pub fn set_ex(&mut self, key: &str, value: Stored, ttl: u64)
        ensures
            final(self)@ == put(old(self)@, key@, value@, ttl as nat),
    {
        let key = String::from_str(key);
        self.purge(&key);
        let ghost before = self.entries@;
        let expires: u128 = self.now as u128 + ttl as u128;
        self.entries.push(Entry { key, value, expires });
        proof {
            assert(self.entries@.drop_last() == before);
            assert(self@.entries =~= put(old(self)@, key@, value@, ttl as nat).entries);
        }
    }

    /// Performs `write`.
    pub fn apply(&mut self, write: StoreWrite)
        ensures
            final(self)@ == put(old(self)@, write.key@, write.value@, write.ttl as nat),
    {
        self.set_ex(write.key.as_str(), write.value, write.ttl);
    }

    /// Reads the value under `key`.
    pub fn get(&self, key: &str) -> (value: Option<Stored>)
        ensures
            match value {
                Some(v) => peek(self@, key@) == Some(v@),
                None => peek(self@, key@) is None,
            },
    {
        let key = String::from_str(key);
        match self.find(&key) {
            Some(i) => Some(self.entries[i].value.duplicate()),
            None => None,
        }
    }

    /// Whether there is a value under `key`.
    pub fn contains_key(&self, key: &str) -> (found: bool)
        ensures
            found == peek(self@, key@).is_some(),
    {
        let key = String::from_str(key);
        self.find(&key).is_some()
    }

    /// Reads the value under `key` and deletes it in the same step.
    pub fn get_del(&mut self, key: &str) -> (value: Option<Stored>)
        ensures
            match value {
                Some(v) => peek(old(self)@, key@) == Some(v@),
                None => peek(old(self)@, key@) is None,
            },
            final(self)@ == without(old(self)@, key@),
    {
        let value = self.get(key);
        let key = String::from_str(key);
        self.purge(&key);
        value
    }
}

proof fn lemma_same_map(a: Seq<Entry>, b: Seq<Entry>)
    requires
        a.len() == b.len(),
        forall|k: int|
            0 <= k < a.len() ==> (#[trigger] a[k]).key@ == b[k].key@ && a[k].model()
                == b[k].model(),
    ensures
        map_of(a) == map_of(b),
    decreases a.len(),
{
    if a.len() > 0 {
        lemma_same_map(a.drop_last(), b.drop_last());
    }
}

} // verus!
