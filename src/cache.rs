//! An in-memory key-value store with per-key expiry, behaving as the
//! revocation cache does: the stand-in for it where no external cache runs.
use crate::extract::chars_equal;
use crate::revocation::{cache_get, cache_set};
use crate::text::chars_of;
use vstd::prelude::*;

verus! {

/// One write: `value` under `key`, visible before time `expires_at`.
#[derive(Clone, Debug, PartialEq, Eq)]
pub struct CacheEntry {
    pub key: String,
    pub value: String,
    pub expires_at: u64,
}

/// The store that a log of writes leaves: a later write under a key replaces
/// an earlier one.
pub open spec fn entries_map(s: Seq<CacheEntry>) -> Map<Seq<char>, (Seq<char>, int)>
    decreases s.len(),
{
    if s.len() == 0 {
        Map::empty()
    } else {
        entries_map(s.drop_last()).insert(s.last().key@, (s.last().value@, s.last().expires_at as int))
    }
}

/// A key-value store with per-key expiry, kept as the log of its writes.
pub struct MemoryCache {
    entries: Vec<CacheEntry>,
}

impl View for MemoryCache {
    type V = Map<Seq<char>, (Seq<char>, int)>;

    closed spec fn view(&self) -> Map<Seq<char>, (Seq<char>, int)> {
        entries_map(self.entries@)
    }
}

proof fn lemma_later_entries_other_keys(s: Seq<CacheEntry>, i: int, k: Seq<char>)
    requires
        0 <= i <= s.len(),
        forall|j: int| i <= j < s.len() ==> s[j].key@ != k,
    ensures
        entries_map(s).contains_key(k) == entries_map(s.take(i)).contains_key(k),
        entries_map(s).contains_key(k) ==> entries_map(s)[k] == entries_map(s.take(i))[k],
    decreases s.len() - i,
{
    if i < s.len() {
        let t = s.take(i + 1);
        lemma_later_entries_other_keys(s, i + 1, k);
        assert(t.drop_last() == s.take(i));
        assert(t.last() == s[i]);
    } else {
        assert(s.take(i) == s);
    }
}

impl MemoryCache {
    pub fn new() -> (r: Self)
        ensures
            r@ == Map::<Seq<char>, (Seq<char>, int)>::empty(),
    {
        MemoryCache { entries: Vec::new() }
    }

    /// Stores `value` under `key` at time `now`, kept `ttl` seconds; an
    /// earlier value under `key` is replaced.
    pub fn set_ttl(&mut self, key: String, value: String, ttl: u64, now: u64)
        requires
            now + ttl <= u64::MAX,
        ensures
            final(self)@ == cache_set(old(self)@, key@, value@, ttl as int, now as int),
    {
        let ghost before = self.entries@;
        self.entries.push(CacheEntry { key, value, expires_at: now + ttl });
        assert(self.entries@.drop_last() == before);
    }

    /// The value under `key` at time `now`, unless it has expired.
    pub fn get(&self, key: &str, now: u64) -> (r: Option<String>)
        ensures
            match r {
                Some(v) => cache_get(self@, key@, now as int) == Some(v@),
                None => cache_get(self@, key@, now as int) is None,
            },
    {
        let k = chars_of(key);
        let mut i: usize = self.entries.len();
        while i > 0
            invariant
                k@ == key@,
                0 <= i <= self.entries@.len(),
                forall|j: int| i <= j < self.entries@.len() ==> self.entries@[j].key@ != key@,
            decreases i,
        {
            let e = &self.entries[i - 1];
            if chars_equal(&chars_of(e.key.as_str()), &k) {
                proof {
                    let s = self.entries@;
                    lemma_later_entries_other_keys(s, i as int, key@);
                    assert(s.take(i as int).drop_last() == s.take(i - 1));
                    assert(s.take(i as int).last() == s[i - 1]);
                }
                if now < e.expires_at {
                    return Some(e.value.clone());
                } else {
                    return None;
                }
            }
            i = i - 1;
        }
        proof {
            lemma_later_entries_other_keys(self.entries@, 0, key@);
            assert(self.entries@.take(0) == Seq::<CacheEntry>::empty());
        }
        None
    }
}

} // verus!
