//! The cache of resolved names.
//!
//! The cache maps a domain, exactly as it was supplied, to the record that
//! was last stored for it. Its mathematical value is a finite map; it is kept
//! as a list of entries in which no key occurs twice. There is no bound on its
//! size: entries leave only when they are swept for having expired.

use vstd::prelude::*;
use crate::record::{CacheStats, DnsResult, DnsResultView, ResolverType};

verus! {

/// What a cache holds: for each cached domain, its record.
pub type CacheView = Map<Seq<char>, DnsResultView>;

/// The entries of `m` that are still valid at `now`.
pub open spec fn valid_entries(m: CacheView, now: u64) -> CacheView {
    Map::new(|k: Seq<char>| m.contains_key(k) && !m[k].is_expired(now), |k: Seq<char>| m[k])
}

/// Whether `m` holds, for `domain`, a record that is still valid at `now`.
pub open spec fn has_valid(m: CacheView, domain: Seq<char>, now: u64) -> bool {
    m.contains_key(domain) && !m[domain].is_expired(now)
}

/// How many entries of `m` were produced by the path `kind`.
pub open spec fn count_of(m: CacheView, kind: ResolverType) -> nat {
    m.dom().filter(|k: Seq<char>| m[k].resolver_type == kind).len()
}

/// One cached domain with its record.
struct CacheEntry {
    key: String,
    record: DnsResult,
}

/// No key occurs twice among the entries.
spec fn distinct(s: Seq<CacheEntry>) -> bool {
    forall|i: int, j: int|
        0 <= i < s.len() && 0 <= j < s.len() && i != j ==> (#[trigger] s[i]).key@ != (
        #[trigger] s[j]).key@
}

/// Some entry has the key `k`.
spec fn has_key(s: Seq<CacheEntry>, k: Seq<char>) -> bool {
    exists|i: int| 0 <= i < s.len() && (#[trigger] s[i]).key@ == k
}

/// The position of an entry with the key `k`, if there is one.
spec fn index_of(s: Seq<CacheEntry>, k: Seq<char>) -> int {
    choose|i: int| 0 <= i < s.len() && (#[trigger] s[i]).key@ == k
}

/// The map that the entries stand for.
spec fn map_of(s: Seq<CacheEntry>) -> CacheView {
    Map::new(|k: Seq<char>| has_key(s, k), |k: Seq<char>| s[index_of(s, k)].record@)
}

/// Each entry is found in the map under its key.
proof fn lemma_at(s: Seq<CacheEntry>, i: int)
    requires
        distinct(s),
        0 <= i < s.len(),
    ensures
        map_of(s).contains_key(s[i].key@),
        map_of(s)[s[i].key@] == s[i].record@,
{
    assert(has_key(s, s[i].key@));
}

/// Adding an entry with a new key at the end inserts it into the map.
proof fn lemma_push(s: Seq<CacheEntry>, e: CacheEntry)
    requires
        distinct(s),
        !has_key(s, e.key@),
    ensures
        distinct(s.push(e)),
        map_of(s.push(e)) == map_of(s).insert(e.key@, e.record@),
{
    let t = s.push(e);
    assert(distinct(t)) by {
        assert forall|i: int, j: int|
            0 <= i < t.len() && 0 <= j < t.len() && i != j implies (#[trigger] t[i]).key@ != (
        #[trigger] t[j]).key@ by {
            if i < s.len() {
                assert(t[i] == s[i]);
            }
            if j < s.len() {
                assert(t[j] == s[j]);
            }
        }
    }
    assert forall|k: Seq<char>| map_of(t).contains_key(k) <==> map_of(s).insert(
        e.key@,
        e.record@,
    ).contains_key(k) by {
        if has_key(t, k) {
            let i = index_of(t, k);
            if i < s.len() {
                assert(s[i] == t[i]);
            }
        }
        if has_key(s, k) {
            let i = index_of(s, k);
            assert(t[i] == s[i]);
        }
        if k == e.key@ {
            assert(t[s.len() as int] == e);
        }
    }
    assert forall|k: Seq<char>| map_of(t).contains_key(k) implies map_of(t)[k] == map_of(s).insert(
        e.key@,
        e.record@,
    )[k] by {
        let i = index_of(t, k);
        if i < s.len() {
            assert(t[i] == s[i]);
            lemma_at(s, i);
        } else {
            assert(t[i] == e);
        }
    }
    assert(map_of(t) =~= map_of(s).insert(e.key@, e.record@));
}

/// Replacing an entry by one with the same key replaces its record in the map.
proof fn lemma_update(s: Seq<CacheEntry>, i: int, e: CacheEntry)
    requires
        distinct(s),
        0 <= i < s.len(),
        s[i].key@ == e.key@,
    ensures
        distinct(s.update(i, e)),
        map_of(s.update(i, e)) == map_of(s).insert(e.key@, e.record@),
{
    let t = s.update(i, e);
    assert(distinct(t)) by {
        assert forall|a: int, b: int|
            0 <= a < t.len() && 0 <= b < t.len() && a != b implies (#[trigger] t[a]).key@ != (
        #[trigger] t[b]).key@ by {
            assert(t[a].key@ == s[a].key@);
            assert(t[b].key@ == s[b].key@);
        }
    }
    assert forall|k: Seq<char>| map_of(t).contains_key(k) <==> map_of(s).insert(
        e.key@,
        e.record@,
    ).contains_key(k) by {
        if has_key(t, k) {
            let a = index_of(t, k);
            assert(s[a].key@ == t[a].key@);
        }
        if has_key(s, k) {
            let a = index_of(s, k);
            assert(t[a].key@ == s[a].key@);
        }
        if k == e.key@ {
            assert(t[i] == e);
        }
    }
    assert forall|k: Seq<char>| map_of(t).contains_key(k) implies map_of(t)[k] == map_of(s).insert(
        e.key@,
        e.record@,
    )[k] by {
        let a = index_of(t, k);
        lemma_at(t, a);
        if a == i {
            assert(t[a] == e);
        } else {
            assert(t[a] == s[a]);
            lemma_at(s, a);
        }
    }
    assert(map_of(t) =~= map_of(s).insert(e.key@, e.record@));
}

/// Moving the last entry into the place of another removes that other's key
/// from the map.
proof fn lemma_swap_remove(s: Seq<CacheEntry>, i: int)
    requires
        distinct(s),
        0 <= i < s.len(),
    ensures
        distinct(s.update(i, s.last()).drop_last()),
        map_of(s.update(i, s.last()).drop_last()) == map_of(s).remove(s[i].key@),
{
    let t = s.update(i, s.last()).drop_last();
    let last = s.len() - 1;
    // where the entry at position `a` of `t` stood in `s`
    let from = |a: int| if a == i { last } else { a };
    assert(distinct(t)) by {
        assert forall|a: int, b: int|
            0 <= a < t.len() && 0 <= b < t.len() && a != b implies (#[trigger] t[a]).key@ != (
        #[trigger] t[b]).key@ by {
            assert(t[a] == s[from(a)]);
            assert(t[b] == s[from(b)]);
        }
    }
    let k0 = s[i].key@;
    assert forall|k: Seq<char>| map_of(t).contains_key(k) <==> map_of(s).remove(k0).contains_key(
        k,
    ) by {
        if has_key(t, k) {
            let a = index_of(t, k);
            assert(t[a] == s[from(a)]);
            assert(from(a) != i);
        }
        if has_key(s, k) && k != k0 {
            let a = index_of(s, k);
            if a == last {
                assert(t[i] == s[a]);
            } else {
                assert(t[a] == s[a]);
            }
        }
    }
    assert forall|k: Seq<char>| map_of(t).contains_key(k) implies map_of(t)[k] == map_of(s).remove(
        k0,
    )[k] by {
        let a = index_of(t, k);
        lemma_at(t, a);
        assert(t[a] == s[from(a)]);
        lemma_at(s, from(a));
    }
    assert(map_of(t) =~= map_of(s).remove(k0));
}

/// The map has as many keys as there are entries.
proof fn lemma_size(s: Seq<CacheEntry>)
    requires
        distinct(s),
    ensures
        map_of(s).dom().finite(),
        map_of(s).dom().len() == s.len(),
    decreases s.len(),
{
    if s.len() == 0 {
        assert(map_of(s).dom() =~= Set::<Seq<char>>::empty());
    } else {
        let r = s.drop_last();
        let e = s.last();
        assert(distinct(r)) by {
            assert forall|i: int, j: int|
                0 <= i < r.len() && 0 <= j < r.len() && i != j implies (#[trigger] r[i]).key@ != (
            #[trigger] r[j]).key@ by {
                assert(r[i] == s[i]);
                assert(r[j] == s[j]);
            }
        }
        assert(!has_key(r, e.key@)) by {
            if has_key(r, e.key@) {
                let i = index_of(r, e.key@);
                assert(r[i] == s[i]);
                assert(s[s.len() - 1] == e);
            }
        }
        lemma_size(r);
        lemma_push(r, e);
        assert(r.push(e) =~= s);
        assert(map_of(s).dom() =~= map_of(r).dom().insert(e.key@));
    }
}

/// A map without entries counts none of any kind.
pub proof fn lemma_count_none(m: CacheView, kind: ResolverType)
    requires
        m.dom() == Set::<Seq<char>>::empty(),
    ensures
        count_of(m, kind) == 0,
{
    assert(m.dom().filter(|k: Seq<char>| m[k].resolver_type == kind) =~= Set::<Seq<char>>::empty());
}

/// Adding a record under a key that the map does not hold yet raises the
/// count of its kind by one and leaves the other counts as they were.
pub proof fn lemma_count_insert(m: CacheView, k: Seq<char>, r: DnsResultView, kind: ResolverType)
    requires
        m.dom().finite(),
        !m.contains_key(k),
    ensures
        count_of(m.insert(k, r), kind) == count_of(m, kind) + if r.resolver_type == kind {
            1nat
        } else {
            0nat
        },
{
    let n = m.insert(k, r);
    let before = m.dom().filter(|x: Seq<char>| m[x].resolver_type == kind);
    let after = n.dom().filter(|x: Seq<char>| n[x].resolver_type == kind);
    m.dom().lemma_len_filter(|x: Seq<char>| m[x].resolver_type == kind);
    if r.resolver_type == kind {
        assert(after =~= before.insert(k));
    } else {
        assert(after =~= before);
    }
}

/// The cache of resolved names.
pub struct DnsCache {
    entries: Vec<CacheEntry>,
}

impl View for DnsCache {
    type V = CacheView;

    closed spec fn view(&self) -> CacheView {
        map_of(self.entries@)
    }
}

impl DnsCache {
    #[verifier::type_invariant]
    spec fn no_key_twice(self) -> bool {
        distinct(self.entries@)
    }

    /// An empty cache.
    pub fn new() -> (c: Self)
        ensures
            c@ == CacheView::empty(),
    {
        let c = DnsCache { entries: Vec::new() };
        assert(c@ =~= CacheView::empty());
        c
    }

    /// The position of `domain` among the entries, if it has one.
    fn position(&self, domain: &String) -> (p: Option<usize>)
        ensures
            match p {
                Some(i) => i < self.entries@.len() && self.entries@[i as int].key@ == domain@,
                None => !has_key(self.entries@, domain@),
            },
    {
        let mut i: usize = 0;
        while i < self.entries.len()
            invariant
                i <= self.entries@.len(),
                forall|j: int| 0 <= j < i ==> (#[trigger] self.entries@[j]).key@ != domain@,
            decreases self.entries@.len() - i,
        {
            if self.entries[i].key == *domain {
                return Some(i);
            }
            i += 1;
        }
        None
    }

    /// How many entries the cache holds.
    pub fn len(&self) -> (n: usize)
        ensures
            self@.dom().finite(),
            n == self@.dom().len(),
    {
        proof {
            use_type_invariant(self);
            lemma_size(self.entries@);
        }
        self.entries.len()
    }

    /// The record stored for `domain`, whether it has expired or not.
    pub fn get(&self, domain: &str) -> (r: Option<&DnsResult>)
        ensures
            match r {
                Some(rec) => self@.contains_key(domain@) && rec@ == self@[domain@],
                None => !self@.contains_key(domain@),
            },
    {
        let key = String::from_str(domain);
        match self.position(&key) {
            Some(i) => {
                proof {
                    use_type_invariant(self);
                    lemma_at(self.entries@, i as int);
                }
                Some(&self.entries[i].record)
            },
            None => None,
        }
    }

    /// Stores `record` for `domain`. A record that was stored for `domain`
    /// before is replaced; every other entry stays as it was.
    pub fn insert(&mut self, domain: &str, record: DnsResult)
        ensures
            final(self)@ == old(self)@.insert(domain@, record@),
    {
        let key = String::from_str(domain);
        let found = self.position(&key);
        let entry = CacheEntry { key, record };
        proof {
            use_type_invariant(&*self);
        }
        let mut entries: Vec<CacheEntry> = Vec::new();
        std::mem::swap(&mut self.entries, &mut entries);
        match found {
            Some(i) => {
                proof {
                    lemma_update(entries@, i as int, entry);
                }
                entries.set(i, entry);
            },
            None => {
                proof {
                    lemma_push(entries@, entry);
                }
                entries.push(entry);
            },
        }
        self.entries = entries;
    }

    /// Removes every entry that is expired at `now`, and no other.
    pub fn remove_expired(&mut self, now: u64)
        ensures
            final(self)@ == valid_entries(old(self)@, now),
    {
        let ghost before = self@;
        proof {
            use_type_invariant(&*self);
        }
        let mut entries: Vec<CacheEntry> = Vec::new();
        std::mem::swap(&mut self.entries, &mut entries);
        let mut i: usize = 0;
        while i < entries.len()
            invariant
                i <= entries@.len(),
                distinct(entries@),
                forall|j: int| 0 <= j < i ==> !(#[trigger] entries@[j]).record@.is_expired(now),
                map_of(entries@).submap_of(before),
                forall|k: Seq<char>|
                    #[trigger] before.contains_key(k) && !before[k].is_expired(now) ==> map_of(
                        entries@,
                    ).contains_key(k),
            decreases entries@.len() - i,
        {
            if entries[i].record.is_expired_at(now) {
                let ghost s = entries@;
                proof {
                    lemma_at(s, i as int);
                    lemma_swap_remove(s, i as int);
                }
                entries.swap_remove(i);
                proof {
                    let gone = s[i as int].key@;
                    assert(map_of(entries@) == map_of(s).remove(gone));
                    assert forall|k: Seq<char>| map_of(entries@).contains_key(k) implies map_of(
                        s,
                    ).contains_key(k) && map_of(entries@)[k] == map_of(s)[k] by {}
                    assert forall|k: Seq<char>|
                        before.contains_key(k) && !before[k].is_expired(now) implies map_of(
                        entries@,
                    ).contains_key(k) by {
                        assert(map_of(s).contains_key(k));
                        assert(k != gone);
                    }
                    assert forall|j: int| 0 <= j < i implies !(#[trigger] entries@[j]).record@.is_expired(
                        now,
                    ) by {
                        assert(entries@[j] == s[j]);
                    }
                }
            } else {
                i += 1;
            }
        }
        proof {
            let m = map_of(entries@);
            assert forall|k: Seq<char>| m.contains_key(k) implies !m[k].is_expired(now) by {
                let j = index_of(entries@, k);
                lemma_at(entries@, j);
            }
            assert forall|k: Seq<char>| m.contains_key(k) <==> valid_entries(
                before,
                now,
            ).contains_key(k) by {
                if m.contains_key(k) {
                    assert(m.dom().contains(k));
                    assert(before.dom().contains(k));
                    assert(m[k] == before[k]);
                }
            }
            assert(m =~= valid_entries(before, now));
        }
        self.entries = entries;
    }

    /// The number of entries, and how many of them each of the two counted
    /// paths produced.
    pub fn stats(&self) -> (s: CacheStats)
        ensures
            self@.dom().finite(),
            s.total_entries == self@.dom().len(),
            s.genesis_domains == count_of(self@, ResolverType::Genesis),
            s.traditional_domains == count_of(self@, ResolverType::Traditional),
    {
        proof {
            use_type_invariant(self);
            lemma_size(self.entries@);
        }
        let mut genesis: usize = 0;
        let mut traditional: usize = 0;
        let mut i: usize = 0;
        proof {
            assert(map_of(self.entries@.take(0)).dom() =~= Set::<Seq<char>>::empty());
            lemma_count_none(map_of(self.entries@.take(0)), ResolverType::Genesis);
            lemma_count_none(map_of(self.entries@.take(0)), ResolverType::Traditional);
        }
        while i < self.entries.len()
            invariant
                i <= self.entries@.len(),
                distinct(self.entries@),
                genesis <= i,
                traditional <= i,
                genesis == count_of(map_of(self.entries@.take(i as int)), ResolverType::Genesis),
                traditional == count_of(
                    map_of(self.entries@.take(i as int)),
                    ResolverType::Traditional,
                ),
            decreases self.entries@.len() - i,
        {
            proof {
                let s = self.entries@;
                let head = s.take(i as int);
                let e = s[i as int];
                assert(distinct(head)) by {
                    assert forall|a: int, b: int|
                        0 <= a < head.len() && 0 <= b < head.len() && a != b implies (
                    #[trigger] head[a]).key@ != (#[trigger] head[b]).key@ by {
                        assert(head[a] == s[a]);
                        assert(head[b] == s[b]);
                    }
                }
                assert(!has_key(head, e.key@)) by {
                    if has_key(head, e.key@) {
                        let a = index_of(head, e.key@);
                        assert(head[a] == s[a]);
                    }
                }
                lemma_size(head);
                lemma_push(head, e);
                assert(head.push(e) =~= s.take(i + 1));
                lemma_count_insert(map_of(head), e.key@, e.record@, ResolverType::Genesis);
                lemma_count_insert(map_of(head), e.key@, e.record@, ResolverType::Traditional);
            }
            match self.entries[i].record.resolver_type {
                ResolverType::Genesis => {
                    genesis += 1;
                },
                ResolverType::Traditional => {
                    traditional += 1;
                },
                _ => {},
            }
            i += 1;
        }
        proof {
            assert(self.entries@.take(i as int) =~= self.entries@);
        }
        CacheStats {
            total_entries: self.entries.len(),
            genesis_domains: genesis,
            traditional_domains: traditional,
        }
    }
}

} // verus!
