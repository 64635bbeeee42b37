//! Session storage: the most-recently-used cache from external session ids to
//! cursor session ids, the session file's format, and where the file lives.

use vstd::prelude::*;
use crate::config::{cursor_brain_home_dir, join_result, path_join};
use crate::json::{json_parse, parse_json, JsonValue};
use crate::text::{chars_of, trim, trim_str};
use vstd::string::StrSliceExecFns;

verus! {

/// `lru::LruCache`, held behind the names `lru_entries` and `lru_cap`.
#[verifier::external_type_specification]
#[verifier::external_body]
#[verifier::reject_recursive_types(K)]
#[verifier::reject_recursive_types(V)]
#[verifier::reject_recursive_types(S)]
pub struct ExLruCache<K, V, S>(lru::LruCache<K, V, S>);

/// The hasher `lru::LruCache` uses by default.
#[verifier::external_type_specification]
#[verifier::external_body]
pub struct ExLruDefaultHasher(lru::DefaultHasher);

/// The entries of an `LruCache`, most recently used first, each key and value
/// taken by its view.
pub uninterp spec fn lru_entries(c: lru::LruCache<String, String>) -> Seq<(Seq<char>, Seq<char>)>;

/// The capacity an `LruCache` was made with.
pub uninterp spec fn lru_cap(c: lru::LruCache<String, String>) -> nat;

/// The entries without the one for `k`, the others in their order.
pub open spec fn without_key(es: Seq<(Seq<char>, Seq<char>)>, k: Seq<char>) -> Seq<(Seq<char>, Seq<char>)>
    decreases es.len(),
{
    if es.len() == 0 {
        es
    } else if es[0].0 == k {
        without_key(es.drop_first(), k)
    } else {
        seq![es[0]] + without_key(es.drop_first(), k)
    }
}

/// The value stored for `k`: that of the first entry with this key.
pub open spec fn lookup(es: Seq<(Seq<char>, Seq<char>)>, k: Seq<char>) -> Option<Seq<char>>
    decreases es.len(),
{
    if es.len() == 0 {
        None
    } else if es[0].0 == k {
        Some(es[0].1)
    } else {
        lookup(es.drop_first(), k)
    }
}

/// Some entry has key `k`.
pub open spec fn has_key(es: Seq<(Seq<char>, Seq<char>)>, k: Seq<char>) -> bool {
    exists|j: int| 0 <= j < es.len() && #[trigger] es[j].0 == k
}

/// The entries after `put(k, v)`: the pair goes first, any older pair for `k`
/// goes, and a full cache drops its least recently used entry.
pub open spec fn put_entries(es: Seq<(Seq<char>, Seq<char>)>, cap: nat, k: Seq<char>, v: Seq<char>) -> Seq<(Seq<char>, Seq<char>)> {
    let s = seq![(k, v)] + without_key(es, k);
    if s.len() > cap {
        s.take(cap as int)
    } else {
        s
    }
}

/// The entries after `get(k)`: a hit moves `k` to the front.
pub open spec fn touch_entries(es: Seq<(Seq<char>, Seq<char>)>, k: Seq<char>) -> Seq<(Seq<char>, Seq<char>)> {
    match lookup(es, k) {
        Some(v) => seq![(k, v)] + without_key(es, k),
        None => es,
    }
}

/// No key occurs twice.
pub open spec fn keys_distinct(es: Seq<(Seq<char>, Seq<char>)>) -> bool {
    forall|i: int, j: int| 0 <= i < j < es.len() ==> #[trigger] es[i].0 != #[trigger] es[j].0
}

proof fn lemma_distinct_cons(x: (Seq<char>, Seq<char>), t: Seq<(Seq<char>, Seq<char>)>)
    requires
        keys_distinct(t),
        !has_key(t, x.0),
    ensures
        keys_distinct(seq![x] + t),
{
    let s = seq![x] + t;
    assert forall|i: int, j: int| 0 <= i < j < s.len() implies #[trigger] s[i].0 != #[trigger] s[j].0 by {
        if i == 0 {
            assert(s[j] == t[j - 1]);
        } else {
            assert(s[i] == t[i - 1]);
            assert(s[j] == t[j - 1]);
        }
    }
}

proof fn lemma_distinct_tail(es: Seq<(Seq<char>, Seq<char>)>)
    requires
        keys_distinct(es),
        es.len() > 0,
    ensures
        keys_distinct(es.drop_first()),
        !has_key(es.drop_first(), es[0].0),
{
    let t = es.drop_first();
    assert forall|i: int, j: int| 0 <= i < j < t.len() implies #[trigger] t[i].0 != #[trigger] t[j].0 by {
        assert(t[i] == es[i + 1]);
        assert(t[j] == es[j + 1]);
    }
    if has_key(t, es[0].0) {
        let j = choose|j: int| 0 <= j < t.len() && #[trigger] t[j].0 == es[0].0;
        assert(t[j] == es[j + 1]);
    }
}

proof fn lemma_has_key_cons(x: (Seq<char>, Seq<char>), t: Seq<(Seq<char>, Seq<char>)>, k: Seq<char>)
    ensures
        has_key(seq![x] + t, k) <==> (x.0 == k || has_key(t, k)),
{
    let s = seq![x] + t;
    if has_key(s, k) {
        let j = choose|j: int| 0 <= j < s.len() && #[trigger] s[j].0 == k;
        if j > 0 {
            assert(s[j] == t[j - 1]);
        }
    }
    if x.0 == k {
        assert(s[0].0 == k);
    }
    if has_key(t, k) {
        let j = choose|j: int| 0 <= j < t.len() && #[trigger] t[j].0 == k;
        assert(s[j + 1] == t[j]);
    }
}

proof fn lemma_has_key_tail(es: Seq<(Seq<char>, Seq<char>)>, k: Seq<char>)
    requires
        es.len() > 0,
    ensures
        has_key(es, k) <==> (es[0].0 == k || has_key(es.drop_first(), k)),
{
    assert(es =~= seq![es[0]] + es.drop_first());
    lemma_has_key_cons(es[0], es.drop_first(), k);
}

/// What `without_key` keeps and drops.
proof fn lemma_without_key(es: Seq<(Seq<char>, Seq<char>)>, k: Seq<char>)
    ensures
        !has_key(without_key(es, k), k),
        forall|k2: Seq<char>| k2 != k ==> (has_key(without_key(es, k), k2) <==> has_key(es, k2)),
        forall|k2: Seq<char>| k2 != k ==> lookup(without_key(es, k), k2) == lookup(es, k2),
        without_key(es, k).len() <= es.len(),
        has_key(es, k) ==> without_key(es, k).len() < es.len(),
        keys_distinct(es) ==> keys_distinct(without_key(es, k)),
    decreases es.len(),
{
    if es.len() > 0 {
        let t = es.drop_first();
        lemma_without_key(t, k);
        lemma_has_key_tail(es, k);
        assert forall|k2: Seq<char>| true implies (has_key(es, k2) <==> (es[0].0 == k2 || has_key(t, k2))) by {
            lemma_has_key_tail(es, k2);
        }
        if es[0].0 != k {
            let w = without_key(t, k);
            assert forall|k2: Seq<char>| true implies (has_key(seq![es[0]] + w, k2) <==> (es[0].0 == k2 || has_key(w, k2))) by {
                lemma_has_key_cons(es[0], w, k2);
            }
            assert((seq![es[0]] + w).drop_first() =~= w);
            assert forall|k2: Seq<char>| k2 != k implies lookup(without_key(es, k), k2) == lookup(es, k2) by {
                assert((seq![es[0]] + w)[0] == es[0]);
                assert(lookup(without_key(t, k), k2) == lookup(t, k2));
                assert(without_key(es, k) == seq![es[0]] + w);
            }
            if keys_distinct(es) {
                lemma_distinct_tail(es);
                lemma_distinct_cons(es[0], w);
            }
        } else {
            assert forall|k2: Seq<char>| k2 != k implies lookup(without_key(es, k), k2) == lookup(es, k2) by {
                assert(lookup(without_key(t, k), k2) == lookup(t, k2));
            }
            if keys_distinct(es) {
                lemma_distinct_tail(es);
            }
        }
    } else {
        assert(!has_key(es, k));
    }
}

/// `lookup` finds exactly the keys that occur.
proof fn lemma_lookup_has_key(es: Seq<(Seq<char>, Seq<char>)>, k: Seq<char>)
    ensures
        lookup(es, k) is Some <==> has_key(es, k),
    decreases es.len(),
{
    if es.len() > 0 {
        lemma_lookup_has_key(es.drop_first(), k);
        lemma_has_key_tail(es, k);
    } else {
        assert(!has_key(es, k));
    }
}

/// A prefix of distinct entries is distinct and keeps the lookups of its keys.
proof fn lemma_take(es: Seq<(Seq<char>, Seq<char>)>, n: int)
    requires
        0 <= n <= es.len(),
    ensures
        keys_distinct(es) ==> keys_distinct(es.take(n)),
        forall|k2: Seq<char>| has_key(es.take(n), k2) ==> has_key(es, k2),
{
    let t = es.take(n);
    assert forall|k2: Seq<char>| has_key(t, k2) implies has_key(es, k2) by {
        let j = choose|j: int| 0 <= j < t.len() && #[trigger] t[j].0 == k2;
        assert(es[j] == t[j]);
    }
    if keys_distinct(es) {
        assert forall|i: int, j: int| 0 <= i < j < t.len() implies #[trigger] t[i].0 != #[trigger] t[j].0 by {
            assert(t[i] == es[i]);
            assert(t[j] == es[j]);
        }
    }
}

/// `put` keeps the cache well formed: no key twice, no more entries than the
/// capacity.
pub proof fn law_put_keeps_bounds(es: Seq<(Seq<char>, Seq<char>)>, cap: nat, k: Seq<char>, v: Seq<char>)
    requires
        cap >= 1,
        es.len() <= cap,
        keys_distinct(es),
    ensures
        keys_distinct(put_entries(es, cap, k, v)),
        put_entries(es, cap, k, v).len() <= cap,
{
    lemma_without_key(es, k);
    let w = without_key(es, k);
    lemma_distinct_cons((k, v), w);
    let s = seq![(k, v)] + w;
    if s.len() > cap {
        lemma_take(s, cap as int);
    }
}

/// A read after a write gives back what was written.
pub proof fn law_put_then_lookup(es: Seq<(Seq<char>, Seq<char>)>, cap: nat, k: Seq<char>, v: Seq<char>)
    requires
        cap >= 1,
    ensures
        lookup(put_entries(es, cap, k, v), k) == Some(v),
{
    let s = seq![(k, v)] + without_key(es, k);
    if s.len() > cap {
        assert(s.take(cap as int)[0] == (k, v));
    } else {
        assert(s[0] == (k, v));
    }
}

/// A write leaves the value of every other key as it was, unless it evicts:
/// that is, when the key was already stored or the cache had room.
pub proof fn law_put_keeps_others(es: Seq<(Seq<char>, Seq<char>)>, cap: nat, k: Seq<char>, v: Seq<char>, k2: Seq<char>)
    requires
        cap >= 1,
        es.len() <= cap,
        keys_distinct(es),
        k2 != k,
        has_key(es, k) || es.len() < cap,
    ensures
        lookup(put_entries(es, cap, k, v), k2) == lookup(es, k2),
{
    lemma_without_key(es, k);
    let s = seq![(k, v)] + without_key(es, k);
    assert(s.drop_first() =~= without_key(es, k));
    assert(s.len() <= cap);
}

/// When a new key arrives at a full cache, the least recently used entry is
/// the one that leaves.
pub proof fn law_put_evicts_least_recent(es: Seq<(Seq<char>, Seq<char>)>, cap: nat, k: Seq<char>, v: Seq<char>)
    requires
        cap >= 1,
        es.len() == cap,
        !has_key(es, k),
    ensures
        put_entries(es, cap, k, v) == seq![(k, v)] + es.drop_last(),
{
    lemma_without_key_absent(es, k);
    assert((seq![(k, v)] + es).take(cap as int) =~= seq![(k, v)] + es.drop_last());
}

proof fn lemma_without_key_absent(es: Seq<(Seq<char>, Seq<char>)>, k: Seq<char>)
    requires
        !has_key(es, k),
    ensures
        without_key(es, k) == es,
    decreases es.len(),
{
    if es.len() > 0 {
        lemma_has_key_tail(es, k);
        lemma_without_key_absent(es.drop_first(), k);
        assert(seq![es[0]] + es.drop_first() =~= es);
    }
}

/// Removing a key forgets it and keeps every other key's value.
pub proof fn law_pop_removes(es: Seq<(Seq<char>, Seq<char>)>, k: Seq<char>, k2: Seq<char>)
    ensures
        lookup(without_key(es, k), k) is None,
        k2 != k ==> lookup(without_key(es, k), k2) == lookup(es, k2),
{
    lemma_without_key(es, k);
    lemma_lookup_has_key(without_key(es, k), k);
}

/// A read changes no stored value, only the order of use, and keeps the
/// cache well formed.
pub proof fn law_touch_keeps_values(es: Seq<(Seq<char>, Seq<char>)>, k: Seq<char>, k2: Seq<char>)
    requires
        keys_distinct(es),
    ensures
        lookup(touch_entries(es, k), k2) == lookup(es, k2),
        keys_distinct(touch_entries(es, k)),
        touch_entries(es, k).len() == es.len(),
{
    lemma_without_key(es, k);
    lemma_lookup_has_key(es, k);
    match lookup(es, k) {
        Some(v) => {
            let w = without_key(es, k);
            let s = seq![(k, v)] + w;
            assert(s.drop_first() =~= w);
            lemma_distinct_cons((k, v), w);
            lemma_without_key_len(es, k);
            if k2 == k {
            }
        },
        None => {},
    }
}

proof fn lemma_without_key_len(es: Seq<(Seq<char>, Seq<char>)>, k: Seq<char>)
    requires
        keys_distinct(es),
        has_key(es, k),
    ensures
        without_key(es, k).len() == es.len() - 1,
    decreases es.len(),
{
    lemma_has_key_tail(es, k);
    lemma_distinct_tail(es);
    if es[0].0 == k {
        lemma_without_key_absent(es.drop_first(), k);
    } else {
        lemma_without_key_len(es.drop_first(), k);
    }
}

/// The views of key/value pairs.
pub open spec fn pair_views(v: Seq<(String, String)>) -> Seq<(Seq<char>, Seq<char>)> {
    v.map_values(|p: (String, String)| (p.0@, p.1@))
}

/// `LruCache::new(cap)`: an empty cache of that capacity.
#[verifier::external_body]
fn lru_new(cap: usize) -> (r: lru::LruCache<String, String>)
    requires
        cap > 0,
    ensures
        lru_entries(r) == Seq::<(Seq<char>, Seq<char>)>::empty(),
        lru_cap(r) == cap,
{
    lru::LruCache::new(std::num::NonZeroUsize::new(cap).unwrap())
}

/// `LruCache::put`: as the crate's source does it, the pair becomes the most
/// recently used entry, replacing any entry for the key; when the key is new
/// and the cache is full, the least recently used entry is dropped first.
#[verifier::external_body]
fn lru_put(c: &mut lru::LruCache<String, String>, k: String, v: String)
    ensures
        lru_entries(*final(c)) == put_entries(lru_entries(*old(c)), lru_cap(*old(c)), k@, v@),
        lru_cap(*final(c)) == lru_cap(*old(c)),
{
    c.put(k, v);
}

/// `LruCache::get`, cloned: the value for `k`, and a hit becomes the most
/// recently used entry.
#[verifier::external_body]
fn lru_get(c: &mut lru::LruCache<String, String>, k: &str) -> (r: Option<String>)
    ensures
        match r {
            Some(x) => lookup(lru_entries(*old(c)), k@) == Some(x@),
            None => lookup(lru_entries(*old(c)), k@) is None,
        },
        lru_entries(*final(c)) == touch_entries(lru_entries(*old(c)), k@),
        lru_cap(*final(c)) == lru_cap(*old(c)),
{
    c.get(k).cloned()
}

/// `LruCache::pop`: the entry for `k`, if any, leaves; the others keep their order.
#[verifier::external_body]
fn lru_pop(c: &mut lru::LruCache<String, String>, k: &str)
    ensures
        lru_entries(*final(c)) == without_key(lru_entries(*old(c)), k@),
        lru_cap(*final(c)) == lru_cap(*old(c)),
{
    c.pop(k);
}

/// `LruCache::iter`, cloned: the entries, most recently used first.
#[verifier::external_body]
fn lru_iter(c: &lru::LruCache<String, String>) -> (r: Vec<(String, String)>)
    ensures
        pair_views(r@) == lru_entries(*c),
{
    c.iter().map(|(k, v)| (k.clone(), v.clone())).collect()
}


/// The entries after writing the pairs one after another into an empty cache.
pub open spec fn load_entries(ps: Seq<(Seq<char>, Seq<char>)>, cap: nat) -> Seq<(Seq<char>, Seq<char>)>
    decreases ps.len(),
{
    if ps.len() == 0 {
        Seq::<(Seq<char>, Seq<char>)>::empty()
    } else {
        put_entries(load_entries(ps.drop_last(), cap), cap, ps.last().0, ps.last().1)
    }
}

/// Looking up in pairs with one more pair at the end: the earlier pairs win.
proof fn lemma_lookup_append(a: Seq<(Seq<char>, Seq<char>)>, x: (Seq<char>, Seq<char>), k: Seq<char>)
    ensures
        lookup(a + seq![x], k) == if has_key(a, k) {
            lookup(a, k)
        } else if x.0 == k {
            Some(x.1)
        } else {
            None
        },
    decreases a.len(),
{
    let b = a + seq![x];
    if a.len() == 0 {
        assert(b =~= seq![x]);
        assert(b.drop_first() =~= Seq::<(Seq<char>, Seq<char>)>::empty());
        assert(b[0] == x);
        assert(!has_key(a, k));
        assert(lookup(b.drop_first(), k) is None);
        if x.0 == k {
            assert(lookup(b, k) == Some(x.1));
        } else {
            assert(lookup(b, k) is None);
        }
    } else {
        lemma_lookup_append(a.drop_first(), x, k);
        assert(b.drop_first() =~= a.drop_first() + seq![x]);
        assert(b[0] == a[0]);
        lemma_has_key_tail(a, k);
        if a[0].0 == k {
            assert(lookup(b, k) == Some(a[0].1));
            assert(lookup(a, k) == Some(a[0].1));
        } else {
            assert(lookup(b, k) == lookup(a.drop_first() + seq![x], k));
            assert(lookup(a, k) == lookup(a.drop_first(), k));
        }
    }
}

/// Loading distinct pairs that fit keeps them all: as many entries, each
/// with its value.
proof fn lemma_load_entries(ps: Seq<(Seq<char>, Seq<char>)>, cap: nat)
    requires
        ps.len() <= cap,
        keys_distinct(ps),
    ensures
        load_entries(ps, cap).len() <= ps.len(),
        forall|k: Seq<char>| #[trigger] lookup(load_entries(ps, cap), k) == lookup(ps, k),
    decreases ps.len(),
{
    if ps.len() > 0 {
        let n = ps.len() - 1;
        let a = ps.drop_last();
        let x = ps.last();
        assert(ps.take(n) =~= a);
        lemma_take(ps, n);
        lemma_load_entries(a, cap);
        let es = load_entries(a, cap);
        lemma_without_key(es, x.0);
        assert(ps =~= a + seq![x]);
        if has_key(a, x.0) {
            let j = choose|j: int| 0 <= j < a.len() && #[trigger] a[j].0 == x.0;
            assert(ps[j] == a[j]);
            assert(ps[n as int] == x);
        }
        let s = seq![x] + without_key(es, x.0);
        assert(load_entries(ps, cap) == s);
        assert(s[0] == x);
        assert(s.drop_first() =~= without_key(es, x.0));
        assert forall|k: Seq<char>| #[trigger] lookup(load_entries(ps, cap), k) == lookup(ps, k) by {
            lemma_lookup_append(a, x, k);
            lemma_lookup_has_key(a, k);
            if k != x.0 {
                assert(lookup(s, k) == lookup(without_key(es, x.0), k));
                assert(lookup(without_key(es, x.0), k) == lookup(es, k));
                assert(lookup(es, k) == lookup(a, k));
            }
        }
    }
}

/// Sessions survive a restart: loading at most `cap` pairs with distinct keys
/// (as the session file holds them) gives back, for every key, its value.
pub proof fn law_load_keeps_values(ps: Seq<(Seq<char>, Seq<char>)>, cap: nat, k: Seq<char>)
    requires
        ps.len() <= cap,
        keys_distinct(ps),
    ensures
        lookup(load_entries(ps, cap), k) == lookup(ps, k),
{
    lemma_load_entries(ps, cap);
}

/// The map from external session ids to cursor session ids, bounded and
/// ordered by recency of use.
pub struct SessionCache {
    cache: lru::LruCache<String, String>,
}

impl SessionCache {
    /// The entries, most recently used first.
    pub closed spec fn entries(&self) -> Seq<(Seq<char>, Seq<char>)> {
        lru_entries(self.cache)
    }

    /// The most entries the cache holds.
    pub closed spec fn capacity(&self) -> nat {
        lru_cap(self.cache)
    }

    /// A positive capacity, no more entries than it, no key twice.
    pub open spec fn wf(&self) -> bool {
        &&& self.capacity() >= 1
        &&& self.entries().len() <= self.capacity()
        &&& keys_distinct(self.entries())
    }

    /// An empty cache holding at most `cap` entries.
    pub fn new(cap: usize) -> (r: Self)
        requires
            cap >= 1,
        ensures
            r.wf(),
            r.entries() == Seq::<(Seq<char>, Seq<char>)>::empty(),
            r.capacity() == cap,
    {
        SessionCache { cache: lru_new(cap) }
    }

    /// The cursor session id stored for `external_id`; a hit becomes the most
    /// recently used entry.
    pub fn get(&mut self, external_id: &str) -> (r: Option<String>)
        requires
            old(self).wf(),
        ensures
            final(self).wf(),
            match r {
                Some(x) => lookup(old(self).entries(), external_id@) == Some(x@),
                None => lookup(old(self).entries(), external_id@) is None,
            },
            final(self).entries() == touch_entries(old(self).entries(), external_id@),
            final(self).capacity() == old(self).capacity(),
    {
        proof {
            law_touch_keeps_values(self.entries(), external_id@, external_id@);
        }
        lru_get(&mut self.cache, external_id)
    }

    /// Stores `cursor_id` for `external_id` as the most recently used entry.
    pub fn put(&mut self, external_id: String, cursor_id: String)
        requires
            old(self).wf(),
        ensures
            final(self).wf(),
            final(self).entries() == put_entries(old(self).entries(), old(self).capacity(), external_id@, cursor_id@),
            final(self).capacity() == old(self).capacity(),
    {
        proof {
            law_put_keeps_bounds(self.entries(), self.capacity(), external_id@, cursor_id@);
        }
        lru_put(&mut self.cache, external_id, cursor_id);
    }

    /// Forgets `external_id`.
    pub fn remove(&mut self, external_id: &str)
        requires
            old(self).wf(),
        ensures
            final(self).wf(),
            final(self).entries() == without_key(old(self).entries(), external_id@),
            final(self).capacity() == old(self).capacity(),
    {
        proof {
            lemma_without_key(self.entries(), external_id@);
        }
        lru_pop(&mut self.cache, external_id);
    }

    /// The entries, most recently used first.
    pub fn entry_list(&self) -> (r: Vec<(String, String)>)
        ensures
            pair_views(r@) == self.entries(),
    {
        lru_iter(&self.cache)
    }

    /// A cache of capacity `cap` filled with `pairs`, written in order.
    pub fn load(cap: usize, pairs: &Vec<(String, String)>) -> (r: Self)
        requires
            cap >= 1,
        ensures
            r.wf(),
            r.entries() == load_entries(pair_views(pairs@), cap as nat),
            r.capacity() == cap,
    {
        let mut c = SessionCache::new(cap);
        let mut i: usize = 0;
        while i < pairs.len()
            invariant
                i <= pairs@.len(),
                c.wf(),
                c.capacity() == cap,
                c.entries() == load_entries(pair_views(pairs@).take(i as int), cap as nat),
            decreases pairs@.len() - i,
        {
            let ghost ps = pair_views(pairs@);
            assert(ps.take(i + 1).drop_last() =~= ps.take(i as int));
            assert(ps.take(i + 1).last() == ps[i as int]);
            c.put(pairs[i].0.clone(), pairs[i].1.clone());
            i += 1;
        }
        assert(pair_views(pairs@).take(pairs@.len() as int) =~= pair_views(pairs@));
        c
    }
}

/// The pairs of an object whose members are all strings, in order; `None`
/// when some member is not a string.
pub open spec fn string_members(ms: Seq<(String, JsonValue)>) -> Option<Seq<(Seq<char>, Seq<char>)>>
    decreases ms.len(),
{
    if ms.len() == 0 {
        Some(Seq::<(Seq<char>, Seq<char>)>::empty())
    } else {
        match string_members(ms.drop_last()) {
            Some(p) => match ms.last().1 {
                JsonValue::Str(s) => Some(p.push((ms.last().0@, s@))),
                _ => None,
            },
            None => None,
        }
    }
}

/// The session file's content as a map of strings to strings: an object whose
/// members are all strings.
pub open spec fn spec_session_pairs(v: JsonValue) -> Option<Seq<(Seq<char>, Seq<char>)>> {
    match v {
        JsonValue::Object(ms) => string_members(ms@),
        _ => None,
    }
}

proof fn lemma_string_members_none(ms: Seq<(String, JsonValue)>, i: int)
    requires
        0 <= i <= ms.len(),
        string_members(ms.take(i)) is None,
    ensures
        string_members(ms) is None,
    decreases ms.len() - i,
{
    if i < ms.len() {
        assert(ms.take(i + 1).drop_last() =~= ms.take(i));
        lemma_string_members_none(ms, i + 1);
    } else {
        assert(ms.take(i) =~= ms);
    }
}

/// The session pairs that a parsed session file holds.
pub fn session_pairs(v: &JsonValue) -> (r: Option<Vec<(String, String)>>)
    ensures
        match r {
            Some(p) => spec_session_pairs(*v) == Some(pair_views(p@)),
            None => spec_session_pairs(*v) is None,
        },
{
    match v {
        JsonValue::Object(ms) => {
            let mut out: Vec<(String, String)> = Vec::new();
            let mut i: usize = 0;
            while i < ms.len()
                invariant
                    i <= ms@.len(),
                    string_members(ms@.take(i as int)) == Some(pair_views(out@)),
                    spec_session_pairs(*v) == string_members(ms@),
                decreases ms@.len() - i,
            {
                assert(ms@.take(i + 1).drop_last() =~= ms@.take(i as int));
                assert(ms@.take(i + 1).last() == ms@[i as int]);
                match &ms[i].1 {
                    JsonValue::Str(s) => {
                        let ghost before = out@;
                        out.push((ms[i].0.clone(), s.clone()));
                        assert(pair_views(out@) =~= pair_views(before).push((ms@[i as int].0@, s@)));
                    },
                    _ => {
                        proof {
                            lemma_string_members_none(ms@, i + 1);
                        }
                        return None;
                    },
                }
                i += 1;
            }
            assert(ms@.take(ms@.len() as int) =~= ms@);
            Some(out)
        },
        _ => None,
    }
}

/// The pairs that the text of a session file gives (`None`: no readable file);
/// text that is not such a JSON object gives none.
pub open spec fn spec_session_file_pairs(text: Option<Seq<char>>) -> Seq<(Seq<char>, Seq<char>)> {
    match text {
        Some(t) => match json_parse(t) {
            Some(v) => match spec_session_pairs(v) {
                Some(p) => p,
                None => Seq::<(Seq<char>, Seq<char>)>::empty(),
            },
            None => Seq::<(Seq<char>, Seq<char>)>::empty(),
        },
        None => Seq::<(Seq<char>, Seq<char>)>::empty(),
    }
}

/// The session cache of capacity `cap` restored from the text of the session
/// file (`None`: no readable file).
pub fn session_cache_from_text(cap: usize, text: Option<&str>) -> (r: SessionCache)
    requires
        cap >= 1,
    ensures
        r.wf(),
        r.capacity() == cap,
        r.entries() == load_entries(spec_session_file_pairs(match text {
            Some(t) => Some(t@),
            None => None,
        }), cap as nat),
{
    let pairs: Vec<(String, String)> = match text {
        Some(t) => match parse_json(t) {
            Some(v) => match session_pairs(&v) {
                Some(p) => p,
                None => Vec::new(),
            },
            None => Vec::new(),
        },
        None => Vec::new(),
    };
    assert(pair_views(pairs@) =~= spec_session_file_pairs(match text {
        Some(t) => Some(t@),
        None => None,
    }));
    SessionCache::load(cap, &pairs)
}

/// `s` without its leading `c` characters.
pub open spec fn strip_leading(s: Seq<char>, c: char) -> Seq<char>
    decreases s.len(),
{
    if s.len() > 0 && s[0] == c {
        strip_leading(s.drop_first(), c)
    } else {
        s
    }
}

/// The home-relative part of a `~` path: after trimming, "~" alone, or "~/"
/// or "~\" followed by the rest (its leading separators dropped).
pub open spec fn tilde_rest(path: Seq<char>) -> Option<Seq<char>> {
    let s = trim(path);
    if (s.len() >= 2 && s[0] == '~' && s[1] == '/') || s == seq!['~'] {
        Some(strip_leading(s.drop_first(), '/'))
    } else if s.len() >= 2 && s[0] == '~' && s[1] == '\\' {
        Some(strip_leading(s.drop_first(), '\\'))
    } else {
        None
    }
}

fn strip_leading_of<'a>(s: &'a str, c: char) -> (r: &'a str)
    ensures
        r@ == strip_leading(s@, c),
{
    let cs = chars_of(s);
    let mut i: usize = 0;
    assert(cs@.subrange(0, cs@.len() as int) =~= cs@);
    while i < cs.len() && cs[i] == c
        invariant
            i <= cs@.len(),
            cs@ == s@,
            strip_leading(s@, c) == strip_leading(cs@.subrange(i as int, cs@.len() as int), c),
        decreases cs@.len() - i,
    {
        assert(cs@.subrange(i as int, cs@.len() as int).drop_first() =~= cs@.subrange(i + 1, cs@.len() as int));
        i += 1;
    }
    s.substring_char(i, cs.len())
}

/// `path` with a leading `~` resolved against `home`; any other path as it is.
pub fn expand_tilde_in(home: &str, path: &str) -> (r: String)
    ensures
        match tilde_rest(path@) {
            Some(rest) => join_result(home@, rest, r@),
            None => r@ == path@,
        },
{
    let s = trim_str(path);
    let cs = chars_of(s);
    let n = cs.len();
    if (n >= 2 && cs[0] == '~' && cs[1] == '/') || (n == 1 && cs[0] == '~') {
        proof {
            if n == 1 {
                assert(s@ =~= seq!['~']);
            }
        }
        let rest = strip_leading_of(s.substring_char(1, n), '/');
        assert(s@.subrange(1, n as int) =~= s@.drop_first());
        path_join(home, rest)
    } else if n >= 2 && cs[0] == '~' && cs[1] == '\\' {
        let rest = strip_leading_of(s.substring_char(1, n), '\\');
        assert(s@.subrange(1, n as int) =~= s@.drop_first());
        path_join(home, rest)
    } else {
        assert(s@ != seq!['~']);
        path.to_owned()
    }
}

/// `path` with a leading `~` resolved against the user's home directory.
pub fn expand_tilde(path: &str) -> (r: String)
    ensures
        match tilde_rest(path@) {
            Some(rest) => exists|home: Seq<char>| home.len() > 0 && #[trigger] join_result(home, rest, r@),
            None => r@ == path@,
        },
{
    let home = cursor_brain_home_dir();
    let r = expand_tilde_in(home.as_str(), path);
    proof {
        if let Some(rest) = tilde_rest(path@) {
            assert(join_result(home@, rest, r@));
        }
    }
    r
}


/// The capacity of the session cache: the configured size, at least one.
pub fn cache_capacity(session_cache_max: u32) -> (r: usize)
    ensures
        r >= 1,
        r == if session_cache_max == 0 {
            1
        } else {
            session_cache_max as int
        },
{
    if session_cache_max == 0 {
        1
    } else {
        session_cache_max as usize
    }
}

} // verus!
