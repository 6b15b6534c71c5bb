//! A map from strings that keeps its keys in order, as the HMI's data maps
//! and update queues do: keys compare character by character, by code point.

use vstd::prelude::*;

verus! {

/// Whether `a` comes before `b`: at the first character where they differ
/// the one of `a` has the lower code point, or `a` is a proper prefix of `b`.
pub open spec fn key_lt(a: Seq<char>, b: Seq<char>) -> bool
    decreases a.len(),
{
    if a.len() == 0 {
        b.len() > 0
    } else if b.len() == 0 {
        false
    } else if a[0] != b[0] {
        (a[0] as int) < (b[0] as int)
    } else {
        key_lt(a.drop_first(), b.drop_first())
    }
}

/// Keys in strictly increasing order.
pub open spec fn keys_increasing<V>(s: Seq<(String, V)>) -> bool {
    forall|i: int, j: int| 0 <= i < j < s.len() ==> key_lt(s[i].0@, s[j].0@)
}

/// A position of key `k` in a list of entries, where it occurs.
pub open spec fn index_of_key<V>(s: Seq<(String, V)>, k: Seq<char>) -> int {
    choose|i: int| 0 <= i < s.len() && s[i].0@ == k
}

/// The map that an ordered list of entries stands for.
pub open spec fn listing_map<V>(s: Seq<(String, V)>) -> Map<Seq<char>, V> {
    Map::new(
        |k: Seq<char>| exists|i: int| 0 <= i < s.len() && s[i].0@ == k,
        |k: Seq<char>| s[index_of_key(s, k)].1,
    )
}

/// Whether `s` lists the entries of `m` in increasing key order.
pub open spec fn lists_in_order<V>(s: Seq<(String, V)>, m: Map<Seq<char>, V>) -> bool {
    &&& keys_increasing(s)
    &&& listing_map(s) == m
}

/// The entries of a list, each key taken as its characters.
pub open spec fn key_listing<V>(s: Seq<(String, V)>) -> Seq<(Seq<char>, V)> {
    s.map_values(|e: (String, V)| (e.0@, e.1))
}

/// An ordered list of entries after putting `v` under `k`: the entry of key
/// `k` is replaced, or a new one goes in before the first greater key.
pub open spec fn sorted_insert<V>(s: Seq<(Seq<char>, V)>, k: Seq<char>, v: V) -> Seq<(Seq<char>, V)>
    decreases s.len(),
{
    if s.len() == 0 {
        seq![(k, v)]
    } else if s[0].0 == k {
        seq![(k, v)] + s.drop_first()
    } else if key_lt(k, s[0].0) {
        seq![(k, v)] + s
    } else {
        seq![s[0]] + sorted_insert(s.drop_first(), k, v)
    }
}

/// The value of the first entry with key `k`, if there is one.
pub open spec fn listing_lookup<V>(s: Seq<(Seq<char>, V)>, k: Seq<char>) -> Option<V>
    decreases s.len(),
{
    if s.len() == 0 {
        None
    } else if s[0].0 == k {
        Some(s[0].1)
    } else {
        listing_lookup(s.drop_first(), k)
    }
}

/// Inserting at the first key that is not before `k`.
proof fn lemma_sorted_insert_at<V>(s: Seq<(Seq<char>, V)>, k: Seq<char>, v: V, p: int)
    requires
        0 <= p <= s.len(),
        forall|j: int| 0 <= j < p ==> key_lt(#[trigger] s[j].0, k),
        p < s.len() ==> !key_lt(s[p].0, k),
    ensures
        sorted_insert(s, k, v) == (if p < s.len() && s[p].0 == k {
            s.update(p, (k, v))
        } else {
            s.insert(p, (k, v))
        }),
    decreases s.len(),
{
    if s.len() == 0 {
        assert(s.insert(0, (k, v)) =~= seq![(k, v)]);
    } else if p == 0 {
        if s[0].0 == k {
            assert(seq![(k, v)] + s.drop_first() =~= s.update(0, (k, v)));
        } else {
            lemma_key_lt_total(k, s[0].0);
            assert(seq![(k, v)] + s =~= s.insert(0, (k, v)));
        }
    } else {
        assert(key_lt(s[0].0, k));
        lemma_key_lt_irreflexive(k);
        lemma_key_lt_asymmetric(s[0].0, k);
        let t = s.drop_first();
        assert forall|j: int| 0 <= j < p - 1 implies key_lt(#[trigger] t[j].0, k) by {
            assert(t[j] == s[j + 1]);
        }
        lemma_sorted_insert_at(t, k, v, p - 1);
        if p < s.len() && s[p].0 == k {
            assert(seq![s[0]] + t.update(p - 1, (k, v)) =~= s.update(p, (k, v)));
        } else {
            assert(seq![s[0]] + t.insert(p - 1, (k, v)) =~= s.insert(p, (k, v)));
        }
    }
}

/// Looking up a key in a list whose keys are increasing finds its entry.
proof fn lemma_listing_lookup_at<V>(s: Seq<(Seq<char>, V)>, k: Seq<char>, p: int)
    requires
        0 <= p <= s.len(),
        forall|j: int| 0 <= j < p ==> key_lt(#[trigger] s[j].0, k),
        forall|j: int| p < j < s.len() ==> key_lt(s[p].0, #[trigger] s[j].0),
        p < s.len() ==> !key_lt(s[p].0, k),
    ensures
        listing_lookup(s, k) == (if p < s.len() && s[p].0 == k {
            Some(s[p].1)
        } else {
            None::<V>
        }),
    decreases s.len(),
{
    lemma_key_lt_irreflexive(k);
    if s.len() == 0 {
    } else if p == 0 {
        if s[0].0 != k {
            lemma_key_lt_total(k, s[0].0);
            lemma_listing_lookup_absent(s.drop_first(), k, s[0].0);
        }
    } else {
        let t = s.drop_first();
        assert forall|j: int| 0 <= j < p - 1 implies key_lt(#[trigger] t[j].0, k) by {
            assert(t[j] == s[j + 1]);
        }
        assert forall|j: int| p - 1 < j < t.len() implies key_lt(t[p - 1].0, #[trigger] t[j].0) by {
            assert(t[j] == s[j + 1]);
        }
        lemma_listing_lookup_at(t, k, p - 1);
    }
}

/// No entry has key `k` when every key comes after `lo`, which comes after `k`.
proof fn lemma_listing_lookup_absent<V>(s: Seq<(Seq<char>, V)>, k: Seq<char>, lo: Seq<char>)
    requires
        key_lt(k, lo),
        forall|j: int| 0 <= j < s.len() ==> key_lt(lo, #[trigger] s[j].0),
    ensures
        listing_lookup(s, k) is None,
    decreases s.len(),
{
    if s.len() > 0 {
        lemma_key_lt_transitive(k, lo, s[0].0);
        lemma_key_lt_irreflexive(k);
        let t = s.drop_first();
        assert forall|j: int| 0 <= j < t.len() implies key_lt(lo, #[trigger] t[j].0) by {
            assert(t[j] == s[j + 1]);
        }
        lemma_listing_lookup_absent(t, k, lo);
    }
}

/// No key comes before itself.
pub proof fn lemma_key_lt_irreflexive(a: Seq<char>)
    ensures
        !key_lt(a, a),
    decreases a.len(),
{
    if a.len() > 0 {
        lemma_key_lt_irreflexive(a.drop_first());
    }
}

/// Of two different keys, one comes before the other.
pub proof fn lemma_key_lt_total(a: Seq<char>, b: Seq<char>)
    ensures
        a != b ==> key_lt(a, b) || key_lt(b, a),
    decreases a.len(),
{
    if a.len() > 0 && b.len() > 0 && a[0] == b[0] {
        lemma_key_lt_total(a.drop_first(), b.drop_first());
        if a.drop_first() == b.drop_first() {
            assert(a =~= seq![a[0]] + a.drop_first());
            assert(b =~= seq![b[0]] + b.drop_first());
        }
    } else if a.len() == 0 && b.len() == 0 {
        assert(a =~= b);
    }
}

/// Two keys are never each before the other.
pub proof fn lemma_key_lt_asymmetric(a: Seq<char>, b: Seq<char>)
    ensures
        key_lt(a, b) ==> !key_lt(b, a),
    decreases a.len(),
{
    if a.len() > 0 && b.len() > 0 && a[0] == b[0] {
        lemma_key_lt_asymmetric(a.drop_first(), b.drop_first());
    }
}

/// The order is transitive.
pub proof fn lemma_key_lt_transitive(a: Seq<char>, b: Seq<char>, c: Seq<char>)
    requires
        key_lt(a, b),
        key_lt(b, c),
    ensures
        key_lt(a, c),
    decreases a.len(),
{
    if a.len() > 0 && b.len() > 0 && c.len() > 0 && a[0] == b[0] && b[0] == c[0] {
        lemma_key_lt_transitive(a.drop_first(), b.drop_first(), c.drop_first());
    }
}

/// In a list with increasing keys, an entry's key occurs only there.
proof fn lemma_increasing_unique<V>(s: Seq<(String, V)>, i: int, j: int)
    requires
        keys_increasing(s),
        0 <= i < s.len(),
        0 <= j < s.len(),
        s[i].0@ == s[j].0@,
    ensures
        i == j,
{
    if i < j {
        lemma_key_lt_irreflexive(s[i].0@);
    } else if j < i {
        lemma_key_lt_irreflexive(s[i].0@);
    }
}

/// The map of an increasing list holds each entry's value under its key.
proof fn lemma_listing_at<V>(s: Seq<(String, V)>, i: int)
    requires
        keys_increasing(s),
        0 <= i < s.len(),
    ensures
        listing_map(s).contains_key(s[i].0@),
        listing_map(s)[s[i].0@] == s[i].1,
{
    let k = s[i].0@;
    assert(exists|j: int| 0 <= j < s.len() && s[j].0@ == k);
    let j = index_of_key(s, k);
    lemma_increasing_unique(s, i, j);
    assert(listing_map(s).contains_key(k));
}

/// Compares two keys in the order of `key_lt`.
pub fn str_lt(a: &str, b: &str) -> (r: bool)
    ensures
        r == key_lt(a@, b@),
{
    let n = a.unicode_len();
    let m = b.unicode_len();
    let mut i: usize = 0;
    assert(a@.subrange(0, n as int) =~= a@);
    assert(b@.subrange(0, m as int) =~= b@);
    while i < n && i < m
        invariant
            n == a@.len(),
            m == b@.len(),
            i <= n,
            i <= m,
            key_lt(a@, b@) == key_lt(a@.subrange(i as int, n as int), b@.subrange(i as int, m as int)),
        decreases n - i,
    {
        let x = a.get_char(i);
        let y = b.get_char(i);
        let ghost sa = a@.subrange(i as int, n as int);
        let ghost sb = b@.subrange(i as int, m as int);
        assert(sa[0] == x);
        assert(sb[0] == y);
        if x != y {
            return (x as u32) < (y as u32);
        }
        assert(sa.drop_first() =~= a@.subrange(i + 1, n as int));
        assert(sb.drop_first() =~= b@.subrange(i + 1, m as int));
        i = i + 1;
    }
    i == n && i < m
}

/// A map from strings that keeps its entries in increasing key order.
pub struct OrderedMap<V> {
    entries: Vec<(String, V)>,
}

impl<V> OrderedMap<V> {
    #[verifier::type_invariant]
    spec fn ordered(self) -> bool {
        keys_increasing(self.entries@)
    }

    /// The entries of the map.
    pub closed spec fn view(&self) -> Map<Seq<char>, V> {
        listing_map(self.entries@)
    }

    /// The entries in increasing key order.
    pub closed spec fn listing(&self) -> Seq<(String, V)> {
        self.entries@
    }

    /// The entries in increasing key order, each key taken as its characters.
    pub closed spec fn pairs(&self) -> Seq<(Seq<char>, V)> {
        key_listing(self.entries@)
    }

    /// An empty map.
    pub fn new() -> (r: OrderedMap<V>)
        ensures
            r.view() == Map::<Seq<char>, V>::empty(),
            r.pairs() == Seq::<(Seq<char>, V)>::empty(),
    {
        let r = OrderedMap { entries: Vec::new() };
        assert(r.view() =~= Map::<Seq<char>, V>::empty());
        assert(r.pairs() =~= Seq::<(Seq<char>, V)>::empty());
        r
    }

    /// The number of entries.
    pub fn len(&self) -> (r: usize)
        ensures
            r == self.listing().len(),
    {
        self.entries.len()
    }

    /// The position of the first entry whose key is not before `k`.
    fn position(&self, k: &str) -> (r: usize)
        ensures
            r <= self.entries@.len(),
            forall|j: int| 0 <= j < r ==> key_lt(#[trigger] self.entries@[j].0@, k@),
            r < self.entries@.len() ==> !key_lt(self.entries@[r as int].0@, k@),
    {
        let n = self.entries.len();
        let mut i: usize = 0;
        while i < n
            invariant
                n == self.entries@.len(),
                i <= n,
                forall|j: int| 0 <= j < i ==> key_lt(#[trigger] self.entries@[j].0@, k@),
            decreases n - i,
        {
            if !str_lt(self.entries[i].0.as_str(), k) {
                return i;
            }
            i = i + 1;
        }
        n
    }

    /// The value under key `k`, if there is one.
    pub fn get(&self, k: &str) -> (r: Option<&V>)
        ensures
            match r {
                Some(v) => self.view().contains_key(k@) && *v == self.view()[k@],
                None => !self.view().contains_key(k@),
            },
            match r {
                Some(v) => listing_lookup(self.pairs(), k@) == Some(*v),
                None => listing_lookup(self.pairs(), k@) is None,
            },
    {
        proof {
            use_type_invariant(self);
        }
        let p = self.position(k);
        proof {
            let ps = self.pairs();
            assert forall|j: int| 0 <= j < p implies key_lt(#[trigger] ps[j].0, k@) by {
                assert(ps[j].0 == self.entries@[j].0@);
            }
            assert forall|j: int| p < j < ps.len() implies key_lt(ps[p as int].0, #[trigger] ps[j].0) by {
                assert(ps[j].0 == self.entries@[j].0@);
            }
            lemma_listing_lookup_at(ps, k@, p as int);
        }
        if p < self.entries.len() && !str_lt(k, self.entries[p].0.as_str()) {
            proof {
                lemma_key_lt_total(k@, self.entries@[p as int].0@);
                lemma_listing_at(self.entries@, p as int);
            }
            return Some(&self.entries[p].1);
        }
        proof {
            let s = self.entries@;
            if self.view().contains_key(k@) {
                let j = choose|j: int| 0 <= j < s.len() && s[j].0@ == k@;
                if j < p {
                    lemma_key_lt_irreflexive(k@);
                } else {
                    if j > p {
                        lemma_key_lt_asymmetric(s[p as int].0@, k@);
                        lemma_key_lt_total(s[p as int].0@, k@);
                    }
                    lemma_key_lt_irreflexive(k@);
                }
            }
        }
        None
    }

    /// Puts `v` under key `k`, replacing the value that was there.
    pub fn insert(&mut self, k: String, v: V)
        ensures
            final(self).view() == old(self).view().insert(k@, v),
            final(self).pairs() == sorted_insert(old(self).pairs(), k@, v),
    {
        proof {
            use_type_invariant(&*self);
        }
        let p = self.position(k.as_str());
        let ghost s = self.entries@;
        let ghost kk = k@;
        let mut entries = Vec::new();
        std::mem::swap(&mut entries, &mut self.entries);
        let same = p < entries.len() && !str_lt(k.as_str(), entries[p].0.as_str());
        if same {
            proof {
                lemma_key_lt_total(kk, s[p as int].0@);
            }
            entries.set(p, (k, v));
        } else {
            entries.insert(p, (k, v));
        }
        proof {
            let t = entries@;
            if same {
                assert(t == s.update(p as int, t[p as int]));
            }
            assert forall|i: int, j: int| 0 <= i < j < t.len() implies key_lt(t[i].0@, t[j].0@) by {
                if same {
                    if i == p {
                        assert(key_lt(s[i].0@, s[j].0@));
                    } else if j == p {
                        assert(key_lt(s[i].0@, s[j].0@));
                    } else {
                        assert(key_lt(s[i].0@, s[j].0@));
                    }
                } else {
                    if i < p && j < p {
                        assert(t[i] == s[i] && t[j] == s[j]);
                    } else if i < p && j == p {
                        assert(t[i] == s[i]);
                    } else if i < p {
                        assert(t[i] == s[i] && t[j] == s[j - 1]);
                        assert(key_lt(s[i].0@, s[j - 1].0@));
                    } else if i == p {
                        assert(t[j] == s[j - 1]);
                        lemma_key_lt_total(kk, s[p as int].0@);
                        if j - 1 > p {
                            assert(key_lt(s[p as int].0@, s[j - 1].0@));
                            lemma_key_lt_transitive(kk, s[p as int].0@, s[j - 1].0@);
                        }
                    } else {
                        assert(t[i] == s[i - 1] && t[j] == s[j - 1]);
                        assert(key_lt(s[i - 1].0@, s[j - 1].0@));
                    }
                }
            }
            let m0 = listing_map(s);
            let m1 = listing_map(t);
            let want = m0.insert(kk, t[p as int].1);
            assert forall|q: Seq<char>| m1.contains_key(q) <==> want.contains_key(q) by {
                if m1.contains_key(q) {
                    let j = choose|j: int| 0 <= j < t.len() && t[j].0@ == q;
                    if j != p {
                        if same {
                            assert(t[j] == s[j]);
                        } else if j < p {
                            assert(t[j] == s[j]);
                        } else {
                            assert(t[j] == s[j - 1]);
                        }
                    }
                }
                if want.contains_key(q) && q != kk {
                    let j = choose|j: int| 0 <= j < s.len() && s[j].0@ == q;
                    if same {
                        assert(t[j] == s[j] || j == p);
                        if j == p {
                            lemma_key_lt_total(kk, s[p as int].0@);
                        }
                    } else if j < p {
                        assert(t[j] == s[j]);
                    } else {
                        assert(t[j + 1] == s[j]);
                    }
                }
                if q == kk {
                    assert(t[p as int].0@ == kk);
                }
            }
            assert forall|q: Seq<char>| m1.contains_key(q) implies m1[q] == want[q] by {
                let j = choose|j: int| 0 <= j < t.len() && t[j].0@ == q;
                lemma_listing_at(t, j);
                if q == kk {
                    lemma_increasing_unique(t, j, p as int);
                } else {
                    if same {
                        assert(t[j] == s[j]);
                        lemma_listing_at(s, j);
                    } else if j < p {
                        assert(t[j] == s[j]);
                        lemma_listing_at(s, j);
                    } else {
                        assert(t[j] == s[j - 1]);
                        lemma_listing_at(s, j - 1);
                    }
                }
            }
            assert(m1 =~= want);
            let ps = key_listing(s);
            assert forall|j: int| 0 <= j < p implies key_lt(#[trigger] ps[j].0, kk) by {
                assert(ps[j].0 == s[j].0@);
            }
            lemma_sorted_insert_at(ps, kk, t[p as int].1, p as int);
            if same {
                assert(key_listing(t) =~= ps.update(p as int, (kk, t[p as int].1)));
            } else {
                assert(key_listing(t) =~= ps.insert(p as int, (kk, t[p as int].1)));
            }
        }
        self.entries = entries;
    }

    /// The entries in increasing key order.
    pub fn entries(&self) -> (r: &Vec<(String, V)>)
        ensures
            r@ == self.listing(),
            key_listing(r@) == self.pairs(),
            lists_in_order(r@, self.view()),
    {
        proof {
            use_type_invariant(self);
        }
        &self.entries
    }

    /// The entries in increasing key order, taking the map apart.
    pub fn into_entries(self) -> (r: Vec<(String, V)>)
        ensures
            r@ == self.listing(),
            key_listing(r@) == self.pairs(),
            lists_in_order(r@, self.view()),
    {
        proof {
            use_type_invariant(&self);
        }
        self.entries
    }
}

/// Keys in strictly increasing order, each key taken as its characters.
pub open spec fn pairs_increasing<V>(s: Seq<(Seq<char>, V)>) -> bool {
    forall|i: int, j: int| 0 <= i < j < s.len() ==> key_lt(s[i].0, s[j].0)
}

/// A value put under a key is what a lookup of the key finds afterwards, and
/// lookups of other keys find what they found before.
pub proof fn law_lookup_after_insert<V>(s: Seq<(Seq<char>, V)>, k: Seq<char>, v: V, other: Seq<char>)
    ensures
        listing_lookup(sorted_insert(s, k, v), k) == Some(v),
        other != k ==> listing_lookup(sorted_insert(s, k, v), other) == listing_lookup(s, other),
    decreases s.len(),
{
    if s.len() == 0 {
        assert(seq![(k, v)].drop_first() =~= Seq::<(Seq<char>, V)>::empty());
        assert(listing_lookup(Seq::<(Seq<char>, V)>::empty(), other) is None);
    } else if s[0].0 == k {
        let t = seq![(k, v)] + s.drop_first();
        assert(t.drop_first() =~= s.drop_first());
        assert(t[0].0 == k);
    } else if key_lt(k, s[0].0) {
        let t = seq![(k, v)] + s;
        assert(t.drop_first() =~= s);
    } else {
        let t = seq![s[0]] + sorted_insert(s.drop_first(), k, v);
        assert(t.drop_first() =~= sorted_insert(s.drop_first(), k, v));
        law_lookup_after_insert(s.drop_first(), k, v, other);
    }
}

/// Inserting keeps the keys in increasing order.
pub proof fn law_insert_keeps_order<V>(s: Seq<(Seq<char>, V)>, k: Seq<char>, v: V)
    requires
        pairs_increasing(s),
    ensures
        pairs_increasing(sorted_insert(s, k, v)),
        forall|i: int|
            0 <= i < sorted_insert(s, k, v).len() ==> (#[trigger] sorted_insert(s, k, v)[i].0 == k
                || exists|j: int| 0 <= j < s.len() && s[j].0 == sorted_insert(s, k, v)[i].0),
    decreases s.len(),
{
    let r = sorted_insert(s, k, v);
    if s.len() == 0 {
    } else if s[0].0 == k {
        assert forall|i: int, j: int| 0 <= i < j < r.len() implies key_lt(r[i].0, r[j].0) by {
            assert(r[i].0 == s[i].0 && r[j].0 == s[j].0);
        }
        assert forall|i: int| 0 <= i < r.len() implies (#[trigger] r[i].0 == k || exists|j: int|
            0 <= j < s.len() && s[j].0 == r[i].0) by {
            assert(r[i].0 == s[i].0);
        }
    } else if key_lt(k, s[0].0) {
        assert forall|i: int, j: int| 0 <= i < j < r.len() implies key_lt(r[i].0, r[j].0) by {
            if i == 0 {
                assert(r[j].0 == s[j - 1].0);
                if j - 1 > 0 {
                    lemma_key_lt_transitive(k, s[0].0, s[j - 1].0);
                }
            } else {
                assert(r[i].0 == s[i - 1].0 && r[j].0 == s[j - 1].0);
            }
        }
        assert forall|i: int| 0 <= i < r.len() implies (#[trigger] r[i].0 == k || exists|j: int|
            0 <= j < s.len() && s[j].0 == r[i].0) by {
            if i > 0 {
                assert(r[i].0 == s[i - 1].0);
            }
        }
    } else {
        let t = s.drop_first();
        assert forall|i: int, j: int| 0 <= i < j < t.len() implies key_lt(t[i].0, t[j].0) by {
            assert(t[i] == s[i + 1] && t[j] == s[j + 1]);
        }
        law_insert_keeps_order(t, k, v);
        let rt = sorted_insert(t, k, v);
        lemma_key_lt_total(k, s[0].0);
        assert forall|i: int, j: int| 0 <= i < j < r.len() implies key_lt(r[i].0, r[j].0) by {
            if i == 0 {
                assert(r[j] == rt[j - 1]);
                if rt[j - 1].0 != k {
                    let m = choose|m: int| 0 <= m < t.len() && t[m].0 == rt[j - 1].0;
                    assert(t[m] == s[m + 1]);
                }
            } else {
                assert(r[i] == rt[i - 1] && r[j] == rt[j - 1]);
            }
        }
        assert forall|i: int| 0 <= i < r.len() implies (#[trigger] r[i].0 == k || exists|j: int|
            0 <= j < s.len() && s[j].0 == r[i].0) by {
            if i > 0 {
                assert(r[i] == rt[i - 1]);
                if rt[i - 1].0 != k {
                    let m = choose|m: int| 0 <= m < t.len() && t[m].0 == rt[i - 1].0;
                    assert(t[m] == s[m + 1]);
                }
            }
        }
    }
}

/// Every entry after an insertion is the inserted one or was there before.
pub proof fn lemma_sorted_insert_members<V>(s: Seq<(Seq<char>, V)>, k: Seq<char>, v: V)
    ensures
        forall|i: int|
            0 <= i < sorted_insert(s, k, v).len() ==> #[trigger] sorted_insert(s, k, v)[i] == (k, v)
                || exists|j: int| 0 <= j < s.len() && s[j] == sorted_insert(s, k, v)[i],
    decreases s.len(),
{
    let r = sorted_insert(s, k, v);
    if s.len() == 0 {
    } else if s[0].0 == k {
        assert forall|i: int| 0 <= i < r.len() implies #[trigger] r[i] == (k, v) || exists|j: int|
            0 <= j < s.len() && s[j] == r[i] by {
            if i > 0 {
                assert(r[i] == s[i]);
            }
        }
    } else if key_lt(k, s[0].0) {
        assert forall|i: int| 0 <= i < r.len() implies #[trigger] r[i] == (k, v) || exists|j: int|
            0 <= j < s.len() && s[j] == r[i] by {
            if i > 0 {
                assert(r[i] == s[i - 1]);
            }
        }
    } else {
        let t = s.drop_first();
        lemma_sorted_insert_members(t, k, v);
        let rt = sorted_insert(t, k, v);
        assert forall|i: int| 0 <= i < r.len() implies #[trigger] r[i] == (k, v) || exists|j: int|
            0 <= j < s.len() && s[j] == r[i] by {
            if i == 0 {
                assert(s[0] == r[0]);
            } else {
                assert(r[i] == rt[i - 1]);
                if rt[i - 1] != (k, v) {
                    let m = choose|m: int| 0 <= m < t.len() && t[m] == rt[i - 1];
                    assert(s[m + 1] == t[m]);
                }
            }
        }
    }
}

/// What a lookup finds is an entry of the list.
pub proof fn lemma_lookup_member<V>(s: Seq<(Seq<char>, V)>, k: Seq<char>)
    ensures
        listing_lookup(s, k) matches Some(v) ==> exists|j: int| 0 <= j < s.len() && s[j] == (k, v),
    decreases s.len(),
{
    if s.len() > 0 && s[0].0 != k {
        lemma_lookup_member(s.drop_first(), k);
        match listing_lookup(s, k) {
            Some(v) => {
                let j = choose|j: int| 0 <= j < s.drop_first().len() && s.drop_first()[j] == (k, v);
                assert(s[j + 1] == (k, v));
            },
            None => {},
        }
    } else if s.len() > 0 {
        assert(s[0] == (k, s[0].1));
    }
}

} // verus!
