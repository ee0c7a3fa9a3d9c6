//! A small association table from `u64` keys to values, backed by a vector
//! whose entries carry pairwise-distinct keys. It is the substrate for the
//! per-guild session map and the per-guild settings store: keeping the keys
//! distinct is what makes "at most one entry per key" an invariant rather
//! than a hope.
use vstd::prelude::*;

verus! {

/// The value stored beside the first occurrence of `key`, if any.
pub open spec fn seq_get<V>(s: Seq<(u64, V)>, key: u64) -> Option<V>
    decreases s.len(),
{
    if s.len() == 0 {
        None
    } else if s[0].0 == key {
        Some(s[0].1)
    } else {
        seq_get(s.drop_first(), key)
    }
}

/// No two entries of `s` share a key.
pub open spec fn distinct_keys<V>(s: Seq<(u64, V)>) -> bool {
    forall|i: int, j: int| 0 <= i < j < s.len() ==> s[i].0 != s[j].0
}

proof fn lemma_seq_get_none<V>(s: Seq<(u64, V)>, key: u64)
    ensures
        seq_get(s, key) is None <==> (forall|i: int| 0 <= i < s.len() ==> s[i].0 != key),
    decreases s.len(),
{
    if s.len() > 0 {
        lemma_seq_get_none(s.drop_first(), key);
        assert(forall|i: int| 1 <= i < s.len() ==> s[i] == s.drop_first()[i - 1]);
    }
}

proof fn lemma_seq_get_at<V>(s: Seq<(u64, V)>, key: u64, i: int)
    requires
        distinct_keys(s),
        0 <= i < s.len(),
        s[i].0 == key,
    ensures
        seq_get(s, key) == Some(s[i].1),
    decreases s.len(),
{
    if i > 0 {
        assert(distinct_keys(s.drop_first())) by {
            assert(forall|k: int| 0 <= k < s.len() - 1 ==> s.drop_first()[k] == s[k + 1]);
        }
        lemma_seq_get_at(s.drop_first(), key, i - 1);
    }
}

proof fn lemma_seq_get_some<V>(s: Seq<(u64, V)>, key: u64)
    requires
        seq_get(s, key) is Some,
    ensures
        exists|i: int|
            0 <= i < s.len() && s[i].0 == key && seq_get(s, key) == Some(s[i].1),
    decreases s.len(),
{
    if s.len() > 0 && s[0].0 != key {
        lemma_seq_get_some(s.drop_first(), key);
        let j: int = choose|j: int|
            0 <= j < s.drop_first().len() && s.drop_first()[j].0 == key && seq_get(
                s.drop_first(),
                key,
            ) == Some(s.drop_first()[j].1);
        assert(s[j + 1] == s.drop_first()[j]);
    }
}

/// An association table with pairwise-distinct keys.
pub struct Table<V> {
    entries: Vec<(u64, V)>,
}

impl<V> Table<V> {
    /// Well-formedness: no key occurs in two entries.
    pub closed spec fn wf(self) -> bool {
        distinct_keys(self.entries@)
    }

    /// The value stored under `key`, if any.
    pub closed spec fn spec_get(self, key: u64) -> Option<V> {
        seq_get(self.entries@, key)
    }

    /// Whether `key` has an entry.
    pub open spec fn contains(self, key: u64) -> bool {
        self.spec_get(key) is Some
    }

    /// The keys of the table, in storage order.
    pub closed spec fn key_seq(self) -> Seq<u64> {
        self.entries@.map_values(|e: (u64, V)| e.0)
    }

    /// A well-formed table holds at most one entry per key: two positions
    /// carrying the same key are the same position.
    pub proof fn lemma_keys_distinct(self, i: int, j: int)
        requires
            self.wf(),
            0 <= i < self.key_seq().len(),
            0 <= j < self.key_seq().len(),
            self.key_seq()[i] == self.key_seq()[j],
        ensures
            i == j,
    {
    }

    /// A key has an entry exactly when it occurs among the keys.
    pub proof fn lemma_contains_iff_key(self, key: u64)
        ensures
            self.contains(key) <==> self.key_seq().contains(key),
    {
        lemma_seq_get_none(self.entries@, key);
        if self.contains(key) {
            lemma_seq_get_some(self.entries@, key);
            let i: int = choose|i: int|
                0 <= i < self.entries@.len() && self.entries@[i].0 == key && seq_get(
                    self.entries@,
                    key,
                ) == Some(self.entries@[i].1);
            assert(self.key_seq()[i] == key);
        }
        if self.key_seq().contains(key) {
            let i: int = choose|i: int| 0 <= i < self.key_seq().len() && self.key_seq()[i] == key;
            assert(self.entries@[i].0 == key);
        }
    }

    /// An empty table.
    pub fn new() -> (t: Table<V>)
        ensures
            t.wf(),
            forall|k: u64| t.spec_get(k) is None,
    {
        Table { entries: Vec::new() }
    }

    /// Borrows the value stored under `key`.
    pub fn get(&self, key: u64) -> (r: Option<&V>)
        requires
            self.wf(),
        ensures
            match r {
                Some(v) => self.spec_get(key) == Some(*v),
                None => self.spec_get(key) is None,
            },
    {
        let n: usize = self.entries.len();
        let mut i: usize = 0;
        while i < n
            invariant
                n == self.entries.len(),
                i <= n,
                self.wf(),
                forall|j: int| 0 <= j < i ==> self.entries@[j].0 != key,
            decreases n - i,
        {
            if self.entries[i].0 == key {
                proof {
                    lemma_seq_get_at(self.entries@, key, i as int);
                }
                return Some(&self.entries[i].1);
            }
            i += 1;
        }
        proof {
            lemma_seq_get_none(self.entries@, key);
        }
        None
    }

    /// The keys of the table, in storage order.
    pub fn keys(&self) -> (r: Vec<u64>)
        ensures
            r@ == self.key_seq(),
    {
        let n: usize = self.entries.len();
        let mut r: Vec<u64> = Vec::new();
        let mut i: usize = 0;
        while i < n
            invariant
                n == self.entries.len(),
                i <= n,
                r@ == self.key_seq().take(i as int),
            decreases n - i,
        {
            r.push(self.entries[i].0);
            proof {
                assert(r@ =~= self.key_seq().take(i + 1));
            }
            i += 1;
        }
        proof {
            assert(self.key_seq().take(n as int) =~= self.key_seq());
        }
        r
    }

    /// Whether the table holds an entry for `key`.
    pub fn contains_key(&self, key: u64) -> (r: bool)
        requires
            self.wf(),
        ensures
            r == self.contains(key),
    {
        self.get(key).is_some()
    }

    /// Removes the entry for `key`, handing its value back.
    pub fn take(&mut self, key: u64) -> (r: Option<V>)
        requires
            old(self).wf(),
        ensures
            final(self).wf(),
            r == old(self).spec_get(key),
            final(self).spec_get(key) is None,
            forall|k2: u64| k2 != key ==> final(self).spec_get(k2) == old(self).spec_get(k2),
    {
        let n: usize = self.entries.len();
        let mut i: usize = 0;
        while i < n
            invariant
                n == self.entries.len(),
                i <= n,
                self.wf(),
                self.entries@ == old(self).entries@,
                forall|j: int| 0 <= j < i ==> self.entries@[j].0 != key,
            decreases n - i,
        {
            if self.entries[i].0 == key {
                let ghost olds = self.entries@;
                let e = self.entries.remove(i);
                proof {
                    lemma_take_removed(olds, self.entries@, key, i as int);
                }
                return Some(e.1);
            }
            i += 1;
        }
        proof {
            lemma_seq_get_none(self.entries@, key);
        }
        None
    }

    /// Stores `value` under `key`, replacing any earlier entry for `key`.
    pub fn insert(&mut self, key: u64, value: V)
        requires
            old(self).wf(),
        ensures
            final(self).wf(),
            final(self).spec_get(key) == Some(value),
            forall|k2: u64| k2 != key ==> final(self).spec_get(k2) == old(self).spec_get(k2),
    {
        let _ = self.take(key);
        let ghost mids = self.entries@;
        self.entries.push((key, value));
        proof {
            lemma_seq_get_none(mids, key);
            assert(distinct_keys(self.entries@)) by {
                assert(forall|j: int| 0 <= j < mids.len() ==> self.entries@[j] == mids[j]);
            }
            assert forall|k2: u64| #[trigger] seq_get(self.entries@, k2) == (if k2 == key {
                Some(value)
            } else {
                seq_get(mids, k2)
            }) by {
                lemma_seq_get_push(mids, (key, value), k2);
            }
        }
    }
}

proof fn lemma_seq_get_push<V>(s: Seq<(u64, V)>, e: (u64, V), key: u64)
    ensures
        seq_get(s.push(e), key) == (if seq_get(s, key) is Some {
            seq_get(s, key)
        } else if e.0 == key {
            Some(e.1)
        } else {
            None
        }),
    decreases s.len(),
{
    if s.len() == 0 {
        assert(s.push(e)[0] == e);
        assert(s.push(e).drop_first() =~= Seq::<(u64, V)>::empty());
        assert(seq_get(s, key) is None);
        assert(seq_get(Seq::<(u64, V)>::empty(), key) is None);
    } else {
        assert(s.push(e)[0] == s[0]);
        assert(s.push(e).len() == s.len() + 1);
        assert(s.push(e).drop_first() =~= s.drop_first().push(e));
        lemma_seq_get_push(s.drop_first(), e, key);
        if s[0].0 == key {
            assert(seq_get(s.push(e), key) == Some(s[0].1));
            assert(seq_get(s, key) == Some(s[0].1));
        } else {
            assert(seq_get(s.push(e), key) == seq_get(s.drop_first().push(e), key));
            assert(seq_get(s, key) == seq_get(s.drop_first(), key));
        }
    }
}

proof fn lemma_take_removed<V>(olds: Seq<(u64, V)>, news: Seq<(u64, V)>, key: u64, i: int)
    requires
        distinct_keys(olds),
        0 <= i < olds.len(),
        olds[i].0 == key,
        news == olds.remove(i),
    ensures
        distinct_keys(news),
        seq_get(olds, key) == Some(olds[i].1),
        seq_get(news, key) is None,
        forall|k2: u64| k2 != key ==> seq_get(news, k2) == seq_get(olds, k2),
{
    olds.remove_ensures(i);
    lemma_seq_get_at(olds, key, i);
    assert(distinct_keys(news)) by {
        assert forall|p: int, q: int| 0 <= p < q < news.len() implies news[p].0 != news[q].0 by {
            let p0: int = if p < i { p } else { p + 1 };
            let q0: int = if q < i { q } else { q + 1 };
            assert(news[p] == olds[p0]);
            assert(news[q] == olds[q0]);
        }
    }
    assert(seq_get(news, key) is None) by {
        lemma_seq_get_none(news, key);
        assert forall|j: int| 0 <= j < news.len() implies news[j].0 != key by {
            let j0: int = if j < i { j } else { j + 1 };
            assert(news[j] == olds[j0]);
        }
    }
    assert forall|k2: u64| k2 != key implies seq_get(news, k2) == seq_get(olds, k2) by {
        lemma_seq_get_none(olds, k2);
        lemma_seq_get_none(news, k2);
        if seq_get(olds, k2) is Some {
            lemma_seq_get_some(olds, k2);
            let j: int = choose|j: int|
                0 <= j < olds.len() && olds[j].0 == k2 && seq_get(olds, k2) == Some(olds[j].1);
            let j2: int = if j < i { j } else { j - 1 };
            assert(news[j2] == olds[j]);
            lemma_seq_get_at(news, k2, j2);
        } else {
            assert forall|j: int| 0 <= j < news.len() implies news[j].0 != k2 by {
                let j0: int = if j < i { j } else { j + 1 };
                assert(news[j] == olds[j0]);
            }
        }
    }
}

} // verus!
