//! A keyed store of non-negative integers with a default of zero.
//!
//! The vault keeps two of these: per-identity share balances and
//! per-identity nonces. A `Ledger` behaves like the host's key-value
//! entries for one key class: reading an absent key yields zero, and
//! writing binds exactly one entry per key.

use vstd::prelude::*;

verus! {

/// Sum of the values held by a sequence of `(key, value)` entries.
pub open spec fn sum_values(s: Seq<(u64, u128)>) -> int
    decreases s.len(),
{
    if s.len() == 0 {
        0
    } else {
        sum_values(s.drop_last()) + s.last().1
    }
}

/// The value bound to `id`, or zero when no entry carries `id`.
pub open spec fn lookup(s: Seq<(u64, u128)>, id: u64) -> u128
    decreases s.len(),
{
    if s.len() == 0 {
        0u128
    } else if s.last().0 == id {
        s.last().1
    } else {
        lookup(s.drop_last(), id)
    }
}

/// No two entries share a key.
pub open spec fn distinct_keys(s: Seq<(u64, u128)>) -> bool {
    forall|i: int, j: int| 0 <= i < j < s.len() ==> s[i].0 != s[j].0
}

pub proof fn lemma_sum_nonneg(s: Seq<(u64, u128)>)
    ensures
        sum_values(s) >= 0,
    decreases s.len(),
{
    if s.len() > 0 {
        lemma_sum_nonneg(s.drop_last());
    }
}

proof fn lemma_distinct_drop_last(s: Seq<(u64, u128)>)
    requires
        distinct_keys(s),
        s.len() > 0,
    ensures
        distinct_keys(s.drop_last()),
{
    assert forall|i: int, j: int|
        0 <= i < j < s.drop_last().len() implies s.drop_last()[i].0 != s.drop_last()[j].0 by {
        assert(s.drop_last()[i] == s[i]);
        assert(s.drop_last()[j] == s[j]);
    }
}

/// The entry at index `i` is what `lookup` finds for its key.
proof fn lemma_lookup_at(s: Seq<(u64, u128)>, i: int)
    requires
        distinct_keys(s),
        0 <= i < s.len(),
    ensures
        lookup(s, s[i].0) == s[i].1,
    decreases s.len(),
{
    if i < s.len() - 1 {
        lemma_distinct_drop_last(s);
        assert(s.drop_last()[i] == s[i]);
        lemma_lookup_at(s.drop_last(), i);
    }
}

/// A key carried by no entry looks up to zero.
proof fn lemma_lookup_absent(s: Seq<(u64, u128)>, id: u64)
    requires
        forall|k: int| 0 <= k < s.len() ==> s[k].0 != id,
    ensures
        lookup(s, id) == 0,
    decreases s.len(),
{
    if s.len() > 0 {
        lemma_lookup_absent(s.drop_last(), id);
    }
}

/// Rewriting the value at index `i` moves that key's lookup to the new
/// value and leaves every other key's lookup alone.
proof fn lemma_lookup_update(s: Seq<(u64, u128)>, i: int, v: u128, id: u64)
    requires
        distinct_keys(s),
        0 <= i < s.len(),
    ensures
        lookup(s.update(i, (s[i].0, v)), id) == if id == s[i].0 {
            v
        } else {
            lookup(s, id)
        },
    decreases s.len(),
{
    let t = s.update(i, (s[i].0, v));
    if i == s.len() - 1 {
        assert(t.drop_last() =~= s.drop_last());
    } else {
        assert(t.last() == s.last());
        assert(t.drop_last() =~= s.drop_last().update(i, (s[i].0, v)));
        lemma_distinct_drop_last(s);
        assert(s.drop_last()[i] == s[i]);
        lemma_lookup_update(s.drop_last(), i, v, id);
    }
}

/// Rewriting the value at index `i` shifts the sum by exactly the
/// difference of new and old value.
proof fn lemma_sum_update(s: Seq<(u64, u128)>, i: int, v: u128)
    requires
        0 <= i < s.len(),
    ensures
        sum_values(s.update(i, (s[i].0, v))) == sum_values(s) - s[i].1 + v,
    decreases s.len(),
{
    let t = s.update(i, (s[i].0, v));
    if i == s.len() - 1 {
        assert(t.drop_last() =~= s.drop_last());
    } else {
        assert(t.last() == s.last());
        assert(t.drop_last() =~= s.drop_last().update(i, (s[i].0, v)));
        lemma_sum_update(s.drop_last(), i, v);
    }
}

/// Under distinct keys, no single value exceeds the sum of all values.
pub proof fn lemma_lookup_le_sum(s: Seq<(u64, u128)>, id: u64)
    requires
        distinct_keys(s),
    ensures
        lookup(s, id) <= sum_values(s),
    decreases s.len(),
{
    if s.len() > 0 {
        lemma_distinct_drop_last(s);
        lemma_lookup_le_sum(s.drop_last(), id);
        lemma_sum_nonneg(s.drop_last());
    }
}

/// A flat store of `u128` values keyed by `u64` identities, where an
/// absent key reads as zero.
pub struct Ledger {
    entries: Vec<(u64, u128)>,
}

impl View for Ledger {
    type V = Seq<(u64, u128)>;

    closed spec fn view(&self) -> Seq<(u64, u128)> {
        self.entries@
    }
}

impl Ledger {
    /// Well-formed: each key is bound at most once.
    pub open spec fn wf(self) -> bool {
        distinct_keys(self@)
    }

    /// The value stored under `id`, zero when unset.
    pub open spec fn spec_get(self, id: u64) -> u128 {
        lookup(self@, id)
    }

    /// The sum of all stored values.
    pub open spec fn total(self) -> int {
        sum_values(self@)
    }

    /// An empty store: every key reads as zero.
    pub fn new() -> (r: Ledger)
        ensures
            r.wf(),
            r.total() == 0,
            forall|id: u64| r.spec_get(id) == 0,
    {
        let r = Ledger { entries: Vec::new() };
        proof {
            assert forall|id: u64| r.spec_get(id) == 0 by {
                lemma_lookup_absent(r@, id);
            }
        }
        r
    }

    /// The index of the entry carrying `id`, if one exists.
    fn find(&self, id: u64) -> (r: Option<usize>)
        ensures
            match r {
                Some(i) => i < self@.len() && self@[i as int].0 == id,
                None => forall|k: int| 0 <= k < self@.len() ==> self@[k].0 != id,
            },
    {
        let mut i: usize = 0;
        while i < self.entries.len()
            invariant
                i <= self@.len(),
                forall|k: int| 0 <= k < i ==> self@[k].0 != id,
            decreases self@.len() - i,
        {
            if self.entries[i].0 == id {
                return Some(i);
            }
            i = i + 1;
        }
        None
    }

    /// Read the value stored under `id`, zero when unset.
    pub fn get(&self, id: u64) -> (v: u128)
        requires
            self.wf(),
        ensures
            v == self.spec_get(id),
    {
        match self.find(id) {
            Some(i) => {
                proof {
                    lemma_lookup_at(self@, i as int);
                }
                self.entries[i].1
            },
            None => {
                proof {
                    lemma_lookup_absent(self@, id);
                }
                0
            },
        }
    }

    /// Bind `id` to `v`, replacing any earlier binding.
    pub fn set(&mut self, id: u64, v: u128)
        requires
            old(self).wf(),
        ensures
            final(self).wf(),
            final(self).spec_get(id) == v,
            forall|o: u64| o != id ==> final(self).spec_get(o) == old(self).spec_get(o),
            final(self).total() == old(self).total() - old(self).spec_get(id) + v,
    {
        match self.find(id) {
            Some(i) => {
                proof {
                    lemma_lookup_at(self@, i as int);
                    lemma_sum_update(self@, i as int, v);
                    assert forall|o: u64|
                        lookup(self@.update(i as int, (id, v)), o) == if o == id {
                            v
                        } else {
                            lookup(self@, o)
                        } by {
                        lemma_lookup_update(self@, i as int, v, o);
                    }
                    let t = self@.update(i as int, (id, v));
                    assert forall|a: int, b: int|
                        0 <= a < b < t.len() implies t[a].0 != t[b].0 by {
                        assert(t[a].0 == self@[a].0);
                        assert(t[b].0 == self@[b].0);
                    }
                }
                self.entries[i] = (id, v);
            },
            None => {
                proof {
                    lemma_lookup_absent(self@, id);
                    let t = self@.push((id, v));
                    assert(t.drop_last() =~= self@);
                    assert forall|a: int, b: int|
                        0 <= a < b < t.len() implies t[a].0 != t[b].0 by {
                        if b < t.len() - 1 {
                            assert(t[a].0 == self@[a].0);
                            assert(t[b].0 == self@[b].0);
                        } else {
                            assert(t[a].0 == self@[a].0);
                        }
                    }
                }
                self.entries.push((id, v));
            },
        }
    }
}

} // verus!
