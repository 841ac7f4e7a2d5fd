//! Per-party ledgers: a keyed table of amounts, and a set of identities.
//!
//! A `Ledger` maps each party to a cumulative amount and is the shape of the
//! contribution, purchase and claim tables of a launch.  Its model is the
//! sequence of its entries, with `seq_lookup` (the amount of a key, zero when
//! absent) and `seq_total` (the sum of all amounts) as the spec vocabulary
//! that the launch invariants are written in.

use vstd::prelude::*;

verus! {

use crate::types::{ActorId, Amount};

/// The amount recorded for `k`: the value of its first entry, or zero when no
/// entry carries the key.
pub open spec fn seq_lookup(s: Seq<(ActorId, Amount)>, k: ActorId) -> Amount
    decreases s.len(),
{
    if s.len() == 0 {
        0
    } else if s[0].0 == k {
        s[0].1
    } else {
        seq_lookup(s.drop_first(), k)
    }
}

/// Whether some entry carries the key `k`.
pub open spec fn seq_has_key(s: Seq<(ActorId, Amount)>, k: ActorId) -> bool {
    exists|i: int| 0 <= i < s.len() && s[i].0 == k
}

/// The sum of all recorded amounts.
pub open spec fn seq_total(s: Seq<(ActorId, Amount)>) -> int
    decreases s.len(),
{
    if s.len() == 0 {
        0
    } else {
        s[0].1 + seq_total(s.drop_first())
    }
}

/// No key is carried by two entries.
pub open spec fn distinct_keys(s: Seq<(ActorId, Amount)>) -> bool {
    forall|i: int, j: int| 0 <= i < j < s.len() ==> s[i].0 != s[j].0
}

/// Dropping the first entry keeps the keys distinct.
proof fn lemma_distinct_drop_first(s: Seq<(ActorId, Amount)>)
    requires
        s.len() > 0,
        distinct_keys(s),
    ensures
        distinct_keys(s.drop_first()),
{
    assert forall|i: int, j: int| 0 <= i < j < s.drop_first().len() implies s.drop_first()[i].0
        != s.drop_first()[j].0 by {
        assert(s.drop_first()[i] == s[i + 1]);
        assert(s.drop_first()[j] == s[j + 1]);
    }
}

/// The lookup of a key equals the value of its earliest entry.
proof fn lemma_lookup_first(s: Seq<(ActorId, Amount)>, i: int, k: ActorId)
    requires
        0 <= i < s.len(),
        s[i].0 == k,
        forall|j: int| 0 <= j < i ==> s[j].0 != k,
    ensures
        seq_lookup(s, k) == s[i].1,
        seq_has_key(s, k),
    decreases i,
{
    if i > 0 {
        assert(s.drop_first()[i - 1] == s[i]);
        assert forall|j: int| 0 <= j < i - 1 implies s.drop_first()[j].0 != k by {
            assert(s.drop_first()[j] == s[j + 1]);
        }
        lemma_lookup_first(s.drop_first(), i - 1, k);
    }
}

/// A key without an entry looks up to zero.
proof fn lemma_lookup_absent(s: Seq<(ActorId, Amount)>, k: ActorId)
    requires
        !seq_has_key(s, k),
    ensures
        seq_lookup(s, k) == 0,
    decreases s.len(),
{
    if s.len() > 0 {
        assert(s[0].0 != k);
        assert forall|i: int| 0 <= i < s.drop_first().len() implies s.drop_first()[i].0 != k by {
            assert(s.drop_first()[i] == s[i + 1]);
        }
        lemma_lookup_absent(s.drop_first(), k);
    }
}

/// The sum of amounts is never negative.
pub proof fn lemma_total_nonneg(s: Seq<(ActorId, Amount)>)
    ensures
        seq_total(s) >= 0,
    decreases s.len(),
{
    if s.len() > 0 {
        lemma_total_nonneg(s.drop_first());
    }
}

/// No single amount exceeds the sum of all amounts.
pub proof fn lemma_lookup_le_total(s: Seq<(ActorId, Amount)>, k: ActorId)
    ensures
        seq_lookup(s, k) <= seq_total(s),
    decreases s.len(),
{
    if s.len() == 0 {
    } else if s[0].0 == k {
        lemma_total_nonneg(s.drop_first());
    } else {
        lemma_lookup_le_total(s.drop_first(), k);
    }
}

/// A present key of a table of positive amounts looks up to a positive
/// amount.
pub proof fn lemma_lookup_positive(s: Seq<(ActorId, Amount)>, k: ActorId)
    requires
        seq_has_key(s, k),
        forall|i: int| 0 <= i < s.len() ==> s[i].1 > 0,
    ensures
        seq_lookup(s, k) > 0,
    decreases s.len(),
{
    if s[0].0 == k {
    } else {
        let j = choose|j: int| 0 <= j < s.len() && s[j].0 == k;
        assert(j != 0);
        assert(s.drop_first()[j - 1] == s[j]);
        assert(seq_has_key(s.drop_first(), k));
        assert forall|i: int| 0 <= i < s.drop_first().len() implies s.drop_first()[i].1 > 0 by {
            assert(s.drop_first()[i] == s[i + 1]);
        }
        lemma_lookup_positive(s.drop_first(), k);
    }
}

/// Replacing the entry at `i` shifts the sum by the difference of the values.
proof fn lemma_total_update(s: Seq<(ActorId, Amount)>, i: int, v: (ActorId, Amount))
    requires
        0 <= i < s.len(),
    ensures
        seq_total(s.update(i, v)) == seq_total(s) - s[i].1 + v.1,
    decreases i,
{
    let t = s.update(i, v);
    if i == 0 {
        assert(t[0] == v);
        assert(t.drop_first() =~= s.drop_first());
    } else {
        assert(t[0] == s[0]);
        assert(t.drop_first() =~= s.drop_first().update(i - 1, v));
        lemma_total_update(s.drop_first(), i - 1, v);
    }
}

/// Replacing the entry at `i` while keeping its key changes only that key's
/// lookup.
proof fn lemma_lookup_update(s: Seq<(ActorId, Amount)>, i: int, v: (ActorId, Amount), k: ActorId)
    requires
        0 <= i < s.len(),
        distinct_keys(s),
        s[i].0 == v.0,
    ensures
        seq_lookup(s.update(i, v), k) == if k == v.0 {
            v.1
        } else {
            seq_lookup(s, k)
        },
    decreases i,
{
    let t = s.update(i, v);
    if i == 0 {
        assert(t[0] == v);
        assert(t.drop_first() =~= s.drop_first());
    } else {
        assert(t[0] == s[0]);
        assert(t.drop_first() =~= s.drop_first().update(i - 1, v));
        lemma_distinct_drop_first(s);
        assert(s.drop_first()[i - 1] == s[i]);
        lemma_lookup_update(s.drop_first(), i - 1, v, k);
    }
}

/// Appending an entry adds its value to the sum.
proof fn lemma_total_push(s: Seq<(ActorId, Amount)>, p: (ActorId, Amount))
    ensures
        seq_total(s.push(p)) == seq_total(s) + p.1,
    decreases s.len(),
{
    let t = s.push(p);
    if s.len() == 0 {
        assert(t[0] == p);
        assert(t.drop_first() =~= Seq::<(ActorId, Amount)>::empty());
        assert(seq_total(Seq::<(ActorId, Amount)>::empty()) == 0);
    } else {
        assert(t[0] == s[0]);
        assert(t.drop_first() =~= s.drop_first().push(p));
        lemma_total_push(s.drop_first(), p);
    }
}

/// Appending an entry leaves the lookup of every other key alone, and sets
/// the appended key's lookup when that key was absent.
proof fn lemma_lookup_push(s: Seq<(ActorId, Amount)>, p: (ActorId, Amount), k: ActorId)
    ensures
        k != p.0 ==> seq_lookup(s.push(p), k) == seq_lookup(s, k),
        (k == p.0 && !seq_has_key(s, k)) ==> seq_lookup(s.push(p), k) == p.1,
    decreases s.len(),
{
    let t = s.push(p);
    if s.len() == 0 {
        assert(t[0] == p);
        assert(t.drop_first() =~= Seq::<(ActorId, Amount)>::empty());
        assert(seq_lookup(Seq::<(ActorId, Amount)>::empty(), k) == 0);
    } else {
        assert(t[0] == s[0]);
        assert(t.drop_first() =~= s.drop_first().push(p));
        if k == p.0 && !seq_has_key(s, k) {
            assert(s[0].0 != k);
            assert forall|j: int| 0 <= j < s.drop_first().len() implies s.drop_first()[j].0
                != k by {
                assert(s.drop_first()[j] == s[j + 1]);
            }
        }
        lemma_lookup_push(s.drop_first(), p, k);
    }
}

/// Removing the entry at `i` subtracts its value from the sum.
proof fn lemma_total_remove(s: Seq<(ActorId, Amount)>, i: int)
    requires
        0 <= i < s.len(),
    ensures
        seq_total(s.remove(i)) == seq_total(s) - s[i].1,
    decreases i,
{
    let t = s.remove(i);
    if i == 0 {
        assert(t =~= s.drop_first());
    } else {
        assert(t[0] == s[0]);
        assert(t.drop_first() =~= s.drop_first().remove(i - 1));
        assert(s.drop_first()[i - 1] == s[i]);
        lemma_total_remove(s.drop_first(), i - 1);
    }
}

/// Removing the entry of a key erases exactly that key.
proof fn lemma_lookup_remove(s: Seq<(ActorId, Amount)>, i: int, k: ActorId)
    requires
        0 <= i < s.len(),
        distinct_keys(s),
    ensures
        k != s[i].0 ==> seq_lookup(s.remove(i), k) == seq_lookup(s, k),
        k != s[i].0 ==> (seq_has_key(s.remove(i), k) == seq_has_key(s, k)),
        !seq_has_key(s.remove(i), s[i].0),
        distinct_keys(s.remove(i)),
{
    let t = s.remove(i);
    assert forall|j: int| 0 <= j < t.len() implies t[j] == (if j < i {
        s[j]
    } else {
        s[j + 1]
    }) by {}
    assert(distinct_keys(t)) by {
        assert forall|a: int, b: int| 0 <= a < b < t.len() implies t[a].0 != t[b].0 by {
            let a2 = if a < i { a } else { a + 1 };
            let b2 = if b < i { b } else { b + 1 };
            assert(t[a] == s[a2] && t[b] == s[b2]);
        }
    }
    assert(!seq_has_key(t, s[i].0)) by {
        if seq_has_key(t, s[i].0) {
            let j = choose|j: int| 0 <= j < t.len() && t[j].0 == s[i].0;
            let j2 = if j < i { j } else { j + 1 };
            assert(s[j2].0 == s[i].0 && j2 != i);
        }
    }
    if k != s[i].0 {
        if seq_has_key(s, k) {
            let j = choose|j: int| 0 <= j < s.len() && s[j].0 == k;
            let j2 = if j < i { j } else { j - 1 };
            assert(t[j2].0 == k);
            assert(seq_has_key(t, k));
            // the lookup of k in both sequences is the value at its unique key
            assert forall|a: int| 0 <= a < j2 implies t[a].0 != k by {
                let a2 = if a < i { a } else { a + 1 };
                assert(t[a] == s[a2]);
                if s[a2].0 == k {
                    assert(a2 != j);
                }
            }
            assert forall|a: int| 0 <= a < j implies s[a].0 != k by {
                if s[a].0 == k {
                }
            }
            lemma_lookup_first(s, j, k);
            lemma_lookup_first(t, j2, k);
        } else {
            assert(!seq_has_key(t, k)) by {
                if seq_has_key(t, k) {
                    let j = choose|j: int| 0 <= j < t.len() && t[j].0 == k;
                    let j2 = if j < i { j } else { j + 1 };
                    assert(s[j2].0 == k);
                }
            }
            lemma_lookup_absent(s, k);
            lemma_lookup_absent(t, k);
        }
    }
}

/// Scans for the earliest entry of a key.
fn find_index(v: &Vec<(ActorId, Amount)>, k: ActorId) -> (r: Option<usize>)
    ensures
        match r {
            Some(i) => 0 <= i < v@.len() && v@[i as int].0 == k && (forall|j: int|
                0 <= j < i ==> v@[j].0 != k),
            None => !seq_has_key(v@, k),
        },
{
    let mut i: usize = 0;
    while i < v.len()
        invariant
            i <= v@.len(),
            forall|j: int| 0 <= j < i ==> v@[j].0 != k,
        decreases v@.len() - i,
    {
        if v[i].0 == k {
            return Some(i);
        }
        i += 1;
    }
    None
}

/// A keyed table of cumulative amounts, one entry per party.
pub struct Ledger {
    pub entries: Vec<(ActorId, Amount)>,
}

impl Ledger {
    /// Each party has at most one entry.
    pub open spec fn wf(&self) -> bool {
        distinct_keys(self.entries@)
    }

    /// The amount recorded for `k`, zero when absent.
    pub open spec fn spec_amount(&self, k: ActorId) -> Amount {
        seq_lookup(self.entries@, k)
    }

    /// Whether `k` has an entry.
    pub open spec fn spec_has(&self, k: ActorId) -> bool {
        seq_has_key(self.entries@, k)
    }

    /// The sum of all recorded amounts.
    pub open spec fn total(&self) -> int {
        seq_total(self.entries@)
    }

    /// The number of entries.
    pub open spec fn spec_len(&self) -> nat {
        self.entries@.len()
    }

    /// Every recorded amount is positive.
    pub open spec fn all_positive(&self) -> bool {
        forall|i: int| 0 <= i < self.entries@.len() ==> self.entries@[i].1 > 0
    }

    /// An empty ledger.
    pub fn new() -> (r: Self)
        ensures
            r.wf(),
            r.all_positive(),
            r.spec_len() == 0,
            r.total() == 0,
            forall|k: ActorId| !r.spec_has(k),
            forall|k: ActorId| r.spec_amount(k) == 0,
    {
        let r = Ledger { entries: Vec::new() };
        proof {
            assert forall|k: ActorId| r.spec_amount(k) == 0 by {
                lemma_lookup_absent(r.entries@, k);
            }
        }
        r
    }

    /// The amount recorded for `k`, zero when absent.
    pub fn get(&self, k: ActorId) -> (r: Amount)
        ensures
            r == self.spec_amount(k),
    {
        match find_index(&self.entries, k) {
            Some(i) => {
                proof {
                    lemma_lookup_first(self.entries@, i as int, k);
                }
                self.entries[i].1
            },
            None => {
                proof {
                    lemma_lookup_absent(self.entries@, k);
                }
                0
            },
        }
    }

    /// Whether `k` has an entry.
    pub fn contains(&self, k: ActorId) -> (r: bool)
        ensures
            r == self.spec_has(k),
    {
        match find_index(&self.entries, k) {
            Some(i) => {
                proof {
                    assert(seq_has_key(self.entries@, k));
                }
                true
            },
            None => false,
        }
    }

    /// Adds `delta` to the amount recorded for `k`, creating the entry when
    /// it is absent.
    pub fn credit(&mut self, k: ActorId, delta: Amount)
        requires
            old(self).wf(),
            old(self).spec_amount(k) + delta <= u128::MAX,
        ensures
            final(self).wf(),
            final(self).spec_amount(k) == old(self).spec_amount(k) + delta,
            forall|x: ActorId| x != k ==> final(self).spec_amount(x) == old(self).spec_amount(x),
            forall|x: ActorId| final(self).spec_has(x) == (old(self).spec_has(x) || x == k),
            final(self).total() == old(self).total() + delta,
            old(self).spec_has(k) ==> final(self).spec_len() == old(self).spec_len(),
            !old(self).spec_has(k) ==> final(self).spec_len() == old(self).spec_len() + 1,
            (old(self).all_positive() && delta > 0) ==> final(self).all_positive(),
    {
        let ghost s0 = self.entries@;
        match find_index(&self.entries, k) {
            Some(i) => {
                proof {
                    lemma_lookup_first(s0, i as int, k);
                }
                let cur = self.entries[i].1;
                self.entries[i] = (k, cur + delta);
                proof {
                    let s1 = self.entries@;
                    lemma_total_update(s0, i as int, (k, (cur + delta) as Amount));
                    lemma_lookup_update(s0, i as int, (k, (cur + delta) as Amount), k);
                    assert forall|x: ActorId| x != k implies self.spec_amount(x) == seq_lookup(
                        s0,
                        x,
                    ) by {
                        lemma_lookup_update(s0, i as int, (k, (cur + delta) as Amount), x);
                    }
                    assert(distinct_keys(s1)) by {
                        assert forall|a: int, b: int| 0 <= a < b < s1.len() implies s1[a].0
                            != s1[b].0 by {
                            assert(s1[a].0 == s0[a].0 && s1[b].0 == s0[b].0);
                        }
                    }
                    assert forall|x: ActorId| seq_has_key(s1, x) == (seq_has_key(s0, x) || x
                        == k) by {
                        assert forall|j: int| 0 <= j < s1.len() implies s1[j].0 == s0[j].0 by {}
                        if seq_has_key(s1, x) {
                            let j = choose|j: int| 0 <= j < s1.len() && s1[j].0 == x;
                            assert(s0[j].0 == x);
                        }
                        if seq_has_key(s0, x) {
                            let j = choose|j: int| 0 <= j < s0.len() && s0[j].0 == x;
                            assert(s1[j].0 == x);
                        }
                        assert(seq_has_key(s0, k)) by {
                            assert(s0[i as int].0 == k);
                        }
                    }
                }
            },
            None => {
                proof {
                    lemma_lookup_absent(s0, k);
                }
                self.entries.push((k, delta));
                proof {
                    let s1 = self.entries@;
                    lemma_total_push(s0, (k, delta));
                    lemma_lookup_push(s0, (k, delta), k);
                    assert forall|x: ActorId| x != k implies self.spec_amount(x) == seq_lookup(
                        s0,
                        x,
                    ) by {
                        lemma_lookup_push(s0, (k, delta), x);
                    }
                    assert(distinct_keys(s1)) by {
                        assert forall|a: int, b: int| 0 <= a < b < s1.len() implies s1[a].0
                            != s1[b].0 by {
                            if b == s1.len() - 1 {
                                assert(s1[a] == s0[a]);
                                assert(!(s0[a].0 == k));
                            } else {
                                assert(s1[a] == s0[a] && s1[b] == s0[b]);
                            }
                        }
                    }
                    assert forall|x: ActorId| seq_has_key(s1, x) == (seq_has_key(s0, x) || x
                        == k) by {
                        if seq_has_key(s1, x) {
                            let j = choose|j: int| 0 <= j < s1.len() && s1[j].0 == x;
                            if j < s1.len() - 1 {
                                assert(s0[j].0 == x);
                            }
                        }
                        if seq_has_key(s0, x) {
                            let j = choose|j: int| 0 <= j < s0.len() && s0[j].0 == x;
                            assert(s1[j].0 == x);
                        }
                        assert(s1[s1.len() - 1].0 == k);
                    }
                }
            },
        }
    }

    /// Removes the entry of `k`, handing back its amount when it existed.
    pub fn remove(&mut self, k: ActorId) -> (r: Option<Amount>)
        requires
            old(self).wf(),
        ensures
            final(self).wf(),
            r is Some ==> old(self).spec_has(k),
            r is None ==> !old(self).spec_has(k) && *final(self) == *old(self),
            r matches Some(v) ==> v == old(self).spec_amount(k),
            r is Some ==> !final(self).spec_has(k) && final(self).spec_amount(k) == 0,
            r is Some ==> (forall|x: ActorId|
                x != k ==> final(self).spec_amount(x) == old(self).spec_amount(x)),
            r is Some ==> (forall|x: ActorId|
                final(self).spec_has(x) == (old(self).spec_has(x) && x != k)),
            r matches Some(v) ==> final(self).total() == old(self).total() - v,
            r is Some ==> final(self).spec_len() == old(self).spec_len() - 1,
            r is Some && old(self).all_positive() ==> final(self).all_positive(),
    {
        let ghost s0 = self.entries@;
        match find_index(&self.entries, k) {
            Some(i) => {
                proof {
                    lemma_lookup_first(s0, i as int, k);
                }
                let v = self.entries[i].1;
                self.entries.remove(i);
                proof {
                    let s1 = self.entries@;
                    lemma_total_remove(s0, i as int);
                    lemma_lookup_remove(s0, i as int, k);
                    assert forall|x: ActorId| x != k implies self.spec_amount(x) == seq_lookup(
                        s0,
                        x,
                    ) && (seq_has_key(s1, x) == seq_has_key(s0, x)) by {
                        lemma_lookup_remove(s0, i as int, x);
                    }
                    lemma_lookup_absent(s1, k);
                    assert(old(self).all_positive() ==> self.all_positive()) by {
                        if old(self).all_positive() {
                            assert forall|j: int| 0 <= j < s1.len() implies s1[j].1 > 0 by {
                                if j < i {
                                    assert(s1[j] == s0[j]);
                                } else {
                                    assert(s1[j] == s0[j + 1]);
                                }
                            }
                        }
                    }
                }
                Some(v)
            },
            None => None,
        }
    }

    /// Whether the ledger has no entries.
    pub fn is_empty(&self) -> (r: bool)
        ensures
            r == (self.spec_len() == 0),
    {
        self.entries.len() == 0
    }

    /// The number of entries.
    pub fn len(&self) -> (r: usize)
        ensures
            r == self.spec_len(),
    {
        self.entries.len()
    }
}

impl Clone for Ledger {
    /// Copies every entry.
    fn clone(&self) -> (r: Self)
        ensures
            r.entries@ == self.entries@,
    {
        let mut out: Vec<(ActorId, Amount)> = Vec::new();
        let mut i: usize = 0;
        while i < self.entries.len()
            invariant
                i <= self.entries@.len(),
                out@ == self.entries@.subrange(0, i as int),
            decreases self.entries@.len() - i,
        {
            out.push(self.entries[i]);
            i += 1;
        }
        proof {
            assert(out@ =~= self.entries@);
        }
        Ledger { entries: out }
    }
}

/// The set of identities a whitelist admits; also the shape of the
/// contributor roll.  Insertion keeps first-come order and never duplicates a
/// member.
pub struct Whitelist {
    pub members: Vec<ActorId>,
}

impl Whitelist {
    /// No member appears twice.
    pub open spec fn wf(&self) -> bool {
        self.members@.no_duplicates()
    }

    /// Whether `a` is a member.
    pub open spec fn spec_contains(&self, a: ActorId) -> bool {
        self.members@.contains(a)
    }

    /// The members as a set.
    pub open spec fn spec_set(&self) -> Set<ActorId> {
        self.members@.to_set()
    }

    /// An empty whitelist.
    pub fn new() -> (r: Self)
        ensures
            r.wf(),
            r.members@.len() == 0,
            forall|a: ActorId| !r.spec_contains(a),
    {
        Whitelist { members: Vec::new() }
    }

    /// Whether `a` is a member.
    pub fn contains(&self, a: ActorId) -> (r: bool)
        ensures
            r == self.spec_contains(a),
    {
        let mut i: usize = 0;
        while i < self.members.len()
            invariant
                i <= self.members@.len(),
                forall|j: int| 0 <= j < i ==> self.members@[j] != a,
            decreases self.members@.len() - i,
        {
            if self.members[i] == a {
                return true;
            }
            i += 1;
        }
        false
    }

    /// Admits `a`.  Inserting a member twice leaves the whitelist unchanged.
    pub fn insert(&mut self, a: ActorId)
        requires
            old(self).wf(),
        ensures
            final(self).wf(),
            final(self).spec_contains(a),
            forall|x: ActorId| final(self).spec_contains(x) == (old(self).spec_contains(x) || x
                == a),
            old(self).spec_contains(a) ==> *final(self) == *old(self),
            !old(self).spec_contains(a) ==> final(self).members@ == old(self).members@.push(a),
    {
        if !self.contains(a) {
            self.members.push(a);
            proof {
                assert forall|x: ActorId| self.spec_contains(x) == (old(
                    self,
                ).spec_contains(x) || x == a) by {
                    let s0 = old(self).members@;
                    let s1 = self.members@;
                    if s1.contains(x) {
                        let j = choose|j: int| 0 <= j < s1.len() && s1[j] == x;
                        if j < s1.len() - 1 {
                            assert(s0[j] == x);
                        }
                    }
                    if s0.contains(x) {
                        let j = choose|j: int| 0 <= j < s0.len() && s0[j] == x;
                        assert(s1[j] == x);
                    }
                    assert(s1[s1.len() - 1] == a);
                }
            }
        }
    }

    /// The number of members.
    pub fn len(&self) -> (r: usize)
        ensures
            r == self.members@.len(),
    {
        self.members.len()
    }
}

impl Clone for Whitelist {
    /// Copies every member.
    fn clone(&self) -> (r: Self)
        ensures
            r.members@ == self.members@,
    {
        let mut out: Vec<ActorId> = Vec::new();
        let mut i: usize = 0;
        while i < self.members.len()
            invariant
                i <= self.members@.len(),
                out@ == self.members@.subrange(0, i as int),
            decreases self.members@.len() - i,
        {
            out.push(self.members[i]);
            i += 1;
        }
        proof {
            assert(out@ =~= self.members@);
        }
        Whitelist { members: out }
    }
}

} // verus!
