use vstd::prelude::*;
use crate::address::Address;
use crate::uint::{lemma_value_bounded, modulus, U256};

verus! {

/// A key of a `Table`: a plain value whose equality can be decided.
pub trait TableKey: Copy + Sized {
    fn same(&self, other: &Self) -> (r: bool)
        ensures
            r == (*self == *other),
    ;
}

impl TableKey for Address {
    fn same(&self, other: &Address) -> (r: bool) {
        self.high == other.high && self.low == other.low
    }
}

/// The key of an allowance: the account whose funds may be spent, and
/// the account that may spend them.
#[derive(Clone, Copy, Debug, PartialEq, Eq, Structural)]
pub struct Grant {
    pub owner: Address,
    pub spender: Address,
}

impl TableKey for Grant {
    fn same(&self, other: &Grant) -> (r: bool) {
        self.owner.same(&other.owner) && self.spender.same(&other.spender)
    }
}

/// No key occurs twice among the entries.
pub open spec fn keys_unique<K>(s: Seq<(K, U256)>) -> bool {
    forall|i: int, j: int| 0 <= i < j < s.len() ==> s[i].0 != s[j].0
}

/// The amount stored under `k`; zero where `k` has no entry.
pub open spec fn lookup<K>(s: Seq<(K, U256)>, k: K) -> nat
    decreases s.len(),
{
    if s.len() == 0 {
        0
    } else if s.last().0 == k {
        s.last().1.value()
    } else {
        lookup(s.drop_last(), k)
    }
}

/// The sum of all amounts stored.
pub open spec fn total<K>(s: Seq<(K, U256)>) -> nat
    decreases s.len(),
{
    if s.len() == 0 {
        0
    } else {
        total(s.drop_last()) + s.last().1.value()
    }
}

proof fn lemma_lookup_at<K>(s: Seq<(K, U256)>, i: int)
    requires
        keys_unique(s),
        0 <= i < s.len(),
    ensures
        lookup(s, s[i].0) == s[i].1.value(),
    decreases s.len(),
{
    if i != s.len() - 1 {
        assert(s.drop_last()[i] == s[i]);
        lemma_lookup_at(s.drop_last(), i);
    }
}

pub proof fn lemma_lookup_absent<K>(s: Seq<(K, U256)>, k: K)
    requires
        forall|i: int| 0 <= i < s.len() ==> s[i].0 != k,
    ensures
        lookup(s, k) == 0,
    decreases s.len(),
{
    if s.len() > 0 {
        assert(s.last() == s[s.len() - 1]);
        lemma_lookup_absent(s.drop_last(), k);
    }
}

proof fn lemma_lookup_le_total<K>(s: Seq<(K, U256)>, k: K)
    ensures
        lookup(s, k) <= total(s),
    decreases s.len(),
{
    if s.len() > 0 {
        lemma_lookup_le_total(s.drop_last(), k);
    }
}

proof fn lemma_lookup_bounded<K>(s: Seq<(K, U256)>, k: K)
    ensures
        lookup(s, k) < modulus(),
    decreases s.len(),
{
    if s.len() > 0 {
        lemma_value_bounded(s.last().1);
        lemma_lookup_bounded(s.drop_last(), k);
    }
}

proof fn lemma_total_update<K>(s: Seq<(K, U256)>, i: int, e: (K, U256))
    requires
        0 <= i < s.len(),
    ensures
        total(s.update(i, e)) + s[i].1.value() == total(s) + e.1.value(),
    decreases s.len(),
{
    let t = s.update(i, e);
    if i == s.len() - 1 {
        assert(t.drop_last() =~= s.drop_last());
    } else {
        assert(t.drop_last() =~= s.drop_last().update(i, e));
        lemma_total_update(s.drop_last(), i, e);
    }
}

/// After writing `v` under `k` in a table of unique keys, `k` holds `v`
/// and every other key holds what it held.
proof fn lemma_lookup_after_write<K>(old_s: Seq<(K, U256)>, new_s: Seq<(K, U256)>, k: K, v: U256, x: K)
    requires
        keys_unique(old_s),
        keys_unique(new_s),
        exists|i: int| 0 <= i < new_s.len() && new_s[i] == (k, v),
        forall|j: int|
            0 <= j < new_s.len() && new_s[j].0 != k ==> 0 <= j < old_s.len() && old_s[j] == new_s[j],
        forall|j: int|
            0 <= j < old_s.len() && old_s[j].0 != k ==> 0 <= j < new_s.len() && old_s[j] == new_s[j],
    ensures
        lookup(new_s, x) == if x == k { v.value() } else { lookup(old_s, x) },
{
    if x == k {
        let i = choose|i: int| 0 <= i < new_s.len() && new_s[i] == (k, v);
        lemma_lookup_at(new_s, i);
    } else if exists|j: int| 0 <= j < old_s.len() && old_s[j].0 == x {
        let j = choose|j: int| 0 <= j < old_s.len() && old_s[j].0 == x;
        lemma_lookup_at(old_s, j);
        lemma_lookup_at(new_s, j);
    } else {
        lemma_lookup_absent(old_s, x);
        assert forall|j: int| 0 <= j < new_s.len() implies new_s[j].0 != x by {
            if new_s[j].0 == x {
                assert(old_s[j] == new_s[j]);
            }
        }
        lemma_lookup_absent(new_s, x);
    }
}

/// A map from keys to 256-bit amounts, absent keys reading as zero.
pub struct Table<K> {
    pub entries: Vec<(K, U256)>,
}

impl<K: TableKey> Table<K> {
    pub open spec fn wf(&self) -> bool {
        keys_unique(self.entries@)
    }

    /// The amount held under `k`.
    pub open spec fn get_spec(&self, k: K) -> nat {
        lookup(self.entries@, k)
    }

    /// The sum of the amounts held under all keys.
    pub open spec fn sum(&self) -> nat {
        total(self.entries@)
    }

    /// Every amount fits in 256 bits.
    pub proof fn lemma_get_bounded(&self, k: K)
        ensures
            self.get_spec(k) < modulus(),
    {
        lemma_lookup_bounded(self.entries@, k);
    }

    /// No single amount exceeds the sum.
    pub proof fn lemma_get_le_sum(&self, k: K)
        ensures
            self.get_spec(k) <= self.sum(),
    {
        lemma_lookup_le_total(self.entries@, k);
    }

    pub fn new() -> (r: Table<K>)
        ensures
            r.wf(),
            r.sum() == 0,
            forall|k: K| r.get_spec(k) == 0,
    {
        Table { entries: Vec::new() }
    }

    fn find(&self, k: &K) -> (r: Option<usize>)
        ensures
            match r {
                Some(i) => i < self.entries@.len() && self.entries@[i as int].0 == *k,
                None => forall|i: int| 0 <= i < self.entries@.len() ==> self.entries@[i].0 != *k,
            },
    {
        let mut i: usize = 0;
        while i < self.entries.len()
            invariant
                i <= self.entries@.len(),
                forall|j: int| 0 <= j < i ==> self.entries@[j].0 != *k,
            decreases self.entries@.len() - i,
        {
            if self.entries[i].0.same(k) {
                return Some(i);
            }
            i = i + 1;
        }
        None
    }

    pub fn get(&self, k: &K) -> (r: U256)
        requires
            self.wf(),
        ensures
            r.value() == self.get_spec(*k),
    {
        match self.find(k) {
            Some(i) => {
                proof {
                    lemma_lookup_at(self.entries@, i as int);
                }
                self.entries[i].1
            },
            None => {
                proof {
                    lemma_lookup_absent(self.entries@, *k);
                }
                U256::zero()
            },
        }
    }

    /// Stores `v` under `k`.
    pub fn set(&mut self, k: &K, v: U256)
        requires
            old(self).wf(),
        ensures
            final(self).wf(),
            final(self).get_spec(*k) == v.value(),
            forall|x: K| x != *k ==> final(self).get_spec(x) == old(self).get_spec(x),
            final(self).sum() + old(self).get_spec(*k) == old(self).sum() + v.value(),
    {
        let ghost old_s = self.entries@;
        match self.find(k) {
            Some(i) => {
                proof {
                    lemma_lookup_at(old_s, i as int);
                    lemma_total_update(old_s, i as int, (*k, v));
                }
                self.entries.set(i, (*k, v));
                proof {
                    assert(self.entries@[i as int] == (*k, v));
                }
            },
            None => {
                proof {
                    lemma_lookup_absent(old_s, *k);
                }
                self.entries.push((*k, v));
                proof {
                    assert(self.entries@.drop_last() =~= old_s);
                    assert(self.entries@[old_s.len() as int] == (*k, v));
                }
            },
        }
        proof {
            let new_s = self.entries@;
            assert forall|x: K| x != *k implies lookup(new_s, x) == lookup(old_s, x) by {
                lemma_lookup_after_write(old_s, new_s, *k, v, x);
            }
            lemma_lookup_after_write(old_s, new_s, *k, v, *k);
        }
    }

    /// A copy of the table, entry for entry.
    pub fn copy(&self) -> (r: Table<K>)
        ensures
            r.entries@ == self.entries@,
    {
        let mut entries: Vec<(K, U256)> = Vec::new();
        let mut i: usize = 0;
        while i < self.entries.len()
            invariant
                i <= self.entries@.len(),
                entries@ =~= self.entries@.subrange(0, i as int),
            decreases self.entries@.len() - i,
        {
            entries.push(self.entries[i]);
            i = i + 1;
        }
        Table { entries }
    }
}

} // verus!

verus! {

/// A finite set of keys, each held once.
pub struct MemberSet<K> {
    pub items: Vec<K>,
}

impl<K: TableKey> MemberSet<K> {
    pub open spec fn wf(&self) -> bool {
        self.items@.no_duplicates()
    }

    pub open spec fn has(&self, k: K) -> bool {
        self.items@.contains(k)
    }

    pub fn new() -> (r: MemberSet<K>)
        ensures
            r.wf(),
            forall|k: K| !r.has(k),
    {
        MemberSet { items: Vec::new() }
    }

    fn find(&self, k: &K) -> (r: Option<usize>)
        ensures
            match r {
                Some(i) => i < self.items@.len() && self.items@[i as int] == *k,
                None => !self.has(*k),
            },
    {
        let mut i: usize = 0;
        while i < self.items.len()
            invariant
                i <= self.items@.len(),
                forall|j: int| 0 <= j < i ==> self.items@[j] != *k,
            decreases self.items@.len() - i,
        {
            if self.items[i].same(k) {
                return Some(i);
            }
            i = i + 1;
        }
        None
    }

    pub fn contains(&self, k: &K) -> (r: bool)
        ensures
            r == self.has(*k),
    {
        match self.find(k) {
            Some(i) => {
                proof {
                    assert(self.items@[i as int] == *k);
                }
                true
            },
            None => false,
        }
    }

    /// Adds `k`; the set is unchanged where it already holds it.
    pub fn insert(&mut self, k: &K)
        requires
            old(self).wf(),
        ensures
            final(self).wf(),
            forall|x: K| final(self).has(x) == (x == *k || old(self).has(x)),
    {
        if !self.contains(k) {
            let ghost old_s = self.items@;
            self.items.push(*k);
            proof {
                let s = self.items@;
                assert(s[old_s.len() as int] == *k);
                assert forall|x: K| s.contains(x) == (x == *k || old_s.contains(x)) by {
                    if s.contains(x) && x != *k {
                        let j = choose|j: int| 0 <= j < s.len() && s[j] == x;
                        assert(old_s[j] == x);
                    }
                    if old_s.contains(x) {
                        let j = choose|j: int| 0 <= j < old_s.len() && old_s[j] == x;
                        assert(s[j] == x);
                    }
                }
            }
        }
    }

    /// Removes `k`; the set is unchanged where it does not hold it.
    pub fn remove(&mut self, k: &K)
        requires
            old(self).wf(),
        ensures
            final(self).wf(),
            forall|x: K| final(self).has(x) == (x != *k && old(self).has(x)),
    {
        match self.find(k) {
            Some(i) => {
                let ghost old_s = self.items@;
                self.items.remove(i);
                proof {
                    let s = self.items@;
                    assert(s =~= old_s.remove(i as int));
                    assert forall|x: K| s.contains(x) == (x != *k && old_s.contains(x)) by {
                        if s.contains(x) {
                            let j = choose|j: int| 0 <= j < s.len() && s[j] == x;
                            if j < i {
                                assert(old_s[j] == x);
                            } else {
                                assert(old_s[j + 1] == x);
                            }
                        }
                        if old_s.contains(x) && x != *k {
                            let j = choose|j: int| 0 <= j < old_s.len() && old_s[j] == x;
                            if j < i {
                                assert(s[j] == x);
                            } else {
                                assert(j != i);
                                assert(s[j - 1] == x);
                            }
                        }
                    }
                }
            },
            None => {},
        }
    }
}

/// A role held by an account.
#[derive(Clone, Copy, Debug, PartialEq, Eq, Structural)]
pub struct Membership {
    pub role: u32,
    pub account: Address,
}

impl TableKey for Membership {
    fn same(&self, other: &Membership) -> (r: bool) {
        self.role == other.role && self.account.same(&other.account)
    }
}

/// The admin role of a role, as recorded by the latest of the pairs;
/// zero where none is recorded.
pub open spec fn admin_lookup(s: Seq<(u32, u32)>, role: u32) -> u32
    decreases s.len(),
{
    if s.len() == 0 {
        0
    } else if s.last().0 == role {
        s.last().1
    } else {
        admin_lookup(s.drop_last(), role)
    }
}

/// The admin role of each role.
pub struct AdminTable {
    pub pairs: Vec<(u32, u32)>,
}

impl AdminTable {
    pub open spec fn admin_of(&self, role: u32) -> u32 {
        admin_lookup(self.pairs@, role)
    }

    pub fn new() -> (r: AdminTable)
        ensures
            forall|role: u32| r.admin_of(role) == 0,
    {
        AdminTable { pairs: Vec::new() }
    }

    pub fn get(&self, role: u32) -> (r: u32)
        ensures
            r == self.admin_of(role),
    {
        let mut i: usize = self.pairs.len();
        assert(self.pairs@.subrange(0, i as int) =~= self.pairs@);
        while i > 0
            invariant
                i <= self.pairs@.len(),
                admin_lookup(self.pairs@, role) == admin_lookup(self.pairs@.subrange(0, i as int), role),
            decreases i,
        {
            let ghost s = self.pairs@.subrange(0, i as int);
            assert(s.drop_last() =~= self.pairs@.subrange(0, i - 1));
            if self.pairs[i - 1].0 == role {
                return self.pairs[i - 1].1;
            }
            i = i - 1;
        }
        0
    }

    /// Makes `admin` the admin role of `role`.
    pub fn set(&mut self, role: u32, admin: u32)
        ensures
            final(self).admin_of(role) == admin,
            forall|r: u32| r != role ==> final(self).admin_of(r) == old(self).admin_of(r),
    {
        let ghost old_s = self.pairs@;
        self.pairs.push((role, admin));
        proof {
            assert(self.pairs@.drop_last() =~= old_s);
        }
    }
}

} // verus!
