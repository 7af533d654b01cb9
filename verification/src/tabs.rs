//! The tab cache: maps a canonical base address to a live tab handle so
//! consecutive actions stay in the same tab.  At most one entry per
//! base address; a bounded cache evicts the least-recently-inserted
//! entry (FIFO).  Opening real browser tabs is the application's work:
//! the caller hands in the identifier of a freshly opened tab and the
//! cache decides whether it is needed.

use vstd::prelude::*;
use vstd::string::*;
use crate::address::{base_address, base_address_spec};

verus! {

/// A live browser tab as the cache models it: an opaque identifier and
/// the address the tab currently shows.
#[derive(Debug)]
pub struct TabHandle {
    pub id: u64,
    pub address: String,
}

#[derive(Debug)]
pub struct TabEntry {
    pub key: String,
    pub tab: TabHandle,
}

/// Cache model: (key, tab id, tab address) triples in insertion order.
pub struct TabCache {
    entries: Vec<TabEntry>,
    limit: usize,
}

/// No two entries share a key.
pub open spec fn unique_keys(m: Seq<(Seq<char>, u64, Seq<char>)>) -> bool {
    forall|i: int, j: int| 0 <= i < j < m.len() ==> (#[trigger] m[i]).0 != (#[trigger] m[j]).0
}

/// Index of the entry with `key`, if any.
pub open spec fn find_key(m: Seq<(Seq<char>, u64, Seq<char>)>, key: Seq<char>) -> Option<int>
    decreases m.len(),
{
    if m.len() == 0 {
        None
    } else if m[0].0 == key {
        Some(0int)
    } else {
        match find_key(m.drop_first(), key) {
            Some(i) => Some(i + 1),
            None => None,
        }
    }
}

pub proof fn lemma_find_key_props(m: Seq<(Seq<char>, u64, Seq<char>)>, key: Seq<char>)
    ensures
        match find_key(m, key) {
            Some(i) => 0 <= i < m.len() && m[i].0 == key && (forall|j: int|
                0 <= j < i ==> (#[trigger] m[j]).0 != key),
            None => forall|j: int| 0 <= j < m.len() ==> (#[trigger] m[j]).0 != key,
        },
    decreases m.len(),
{
    if m.len() > 0 && m[0].0 != key {
        lemma_find_key_props(m.drop_first(), key);
        assert forall|j: int| 1 <= j < m.len() implies m.drop_first()[j - 1] == m[j] by {}
    }
}

pub proof fn lemma_find_key_determined(m: Seq<(Seq<char>, u64, Seq<char>)>, key: Seq<char>, i: int)
    requires
        0 <= i < m.len(),
        m[i].0 == key,
        forall|j: int| 0 <= j < i ==> (#[trigger] m[j]).0 != key,
    ensures
        find_key(m, key) == Some(i),
    decreases i,
{
    if i > 0 {
        assert forall|j: int| 0 <= j < i - 1 implies (#[trigger] m.drop_first()[j]).0 != key by {
            assert(m.drop_first()[j] == m[j + 1]);
        }
        lemma_find_key_determined(m.drop_first(), key, i - 1);
    }
}

/// One step of `get_or_create` on the model: a hit returns the cached
/// tab and changes nothing; a stale entry is replaced in place; a miss
/// appends, evicting the oldest entry when the cache is full.
pub open spec fn step_get_or_create(
    m: Seq<(Seq<char>, u64, Seq<char>)>,
    limit: nat,
    addr: Seq<char>,
    fresh: u64,
) -> (Seq<(Seq<char>, u64, Seq<char>)>, (u64, Seq<char>), bool) {
    let key = base_address_spec(addr);
    match find_key(m, key) {
        Some(i) => if base_address_spec(m[i].2) == key {
            (m, (m[i].1, m[i].2), false)
        } else {
            (m.update(i, (key, fresh, addr)), (fresh, addr), true)
        },
        None => {
            let room = if m.len() >= limit {
                m.drop_first()
            } else {
                m
            };
            (room.push((key, fresh, addr)), (fresh, addr), true)
        },
    }
}

impl TabCache {
    /// (key, id, address) of each entry, oldest first.
    pub closed spec fn model(&self) -> Seq<(Seq<char>, u64, Seq<char>)> {
        self.entries@.map_values(|e: TabEntry| (e.key@, e.tab.id, e.tab.address@))
    }

    pub closed spec fn limit_spec(&self) -> nat {
        self.limit as nat
    }

    pub open spec fn wf(&self) -> bool {
        unique_keys(self.model()) && self.model().len() <= self.limit_spec()
            && self.limit_spec() >= 1
    }

    pub fn new(limit: usize) -> (r: Self)
        requires
            limit >= 1,
        ensures
            r.wf(),
            r.model() == Seq::<(Seq<char>, u64, Seq<char>)>::empty(),
            r.limit_spec() == limit as nat,
    {
        let c = TabCache { entries: Vec::new(), limit };
        proof {
            assert(c.model() =~= Seq::<(Seq<char>, u64, Seq<char>)>::empty());
        }
        c
    }

    pub fn len(&self) -> (r: usize)
        ensures
            r == self.model().len(),
    {
        self.entries.len()
    }

    /// The (id, address) of the cached live tab for `address`, when the
    /// cached entry exists and is not stale.
    pub fn lookup(&self, address: &str) -> (r: Option<TabHandle>)
        requires
            self.wf(),
        ensures
            ({
                let key = base_address_spec(address@);
                match find_key(self.model(), key) {
                    Some(i) => if base_address_spec(self.model()[i].2) == key {
                        r matches Some(t) && t.id == self.model()[i].1 && t.address@
                            == self.model()[i].2
                    } else {
                        r is None
                    },
                    None => r is None,
                }
            }),
    {
        let key = base_address(address);
        let ghost m = self.model();
        proof {
            lemma_find_key_props(m, key@);
        }
        let mut i: usize = 0;
        while i < self.entries.len()
            invariant
                self.wf(),
                m == self.model(),
                key@ == base_address_spec(address@),
                0 <= i <= m.len(),
                m.len() == self.entries@.len(),
                forall|j: int| 0 <= j < i ==> (#[trigger] m[j]).0 != key@,
            decreases m.len() - i,
        {
            if self.entries[i].key == key {
                proof {
                    lemma_find_key_determined(m, key@, i as int);
                }
                let stale_check = base_address(self.entries[i].tab.address.as_str());
                if stale_check == key {
                    let t = TabHandle {
                        id: self.entries[i].tab.id,
                        address: self.entries[i].tab.address.clone(),
                    };
                    return Some(t);
                } else {
                    return None;
                }
            }
            i = i + 1;
        }
        proof {
            lemma_find_key_props(m, key@);
        }
        None
    }

    /// Serve `address` from the cache, or file the freshly opened tab
    /// `fresh_id` under its base address, evicting FIFO when full.  The
    /// second component reports whether the fresh tab was used.
    pub fn get_or_create(&mut self, address: &str, fresh_id: u64) -> (r: (TabHandle, bool))
        requires
            old(self).wf(),
        ensures
            final(self).wf(),
            final(self).limit_spec() == old(self).limit_spec(),
            ({
                let (m2, t, created) = step_get_or_create(
                    old(self).model(),
                    old(self).limit_spec(),
                    address@,
                    fresh_id,
                );
                final(self).model() == m2 && r.0.id == t.0 && r.0.address@ == t.1 && r.1
                    == created
            }),
    {
        let key = base_address(address);
        let ghost m = self.model();
        proof {
            lemma_find_key_props(m, key@);
        }
        let mut i: usize = 0;
        while i < self.entries.len()
            invariant
                unique_keys(m),
                m.len() <= old(self).limit_spec(),
                old(self).limit_spec() >= 1,
                self == old(self),
                m == self.model(),
                key@ == base_address_spec(address@),
                0 <= i <= m.len(),
                m.len() == self.entries@.len(),
                forall|j: int| 0 <= j < i ==> (#[trigger] m[j]).0 != key@,
            decreases m.len() - i,
        {
            if self.entries[i].key == key {
                proof {
                    lemma_find_key_determined(m, key@, i as int);
                }
                let stale_check = base_address(self.entries[i].tab.address.as_str());
                if stale_check == key {
                    let t = TabHandle {
                        id: self.entries[i].tab.id,
                        address: self.entries[i].tab.address.clone(),
                    };
                    return (t, false);
                } else {
                    let tab = TabHandle { id: fresh_id, address: address.to_owned() };
                    let entry = TabEntry {
                        key,
                        tab: TabHandle { id: fresh_id, address: address.to_owned() },
                    };
                    self.entries.set(i, entry);
                    proof {
                        assert(self.model() =~= m.update(
                            i as int,
                            (base_address_spec(address@), fresh_id, address@),
                        ));
                        assert forall|p: int, q: int|
                            0 <= p < q < self.model().len() implies (
                        #[trigger] self.model()[p]).0 != (#[trigger] self.model()[q]).0 by {
                            assert(m[p].0 != m[q].0);
                        }
                    }
                    return (tab, true);
                }
            }
            i = i + 1;
        }
        proof {
            lemma_find_key_props(m, key@);
        }
        let tab = TabHandle { id: fresh_id, address: address.to_owned() };
        if self.entries.len() >= self.limit {
            self.entries.remove(0);
            proof {
                assert(self.model() =~= m.drop_first());
            }
        }
        let ghost room = self.model();
        let entry = TabEntry {
            key,
            tab: TabHandle { id: fresh_id, address: address.to_owned() },
        };
        self.entries.push(entry);
        proof {
            assert(self.model() =~= room.push(
                (base_address_spec(address@), fresh_id, address@),
            ));
            assert forall|p: int, q: int| 0 <= p < q < self.model().len() implies (
            #[trigger] self.model()[p]).0 != (#[trigger] self.model()[q]).0 by {
                if q < self.model().len() - 1 {
                    if m.len() >= old(self).limit_spec() {
                        assert(m[p + 1].0 != m[q + 1].0);
                    } else {
                        assert(m[p].0 != m[q].0);
                    }
                } else {
                    if m.len() >= old(self).limit_spec() {
                        assert(m[p + 1].0 != key@);
                    } else {
                        assert(m[p].0 != key@);
                    }
                }
            }
        }
        (tab, true)
    }

    /// After a navigation that changed the host, move the cache entry:
    /// the entry under the old base address is removed and the same tab
    /// is filed under the new base address with its new address.  When
    /// the hosts agree only the stored address is refreshed.
    pub fn record_navigation(&mut self, old_address: &str, new_address: &str)
        requires
            old(self).wf(),
        ensures
            final(self).wf(),
            final(self).limit_spec() == old(self).limit_spec(),
            final(self).model() == step_navigation(
                old(self).model(),
                old_address@,
                new_address@,
            ),
    {
        let old_key = base_address(old_address);
        let new_key = base_address(new_address);
        let ghost m = self.model();
        proof {
            lemma_find_key_props(m, old_key@);
        }
        if old_key == new_key {
            let mut i: usize = 0;
            while i < self.entries.len()
                invariant
                    unique_keys(m),
                    m.len() <= old(self).limit_spec(),
                    old(self).limit_spec() >= 1,
                    self == old(self),
                    m == self.model(),
                    old_key@ == base_address_spec(old_address@),
                    new_key@ == base_address_spec(new_address@),
                    old_key@ == new_key@,
                    0 <= i <= m.len(),
                    m.len() == self.entries@.len(),
                    forall|j: int| 0 <= j < i ==> (#[trigger] m[j]).0 != old_key@,
                decreases m.len() - i,
            {
                if self.entries[i].key == old_key {
                    proof {
                        lemma_find_key_determined(m, old_key@, i as int);
                    }
                    let id = self.entries[i].tab.id;
                    let entry = TabEntry {
                        key: old_key,
                        tab: TabHandle { id, address: new_address.to_owned() },
                    };
                    self.entries.set(i, entry);
                    proof {
                        assert(self.model() =~= m.update(
                            i as int,
                            (base_address_spec(old_address@), m[i as int].1, new_address@),
                        ));
                        assert forall|p: int, q: int|
                            0 <= p < q < self.model().len() implies (
                        #[trigger] self.model()[p]).0 != (#[trigger] self.model()[q]).0 by {
                            assert(m[p].0 != m[q].0);
                        }
                    }
                    return ;
                }
                i = i + 1;
            }
            proof {
                lemma_find_key_props(m, old_key@);
            }
            return ;
        }
        let id_opt = self.take_key(&old_key);
        match id_opt {
            Some(id) => {
                let ghost m1 = self.model();
                self.remove_key_entry(&new_key);
                let ghost m2 = self.model();
                let entry = TabEntry {
                    key: new_key,
                    tab: TabHandle { id, address: new_address.to_owned() },
                };
                self.entries.push(entry);
                proof {
                    lemma_find_key_props(m, old_key@);
                    assert(m1.len() == m.len() - 1);
                    lemma_find_key_props(m1, new_key@);
                    assert(m2.len() <= m1.len());
                    assert(self.model() =~= m2.push(
                        (base_address_spec(new_address@), id, new_address@),
                    ));
                    assert forall|p: int, q: int| 0 <= p < q < self.model().len() implies (
                    #[trigger] self.model()[p]).0 != (#[trigger] self.model()[q]).0 by {
                        if q == self.model().len() - 1 {
                            assert(m2[p].0 != new_key@);
                        } else {
                            assert(m2[p].0 != m2[q].0);
                        }
                    }
                }
            },
            None => {},
        }
    }

    /// Remove the entry keyed by `address`'s base address, if any; the
    /// tab itself is not closed (closing is session-owned).
    pub fn evict(&mut self, address: &str)
        requires
            old(self).wf(),
        ensures
            final(self).wf(),
            final(self).limit_spec() == old(self).limit_spec(),
            final(self).model() == remove_key_spec(
                old(self).model(),
                base_address_spec(address@),
            ),
    {
        let key = base_address(address);
        let _ = self.take_key(&key);
    }

    /// Drop every entry; no tab is closed.
    pub fn clear(&mut self)
        requires
            old(self).wf(),
        ensures
            final(self).wf(),
            final(self).limit_spec() == old(self).limit_spec(),
            final(self).model() == Seq::<(Seq<char>, u64, Seq<char>)>::empty(),
    {
        self.entries.clear();
        proof {
            assert(self.model() =~= Seq::<(Seq<char>, u64, Seq<char>)>::empty());
        }
    }

    /// Remove the entry with exactly this key, returning its tab id.
    fn take_key(&mut self, key: &String) -> (r: Option<u64>)
        requires
            old(self).wf(),
        ensures
            final(self).wf(),
            final(self).limit_spec() == old(self).limit_spec(),
            final(self).model() == remove_key_spec(old(self).model(), key@),
            forall|j: int|
                0 <= j < final(self).model().len() ==> (#[trigger] final(self).model()[j]).0
                    != key@,
            match find_key(old(self).model(), key@) {
                Some(i) => r == Some(old(self).model()[i].1),
                None => r is None,
            },
    {
        let ghost m = self.model();
        proof {
            lemma_find_key_props(m, key@);
        }
        let mut i: usize = 0;
        while i < self.entries.len()
            invariant
                unique_keys(m),
                m.len() <= old(self).limit_spec(),
                old(self).limit_spec() >= 1,
                self == old(self),
                m == self.model(),
                0 <= i <= m.len(),
                m.len() == self.entries@.len(),
                forall|j: int| 0 <= j < i ==> (#[trigger] m[j]).0 != key@,
            decreases m.len() - i,
        {
            if self.entries[i].key == *key {
                proof {
                    lemma_find_key_determined(m, key@, i as int);
                }
                let id = self.entries[i].tab.id;
                self.entries.remove(i);
                proof {
                    assert(self.model() =~= m.remove(i as int));
                    assert forall|p: int, q: int| 0 <= p < q < self.model().len() implies (
                    #[trigger] self.model()[p]).0 != (#[trigger] self.model()[q]).0 by {
                        let pp = if p < i as int {
                            p
                        } else {
                            p + 1
                        };
                        let qq = if q < i as int {
                            q
                        } else {
                            q + 1
                        };
                        assert(m[pp].0 != m[qq].0);
                    }
                }
                proof {
                    assert forall|j: int|
                        0 <= j < self.model().len() implies (#[trigger] self.model()[j]).0
                            != key@ by {
                        if j < i as int {
                            assert(self.model()[j] == m[j]);
                        } else {
                            assert(self.model()[j] == m[j + 1]);
                            assert(m[j + 1].0 != m[i as int].0);
                        }
                    }
                }
                return Some(id);
            }
            i = i + 1;
        }
        proof {
            lemma_find_key_props(m, key@);
        }
        None
    }

    fn remove_key_entry(&mut self, key: &String)
        requires
            old(self).wf(),
        ensures
            final(self).wf(),
            final(self).limit_spec() == old(self).limit_spec(),
            final(self).model() == remove_key_spec(old(self).model(), key@),
            forall|j: int|
                0 <= j < final(self).model().len() ==> (#[trigger] final(self).model()[j]).0
                    != key@,
    {
        let _ = self.take_key(key);
    }
}

/// The model with the entry keyed `key` removed (there is at most one).
pub open spec fn remove_key_spec(
    m: Seq<(Seq<char>, u64, Seq<char>)>,
    key: Seq<char>,
) -> Seq<(Seq<char>, u64, Seq<char>)> {
    match find_key(m, key) {
        Some(i) => m.remove(i),
        None => m,
    }
}

/// One navigation step on the model: same base — refresh the stored
/// address; changed base — remove the old entry and file the same tab
/// id under the new base address.
pub open spec fn step_navigation(
    m: Seq<(Seq<char>, u64, Seq<char>)>,
    old_addr: Seq<char>,
    new_addr: Seq<char>,
) -> Seq<(Seq<char>, u64, Seq<char>)> {
    let old_key = base_address_spec(old_addr);
    let new_key = base_address_spec(new_addr);
    if old_key == new_key {
        match find_key(m, old_key) {
            Some(i) => m.update(i, (old_key, m[i].1, new_addr)),
            None => m,
        }
    } else {
        match find_key(m, old_key) {
            Some(i) => remove_key_spec(m.remove(i), new_key).push((new_key, m[i].1, new_addr)),
            None => m,
        }
    }
}

/// Law: a second `get_or_create` for the same address right after a
/// first one returns the same tab handle, reports a cache hit, and
/// leaves the cache unchanged.
pub proof fn lemma_get_or_create_idempotent(
    m: Seq<(Seq<char>, u64, Seq<char>)>,
    limit: nat,
    addr: Seq<char>,
    f1: u64,
    f2: u64,
)
    requires
        limit >= 1,
        m.len() <= limit,
        unique_keys(m),
    ensures
        ({
            let (m1, t1, c1) = step_get_or_create(m, limit, addr, f1);
            let (m2, t2, c2) = step_get_or_create(m1, limit, addr, f2);
            t2 == t1 && c2 == false && m2 == m1
        }),
{
    let key = base_address_spec(addr);
    let (m1, t1, c1) = step_get_or_create(m, limit, addr, f1);
    lemma_find_key_props(m, key);
    match find_key(m, key) {
        Some(i) => {
            if base_address_spec(m[i].2) == key {
                lemma_find_key_determined(m1, key, i);
            } else {
                assert(m1 == m.update(i, (key, f1, addr)));
                assert(m1[i].0 == key);
                assert forall|j: int| 0 <= j < i implies (#[trigger] m1[j]).0 != key by {
                    assert(m1[j] == m[j]);
                }
                lemma_find_key_determined(m1, key, i);
                assert(m1[i].2 == addr);
            }
        },
        None => {
            let room = if m.len() >= limit {
                m.drop_first()
            } else {
                m
            };
            assert(m1 == room.push((key, f1, addr)));
            let n = m1.len() - 1;
            assert(m1[n].0 == key);
            assert forall|j: int| 0 <= j < n implies (#[trigger] m1[j]).0 != key by {
                if m.len() >= limit {
                    assert(m[j + 1].0 != key);
                    assert(m1[j] == m[j + 1]);
                } else {
                    assert(m[j].0 != key);
                }
            }
            lemma_find_key_determined(m1, key, n);
            assert(m1[n].2 == addr);
        },
    }
}

/// Law: with capacity 2 and three distinct-host addresses inserted in
/// order, FIFO eviction keeps exactly the last two entries, in order.
pub proof fn lemma_fifo_eviction_three(
    a: Seq<char>,
    b: Seq<char>,
    c: Seq<char>,
    f1: u64,
    f2: u64,
    f3: u64,
)
    requires
        base_address_spec(a) != base_address_spec(b),
        base_address_spec(a) != base_address_spec(c),
        base_address_spec(b) != base_address_spec(c),
    ensures
        ({
            let empty = Seq::<(Seq<char>, u64, Seq<char>)>::empty();
            let (m1, t1, c1) = step_get_or_create(empty, 2, a, f1);
            let (m2, t2, c2) = step_get_or_create(m1, 2, b, f2);
            let (m3, t3, c3) = step_get_or_create(m2, 2, c, f3);
            m3.len() == 2 && m3[0].0 == base_address_spec(b) && m3[1].0 == base_address_spec(c)
        }),
{
    let empty = Seq::<(Seq<char>, u64, Seq<char>)>::empty();
    let ka = base_address_spec(a);
    let kb = base_address_spec(b);
    let kc = base_address_spec(c);
    let (m1, t1, c1) = step_get_or_create(empty, 2, a, f1);
    assert(find_key(empty, ka) is None);
    assert(m1 =~= seq![(ka, f1, a)]);
    assert(m1.drop_first() =~= empty);
    assert(find_key(m1.drop_first(), kb) is None);
    assert(m1[0].0 == ka);
    assert(find_key(m1, kb) is None);
    let (m2, t2, c2) = step_get_or_create(m1, 2, b, f2);
    assert(m2 =~= seq![(ka, f1, a), (kb, f2, b)]);
    assert(m2.drop_first() =~= seq![(kb, f2, b)]);
    assert(m2.drop_first().drop_first() =~= empty);
    assert(find_key(m2.drop_first().drop_first(), kc) is None);
    assert(m2.drop_first()[0].0 == kb);
    assert(find_key(m2.drop_first(), kc) is None);
    assert(m2[0].0 == ka);
    assert(find_key(m2, kc) is None);
    let (m3, t3, c3) = step_get_or_create(m2, 2, c, f3);
    assert(m3 =~= seq![(kb, f2, b), (kc, f3, c)]);
}

} // verus!
