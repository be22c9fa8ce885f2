//! Values that are kept under a text for a while.

use vstd::prelude::*;
use crate::text;

verus! {

/// A value, and when it was stored.
pub struct Kept<V> {
    pub value: V,
    pub at: u64,
}

/// A value under its key.
struct Entry<V> {
    key: String,
    value: V,
    at: u64,
}

/// Values under texts, each with the time at which it was stored. Times are read off
/// a clock that only goes forward, in any unit.
pub struct Expiring<V> {
    entries: Vec<Entry<V>>,
}

/// How long ago `at` was.
pub open spec fn age(at: u64, now: u64) -> int {
    if now < at {
        0
    } else {
        now - at
    }
}

/// What is left at `now` of values that live for `ttl`.
pub open spec fn live<V>(m: Map<Seq<char>, Kept<V>>, now: u64, ttl: u64) -> Map<Seq<char>, Kept<V>> {
    Map::new(
        |k: Seq<char>| m.contains_key(k) && age(m[k].at, now) < ttl,
        |k: Seq<char>| m[k],
    )
}

/// No two entries have the same key.
spec fn distinct<V>(v: Seq<Entry<V>>) -> bool {
    forall|i: int, j: int|
        0 <= i < j < v.len() ==> (#[trigger] v[i]).key@ != (#[trigger] v[j]).key@
}

/// Some entry has the key.
spec fn has_key<V>(v: Seq<Entry<V>>, k: Seq<char>) -> bool {
    exists|i: int| 0 <= i < v.len() && (#[trigger] v[i]).key@ == k
}

/// Where the key stands.
spec fn place<V>(v: Seq<Entry<V>>, k: Seq<char>) -> int {
    choose|i: int| 0 <= i < v.len() && (#[trigger] v[i]).key@ == k
}

/// The entries by their keys.
spec fn contents<V>(v: Seq<Entry<V>>) -> Map<Seq<char>, Kept<V>> {
    Map::new(
        |k: Seq<char>| has_key(v, k),
        |k: Seq<char>| Kept { value: v[place(v, k)].value, at: v[place(v, k)].at },
    )
}

/// An entry is found under its key.
proof fn lemma_found<V>(v: Seq<Entry<V>>, i: int)
    requires
        distinct(v),
        0 <= i < v.len(),
    ensures
        contents(v).contains_key(v[i].key@),
        contents(v)[v[i].key@] == (Kept { value: v[i].value, at: v[i].at }),
{
    let k = v[i].key@;
    assert(has_key(v, k));
    let p = place(v, k);
    assert(v[p].key@ == k);
    assert(p == i);
}

/// Taking an entry out takes its key out.
proof fn lemma_taken<V>(v: Seq<Entry<V>>, i: int)
    requires
        distinct(v),
        0 <= i < v.len(),
    ensures
        distinct(v.remove(i)),
        contents(v.remove(i)) == contents(v).remove(v[i].key@),
{
    let w = v.remove(i);
    assert(distinct(w)) by {
        assert forall|a: int, b: int| 0 <= a < b < w.len() implies (#[trigger] w[a]).key@ != (
        #[trigger] w[b]).key@ by {
            let x = if a < i {
                a
            } else {
                a + 1
            };
            let y = if b < i {
                b
            } else {
                b + 1
            };
            assert(w[a] == v[x] && w[b] == v[y]);
        }
    }
    let gone = v[i].key@;
    assert forall|k: Seq<char>| #[trigger] contents(w).contains_key(k) implies contents(
        v,
    ).contains_key(k) && k != gone && contents(w)[k] == contents(v)[k] by {
        let p = place(w, k);
        let q = if p < i {
            p
        } else {
            p + 1
        };
        assert(w[p] == v[q]);
        assert(v[q].key@ == k);
        lemma_found(v, q);
        lemma_found(w, p);
    }
    assert forall|k: Seq<char>| contents(v).contains_key(k) && k != gone implies #[trigger] contents(
        w,
    ).contains_key(k) by {
        let q = place(v, k);
        assert(v[q].key@ == k);
        if q < i {
            assert(w[q] == v[q]);
        } else {
            assert(w[q - 1] == v[q]);
        }
    }
    assert(contents(w) =~= contents(v).remove(gone));
}

/// Adding an entry adds its key.
proof fn lemma_added<V>(v: Seq<Entry<V>>, e: Entry<V>)
    requires
        distinct(v),
        !has_key(v, e.key@),
    ensures
        distinct(v.push(e)),
        contents(v.push(e)) == contents(v).insert(e.key@, Kept { value: e.value, at: e.at }),
{
    let w = v.push(e);
    assert(distinct(w)) by {
        assert forall|a: int, b: int| 0 <= a < b < w.len() implies (#[trigger] w[a]).key@ != (
        #[trigger] w[b]).key@ by {
            assert(w[a] == v[a]);
            if b < v.len() {
                assert(w[b] == v[b]);
            } else {
                assert(has_key(v, v[a].key@));
            }
        }
    }
    lemma_found(w, v.len() as int);
    assert forall|k: Seq<char>| #[trigger] contents(w).contains_key(k) implies (k == e.key@ || (
    contents(v).contains_key(k) && contents(w)[k] == contents(v)[k])) by {
        let p = place(w, k);
        if p < v.len() {
            assert(w[p] == v[p]);
            assert(v[p].key@ == k);
            lemma_found(v, p);
            lemma_found(w, p);
        }
    }
    assert forall|k: Seq<char>| contents(v).contains_key(k) implies #[trigger] contents(
        w,
    ).contains_key(k) by {
        let p = place(v, k);
        assert(w[p] == v[p]);
    }
    assert(contents(w) =~= contents(v).insert(e.key@, Kept { value: e.value, at: e.at }));
}

/// There are as many keys as entries.
proof fn lemma_count<V>(v: Seq<Entry<V>>)
    requires
        distinct(v),
    ensures
        contents(v).dom().finite(),
        contents(v).dom().len() == v.len(),
    decreases v.len(),
{
    if v.len() == 0 {
        assert(contents(v).dom() =~= Set::empty());
    } else {
        let last = v.len() - 1;
        let w = v.remove(last);
        lemma_taken(v, last);
        lemma_count(w);
        lemma_found(v, last);
        let k = v[last].key@;
        assert(contents(v).dom() =~= contents(w).dom().insert(k));
    }
}

impl<V> View for Expiring<V> {
    type V = Map<Seq<char>, Kept<V>>;

    closed spec fn view(&self) -> Map<Seq<char>, Kept<V>> {
        contents(self.entries@)
    }
}

impl<V> Expiring<V> {
    #[verifier::type_invariant]
    spec fn inv(self) -> bool {
        distinct(self.entries@)
    }

    /// Nothing.
    pub fn new() -> (s: Self)
        ensures
            s@ == Map::<Seq<char>, Kept<V>>::empty(),
    {
        let entries: Vec<Entry<V>> = Vec::new();
        assert(contents(entries@) =~= Map::empty());
        Expiring { entries }
    }

    /// Where the key stands, if it is there.
    fn find(&self, key: &str) -> (r: Option<usize>)
        ensures
            match r {
                Some(i) => i < self.entries@.len() && self.entries@[i as int].key@ == key@,
                None => !has_key(self.entries@, key@),
            },
    {
        let mut i: usize = 0;
        while i < self.entries.len()
            invariant
                i <= self.entries@.len(),
                forall|j: int| 0 <= j < i ==> (#[trigger] self.entries@[j]).key@ != key@,
            decreases self.entries@.len() - i,
        {
            if text::same(self.entries[i].key.as_str(), key) {
                return Some(i);
            }
            i += 1;
        }
        None
    }

    /// The value under a key.
    pub fn get(&self, key: &str) -> (r: Option<&V>)
        ensures
            match r {
                Some(v) => self@.contains_key(key@) && *v == self@[key@].value,
                None => !self@.contains_key(key@),
            },
    {
        proof {
            use_type_invariant(self);
        }
        match self.find(key) {
            Some(i) => {
                proof {
                    lemma_found(self.entries@, i as int);
                }
                Some(&self.entries[i].value)
            },
            None => None,
        }
    }

    /// Takes the value under a key out.
    pub fn take(&mut self, key: &str) -> (r: Option<V>)
        ensures
            final(self)@ == old(self)@.remove(key@),
            match r {
                Some(v) => old(self)@.contains_key(key@) && v == old(self)@[key@].value,
                None => !old(self)@.contains_key(key@),
            },
    {
        proof {
            use_type_invariant(&*self);
        }
        let ghost before = self.entries@;
        match self.find(key) {
            Some(i) => {
                let mut list: Vec<Entry<V>> = Vec::new();
                std::mem::swap(&mut list, &mut self.entries);
                proof {
                    lemma_found(before, i as int);
                    lemma_taken(before, i as int);
                }
                let e = list.remove(i);
                std::mem::swap(&mut list, &mut self.entries);
                Some(e.value)
            },
            None => {
                assert(self@ =~= old(self)@.remove(key@));
                None
            },
        }
    }

    /// Stores a value under a key, in place of the one that was there.
    pub fn put(&mut self, key: String, value: V, at: u64)
        ensures
            final(self)@ == old(self)@.insert(key@, Kept { value, at }),
    {
        let ghost before = self@;
        let ghost k = key@;
        let gone = self.take(key.as_str());
        proof {
            use_type_invariant(&*self);
        }
        let ghost rest = self.entries@;
        let mut list: Vec<Entry<V>> = Vec::new();
        std::mem::swap(&mut list, &mut self.entries);
        let e = Entry { key, value, at };
        assert(!has_key(rest, k)) by {
            assert(!contents(rest).contains_key(k));
        }
        proof {
            lemma_added(rest, e);
        }
        list.push(e);
        std::mem::swap(&mut list, &mut self.entries);
        assert(self@ =~= before.insert(k, Kept { value, at }));
    }

    /// Drops what has lived for `ttl` or longer.
    pub fn sweep(&mut self, now: u64, ttl: u64)
        ensures
            final(self)@ == live(old(self)@, now, ttl),
    {
        proof {
            use_type_invariant(&*self);
        }
        let ghost before = self.entries@;
        let mut list: Vec<Entry<V>> = Vec::new();
        std::mem::swap(&mut list, &mut self.entries);
        let mut kept: Vec<Entry<V>> = Vec::new();
        while list.len() > 0
            invariant
                list@.len() <= before.len(),
                list@ =~= before.take(list@.len() as int),
                distinct(before),
                distinct(kept@),
                forall|m: int|
                    0 <= m < kept@.len() ==> age((#[trigger] kept@[m]).at, now) < ttl && exists|
                        i: int,
                    |
                        list@.len() <= i < before.len() && #[trigger] before[i] == kept@[m],
                forall|i: int|
                    list@.len() <= i < before.len() && age((#[trigger] before[i]).at, now) < ttl
                        ==> kept@.contains(before[i]),
            decreases list@.len(),
        {
            let ghost n = list@.len() - 1;
            let e = list.remove(list.len() - 1);
            assert(e == before[n]);
            let old_enough = now >= e.at && now - e.at >= ttl;
            let too_old = old_enough || (now < e.at && ttl == 0);
            let ghost earlier = kept@;
            if !too_old {
                proof {
                    assert(!has_key(earlier, e.key@)) by {
                        if has_key(earlier, e.key@) {
                            let p = place(earlier, e.key@);
                            assert(earlier[p].key@ == e.key@);
                            let i = choose|i: int|
                                n + 1 <= i < before.len() && #[trigger] before[i] == earlier[p];
                            assert(before[n].key@ != before[i].key@);
                        }
                    }
                    lemma_added(earlier, e);
                }
                kept.push(e);
                assert forall|i: int|
                    n <= i < before.len() && age((#[trigger] before[i]).at, now)
                        < ttl implies kept@.contains(before[i]) by {
                    if i == n {
                        assert(kept@[earlier.len() as int] == before[i]);
                    } else {
                        let p = choose|p: int| 0 <= p < earlier.len() && earlier[p] == before[i];
                        assert(kept@[p] == before[i]);
                    }
                }
                assert forall|m: int| 0 <= m < kept@.len() implies age(
                    (#[trigger] kept@[m]).at,
                    now,
                ) < ttl && exists|i: int|
                    n <= i < before.len() && #[trigger] before[i] == kept@[m] by {
                    if m < earlier.len() {
                        assert(kept@[m] == earlier[m]);
                    } else {
                        assert(before[n] == kept@[m]);
                    }
                }
            }
        }
        proof {
            let a = contents(kept@);
            let b = live(contents(before), now, ttl);
            assert forall|k: Seq<char>| #[trigger] a.contains_key(k) implies b.contains_key(k)
                && a[k] == b[k] by {
                let p = place(kept@, k);
                assert(kept@[p].key@ == k);
                let i = choose|i: int| 0 <= i < before.len() && #[trigger] before[i] == kept@[p];
                lemma_found(before, i);
                lemma_found(kept@, p);
            }
            assert forall|k: Seq<char>| #[trigger] b.contains_key(k) implies a.contains_key(k) by {
                let i = place(before, k);
                assert(before[i].key@ == k);
                lemma_found(before, i);
                assert(kept@.contains(before[i]));
                let p = choose|p: int| 0 <= p < kept@.len() && kept@[p] == before[i];
                assert(kept@[p].key@ == k);
            }
            assert(a =~= b);
        }
        std::mem::swap(&mut kept, &mut self.entries);
    }

    /// How many values there are.
    pub fn len(&self) -> (n: usize)
        ensures
            n == self@.dom().len(),
    {
        proof {
            use_type_invariant(self);
            lemma_count(self.entries@);
        }
        self.entries.len()
    }
}

} // verus!
