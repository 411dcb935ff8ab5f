//! A finite map keyed by device identity. It keeps its entries in insertion
//! order and never holds an identity twice.

use vstd::prelude::*;

verus! {

/// One entry of a `DeviceMap`.
#[derive(Debug)]
struct Slot<V> {
    id: String,
    value: V,
}

/// A map from device identity to `V`.
#[derive(Debug)]
pub struct DeviceMap<V> {
    entries: Vec<Slot<V>>,
}

impl<V> View for DeviceMap<V> {
    type V = Map<Seq<char>, V>;

    /// The map that the entries spell out.
    open spec fn view(&self) -> Map<Seq<char>, V> {
        Map::new(
            |k: Seq<char>| self.ids().contains(k),
            |k: Seq<char>| self.values()[self.ids().index_of(k)],
        )
    }
}

impl<V> DeviceMap<V> {
    /// The identities held, in insertion order.
    pub closed spec fn ids(&self) -> Seq<Seq<char>> {
        Seq::new(self.entries@.len(), |i: int| self.entries@[i].id@)
    }

    /// The values held; `values()[i]` belongs to `ids()[i]`.
    pub closed spec fn values(&self) -> Seq<V> {
        Seq::new(self.entries@.len(), |i: int| self.entries@[i].value)
    }

    /// No identity occurs twice, and every identity has its value.
    pub open spec fn wf(&self) -> bool {
        self.ids().no_duplicates() && self.ids().len() == self.values().len()
    }

    #[verifier::type_invariant]
    spec fn inv(&self) -> bool {
        self.wf()
    }

    /// In a well-formed map, entry `i` is what the map holds under `ids()[i]`.
    pub proof fn lemma_entry(&self, i: int)
        requires
            self.wf(),
            0 <= i < self.ids().len(),
        ensures
            self@.dom().contains(self.ids()[i]),
            self@[self.ids()[i]] == self.values()[i],
    {
        let k = self.ids()[i];
        assert(self.ids().contains(k));
        let j = self.ids().index_of(k);
        assert(self.ids()[j] == k);
    }

    /// The map holds exactly the listed identities, each once.
    pub proof fn lemma_dom(&self)
        requires
            self.wf(),
        ensures
            self@.dom() == self.ids().to_set(),
            self@.dom().finite(),
            self@.dom().len() == self.ids().len(),
    {
        assert(self@.dom() =~= self.ids().to_set());
        self.ids().unique_seq_to_set();
    }

    /// An empty map.
    pub fn new() -> (m: Self)
        ensures
            m@ == Map::<Seq<char>, V>::empty(),
            m.ids().len() == 0,
            m.wf(),
    {
        let m = DeviceMap { entries: Vec::new() };
        assert(m@ =~= Map::<Seq<char>, V>::empty());
        m
    }

    /// Number of identities held.
    pub fn len(&self) -> (n: usize)
        ensures
            n == self.ids().len(),
            n == self@.dom().len(),
            self.wf(),
    {
        proof {
            use_type_invariant(self);
            self.lemma_dom();
        }
        self.entries.len()
    }

    /// Where `id` is held, if it is.
    pub fn position(&self, id: &str) -> (r: Option<usize>)
        ensures
            self.wf(),
            r.is_some() == self@.dom().contains(id@),
            r matches Some(i) ==> i < self.ids().len() && self.ids()[i as int] == id@,
    {
        proof {
            use_type_invariant(self);
        }
        let key = id.to_owned();
        let mut i: usize = 0;
        while i < self.entries.len()
            invariant
                i <= self.entries@.len(),
                key@ == id@,
                self.wf(),
                forall|k: int| 0 <= k < i ==> self.ids()[k] != id@,
            decreases self.entries@.len() - i,
        {
            if self.entries[i].id == key {
                assert(self.ids()[i as int] == id@);
                return Some(i);
            }
            i += 1;
        }
        None
    }

    /// Tells whether `id` is held.
    pub fn contains_key(&self, id: &str) -> (b: bool)
        ensures
            b == self@.dom().contains(id@),
    {
        self.position(id).is_some()
    }

    /// The value held under `id`, if any.
    pub fn get(&self, id: &str) -> (r: Option<&V>)
        ensures
            r.is_some() == self@.dom().contains(id@),
            r matches Some(v) ==> *v == self@[id@],
    {
        match self.position(id) {
            Some(i) => {
                proof {
                    self.lemma_entry(i as int);
                }
                Some(&self.entries[i].value)
            },
            None => None,
        }
    }

    /// The identity at position `i` of the insertion order.
    pub fn id_at(&self, i: usize) -> (id: &String)
        requires
            i < self.ids().len(),
        ensures
            id@ == self.ids()[i as int],
    {
        &self.entries[i].id
    }

    /// The value at position `i` of the insertion order.
    pub fn value_at(&self, i: usize) -> (v: &V)
        requires
            i < self.ids().len(),
        ensures
            *v == self.values()[i as int],
            self.wf() ==> *v == self@[self.ids()[i as int]],
    {
        proof {
            if self.wf() {
                self.lemma_entry(i as int);
            }
        }
        &self.entries[i].value
    }

    /// Puts `value` under `id`, replacing what was held there. A new
    /// identity goes to the end of the order; a known one keeps its place.
    pub fn insert(&mut self, id: String, value: V)
        ensures
            final(self)@ == old(self)@.insert(id@, value),
            final(self).wf(),
            old(self)@.dom().contains(id@) ==> final(self).ids() == old(self).ids(),
            !old(self)@.dom().contains(id@) ==> final(self).ids() == old(self).ids().push(id@),
            !old(self)@.dom().contains(id@) ==> final(self).values() == old(self).values().push(
                value,
            ),
    {
        proof {
            use_type_invariant(&*self);
        }
        let ghost before = *self;
        let found = self.position(id.as_str());
        let mut taken = DeviceMap { entries: Vec::new() };
        core::mem::swap(self, &mut taken);
        let mut entries = taken.entries;
        match found {
            Some(i) => {
                entries.set(i, Slot { id, value });
            },
            None => {
                entries.push(Slot { id, value });
            },
        }
        proof {
            let ghost after = DeviceMap { entries };
            match found {
                Some(i) => {
                    assert(after.ids() =~= before.ids());
                    assert(after.values() =~= before.values().update(i as int, value));
                    Self::lemma_replaced(before, after, i as int, value);
                },
                None => {
                    assert(after.ids() =~= before.ids().push(id@));
                    assert(after.values() =~= before.values().push(value));
                    Self::lemma_appended(before, after, id@, value);
                },
            }
        }
        *self = DeviceMap { entries };
    }

    proof fn lemma_replaced(before: Self, after: Self, i: int, value: V)
        requires
            before.wf(),
            0 <= i < before.ids().len(),
            after.ids() == before.ids(),
            after.values() == before.values().update(i, value),
        ensures
            after.wf(),
            after@ == before@.insert(before.ids()[i], value),
    {
        let id = before.ids()[i];
        let target = before@.insert(id, value);
        assert forall|k: Seq<char>| after@.dom().contains(k) == target.dom().contains(k) by {
            if k == id {
                assert(after.ids()[i] == k);
            }
        }
        assert forall|k: Seq<char>| after@.dom().contains(k) implies #[trigger] after@[k]
            == target[k] by {
            let j = after.ids().index_of(k);
            assert(after.ids()[j] == k);
        }
        assert(after@ =~= target);
    }

    proof fn lemma_appended(before: Self, after: Self, id: Seq<char>, value: V)
        requires
            before.wf(),
            !before.ids().contains(id),
            after.ids() == before.ids().push(id),
            after.values() == before.values().push(value),
        ensures
            after.wf(),
            after@ == before@.insert(id, value),
            !before@.dom().contains(id),
    {
        let n = before.ids().len() as int;
        let target = before@.insert(id, value);
        assert forall|a: int, b: int|
            0 <= a < after.ids().len() && 0 <= b < after.ids().len() && a != b implies after.ids()[a]
            != after.ids()[b] by {
            if a < n && b < n {
                assert(before.ids()[a] != before.ids()[b]);
            } else if a < n {
                assert(before.ids()[a] == after.ids()[a]);
            } else {
                assert(before.ids()[b] == after.ids()[b]);
            }
        }
        assert forall|k: Seq<char>| after@.dom().contains(k) == target.dom().contains(k) by {
            if before.ids().contains(k) {
                let j = before.ids().index_of(k);
                assert(after.ids()[j] == k);
            }
            if k == id {
                assert(after.ids()[n] == k);
            }
            if after.ids().contains(k) {
                let j = after.ids().index_of(k);
                if j < n {
                    assert(before.ids()[j] == k);
                }
            }
        }
        assert forall|k: Seq<char>| after@.dom().contains(k) implies #[trigger] after@[k]
            == target[k] by {
            let j = after.ids().index_of(k);
            assert(after.ids()[j] == k);
            if k != id {
                assert(j < n);
                assert(before.ids()[j] == k);
                let j2 = before.ids().index_of(k);
                assert(before.ids()[j2] == k);
            }
        }
        assert(after@ =~= target);
    }
}

impl<V: Clone> Clone for DeviceMap<V> {
    /// A copy with the same identities in the same order, each value cloned.
    fn clone(&self) -> (r: Self)
        ensures
            r.wf(),
            r.ids() == self.ids(),
            r@.dom() == self@.dom(),
            forall|i: int|
                0 <= i < self.values().len() ==> cloned::<V>(
                    #[trigger] self.values()[i],
                    r.values()[i],
                ),
            forall|k: Seq<char>| #[trigger]
                r@.dom().contains(k) ==> cloned::<V>(self@[k], r@[k]),
    {
        proof {
            use_type_invariant(self);
        }
        let mut entries: Vec<Slot<V>> = Vec::new();
        let mut i: usize = 0;
        while i < self.entries.len()
            invariant
                i <= self.entries@.len(),
                entries@.len() == i,
                forall|k: int| 0 <= k < i ==> (#[trigger] entries@[k]).id@ == self.entries@[k].id@,
                forall|k: int|
                    0 <= k < i ==> cloned::<V>(self.entries@[k].value, (#[trigger] entries@[k]).value),
            decreases self.entries@.len() - i,
        {
            let slot = Slot { id: self.entries[i].id.clone(), value: self.entries[i].value.clone() };
            entries.push(slot);
            i += 1;
        }
        proof {
            let ghost r = DeviceMap { entries };
            assert(r.ids() =~= self.ids());
            assert(r@.dom() =~= self@.dom());
            assert forall|j: int| 0 <= j < self.values().len() implies cloned::<V>(
                #[trigger] self.values()[j],
                r.values()[j],
            ) by {
                assert(entries@[j].id@ == self.entries@[j].id@);
            }
            assert forall|k: Seq<char>| #[trigger] r@.dom().contains(k) implies cloned::<V>(
                self@[k],
                r@[k],
            ) by {
                let j = self.ids().index_of(k);
                assert(self.ids()[j] == k);
                assert(cloned::<V>(self.values()[j], r.values()[j]));
            }
        }
        DeviceMap { entries }
    }
}

/// Some string of `names` spells `k`.
pub open spec fn lists(names: Seq<String>, k: Seq<char>) -> bool {
    exists|i: int| 0 <= i < names.len() && (#[trigger] names[i])@ == k
}

/// The views of the strings, in order.
pub open spec fn texts(lines: Seq<String>) -> Seq<Seq<char>> {
    Seq::new(lines.len(), |i: int| lines[i]@)
}

/// The identities whose flag is set, in order.
pub open spec fn flagged(ids: Seq<Seq<char>>, flags: Seq<bool>) -> Seq<Seq<char>>
    decreases ids.len(),
{
    if ids.len() == 0 || flags.len() != ids.len() {
        Seq::empty()
    } else {
        let before = flagged(ids.drop_last(), flags.drop_last());
        if flags.last() {
            before.push(ids.last())
        } else {
            before
        }
    }
}

impl DeviceMap<bool> {
    /// A copy that holds the same flags under the same identities.
    pub fn duplicate(&self) -> (r: Self)
        ensures
            r@ == self@,
            r.ids() == self.ids(),
            r.values() == self.values(),
            r.wf(),
    {
        let r = self.clone();
        proof {
            assert(r.values() =~= self.values());
            assert(r@ =~= self@);
        }
        r
    }

    /// The identities whose flag is set, in insertion order.
    pub fn enabled_ids(&self) -> (r: Vec<String>)
        ensures
            texts(r@) == flagged(self.ids(), self.values()),
            forall|k: Seq<char>| #[trigger] lists(r@, k) <==> (self@.dom().contains(k) && self@[k]),
            forall|i: int, j: int| 0 <= i < j < r@.len() ==> r@[i]@ != r@[j]@,
    {
        proof {
            use_type_invariant(self);
        }
        let mut out: Vec<String> = Vec::new();
        let ghost mut src: Seq<int> = Seq::empty();
        let mut i: usize = 0;
        proof {
            assert(self.ids().take(0) =~= Seq::<Seq<char>>::empty());
            assert(texts(out@) =~= Seq::<Seq<char>>::empty());
        }
        while i < self.len()
            invariant
                self.wf(),
                i <= self.ids().len(),
                src.len() == out@.len(),
                forall|a: int|
                    0 <= a < src.len() ==> 0 <= #[trigger] src[a] < i && self.ids()[src[a]]
                        == out@[a]@ && self.values()[src[a]],
                forall|a: int, c: int| 0 <= a < c < src.len() ==> src[a] < src[c],
                forall|b: int| 0 <= b < i && #[trigger] self.values()[b] ==> src.contains(b),
                texts(out@) == flagged(self.ids().take(i as int), self.values().take(i as int)),
            decreases self.ids().len() - i,
        {
            proof {
                let ids = self.ids().take(i as int + 1);
                let flags = self.values().take(i as int + 1);
                assert(ids.drop_last() =~= self.ids().take(i as int));
                assert(flags.drop_last() =~= self.values().take(i as int));
                assert(ids.last() == self.ids()[i as int]);
                assert(flags.last() == self.values()[i as int]);
            }
            let ghost listed = texts(out@);
            if *self.value_at(i) {
                let id = self.id_at(i).clone();
                let ghost prev = src;
                out.push(id);
                proof {
                    assert(texts(out@) =~= listed.push(self.ids()[i as int]));
                    src = src.push(i as int);
                    assert forall|b: int| 0 <= b < i + 1 && #[trigger] self.values()[b] implies src.contains(
                        b,
                    ) by {
                        if b < i {
                            let a = prev.index_of(b);
                            assert(src[a] == b);
                        } else {
                            assert(src[prev.len() as int] == b);
                        }
                    }
                }
            }
            i += 1;
        }
        proof {
            assert(self.ids().take(i as int) =~= self.ids());
            assert(self.values().take(i as int) =~= self.values());
            assert forall|a: int, c: int| 0 <= a < c < out@.len() implies out@[a]@ != out@[c]@ by {
                assert(src[a] < src[c]);
                assert(self.ids()[src[a]] != self.ids()[src[c]]);
            }
            assert forall|k: Seq<char>| #[trigger] lists(out@, k) <==> (self@.dom().contains(k)
                && self@[k]) by {
                if lists(out@, k) {
                    let a = choose|i: int| 0 <= i < out@.len() && (#[trigger] out@[i])@ == k;
                    self.lemma_entry(src[a]);
                }
                if self@.dom().contains(k) && self@[k] {
                    let b = self.ids().index_of(k);
                    assert(self.ids()[b] == k);
                    self.lemma_entry(b);
                    assert(self.values()[b]);
                    let a = src.index_of(b);
                    assert(src[a] == b);
                    assert(out@[a]@ == k);
                }
            }
        }
        out
    }
}

} // verus!
