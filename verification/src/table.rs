//! Records kept by address: a map in which no address occurs twice.

use crate::state::Key;
use vstd::prelude::*;

verus! {

/// A record and the address it lives at.
pub struct Entry<R> {
    pub address: Key,
    pub record: R,
}

/// The records of one kind, each at its own address.
pub struct Table<R> {
    entries: Vec<Entry<R>>,
}

impl<R: View> View for Table<R> {
    type V = Map<Seq<u8>, R::V>;

    /// The record at each occupied address.
    closed spec fn view(&self) -> Map<Seq<u8>, R::V> {
        Map::new(
            |a: Seq<u8>| self.holds(a),
            |a: Seq<u8>| self.entries@[self.index_of(a)].record@,
        )
    }
}

impl<R: View> Table<R> {
    /// No address occurs twice.
    pub closed spec fn wf(&self) -> bool {
        forall|i: int, j: int|
            0 <= i < j < self.entries@.len() ==> self.entries@[i].address@
                != self.entries@[j].address@
    }

    spec fn holds(&self, a: Seq<u8>) -> bool {
        exists|i: int| 0 <= i < self.entries@.len() && self.entries@[i].address@ == a
    }

    spec fn index_of(&self, a: Seq<u8>) -> int {
        choose|i: int| 0 <= i < self.entries@.len() && self.entries@[i].address@ == a
    }

    proof fn lemma_entry(&self, i: int)
        requires
            self.wf(),
            0 <= i < self.entries@.len(),
        ensures
            self@.contains_key(self.entries@[i].address@),
            self@[self.entries@[i].address@] == self.entries@[i].record@,
            self.index_of(self.entries@[i].address@) == i,
    {
        let a = self.entries@[i].address@;
        assert(self.holds(a));
        let j = self.index_of(a);
        assert(0 <= j < self.entries@.len() && self.entries@[j].address@ == a);
        if j < i {
            assert(self.entries@[j].address@ != self.entries@[i].address@);
        }
        if i < j {
            assert(self.entries@[i].address@ != self.entries@[j].address@);
        }
    }

    proof fn lemma_absent(&self, a: Seq<u8>)
        requires
            forall|i: int| 0 <= i < self.entries@.len() ==> self.entries@[i].address@ != a,
        ensures
            !self@.contains_key(a),
    {
    }

    /// A table without records.
    pub fn new() -> (table: Table<R>)
        ensures
            table.wf(),
            table@ == Map::<Seq<u8>, R::V>::empty(),
    {
        let table = Table { entries: Vec::new() };
        assert(table@ =~= Map::<Seq<u8>, R::V>::empty());
        table
    }

    fn position(&self, address: &Key) -> (found: Option<usize>)
        requires
            self.wf(),
        ensures
            match found {
                Some(i) => i < self.entries@.len() && self.entries@[i as int].address@
                    == address@ && self@.contains_key(address@) && self@[address@]
                    == self.entries@[i as int].record@,
                None => !self@.contains_key(address@),
            },
    {
        let mut i: usize = 0;
        while i < self.entries.len()
            invariant
                self.wf(),
                i <= self.entries@.len(),
                forall|k: int| 0 <= k < i ==> self.entries@[k].address@ != address@,
            decreases self.entries@.len() - i,
        {
            if self.entries[i].address.same(address) {
                proof {
                    self.lemma_entry(i as int);
                }
                return Some(i);
            }
            i += 1;
        }
        proof {
            self.lemma_absent(address@);
        }
        None
    }

    /// Whether a record lives at this address.
    pub fn contains(&self, address: &Key) -> (occupied: bool)
        requires
            self.wf(),
        ensures
            occupied == self@.contains_key(address@),
    {
        self.position(address).is_some()
    }

    /// The record at this address, if one lives there.
    pub fn get(&self, address: &Key) -> (record: Option<&R>)
        requires
            self.wf(),
        ensures
            record is Some == self@.contains_key(address@),
            record matches Some(r) ==> r@ == self@[address@],
    {
        match self.position(address) {
            Some(i) => Some(&self.entries[i].record),
            None => None,
        }
    }

    /// Puts a record at this address unless one lives there already, in one
    /// step. Returns the record back where the address is occupied.
    pub fn insert(&mut self, address: Key, record: R) -> (refused: Option<R>)
        requires
            old(self).wf(),
        ensures
            final(self).wf(),
            refused is Some == old(self)@.contains_key(address@),
            refused matches Some(r) ==> r == record && final(self)@ == old(self)@,
            refused is None ==> final(self)@ == old(self)@.insert(address@, record@),
    {
        if self.position(&address).is_some() {
            return Some(record);
        }
        let ghost before = *self;
        self.entries.push(Entry { address, record });
        proof {
            let n = before.entries@.len() as int;
            assert(self.entries@[n].address@ == address@);
            assert forall|k: int| 0 <= k < n implies self.entries@[k] == before.entries@[k] by {}
            assert forall|k: int| 0 <= k < n implies self.entries@[k].address@ != address@ by {
                if before.entries@[k].address@ == address@ {
                    before.lemma_entry(k);
                }
            }
            assert(self.wf());
            self.lemma_entry(n);
            assert forall|a: Seq<u8>| #[trigger]
                self@.contains_key(a) == before@.insert(address@, record@).contains_key(a) by {
                if self.holds(a) {
                    let k = self.index_of(a);
                    if k < n {
                        before.lemma_entry(k);
                    }
                }
                if before.holds(a) {
                    let k = before.index_of(a);
                    self.lemma_entry(k);
                }
            }
            assert forall|a: Seq<u8>| #[trigger] self@.contains_key(a) implies self@[a]
                == before@.insert(address@, record@)[a] by {
                let k = self.index_of(a);
                self.lemma_entry(k);
                if k < n {
                    before.lemma_entry(k);
                }
            }
            assert(self@ =~= before@.insert(address@, record@));
        }
        None
    }

    /// Takes the record at this address out, if one lives there.
    pub fn remove(&mut self, address: &Key) -> (record: Option<R>)
        requires
            old(self).wf(),
        ensures
            final(self).wf(),
            record is Some == old(self)@.contains_key(address@),
            record matches Some(r) ==> r@ == old(self)@[address@] && final(self)@ == old(
                self,
            )@.remove(address@),
            record is None ==> final(self)@ == old(self)@,
    {
        let ghost before = *self;
        match self.position(address) {
            Some(i) => {
                let entry = self.entries.remove(i);
                proof {
                    let n = before.entries@.len() as int;
                    let p = i as int;
                    assert forall|k: int| 0 <= k < n - 1 implies self.entries@[k]
                        == before.entries@[if k < p { k } else { k + 1 }] by {}
                    assert(self.wf()) by {
                        assert forall|x: int, y: int|
                            0 <= x < y < self.entries@.len() implies self.entries@[x].address@
                            != self.entries@[y].address@ by {
                            let x0 = if x < p { x } else { x + 1 };
                            let y0 = if y < p { y } else { y + 1 };
                            assert(before.entries@[x0].address@ != before.entries@[y0].address@);
                        }
                    }
                    assert forall|a: Seq<u8>| #[trigger]
                        self@.contains_key(a) == before@.remove(address@).contains_key(a) by {
                        if self.holds(a) {
                            let k = self.index_of(a);
                            let k0 = if k < p { k } else { k + 1 };
                            before.lemma_entry(k0);
                            before.lemma_entry(p);
                        }
                        if before.holds(a) && a != address@ {
                            let k = before.index_of(a);
                            let k1 = if k < p { k } else { k - 1 };
                            self.lemma_entry(k1);
                        }
                    }
                    assert forall|a: Seq<u8>| #[trigger] self@.contains_key(a) implies self@[a]
                        == before@.remove(address@)[a] by {
                        let k = self.index_of(a);
                        self.lemma_entry(k);
                        let k0 = if k < p { k } else { k + 1 };
                        before.lemma_entry(k0);
                    }
                    assert(self@ =~= before@.remove(address@));
                }
                Some(entry.record)
            },
            None => None,
        }
    }
}

} // verus!
