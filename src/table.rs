use vstd::prelude::*;

use crate::types::PeerId;

verus! {

/// One row of a [`Table`].
#[derive(Clone, Copy, Debug)]
pub struct Entry<T> {
    pub id: PeerId,
    pub value: T,
}

/// A map from peer identifiers to values, kept as a vector of rows with distinct keys.
pub struct Table<T> {
    rows: Vec<Entry<T>>,
    map: Ghost<Map<PeerId, T>>,
}

impl<T> View for Table<T> {
    type V = Map<PeerId, T>;

    closed spec fn view(&self) -> Map<PeerId, T> {
        self.map@
    }
}

impl<T: Copy> Table<T> {
    /// The rows have distinct keys and hold exactly the pairs of the map.
    pub closed spec fn wf(&self) -> bool {
        &&& forall|i: int, j: int|
            0 <= i < self.rows@.len() && 0 <= j < self.rows@.len() && i != j
                ==> self.rows@[i].id != self.rows@[j].id
        &&& forall|i: int|
            0 <= i < self.rows@.len() ==> #[trigger] self.map@.contains_key(self.rows@[i].id)
                && self.map@[self.rows@[i].id] == self.rows@[i].value
        &&& forall|k: PeerId|
            #[trigger] self.map@.contains_key(k) ==> exists|i: int|
                0 <= i < self.rows@.len() && self.rows@[i].id == k
    }

    pub fn new() -> (r: Self)
        ensures
            r.wf(),
            r@ == Map::<PeerId, T>::empty(),
    {
        Table { rows: Vec::new(), map: Ghost(Map::empty()) }
    }

    /// Index of the row with key `id`, if any.
    fn find(&self, id: &PeerId) -> (r: Option<usize>)
        requires
            self.wf(),
        ensures
            match r {
                Some(i) => i < self.rows@.len() && self.rows@[i as int].id == *id,
                None => !self@.contains_key(*id),
            },
    {
        let mut i: usize = 0;
        while i < self.rows.len()
            invariant
                self.wf(),
                i <= self.rows@.len(),
                forall|j: int| 0 <= j < i ==> self.rows@[j].id != *id,
            decreases self.rows@.len() - i,
        {
            if self.rows[i].id == *id {
                proof {
                    PeerId::lemma_bytes_eq(self.rows@[i as int].id, *id);
                }
                return Some(i);
            }
            i = i + 1;
        }
        None
    }

    pub fn get(&self, id: &PeerId) -> (r: Option<T>)
        requires
            self.wf(),
        ensures
            r == (if self@.contains_key(*id) {
                Some(self@[*id])
            } else {
                None
            }),
    {
        match self.find(id) {
            Some(i) => Some(self.rows[i].value),
            None => None,
        }
    }

    pub fn contains(&self, id: &PeerId) -> (r: bool)
        requires
            self.wf(),
        ensures
            r == self@.contains_key(*id),
    {
        self.find(id).is_some()
    }

    /// Adds a pair whose key is not yet present.
    pub fn insert_new(&mut self, id: PeerId, value: T)
        requires
            old(self).wf(),
            !old(self)@.contains_key(id),
        ensures
            final(self).wf(),
            final(self)@ == old(self)@.insert(id, value),
    {
        let ghost old_rows = self.rows@;
        self.rows.push(Entry { id, value });
        self.map = Ghost(self.map@.insert(id, value));
        proof {
            let n = old_rows.len() as int;
            assert(self.rows@[n].id == id);
            assert forall|k: PeerId| #[trigger] self.map@.contains_key(k) implies exists|i: int|
                0 <= i < self.rows@.len() && self.rows@[i].id == k by {
                if k != id {
                    let i = choose|i: int| 0 <= i < old_rows.len() && old_rows[i].id == k;
                    assert(self.rows@[i] == old_rows[i]);
                }
            }
        }
    }

    /// Removes the pair with key `id` and returns its value, if there was one.
    pub fn remove(&mut self, id: &PeerId) -> (r: Option<T>)
        requires
            old(self).wf(),
        ensures
            final(self).wf(),
            final(self)@ == old(self)@.remove(*id),
            r == (if old(self)@.contains_key(*id) {
                Some(old(self)@[*id])
            } else {
                None
            }),
    {
        match self.find(id) {
            None => {
                assert(self.map@.remove(*id) =~= self.map@);
                None
            },
            Some(idx) => {
                let ghost old_rows = self.rows@;
                let ghost old_map = self.map@;
                let e = self.rows.remove(idx);
                self.map = Ghost(self.map@.remove(*id));
                proof {
                    let rows = self.rows@;
                    assert forall|i: int| 0 <= i < rows.len() implies #[trigger] rows[i]
                        == old_rows[if i < idx { i } else { i + 1 }] by {}
                    assert forall|i: int| 0 <= i < rows.len() implies #[trigger] self.map@.contains_key(
                        rows[i].id) && self.map@[rows[i].id] == rows[i].value by {
                        let j = if i < idx { i } else { i + 1 };
                        assert(rows[i] == old_rows[j]);
                        assert(old_rows[j].id != old_rows[idx as int].id);
                        assert(old_map.contains_key(old_rows[j].id));
                    }
                    assert forall|k: PeerId| #[trigger] self.map@.contains_key(k) implies exists|i: int|
                        0 <= i < rows.len() && rows[i].id == k by {
                        let j = choose|j: int| 0 <= j < old_rows.len() && old_rows[j].id == k;
                        assert(j != idx);
                        let i = if j < idx { j } else { j - 1 };
                        assert(rows[i] == old_rows[j]);
                    }
                    assert forall|i: int, j: int|
                        0 <= i < rows.len() && 0 <= j < rows.len() && i != j
                        implies rows[i].id != rows[j].id by {
                        let a = if i < idx { i } else { i + 1 };
                        let b = if j < idx { j } else { j + 1 };
                        assert(rows[i] == old_rows[a]);
                        assert(rows[j] == old_rows[b]);
                    }
                }
                Some(e.value)
            },
        }
    }
}

} // verus!
