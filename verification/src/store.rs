//! The per-node canvas store: a finite map from canvas id (the owning
//! peer's id) to the canvas held under it.

use vstd::prelude::*;
use vstd::map::*;
use crate::canvas::{names_of, Canvas, CanvasModel};
use crate::point::Point;

verus! {

/// One store slot: a canvas under the id of the peer that owns it.
pub struct StoreEntry {
    pub id: String,
    pub canvas: Canvas,
}

/// The canvas store. Ids are kept pairwise distinct, so the store is a
/// finite map from id to canvas; its view is that map.
pub struct Store {
    entries: Vec<StoreEntry>,
}

impl View for Store {
    type V = Map<Seq<char>, CanvasModel>;

    closed spec fn view(&self) -> Map<Seq<char>, CanvasModel> {
        Map::new(
            |id: Seq<char>| self.dom_has(id),
            |id: Seq<char>| self.entries@[self.idx_of(id)].canvas@,
        )
    }
}

impl Store {
    /// The stored ids are pairwise distinct.
    pub closed spec fn wf(&self) -> bool {
        forall|i: int, j: int|
            0 <= i < j < self.entries@.len() ==> self.entries@[i].id@ != self.entries@[j].id@
    }

    spec fn dom_has(&self, id: Seq<char>) -> bool {
        exists|i: int| 0 <= i < self.entries@.len() && self.entries@[i].id@ == id
    }

    spec fn idx_of(&self, id: Seq<char>) -> int {
        choose|i: int| 0 <= i < self.entries@.len() && self.entries@[i].id@ == id
    }

    proof fn lemma_idx(&self, id: Seq<char>)
        requires
            self.wf(),
            self.dom_has(id),
        ensures
            0 <= self.idx_of(id) < self.entries@.len(),
            self.entries@[self.idx_of(id)].id@ == id,
            forall|j: int|
                0 <= j < self.entries@.len() && self.entries@[j].id@ == id ==> j == self.idx_of(
                    id,
                ),
    {
        let i = self.idx_of(id);
        assert(0 <= i < self.entries@.len() && self.entries@[i].id@ == id);
        assert forall|j: int|
            0 <= j < self.entries@.len() && self.entries@[j].id@ == id implies j == i by {
            if j < i {
                assert(self.entries@[j].id@ != self.entries@[i].id@);
            } else if i < j {
                assert(self.entries@[i].id@ != self.entries@[j].id@);
            }
        }
    }

    /// An entry of `post` differs from `pre` only in the canvas at slot `i`:
    /// the view gains exactly that binding.
    proof fn lemma_update_slot(pre: &Store, post: &Store, i: int, c: CanvasModel)
        requires
            pre.wf(),
            0 <= i < pre.entries@.len(),
            post.entries@.len() == pre.entries@.len(),
            forall|j: int|
                0 <= j < pre.entries@.len() ==> post.entries@[j].id@ == pre.entries@[j].id@,
            forall|j: int|
                0 <= j < pre.entries@.len() && j != i ==> post.entries@[j].canvas@
                    == pre.entries@[j].canvas@,
            post.entries@[i].canvas@ == c,
        ensures
            post.wf(),
            post@ == pre@.insert(pre.entries@[i].id@, c),
    {
        let id = pre.entries@[i].id@;
        assert(post.wf());
        assert(pre.dom_has(id));
        assert forall|k: Seq<char>| true implies post.dom_has(k) == pre.dom_has(k) by {
            if pre.dom_has(k) {
                let w = choose|w: int|
                    0 <= w < pre.entries@.len() && pre.entries@[w].id@ == k;
                assert(post.entries@[w].id@ == k);
            }
            if post.dom_has(k) {
                let w = choose|w: int|
                    0 <= w < post.entries@.len() && post.entries@[w].id@ == k;
                assert(pre.entries@[w].id@ == k);
            }
        }
        assert_maps_equal!(post@, pre@.insert(id, c), k => {
            if post.dom_has(k) {
                post.lemma_idx(k);
                pre.lemma_idx(k);
                assert(post.idx_of(k) == pre.idx_of(k));
                if k == id {
                    assert(pre.idx_of(k) == i);
                }
            }
        });
    }

    /// Appending an entry under a fresh id extends the view by that binding.
    proof fn lemma_push_slot(pre: &Store, post: &Store, id: Seq<char>, c: CanvasModel)
        requires
            pre.wf(),
            !pre.dom_has(id),
            post.entries@.len() == pre.entries@.len() + 1,
            forall|j: int| 0 <= j < pre.entries@.len() ==> post.entries@[j] == pre.entries@[j],
            post.entries@[pre.entries@.len() as int].id@ == id,
            post.entries@[pre.entries@.len() as int].canvas@ == c,
        ensures
            post.wf(),
            post@ == pre@.insert(id, c),
    {
        let n = pre.entries@.len() as int;
        assert forall|i: int, j: int|
            0 <= i < j < post.entries@.len() implies post.entries@[i].id@
            != post.entries@[j].id@ by {
            if j == n {
                assert(post.entries@[i].id@ == pre.entries@[i].id@);
                if post.entries@[i].id@ == id {
                    assert(pre.dom_has(id));
                }
            }
        }
        assert(post.dom_has(id));
        assert_maps_equal!(post@, pre@.insert(id, c), k => {
            if post.dom_has(k) {
                post.lemma_idx(k);
                if k == id {
                    assert(post.idx_of(k) == n);
                } else {
                    let w = choose|w: int|
                        0 <= w < post.entries@.len() && post.entries@[w].id@ == k;
                    assert(w != n);
                    assert(pre.entries@[w].id@ == k);
                    assert(pre.dom_has(k));
                    pre.lemma_idx(k);
                    assert(post.idx_of(k) == w);
                }
            } else {
                if pre.dom_has(k) {
                    let w = choose|w: int|
                        0 <= w < pre.entries@.len() && pre.entries@[w].id@ == k;
                    assert(post.entries@[w].id@ == k);
                }
            }
        });
    }

    /// Removing slot `i` removes exactly its binding from the view.
    proof fn lemma_remove_slot(pre: &Store, post: &Store, i: int)
        requires
            pre.wf(),
            0 <= i < pre.entries@.len(),
            post.entries@ == pre.entries@.remove(i),
        ensures
            post.wf(),
            post@ == pre@.remove(pre.entries@[i].id@),
    {
        let id = pre.entries@[i].id@;
        assert forall|a: int, b: int|
            0 <= a < b < post.entries@.len() implies post.entries@[a].id@
            != post.entries@[b].id@ by {
            let a0 = if a < i { a } else { a + 1 };
            let b0 = if b < i { b } else { b + 1 };
            assert(post.entries@[a] == pre.entries@[a0]);
            assert(post.entries@[b] == pre.entries@[b0]);
        }
        assert_maps_equal!(post@, pre@.remove(id), k => {
            if post.dom_has(k) {
                post.lemma_idx(k);
                let w = post.idx_of(k);
                let w0 = if w < i { w } else { w + 1 };
                assert(post.entries@[w] == pre.entries@[w0]);
                assert(pre.dom_has(k));
                pre.lemma_idx(k);
                assert(pre.idx_of(k) == w0);
                if k == id {
                    assert(pre.entries@[w0].id@ == pre.entries@[i].id@);
                    assert(w0 == i);
                }
            } else {
                if pre.dom_has(k) && k != id {
                    pre.lemma_idx(k);
                    let w0 = pre.idx_of(k);
                    assert(w0 != i);
                    let w = if w0 < i { w0 } else { w0 - 1 };
                    assert(post.entries@[w] == pre.entries@[w0]);
                    assert(post.dom_has(k));
                }
            }
        });
    }

    /// An empty store.
    pub fn new() -> (s: Store)
        ensures
            s.wf(),
            s@ == Map::<Seq<char>, CanvasModel>::empty(),
    {
        let s = Store { entries: Vec::new() };
        proof {
            assert_maps_equal!(s@, Map::<Seq<char>, CanvasModel>::empty(), k => {});
        }
        s
    }

    fn find(&self, id: &String) -> (r: Option<usize>)
        requires
            self.wf(),
        ensures
            match r {
                Some(i) => {
                    &&& i < self.entries@.len()
                    &&& self.entries@[i as int].id@ == id@
                    &&& self@.dom().contains(id@)
                    &&& self.idx_of(id@) == i as int
                },
                None => !self@.dom().contains(id@),
            },
    {
        let mut i: usize = 0;
        while i < self.entries.len()
            invariant
                self.wf(),
                i <= self.entries.len(),
                forall|j: int| 0 <= j < i ==> self.entries@[j].id@ != id@,
            decreases self.entries.len() - i,
        {
            if self.entries[i].id == *id {
                proof {
                    assert(self.dom_has(id@));
                    self.lemma_idx(id@);
                }
                return Some(i);
            }
            i += 1;
        }
        proof {
            assert(!self.dom_has(id@));
        }
        None
    }

    /// The canvas stored under `id`, as a deep copy; `None` when absent.
    pub fn get(&self, id: &String) -> (r: Option<Canvas>)
        requires
            self.wf(),
        ensures
            match r {
                Some(c) => self@.dom().contains(id@) && c@ == self@[id@],
                None => !self@.dom().contains(id@),
            },
    {
        match self.find(id) {
            Some(i) => {
                let c = self.entries[i].canvas.duplicate();
                Some(c)
            },
            None => None,
        }
    }

    /// Store `canvas` under `id`, overwriting whatever was there.
    pub fn insert(&mut self, id: String, canvas: Canvas)
        requires
            old(self).wf(),
        ensures
            final(self).wf(),
            final(self)@ == old(self)@.insert(id@, canvas@),
    {
        let ghost pre = *self;
        match self.find(&id) {
            Some(i) => {
                let mut entry = self.entries.remove(i);
                entry.canvas = canvas;
                self.entries.insert(i, entry);
                proof {
                    assert(self.entries@ =~= pre.entries@.update(i as int, self.entries@[i as int]));
                    Store::lemma_update_slot(&pre, self, i as int, self.entries@[i as int].canvas@);
                }
            },
            None => {
                let ghost c = canvas@;
                let ghost idv = id@;
                self.entries.push(StoreEntry { id, canvas });
                proof {
                    Store::lemma_push_slot(&pre, self, idv, c);
                }
            },
        }
    }

    /// Drop the canvas stored under `id`; no change when absent.
    pub fn remove(&mut self, id: &String)
        requires
            old(self).wf(),
        ensures
            final(self).wf(),
            final(self)@ == old(self)@.remove(id@),
    {
        let ghost pre = *self;
        match self.find(id) {
            Some(i) => {
                self.entries.remove(i);
                proof {
                    Store::lemma_remove_slot(&pre, self, i as int);
                }
            },
            None => {
                proof {
                    assert_maps_equal!(pre@, pre@.remove(id@), k => {});
                }
            },
        }
    }

    /// Add `user` to the membership of the canvas under `id`; reports
    /// whether such a canvas exists.
    pub fn add_user_to(&mut self, id: &String, user: &String) -> (found: bool)
        requires
            old(self).wf(),
        ensures
            final(self).wf(),
            found == old(self)@.dom().contains(id@),
            found ==> final(self)@ == old(self)@.insert(
                id@,
                old(self)@[id@].with_user(user@),
            ),
            !found ==> final(self)@ == old(self)@,
    {
        let ghost pre = *self;
        match self.find(id) {
            Some(i) => {
                let mut entry = self.entries.remove(i);
                entry.canvas.add_user(user.clone());
                self.entries.insert(i, entry);
                proof {
                    assert(self.entries@ =~= pre.entries@.update(i as int, self.entries@[i as int]));
                    Store::lemma_update_slot(&pre, self, i as int, pre.entries@[i as int].canvas@.with_user(user@));
                    assert(pre@[id@] == pre.entries@[i as int].canvas@);
                }
                true
            },
            None => false,
        }
    }

    /// Remove `user` from the membership of the canvas under `id`; reports
    /// whether such a canvas exists.
    pub fn remove_user_from(&mut self, id: &String, user: &String) -> (found: bool)
        requires
            old(self).wf(),
        ensures
            final(self).wf(),
            found == old(self)@.dom().contains(id@),
            found ==> final(self)@ == old(self)@.insert(
                id@,
                old(self)@[id@].without_user(user@),
            ),
            !found ==> final(self)@ == old(self)@,
    {
        let ghost pre = *self;
        match self.find(id) {
            Some(i) => {
                let mut entry = self.entries.remove(i);
                entry.canvas.remove_user(user);
                self.entries.insert(i, entry);
                proof {
                    assert(self.entries@ =~= pre.entries@.update(i as int, self.entries@[i as int]));
                    Store::lemma_update_slot(&pre, self, i as int, pre.entries@[i as int].canvas@.without_user(user@));
                    assert(pre@[id@] == pre.entries@[i as int].canvas@);
                }
                true
            },
            None => false,
        }
    }

    /// Append `p` to the point log of the canvas under `id`; reports
    /// whether such a canvas exists.
    pub fn push_point_to(&mut self, id: &String, p: Point) -> (found: bool)
        requires
            old(self).wf(),
        ensures
            final(self).wf(),
            found == old(self)@.dom().contains(id@),
            found ==> final(self)@ == old(self)@.insert(id@, old(self)@[id@].with_point(p)),
            !found ==> final(self)@ == old(self)@,
    {
        let ghost pre = *self;
        match self.find(id) {
            Some(i) => {
                let mut entry = self.entries.remove(i);
                entry.canvas.push_point(p);
                self.entries.insert(i, entry);
                proof {
                    assert(self.entries@ =~= pre.entries@.update(i as int, self.entries@[i as int]));
                    Store::lemma_update_slot(&pre, self, i as int, pre.entries@[i as int].canvas@.with_point(p));
                    assert(pre@[id@] == pre.entries@[i as int].canvas@);
                }
                true
            },
            None => false,
        }
    }

    /// All stored canvas ids, each exactly once.
    pub fn list_ids(&self) -> (ids: Vec<String>)
        requires
            self.wf(),
        ensures
            names_of(ids@).to_set() == self@.dom(),
            names_of(ids@).no_duplicates(),
    {
        let mut ids: Vec<String> = Vec::new();
        let mut i: usize = 0;
        while i < self.entries.len()
            invariant
                i <= self.entries.len(),
                self.wf(),
                ids@.len() == i,
                forall|j: int| 0 <= j < i ==> ids@[j]@ == self.entries@[j].id@,
            decreases self.entries.len() - i,
        {
            ids.push(self.entries[i].id.clone());
            i += 1;
        }
        proof {
            assert forall|k: Seq<char>|
                names_of(ids@).to_set().contains(k) == self@.dom().contains(k) by {
                if names_of(ids@).to_set().contains(k) {
                    let j = choose|j: int|
                        0 <= j < names_of(ids@).len() && names_of(ids@)[j] == k;
                    assert(self.entries@[j].id@ == k);
                    assert(self.dom_has(k));
                }
                if self.dom_has(k) {
                    let j = choose|j: int|
                        0 <= j < self.entries@.len() && self.entries@[j].id@ == k;
                    assert(names_of(ids@)[j] == k);
                    assert(names_of(ids@).contains(k));
                }
            }
            assert(names_of(ids@).to_set() =~= self@.dom());
            assert forall|a: int, b: int|
                0 <= a < b < names_of(ids@).len() implies names_of(ids@)[a] != names_of(
                ids@,
            )[b] by {
                assert(self.entries@[a].id@ != self.entries@[b].id@);
            }
        }
        ids
    }
}

} // verus!
