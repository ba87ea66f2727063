//! A slab-like store: values live in numbered slots, and freed slots are
//! chained into a free list so that the next insertion reuses the most
//! recently freed slot.
use vstd::prelude::*;

verus! {

/// One cell of a [`Store`]: either a value, or a free cell holding the index
/// of the next free cell.
#[derive(Debug, Clone)]
pub enum Slot<T> {
    Occupied(T),
    Empty(usize),
}

impl<T> Slot<T> {
    fn is_empty(&self) -> (r: bool)
        ensures
            r == (*self is Empty),
    {
        match *self {
            Slot::Empty(_) => true,
            _ => false,
        }
    }

    fn is_occupied(&self) -> (r: bool)
        ensures
            r == (*self is Occupied),
    {
        !self.is_empty()
    }
}

/// The mathematical model of a [`Store`]: its slots, its element counter and
/// the head of its free list.
pub struct StoreView<T> {
    pub slots: Seq<Slot<T>>,
    pub size: nat,
    pub next: nat,
}

/// The number of occupied slots in `s`.
pub open spec fn count_occupied<T>(s: Seq<Slot<T>>) -> nat
    decreases s.len(),
{
    if s.len() == 0 {
        0
    } else {
        count_occupied(s.drop_last()) + if s.last() is Occupied {
            1nat
        } else {
            0nat
        }
    }
}

/// The slots of `s` after reserving room for `size` slots: missing slots are
/// appended as free cells, cell `i` linking to `i + 1`.
pub open spec fn reserved<T>(s: Seq<Slot<T>>, size: nat) -> Seq<Slot<T>> {
    if size <= s.len() {
        s
    } else {
        s + Seq::new((size - s.len()) as nat, |k: int| Slot::<T>::Empty((s.len() + k + 1) as usize))
    }
}

impl<T> StoreView<T> {
    pub open spec fn len(self) -> nat {
        self.slots.len()
    }

    /// Slot `i` exists and holds a value.
    pub open spec fn occupied(self, i: int) -> bool {
        0 <= i < self.slots.len() && self.slots[i] is Occupied
    }

    /// The value held in slot `i` (meaningful when `occupied(i)`).
    pub open spec fn value(self, i: int) -> T {
        self.slots[i]->Occupied_0
    }

    /// The value that `get(i)` returns.
    pub open spec fn get(self, i: int) -> Option<T> {
        if self.occupied(i) {
            Some(self.value(i))
        } else {
            None
        }
    }

    /// The model with cell `i` overwritten by `s`.
    pub open spec fn set_slot(self, i: int, s: Slot<T>) -> StoreView<T> {
        StoreView { slots: self.slots.update(i, s), size: self.size, next: self.next }
    }

    /// The model after reserving room for `size` slots.
    pub open spec fn reserve(self, size: nat) -> StoreView<T> {
        StoreView { slots: reserved(self.slots, size), size: self.size, next: self.next }
    }

    /// An insertion at `index` does not panic: the slot there, once reserved,
    /// is free, and the counters cannot overflow.
    pub open spec fn can_insert_at(self, index: nat) -> bool {
        &&& (index < self.slots.len() || index + 1 < usize::MAX)
        &&& self.size < usize::MAX
        &&& !self.occupied(index as int)
    }

    /// The model after storing `value` at `index`: the free cell there is
    /// taken, its link becomes the new free-list head, and the counter grows.
    pub open spec fn insert_at(self, index: nat, value: T) -> StoreView<T> {
        let r = reserved(self.slots, index + 1);
        StoreView {
            slots: r.update(index as int, Slot::Occupied(value)),
            size: self.size + 1,
            next: r[index as int]->Empty_0 as nat,
        }
    }

    /// `replace(index, slot)` does not panic.
    pub open spec fn can_replace(self, index: nat, slot: Slot<T>) -> bool {
        &&& (index < self.slots.len() || index + 1 < usize::MAX)
        &&& (slot is Empty && self.occupied(index as int)) ==> self.size > 0
        &&& (slot is Occupied && self.occupied(index as int)) ==> self.size < usize::MAX
    }

    /// The model after putting `slot` into cell `index`. A free cell becomes
    /// the free-list head. The counter drops when a value is freed, grows
    /// when a value replaces another value (so that value is counted twice),
    /// and stays when a value fills a free cell.
    pub open spec fn replace(self, index: nat, slot: Slot<T>) -> StoreView<T> {
        let r = reserved(self.slots, index + 1);
        let was_occupied = r[index as int] is Occupied;
        StoreView {
            slots: r.update(index as int, slot),
            size: if slot is Empty && was_occupied {
                (self.size - 1) as nat
            } else if slot is Occupied && was_occupied {
                self.size + 1
            } else {
                self.size
            },
            next: if slot is Empty {
                index
            } else {
                self.next
            },
        }
    }

    /// `fl` lists the free cells in chain order: it starts at `next`, each
    /// free cell links to the following one, and the last links to the end
    /// of the slots.
    pub open spec fn is_free_list(self, fl: Seq<nat>) -> bool {
        &&& fl.no_duplicates()
        &&& self.next == (if fl.len() == 0 {
            self.slots.len()
        } else {
            fl[0]
        })
        &&& forall|j: int|
            #![trigger self.slots[fl[j] as int]]
            0 <= j < fl.len() ==> {
                &&& fl[j] < self.slots.len()
                &&& self.slots[fl[j] as int] is Empty
                &&& self.slots[fl[j] as int]->Empty_0 == (if j + 1 < fl.len() {
                    fl[j + 1]
                } else {
                    self.slots.len()
                })
            }
    }
}

/// A store of values addressed by `usize` indices.
#[derive(Clone)]
pub struct Store<T> {
    entries: Vec<Slot<T>>,
    size: usize,
    next: usize,
    free: Ghost<Seq<nat>>,
}

impl<T> View for Store<T> {
    type V = StoreView<T>;

    closed spec fn view(&self) -> StoreView<T> {
        StoreView { slots: self.entries@, size: self.size as nat, next: self.next as nat }
    }
}

impl<T> Store<T> {
    /// The free list is well formed: following the links from the head
    /// visits distinct free cells and ends at the end of the slots, so that
    /// insertions never meet an occupied cell.
    pub closed spec fn chain_ok(&self) -> bool {
        self@.is_free_list(self.free@)
    }

    /// The counter is the number of occupied slots. Every operation keeps
    /// this but putting a value into a slot with `Entry::replace`.
    pub open spec fn counted(&self) -> bool {
        self@.size == count_occupied(self@.slots)
    }

    /// The store is well formed: its free list is sound and its counter is
    /// the number of occupied slots.
    pub open spec fn wf(&self) -> bool {
        &&& self.chain_ok()
        &&& self.counted()
    }

    /// Creates an empty store.
    pub fn new() -> (r: Store<T>)
        ensures
            r@.slots == Seq::<Slot<T>>::empty(),
            r@.size == 0,
            r@.next == 0,
            r.wf(),
    {
        Store { entries: Vec::new(), size: 0, next: 0, free: Ghost(Seq::empty()) }
    }

    /// The number of values in the store, as counted by the store.
    pub fn len(&self) -> (r: usize)
        ensures
            r == self@.size,
    {
        self.size
    }

    pub fn is_empty(&self) -> (r: bool)
        ensures
            r == (self@.size == 0),
    {
        self.len() == 0
    }

    /// The value in slot `index`, if that slot holds one.
    pub fn get(&self, index: usize) -> (r: Option<&T>)
        ensures
            r == (if self@.occupied(index as int) {
                Some(&self@.value(index as int))
            } else {
                None
            }),
    {
        if index < self.entries.len() {
            match &self.entries[index] {
                Slot::Occupied(value) => Some(value),
                _ => None,
            }
        } else {
            None
        }
    }

    /// A mutable borrow of the value in slot `index`, if that slot holds one.
    pub fn get_mut(&mut self, index: usize) -> (r: Option<&mut T>)
        ensures
            old(self)@.occupied(index as int) ==> {
                &&& r is Some
                &&& *r->0 == old(self)@.value(index as int)
                &&& final(self)@ == old(self)@.set_slot(index as int, Slot::Occupied(*final(r->0)))
            },
            !old(self)@.occupied(index as int) ==> r is None && final(self)@ == old(self)@,
            old(self).chain_ok() ==> final(self).chain_ok(),
            old(self).wf() ==> final(self).wf(),
            old(self).counted() ==> final(self).counted(),
    {
        proof {
            assert forall|x: T| #![trigger old(self)@.slots.update(index as int, Slot::Occupied(x))]
                old(self)@.occupied(index as int) ==> {
                    &&& (old(self).chain_ok() ==> old(self)@.set_slot(index as int, Slot::Occupied(x)).is_free_list(self.free@))
                    &&& count_occupied(old(self)@.set_slot(index as int, Slot::Occupied(x)).slots) == count_occupied(old(self)@.slots)
                } by {
                if old(self)@.occupied(index as int) {
                    lemma_set_occupied(old(self)@, self.free@, index as int, Slot::Occupied(x));
                }
            }
        }
        if index < self.entries.len() && self.entries[index].is_occupied() {
            match &mut self.entries[index] {
                Slot::Occupied(value) => Some(value),
                _ => None,
            }
        } else {
            None
        }
    }

    /// Stores `value` in the free-list head and returns its index.
    pub fn insert(&mut self, value: T) -> (r: usize)
        requires
            old(self)@.can_insert_at(old(self)@.next),
        ensures
            r == old(self)@.next,
            final(self)@ == old(self)@.insert_at(r as nat, value),
            old(self).wf() ==> final(self).wf(),
            old(self).counted() ==> final(self).counted(),
    {
        self.vacant_entry().insert(value).index()
    }

    /// A handle on slot `index`.
    pub fn entry(&mut self, index: usize) -> (e: Entry<'_, T>)
        ensures
            *e.store == *old(self),
            e.index == index,
            *final(self) == *final(e.store),
    {
        Entry { store: self, index: index }
    }

    /// Whether the next insertion can be made: its slot, once reserved, is
    /// free, and the counters have room.
    pub fn can_insert(&self) -> (r: bool)
        ensures
            r == self@.can_insert_at(self@.next),
    {
        let next = self.next;
        if self.size == usize::MAX {
            return false;
        }
        if next < self.entries.len() {
            self.entries[next].is_empty()
        } else {
            next < usize::MAX - 1
        }
    }

    /// A handle on the slot that the next insertion fills.
    pub fn vacant_entry(&mut self) -> (e: VacantEntry<'_, T>)
        ensures
            *e.store == *old(self),
            e.index == old(self)@.next,
            *final(self) == *final(e.store),
    {
        let index = self.next;
        VacantEntry { store: self, index: index }
    }

    /// Makes sure that there are at least `size` slots, appending free cells
    /// (cell `i` linking to `i + 1`).
    pub fn reserve(&mut self, size: usize)
        requires
            size <= old(self)@.len() || size < usize::MAX,
        ensures
            final(self)@ == old(self)@.reserve(size as nat),
            old(self).chain_ok() ==> final(self).chain_ok(),
            old(self).wf() ==> final(self).wf(),
            old(self).counted() ==> final(self).counted(),
    {
        if size <= self.entries.len() {
            return ;
        }
        let ghost old_slots = self.entries@;
        let ghost old_free = self.free@;
        let old_len = self.entries.len();
        let additional = size - self.entries.len();
        let next = self.entries.len() + 1;
        let mut i = next;
        while i < next + additional
            invariant
                old_len < size < usize::MAX,
                additional == size - old_len,
                next == old_len + 1,
                next <= i <= next + additional,
                self.entries@ =~= old_slots + Seq::new(
                    (i - next) as nat,
                    |k: int| Slot::<T>::Empty((old_len + k + 1) as usize),
                ),
                old_slots.len() == old_len,
                self.size == old(self).size,
                self.next == old(self).next,
                self.free@ == old_free,
            decreases next + additional - i,
        {
            self.entries.push(Slot::Empty(i));
            i = i + 1;
        }
        let ghost added = Seq::new((size - old_len) as nat, |k: int| (old_len + k) as nat);
        self.free = Ghost(old_free + added);
        proof {
            let tail = Seq::new(
                (size - old_len) as nat,
                |k: int| Slot::<T>::Empty((old_len + k + 1) as usize),
            );
            assert(self.entries@ =~= old_slots + tail);
            lemma_count_append_empty(old_slots, tail);
            if old(self).chain_ok() {
                lemma_reserve_free_list(old(self)@, old_free, size as nat);
            }
        }
    }

    /// Stores `value` in slot `index` (which must be free once reserved);
    /// the link of that free cell becomes the free-list head.
    fn insert_at(&mut self, index: usize, value: T)
        requires
            old(self)@.can_insert_at(index as nat),
        ensures
            final(self)@ == old(self)@.insert_at(index as nat, value),
            (old(self).wf() && index == old(self)@.next) ==> final(self).wf(),
            old(self).counted() ==> final(self).counted(),
    {
        proof {
            assert(self.entries@.len() == self.entries.len());
        }
        self.reserve(index + 1);
        let ghost mid = *self;
        proof {
            if old(self).wf() && index == old(self)@.next {
                assert(self.free@.len() > 0 && self.free@[0] == index) by {
                    if old(self).free@.len() == 0 {
                        assert(self.free@[0] == old(self)@.len());
                    }
                }
            }
        }
        let n = match &self.entries[index] {
            Slot::Empty(n) => *n,
            Slot::Occupied(_) => {
                assert(false);
                0
            },
        };
        self.next = n;
        self.entries.set(index, Slot::Occupied(value));
        self.size = self.size + 1;
        self.free = Ghost(
            if self.free@.len() > 0 {
                self.free@.drop_first()
            } else {
                self.free@
            },
        );
        proof {
            lemma_count_update(mid@.slots, index as int, Slot::Occupied(value));
            if old(self).wf() && index == old(self)@.next {
                lemma_take_head(mid@, mid.free@, value);
            }
        }
    }

    /// Puts `slot` into cell `index` and hands back the value that was there.
    fn replace(&mut self, index: usize, slot: Slot<T>) -> (r: Option<T>)
        requires
            old(self)@.can_replace(index as nat, slot),
        ensures
            final(self)@ == old(self)@.replace(index as nat, slot),
            r == old(self)@.get(index as int),
            (old(self).wf() && old(self)@.occupied(index as int) && slot == Slot::<T>::Empty(
                old(self)@.next as usize,
            )) ==> final(self).wf(),
            (old(self).counted() && slot is Empty) ==> final(self).counted(),
            (old(self).chain_ok() && old(self)@.occupied(index as int) && slot is Occupied)
                ==> final(self).chain_ok(),
    {
        proof {
            assert(self.entries@.len() == self.entries.len());
        }
        self.reserve(index + 1);
        let ghost mid = *self;
        let e_occupied = self.entries[index].is_occupied();
        let is_free = slot.is_empty();
        if is_free {
            self.next = index;
            if e_occupied {
                self.size = self.size - 1;
            }
        } else if e_occupied {
            self.size = self.size + 1;
        }
        let mut slot = slot;
        std::mem::swap(&mut self.entries[index], &mut slot);
        if is_free {
            self.free = Ghost(seq![index as nat] + self.free@);
        }
        proof {
            let new_slot = self.entries@[index as int];
            lemma_count_update(mid@.slots, index as int, new_slot);
            if old(self).chain_ok() && old(self)@.occupied(index as int) {
                if is_free {
                    if new_slot == Slot::<T>::Empty(old(self)@.next as usize) {
                        lemma_push_head(mid@, mid.free@, index as int);
                    }
                } else {
                    lemma_set_occupied(mid@, mid.free@, index as int, new_slot);
                }
            }
        }
        match slot {
            Slot::Occupied(value) => Some(value),
            _ => None,
        }
    }
}

/// A handle on one slot of a store.
pub struct Entry<'a, T> {
    pub store: &'a mut Store<T>,
    pub index: usize,
}

impl<'a, T> Entry<'a, T> {
    /// Puts `value` into the slot and hands back the value that was there.
    pub fn replace(&mut self, value: T) -> (r: Option<T>)
        requires
            old(self).store@.can_replace(old(self).index as nat, Slot::Occupied(value)),
        ensures
            r == old(self).store@.get(old(self).index as int),
            final(self).index == old(self).index,
            (*final(self).store)@ == old(self).store@.replace(
                old(self).index as nat,
                Slot::Occupied(value),
            ),
            *final(final(self).store) == *final(old(self).store),
            (old(self).store.chain_ok() && old(self).store@.occupied(old(self).index as int))
                ==> final(self).store.chain_ok(),
    {
        self.store.replace(self.index, Slot::Occupied(value))
    }

    /// Frees the slot, making it the free-list head, and hands back the value
    /// that was there.
    pub fn remove(self) -> (r: Option<T>)
        requires
            self.store@.can_replace(self.index as nat, Slot::Empty(self.store@.next as usize)),
        ensures
            r == old(self.store)@.get(self.index as int),
            final(self.store)@ == old(self.store)@.replace(
                self.index as nat,
                Slot::Empty(old(self.store)@.next as usize),
            ),
            (old(self.store).wf() && old(self.store)@.occupied(self.index as int)) ==> final(self.store).wf(),
            old(self.store).counted() ==> final(self.store).counted(),
    {
        let next = self.store.next;
        self.store.replace(self.index, Slot::Empty(next))
    }

    /// The value in the slot.
    pub fn get(&self) -> (r: &T)
        requires
            self.store@.occupied(self.index as int),
        ensures
            *r == old(self.store)@.value(self.index as int),
    {
        let index = self.index();
        self.store.get(index).unwrap()
    }

    /// A mutable borrow of the value in the slot.
    pub fn get_mut(&mut self) -> (r: &mut T)
        requires
            old(self).store@.occupied(old(self).index as int),
        ensures
            *r == old(self).store@.value(old(self).index as int),
            final(self).index == old(self).index,
            (*final(self).store)@ == old(self).store@.set_slot(
                old(self).index as int,
                Slot::Occupied(*final(r)),
            ),
            *final(final(self).store) == *final(old(self).store),
            old(self).store.counted() ==> final(self).store.counted(),
    {
        let index = self.index();
        self.store.get_mut(index).unwrap()
    }

    /// The index of the slot.
    pub fn index(&self) -> (r: usize)
        ensures
            r == self.index,
    {
        self.index
    }
}

/// A handle on the slot that an insertion fills.
pub struct VacantEntry<'a, T> {
    pub store: &'a mut Store<T>,
    pub index: usize,
}

impl<'a, T> VacantEntry<'a, T> {
    /// Stores `value` in the slot and returns a handle on it.
    pub fn insert(self, value: T) -> (e: Entry<'a, T>)
        requires
            self.store@.can_insert_at(self.index as nat),
        ensures
            e.index == self.index,
            (*e.store)@ == old(self.store)@.insert_at(self.index as nat, value),
            *final(e.store) == *final(self.store),
            (old(self.store).wf() && self.index == old(self.store)@.next) ==> e.store.wf(),
            old(self.store).counted() ==> e.store.counted(),
    {
        self.store.insert_at(self.index, value);
        Entry { store: self.store, index: self.index }
    }

    /// The index of the slot.
    pub fn index(&self) -> (r: usize)
        ensures
            r == self.index,
    {
        self.index
    }
}

/// Reserving more slots extends a sound free list with the new cells, in
/// order.
proof fn lemma_reserve_free_list<T>(v: StoreView<T>, fl: Seq<nat>, size: nat)
    requires
        v.is_free_list(fl),
        v.len() < size < usize::MAX,
    ensures
        v.reserve(size).is_free_list(
            fl + Seq::new((size - v.len()) as nat, |k: int| (v.len() + k) as nat),
        ),
{
    let w = v.reserve(size);
    let old_len = v.len();
    let added = Seq::new((size - old_len) as nat, |k: int| (old_len + k) as nat);
    let nfl = fl + added;
    let tail = Seq::new((size - old_len) as nat, |k: int| Slot::<T>::Empty((old_len + k + 1) as usize));
    assert(w.slots == v.slots + tail);
    assert forall|j: int| 0 <= j < fl.len() implies #[trigger] nfl[j] == fl[j] && fl[j] < old_len by {
        assert(v.slots[fl[j] as int] is Empty);
    }
    assert forall|j: int| fl.len() <= j < nfl.len() implies #[trigger] nfl[j] == old_len + (j - fl.len()) by {
        assert(added[j - fl.len()] == old_len + (j - fl.len()));
    }
    assert forall|x: int| 0 <= x < old_len implies #[trigger] w.slots[x] == v.slots[x] by {}
    assert forall|x: int| old_len <= x < size implies #[trigger] w.slots[x] == Slot::<T>::Empty((x + 1) as usize) by {
        assert(tail[x - old_len] == Slot::<T>::Empty((x + 1) as usize));
    }
    assert(nfl.no_duplicates()) by {
        assert forall|a: int, b: int| 0 <= a < b < nfl.len() implies nfl[a] != nfl[b] by {
            if b < fl.len() {
            } else if a < fl.len() {
            }
        }
    }
    assert forall|j: int| 0 <= j < nfl.len() implies {
        &&& nfl[j] < w.slots.len()
        &&& w.slots[nfl[j] as int] is Empty
        &&& w.slots[nfl[j] as int]->Empty_0 == (if j + 1 < nfl.len() {
            nfl[j + 1]
        } else {
            w.slots.len()
        })
    } by {
        if j < fl.len() {
            assert(nfl[j] == fl[j]);
            assert(w.slots[fl[j] as int] == v.slots[fl[j] as int]);
            assert(v.slots[fl[j] as int] is Empty);
            if j + 1 < fl.len() {
                assert(nfl[j + 1] == fl[j + 1]);
            } else {
                assert(nfl[j + 1] == old_len);
            }
        } else {
            let x = old_len + (j - fl.len());
            assert(nfl[j] == x);
            assert(w.slots[x] == Slot::<T>::Empty((x + 1) as usize));
            if j + 1 < nfl.len() {
                assert(nfl[j + 1] == x + 1);
            }
        }
    }
}

/// Freeing an occupied cell, linked to the current head, makes it the new
/// head of a sound free list.
proof fn lemma_push_head<T>(v: StoreView<T>, fl: Seq<nat>, i: int)
    requires
        v.is_free_list(fl),
        v.occupied(i),
        v.next <= usize::MAX,
    ensures
        (StoreView {
            slots: v.slots.update(i, Slot::Empty(v.next as usize)),
            size: (v.size - 1) as nat,
            next: i as nat,
        }).is_free_list(seq![i as nat] + fl),
{
    let w = StoreView {
        slots: v.slots.update(i, Slot::Empty(v.next as usize)),
        size: (v.size - 1) as nat,
        next: i as nat,
    };
    let nfl = seq![i as nat] + fl;
    assert forall|j: int| 0 <= j < fl.len() implies fl[j] != i && #[trigger] nfl[j + 1] == fl[j] by {
        assert(v.slots[fl[j] as int] is Empty);
    }
    assert(nfl.no_duplicates()) by {
        assert forall|a: int, b: int| 0 <= a < b < nfl.len() implies nfl[a] != nfl[b] by {
            assert(nfl[b] == fl[b - 1]);
            if a > 0 {
                assert(nfl[a] == fl[a - 1]);
            }
        }
    }
    assert forall|j: int| 0 <= j < nfl.len() implies {
        &&& nfl[j] < w.slots.len()
        &&& w.slots[nfl[j] as int] is Empty
        &&& w.slots[nfl[j] as int]->Empty_0 == (if j + 1 < nfl.len() {
            nfl[j + 1]
        } else {
            w.slots.len()
        })
    } by {
        if j == 0 {
            if nfl.len() > 1 {
                assert(nfl[1] == fl[0]);
            }
        } else {
            assert(nfl[j] == fl[j - 1]);
            assert(v.slots[fl[j - 1] as int] is Empty);
            if j + 1 < nfl.len() {
                assert(nfl[j + 1] == fl[j]);
            }
        }
    }
}

/// Taking the head of a sound free list leaves a sound free list: the rest of
/// the chain, starting at the head's link.
proof fn lemma_take_head<T>(v: StoreView<T>, fl: Seq<nat>, value: T)
    requires
        v.is_free_list(fl),
        fl.len() > 0,
    ensures
        v.insert_at(fl[0], value).is_free_list(fl.drop_first()),
{
    let w = v.insert_at(fl[0], value);
    let nfl = fl.drop_first();
    assert(reserved(v.slots, fl[0] + 1) == v.slots);
    assert forall|j: int| 0 <= j < nfl.len() implies {
        &&& nfl[j] < w.slots.len()
        &&& w.slots[nfl[j] as int] is Empty
        &&& w.slots[nfl[j] as int]->Empty_0 == (if j + 1 < nfl.len() {
            nfl[j + 1]
        } else {
            w.slots.len()
        })
    } by {
        assert(nfl[j] == fl[j + 1]);
        assert(fl[0] != fl[j + 1]);
        assert(v.slots[fl[j + 1] as int] is Empty);
    }
    assert(v.slots[fl[0] as int] is Empty);
    if nfl.len() > 0 {
        assert(nfl[0] == fl[1]);
    }
}

/// Putting a value into a cell that already holds one keeps the free list and
/// the count.
proof fn lemma_set_occupied<T>(v: StoreView<T>, fl: Seq<nat>, i: int, x: Slot<T>)
    requires
        v.occupied(i),
        x is Occupied,
    ensures
        v.is_free_list(fl) ==> v.set_slot(i, x).is_free_list(fl),
        count_occupied(v.set_slot(i, x).slots) == count_occupied(v.slots),
{
    lemma_count_update(v.slots, i, x);
    if v.is_free_list(fl) {
        let w = v.set_slot(i, x);
        assert forall|j: int| 0 <= j < fl.len() implies {
            &&& fl[j] < w.slots.len()
            &&& w.slots[fl[j] as int] is Empty
            &&& w.slots[fl[j] as int]->Empty_0 == (if j + 1 < fl.len() {
                fl[j + 1]
            } else {
                w.slots.len()
            })
        } by {
            assert(v.slots[fl[j] as int] is Empty);
        }
    }
}

/// In a well-formed store the free-list head never holds a value, so an
/// insertion never meets an occupied cell.
pub proof fn law_head_is_free<T>(s: &Store<T>)
    requires
        s.wf(),
    ensures
        !s@.occupied(s@.next as int),
{
    let fl = s.free@;
    if fl.len() > 0 {
        assert(s@.slots[fl[0] as int] is Empty);
    }
}

/// When the counter counts the occupied slots (see [`Store::counted`]), it is
/// zero exactly when no slot holds a value.
pub proof fn law_empty_iff_no_values<T>(s: &Store<T>)
    requires
        s.counted(),
    ensures
        (s@.size == 0) <==> (forall|i: int| !#[trigger] s@.occupied(i)),
{
    if s@.size == 0 {
        assert forall|i: int| !#[trigger] s@.occupied(i) by {
            if s@.occupied(i) {
                lemma_count_occupied_pos(s@.slots, i);
            }
        }
    } else {
        lemma_count_nonzero_has_value(s@.slots);
        let i = choose|i: int| 0 <= i < s@.slots.len() && #[trigger] s@.slots[i] is Occupied;
        assert(s@.occupied(i));
    }
}

/// After an insertion, the new slot holds the value and every other slot
/// holds what it held before.
pub proof fn law_insert_then_get<T>(v: StoreView<T>, index: nat, value: T, j: int)
    requires
        !v.occupied(index as int),
    ensures
        v.insert_at(index, value).get(index as int) == Some(value),
        j != index ==> v.insert_at(index, value).get(j) == v.get(j),
{
    let r = reserved(v.slots, index + 1);
    if j != index && 0 <= j < r.len() && j >= v.slots.len() {
        assert(r[j] is Empty);
    }
}

/// Freeing an occupied slot and then inserting a value fills that same slot
/// again, and leaves the free list and the counter as they were: the store
/// differs from the one before the removal only in the value of that slot.
pub proof fn law_remove_then_insert<T>(v: StoreView<T>, i: nat, value: T)
    requires
        v.occupied(i as int),
        v.size > 0,
        v.next <= usize::MAX,
    ensures
        ({
            let freed = v.replace(i, Slot::Empty(v.next as usize));
            &&& freed.next == i
            &&& freed.insert_at(freed.next, value) == v.set_slot(i as int, Slot::Occupied(value))
        }),
{
    let freed = v.replace(i, Slot::Empty(v.next as usize));
    assert(reserved(v.slots, i + 1) == v.slots);
    assert(reserved(freed.slots, i + 1) == freed.slots);
    assert(freed.insert_at(i, value).slots =~= v.slots.update(i as int, Slot::Occupied(value)));
}

/// Inserting at the free-list head and then freeing that slot gives back the
/// store it started from, save that it holds the slots it reserved.
pub proof fn law_insert_then_remove<T>(v: StoreView<T>, value: T)
    requires
        !v.occupied(v.next as int),
        v.next < usize::MAX,
    ensures
        ({
            let filled = v.insert_at(v.next, value);
            filled.replace(v.next, Slot::Empty(filled.next as usize)) == v.reserve(v.next + 1)
        }),
{
    let r = reserved(v.slots, v.next + 1);
    let filled = v.insert_at(v.next, value);
    assert(reserved(filled.slots, v.next + 1) == filled.slots);
    assert(r[v.next as int] is Empty);
    assert(filled.replace(v.next, Slot::Empty(filled.next as usize)).slots =~= r);
}

/// The indices that inserting `values`, one after the other, returns: each
/// insertion fills the free-list head.
pub open spec fn insert_indices<T>(v: StoreView<T>, values: Seq<T>) -> Seq<nat>
    decreases values.len(),
{
    if values.len() == 0 {
        Seq::empty()
    } else {
        seq![v.next] + insert_indices(v.insert_at(v.next, values[0]), values.drop_first())
    }
}

/// The store after inserting `values`, one after the other.
pub open spec fn insert_all<T>(v: StoreView<T>, values: Seq<T>) -> StoreView<T>
    decreases values.len(),
{
    if values.len() == 0 {
        v
    } else {
        insert_all(v.insert_at(v.next, values[0]), values.drop_first())
    }
}

/// Reserving slots cannot be seen through the store's operations: it keeps
/// the counter, the free-list head and what every slot holds, and any later
/// insertions return the same indices and leave the same values as they would
/// have without it.
pub proof fn law_reserve_is_unobservable<T>(v: StoreView<T>, size: nat, values: Seq<T>)
    ensures
        v.reserve(size).size == v.size,
        v.reserve(size).next == v.next,
        forall|i: int| #[trigger] v.reserve(size).get(i) == v.get(i),
        insert_indices(v.reserve(size), values) == insert_indices(v, values),
        forall|i: int| #[trigger] insert_all(v.reserve(size), values).get(i) == insert_all(v, values).get(i),
{
    lemma_reserved_extends(v, v.reserve(size), values);
}

/// Reserving twice is reserving once, for the larger size.
proof fn lemma_reserved_twice<T>(s: Seq<Slot<T>>, a: nat, b: nat)
    ensures
        reserved(reserved(s, a), b) =~= reserved(s, if a >= b { a } else { b }),
{
    if a > s.len() && b > a {
        let r = reserved(s, a);
        assert(reserved(r, b) =~= reserved(s, b));
    }
}

/// A store that differs from `v` only by free cells reserved at the end
/// answers every insertion as `v` does, and keeps differing from it only so.
proof fn lemma_reserved_extends<T>(v: StoreView<T>, w: StoreView<T>, values: Seq<T>)
    requires
        w.slots == reserved(v.slots, w.len()),
        w.size == v.size,
        w.next == v.next,
    ensures
        forall|i: int| #[trigger] w.get(i) == v.get(i),
        insert_indices(w, values) == insert_indices(v, values),
        forall|i: int| #[trigger] insert_all(w, values).get(i) == insert_all(v, values).get(i),
    decreases values.len(),
{
    assert forall|i: int| #[trigger] w.get(i) == v.get(i) by {
        if 0 <= i < w.len() && i >= v.len() {
            assert(w.slots[i] is Empty);
        }
    }
    if values.len() > 0 {
        let n = v.next + 1;
        let m: nat = if w.len() >= n { w.len() } else { n };
        lemma_reserved_twice(v.slots, w.len(), n);
        let v2 = v.insert_at(v.next, values[0]);
        let w2 = w.insert_at(w.next, values[0]);
        let rv = reserved(v.slots, n);
        let rm = reserved(v.slots, m);
        assert(rm[v.next as int] == rv[v.next as int]);
        assert(w2.slots =~= reserved(v2.slots, w2.len()));
        lemma_reserved_extends(v2, w2, values.drop_first());
    }
}

/// In a well-formed store the next insertion can be made whenever the
/// counters have room: a handle on the vacant slot can always insert there.
pub proof fn law_insert_allowed<T>(s: &Store<T>)
    requires
        s.wf(),
        s@.size < usize::MAX,
        s@.next + 1 < usize::MAX,
    ensures
        s@.can_insert_at(s@.next),
{
    law_head_is_free(s);
}

/// A positive count means that some slot holds a value.
proof fn lemma_count_nonzero_has_value<T>(s: Seq<Slot<T>>)
    requires
        count_occupied(s) > 0,
    ensures
        exists|i: int| 0 <= i < s.len() && #[trigger] s[i] is Occupied,
    decreases s.len(),
{
    if s.last() is Occupied {
        assert(s[s.len() - 1] is Occupied);
    } else {
        lemma_count_nonzero_has_value(s.drop_last());
        let i = choose|i: int| 0 <= i < s.drop_last().len() && #[trigger] s.drop_last()[i] is Occupied;
        assert(s[i] is Occupied);
    }
}

/// Appending free cells does not change the count.
proof fn lemma_count_append_empty<T>(s: Seq<Slot<T>>, t: Seq<Slot<T>>)
    requires
        forall|k: int| 0 <= k < t.len() ==> #[trigger] t[k] is Empty,
    ensures
        count_occupied(s + t) == count_occupied(s),
    decreases t.len(),
{
    if t.len() == 0 {
        assert(s + t =~= s);
    } else {
        lemma_count_append_empty(s, t.drop_last());
        assert((s + t).drop_last() =~= s + t.drop_last());
    }
}

/// Overwriting one cell changes the count by what was there and what is put.
proof fn lemma_count_update<T>(s: Seq<Slot<T>>, i: int, x: Slot<T>)
    requires
        0 <= i < s.len(),
    ensures
        count_occupied(s.update(i, x)) + (if s[i] is Occupied {
            1nat
        } else {
            0nat
        }) == count_occupied(s) + (if x is Occupied {
            1nat
        } else {
            0nat
        }),
    decreases s.len(),
{
    if i == s.len() - 1 {
        assert(s.update(i, x).drop_last() =~= s.drop_last());
    } else {
        lemma_count_update(s.drop_last(), i, x);
        assert(s.update(i, x).drop_last() =~= s.drop_last().update(i, x));
    }
}

/// A slot that holds a value makes the count positive.
proof fn lemma_count_occupied_pos<T>(s: Seq<Slot<T>>, i: int)
    requires
        0 <= i < s.len(),
        s[i] is Occupied,
    ensures
        count_occupied(s) > 0,
{
    lemma_count_update(s, i, Slot::Empty(0));
}

} // verus!
