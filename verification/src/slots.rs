//! A vector of slots, each empty or holding one value, addressed by index.
//! A new value goes into the lowest empty slot, so freed slots are reused.

use vstd::prelude::*;

verus! {

/// `i` is the lowest index that `m` leaves free.
pub open spec fn is_lowest_free<T>(m: Map<nat, T>, i: nat) -> bool {
    &&& !m.dom().contains(i)
    &&& forall|j: nat| j < i ==> #[trigger] m.dom().contains(j)
}

/// The lowest free index is unique.
pub proof fn lemma_lowest_free_unique<T>(m: Map<nat, T>, i: nat, k: nat)
    requires
        is_lowest_free(m, i),
        is_lowest_free(m, k),
    ensures
        i == k,
{
    if i < k {
        assert(m.dom().contains(i));
    }
    if k < i {
        assert(m.dom().contains(k));
    }
}

/// Indexed slots.
pub struct Slots<T> {
    items: Vec<Option<T>>,
}

impl<T> Slots<T> {
    /// The taken slots and their values.
    pub closed spec fn view(&self) -> Map<nat, T> {
        Map::new(
            |i: nat| i < self.items@.len() && self.items@[i as int] is Some,
            |i: nat| self.items@[i as int]->0,
        )
    }

    /// No slot is taken.
    pub fn new() -> (r: Self)
        ensures
            r@ == Map::<nat, T>::empty(),
    {
        let r = Slots { items: Vec::new() };
        assert(r@ =~= Map::<nat, T>::empty());
        r
    }

    /// The value in slot `i`, if it is taken.
    pub fn get(&self, i: usize) -> (r: Option<&T>)
        ensures
            match r {
                Some(v) => self@.dom().contains(i as nat) && *v == self@[i as nat],
                None => !self@.dom().contains(i as nat),
            },
    {
        if i >= self.items.len() {
            return None;
        }
        match &self.items[i] {
            Some(v) => Some(v),
            None => None,
        }
    }

    /// The lowest free index: the slot that the next value goes into.
    pub fn lowest_free(&self) -> (r: usize)
        ensures
            is_lowest_free(self@, r as nat),
    {
        let n = self.items.len();
        let mut i: usize = 0;
        while i < n
            invariant
                n == self.items@.len(),
                i <= n,
                forall|j: int| 0 <= j < i ==> self.items@[j] is Some,
            decreases n - i,
        {
            if self.items[i].is_none() {
                assert forall|j: nat| j < i implies #[trigger] self@.dom().contains(j) by {
                    assert(self.items@[j as int] is Some);
                }
                return i;
            }
            i = i + 1;
        }
        assert forall|j: nat| j < n implies #[trigger] self@.dom().contains(j) by {
            assert(self.items@[j as int] is Some);
        }
        n
    }

    /// Puts `value` in the lowest free slot `i`.
    pub fn fill(&mut self, i: usize, value: T)
        requires
            is_lowest_free(old(self)@, i as nat),
        ensures
            final(self)@ == old(self)@.insert(i as nat, value),
    {
        let ghost before = self@;
        if i >= self.items.len() {
            let n = self.items.len();
            if n < i {
                assert(before.dom().contains(n as nat));
            }
            self.items.push(Some(value));
        } else {
            self.items.set(i, Some(value));
        }
        assert(self@ =~= before.insert(i as nat, value));
    }

    /// Takes the value out of slot `i`, leaving it free.
    pub fn remove(&mut self, i: usize) -> (r: Option<T>)
        ensures
            r == (if old(self)@.dom().contains(i as nat) {
                Some(old(self)@[i as nat])
            } else {
                None::<T>
            }),
            final(self)@ == old(self)@.remove(i as nat),
    {
        if i >= self.items.len() {
            assert(self@ =~= self@.remove(i as nat));
            return None;
        }
        let ghost before = self@;
        let slot = self.items[i].take();
        assert(self@ =~= before.remove(i as nat));
        slot
    }

    /// Puts `value` in the taken slot `i` and returns what it held.
    pub fn replace(&mut self, i: usize, value: T) -> (r: Option<T>)
        requires
            old(self)@.dom().contains(i as nat),
        ensures
            r == Some(old(self)@[i as nat]),
            final(self)@ == old(self)@.insert(i as nat, value),
    {
        let ghost before = self@;
        let slot = self.items[i].take();
        self.items.set(i, Some(value));
        assert(self@ =~= before.insert(i as nat, value));
        slot
    }
}

} // verus!
