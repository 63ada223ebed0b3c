//! A slot store whose handles carry a random key: a handle from an earlier
//! occupant of a slot, or a guessed one, finds nothing.

use vstd::prelude::*;
use rand::rngs::SmallRng;
use crate::secure_arena_id::{id_modulus, SecureArenaId, KEY_UPPER_BOUND};
use crate::slots::{is_lowest_free, Slots};

verus! {

/// The arena could not hand out a slot that an id can designate.
#[derive(Debug, Clone, Copy, PartialEq, Eq, Structural)]
pub enum SecureArenaError {
    TooManyItems,
}

struct Entry<T> {
    value: T,
    key: u64,
}

/// The contents of an arena: slot index to (key, value).
pub type ArenaMap<T> = Map<nat, (u64, T)>;

/// What an id finds in `m`: the value of its slot when the slot is taken
/// and holds the id's key.
pub open spec fn lookup<T>(m: ArenaMap<T>, id: SecureArenaId) -> Option<T> {
    if m.dom().contains(id.spec_id()) && m[id.spec_id()].0 as nat == id.spec_key() {
        Some(m[id.spec_id()].1)
    } else {
        None
    }
}

/// `after` is `before` with `item` placed under `id`: the id designates the
/// lowest free slot, carries a key below `KEY_UPPER_BOUND`, and the slot
/// now holds that key and the item.
pub open spec fn allocated<T>(before: ArenaMap<T>, after: ArenaMap<T>, item: T, id: SecureArenaId) -> bool {
    &&& is_lowest_free(before, id.spec_id())
    &&& id.spec_key() < KEY_UPPER_BOUND
    &&& after == before.insert(id.spec_id(), (id.spec_key() as u64, item))
}

/// Every taken slot can be designated by an id: its index fits in
/// `ID_BITS` bits and its key lies below `KEY_UPPER_BOUND`.
pub open spec fn arena_wf<T>(m: ArenaMap<T>) -> bool {
    forall|i: nat| #[trigger] m.dom().contains(i) ==> i < id_modulus() && m[i].0 < KEY_UPPER_BOUND
}

/// A store of values, each reachable only through the id that `allocate`
/// returned for it.
pub struct SecureArena<T> {
    rng: SmallRng,
    items: Slots<Entry<T>>,
}

impl<T> SecureArena<T> {
    /// The taken slots, each with its key and value.
    pub closed spec fn view(&self) -> ArenaMap<T> {
        Map::new(
            |i: nat| self.items@.dom().contains(i),
            |i: nat| (self.items@[i].key, self.items@[i].value),
        )
    }

    /// An empty arena that draws its keys from `rng`. The caller seeds the
    /// generator, from the operating system's entropy source in production.
    pub fn new(rng: SmallRng) -> (r: Self)
        ensures
            r@ == Map::<nat, (u64, T)>::empty(),
    {
        let r = Self { rng, items: Slots::new() };
        assert(r@ =~= Map::<nat, (u64, T)>::empty());
        r
    }

    /// The value that `id` designates, if its slot is taken and holds its key.
    pub fn get(&self, id: SecureArenaId) -> (r: Option<&T>)
        ensures
            match r {
                Some(v) => lookup(self@, id) == Some(*v),
                None => lookup(self@, id) is None,
            },
    {
        match self.items.get(id.id()) {
            Some(e) => {
                if e.key == id.key() {
                    Some(&e.value)
                } else {
                    None
                }
            },
            None => None,
        }
    }

    /// Stores `item` in the lowest free slot under a fresh random key and
    /// returns its id. Fails, changing nothing, when that slot's index does
    /// not fit in an id.
    pub fn allocate(&mut self, item: T) -> (r: Result<SecureArenaId, SecureArenaError>)
        ensures
            match r {
                Ok(id) => allocated(old(self)@, final(self)@, item, id),
                Err(_) => final(self)@ == old(self)@,
            },
            r is Err <==> forall|j: nat| j < id_modulus() ==> #[trigger] old(self)@.dom().contains(j),
    {
        let i = self.items.lowest_free();
        proof {
            assert(is_lowest_free(self@, i as nat));
        }
        let id = match SecureArenaId::new(i, &mut self.rng) {
            Ok(id) => id,
            Err(_) => return Err(SecureArenaError::TooManyItems),
        };
        let ghost before = self@;
        self.items.fill(i, Entry { value: item, key: id.key() });
        assert(self@ =~= before.insert(i as nat, (id.spec_key() as u64, item)));
        Ok(id)
    }

    /// Puts `value` in place of the value that `id` designates and returns
    /// the value it held; does nothing when `id` designates nothing.
    pub fn replace(&mut self, id: SecureArenaId, value: T) -> (r: Option<T>)
        ensures
            r == lookup(old(self)@, id),
            final(self)@ == (if lookup(old(self)@, id) is Some {
                old(self)@.insert(id.spec_id(), (old(self)@[id.spec_id()].0, value))
            } else {
                old(self)@
            }),
    {
        let i = id.id();
        let key = match self.items.get(i) {
            Some(e) => e.key,
            None => return None,
        };
        if key != id.key() {
            return None;
        }
        let ghost before = self@;
        let old_entry = self.items.replace(i, Entry { value, key });
        assert(self@ =~= before.insert(i as nat, (key, value)));
        match old_entry {
            Some(e) => Some(e.value),
            None => None,
        }
    }

    /// Empties the slot that `id` designates, whatever key it holds, and
    /// returns the value it held.
    pub fn delete(&mut self, id: SecureArenaId) -> (r: Option<T>)
        ensures
            r == (if old(self)@.dom().contains(id.spec_id()) {
                Some(old(self)@[id.spec_id()].1)
            } else {
                None::<T>
            }),
            final(self)@ == old(self)@.remove(id.spec_id()),
    {
        let ghost before = self@;
        let removed = self.items.remove(id.id());
        assert(self@ =~= before.remove(id.spec_id()));
        match removed {
            Some(e) => Some(e.value),
            None => None,
        }
    }
}

} // verus!
