//! The open connections of the streaming endpoint, by index.

use vstd::prelude::*;
use crate::slots::{is_lowest_free, Slots};

verus! {

/// The open connections; a new connection takes the lowest free index.
pub struct ConnectionBag<C> {
    slots: Slots<C>,
}

impl<C> ConnectionBag<C> {
    /// The open connections by index.
    pub closed spec fn view(&self) -> Map<nat, C> {
        self.slots@
    }

    /// No connection is open.
    pub fn new() -> (r: Self)
        ensures
            r@ == Map::<nat, C>::empty(),
    {
        ConnectionBag { slots: Slots::new() }
    }

    /// Opens `connection` under the lowest free index and returns that index.
    pub fn insert(&mut self, connection: C) -> (r: usize)
        ensures
            is_lowest_free(old(self)@, r as nat),
            final(self)@ == old(self)@.insert(r as nat, connection),
    {
        let i = self.slots.lowest_free();
        self.slots.fill(i, connection);
        i
    }

    /// The connection under `id`, if it is open.
    pub fn get(&self, id: usize) -> (r: Option<&C>)
        ensures
            match r {
                Some(c) => self@.dom().contains(id as nat) && *c == self@[id as nat],
                None => !self@.dom().contains(id as nat),
            },
    {
        self.slots.get(id)
    }

    /// Closes the connection under `id` and hands it back; fails when no
    /// connection is open under `id`.
    pub fn close(&mut self, id: usize) -> (r: Result<C, ()>)
        ensures
            match r {
                Ok(c) => old(self)@.dom().contains(id as nat) && c == old(self)@[id as nat],
                Err(_) => !old(self)@.dom().contains(id as nat),
            },
            final(self)@ == old(self)@.remove(id as nat),
    {
        match self.slots.remove(id) {
            Some(c) => Ok(c),
            None => Err(()),
        }
    }
}

} // verus!
