//! The connection registry: a stable-index arena mapping small-integer
//! tokens to live [`Connection`]s.
//!
//! Tokens are slot indices into a growable array of optional entries; a
//! free-index stack records vacated slots so their tokens are reused by
//! later insertions. A token resolves if and only if its connection has
//! been inserted and not yet removed — removal is the only way a token
//! becomes invalid, and it invalidates the token in the same step.

use vstd::prelude::*;

use crate::connection::Connection;

verus! {

/// A stable-index container of connections, keyed by reusable tokens.
///
/// Its abstract value (the view) is the partial map from token to the
/// connection currently stored under it.
pub struct Registry {
    slots: Vec<Option<Connection>>,
    free: Vec<usize>,
    capacity: usize,
}

impl View for Registry {
    type V = Map<int, Connection>;

    closed spec fn view(&self) -> Map<int, Connection> {
        Map::new(
            |t: int| 0 <= t < self.slots@.len() && self.slots@[t] is Some,
            |t: int| self.slots@[t]->0,
        )
    }
}

impl Registry {
    /// Well-formedness: every free index points at a vacant in-range
    /// slot, no index is listed free twice, and the arena never grows
    /// past its capacity.
    pub closed spec fn wf(&self) -> bool {
        &&& self.slots@.len() <= self.capacity
        &&& forall|i: int|
            0 <= i < self.free@.len() ==> (
            self.free@[i] < self.slots@.len() && self.slots@[self.free@[i] as int] is None)
        &&& forall|i: int, j: int|
            0 <= i < j < self.free@.len() ==> self.free@[i] != self.free@[j]
    }

    /// The number of connections this registry was sized for.
    pub closed spec fn capacity_spec(&self) -> usize {
        self.capacity
    }

    /// How many more connections fit: the capacity, less the slots in
    /// use (grown slots that are not on the free stack).
    pub closed spec fn room(&self) -> int {
        self.capacity - self.slots@.len() + self.free@.len()
    }

    /// Full: no vacated slot to reuse and no room to grow the arena.
    pub open spec fn spec_is_full(&self) -> bool {
        self.room() <= 0
    }

    /// The token the next insertion will assign: the most recently
    /// vacated slot if one exists, else a fresh index at the end.
    pub closed spec fn next_token_spec(&self) -> usize {
        if self.free@.len() > 0 {
            self.free@.last()
        } else {
            self.slots@.len() as usize
        }
    }

    /// An empty registry sized for `capacity` connections.
    pub fn new(capacity: usize) -> (r: Registry)
        ensures
            r.wf(),
            r@ == Map::<int, Connection>::empty(),
            r.capacity_spec() == capacity,
            r.room() == capacity,
    {
        let r = Registry { slots: Vec::new(), free: Vec::new(), capacity };
        proof {
            assert(r@ =~= Map::<int, Connection>::empty());
        }
        r
    }

    /// Whether `tok` currently resolves to a connection.
    pub fn contains(&self, tok: usize) -> (b: bool)
        ensures
            b == self@.contains_key(tok as int),
    {
        tok < self.slots.len() && self.slots[tok].is_some()
    }

    /// Look up the connection registered under `tok`, if any.
    pub fn get(&self, tok: usize) -> (r: Option<&Connection>)
        ensures
            (r is Some <==> self@.contains_key(tok as int)),
            (match r {
                Some(c) => *c == self@[tok as int],
                None => true,
            }),
    {
        if tok < self.slots.len() {
            self.slots[tok].as_ref()
        } else {
            None
        }
    }

    /// The token the next insertion will assign, or `None` when the
    /// registry is full. The token never resolves before that insertion.
    pub fn next_token(&self) -> (r: Option<usize>)
        requires
            self.wf(),
        ensures
            (r is None <==> self.spec_is_full()),
            (match r {
                Some(t) => {
                    &&& t == self.next_token_spec()
                    &&& t < self.capacity_spec()
                    &&& !self@.contains_key(t as int)
                },
                None => true,
            }),
    {
        if self.free.len() > 0 {
            Some(self.free[self.free.len() - 1])
        } else if self.slots.len() < self.capacity {
            Some(self.slots.len())
        } else {
            None
        }
    }

    /// Borrow the connection registered under `tok` for mutation. The
    /// map afterwards differs from the map before in that one binding
    /// alone, which holds whatever the caller leaves behind the borrow.
    pub fn get_mut(&mut self, tok: usize) -> (c: &mut Connection)
        requires
            old(self).wf(),
            old(self)@.contains_key(tok as int),
        ensures
            *c == old(self)@[tok as int],
            final(self).wf(),
            final(self).capacity_spec() == old(self).capacity_spec(),
            final(self).room() == old(self).room(),
            final(self)@ =~= old(self)@.insert(tok as int, *final(c)),
    {
        let slot = &mut self.slots[tok];
        match slot {
            Some(c) => c,
            None => vstd::pervasive::unreached(),
        }
    }

    /// Insert a connection, assigning it the next token; `None` exactly
    /// when the registry is full, in which case nothing changes. The
    /// assigned token did not resolve before the call, and afterwards
    /// the map has grown by exactly that one binding.
    pub fn insert(&mut self, conn: Connection) -> (r: Option<usize>)
        requires
            old(self).wf(),
        ensures
            final(self).wf(),
            final(self).capacity_spec() == old(self).capacity_spec(),
            (r is None <==> old(self).spec_is_full()),
            (match r {
                Some(tok) => {
                    &&& tok == old(self).next_token_spec()
                    &&& tok < old(self).capacity_spec()
                    &&& !old(self)@.contains_key(tok as int)
                    &&& final(self)@ == old(self)@.insert(tok as int, conn)
                    &&& final(self).room() == old(self).room() - 1
                },
                None => final(self)@ == old(self)@ && final(self).room() == old(self).room(),
            }),
    {
        match self.free.pop() {
            Some(tok) => {
                self.slots[tok] = Some(conn);
                proof {
                    assert(self@ =~= old(self)@.insert(tok as int, conn));
                }
                Some(tok)
            },
            None => {
                if self.slots.len() < self.capacity {
                    let tok = self.slots.len();
                    self.slots.push(Some(conn));
                    proof {
                        assert(self@ =~= old(self)@.insert(tok as int, conn));
                    }
                    Some(tok)
                } else {
                    proof {
                        assert(self@ =~= old(self)@);
                    }
                    None
                }
            },
        }
    }

    /// Remove and return the connection under `tok`; `None` when the
    /// token does not resolve. Afterwards the token no longer resolves,
    /// and its slot is queued for reuse.
    pub fn remove(&mut self, tok: usize) -> (r: Option<Connection>)
        requires
            old(self).wf(),
        ensures
            final(self).wf(),
            final(self).capacity_spec() == old(self).capacity_spec(),
            (r is Some <==> old(self)@.contains_key(tok as int)),
            (match r {
                Some(c) => c == old(self)@[tok as int],
                None => true,
            }),
            final(self)@ == old(self)@.remove(tok as int),
            final(self).room() == old(self).room() + (if old(self)@.contains_key(tok as int) {
                1int
            } else {
                0int
            }),
    {
        if tok < self.slots.len() {
            let slot = &mut self.slots[tok];
            let prev = slot.take();
            if prev.is_some() {
                self.free.push(tok);
            }
            proof {
                assert(self@ =~= old(self)@.remove(tok as int));
            }
            prev
        } else {
            proof {
                assert(self@ =~= old(self)@.remove(tok as int));
            }
            None
        }
    }
}

} // verus!
