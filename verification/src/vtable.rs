//! The access-controlled vector table.
//!
//! A table records where it was first initialised (its base) and where it
//! sits now (its address). A vector stored in it was meaningful relative to
//! the base; `dispatch` translates it to the current address before use.

use vstd::prelude::*;
use crate::cell::HalVtableEntry;
use crate::failure::Failure;
use crate::lease::{counter_admits, counter_after, LeaseCounter, LeaseEvent};
use crate::protocol::{step, TableEvent, TableState};
use crate::relocation::{translate, translate_spec};

verus! {

/// A named set of vectors: the shape of one table definition.
///
/// A slot identifier can only name a slot of the set, so a selector never
/// reaches outside the table.
pub trait HalVectorTable: Sized {
    /// The identifiers of the slots.
    type Slot;

    /// The vector that a slot holds.
    spec fn vector_of(&self, slot: Self::Slot) -> usize;

    /// Selects the entry of a slot.
    fn entry(&self, slot: Self::Slot) -> (entry: &HalVtableEntry<usize>)
        ensures
            entry@ == self.vector_of(slot),
    ;

    /// Overwrites the vector of one slot and leaves the others alone.
    fn replace(&mut self, slot: Self::Slot, vector: usize)
        ensures
            forall|s: Self::Slot| #[trigger]
                final(self).vector_of(s) == if s == slot {
                    vector
                } else {
                    old(self).vector_of(s)
                },
    ;
}

/// A table of vectors with a lease counter and a recorded base.
pub struct HalVtableAC<V: HalVectorTable> {
    address: usize,
    base: usize,
    count: LeaseCounter,
    vt: V,
}

impl<V: HalVectorTable> HalVtableAC<V> {
    /// Where the table sits now.
    pub closed spec fn address(&self) -> usize {
        self.address
    }

    /// The recorded base; zero while unset.
    pub closed spec fn base(&self) -> usize {
        self.base
    }

    /// The value of the lease counter.
    pub closed spec fn count(&self) -> int {
        self.count@
    }

    /// The vector that a slot holds.
    pub closed spec fn vector_of(&self, slot: V::Slot) -> usize {
        self.vt.vector_of(slot)
    }

    /// Nobody holds a lease.
    pub open spec fn idle(&self) -> bool {
        self.count() == 0
    }

    /// Two tables hold the same vectors.
    pub open spec fn same_vectors(&self, other: &Self) -> bool {
        forall|s: V::Slot| #[trigger] self.vector_of(s) == other.vector_of(s)
    }

    /// The table shows the counter and the vectors of a state of the
    /// protocol.
    pub open spec fn shows(&self, s: TableState<V::Slot>) -> bool {
        &&& self.count() == s.count
        &&& forall|slot: V::Slot| #[trigger] self.vector_of(slot) == s.vectors[slot]
    }

    /// The address that a dispatch through `slot` hands to its action, or
    /// the failure of the translation.
    pub open spec fn dispatch_target(&self, slot: V::Slot) -> Result<usize, Failure> {
        translate_spec(self.base(), self.address(), self.vector_of(slot))
    }

    /// What a completed dispatch leaves behind: everything as it was.
    pub open spec fn after_dispatch(&self, pre: &Self) -> bool {
        &&& self.address() == pre.address()
        &&& self.base() == pre.base()
        &&& self.count() == pre.count()
        &&& self.same_vectors(pre)
    }

    /// What a completed modify leaves behind: the selected slot holds the
    /// new vector, everything else is as it was.
    pub open spec fn after_modify(&self, pre: &Self, slot: V::Slot, vector: usize) -> bool {
        &&& self.address() == pre.address()
        &&& self.base() == pre.base()
        &&& self.count() == pre.count()
        &&& forall|s: V::Slot| #[trigger]
            self.vector_of(s) == if s == slot {
                vector
            } else {
                pre.vector_of(s)
            }
    }

    /// Creates a table with the given counter and default vectors. The base
    /// is unset and the table is not placed yet: its address is zero.
    pub fn new(count: isize, vt: V) -> (table: Self)
        requires
            count == 0,
        ensures
            table.idle(),
            table.address() == 0,
            table.base() == 0,
            forall|s: V::Slot| #[trigger] table.vector_of(s) == vt.vector_of(s),
    {
        HalVtableAC { address: 0, base: 0, count: LeaseCounter::new(count), vt }
    }

    /// Returns where the table sits now.
    pub fn current_address(&self) -> (address: usize)
        ensures
            address == self.address(),
    {
        self.address
    }

    /// Returns the recorded base; zero while unset.
    pub fn recorded_base(&self) -> (base: usize)
        ensures
            base == self.base(),
    {
        self.base
    }

    /// Returns the value of the lease counter.
    pub fn lease_count(&self) -> (count: isize)
        ensures
            count == self.count(),
    {
        self.count.value()
    }

    /// Moves the table, with the image around it, to another address.
    /// Neither the recorded base nor the stored vectors follow the move.
    pub fn relocate(&mut self, address: usize)
        ensures
            final(self).address() == address,
            final(self).base() == old(self).base(),
            final(self).count() == old(self).count(),
            final(self).same_vectors(old(self)),
    {
        self.address = address;
    }

    /// Records the current address as the base if no base is recorded yet.
    /// Returns the recorded base on success and the prior base otherwise.
    /// Takes no lease.
    pub fn initialize(&mut self) -> (res: Result<usize, usize>)
        ensures
            final(self).address() == old(self).address(),
            final(self).count() == old(self).count(),
            final(self).same_vectors(old(self)),
            old(self).base() == 0 ==> final(self).base() == old(self).address() && res == Ok::<
                usize,
                usize,
            >(old(self).address()),
            old(self).base() != 0 ==> final(self).base() == old(self).base() && res == Err::<
                usize,
                usize,
            >(old(self).base()),
    {
        let prior: usize = self.base;
        if prior == 0 {
            self.base = self.address;
            Ok(self.address)
        } else {
            Err(prior)
        }
    }

    /// Translates an address recorded relative to the base to the current
    /// address of the table.
    pub fn translate(&self, old_pointer: usize) -> (res: Result<usize, Failure>)
        ensures
            res == translate_spec(self.base(), self.address(), old_pointer),
    {
        translate(self.base, self.address, old_pointer)
    }

    /// The first half of a dispatch: one attempt to take a read lease and,
    /// under it, the load of the selected vector. Returns nothing while a
    /// writer holds the table.
    pub fn begin_dispatch(&mut self, slot: V::Slot) -> (loaded: Option<usize>)
        requires
            old(self).count() < isize::MAX,
        ensures
            final(self).address() == old(self).address(),
            final(self).base() == old(self).base(),
            final(self).same_vectors(old(self)),
            final(self).count() == counter_after(old(self).count(), LeaseEvent::AcquireRead),
            counter_admits(old(self).count(), LeaseEvent::AcquireRead) ==> loaded == Some(
                old(self).vector_of(slot),
            ),
            !counter_admits(old(self).count(), LeaseEvent::AcquireRead) ==> loaded is None,
            forall|s: TableState<V::Slot>, client: int|
                old(self).shows(s) && !s.loaded.dom().contains(client) ==> final(self).shows(
                    #[trigger] step(s, TableEvent::BeginDispatch { client, slot }),
                ),
    {
        if self.count.try_acquire_read() {
            Some(self.vt.entry(slot).load())
        } else {
            None
        }
    }

    /// The second half of a dispatch: translates the loaded vector, hands
    /// it to the action, and gives the read lease back whether or not the
    /// translation succeeded.
    pub fn finish_dispatch<A, R>(&mut self, vector: usize, action: A) -> (res: Result<R, Failure>)
        where A: FnOnce(usize) -> R
        requires
            old(self).count() > 0,
            translate_spec(old(self).base(), old(self).address(), vector) matches Ok(target)
                ==> action.requires((target,)),
        ensures
            final(self).address() == old(self).address(),
            final(self).base() == old(self).base(),
            final(self).same_vectors(old(self)),
            final(self).count() == counter_after(old(self).count(), LeaseEvent::ReleaseRead),
            forall|s: TableState<V::Slot>, client: int|
                old(self).shows(s) && s.loaded.dom().contains(client) ==> final(self).shows(
                    #[trigger] step(s, TableEvent::EndDispatch { client }),
                ),
            match translate_spec(old(self).base(), old(self).address(), vector) {
                Ok(target) => res matches Ok(r) && action.ensures((target,), r),
                Err(failure) => res matches Err(f) && f == failure,
            },
    {
        let res = match translate(self.base, self.address, vector) {
            Ok(target) => Ok(action(target)),
            Err(failure) => Err(failure),
        };
        self.count.release_read();
        proof {
            assert forall|s: TableState<V::Slot>, client: int|
                old(self).shows(s) && s.loaded.dom().contains(client) implies self.shows(
                #[trigger] step(s, TableEvent::EndDispatch { client }),
            ) by {
                let next = step(s, TableEvent::EndDispatch { client });
                assert forall|slot: V::Slot| #[trigger]
                    self.vector_of(slot) == next.vectors[slot] by {
                    assert(old(self).vector_of(slot) == s.vectors[slot]);
                }
            }
        }
        res
    }

    /// Loads the vector of the selected slot under a read lease, translates
    /// it to the current address and returns what the action makes of it,
    /// or the failure of the translation.
    pub fn dispatch<A, R>(&mut self, slot: V::Slot, action: A) -> (res: Result<R, Failure>)
        where A: FnOnce(usize) -> R
        requires
            0 <= old(self).count() < isize::MAX,
            old(self).dispatch_target(slot) matches Ok(target) ==> action.requires((target,)),
        ensures
            final(self).after_dispatch(old(self)),
            match old(self).dispatch_target(slot) {
                Ok(target) => res matches Ok(r) && action.ensures((target,), r),
                Err(failure) => res matches Err(f) && f == failure,
            },
    {
        let taken = self.count.try_acquire_read();
        assert(taken);
        let vector: usize = self.vt.entry(slot).load();
        self.finish_dispatch(vector, action)
    }

    /// The first half of a modify: one attempt to take the write lease.
    /// Succeeds only while nobody holds a lease.
    pub fn begin_modify(&mut self) -> (taken: bool)
        ensures
            taken == counter_admits(old(self).count(), LeaseEvent::AcquireWrite),
            final(self).count() == counter_after(old(self).count(), LeaseEvent::AcquireWrite),
            forall|s: TableState<V::Slot>, client: int|
                old(self).shows(s) ==> final(self).shows(
                    #[trigger] step(s, TableEvent::BeginModify { client }),
                ),
            final(self).address() == old(self).address(),
            final(self).base() == old(self).base(),
            final(self).same_vectors(old(self)),
    {
        let taken = self.count.try_acquire_write();
        proof {
            assert forall|s: TableState<V::Slot>, client: int| old(self).shows(s) implies self.shows(
                #[trigger] step(s, TableEvent::BeginModify { client }),
            ) by {
                let next = step(s, TableEvent::BeginModify { client });
                assert forall|slot: V::Slot| #[trigger]
                    self.vector_of(slot) == next.vectors[slot] by {
                    assert(old(self).vector_of(slot) == s.vectors[slot]);
                }
            }
        }
        taken
    }

    /// The second half of a modify: overwrites the selected entry and
    /// gives the write lease back.
    pub fn finish_modify(&mut self, slot: V::Slot, vector: usize)
        requires
            old(self).count() == -1,
        ensures
            final(self).count() == counter_after(old(self).count(), LeaseEvent::ReleaseWrite),
            forall|s: TableState<V::Slot>, client: int|
                old(self).shows(s) && s.writer == Some(client) ==> final(self).shows(
                    #[trigger] step(
                        step(s, TableEvent::Store { client, slot, vector }),
                        TableEvent::EndModify { client },
                    ),
                ),
            final(self).address() == old(self).address(),
            final(self).base() == old(self).base(),
            forall|s: V::Slot| #[trigger]
                final(self).vector_of(s) == if s == slot {
                    vector
                } else {
                    old(self).vector_of(s)
                },
    {
        self.vt.replace(slot, vector);
        self.count.release_write();
        proof {
            assert forall|s: TableState<V::Slot>, client: int|
                old(self).shows(s) && s.writer == Some(client) implies self.shows(
                #[trigger] step(
                    step(s, TableEvent::Store { client, slot, vector }),
                    TableEvent::EndModify { client },
                ),
            ) by {
                let stored = step(s, TableEvent::Store { client, slot, vector });
                let next = step(stored, TableEvent::EndModify { client });
                assert forall|other: V::Slot| #[trigger]
                    self.vector_of(other) == next.vectors[other] by {
                    assert(old(self).vector_of(other) == s.vectors[other]);
                }
            }
        }
    }

    /// One attempt to modify: takes the write lease if nobody holds a
    /// lease, overwrites the selected entry and gives the lease back.
    /// Changes nothing and returns `false` while any lease is held.
    pub fn try_modify(&mut self, slot: V::Slot, vector: usize) -> (done: bool)
        ensures
            done == old(self).idle(),
            done ==> final(self).after_modify(old(self), slot, vector),
            !done ==> final(self).after_dispatch(old(self)),
    {
        if self.begin_modify() {
            self.finish_modify(slot, vector);
            true
        } else {
            false
        }
    }

    /// Overwrites the vector of the selected slot under the write lease.
    pub fn modify(&mut self, slot: V::Slot, vector: usize) -> (res: Result<(), Failure>)
        requires
            old(self).idle(),
        ensures
            res is Ok,
            final(self).after_modify(old(self), slot, vector),
    {
        let done = self.try_modify(slot, vector);
        assert(done);
        Ok(())
    }
}

/// Dispatches from an idle table leave it idle, however many there are,
/// so that a modify can follow them; the modify leaves the table idle
/// again, and the next dispatch through the modified slot is handed the
/// translation of the new vector.
pub proof fn lemma_sequential_use<V: HalVectorTable>(
    states: Seq<HalVtableAC<V>>,
    modified: HalVtableAC<V>,
    slot: V::Slot,
    vector: usize,
)
    requires
        states.len() > 0,
        states[0].idle(),
        forall|i: int|
            0 <= i < states.len() - 1 ==> (#[trigger] states[i + 1]).after_dispatch(&states[i]),
        modified.after_modify(&states.last(), slot, vector),
    ensures
        forall|i: int| 0 <= i < states.len() ==> (#[trigger] states[i]).idle(),
        modified.idle(),
        modified.dispatch_target(slot) == translate_spec(
            states[0].base(),
            states[0].address(),
            vector,
        ),
{
    assert forall|i: int| 0 <= i < states.len() implies {
        &&& (#[trigger] states[i]).idle()
        &&& states[i].base() == states[0].base()
        &&& states[i].address() == states[0].address()
    } by {
        lemma_dispatches_keep_idle(states, i);
    }
}

/// The induction behind `lemma_sequential_use`.
proof fn lemma_dispatches_keep_idle<V: HalVectorTable>(states: Seq<HalVtableAC<V>>, i: int)
    requires
        0 <= i < states.len(),
        states[0].idle(),
        forall|j: int|
            0 <= j < states.len() - 1 ==> (#[trigger] states[j + 1]).after_dispatch(&states[j]),
    ensures
        states[i].idle(),
        states[i].base() == states[0].base(),
        states[i].address() == states[0].address(),
    decreases i,
{
    if i > 0 {
        lemma_dispatches_keep_idle(states, i - 1);
        assert(states[(i - 1) + 1].after_dispatch(&states[i - 1]));
    }
}

} // verus!
