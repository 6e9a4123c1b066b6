//! The reader/writer lease counter of a vector table.
//!
//! A counter of zero or more is that many active readers and no writer; a
//! counter of minus one is one active writer and no readers. Every
//! operation here is one atomic step of the protocol, so that concurrent
//! use is any interleaving of these steps.

use vstd::prelude::*;

verus! {

/// One atomic step that a client of the counter can attempt.
#[derive(Clone, Copy, Debug, PartialEq, Eq, Structural)]
pub enum LeaseEvent {
    /// A reader tries to swap the counter from `c >= 0` to `c + 1`.
    AcquireRead,
    /// A reader that holds a lease decrements the counter.
    ReleaseRead,
    /// A writer tries to swap the counter from `0` to `-1`.
    AcquireWrite,
    /// The writer that holds the lease stores `0`.
    ReleaseWrite,
}

/// Whether a counter value lets the step take effect. An acquire that is
/// not admitted leaves the counter alone and the client spins.
pub open spec fn counter_admits(count: int, event: LeaseEvent) -> bool {
    match event {
        LeaseEvent::AcquireRead => count >= 0,
        LeaseEvent::ReleaseRead => count > 0,
        LeaseEvent::AcquireWrite => count == 0,
        LeaseEvent::ReleaseWrite => count == -1,
    }
}

/// The counter after a step: unchanged when the step is not admitted.
pub open spec fn counter_after(count: int, event: LeaseEvent) -> int {
    if !counter_admits(count, event) {
        count
    } else {
        match event {
            LeaseEvent::AcquireRead => count + 1,
            LeaseEvent::ReleaseRead => count - 1,
            LeaseEvent::AcquireWrite => -1,
            LeaseEvent::ReleaseWrite => 0,
        }
    }
}

/// No step takes a well-formed counter below minus one.
pub proof fn lemma_counter_stays_well_formed(count: int, event: LeaseEvent)
    requires
        count >= -1,
    ensures
        counter_after(count, event) >= -1,
{
}

/// The counter value that shows one writer and no readers.
pub const WRITER: isize = -1;

/// The counter value that shows that nobody holds a lease.
pub const IDLE: isize = 0;

/// What a reader that observed the counter tries to swap it to: nothing
/// while a writer holds the counter, else one more reader.
pub fn read_lease_target(observed: isize) -> (target: Option<isize>)
    requires
        observed < isize::MAX,
    ensures
        counter_admits(observed as int, LeaseEvent::AcquireRead) ==> target == Some(
            counter_after(observed as int, LeaseEvent::AcquireRead) as isize,
        ),
        !counter_admits(observed as int, LeaseEvent::AcquireRead) ==> target is None,
{
    if observed < 0 {
        None
    } else {
        Some(observed + 1)
    }
}

/// The lease counter of one table.
#[derive(Clone, Copy, Debug)]
pub struct LeaseCounter {
    value: isize,
}

impl View for LeaseCounter {
    type V = int;

    closed spec fn view(&self) -> int {
        self.value as int
    }
}

impl LeaseCounter {
    /// A counter is well formed when it shows readers only or one writer.
    pub open spec fn wf(&self) -> bool {
        self@ >= -1
    }

    /// Creates a counter with the given value.
    pub fn new(value: isize) -> (counter: Self)
        ensures
            counter@ == value,
    {
        LeaseCounter { value }
    }

    /// Returns the current value of the counter.
    pub fn value(&self) -> (value: isize)
        ensures
            value == self@,
    {
        self.value
    }

    /// Swaps the counter to `new` if it holds `current`, and says what it
    /// held: `Ok` with the old value when the swap took place, `Err` with
    /// the value found otherwise.
    pub fn compare_exchange(&mut self, current: isize, new: isize) -> (res: Result<isize, isize>)
        ensures
            old(self)@ == current ==> final(self)@ == new && res == Ok::<isize, isize>(current),
            old(self)@ != current ==> final(self)@ == old(self)@ && (res matches Err(found)
                && found == old(self)@),
    {
        let found: isize = self.value;
        if found == current {
            self.value = new;
            Ok(found)
        } else {
            Err(found)
        }
    }

    /// One attempt to take a read lease: fails while a writer holds the
    /// counter, otherwise counts one more reader.
    pub fn try_acquire_read(&mut self) -> (taken: bool)
        requires
            old(self)@ < isize::MAX,
        ensures
            taken == counter_admits(old(self)@, LeaseEvent::AcquireRead),
            final(self)@ == counter_after(old(self)@, LeaseEvent::AcquireRead),
            old(self).wf() ==> final(self).wf(),
    {
        let current: isize = self.value;
        match read_lease_target(current) {
            None => false,
            Some(target) => self.compare_exchange(current, target).is_ok(),
        }
    }

    /// Gives a read lease back.
    pub fn release_read(&mut self)
        requires
            old(self)@ > 0,
        ensures
            final(self)@ == counter_after(old(self)@, LeaseEvent::ReleaseRead),
            old(self).wf() ==> final(self).wf(),
    {
        self.value = self.value - 1;
    }

    /// One attempt to take the write lease: succeeds only when nobody holds
    /// a lease.
    pub fn try_acquire_write(&mut self) -> (taken: bool)
        ensures
            taken == counter_admits(old(self)@, LeaseEvent::AcquireWrite),
            final(self)@ == counter_after(old(self)@, LeaseEvent::AcquireWrite),
            old(self).wf() ==> final(self).wf(),
    {
        self.compare_exchange(IDLE, WRITER).is_ok()
    }

    /// Gives the write lease back.
    pub fn release_write(&mut self)
        requires
            old(self)@ == -1,
        ensures
            final(self)@ == counter_after(old(self)@, LeaseEvent::ReleaseWrite),
            old(self).wf() ==> final(self).wf(),
    {
        self.value = IDLE;
    }
}

} // verus!
