//! Volatile slots and the entries of a vector table.
//!
//! None of these types locks anything: whoever loads or stores must hold the
//! matching lease of the table that owns the entry.

use vstd::prelude::*;

verus! {

/// Calls `core::sync::atomic::fence` with acquire ordering. The fence
/// returns nothing and changes no value of the library, so nothing is
/// claimed of it.
#[verifier::external_body]
fn acquire_fence() {
    core::sync::atomic::fence(core::sync::atomic::Ordering::Acquire);
}

/// Calls `core::sync::atomic::fence` with release ordering. The fence
/// returns nothing and changes no value of the library, so nothing is
/// claimed of it.
#[verifier::external_body]
fn release_fence() {
    core::sync::atomic::fence(core::sync::atomic::Ordering::Release);
}

/// One fixed-size value that is read and written through fenced accesses.
#[derive(Debug)]
pub struct VolatileCell<T> {
    value: T,
}

impl<T: Copy> Clone for VolatileCell<T> {
    fn clone(&self) -> (copy: Self)
        ensures
            copy == *self,
    {
        *self
    }
}

impl<T: Copy> Copy for VolatileCell<T> {

}

impl<T: Copy> View for VolatileCell<T> {
    type V = T;

    closed spec fn view(&self) -> T {
        self.value
    }
}

impl<T: Copy> VolatileCell<T> {
    /// Creates a cell that holds `val`.
    pub fn new(val: T) -> (cell: Self)
        ensures
            cell@ == val,
    {
        VolatileCell { value: val }
    }

    /// Returns a copy of the content, read between acquire fences.
    pub fn load(&self) -> (val: T)
        ensures
            val == self@,
    {
        acquire_fence();
        let val = self.value;
        acquire_fence();
        val
    }

    /// Replaces the content, written between release fences.
    pub fn store(&mut self, val: T)
        ensures
            final(self)@ == val,
    {
        release_fence();
        self.value = val;
        release_fence();
    }

    /// Hands out the content for in-place mutation.
    pub fn get_mut(&mut self) -> (inner: &mut T)
        ensures
            *inner == old(self)@,
            final(self)@ == *final(inner),
    {
        &mut self.value
    }
}

/// The read-only view of one slot of a vector table: it holds exactly one
/// vector and can only be loaded.
#[derive(Debug)]
pub struct HalVtableEntry<T> {
    cell: VolatileCell<T>,
}

impl<T: Copy> Clone for HalVtableEntry<T> {
    fn clone(&self) -> (copy: Self)
        ensures
            copy == *self,
    {
        *self
    }
}

impl<T: Copy> Copy for HalVtableEntry<T> {

}

impl<T: Copy> View for HalVtableEntry<T> {
    type V = T;

    closed spec fn view(&self) -> T {
        self.cell@
    }
}

impl<T: Copy> HalVtableEntry<T> {
    /// Creates an entry that holds `val`.
    pub fn new(val: T) -> (entry: Self)
        ensures
            entry@ == val,
    {
        HalVtableEntry { cell: VolatileCell::new(val) }
    }

    /// Returns a copy of the vector, read between acquire fences.
    pub fn load(&self) -> (val: T)
        ensures
            val == self@,
    {
        self.cell.load()
    }

    /// Gives read access to the cell behind the entry.
    pub fn get_cell(&self) -> (cell: &VolatileCell<T>)
        ensures
            cell@ == self@,
    {
        &self.cell
    }

    /// Turns the entry into its writer view. The table does this under its
    /// write lease.
    pub fn into_writer(self) -> (writer: HalVtableEntryWriter<T>)
        ensures
            writer@ == self@,
    {
        HalVtableEntryWriter { cell: self.cell }
    }
}

/// The writer view of one slot of a vector table, with the layout of the
/// read-only view.
#[derive(Debug)]
pub struct HalVtableEntryWriter<T> {
    cell: VolatileCell<T>,
}

impl<T: Copy> Clone for HalVtableEntryWriter<T> {
    fn clone(&self) -> (copy: Self)
        ensures
            copy == *self,
    {
        *self
    }
}

impl<T: Copy> Copy for HalVtableEntryWriter<T> {

}

impl<T: Copy> View for HalVtableEntryWriter<T> {
    type V = T;

    closed spec fn view(&self) -> T {
        self.cell@
    }
}

impl<T: Copy> HalVtableEntryWriter<T> {
    /// Returns a copy of the vector, read between acquire fences.
    pub fn load(&self) -> (val: T)
        ensures
            val == self@,
    {
        self.cell.load()
    }

    /// Replaces the vector, written between release fences.
    pub fn store(&mut self, val: T)
        ensures
            final(self)@ == val,
    {
        self.cell.store(val);
    }

    /// Hands out the vector for in-place mutation.
    pub fn get_mut(&mut self) -> (inner: &mut T)
        ensures
            *inner == old(self)@,
            final(self)@ == *final(inner),
    {
        self.cell.get_mut()
    }

    /// Turns the writer back into the read-only view.
    pub fn into_entry(self) -> (entry: HalVtableEntry<T>)
        ensures
            entry@ == self@,
    {
        HalVtableEntry { cell: self.cell }
    }
}

} // verus!
