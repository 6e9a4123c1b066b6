//! The table definition of the port I/O primitives: one slot for each
//! width of port input and port output.

use vstd::prelude::*;
use crate::cell::HalVtableEntry;
use crate::vtable::HalVectorTable;

verus! {

/// The slots of the port I/O table.
#[derive(Clone, Copy, Debug, PartialEq, Eq, Structural)]
pub enum PortSlot {
    /// Read a byte from a port.
    InB,
    /// Read a word from a port.
    InW,
    /// Read a double word from a port.
    InD,
    /// Write a byte to a port.
    OutB,
    /// Write a word to a port.
    OutW,
    /// Write a double word to a port.
    OutD,
}

/// The vectors of the port I/O primitives.
pub struct PortVectors {
    inb: HalVtableEntry<usize>,
    inw: HalVtableEntry<usize>,
    ind: HalVtableEntry<usize>,
    outb: HalVtableEntry<usize>,
    outw: HalVtableEntry<usize>,
    outd: HalVtableEntry<usize>,
}

impl PortVectors {
    /// Creates the table contents from the default vector of each slot.
    pub fn new(inb: usize, inw: usize, ind: usize, outb: usize, outw: usize, outd: usize) -> (vt:
        Self)
        ensures
            vt.vector_of(PortSlot::InB) == inb,
            vt.vector_of(PortSlot::InW) == inw,
            vt.vector_of(PortSlot::InD) == ind,
            vt.vector_of(PortSlot::OutB) == outb,
            vt.vector_of(PortSlot::OutW) == outw,
            vt.vector_of(PortSlot::OutD) == outd,
    {
        PortVectors {
            inb: HalVtableEntry::new(inb),
            inw: HalVtableEntry::new(inw),
            ind: HalVtableEntry::new(ind),
            outb: HalVtableEntry::new(outb),
            outw: HalVtableEntry::new(outw),
            outd: HalVtableEntry::new(outd),
        }
    }
}

impl HalVectorTable for PortVectors {
    type Slot = PortSlot;

    closed spec fn vector_of(&self, slot: PortSlot) -> usize {
        match slot {
            PortSlot::InB => self.inb@,
            PortSlot::InW => self.inw@,
            PortSlot::InD => self.ind@,
            PortSlot::OutB => self.outb@,
            PortSlot::OutW => self.outw@,
            PortSlot::OutD => self.outd@,
        }
    }

    fn entry(&self, slot: PortSlot) -> (entry: &HalVtableEntry<usize>) {
        match slot {
            PortSlot::InB => &self.inb,
            PortSlot::InW => &self.inw,
            PortSlot::InD => &self.ind,
            PortSlot::OutB => &self.outb,
            PortSlot::OutW => &self.outw,
            PortSlot::OutD => &self.outd,
        }
    }

    fn replace(&mut self, slot: PortSlot, vector: usize) {
        match slot {
            PortSlot::InB => {
                self.inb = store_into(self.inb, vector);
            },
            PortSlot::InW => {
                self.inw = store_into(self.inw, vector);
            },
            PortSlot::InD => {
                self.ind = store_into(self.ind, vector);
            },
            PortSlot::OutB => {
                self.outb = store_into(self.outb, vector);
            },
            PortSlot::OutW => {
                self.outw = store_into(self.outw, vector);
            },
            PortSlot::OutD => {
                self.outd = store_into(self.outd, vector);
            },
        }
    }
}

/// Stores a vector through the writer view of an entry.
fn store_into(entry: HalVtableEntry<usize>, vector: usize) -> (stored: HalVtableEntry<usize>)
    ensures
        stored@ == vector,
{
    let mut writer = entry.into_writer();
    writer.store(vector);
    writer.into_entry()
}

} // verus!
