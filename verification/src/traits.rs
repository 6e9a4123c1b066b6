//! The contracts between users of a device and its driver.

use vstd::prelude::*;
use vstd::string::StringSliceAdditionalSpecFns;

verus! {

/// A device that bytes can be read from.
pub trait Read {
    /// What a failed read reports.
    type ReadError;

    /// Whether the device is in a state in which it can be read: always,
    /// unless the device says otherwise.
    open spec fn readable(&self) -> bool {
        true
    }

    /// What a read can leave behind: the device after it, seen from the
    /// device before it, the buffer before and after it, and the result.
    /// Anything, unless the device says more.
    open spec fn has_read(
        &self,
        pre: &Self,
        before: Seq<u8>,
        after: Seq<u8>,
        res: Result<usize, Self::ReadError>,
    ) -> bool {
        true
    }

    /// Reads some bytes into `buf` and returns how many were read.
    fn read(&mut self, buf: &mut Vec<u8>) -> (res: Result<usize, Self::ReadError>)
        requires
            old(self).readable(),
        ensures
            final(self).has_read(old(self), old(buf)@, final(buf)@, res),
    ;
}

/// A device that bytes can be written to.
pub trait Write {
    /// What a failed write reports.
    type WriteError;

    /// Whether the device is in a state in which it can be written:
    /// always, unless the device says otherwise.
    open spec fn writable(&self) -> bool {
        true
    }

    /// What a write can leave behind: the device after it, seen from the
    /// device before it, the bytes that were offered, and the result.
    /// Anything, unless the device says more.
    open spec fn written(
        &self,
        pre: &Self,
        buf: Seq<u8>,
        res: Result<usize, Self::WriteError>,
    ) -> bool {
        true
    }

    /// Writes some bytes of `buf` and returns how many were written.
    fn write(&mut self, buf: &[u8]) -> (res: Result<usize, Self::WriteError>)
        requires
            old(self).writable(),
        ensures
            final(self).written(old(self), buf@, res),
    ;

    /// Writes some bytes of a string and returns how many were written:
    /// one write of the bytes of the string.
    fn write_str(&mut self, literal: &str) -> (res: Result<usize, Self::WriteError>)
        requires
            old(self).writable(),
        ensures
            final(self).written(old(self), literal.spec_bytes(), res),
    {
        self.write(literal.as_bytes())
    }
}

/// A device that moves single characters in both directions.
pub trait CharDevice: Read + Write {
    /// Reads some characters into `buf` and returns how many were read:
    /// one read of the device.
    fn char_read(&mut self, buf: &mut Vec<u8>) -> (res: Result<usize, Self::ReadError>)
        requires
            old(self).readable(),
        ensures
            final(self).has_read(old(self), old(buf)@, final(buf)@, res),
    {
        self.read(buf)
    }

    /// Writes some characters of `buf` and returns how many were written:
    /// one write to the device.
    fn char_write(&mut self, buf: &[u8]) -> (res: Result<usize, Self::WriteError>)
        requires
            old(self).writable(),
        ensures
            final(self).written(old(self), buf@, res),
    {
        self.write(buf)
    }
}

/// A device that hands out exclusive access through a guard.
pub trait LockableDevice {
    /// The guard that stands for exclusive access.
    type GuardType;

    /// What a failed lock reports.
    type Error;

    /// Whether the device can be locked: always, unless the device says
    /// otherwise.
    open spec fn unlocked(&self) -> bool {
        true
    }

    /// Locks the device and returns the guard, or says why the device
    /// cannot be used.
    fn lock(&mut self) -> Result<Self::GuardType, Self::Error>
        requires
            old(self).unlocked(),
    ;
}

} // verus!
