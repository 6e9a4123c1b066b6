//! The failure type shared by the vector table and the memory mover.

use vstd::prelude::*;

verus! {

/// Every way an operation of the core can fail.
///
/// The first three variants are the translation failures; the last one is
/// reported by the checked memory mover only.
#[derive(Clone, Copy, Debug, PartialEq, Eq, Structural)]
pub enum Failure {
    /// The recorded base is still the unset sentinel, so there is no
    /// reference point for a translation.
    UnsetBase,
    /// The distance between the pointer and the recorded base does not fit
    /// the signed machine word.
    UnrepresentableOffset,
    /// Applying the offset to the new base leaves the address space.
    TargetOverflow,
    /// The two regions handed to the checked mover share at least one byte.
    OverlapViolation,
}

impl Failure {
    /// Whether this failure comes from the relocation translator.
    pub open spec fn is_translation_failure(self) -> bool {
        self != Failure::OverlapViolation
    }

    /// Executable form of [`Failure::is_translation_failure`].
    pub fn translation_failure(&self) -> (b: bool)
        ensures
            b == self.is_translation_failure(),
    {
        match self {
            Failure::OverlapViolation => false,
            _ => true,
        }
    }
}

} // verus!
