//! Re-basing of addresses after the image has moved by one uniform shift.

use vstd::prelude::*;
use crate::failure::Failure;

verus! {

/// The signed distance of `pointer` from `base`.
pub open spec fn offset_from(base: int, pointer: int) -> int {
    pointer - base
}

/// Whether a signed distance can be negated and applied with word-sized
/// signed arithmetic: its magnitude is at most `isize::MAX`.
pub open spec fn offset_representable(offset: int) -> bool {
    -(isize::MAX as int) <= offset <= isize::MAX as int
}

/// What `translate` returns, over mathematical integers.
///
/// Matching bases leave the pointer alone, even when the base is unset.
/// Otherwise the pointer keeps its signed distance to the base, provided
/// that distance is representable and the target stays inside the address
/// space.
pub open spec fn translate_spec(old_base: usize, new_base: usize, old_pointer: usize) -> Result<
    usize,
    Failure,
> {
    let offset = offset_from(old_base as int, old_pointer as int);
    if new_base == old_base {
        Ok(old_pointer)
    } else if old_base == 0 {
        Err(Failure::UnsetBase)
    } else if !offset_representable(offset) {
        Err(Failure::UnrepresentableOffset)
    } else if new_base + offset < 0 || new_base + offset > usize::MAX {
        Err(Failure::TargetOverflow)
    } else {
        Ok((new_base + offset) as usize)
    }
}

/// Maps an address recorded relative to `old_base` to the address with the
/// same signed offset from `new_base`.
pub fn translate(old_base: usize, new_base: usize, old_pointer: usize) -> (res: Result<
    usize,
    Failure,
>)
    ensures
        res == translate_spec(old_base, new_base, old_pointer),
{
    if new_base == old_base {
        return Ok(old_pointer);
    }
    if old_base == 0 {
        return Err(Failure::UnsetBase);
    }
    let below: bool = old_pointer < old_base;
    let abs_offset: usize = if below {
        old_base - old_pointer
    } else {
        old_pointer - old_base
    };
    if abs_offset > isize::MAX as usize {
        return Err(Failure::UnrepresentableOffset);
    }
    let magnitude: isize = abs_offset as isize;
    let offset: isize = if below {
        -magnitude
    } else {
        magnitude
    };
    match new_base.checked_add_signed(offset) {
        Some(new_pointer) => Ok(new_pointer),
        None => Err(Failure::TargetOverflow),
    }
}

/// A successful translation preserves the signed offset from the base, and
/// with a set base every representable offset whose target exists is
/// translated.
pub proof fn lemma_translate_preserves_offset(old_base: usize, new_base: usize, p: usize)
    requires
        old_base != 0,
    ensures
        translate_spec(old_base, new_base, p) matches Ok(q) ==> q - new_base == p - old_base,
        offset_representable(p - old_base) && 0 <= new_base + (p - old_base) <= usize::MAX
            ==> translate_spec(old_base, new_base, p) is Ok,
{
}

/// Translating between equal bases is the identity, whatever the base.
pub proof fn lemma_translate_same_base(base: usize, p: usize)
    ensures
        translate_spec(base, base, p) == Ok::<usize, Failure>(p),
{
}

/// With the recorded base unset, translation to any other base fails.
pub proof fn lemma_translate_unset_base_fails(new_base: usize, p: usize)
    requires
        new_base != 0,
    ensures
        translate_spec(0, new_base, p) == Err::<usize, Failure>(Failure::UnsetBase),
{
}

} // verus!
