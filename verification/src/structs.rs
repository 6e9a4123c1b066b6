//! Descriptors that the firmware and the earlier boot stages hand over.

use vstd::prelude::*;
use core::marker::PhantomData;

verus! {

/// A short memory map entry.
#[derive(Clone, Copy, Debug, PartialEq, Eq, Structural)]
pub struct ShortE820 {
    pub base: u64,
    pub size: u64,
    pub area_type: u32,
}

/// A long memory map entry, with the ACPI attributes.
#[derive(Clone, Copy, Debug, PartialEq, Eq, Structural)]
pub struct LongE820 {
    pub base: u64,
    pub size: u64,
    pub area_type: u32,
    pub acpi_attr: u32,
}

/// The BIOS parameter block.
#[derive(Clone, Copy, Debug)]
pub struct BiosPB {
    pub oem_label_raw: [u8; 8],
    pub bytes_per_sector: u16,
    pub sectors_per_cluster: u8,
    pub reserved_sectors: u16,
    pub fat_count: u8,
    pub root_dir_entries: u16,
    pub sectors: u16,
    pub medium_type: u8,
    pub sectors_per_fat: u16,
    pub heads: u8,
    pub hidden_sectors: u32,
    pub large_sectors: u32,
    pub drive_number: u16,
    pub signature: u8,
    pub volume_id: u32,
    pub volume_label: [u8; 11],
    pub filesystem: [u8; 8],
}

/// Whether `size` elements can be read at address `data`: the address is
/// not null and is a multiple of the alignment of the elements.
pub open spec fn convertible<T>(data: usize) -> bool {
    data != 0 && data as int % vstd::layout::align_of::<T>() as int == 0
}

/// Decides whether elements of type `T` can be read at address `data`.
fn is_convertible<T>(data: usize) -> (b: bool)
    ensures
        b == convertible::<T>(data),
{
    vstd::layout::layout_for_type_is_valid::<T>();
    let align: usize = core::mem::align_of::<T>();
    data != 0 && data % align == 0
}

/// The descriptor of a read-only array somewhere in memory: where it
/// starts and how many elements it has.
pub struct ArrayLike<T> {
    pub data: usize,
    pub size: usize,
    pub marker: PhantomData<T>,
}

impl<T> ArrayLike<T> {
    /// Creates a descriptor.
    pub fn new(data: usize, size: usize) -> (array: Self)
        ensures
            array.data == data,
            array.size == size,
    {
        ArrayLike { data, size, marker: PhantomData }
    }

    /// Checks the descriptor before it is turned into a slice: returns the
    /// start and the number of elements, or fails if the start is null or
    /// misaligned.
    pub fn validate(&self) -> (res: Result<(usize, usize), ()>)
        ensures
            convertible::<T>(self.data) ==> res == Ok::<(usize, usize), ()>(
                (self.data, self.size),
            ),
            !convertible::<T>(self.data) ==> res is Err,
    {
        if is_convertible::<T>(self.data) {
            Ok((self.data, self.size))
        } else {
            Err(())
        }
    }
}

/// The descriptor of a writable array somewhere in memory: where it starts
/// and how many elements it has.
pub struct ArrayLikeMut<T> {
    pub data: usize,
    pub size: usize,
    pub marker: PhantomData<T>,
}

impl<T> ArrayLikeMut<T> {
    /// Creates a descriptor.
    pub fn new(data: usize, size: usize) -> (array: Self)
        ensures
            array.data == data,
            array.size == size,
    {
        ArrayLikeMut { data, size, marker: PhantomData }
    }

    /// Checks the descriptor before it is turned into a slice: returns the
    /// start and the number of elements, or fails if the start is null or
    /// misaligned.
    pub fn validate(&self) -> (res: Result<(usize, usize), ()>)
        ensures
            convertible::<T>(self.data) ==> res == Ok::<(usize, usize), ()>(
                (self.data, self.size),
            ),
            !convertible::<T>(self.data) ==> res is Err,
    {
        if is_convertible::<T>(self.data) {
            Ok((self.data, self.size))
        } else {
            Err(())
        }
    }
}

} // verus!
