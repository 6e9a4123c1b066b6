//! Verified core of an early-boot runtime: a relocation-tolerant,
//! lease-protected vector table, a non-overlapping memory mover, and the
//! decision logic of the console and serial drivers built on top of them.

pub mod failure;
pub mod relocation;
pub mod mover;
pub mod cell;
pub mod lease;
pub mod protocol;
pub mod vtable;
pub mod hal;
pub mod traits;
pub mod vga;
pub mod uart;
pub mod structs;
pub mod spin_lock;
pub mod console;
