//! Core of a Space Invaders arcade emulator: a cycle-counting Intel 8080
//! interpreter together with the Midway arcade I/O fabric (shift-register
//! hardware, input-port latches, sound-trigger edge detection, and the
//! interrupt/pacing bookkeeping).  The host window, audio playback and ROM
//! unpacking live outside this crate; everything here is pure state-machine
//! logic with verified contracts.

pub mod cpu;
pub mod laws;
pub mod machine;
pub mod step;

use vstd::prelude::*;

verus! {

/// Width of the 8080 address space in bytes.
pub const MEMORY_SIZE: usize = 0x10000;

} // verus!
