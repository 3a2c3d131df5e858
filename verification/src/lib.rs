//! Verified core of a Nintendo Entertainment System emulator.
//!
//! The crate covers the two tightly coupled subsystems of the console:
//! the 6502-class CPU interpreter (decode table, addressing modes, status
//! flags, stack, interrupts, unified 16-bit memory map with mirroring) and
//! the APU front-end (per-channel register decode, envelope, length counter,
//! sweep, noise shift register, frame sequencer, and the event stream that
//! feeds the audio layer).  Floating-point sample synthesis and the host
//! audio device live outside the verified library.

use vstd::prelude::*;

pub mod apu;
pub mod bus;
pub mod cpu;
pub mod decode;
pub mod envelope;
pub mod events;
pub mod length;
pub mod noise;
pub mod registers;
pub mod status;
pub mod sweep;
pub mod voices;

verus! {

/// Errors surfaced by the memory bus and the CPU stepper.
///
/// `InvalidAddress` marks an access outside the mapped regions,
/// `UnknownOpcode` an opcode byte outside the decode table, and `Halted`
/// an attempt to step the CPU after it executed a halt instruction.
#[derive(Clone, Copy, Debug, PartialEq, Eq, Structural)]
pub enum EmuError {
    InvalidAddress,
    UnknownOpcode,
    Halted,
}

} // verus!
