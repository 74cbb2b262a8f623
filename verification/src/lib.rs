//! The hardware-abstraction and interrupt-dispatch core of a small kernel.
//!
//! [`arch`] holds what belongs to the CPU: traps, the interrupt flag, and the
//! bring-up of the whole platform. [`mach`] holds what belongs to the board:
//! the devices, the interrupt lines, the timer handlers, and raw port and
//! memory-mapped access. [`table`] is the map that both keep their handlers in.

pub mod arch;
pub mod mach;
pub mod table;
