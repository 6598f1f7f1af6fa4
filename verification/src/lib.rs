//! A USB 2.0 device-controller transfer engine for an i.MX RT style on-chip
//! USB core.
//!
//! The crate owns the hardware-facing half of a USB device stack: the
//! endpoint buffer arena, the per-endpoint DMA descriptor bookkeeping, the
//! cache-coherency discipline around memory the CPU shares with the DMA
//! engine, and the bus-level protocol state machine (reset, enumeration,
//! control-transfer staging, stall policy). Class logic, descriptor tables
//! and register access live outside: a caller reads the hardware, hands this
//! crate plain values, and performs the actions the state machine decides on.

use vstd::prelude::*;

pub mod buffer;
pub mod bus;
pub mod cache;
pub mod endpoint;
pub mod ownership;
pub mod qh;
pub mod setup;
pub mod td;

verus! {

/// A type that owns all USB register blocks.
///
/// An implementation is expected to own the USB core registers and the USB
/// PHY registers of one physical core. While an instance exists, nothing
/// other than its owner may access those register blocks. Each method must
/// return the same address every time it is called, the starting address of
/// the named register block.
pub trait Peripherals {
    /// Returns the address of the USB core register block.
    fn usb(&self) -> usize;

    /// Returns the address of the USBPHY register block.
    fn usbphy(&self) -> usize;
}

} // verus!
