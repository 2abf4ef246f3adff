//! Interrupt dispatch and text console core of a small x86 kernel.
pub mod interrupts;
pub mod serial;
pub mod vga;
