//! Core of a minimal Intel VT-x hypervisor, as a verified functional model.
//!
//! The library computes what has to be written to control registers, the VMCS
//! and the extended page tables, and decides how each VM exit is handled.  The
//! caller executes the privileged instructions and hands their results back as
//! plain values.

pub mod addr;
pub mod arch;
pub mod bits;
pub mod common;
pub mod cpu;
pub mod emu;
pub mod loader;
pub mod memory;
