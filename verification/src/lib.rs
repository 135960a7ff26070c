//! Architecture-dependent foundation layer of a capability-based microkernel.
//!
//! The library validates bootloader-supplied boot-time data and turns it into
//! strongly-typed address and memory structures: canonical virtual addresses,
//! width-checked physical addresses, frames and pages with their ranges, a
//! lazy frame allocator over a firmware memory map, and the bit-exact
//! encodings of interrupt descriptors and segment selectors.

pub mod boot;
pub mod boot_stub;
pub mod gdt;
pub mod idt;
pub mod limine;
pub mod memory;
pub mod serial;
