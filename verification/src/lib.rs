//! Early protected-mode bring-up structures for an x86 machine: the segment
//! descriptor bit-flag sets, the 8-byte segment descriptor encoding, the
//! descriptor-table locator record, and the A20-line enable routine modelled
//! over a simulated memory and port bus.

pub mod a20;
pub mod entry;
pub mod flags;
pub mod table;
