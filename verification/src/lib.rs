//! Privileged-state access layer for a bare-metal RISC-V kernel.
//!
//! The crate models the machine state this layer governs: the
//! control-and-status registers of one hart (`csr`), the per-hart trap
//! frames through which a trap handler saves and restores execution
//! context (`frame`), and the bit-packed encoding of the
//! address-translation-root register (`satp`).

pub mod csr;
pub mod frame;
pub mod satp;
