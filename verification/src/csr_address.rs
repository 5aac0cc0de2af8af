//! Addresses of the control and status registers that the trap-return
//! instructions read and write.

use vstd::prelude::*;

verus! {

/// User status register.
pub const CSR_USTATUS_ADDRESS: u16 = 0x000;

/// User exception program counter.
pub const CSR_UEPC_ADDRESS: u16 = 0x041;

/// Supervisor status register.
pub const CSR_SSTATUS_ADDRESS: u16 = 0x100;

/// Supervisor exception program counter.
pub const CSR_SEPC_ADDRESS: u16 = 0x141;

/// Machine status register.
pub const CSR_MSTATUS_ADDRESS: u16 = 0x300;

/// Machine exception program counter.
pub const CSR_MEPC_ADDRESS: u16 = 0x341;

} // verus!
