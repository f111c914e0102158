//! The conditions that stop the machine.

use vstd::prelude::*;

verus! {

/// A fatal condition. None of them is retried: the run ends with it.
#[derive(Clone, Copy, Debug, PartialEq, Eq, Structural)]
pub enum Fault {
    /// The byte fetched at `pc` selects no instruction.
    IllegalOpcode { opcode: u8, pc: u16 },
    /// `address` falls outside the storage of the device that owns it.
    AddressRangeViolation { address: u16 },
    /// The cartridge was read or written before an image was loaded.
    UnloadedCartridgeAccess,
}

} // verus!
