//! Control and status words of the drive profile.
//!
//! The drive reports its power state in a 16-bit status word and is commanded
//! through a 16-bit control word. Bit positions and command values are fixed
//! by the device profile.

use vstd::prelude::*;

verus! {

/// Control word that acknowledges a fault (rising edge).
pub const CONTROL_FAULT_RESET: u16 = 0x80;

/// Control word that requests the "ready to switch on" state.
pub const CONTROL_SHUTDOWN: u16 = 0x06;

/// Control word that switches the power stage on.
pub const CONTROL_SWITCH_ON: u16 = 0x07;

/// Control word that enables operation: motion commands are accepted.
pub const CONTROL_ENABLE_OPERATION: u16 = 0x0F;

/// Status bit 0: ready to switch on.
pub const STATUS_READY_TO_SWITCH_ON: u16 = 0x0001;

/// Status bit 1: switched on.
pub const STATUS_SWITCHED_ON: u16 = 0x0002;

/// Status bit 2: operation enabled.
pub const STATUS_OPERATION_ENABLED: u16 = 0x0004;

/// Status bit 3: fault.
pub const STATUS_FAULT: u16 = 0x0008;

/// Whether any bit of `mask` is set in `word`.
pub open spec fn bit_set(word: u16, mask: u16) -> bool {
    word & mask != 0
}

/// Whether the status word reports a fault.
pub open spec fn fault_reported(status_word: u16) -> bool {
    bit_set(status_word, STATUS_FAULT)
}

/// Tests whether any bit of `mask` is set in `word`.
pub fn test_bit(word: u16, mask: u16) -> (r: bool)
    ensures
        r == bit_set(word, mask),
{
    (word & mask) != 0
}

/// Tests the fault bit of a status word.
pub fn has_fault(status_word: u16) -> (r: bool)
    ensures
        r == fault_reported(status_word),
{
    test_bit(status_word, STATUS_FAULT)
}

} // verus!
