//! The machine-defined constants of the yield protocol.

use vstd::prelude::*;

verus! {

/// Start of the address range reserved for the lambda state.
pub const MEMORY_RANGE_CONFIG_START: u64 = 0x90000000000000;

/// Cycle bound handed to the machine on every resume: the largest there is.
pub const MAX_CYCLES: u64 = 0xffff_ffff_ffff_ffff;

/// Command code of an automatic yield.
pub const YIELD_AUTOMATIC: u8 = 0;

/// Command code of a manual yield.
pub const YIELD_MANUAL: u8 = 1;

/// Automatic yield: the machine reports progress.
pub const AUTOMATIC_PROGRESS: u16 = 1;

/// Automatic yield: the machine emits an output.
pub const AUTOMATIC_TX_OUTPUT: u16 = 2;

/// Automatic yield: the machine emits a report.
pub const AUTOMATIC_TX_REPORT: u16 = 4;

/// Manual yield: the previous input was accepted, the machine is ready for the next.
pub const MANUAL_RX_ACCEPTED: u16 = 1;

/// Manual yield: the input was rejected.
pub const MANUAL_RX_REJECTED: u16 = 2;

/// Manual yield: the input raised an exception.
pub const MANUAL_TX_EXCEPTION: u16 = 4;

/// Reason that tags a response as an advance-state input.
pub const RESPONSE_ADVANCE_STATE: u16 = 0;

/// Reason that tags a response as an inspect-state input.
pub const RESPONSE_INSPECT_STATE: u16 = 1;

/// Whether `reason_id` is one of the codes that the report, output and
/// finish handlers answer, and so can never key a registered callback.
pub open spec fn is_reserved(reason_id: u32) -> bool {
    reason_id == 1 || reason_id == 2 || reason_id == 4
}

/// Decides [`is_reserved`].
pub fn reserved(reason_id: u32) -> (r: bool)
    ensures
        r == is_reserved(reason_id),
        r == (reason_id == MANUAL_RX_ACCEPTED as u32 || reason_id == MANUAL_RX_REJECTED as u32
            || reason_id == MANUAL_TX_EXCEPTION as u32 || reason_id == AUTOMATIC_TX_OUTPUT as u32
            || reason_id == AUTOMATIC_TX_REPORT as u32),
{
    reason_id == 1 || reason_id == 2 || reason_id == 4
}

} // verus!
