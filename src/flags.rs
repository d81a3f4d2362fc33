//! Command bytes, register selectors and bit patterns of the device.
use vstd::prelude::*;

verus! {

/// Command bytes of the device.
pub struct CmdFlags;

impl CmdFlags {
    pub const RESET: u8 = 0b0000_0110;
    pub const START_SYNC: u8 = 0b0000_1000;
    pub const POWER_DOWN: u8 = 0b0000_0010;
    pub const RDATA: u8 = 0b0001_0000;
    pub const RREG: u8 = 0b0010_0000;
    pub const WREG: u8 = 0b0100_0000;
}

/// Register selectors, combined by `|` with `RREG` or `WREG`.
pub struct RegSelectFlags;

impl RegSelectFlags {
    pub const CONFIG: u8 = 0b0000_0000;
    pub const STATUS: u8 = 0b0000_0100;
}

/// Bit of the status register that is set when a conversion result is ready.
pub const STATUS_CONV_RDY: u8 = 0b1000_0000;

/// Whether a status byte reports a finished conversion: bit 7 alone decides.
pub open spec fn status_ready(status: u8) -> bool {
    status >= 128
}

/// Reads the ready flag of a status byte; every other bit is ignored.
pub fn conversion_ready(status: u8) -> (r: bool)
    ensures
        r == status_ready(status),
{
    proof {
        assert((status & 0x80u8 != 0) == (status >= 128)) by (bit_vector);
    }
    status & STATUS_CONV_RDY != 0
}

/// The single-ended inputs that a conversion can read.
#[derive(Clone, Copy, Debug, PartialEq, Eq, Structural)]
pub enum InputSelection {
    AN0SingleEnded,
    AN1SingleEnded,
    AN2SingleEnded,
    AN3SingleEnded,
}

impl InputSelection {
    /// The configuration byte that selects this input: the multiplexer code
    /// in the top three bits, every other field left at its default of zero.
    pub open spec fn spec_bits(self) -> u8 {
        match self {
            InputSelection::AN0SingleEnded => 0b0110_0000,
            InputSelection::AN1SingleEnded => 0b1000_0000,
            InputSelection::AN2SingleEnded => 0b1010_0000,
            InputSelection::AN3SingleEnded => 0b1100_0000,
        }
    }

    /// The multiplexer code of this input (the top three bits of its configuration byte).
    pub open spec fn mux_code(self) -> u8 {
        match self {
            InputSelection::AN0SingleEnded => 0b011,
            InputSelection::AN1SingleEnded => 0b100,
            InputSelection::AN2SingleEnded => 0b101,
            InputSelection::AN3SingleEnded => 0b110,
        }
    }

    pub fn bits(&self) -> (r: u8)
        ensures
            r == self.spec_bits(),
            r as int == self.mux_code() as int * 32,
    {
        match self {
            InputSelection::AN0SingleEnded => 0b0110_0000,
            InputSelection::AN1SingleEnded => 0b1000_0000,
            InputSelection::AN2SingleEnded => 0b1010_0000,
            InputSelection::AN3SingleEnded => 0b1100_0000,
        }
    }
}

} // verus!
