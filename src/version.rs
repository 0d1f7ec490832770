//! The hardware version, read from three strapping pins.
use vstd::prelude::*;

verus! {

/// A hardware revision.
#[derive(Clone, Copy, Debug, PartialEq, Eq, Structural)]
pub enum HardwareVersion {
    /// Revision 2.0, all strapping pins low.
    V2,
    /// Any other pin combination, with its raw number.
    Unknown(u8),
}

/// The raw version number (0 to 7) of the three strapping pins, `bit0` the
/// least significant.
pub fn version_number(bit0: bool, bit1: bool, bit2: bool) -> (r: u8)
    ensures
        r == (if bit0 {
            1u8
        } else {
            0u8
        }) + (if bit1 {
            2u8
        } else {
            0u8
        }) + (if bit2 {
            4u8
        } else {
            0u8
        }),
        r < 8,
{
    let b0: u8 = if bit0 {
        1
    } else {
        0
    };
    let b1: u8 = if bit1 {
        1
    } else {
        0
    };
    let b2: u8 = if bit2 {
        1
    } else {
        0
    };
    b0 + 2 * b1 + 4 * b2
}

impl HardwareVersion {
    /// The hardware version of raw version number `raw`.
    pub fn from_raw(raw: u8) -> (r: Self)
        ensures
            raw == 0 ==> r == HardwareVersion::V2,
            raw != 0 ==> r == HardwareVersion::Unknown(raw),
    {
        match raw {
            0 => HardwareVersion::V2,
            other => HardwareVersion::Unknown(other),
        }
    }
}

} // verus!
