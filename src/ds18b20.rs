//! The DS18B20 water temperature sensor: recognising it among the devices of
//! a one-wire bus, and reading its raw temperature out of its scratchpad.
use vstd::prelude::*;

verus! {

/// Family code of the DS18B20.
pub const FAMILY_CODE_DS18B20: u8 = 0x28;

/// Size of the DS18B20 scratchpad, its CRC byte included.
pub const SCRATCHPAD_LEN: usize = 9;

/// The Dallas/Maxim CRC-8 of `data`.
pub uninterp spec fn crc8_of(data: Seq<u8>) -> u8;

/// Relies on one_wire_bus's `crc::crc8`: the CRC-8 of the bytes, which is 0
/// for data that ends in its own correct CRC byte.
#[verifier::external_body]
fn crc8(data: &[u8]) -> (r: u8)
    ensures
        r == crc8_of(data@),
{
    one_wire_bus::crc::crc8(data)
}

/// Family code of the one-wire device at `address`: its lowest byte.
pub fn family_code(address: u64) -> (r: u8)
    ensures
        r == address % 256,
{
    (address % 256) as u8
}

/// Why a scratchpad holds no temperature.
#[derive(Clone, Copy, Debug, PartialEq, Eq, Structural)]
pub enum ScratchpadError {
    /// The scratchpad does not end in its CRC.
    CrcMismatch,
}

/// The raw temperature in bytes 0 (low) and 1 (high) of a scratchpad.
pub open spec fn scratchpad_temperature(scratchpad: Seq<u8>) -> u16 {
    (scratchpad[0] + 256 * scratchpad[1]) as u16
}

/// A DS18B20 on the one-wire bus.
#[derive(Clone, Copy, Debug, PartialEq, Eq, Structural)]
pub struct Ds18b20 {
    address: u64,
}

impl Ds18b20 {
    /// The bus address of the sensor.
    pub closed spec fn spec_address(self) -> u64 {
        self.address
    }

    /// The sensor at `address`, if the device there is a DS18B20.
    pub fn from_address(address: u64) -> (r: Option<Ds18b20>)
        ensures
            r is Some <==> address % 256 == FAMILY_CODE_DS18B20,
            r matches Some(s) ==> s.spec_address() == address,
    {
        if family_code(address) == FAMILY_CODE_DS18B20 {
            Some(Ds18b20 { address })
        } else {
            None
        }
    }

    /// The bus address of the sensor.
    pub fn address(&self) -> (r: u64)
        ensures
            r == self.spec_address(),
    {
        self.address
    }

    /// The raw temperature of a scratchpad whose CRC-8 over all nine bytes
    /// is `crc`: the scratchpad is sound when `crc` is 0.
    ///
    /// The sensor runs at its power-up resolution of 12 bits, in steps of
    /// 1/16 °C.
    pub fn raw_temperature_with_crc(scratchpad: &[u8; SCRATCHPAD_LEN], crc: u8) -> (r: Result<
        u16,
        ScratchpadError,
    >)
        ensures
            crc == 0 ==> r == Ok::<u16, ScratchpadError>(scratchpad_temperature(scratchpad@)),
            crc != 0 ==> r == Err::<u16, ScratchpadError>(ScratchpadError::CrcMismatch),
    {
        if crc != 0 {
            return Err(ScratchpadError::CrcMismatch);
        }
        Ok(scratchpad[0] as u16 + (scratchpad[1] as u16) * 256)
    }

    /// The raw temperature of the scratchpad read from the sensor, after
    /// checking its CRC.
    pub fn read_raw_temperature_data(scratchpad: &[u8; SCRATCHPAD_LEN]) -> (r: Result<
        u16,
        ScratchpadError,
    >)
        ensures
            crc8_of(scratchpad@) == 0 ==> r == Ok::<u16, ScratchpadError>(
                scratchpad_temperature(scratchpad@),
            ),
            crc8_of(scratchpad@) != 0 ==> r == Err::<u16, ScratchpadError>(
                ScratchpadError::CrcMismatch,
            ),
    {
        let crc = crc8(scratchpad);
        Self::raw_temperature_with_crc(scratchpad, crc)
    }
}

} // verus!
