use vstd::prelude::*;

use std::collections::HashMap;

use crate::codec::{DecodeError, PayloadKey, le16, lookup_spec, truncated};

verus! {

broadcast use vstd::std_specs::hash::group_hash_axioms;

/// Company identifier under which the power meter publishes its readings.
pub const RATOCSYSTEMS_COMPANY_ID: u16 = 0x0b60;

/// A power-meter reading, in integer units: voltage in tenths of a volt,
/// current in milliamps, power in milliwatts.
#[derive(Debug, Clone, Copy, PartialEq, Eq, Structural)]
pub struct RatocsystemsMeasurement {
    pub voltage_decivolts: u16,
    pub current_ma: u16,
    pub power_mw: u32,
}

pub open spec fn ratocsystems_key() -> PayloadKey {
    PayloadKey::Manufacturer(RATOCSYSTEMS_COMPANY_ID)
}

pub open spec fn be24(b0: u8, b1: u8, b2: u8) -> int {
    b0 as int * 65536 + b1 as int * 256 + b2 as int
}

/// Byte 0 is the relay state and is not read; bytes 1-2 are the voltage and
/// bytes 3-4 the current, little-endian; bytes 5-7 the power, big-endian.
pub open spec fn ratocsystems_spec(d: Seq<u8>) -> Result<RatocsystemsMeasurement, DecodeError> {
    if d.len() < 8 {
        Err(truncated(ratocsystems_key(), 8, d))
    } else {
        Ok(
            RatocsystemsMeasurement {
                voltage_decivolts: le16(d[1], d[2]) as u16,
                current_ma: le16(d[3], d[4]) as u16,
                power_mw: be24(d[5], d[6], d[7]) as u32,
            },
        )
    }
}

pub open spec fn rsbtwattch2_spec(manufacturer_data: Map<u16, Vec<u8>>) -> Result<
    RatocsystemsMeasurement,
    DecodeError,
> {
    match lookup_spec(manufacturer_data, RATOCSYSTEMS_COMPANY_ID, ratocsystems_key()) {
        Err(e) => Err(e),
        Ok(d) => ratocsystems_spec(d),
    }
}

pub fn get_ratocsystems_manufacturer_data(manufacturer_data: &HashMap<u16, Vec<u8>>) -> (r: Result<
    &[u8],
    DecodeError,
>)
    ensures
        match r {
            Ok(d) => lookup_spec(manufacturer_data@, RATOCSYSTEMS_COMPANY_ID, ratocsystems_key())
                == Ok::<Seq<u8>, DecodeError>(d@),
            Err(e) => lookup_spec(manufacturer_data@, RATOCSYSTEMS_COMPANY_ID, ratocsystems_key())
                == Err::<Seq<u8>, DecodeError>(e),
        },
{
    match manufacturer_data.get(&RATOCSYSTEMS_COMPANY_ID) {
        Some(d) => Ok(d.as_slice()),
        None => Err(DecodeError::NotFound { key: PayloadKey::Manufacturer(RATOCSYSTEMS_COMPANY_ID) }),
    }
}

pub fn decode_ratocsystems_manufacturer_data(manufacturer_data: &[u8]) -> (r: Result<
    RatocsystemsMeasurement,
    DecodeError,
>)
    ensures
        r == ratocsystems_spec(manufacturer_data@),
{
    if manufacturer_data.len() < 8 {
        return Err(
            DecodeError::Truncated {
                key: PayloadKey::Manufacturer(RATOCSYSTEMS_COMPANY_ID),
                expected: 8,
                actual: manufacturer_data.len(),
            },
        );
    }
    let voltage_decivolts = manufacturer_data[1] as u16 + manufacturer_data[2] as u16 * 256;
    let current_ma = manufacturer_data[3] as u16 + manufacturer_data[4] as u16 * 256;
    let power_mw = manufacturer_data[5] as u32 * 65536 + manufacturer_data[6] as u32 * 256
        + manufacturer_data[7] as u32;
    Ok(RatocsystemsMeasurement { voltage_decivolts, current_ma, power_mw })
}

/// Decodes the power meter's manufacturer data out of an advertisement.
pub fn decode_rsbtwattch2_ble_data(manufacturer_data: &HashMap<u16, Vec<u8>>) -> (r: Result<
    RatocsystemsMeasurement,
    DecodeError,
>)
    ensures
        r == rsbtwattch2_spec(manufacturer_data@),
{
    match get_ratocsystems_manufacturer_data(manufacturer_data) {
        Ok(d) => decode_ratocsystems_manufacturer_data(d),
        Err(e) => Err(e),
    }
}

} // verus!
