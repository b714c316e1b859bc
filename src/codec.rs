use vstd::prelude::*;

use std::collections::HashMap;

use crate::device_type::DeviceType;

verus! {

broadcast use vstd::std_specs::hash::group_hash_axioms;

/// Company identifier under which the sensors publish manufacturer data.
pub const SWITCHBOT_COMPANY_ID: u16 = 0x0969;

/// Service identifier (0000fd3d-0000-1000-8000-00805f9b34fb) of the sensors'
/// self-describing service data.
pub const SWITCHBOT_SERVICE_ID: u128 = 0x0000fd3d_0000_1000_8000_00805f9b34fb;

/// A reading from a temperature/humidity sensor. The temperature is held in
/// tenths of a degree Celsius, which is the precision the sensors report.
#[derive(Debug, Clone, Copy, PartialEq, Eq, Structural)]
pub struct DecodedMeasurement {
    pub temperature_decicelsius: i16,
    pub humidity_percent: u8,
    pub co2_ppm: Option<u16>,
    pub light_level: Option<u8>,
}

/// The field of a payload whose value lay outside its valid range.
#[derive(Debug, Clone, Copy, PartialEq, Eq, Structural)]
pub enum Field {
    Humidity,
    LightLevel,
}

/// Which keyed payload of an advertisement was looked up.
#[derive(Debug, Clone, Copy, PartialEq, Eq, Structural)]
pub enum PayloadKey {
    /// Manufacturer data, keyed by a 16-bit company identifier.
    Manufacturer(u16),
    /// Service data, keyed by a 128-bit service identifier.
    Service(u128),
}

#[derive(Debug, Clone, Copy, PartialEq, Eq, Structural)]
pub enum DecodeError {
    /// The advertisement carries no payload under the key.
    NotFound { key: PayloadKey },
    /// The payload is shorter than the format's minimum length.
    Truncated { key: PayloadKey, expected: usize, actual: usize },
    /// A decoded field lies outside its valid range; `value` is the raw field.
    OutOfRange { field: Field, value: u8 },
    /// The device-model byte of the service data names no known model.
    UnknownVariant { discriminator: u8 },
    /// The model is known, but its manufacturer data has no decoder.
    Unsupported { model: DeviceType },
}

pub open spec fn low_nibble(b: u8) -> int {
    b as int % 16
}

pub open spec fn low_seven_bits(b: u8) -> int {
    b as int % 128
}

pub open spec fn top_bit_set(b: u8) -> bool {
    b >= 128
}

/// Temperature in tenths of a degree: the low nibble of the first byte is the
/// fractional digit, the low seven bits of the second the integral part, and
/// the second byte's top bit the sign (set means positive).
pub open spec fn temperature_spec(lo: u8, hi: u8) -> int {
    let magnitude = low_seven_bits(hi) * 10 + low_nibble(lo);
    if top_bit_set(hi) {
        magnitude
    } else {
        -magnitude
    }
}

pub open spec fn humidity_spec(b: u8) -> Result<u8, DecodeError> {
    if low_seven_bits(b) > 100 {
        Err(DecodeError::OutOfRange { field: Field::Humidity, value: low_seven_bits(b) as u8 })
    } else {
        Ok(low_seven_bits(b) as u8)
    }
}

pub open spec fn light_level_spec(b: u8) -> Result<u8, DecodeError> {
    if low_seven_bits(b) > 20 {
        Err(DecodeError::OutOfRange { field: Field::LightLevel, value: low_seven_bits(b) as u8 })
    } else {
        Ok(low_seven_bits(b) as u8)
    }
}

pub open spec fn be16(hi: u8, lo: u8) -> int {
    hi as int * 256 + lo as int
}

pub open spec fn le16(lo: u8, hi: u8) -> int {
    lo as int + hi as int * 256
}

pub fn decode_temperature(lo: u8, hi: u8) -> (r: i16)
    ensures
        r as int == temperature_spec(lo, hi),
{
    let fractional = lo & 0x0f;
    let integral = hi & 0x7f;
    let positive = hi & 0x80 != 0;
    assert(fractional == lo % 16) by (bit_vector)
        requires fractional == lo & 0x0f;
    assert(integral == hi % 128) by (bit_vector)
        requires integral == hi & 0x7f;
    assert(positive == (hi >= 128)) by (bit_vector)
        requires positive == (hi & 0x80 != 0);
    let magnitude: i16 = integral as i16 * 10 + fractional as i16;
    if positive {
        magnitude
    } else {
        -magnitude
    }
}

pub fn decode_humidity(v: u8) -> (r: Result<u8, DecodeError>)
    ensures
        r == humidity_spec(v),
{
    let humidity = v & 0x7f;
    assert(humidity == v % 128) by (bit_vector)
        requires humidity == v & 0x7f;
    if humidity > 100 {
        Err(DecodeError::OutOfRange { field: Field::Humidity, value: humidity })
    } else {
        Ok(humidity)
    }
}

pub fn decode_co2(hi: u8, lo: u8) -> (r: u16)
    ensures
        r as int == be16(hi, lo),
{
    hi as u16 * 256 + lo as u16
}

pub fn decode_light_level(v: u8) -> (r: Result<u8, DecodeError>)
    ensures
        r == light_level_spec(v),
{
    let light_level = v & 0x7f;
    assert(light_level == v % 128) by (bit_vector)
        requires light_level == v & 0x7f;
    if light_level > 20 {
        Err(DecodeError::OutOfRange { field: Field::LightLevel, value: light_level })
    } else {
        Ok(light_level)
    }
}

/// Checks the minimum length of a payload found under `key`.
pub open spec fn truncated(key: PayloadKey, expected: nat, d: Seq<u8>) -> DecodeError {
    DecodeError::Truncated { key, expected: expected as usize, actual: d.len() as usize }
}

pub open spec fn switchbot_manufacturer_key() -> PayloadKey {
    PayloadKey::Manufacturer(SWITCHBOT_COMPANY_ID)
}

pub open spec fn switchbot_service_key() -> PayloadKey {
    PayloadKey::Service(SWITCHBOT_SERVICE_ID)
}

/// The layout shared by the meter models: temperature at bytes 8 and 9,
/// humidity at byte 10, and, where `co2` is set, CO2 at bytes 13 and 14.
pub open spec fn meter_layout_spec(d: Seq<u8>, min_len: nat, co2: bool) -> Result<
    DecodedMeasurement,
    DecodeError,
> {
    if d.len() < min_len {
        Err(truncated(switchbot_manufacturer_key(), min_len, d))
    } else {
        match humidity_spec(d[10]) {
            Err(e) => Err(e),
            Ok(h) => Ok(
                DecodedMeasurement {
                    temperature_decicelsius: temperature_spec(d[8], d[9]) as i16,
                    humidity_percent: h,
                    co2_ppm: if co2 {
                        Some(be16(d[13], d[14]) as u16)
                    } else {
                        None
                    },
                    light_level: None,
                },
            ),
        }
    }
}

/// Hub 2: light level at byte 12, temperature at bytes 13 and 14, humidity at
/// byte 15; at least 17 bytes.
pub open spec fn hub2_spec(d: Seq<u8>) -> Result<DecodedMeasurement, DecodeError> {
    if d.len() < 17 {
        Err(truncated(switchbot_manufacturer_key(), 17, d))
    } else {
        match humidity_spec(d[15]) {
            Err(e) => Err(e),
            Ok(h) => match light_level_spec(d[12]) {
                Err(e) => Err(e),
                Ok(l) => Ok(
                    DecodedMeasurement {
                        temperature_decicelsius: temperature_spec(d[13], d[14]) as i16,
                        humidity_percent: h,
                        co2_ppm: None,
                        light_level: Some(l),
                    },
                ),
            },
        }
    }
}

pub open spec fn manufacturer_data_spec(t: DeviceType, d: Seq<u8>) -> Result<
    DecodedMeasurement,
    DecodeError,
> {
    match t {
        DeviceType::Hub2 => hub2_spec(d),
        DeviceType::MeterPlus => meter_layout_spec(d, 11, false),
        DeviceType::WoIOSensor => meter_layout_spec(d, 12, false),
        DeviceType::MeterProCO2 => meter_layout_spec(d, 16, true),
        _ => Err(DecodeError::Unsupported { model: t }),
    }
}

pub open spec fn device_type_byte_spec(v: u8) -> Result<DeviceType, DecodeError> {
    if v == 0x76 {
        Ok(DeviceType::Hub2)
    } else if v == 0x54 {
        Ok(DeviceType::Meter)
    } else if v == 0x69 {
        Ok(DeviceType::MeterPlus)
    } else if v == 0x77 {
        Ok(DeviceType::WoIOSensor)
    } else if v == 0x35 {
        Ok(DeviceType::MeterProCO2)
    } else {
        Err(DecodeError::UnknownVariant { discriminator: v })
    }
}

pub open spec fn device_type_spec(sd: Seq<u8>) -> Result<DeviceType, DecodeError> {
    if sd.len() == 0 {
        Err(truncated(switchbot_service_key(), 1, sd))
    } else {
        device_type_byte_spec(sd[0])
    }
}

fn decode_meter_layout(d: &[u8], min_len: usize, co2: bool) -> (r: Result<
    DecodedMeasurement,
    DecodeError,
>)
    requires
        min_len >= 11,
        co2 ==> min_len >= 15,
    ensures
        r == meter_layout_spec(d@, min_len as nat, co2),
{
    if d.len() < min_len {
        return Err(
            DecodeError::Truncated {
                key: PayloadKey::Manufacturer(SWITCHBOT_COMPANY_ID),
                expected: min_len,
                actual: d.len(),
            },
        );
    }
    let temperature_decicelsius = decode_temperature(d[8], d[9]);
    let humidity_percent = match decode_humidity(d[10]) {
        Ok(h) => h,
        Err(e) => return Err(e),
    };
    let co2_ppm = if co2 {
        Some(decode_co2(d[13], d[14]))
    } else {
        None
    };
    Ok(DecodedMeasurement { temperature_decicelsius, humidity_percent, co2_ppm, light_level: None })
}

pub fn decode_hub_manufacturer_data(manufacturer_data: &[u8]) -> (r: Result<
    DecodedMeasurement,
    DecodeError,
>)
    ensures
        r == manufacturer_data_spec(DeviceType::Hub, manufacturer_data@),
{
    Err(DecodeError::Unsupported { model: DeviceType::Hub })
}

pub fn decode_hub_mini_manufacturer_data(manufacturer_data: &[u8]) -> (r: Result<
    DecodedMeasurement,
    DecodeError,
>)
    ensures
        r == manufacturer_data_spec(DeviceType::HubMini, manufacturer_data@),
{
    Err(DecodeError::Unsupported { model: DeviceType::HubMini })
}

pub fn decode_hub2_manufacturer_data(manufacturer_data: &[u8]) -> (r: Result<
    DecodedMeasurement,
    DecodeError,
>)
    ensures
        r == hub2_spec(manufacturer_data@),
{
    if manufacturer_data.len() < 17 {
        return Err(
            DecodeError::Truncated {
                key: PayloadKey::Manufacturer(SWITCHBOT_COMPANY_ID),
                expected: 17,
                actual: manufacturer_data.len(),
            },
        );
    }
    let temperature_decicelsius = decode_temperature(manufacturer_data[13], manufacturer_data[14]);
    let humidity_percent = match decode_humidity(manufacturer_data[15]) {
        Ok(h) => h,
        Err(e) => return Err(e),
    };
    let light_level = match decode_light_level(manufacturer_data[12]) {
        Ok(l) => l,
        Err(e) => return Err(e),
    };
    Ok(
        DecodedMeasurement {
            temperature_decicelsius,
            humidity_percent,
            co2_ppm: None,
            light_level: Some(light_level),
        },
    )
}

pub fn decode_hub3_manufacturer_data(manufacturer_data: &[u8]) -> (r: Result<
    DecodedMeasurement,
    DecodeError,
>)
    ensures
        r == manufacturer_data_spec(DeviceType::Hub3, manufacturer_data@),
{
    Err(DecodeError::Unsupported { model: DeviceType::Hub3 })
}

pub fn decode_meter_manufacturer_data(manufacturer_data: &[u8]) -> (r: Result<
    DecodedMeasurement,
    DecodeError,
>)
    ensures
        r == manufacturer_data_spec(DeviceType::Meter, manufacturer_data@),
{
    Err(DecodeError::Unsupported { model: DeviceType::Meter })
}

pub fn decode_meter_plus_manufacturer_data(manufacturer_data: &[u8]) -> (r: Result<
    DecodedMeasurement,
    DecodeError,
>)
    ensures
        r == manufacturer_data_spec(DeviceType::MeterPlus, manufacturer_data@),
{
    decode_meter_layout(manufacturer_data, 11, false)
}

pub fn decode_wo_io_sensor_manufacturer_data(manufacturer_data: &[u8]) -> (r: Result<
    DecodedMeasurement,
    DecodeError,
>)
    ensures
        r == manufacturer_data_spec(DeviceType::WoIOSensor, manufacturer_data@),
{
    decode_meter_layout(manufacturer_data, 12, false)
}

pub fn decode_meter_pro_manufacturer_data(manufacturer_data: &[u8]) -> (r: Result<
    DecodedMeasurement,
    DecodeError,
>)
    ensures
        r == manufacturer_data_spec(DeviceType::MeterPro, manufacturer_data@),
{
    Err(DecodeError::Unsupported { model: DeviceType::MeterPro })
}

pub fn decode_meter_pro_co2_manufacturer_data(manufacturer_data: &[u8]) -> (r: Result<
    DecodedMeasurement,
    DecodeError,
>)
    ensures
        r == manufacturer_data_spec(DeviceType::MeterProCO2, manufacturer_data@),
{
    decode_meter_layout(manufacturer_data, 16, true)
}

/// Decodes manufacturer data by the layout of the given model.
pub fn decode_manufacturer_data(device_type: &DeviceType, manufacturer_data: &[u8]) -> (r: Result<
    DecodedMeasurement,
    DecodeError,
>)
    ensures
        r == manufacturer_data_spec(*device_type, manufacturer_data@),
{
    match device_type {
        DeviceType::Hub => decode_hub_manufacturer_data(manufacturer_data),
        DeviceType::HubMini => decode_hub_mini_manufacturer_data(manufacturer_data),
        DeviceType::Hub2 => decode_hub2_manufacturer_data(manufacturer_data),
        DeviceType::Hub3 => decode_hub3_manufacturer_data(manufacturer_data),
        DeviceType::Meter => decode_meter_manufacturer_data(manufacturer_data),
        DeviceType::MeterPlus => decode_meter_plus_manufacturer_data(manufacturer_data),
        DeviceType::WoIOSensor => decode_wo_io_sensor_manufacturer_data(manufacturer_data),
        DeviceType::MeterPro => decode_meter_pro_manufacturer_data(manufacturer_data),
        DeviceType::MeterProCO2 => decode_meter_pro_co2_manufacturer_data(manufacturer_data),
    }
}

pub fn decode_device_type(v: u8) -> (r: Result<DeviceType, DecodeError>)
    ensures
        r == device_type_byte_spec(v),
{
    match v {
        0x76 => Ok(DeviceType::Hub2),
        0x54 => Ok(DeviceType::Meter),
        0x69 => Ok(DeviceType::MeterPlus),
        0x77 => Ok(DeviceType::WoIOSensor),
        0x35 => Ok(DeviceType::MeterProCO2),
        _ => Err(DecodeError::UnknownVariant { discriminator: v }),
    }
}

/// Reads the device-model byte that opens the service data.
pub fn detect_device_type(service_data: &[u8]) -> (r: Result<DeviceType, DecodeError>)
    ensures
        r == device_type_spec(service_data@),
{
    if service_data.len() == 0 {
        return Err(
            DecodeError::Truncated {
                key: PayloadKey::Service(SWITCHBOT_SERVICE_ID),
                expected: 1,
                actual: 0,
            },
        );
    }
    decode_device_type(service_data[0])
}

/// The payload found under `key` in a keyed payload map, as the map holds it.
pub open spec fn lookup_spec<K>(m: Map<K, Vec<u8>>, k: K, key: PayloadKey) -> Result<
    Seq<u8>,
    DecodeError,
> {
    if m.contains_key(k) {
        Ok(m[k]@)
    } else {
        Err(DecodeError::NotFound { key })
    }
}

pub open spec fn switchbot_manufacturer_data_spec(manufacturer_data: Map<u16, Vec<u8>>) -> Result<
    Seq<u8>,
    DecodeError,
> {
    lookup_spec(manufacturer_data, SWITCHBOT_COMPANY_ID, switchbot_manufacturer_key())
}

pub open spec fn switchbot_service_data_spec(service_data: Map<u128, Vec<u8>>) -> Result<
    Seq<u8>,
    DecodeError,
> {
    lookup_spec(service_data, SWITCHBOT_SERVICE_ID, switchbot_service_key())
}

/// The self-describing path: the model comes from the service data, the
/// reading from the manufacturer data.
pub open spec fn ble_data_spec(
    manufacturer_data: Map<u16, Vec<u8>>,
    service_data: Map<u128, Vec<u8>>,
) -> Result<DecodedMeasurement, DecodeError> {
    match switchbot_service_data_spec(service_data) {
        Err(e) => Err(e),
        Ok(sd) => match device_type_spec(sd) {
            Err(e) => Err(e),
            Ok(t) => match switchbot_manufacturer_data_spec(manufacturer_data) {
                Err(e) => Err(e),
                Ok(md) => manufacturer_data_spec(t, md),
            },
        },
    }
}

/// The fallback path: the manufacturer data read by the model that the
/// catalog declares.
pub open spec fn declared_model_spec(declared: DeviceType, manufacturer_data: Map<u16, Vec<u8>>) -> Result<
    DecodedMeasurement,
    DecodeError,
> {
    match switchbot_manufacturer_data_spec(manufacturer_data) {
        Err(e) => Err(e),
        Ok(md) => manufacturer_data_spec(declared, md),
    }
}

pub fn get_switch_bot_manufacturer_data(manufacturer_data: &HashMap<u16, Vec<u8>>) -> (r: Result<
    &[u8],
    DecodeError,
>)
    ensures
        match r {
            Ok(d) => switchbot_manufacturer_data_spec(manufacturer_data@) == Ok::<Seq<u8>, DecodeError>(d@),
            Err(e) => switchbot_manufacturer_data_spec(manufacturer_data@) == Err::<Seq<u8>, DecodeError>(e),
        },
{
    match manufacturer_data.get(&SWITCHBOT_COMPANY_ID) {
        Some(d) => Ok(d.as_slice()),
        None => Err(DecodeError::NotFound { key: PayloadKey::Manufacturer(SWITCHBOT_COMPANY_ID) }),
    }
}

pub fn get_switch_bot_service_data(service_data: &HashMap<u128, Vec<u8>>) -> (r: Result<
    &[u8],
    DecodeError,
>)
    ensures
        match r {
            Ok(d) => switchbot_service_data_spec(service_data@) == Ok::<Seq<u8>, DecodeError>(d@),
            Err(e) => switchbot_service_data_spec(service_data@) == Err::<Seq<u8>, DecodeError>(e),
        },
{
    match service_data.get(&SWITCHBOT_SERVICE_ID) {
        Some(d) => Ok(d.as_slice()),
        None => Err(DecodeError::NotFound { key: PayloadKey::Service(SWITCHBOT_SERVICE_ID) }),
    }
}

/// Decodes an advertisement through its service data, which names the model.
pub fn decode_ble_data(
    manufacturer_data: &HashMap<u16, Vec<u8>>,
    service_data: &HashMap<u128, Vec<u8>>,
) -> (r: Result<DecodedMeasurement, DecodeError>)
    ensures
        r == ble_data_spec(manufacturer_data@, service_data@),
{
    let switchbot_service_data = match get_switch_bot_service_data(service_data) {
        Ok(d) => d,
        Err(e) => return Err(e),
    };
    let device_type = match detect_device_type(switchbot_service_data) {
        Ok(t) => t,
        Err(e) => return Err(e),
    };
    let switchbot_manufacturer_data = match get_switch_bot_manufacturer_data(manufacturer_data) {
        Ok(d) => d,
        Err(e) => return Err(e),
    };
    decode_manufacturer_data(&device_type, switchbot_manufacturer_data)
}

/// Why both decoding paths of an advertisement failed.
#[derive(Debug, Clone, Copy, PartialEq, Eq, Structural)]
pub struct DecodeFailure {
    pub service_path: DecodeError,
    pub declared_model_path: DecodeError,
}

/// What decoding an advertisement of a device of the declared model gives:
/// the service-data path first, the declared model's path after it.
pub open spec fn advertisement_spec(
    declared: DeviceType,
    manufacturer_data: Map<u16, Vec<u8>>,
    service_data: Map<u128, Vec<u8>>,
) -> Result<DecodedMeasurement, DecodeFailure> {
    match ble_data_spec(manufacturer_data, service_data) {
        Ok(m) => Ok(m),
        Err(e1) => match declared_model_spec(declared, manufacturer_data) {
            Ok(m) => Ok(m),
            Err(e2) => Err(DecodeFailure { service_path: e1, declared_model_path: e2 }),
        },
    }
}

/// Decodes an advertisement: through its service data first; where that
/// fails, through its manufacturer data read as the declared model.
pub fn decode_advertisement(
    declared: DeviceType,
    manufacturer_data: &HashMap<u16, Vec<u8>>,
    service_data: &HashMap<u128, Vec<u8>>,
) -> (r: Result<DecodedMeasurement, DecodeFailure>)
    ensures
        r == advertisement_spec(declared, manufacturer_data@, service_data@),
{
    let service_error = match decode_ble_data(manufacturer_data, service_data) {
        Ok(m) => return Ok(m),
        Err(e) => e,
    };
    let declared_error = match get_switch_bot_manufacturer_data(manufacturer_data) {
        Ok(d) => match decode_manufacturer_data(&declared, d) {
            Ok(m) => return Ok(m),
            Err(e) => e,
        },
        Err(e) => e,
    };
    Err(DecodeFailure { service_path: service_error, declared_model_path: declared_error })
}

} // verus!
