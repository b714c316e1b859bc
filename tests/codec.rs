use std::collections::HashMap;

use home_environments::codec::{
    decode_advertisement, decode_ble_data, decode_co2, decode_device_type, decode_humidity,
    decode_hub2_manufacturer_data, decode_hub_manufacturer_data, decode_light_level,
    decode_manufacturer_data, decode_meter_plus_manufacturer_data,
    decode_meter_pro_co2_manufacturer_data, decode_temperature,
    decode_wo_io_sensor_manufacturer_data, detect_device_type, DecodeError, DecodedMeasurement,
    Field, PayloadKey, SWITCHBOT_COMPANY_ID, SWITCHBOT_SERVICE_ID,
};
use home_environments::device_type::DeviceType;
use home_environments::ratocsystems::{
    decode_ratocsystems_manufacturer_data, decode_rsbtwattch2_ble_data, RatocsystemsMeasurement,
    RATOCSYSTEMS_COMPANY_ID,
};

fn meter_plus_payload(temp_lo: u8, temp_hi: u8, humidity: u8) -> Vec<u8> {
    let mut d = vec![0u8; 11];
    d[8] = temp_lo;
    d[9] = temp_hi;
    d[10] = humidity;
    d
}

#[test]
fn temperature_half_degree_positive_and_negative() {
    assert_eq!(decode_temperature(0x05, 0x80), 5);
    assert_eq!(decode_temperature(0x05, 0x00), -5);
}

#[test]
fn temperature_ignores_high_nibble_and_reads_integral() {
    // high nibble of the low byte is not part of the value
    assert_eq!(decode_temperature(0xf3, 0x80 | 23), 233);
    assert_eq!(decode_temperature(0x09, 0x7f), -1279);
}

#[test]
fn humidity_in_and_out_of_range() {
    assert_eq!(decode_humidity(0x32), Ok(50));
    assert_eq!(decode_humidity(0x80 | 50), Ok(50));
    assert_eq!(decode_humidity(100), Ok(100));
    assert_eq!(
        decode_humidity(0x7f),
        Err(DecodeError::OutOfRange { field: Field::Humidity, value: 127 })
    );
    assert_eq!(
        decode_humidity(101),
        Err(DecodeError::OutOfRange { field: Field::Humidity, value: 101 })
    );
}

#[test]
fn light_level_boundary() {
    assert_eq!(decode_light_level(20), Ok(20));
    assert_eq!(decode_light_level(0x80 | 20), Ok(20));
    assert_eq!(
        decode_light_level(21),
        Err(DecodeError::OutOfRange { field: Field::LightLevel, value: 21 })
    );
}

#[test]
fn co2_big_endian() {
    assert_eq!(decode_co2(0x01, 0x2c), 300);
    assert_eq!(decode_co2(0xff, 0xff), 65535);
}

#[test]
fn device_type_bytes() {
    assert_eq!(decode_device_type(0x76), Ok(DeviceType::Hub2));
    assert_eq!(decode_device_type(0x54), Ok(DeviceType::Meter));
    assert_eq!(decode_device_type(0x69), Ok(DeviceType::MeterPlus));
    assert_eq!(decode_device_type(0x77), Ok(DeviceType::WoIOSensor));
    assert_eq!(decode_device_type(0x35), Ok(DeviceType::MeterProCO2));
    assert_eq!(
        decode_device_type(0x00),
        Err(DecodeError::UnknownVariant { discriminator: 0x00 })
    );
}

#[test]
fn empty_service_data_is_truncated() {
    assert_eq!(
        detect_device_type(&[]),
        Err(DecodeError::Truncated {
            key: PayloadKey::Service(SWITCHBOT_SERVICE_ID),
            expected: 1,
            actual: 0
        })
    );
    assert_eq!(detect_device_type(&[0x69, 0x00]), Ok(DeviceType::MeterPlus));
}

#[test]
fn hub2_layout() {
    let mut d = vec![0u8; 17];
    d[12] = 7;
    d[13] = 0x04;
    d[14] = 0x80 | 21;
    d[15] = 45;
    assert_eq!(
        decode_hub2_manufacturer_data(&d),
        Ok(DecodedMeasurement {
            temperature_decicelsius: 214,
            humidity_percent: 45,
            co2_ppm: None,
            light_level: Some(7),
        })
    );
    d[12] = 21;
    assert_eq!(
        decode_hub2_manufacturer_data(&d),
        Err(DecodeError::OutOfRange { field: Field::LightLevel, value: 21 })
    );
    assert_eq!(
        decode_hub2_manufacturer_data(&d[..16]),
        Err(DecodeError::Truncated {
            key: PayloadKey::Manufacturer(SWITCHBOT_COMPANY_ID),
            expected: 17,
            actual: 16
        })
    );
}

#[test]
fn meter_plus_and_io_sensor_layouts() {
    let d = meter_plus_payload(0x02, 0x80 | 19, 60);
    let expected = DecodedMeasurement {
        temperature_decicelsius: 192,
        humidity_percent: 60,
        co2_ppm: None,
        light_level: None,
    };
    assert_eq!(decode_meter_plus_manufacturer_data(&d), Ok(expected));
    assert_eq!(
        decode_wo_io_sensor_manufacturer_data(&d),
        Err(DecodeError::Truncated {
            key: PayloadKey::Manufacturer(SWITCHBOT_COMPANY_ID),
            expected: 12,
            actual: 11
        })
    );
    let mut longer = d.clone();
    longer.push(0);
    assert_eq!(decode_wo_io_sensor_manufacturer_data(&longer), Ok(expected));
}

#[test]
fn meter_pro_co2_layout() {
    let mut d = vec![0u8; 16];
    d[8] = 0x01;
    d[9] = 3;
    d[10] = 40;
    d[13] = 0x01;
    d[14] = 0x2c;
    assert_eq!(
        decode_meter_pro_co2_manufacturer_data(&d),
        Ok(DecodedMeasurement {
            temperature_decicelsius: -31,
            humidity_percent: 40,
            co2_ppm: Some(300),
            light_level: None,
        })
    );
}

#[test]
fn models_without_decoder_are_unsupported() {
    assert_eq!(
        decode_hub_manufacturer_data(&[0u8; 20]),
        Err(DecodeError::Unsupported { model: DeviceType::Hub })
    );
    assert_eq!(
        decode_manufacturer_data(&DeviceType::MeterPro, &[0u8; 20]),
        Err(DecodeError::Unsupported { model: DeviceType::MeterPro })
    );
}

#[test]
fn ble_data_uses_service_model_byte() {
    let mut manufacturer = HashMap::new();
    manufacturer.insert(SWITCHBOT_COMPANY_ID, meter_plus_payload(0x00, 0x80 | 20, 55));
    let mut service = HashMap::new();
    service.insert(SWITCHBOT_SERVICE_ID, vec![0x69]);
    assert_eq!(
        decode_ble_data(&manufacturer, &service),
        Ok(DecodedMeasurement {
            temperature_decicelsius: 200,
            humidity_percent: 55,
            co2_ppm: None,
            light_level: None,
        })
    );
}

#[test]
fn ble_data_missing_keys() {
    let manufacturer: HashMap<u16, Vec<u8>> = HashMap::new();
    let service: HashMap<u128, Vec<u8>> = HashMap::new();
    assert_eq!(
        decode_ble_data(&manufacturer, &service),
        Err(DecodeError::NotFound { key: PayloadKey::Service(SWITCHBOT_SERVICE_ID) })
    );
    let mut service = HashMap::new();
    service.insert(SWITCHBOT_SERVICE_ID, vec![0x69]);
    assert_eq!(
        decode_ble_data(&manufacturer, &service),
        Err(DecodeError::NotFound { key: PayloadKey::Manufacturer(SWITCHBOT_COMPANY_ID) })
    );
}

#[test]
fn fallback_to_declared_model() {
    let mut manufacturer = HashMap::new();
    manufacturer.insert(SWITCHBOT_COMPANY_ID, meter_plus_payload(0x01, 0x80 | 22, 48));
    let service: HashMap<u128, Vec<u8>> = HashMap::new();
    assert_eq!(
        decode_advertisement(DeviceType::MeterPlus, &manufacturer, &service),
        Ok(DecodedMeasurement {
            temperature_decicelsius: 221,
            humidity_percent: 48,
            co2_ppm: None,
            light_level: None,
        })
    );
    let failure = decode_advertisement(DeviceType::Hub2, &manufacturer, &service).unwrap_err();
    assert_eq!(
        failure.service_path,
        DecodeError::NotFound { key: PayloadKey::Service(SWITCHBOT_SERVICE_ID) }
    );
    assert_eq!(
        failure.declared_model_path,
        DecodeError::Truncated {
            key: PayloadKey::Manufacturer(SWITCHBOT_COMPANY_ID),
            expected: 17,
            actual: 11
        }
    );
}

#[test]
fn power_meter_layout() {
    let d = [0x01, 0xf6, 0x08, 0x10, 0x00, 0x01, 0x86, 0xa0];
    assert_eq!(
        decode_ratocsystems_manufacturer_data(&d),
        Ok(RatocsystemsMeasurement {
            voltage_decivolts: 2294,
            current_ma: 16,
            power_mw: 100_000,
        })
    );
    assert_eq!(
        decode_ratocsystems_manufacturer_data(&d[..7]),
        Err(DecodeError::Truncated {
            key: PayloadKey::Manufacturer(RATOCSYSTEMS_COMPANY_ID),
            expected: 8,
            actual: 7
        })
    );
    let mut manufacturer = HashMap::new();
    assert_eq!(
        decode_rsbtwattch2_ble_data(&manufacturer),
        Err(DecodeError::NotFound { key: PayloadKey::Manufacturer(RATOCSYSTEMS_COMPANY_ID) })
    );
    manufacturer.insert(RATOCSYSTEMS_COMPANY_ID, d.to_vec());
    assert_eq!(decode_rsbtwattch2_ble_data(&manufacturer).unwrap().power_mw, 100_000);
}
