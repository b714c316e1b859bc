use home_environments::csv_format::{detect_format, CsvFormat};
use home_environments::device::{address_from_octets, address_octets, device_from_row, DeviceRowError};
use home_environments::device_type::DeviceType;
use home_environments::registry::DeviceRegistry;
use home_environments::measurement::Measurement;
use home_environments::sink::SinkColumns;
use home_environments::text::{str_contains, str_equals};
use home_environments::device::Device;

#[test]
fn labels_round_trip() {
    let all = [
        DeviceType::Hub,
        DeviceType::HubMini,
        DeviceType::Hub2,
        DeviceType::Hub3,
        DeviceType::Meter,
        DeviceType::MeterPlus,
        DeviceType::WoIOSensor,
        DeviceType::MeterPro,
        DeviceType::MeterProCO2,
    ];
    for t in all {
        assert_eq!(DeviceType::from_label(t.as_str()), Some(t));
    }
    assert_eq!(DeviceType::HubMini.as_str(), "Hub Mini");
    assert_eq!(DeviceType::MeterProCO2.as_str(), "MeterPro(CO2)");
    assert_eq!(DeviceType::from_label("Hub 4"), None);
    assert_eq!(DeviceType::from_label(""), None);
}

#[test]
fn rows_become_devices() {
    let d = device_from_row(&[0xc0, 0x11, 0x22, 0x33, 0x44, 0x55], "Hub 2", "hall".to_string(), 3)
        .unwrap();
    assert_eq!(d.id, 0xc011_2233_4455);
    assert_eq!(d.device_type, DeviceType::Hub2);
    assert_eq!(d.name, "hall");
    assert_eq!(d.sort_order, 3);
    assert_eq!(
        device_from_row(&[1, 2, 3], "Hub 2", String::new(), 0).unwrap_err(),
        DeviceRowError::InvalidAddressLength { actual: 3 }
    );
    assert_eq!(
        device_from_row(&[1, 2, 3, 4, 5, 6], "Toaster", String::new(), 0).unwrap_err(),
        DeviceRowError::UnknownDeviceType
    );
    assert_eq!(device_from_row(&[1, 2, 3, 4, 5, 6], "Meter", String::new(), 258).unwrap().sort_order, 2);
}

#[test]
fn addresses_and_octets() {
    assert_eq!(address_from_octets(&[0, 0, 0, 0, 1, 2]), 0x0102);
    assert_eq!(address_octets(0xc011_2233_4455), [0xc0, 0x11, 0x22, 0x33, 0x44, 0x55]);
}

#[test]
fn registry_lookup() {
    let registry = DeviceRegistry::from_devices(vec![
        Device { id: 1, device_type: DeviceType::Meter, name: "a".to_string(), sort_order: 0 },
        Device { id: 2, device_type: DeviceType::Hub2, name: "b".to_string(), sort_order: 1 },
        Device { id: 1, device_type: DeviceType::MeterPlus, name: "c".to_string(), sort_order: 2 },
    ]);
    assert_eq!(registry.get(1).unwrap().name, "c");
    assert_eq!(registry.get(2).unwrap().device_type, DeviceType::Hub2);
    assert!(registry.get(3).is_none());
    let mut ids = registry.addresses();
    ids.sort();
    assert_eq!(ids, vec![1, 2]);
}

#[test]
fn header_detection() {
    assert_eq!(
        detect_format("Date,Temperature_Celsius(°C),Relative_Humidity(%),Co2(ppm)"),
        CsvFormat::TemperatureHumidityCo2
    );
    assert_eq!(
        detect_format("Date,Temperature,Humidity,DPT,VPD,Abs,Light_Value"),
        CsvFormat::TemperatureHumidityLightLevel
    );
    assert_eq!(detect_format("Date,Temperature,Humidity"), CsvFormat::TemperatureHumidity);
    assert_eq!(CsvFormat::TemperatureHumidityCo2.co2_column(), Some(3));
    assert_eq!(CsvFormat::TemperatureHumidityLightLevel.light_level_column(), Some(6));
    assert_eq!(CsvFormat::TemperatureHumidity.co2_column(), None);
}

#[test]
fn text_helpers() {
    assert!(str_equals("abc", "abc"));
    assert!(!str_equals("abc", "abd"));
    assert!(str_contains("abc", ""));
    assert!(str_contains("xxCo2", "Co2"));
    assert!(!str_contains("Co", "Co2"));
}

#[test]
fn batch_columns() {
    let batch = [Measurement {
        device_id: 0xc011_2233_4455,
        measured_at_ms: 60_000,
        temperature_decicelsius: -31,
        humidity_percent: 40,
        co2_ppm: Some(300),
        light_level: None,
    }];
    let c = SinkColumns::from_batch(&batch);
    assert_eq!(c.device_ids, vec![[0xc0, 0x11, 0x22, 0x33, 0x44, 0x55]]);
    assert_eq!(c.measured_at_ms, vec![60_000]);
    assert_eq!(c.temperatures_decicelsius, vec![-31]);
    assert_eq!(c.humidity_percents, vec![40]);
    assert_eq!(c.co2_ppms, vec![Some(300)]);
    assert_eq!(c.light_levels, vec![None]);
}

#[test]
fn labels_parse_through_from_str() {
    assert_eq!("MeterPlus".parse::<DeviceType>(), Ok(DeviceType::MeterPlus));
    assert!("meterplus".parse::<DeviceType>().is_err());
}

#[test]
fn co2_above_column_range_is_stored_at_its_maximum() {
    let row = |co2_ppm| Measurement {
        device_id: 1,
        measured_at_ms: 0,
        temperature_decicelsius: 0,
        humidity_percent: 0,
        co2_ppm,
        light_level: None,
    };
    let c = SinkColumns::from_batch(&[row(Some(32767)), row(Some(32768)), row(Some(65535)), row(None)]);
    assert_eq!(c.co2_ppms, vec![Some(32767), Some(32767), Some(32767), None]);
}
