use std::collections::HashMap;

use home_environments::codec::{DecodedMeasurement, SWITCHBOT_COMPANY_ID, SWITCHBOT_SERVICE_ID};
use home_environments::dedup::{DedupBuffer, OfferOutcome};
use home_environments::device::Device;
use home_environments::device_type::DeviceType;
use home_environments::ingest::{ingest_advertisement, IngestError};
use home_environments::measurement::Measurement;
use home_environments::registry::DeviceRegistry;

const DEVICE: u64 = 0xc0_11_22_33_44_55;
const OTHER: u64 = 0xc0_11_22_33_44_66;
const T: i64 = 1_700_000_040_000;

fn reading(temperature_decicelsius: i16) -> DecodedMeasurement {
    DecodedMeasurement {
        temperature_decicelsius,
        humidity_percent: 50,
        co2_ppm: None,
        light_level: None,
    }
}

fn registry() -> DeviceRegistry {
    DeviceRegistry::from_devices(vec![Device {
        id: DEVICE,
        device_type: DeviceType::MeterPlus,
        name: "living room".to_string(),
        sort_order: 1,
    }])
}

fn record(bucket: i64, temperature_decicelsius: i16) -> Measurement {
    Measurement {
        device_id: DEVICE,
        measured_at_ms: bucket,
        temperature_decicelsius,
        humidity_percent: 50,
        co2_ppm: None,
        light_level: None,
    }
}

#[test]
fn closer_reading_replaces_and_worse_or_equal_is_kept_out() {
    let mut buf = DedupBuffer::tracking(&registry());
    assert_eq!(buf.offer(DEVICE, T + 15_000, reading(1)), OfferOutcome::Inserted);
    assert_eq!(buf.offer(DEVICE, T - 5_000, reading(2)), OfferOutcome::Replaced);
    assert_eq!(buf.offer(DEVICE, T + 15_000, reading(3)), OfferOutcome::KeptExisting);
    assert_eq!(buf.offer(DEVICE, T + 5_000, reading(4)), OfferOutcome::KeptExisting);
    assert_eq!(buf.collect_final(T + 60_000), vec![record(T, 2)]);
}

#[test]
fn tolerance_boundary_is_inclusive() {
    let mut buf = DedupBuffer::tracking(&registry());
    assert_eq!(buf.offer(DEVICE, T + 20_001, reading(1)), OfferOutcome::OutsideTolerance);
    assert_eq!(buf.offer(DEVICE, T - 20_001, reading(1)), OfferOutcome::OutsideTolerance);
    assert!(buf.collect_final(T + 120_000).is_empty());
    assert_eq!(buf.offer(DEVICE, T + 20_000, reading(2)), OfferOutcome::Inserted);
    assert_eq!(buf.collect_final(T + 120_000), vec![record(T, 2)]);
}

#[test]
fn observation_rounds_to_nearest_minute() {
    let mut buf = DedupBuffer::tracking(&registry());
    assert_eq!(buf.offer(DEVICE, T + 59_000, reading(1)), OfferOutcome::Inserted);
    assert_eq!(buf.offer(DEVICE, T + 30_000 + 60_000 * 3, reading(2)), OfferOutcome::OutsideTolerance);
    let batch = buf.collect_final(T + 600_000);
    assert_eq!(batch, vec![record(T + 60_000, 1)]);
}

#[test]
fn unknown_device_leaves_buffer_untouched() {
    let mut buf = DedupBuffer::tracking(&registry());
    assert_eq!(buf.offer(OTHER, T, reading(1)), OfferOutcome::UnknownDevice);
    assert!(buf.collect_final(T + 600_000).is_empty());
}

#[test]
fn only_final_buckets_are_collected() {
    let mut buf = DedupBuffer::tracking(&registry());
    buf.offer(DEVICE, T, reading(1));
    buf.offer(DEVICE, T + 60_000, reading(2));
    // a bucket is final only when strictly older than now minus 20 s
    assert_eq!(buf.collect_final(T + 20_000), vec![]);
    assert_eq!(buf.collect_final(T + 20_001), vec![record(T, 1)]);
    let mut both = buf.collect_final(T + 80_001);
    both.sort_by_key(|m| m.measured_at_ms);
    assert_eq!(both, vec![record(T, 1), record(T + 60_000, 2)]);
}

#[test]
fn failed_flush_retains_and_stored_flush_removes() {
    let mut buf = DedupBuffer::tracking(&registry());
    buf.offer(DEVICE, T, reading(1));
    buf.offer(DEVICE, T + 60_000, reading(2));
    let batch = buf.collect_final(T + 30_000);
    assert_eq!(batch, vec![record(T, 1)]);
    buf.complete_flush(&batch, false);
    assert_eq!(buf.collect_final(T + 30_000), batch);
    buf.complete_flush(&batch, true);
    assert!(buf.collect_final(T + 30_000).is_empty());
    assert_eq!(buf.collect_final(T + 90_000), vec![record(T + 60_000, 2)]);
    // the device stays tracked after its buckets are flushed
    assert_eq!(buf.offer(DEVICE, T, reading(3)), OfferOutcome::Inserted);
}

#[test]
fn flushed_bucket_is_delivered_once() {
    let mut buf = DedupBuffer::tracking(&registry());
    buf.offer(DEVICE, T, reading(1));
    let first = buf.collect_final(T + 60_000);
    buf.remove_flushed(&first);
    buf.remove_flushed(&first);
    let second = buf.collect_final(T + 60_000);
    assert_eq!(first.len(), 1);
    assert!(second.is_empty());
}

#[test]
fn ingest_skips_unknown_devices_and_offers_decoded_readings() {
    let registry = registry();
    let mut buf = DedupBuffer::tracking(&registry);
    let mut manufacturer = HashMap::new();
    let mut payload = vec![0u8; 11];
    payload[8] = 0x05;
    payload[9] = 0x80;
    payload[10] = 50;
    manufacturer.insert(SWITCHBOT_COMPANY_ID, payload);
    let mut service = HashMap::new();
    service.insert(SWITCHBOT_SERVICE_ID, vec![0x69]);
    assert_eq!(
        ingest_advertisement(&mut buf, &registry, OTHER, T, &manufacturer, &service),
        Err(IngestError::UnknownDevice)
    );
    assert_eq!(
        ingest_advertisement(&mut buf, &registry, DEVICE, T + 1_000, &manufacturer, &service),
        Ok(OfferOutcome::Inserted)
    );
    assert_eq!(buf.collect_final(T + 60_000), vec![record(T, 5)]);
    let empty: HashMap<u16, Vec<u8>> = HashMap::new();
    assert!(matches!(
        ingest_advertisement(&mut buf, &registry, DEVICE, T, &empty, &service),
        Err(IngestError::Decode(_))
    ));
}

#[test]
fn times_beyond_rounding_range_are_refused() {
    let mut buf = DedupBuffer::tracking(&registry());
    assert_eq!(buf.offer(DEVICE, i64::MAX, reading(1)), OfferOutcome::Unroundable);
    assert_eq!(buf.offer(DEVICE, i64::MIN, reading(1)), OfferOutcome::Unroundable);
    assert!(buf.collect_final(T + 600_000).is_empty());
}

#[test]
fn tolerance_boundary_before_the_minute() {
    let mut buf = DedupBuffer::tracking(&registry());
    assert_eq!(buf.offer(DEVICE, T - 20_000, reading(1)), OfferOutcome::Inserted);
    // half-way between two boundaries goes to the later one, and is out of tolerance
    assert_eq!(buf.offer(DEVICE, T + 30_000, reading(2)), OfferOutcome::OutsideTolerance);
    assert_eq!(buf.collect_final(T + 600_000), vec![record(T, 1)]);
}

#[test]
fn negative_times_round_to_nearest_minute() {
    let registry = registry();
    let mut buf = DedupBuffer::tracking(&registry);
    assert_eq!(buf.offer(DEVICE, -61_000, reading(1)), OfferOutcome::Inserted);
    assert_eq!(buf.collect_final(0), vec![record(-60_000, 1)]);
}
