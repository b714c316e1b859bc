use vstd::prelude::*;

verus! {

/// The durable record of one device's sample for one minute. The device is
/// its 48-bit hardware address; the time is the bucket's minute boundary in
/// milliseconds since the epoch, not the raw observation time.
#[derive(Debug, Clone, Copy, PartialEq, Eq, Structural)]
pub struct Measurement {
    pub device_id: u64,
    pub measured_at_ms: i64,
    pub temperature_decicelsius: i16,
    pub humidity_percent: u8,
    pub co2_ppm: Option<u16>,
    pub light_level: Option<u8>,
}

impl Measurement {
    /// The key on which stored rows are unique.
    pub open spec fn key(self) -> (u64, i64) {
        (self.device_id, self.measured_at_ms)
    }
}

} // verus!
