use vstd::prelude::*;

use std::collections::HashMap;

use crate::codec::{DecodeFailure, advertisement_spec, decode_advertisement};
use crate::clock::roundable;
use crate::dedup::{DedupBuffer, OfferOutcome, offer_outcome_spec, offer_spec};
use crate::registry::DeviceRegistry;

verus! {

/// Why an advertisement left the buffer untouched before any offer.
#[derive(Debug, Clone, Copy, PartialEq, Eq, Structural)]
pub enum IngestError {
    /// The catalog holds no device with the advertisement's address.
    UnknownDevice,
    /// Neither decoding path gave a reading.
    Decode(DecodeFailure),
}

/// Handles one advertisement of the device at `address`, observed at
/// `observed_at_ms`: an unknown device is skipped, an undecodable payload
/// is reported, and a reading is offered to the buffer.
pub fn ingest_advertisement(
    buffer: &mut DedupBuffer,
    registry: &DeviceRegistry,
    address: u64,
    observed_at_ms: i64,
    manufacturer_data: &HashMap<u16, Vec<u8>>,
    service_data: &HashMap<u128, Vec<u8>>,
) -> (r: Result<OfferOutcome, IngestError>)
    requires
        old(buffer).well_formed(),
    ensures
        final(buffer).well_formed(),
        !registry@.contains_key(address) ==> r == Err::<OfferOutcome, IngestError>(
            IngestError::UnknownDevice,
        ) && final(buffer)@ == old(buffer)@,
        registry@.contains_key(address) ==> match advertisement_spec(
            registry@[address].device_type,
            manufacturer_data@,
            service_data@,
        ) {
            Err(e) => r == Err::<OfferOutcome, IngestError>(IngestError::Decode(e))
                && final(buffer)@ == old(buffer)@,
            Ok(m) => r matches Ok(outcome) && (outcome is Unroundable ==> !roundable(
                observed_at_ms as int,
            ) && final(buffer)@ == old(buffer)@) && (!(outcome is Unroundable) ==> final(buffer)@ == offer_spec(
                old(buffer)@,
                address,
                observed_at_ms,
                m,
            ) && outcome == offer_outcome_spec(old(buffer)@, address, observed_at_ms)),
        },
{
    let device = match registry.get(address) {
        Some(d) => d,
        None => return Err(IngestError::UnknownDevice),
    };
    match decode_advertisement(device.device_type, manufacturer_data, service_data) {
        Ok(m) => Ok(buffer.offer(address, observed_at_ms, m)),
        Err(e) => Err(IngestError::Decode(e)),
    }
}

} // verus!
