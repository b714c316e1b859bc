use vstd::prelude::*;

use crate::device::{address_octets, octets_of};
use crate::measurement::Measurement;

verus! {

/// The durable table: one row per (device, bucket).
pub type StoredRows = Map<(u64, i64), Measurement>;

/// The table after a batch upsert whose conflicting inserts do nothing: each
/// record whose key is not yet stored is added, in batch order; a stored row
/// is never changed.
pub open spec fn stored_after(table: StoredRows, batch: Seq<Measurement>) -> StoredRows
    decreases batch.len(),
{
    if batch.len() == 0 {
        table
    } else {
        let before = stored_after(table, batch.drop_last());
        let row = batch.last();
        if before.contains_key(row.key()) {
            before
        } else {
            before.insert(row.key(), row)
        }
    }
}

proof fn lemma_stored_after_keeps_and_adds(table: StoredRows, batch: Seq<Measurement>)
    ensures
        forall|k: (u64, i64)|
            #[trigger] table.contains_key(k) ==> stored_after(table, batch).contains_key(k)
                && stored_after(table, batch)[k] == table[k],
        forall|i: int|
            0 <= i < batch.len() ==> stored_after(table, batch).contains_key(#[trigger] batch[i].key()),
    decreases batch.len(),
{
    if batch.len() > 0 {
        let prefix = batch.drop_last();
        lemma_stored_after_keeps_and_adds(table, prefix);
        assert forall|i: int| 0 <= i < batch.len() implies stored_after(table, batch).contains_key(
            #[trigger] batch[i].key(),
        ) by {
            if i < batch.len() - 1 {
                assert(batch[i] == prefix[i]);
            }
        }
    }
}

proof fn lemma_stored_batch_changes_nothing(table: StoredRows, batch: Seq<Measurement>)
    requires
        forall|i: int| 0 <= i < batch.len() ==> table.contains_key(#[trigger] batch[i].key()),
    ensures
        stored_after(table, batch) == table,
    decreases batch.len(),
{
    if batch.len() > 0 {
        let prefix = batch.drop_last();
        assert forall|i: int| 0 <= i < prefix.len() implies table.contains_key(
            #[trigger] prefix[i].key(),
        ) by {
            assert(prefix[i] == batch[i]);
        }
        lemma_stored_batch_changes_nothing(table, prefix);
        assert(table.contains_key(batch[batch.len() - 1].key()));
    }
}

/// Storing the same batch twice leaves the table as storing it once: every
/// (device, bucket) of the batch has exactly one row, and a row already
/// stored keeps its values.
pub proof fn lemma_storing_twice_is_storing_once(table: StoredRows, batch: Seq<Measurement>)
    ensures
        stored_after(stored_after(table, batch), batch) == stored_after(table, batch),
        forall|i: int|
            0 <= i < batch.len() ==> stored_after(table, batch).contains_key(#[trigger] batch[i].key()),
        forall|k: (u64, i64)|
            #[trigger] table.contains_key(k) ==> stored_after(table, batch)[k] == table[k],
{
    lemma_stored_after_keeps_and_adds(table, batch);
    lemma_stored_batch_changes_nothing(stored_after(table, batch), batch);
}

/// A batch laid out column by column, in the types the table stores: the
/// address as six octets, the small integers as 16-bit signed values.
pub struct SinkColumns {
    pub device_ids: Vec<[u8; 6]>,
    pub measured_at_ms: Vec<i64>,
    pub temperatures_decicelsius: Vec<i16>,
    pub humidity_percents: Vec<i16>,
    pub co2_ppms: Vec<Option<i16>>,
    pub light_levels: Vec<Option<i16>>,
}

/// A CO2 reading as the table stores it. The column is a 16-bit signed
/// integer, so a reading above its largest value is stored as that value.
pub open spec fn widen_co2(v: Option<u16>) -> Option<i16> {
    match v {
        Some(x) => Some(if x > i16::MAX as u16 { i16::MAX } else { x as i16 }),
        None => None,
    }
}

pub open spec fn widen_light(v: Option<u8>) -> Option<i16> {
    match v {
        Some(x) => Some(x as i16),
        None => None,
    }
}

impl SinkColumns {
    /// Row `i` of every column is record `i` of the batch.
    pub open spec fn holds(&self, batch: Seq<Measurement>) -> bool {
        &&& self.device_ids@.len() == batch.len()
        &&& self.measured_at_ms@.len() == batch.len()
        &&& self.temperatures_decicelsius@.len() == batch.len()
        &&& self.humidity_percents@.len() == batch.len()
        &&& self.co2_ppms@.len() == batch.len()
        &&& self.light_levels@.len() == batch.len()
        &&& forall|i: int|
            #![trigger batch[i]]
            0 <= i < batch.len() ==> {
                &&& self.device_ids@[i]@ == octets_of(batch[i].device_id)
                &&& self.measured_at_ms@[i] == batch[i].measured_at_ms
                &&& self.temperatures_decicelsius@[i] == batch[i].temperature_decicelsius
                &&& self.humidity_percents@[i] == batch[i].humidity_percent as i16
                &&& self.co2_ppms@[i] == widen_co2(batch[i].co2_ppm)
                &&& self.light_levels@[i] == widen_light(batch[i].light_level)
            }
    }

    pub fn from_batch(batch: &[Measurement]) -> (r: SinkColumns)
        ensures
            r.holds(batch@),
    {
        let mut r = SinkColumns {
            device_ids: Vec::new(),
            measured_at_ms: Vec::new(),
            temperatures_decicelsius: Vec::new(),
            humidity_percents: Vec::new(),
            co2_ppms: Vec::new(),
            light_levels: Vec::new(),
        };
        let mut i: usize = 0;
        while i < batch.len()
            invariant
                i <= batch@.len(),
                r.holds(batch@.subrange(0, i as int)),
            decreases batch@.len() - i,
        {
            let row = batch[i];
            r.device_ids.push(address_octets(row.device_id));
            r.measured_at_ms.push(row.measured_at_ms);
            r.temperatures_decicelsius.push(row.temperature_decicelsius);
            r.humidity_percents.push(row.humidity_percent as i16);
            r.co2_ppms.push(
                match row.co2_ppm {
                    Some(v) => Some(
                        if v > i16::MAX as u16 {
                            i16::MAX
                        } else {
                            v as i16
                        },
                    ),
                    None => None,
                },
            );
            r.light_levels.push(
                match row.light_level {
                    Some(v) => Some(v as i16),
                    None => None,
                },
            );
            proof {
                let done = batch@.subrange(0, i + 1);
                assert forall|k: int| 0 <= k < done.len() implies done[k] == batch@[k] by {}
            }
            i += 1;
        }
        assert(batch@.subrange(0, batch@.len() as int) == batch@);
        r
    }
}

} // verus!
