use vstd::prelude::*;

use std::collections::BTreeMap;
use std::collections::HashMap;

use crate::clock::{TOLERANCE_MS, nearest_minute, offset_from_minute, round_to_minute, roundable};
use crate::codec::DecodedMeasurement;
use crate::measurement::Measurement;
use crate::registry::DeviceRegistry;
use vstd::std_specs::iter::IteratorSpec;

verus! {

broadcast use vstd::std_specs::hash::group_hash_axioms, vstd::std_specs::btree::group_btree_axioms,
    vstd::laws_cmp::group_laws_cmp;

/// The reading kept for one minute bucket: the true observation time (in
/// milliseconds since the epoch) and what was decoded then.
#[derive(Debug, Clone, Copy, PartialEq, Eq, Structural)]
pub struct BucketedReading {
    pub observed_at_ms: i64,
    pub measurement: DecodedMeasurement,
}

/// What `offer` did with a candidate.
#[derive(Debug, Clone, Copy, PartialEq, Eq, Structural)]
pub enum OfferOutcome {
    /// The bucket was empty; the candidate now fills it.
    Inserted,
    /// The candidate lies strictly closer to the boundary and replaced the
    /// bucket's reading.
    Replaced,
    /// The bucket's reading lies as close or closer; it stays.
    KeptExisting,
    /// The candidate lies farther than the tolerance from any boundary.
    OutsideTolerance,
    /// The device is not tracked.
    UnknownDevice,
    /// The time lies beyond the range in which it can be rounded.
    Unroundable,
}

/// Per tracked device, the best reading seen so far for each minute bucket
/// that has not yet been flushed.
pub struct DedupBuffer {
    devices: HashMap<u64, BTreeMap<i64, BucketedReading>>,
}

/// The contents of a buffer: device, then bucket, to the reading kept.
pub type Buckets = Map<u64, Map<i64, BucketedReading>>;

/// A reading belongs in `bucket`: the bucket is its nearest minute boundary
/// and it lies within the tolerance of it.
pub open spec fn fits_bucket(bucket: i64, r: BucketedReading) -> bool {
    &&& bucket == nearest_minute(r.observed_at_ms as int)
    &&& offset_from_minute(r.observed_at_ms as int) <= TOLERANCE_MS
}

/// Every reading of the buffer belongs in the bucket that holds it.
pub open spec fn buckets_well_formed(buf: Buckets) -> bool {
    forall|d: u64, b: i64|
        buf.contains_key(d) && #[trigger] buf[d].contains_key(b) ==> fits_bucket(b, buf[d][b])
}

/// The minute boundary nearest to `t` is itself a representable time.
pub open spec fn bucket_fits(t: i64) -> bool {
    i64::MIN <= nearest_minute(t as int) <= i64::MAX
}

/// The reconciliation policy: a candidate too far from its minute boundary,
/// or for an untracked device, changes nothing; otherwise it fills its
/// bucket, or replaces the bucket's reading when strictly closer to the
/// boundary (on a tie the earlier reading stays).
pub open spec fn offer_spec(buf: Buckets, device: u64, t: i64, m: DecodedMeasurement) -> Buckets {
    let bucket = nearest_minute(t as int) as i64;
    if !bucket_fits(t) || offset_from_minute(t as int) > TOLERANCE_MS || !buf.contains_key(device) {
        buf
    } else if buf[device].contains_key(bucket) && offset_from_minute(
        buf[device][bucket].observed_at_ms as int,
    ) <= offset_from_minute(t as int) {
        buf
    } else {
        buf.insert(
            device,
            buf[device].insert(bucket, BucketedReading { observed_at_ms: t, measurement: m }),
        )
    }
}

pub open spec fn offer_outcome_spec(buf: Buckets, device: u64, t: i64) -> OfferOutcome {
    let bucket = nearest_minute(t as int) as i64;
    if !bucket_fits(t) {
        OfferOutcome::Unroundable
    } else if offset_from_minute(t as int) > TOLERANCE_MS {
        OfferOutcome::OutsideTolerance
    } else if !buf.contains_key(device) {
        OfferOutcome::UnknownDevice
    } else if !buf[device].contains_key(bucket) {
        OfferOutcome::Inserted
    } else if offset_from_minute(buf[device][bucket].observed_at_ms as int) <= offset_from_minute(
        t as int,
    ) {
        OfferOutcome::KeptExisting
    } else {
        OfferOutcome::Replaced
    }
}

/// A bucket is final once it is strictly older than `now` minus the
/// tolerance: no candidate observed from `now` on can still fall into it.
pub open spec fn is_final(bucket: i64, now: i64) -> bool {
    (bucket as int) < now as int - TOLERANCE_MS
}

/// The stored record for a bucket's reading.
pub open spec fn record_of(device: u64, bucket: i64, m: DecodedMeasurement) -> Measurement {
    Measurement {
        device_id: device,
        measured_at_ms: bucket,
        temperature_decicelsius: m.temperature_decicelsius,
        humidity_percent: m.humidity_percent,
        co2_ppm: m.co2_ppm,
        light_level: m.light_level,
    }
}

/// `row` is the record of a reading that the buffer holds.
pub open spec fn holds_record(buf: Buckets, row: Measurement) -> bool {
    &&& buf.contains_key(row.device_id)
    &&& buf[row.device_id].contains_key(row.measured_at_ms)
    &&& row == record_of(
        row.device_id,
        row.measured_at_ms,
        buf[row.device_id][row.measured_at_ms].measurement,
    )
}

pub open spec fn keys_unique(rows: Seq<Measurement>) -> bool {
    forall|i: int, j: int| 0 <= i < j < rows.len() ==> rows[i].key() != rows[j].key()
}

/// `rows` is the batch of every final bucket of `buf` at `now`, one record
/// per bucket.
pub open spec fn is_final_batch(buf: Buckets, now: i64, rows: Seq<Measurement>) -> bool {
    &&& forall|i: int|
        0 <= i < rows.len() ==> holds_record(buf, #[trigger] rows[i]) && is_final(
            rows[i].measured_at_ms,
            now,
        )
    &&& forall|d: u64, b: i64|
        buf.contains_key(d) && #[trigger] buf[d].contains_key(b) && is_final(b, now) ==> exists|
            i: int,
        |
            0 <= i < rows.len() && #[trigger] rows[i].key() == (d, b)
    &&& keys_unique(rows)
}

/// An entry sequence drawn from a map without repeats repeats no key.
proof fn lemma_entry_keys_distinct<K, V>(s: Seq<(&K, &V)>, m: Map<K, V>, j: int, k: int)
    requires
        s.no_duplicates(),
        forall|i: int| 0 <= i < s.len() ==> m.contains_key(*s[i].0) && m[*s[i].0] == *s[i].1,
        0 <= j < s.len(),
        0 <= k < s.len(),
        j != k,
    ensures
        *s[j].0 != *s[k].0,
{
    if *s[j].0 == *s[k].0 {
        assert(s[j] == s[k]);
    }
}

/// Some record among the first `n` of `rows` is for bucket `b` of device `d`.
pub open spec fn among_first(rows: Seq<Measurement>, n: int, d: u64, b: i64) -> bool {
    exists|i: int| 0 <= i < n && #[trigger] rows[i].key() == (d, b)
}

/// `after` is `before` without the buckets that the first `n` records of
/// `rows` name; everything else is kept as it was.
pub open spec fn removed_records(before: Buckets, after: Buckets, rows: Seq<Measurement>, n: int) -> bool {
    &&& after.dom() == before.dom()
    &&& forall|d: u64, b: i64|
        #![trigger after[d].contains_key(b)]
        before.contains_key(d) ==> (after[d].contains_key(b) <==> before[d].contains_key(b)
            && !among_first(rows, n, d, b))
    &&& forall|d: u64, b: i64|
        #![trigger after[d][b]]
        before.contains_key(d) && after[d].contains_key(b) ==> after[d][b] == before[d][b]
}

impl View for DedupBuffer {
    type V = Buckets;

    closed spec fn view(&self) -> Buckets {
        self.devices@.map_values(|b: BTreeMap<i64, BucketedReading>| b@)
    }
}

impl DedupBuffer {
    pub open spec fn well_formed(&self) -> bool {
        buckets_well_formed(self@)
    }

    /// A buffer that tracks every device of the catalog, with no readings yet.
    pub fn tracking(registry: &DeviceRegistry) -> (r: DedupBuffer)
        ensures
            r.well_formed(),
            r@.dom() == registry@.dom(),
            forall|d: u64| #[trigger] r@.contains_key(d) ==> r@[d] == Map::<i64, BucketedReading>::empty(),
    {
        let devices = registry.addresses();
        let mut map: HashMap<u64, BTreeMap<i64, BucketedReading>> = HashMap::new();
        let mut i: usize = 0;
        while i < devices.len()
            invariant
                i <= devices@.len(),
                forall|d: u64|
                    #[trigger] map@.contains_key(d) <==> exists|j: int| 0 <= j < i && devices@[j] == d,
                forall|d: u64| #[trigger] map@.contains_key(d) ==> map@[d]@ == Map::<i64, BucketedReading>::empty(),
            decreases devices@.len() - i,
        {
            map.insert(devices[i], BTreeMap::new());
            i += 1;
        }
        assert(map@.dom() =~= devices@.to_set());
        proof {
            let r = DedupBuffer { devices: map };
            assert(r@.dom() =~= devices@.to_set());
        }
        DedupBuffer { devices: map }
    }

    /// Offers a decoded reading of `device` observed at `observed_at_ms`.
    pub fn offer(&mut self, device: u64, observed_at_ms: i64, measurement: DecodedMeasurement) -> (r:
        OfferOutcome)
        requires
            old(self).well_formed(),
        ensures
            final(self).well_formed(),
            r is Unroundable ==> !roundable(observed_at_ms as int) && final(self)@ == old(self)@,
            !(r is Unroundable) ==> {
                &&& final(self)@ == offer_spec(old(self)@, device, observed_at_ms, measurement)
                &&& r == offer_outcome_spec(old(self)@, device, observed_at_ms)
            },
    {
        let bucket = match round_to_minute(observed_at_ms) {
            Some(b) => b,
            None => return OfferOutcome::Unroundable,
        };
        let diff = observed_at_ms - bucket;
        let offset = if diff < 0 {
            -diff
        } else {
            diff
        };
        if offset > TOLERANCE_MS {
            return OfferOutcome::OutsideTolerance;
        }
        let ghost before = self@;
        let mut buckets = match self.devices.remove(&device) {
            Some(b) => b,
            None => {
                assert(self@ =~= before);
                return OfferOutcome::UnknownDevice;
            },
        };
        assert(buckets@ == before[device]);
        let outcome = match buckets.get(&bucket) {
            Some(existing) => {
                let existing_diff = existing.observed_at_ms - bucket;
                let existing_offset = if existing_diff < 0 {
                    -existing_diff
                } else {
                    existing_diff
                };
                if offset >= existing_offset {
                    OfferOutcome::KeptExisting
                } else {
                    OfferOutcome::Replaced
                }
            },
            None => OfferOutcome::Inserted,
        };
        if !matches!(outcome, OfferOutcome::KeptExisting) {
            buckets.insert(bucket, BucketedReading { observed_at_ms, measurement });
        }
        self.devices.insert(device, buckets);
        assert(self@ =~= offer_spec(before, device, observed_at_ms, measurement));
        outcome
    }

    /// Drops the buckets of a batch whose storage was attempted. Devices stay
    /// tracked; other buckets are kept.
    pub fn remove_flushed(&mut self, batch: &[Measurement])
        requires
            old(self).well_formed(),
        ensures
            final(self).well_formed(),
            removed_records(old(self)@, final(self)@, batch@, batch@.len() as int),
    {
        let ghost start = self@;
        let mut i: usize = 0;
        while i < batch.len()
            invariant
                i <= batch@.len(),
                self.well_formed(),
                removed_records(start, self@, batch@, i as int),
            decreases batch@.len() - i,
        {
            let row = batch[i];
            let ghost prev = self@;
            if let Some(mut buckets) = self.devices.remove(&row.device_id) {
                buckets.remove(&row.measured_at_ms);
                self.devices.insert(row.device_id, buckets);
                assert(self@ =~= prev.insert(row.device_id, prev[row.device_id].remove(row.measured_at_ms)));
            } else {
                assert(self@ =~= prev);
            }
            proof {
                assert forall|d: u64, b: i64|
                    #![trigger self@[d].contains_key(b)]
                    start.contains_key(d) implies (self@[d].contains_key(b) <==> start[d].contains_key(b)
                        && !among_first(batch@, i + 1, d, b)) by {
                    if among_first(batch@, i + 1, d, b) && !among_first(batch@, i as int, d, b) {
                        assert(batch@[i as int].key() == (d, b));
                    }
                    if among_first(batch@, i as int, d, b) {
                        let k = choose|k: int| 0 <= k < i && #[trigger] batch@[k].key() == (d, b);
                        assert(among_first(batch@, i + 1, d, b));
                    }
                    if (d, b) == batch@[i as int].key() {
                        assert(among_first(batch@, i + 1, d, b));
                    }
                }
                assert(self@.dom() =~= start.dom());
            }
            i += 1;
        }
    }

    /// Settles a flushed batch: once the sink has stored it, its buckets
    /// leave the buffer; after a failed write they stay, to be sent again on
    /// the next tick.
    pub fn complete_flush(&mut self, batch: &[Measurement], stored: bool)
        requires
            old(self).well_formed(),
        ensures
            final(self).well_formed(),
            stored ==> removed_records(old(self)@, final(self)@, batch@, batch@.len() as int),
            !stored ==> final(self)@ == old(self)@,
    {
        if stored {
            self.remove_flushed(batch);
        }
    }

    /// Copies out the records of every final bucket; the buffer is left as
    /// it is until the batch has been stored.
    pub fn collect_final(&self, now_ms: i64) -> (r: Vec<Measurement>)
        ensures
            is_final_batch(self@, now_ms, r@),
    {
        let mut rows: Vec<Measurement> = Vec::new();
        let ghost buf = self@;
        let ghost entries = vstd::std_specs::hash::spec_hash_map_iter(&self.devices).remaining();
        let ghost mut done: int = 0;
        for entry in it: self.devices.iter()
            invariant
                buf == self@,
                it.seq() == entries,
                done == it.index(),
                entries.no_duplicates(),
                forall|i: int|
                    0 <= i < rows@.len() ==> holds_record(buf, #[trigger] rows@[i]) && is_final(
                        rows@[i].measured_at_ms,
                        now_ms,
                    ),
                forall|i: int|
                    #![trigger rows@[i]]
                    0 <= i < rows@.len() ==> exists|j: int|
                        0 <= j < done && *(#[trigger] entries[j]).0 == rows@[i].device_id,
                forall|j: int, b: i64|
                    0 <= j < done && #[trigger] entries[j].1@.contains_key(b) && is_final(
                        b,
                        now_ms,
                    ) ==> exists|i: int|
                        0 <= i < rows@.len() && #[trigger] rows@[i].key() == (*entries[j].0, b),
                keys_unique(rows@),
        {
            let (device, buckets) = entry;
            let ghost j0 = done;
            let ghost before = rows@;
            assert(entries[j0] == (device, buckets));
            assert(buf.contains_key(*device) && buf[*device] == buckets@);
            push_final_records(*device, buckets, now_ms, &mut rows);
            proof {
                assert forall|i: int| 0 <= i < rows@.len() implies holds_record(
                    buf,
                    #[trigger] rows@[i],
                ) && is_final(rows@[i].measured_at_ms, now_ms) by {
                    if i < before.len() {
                        assert(rows@[i] == before[i]);
                    }
                }
                assert forall|i: int|
                    #![trigger rows@[i]]
                    0 <= i < rows@.len() implies exists|j: int|
                        0 <= j < j0 + 1 && *(#[trigger] entries[j]).0 == rows@[i].device_id by {
                    if i < before.len() {
                        assert(rows@[i] == before[i]);
                    } else {
                        assert(*entries[j0].0 == rows@[i].device_id);
                    }
                }
                assert forall|j: int, b: i64|
                    0 <= j < j0 + 1 && #[trigger] entries[j].1@.contains_key(b) && is_final(
                        b,
                        now_ms,
                    ) implies exists|i: int|
                        0 <= i < rows@.len() && #[trigger] rows@[i].key() == (*entries[j].0, b) by {
                    if j < j0 {
                        let i = choose|i: int|
                            0 <= i < before.len() && #[trigger] before[i].key() == (*entries[j].0, b);
                        assert(rows@[i] == before[i]);
                    } else {
                        let i = choose|i: int|
                            before.len() <= i < rows@.len() && #[trigger] rows@[i].measured_at_ms == b;
                        assert(rows@[i].key() == (*entries[j].0, b));
                    }
                }
                assert forall|i: int, k: int|
                    0 <= i < k < rows@.len() implies rows@[i].key() != rows@[k].key() by {
                    if k < before.len() {
                        assert(rows@[i] == before[i] && rows@[k] == before[k]);
                    } else if i < before.len() {
                        assert(rows@[i] == before[i]);
                        let j = choose|j: int|
                            0 <= j < j0 && *(#[trigger] entries[j]).0 == before[i].device_id;
                        lemma_entry_keys_distinct(entries, self.devices@, j, j0);
                    }
                }
                done = j0 + 1;
            }
        }
        proof {
            assert forall|d: u64, b: i64|
                buf.contains_key(d) && #[trigger] buf[d].contains_key(b) && is_final(
                    b,
                    now_ms,
                ) implies exists|i: int| 0 <= i < rows@.len() && #[trigger] rows@[i].key() == (d, b) by {
                let bm = self.devices@[d];
                assert(done == entries.len());
                assert(entries.contains((&d, &bm)));
                let j = choose|j: int| 0 <= j < entries.len() && entries[j] == (&d, &bm);
                assert(entries[j].1@.contains_key(b));
            }
        }
        rows
    }
}

/// Appends to `rows` the record of every final bucket of one device.
fn push_final_records(
    device: u64,
    buckets: &BTreeMap<i64, BucketedReading>,
    now_ms: i64,
    rows: &mut Vec<Measurement>,
)
    ensures
        old(rows)@.len() <= final(rows)@.len(),
        final(rows)@.subrange(0, old(rows)@.len() as int) == old(rows)@,
        forall|i: int|
            #![trigger final(rows)@[i]]
            old(rows)@.len() <= i < final(rows)@.len() ==> {
                let row = final(rows)@[i];
                &&& row.device_id == device
                &&& buckets@.contains_key(row.measured_at_ms)
                &&& row == record_of(device, row.measured_at_ms, buckets@[row.measured_at_ms].measurement)
                &&& is_final(row.measured_at_ms, now_ms)
            },
        forall|b: i64|
            #[trigger] buckets@.contains_key(b) && is_final(b, now_ms) ==> exists|i: int|
                old(rows)@.len() <= i < final(rows)@.len() && #[trigger] final(rows)@[i].measured_at_ms == b,
        forall|i: int, k: int|
            old(rows)@.len() <= i < k < final(rows)@.len() ==> final(rows)@[i].measured_at_ms
                != final(rows)@[k].measured_at_ms,
{
    let ghost start = rows@.len();
    let ghost before = rows@;
    let ghost entries = vstd::std_specs::btree::spec_btree_map_iter(buckets).remaining();
    let ghost mut done: int = 0;
    for item in bit: buckets.iter()
        invariant
            bit.seq() == entries,
            done == bit.index(),
            bit.seq().no_duplicates(),
            start <= rows@.len(),
            rows@.subrange(0, start as int) == before,
            forall|i: int|
                #![trigger rows@[i]]
                start <= i < rows@.len() ==> {
                    let row = rows@[i];
                    &&& row.device_id == device
                    &&& buckets@.contains_key(row.measured_at_ms)
                    &&& row == record_of(device, row.measured_at_ms, buckets@[row.measured_at_ms].measurement)
                    &&& is_final(row.measured_at_ms, now_ms)
                    &&& exists|k: int| 0 <= k < bit.index() && *(#[trigger] bit.seq()[k]).0 == row.measured_at_ms
                },
            forall|k: int|
                0 <= k < bit.index() && is_final(*(#[trigger] bit.seq()[k]).0, now_ms) ==> exists|i: int|
                    start <= i < rows@.len() && #[trigger] rows@[i].measured_at_ms == *bit.seq()[k].0,
            forall|i: int, k: int|
                start <= i < k < rows@.len() ==> rows@[i].measured_at_ms != rows@[k].measured_at_ms,
    {
        let (bucket, reading) = item;
        let ghost k0 = bit.index();
        let ghost prev = rows@;
        assert(bit.seq()[k0] == (bucket, reading));
        assert(buckets@.contains_key(*bucket) && buckets@[*bucket] == *reading);
        if (*bucket as i128) < (now_ms as i128) - (TOLERANCE_MS as i128) {
            let m = reading.measurement;
            rows.push(
                Measurement {
                    device_id: device,
                    measured_at_ms: *bucket,
                    temperature_decicelsius: m.temperature_decicelsius,
                    humidity_percent: m.humidity_percent,
                    co2_ppm: m.co2_ppm,
                    light_level: m.light_level,
                },
            );
            proof {
                assert(rows@.subrange(0, start as int) =~= prev.subrange(0, start as int));
                assert forall|i: int| start <= i < prev.len() implies prev[i].measured_at_ms != *bucket by {
                    let k = choose|k: int| 0 <= k < k0 && *(#[trigger] bit.seq()[k]).0 == prev[i].measured_at_ms;
                    lemma_entry_keys_distinct(bit.seq(), buckets@, k, k0);
                }
                assert forall|i: int|
                    #![trigger rows@[i]]
                    start <= i < rows@.len() implies exists|k: int|
                        0 <= k < k0 + 1 && *(#[trigger] bit.seq()[k]).0 == rows@[i].measured_at_ms by {
                    if i < prev.len() {
                        assert(rows@[i] == prev[i]);
                    } else {
                        assert(*bit.seq()[k0].0 == rows@[i].measured_at_ms);
                    }
                }
                assert forall|k: int|
                    0 <= k < k0 + 1 && is_final(*(#[trigger] bit.seq()[k]).0, now_ms) implies exists|i: int|
                        start <= i < rows@.len() && #[trigger] rows@[i].measured_at_ms == *bit.seq()[k].0 by {
                    if k < k0 {
                        let i = choose|i: int| start <= i < prev.len() && #[trigger] prev[i].measured_at_ms == *bit.seq()[k].0;
                        assert(rows@[i] == prev[i]);
                    } else {
                        assert(rows@[prev.len() as int].measured_at_ms == *bit.seq()[k].0);
                    }
                }
            }
        }
        proof {
            done = k0 + 1;
        }
    }
    proof {
        assert forall|b: i64|
            #[trigger] buckets@.contains_key(b) && is_final(b, now_ms) implies exists|i: int|
                start <= i < rows@.len() && #[trigger] rows@[i].measured_at_ms == b by {
            let r = buckets@[b];
            assert(done == entries.len());
            assert(entries.contains((&b, &r)));
            let k = choose|k: int| 0 <= k < entries.len() && entries[k] == (&b, &r);
            assert(*entries[k].0 == b);
        }
    }
}

/// Tie-break: when a bucket already holds a reading, a candidate for it that
/// lies no closer to the minute boundary leaves the buffer as it was, and
/// one strictly closer takes the bucket.
pub proof fn lemma_closest_reading_wins(buf: Buckets, device: u64, t: i64, m: DecodedMeasurement)
    requires
        buckets_well_formed(buf),
        buf.contains_key(device),
        bucket_fits(t),
        buf[device].contains_key(nearest_minute(t as int) as i64),
        offset_from_minute(t as int) <= TOLERANCE_MS,
    ensures
        ({
            let bucket = nearest_minute(t as int) as i64;
            let existing = buf[device][bucket];
            &&& offset_from_minute(existing.observed_at_ms as int) <= offset_from_minute(t as int)
                ==> offer_spec(buf, device, t, m) == buf
            &&& offset_from_minute(t as int) < offset_from_minute(existing.observed_at_ms as int)
                ==> offer_spec(buf, device, t, m)[device][bucket] == (BucketedReading {
                observed_at_ms: t,
                measurement: m,
            })
        }),
{
}

/// An offer never makes a bucket's reading lie farther from its boundary,
/// never drops a bucket, and keeps the buffer well formed.
pub proof fn lemma_offer_only_improves(buf: Buckets, device: u64, t: i64, m: DecodedMeasurement)
    requires
        buckets_well_formed(buf),
    ensures
        buckets_well_formed(offer_spec(buf, device, t, m)),
        offer_spec(buf, device, t, m).dom() == buf.dom(),
        forall|d: u64, b: i64|
            buf.contains_key(d) && #[trigger] buf[d].contains_key(b) ==> {
                let after = offer_spec(buf, device, t, m);
                &&& after[d].contains_key(b)
                &&& offset_from_minute(after[d][b].observed_at_ms as int) <= offset_from_minute(
                    buf[d][b].observed_at_ms as int,
                )
            },
{
    let after = offer_spec(buf, device, t, m);
    if after != buf {
        assert(after.dom() =~= buf.dom());
    }
}

/// A candidate for a device that the catalog does not hold changes nothing
/// in a buffer that tracks exactly the catalog's devices.
pub proof fn lemma_unknown_device_has_no_effect(
    catalog: Map<u64, crate::device::Device>,
    buf: Buckets,
    device: u64,
    t: i64,
    m: DecodedMeasurement,
)
    requires
        buf.dom() == catalog.dom(),
        !catalog.contains_key(device),
    ensures
        offer_spec(buf, device, t, m) == buf,
        offer_outcome_spec(buf, device, t) != OfferOutcome::Inserted,
        offer_outcome_spec(buf, device, t) != OfferOutcome::Replaced,
{
    assert(!buf.contains_key(device));
}

/// Two offers for the same empty bucket of a tracked device, the second
/// strictly closer to the boundary: the second reading is the one kept, and
/// the bucket holds one reading.
pub proof fn lemma_closer_second_offer_wins(
    buf: Buckets,
    device: u64,
    t1: i64,
    m1: DecodedMeasurement,
    t2: i64,
    m2: DecodedMeasurement,
)
    requires
        buf.contains_key(device),
        bucket_fits(t1),
        nearest_minute(t1 as int) == nearest_minute(t2 as int),
        !buf[device].contains_key(nearest_minute(t1 as int) as i64),
        offset_from_minute(t1 as int) <= TOLERANCE_MS,
        offset_from_minute(t2 as int) < offset_from_minute(t1 as int),
    ensures
        ({
            let bucket = nearest_minute(t1 as int) as i64;
            let after = offer_spec(offer_spec(buf, device, t1, m1), device, t2, m2);
            &&& after[device][bucket] == (BucketedReading { observed_at_ms: t2, measurement: m2 })
            &&& after[device].dom() == buf[device].dom().insert(bucket)
        }),
{
    let bucket = nearest_minute(t1 as int) as i64;
    let first = offer_spec(buf, device, t1, m1);
    assert(first[device].contains_key(bucket));
    assert(first[device][bucket].observed_at_ms == t1);
    let after = offer_spec(first, device, t2, m2);
    assert(after[device].dom() =~= buf[device].dom().insert(bucket));
}

/// The tolerance is inclusive: a candidate for an empty bucket of a tracked
/// device is kept when it lies at most the tolerance from its boundary, and
/// changes nothing when it lies farther.
pub proof fn lemma_tolerance_boundary(buf: Buckets, device: u64, t: i64, m: DecodedMeasurement)
    requires
        buf.contains_key(device),
        bucket_fits(t),
        !buf[device].contains_key(nearest_minute(t as int) as i64),
    ensures
        offset_from_minute(t as int) <= TOLERANCE_MS ==> offer_spec(buf, device, t, m)[device][
            nearest_minute(t as int) as i64
        ] == (BucketedReading { observed_at_ms: t, measurement: m }),
        offset_from_minute(t as int) > TOLERANCE_MS ==> offer_spec(buf, device, t, m) == buf,
{
}

} // verus!
