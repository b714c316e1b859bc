use vstd::prelude::*;

use indexmap::IndexMap;

use crate::device::Device;

verus! {

#[verifier::external_type_specification]
#[verifier::external_body]
#[verifier::reject_recursive_types(K)]
#[verifier::reject_recursive_types(V)]
#[verifier::reject_recursive_types(S)]
pub struct ExIndexMap<K, V, S>(IndexMap<K, V, S>);

/// Devices by address, in the order they were inserted.
pub type Catalog = IndexMap<u64, Device>;

/// What a catalog map holds.
pub uninterp spec fn catalog_entries(m: Catalog) -> Map<u64, Device>;

/// Relies on `IndexMap::new`: the map starts empty.
#[verifier::external_body]
fn catalog_new() -> (r: Catalog)
    ensures
        catalog_entries(r).dom() == Set::<u64>::empty(),
{
    IndexMap::new()
}

/// Relies on `IndexMap::insert`: afterwards the key maps to the value given,
/// and every other key to what it mapped to before.
#[verifier::external_body]
fn catalog_insert(m: &mut Catalog, id: u64, device: Device)
    ensures
        catalog_entries(*final(m)) == catalog_entries(*old(m)).insert(id, device),
{
    m.insert(id, device);
}

/// Relies on `IndexMap::get`: the value stored under the key, if any.
#[verifier::external_body]
fn catalog_get(m: &Catalog, id: u64) -> (r: Option<&Device>)
    ensures
        match r {
            Some(d) => catalog_entries(*m).contains_key(id) && *d == catalog_entries(*m)[id],
            None => !catalog_entries(*m).contains_key(id),
        },
{
    m.get(&id)
}

/// Relies on `IndexMap::keys`: every key of the map, each once.
#[verifier::external_body]
fn catalog_keys(m: &Catalog) -> (r: Vec<u64>)
    ensures
        r@.to_set() == catalog_entries(*m).dom(),
        r@.no_duplicates(),
{
    m.keys().copied().collect()
}

/// The catalog that a list of devices makes: each address maps to the last
/// device listed with it.
pub open spec fn catalog_of(devices: Seq<Device>) -> Map<u64, Device>
    decreases devices.len(),
{
    if devices.len() == 0 {
        Map::empty()
    } else {
        catalog_of(devices.drop_last()).insert(devices.last().id, devices.last())
    }
}

/// The device catalog, keyed by hardware address, in the order it was loaded.
pub struct DeviceRegistry {
    devices: Catalog,
}

impl View for DeviceRegistry {
    type V = Map<u64, Device>;

    closed spec fn view(&self) -> Map<u64, Device> {
        catalog_entries(self.devices)
    }
}

impl DeviceRegistry {
    pub fn from_devices(devices: Vec<Device>) -> (r: DeviceRegistry)
        ensures
            r@ == catalog_of(devices@),
    {
        let ghost all = devices@;
        let mut map = catalog_new();
        assert(catalog_entries(map) =~= catalog_of(all.subrange(0, 0)));
        let ghost mut done: int = 0;
        for device in it: devices.into_iter()
            invariant
                it.seq() == all,
                done == it.index(),
                0 <= done <= all.len(),
                catalog_entries(map) == catalog_of(all.subrange(0, done)),
        {
            let ghost k = done;
            assert(all.subrange(0, k + 1).drop_last() == all.subrange(0, k));
            catalog_insert(&mut map, device.id, device);
            proof {
                done = k + 1;
            }
        }
        assert(all.subrange(0, done) == all);
        DeviceRegistry { devices: map }
    }

    pub fn get(&self, id: u64) -> (r: Option<&Device>)
        ensures
            match r {
                Some(d) => self@.contains_key(id) && *d == self@[id],
                None => !self@.contains_key(id),
            },
    {
        catalog_get(&self.devices, id)
    }

    /// The address of every device, each once.
    pub fn addresses(&self) -> (r: Vec<u64>)
        ensures
            r@.to_set() == self@.dom(),
            r@.no_duplicates(),
    {
        catalog_keys(&self.devices)
    }
}

} // verus!
