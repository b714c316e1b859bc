use vstd::prelude::*;

use crate::device_type::DeviceType;

verus! {

/// A catalog entry. `id` is the 48-bit hardware address, most significant
/// octet first.
#[derive(Debug)]
pub struct Device {
    pub id: u64,
    pub device_type: DeviceType,
    pub name: String,
    pub sort_order: u8,
}

/// Why a catalog row could not become a `Device`.
#[derive(Debug, Clone, Copy, PartialEq, Eq, Structural)]
pub enum DeviceRowError {
    /// The address column does not hold exactly six octets.
    InvalidAddressLength { actual: usize },
    /// The model column holds no known label.
    UnknownDeviceType,
}

/// The address that six octets spell, most significant first.
pub open spec fn address_value(o: Seq<u8>) -> int {
    o[0] as int * 0x100_0000_0000 + o[1] as int * 0x1_0000_0000 + o[2] as int * 0x100_0000
        + o[3] as int * 0x1_0000 + o[4] as int * 0x100 + o[5] as int
}

pub fn address_from_octets(octets: &[u8]) -> (r: u64)
    requires
        octets@.len() == 6,
    ensures
        r as int == address_value(octets@),
        r < 0x1_0000_0000_0000,
{
    octets[0] as u64 * 0x100_0000_0000 + octets[1] as u64 * 0x1_0000_0000 + octets[2] as u64
        * 0x100_0000 + octets[3] as u64 * 0x1_0000 + octets[4] as u64 * 0x100 + octets[5] as u64
}

/// The six octets of an address, most significant first.
pub open spec fn octets_of(id: u64) -> Seq<u8> {
    seq![
        (id / 0x100_0000_0000 % 0x100) as u8,
        (id / 0x1_0000_0000 % 0x100) as u8,
        (id / 0x100_0000 % 0x100) as u8,
        (id / 0x1_0000 % 0x100) as u8,
        (id / 0x100 % 0x100) as u8,
        (id % 0x100) as u8,
    ]
}

pub fn address_octets(id: u64) -> (r: [u8; 6])
    ensures
        r@ == octets_of(id),
{
    let r = [
        (id / 0x100_0000_0000 % 0x100) as u8,
        (id / 0x1_0000_0000 % 0x100) as u8,
        (id / 0x100_0000 % 0x100) as u8,
        (id / 0x1_0000 % 0x100) as u8,
        (id / 0x100 % 0x100) as u8,
        (id % 0x100) as u8,
    ];
    assert(r@ =~= octets_of(id));
    r
}

/// Builds a catalog entry out of a stored row: an address of six octets and
/// a model label. The sort order keeps its low eight bits.
pub fn device_from_row(id: &[u8], type_label: &str, name: String, sort_order: i64) -> (r: Result<
    Device,
    DeviceRowError,
>)
    ensures
        id@.len() != 6 ==> r == Err::<Device, DeviceRowError>(
            DeviceRowError::InvalidAddressLength { actual: id@.len() as usize },
        ),
        id@.len() == 6 && (forall|t: DeviceType| t.label() != type_label@) ==> r == Err::<
            Device,
            DeviceRowError,
        >(DeviceRowError::UnknownDeviceType),
        r is Ok <==> id@.len() == 6 && exists|t: DeviceType| t.label() == type_label@,
        r matches Ok(d) ==> {
            &&& d.id as int == address_value(id@)
            &&& d.device_type.label() == type_label@
            &&& d.name@ == name@
            &&& d.sort_order == sort_order as u8
        },
{
    if id.len() != 6 {
        return Err(DeviceRowError::InvalidAddressLength { actual: id.len() });
    }
    let device_type = match DeviceType::from_label(type_label) {
        Some(t) => t,
        None => return Err(DeviceRowError::UnknownDeviceType),
    };
    Ok(
        Device {
            id: address_from_octets(id),
            device_type,
            name,
            sort_order: sort_order as u8,
        },
    )
}

} // verus!
