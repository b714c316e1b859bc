use vstd::prelude::*;

use crate::text::str_equals;

verus! {

/// The closed set of sensor models that the device catalog can declare.
#[derive(Debug, Clone, Copy, PartialEq, Eq, Structural)]
pub enum DeviceType {
    Hub,
    HubMini,
    Hub2,
    Hub3,
    Meter,
    MeterPlus,
    WoIOSensor,
    MeterPro,
    MeterProCO2,
}

impl DeviceType {
    /// The catalog label of each model.
    pub open spec fn label(self) -> Seq<char> {
        match self {
            DeviceType::Hub => "Hub"@,
            DeviceType::HubMini => "Hub Mini"@,
            DeviceType::Hub2 => "Hub 2"@,
            DeviceType::Hub3 => "Hub 3"@,
            DeviceType::Meter => "Meter"@,
            DeviceType::MeterPlus => "MeterPlus"@,
            DeviceType::WoIOSensor => "WoIOSensor"@,
            DeviceType::MeterPro => "MeterPro"@,
            DeviceType::MeterProCO2 => "MeterPro(CO2)"@,
        }
    }

    pub fn as_str(&self) -> (r: &'static str)
        ensures
            r@ == self.label(),
    {
        match self {
            DeviceType::Hub => "Hub",
            DeviceType::HubMini => "Hub Mini",
            DeviceType::Hub2 => "Hub 2",
            DeviceType::Hub3 => "Hub 3",
            DeviceType::Meter => "Meter",
            DeviceType::MeterPlus => "MeterPlus",
            DeviceType::WoIOSensor => "WoIOSensor",
            DeviceType::MeterPro => "MeterPro",
            DeviceType::MeterProCO2 => "MeterPro(CO2)",
        }
    }

    /// The model whose catalog label is `s`, if any.
    pub fn from_label(s: &str) -> (r: Option<DeviceType>)
        ensures
            match r {
                Some(t) => t.label() == s@,
                None => forall|t: DeviceType| t.label() != s@,
            },
    {
        let all = [
            DeviceType::Hub,
            DeviceType::HubMini,
            DeviceType::Hub2,
            DeviceType::Hub3,
            DeviceType::Meter,
            DeviceType::MeterPlus,
            DeviceType::WoIOSensor,
            DeviceType::MeterPro,
            DeviceType::MeterProCO2,
        ];
        let mut i: usize = 0;
        while i < 9
            invariant
                i <= 9,
                all@ == seq![
                    DeviceType::Hub,
                    DeviceType::HubMini,
                    DeviceType::Hub2,
                    DeviceType::Hub3,
                    DeviceType::Meter,
                    DeviceType::MeterPlus,
                    DeviceType::WoIOSensor,
                    DeviceType::MeterPro,
                    DeviceType::MeterProCO2,
                ],
                forall|k: int| 0 <= k < i ==> all@[k].label() != s@,
            decreases 9 - i,
        {
            let t = all[i];
            if str_equals(t.as_str(), s) {
                return Some(t);
            }
            i += 1;
        }
        assert forall|t: DeviceType| t.label() != s@ by {
            match t {
                DeviceType::Hub => assert(t == all@[0]),
                DeviceType::HubMini => assert(t == all@[1]),
                DeviceType::Hub2 => assert(t == all@[2]),
                DeviceType::Hub3 => assert(t == all@[3]),
                DeviceType::Meter => assert(t == all@[4]),
                DeviceType::MeterPlus => assert(t == all@[5]),
                DeviceType::WoIOSensor => assert(t == all@[6]),
                DeviceType::MeterPro => assert(t == all@[7]),
                DeviceType::MeterProCO2 => assert(t == all@[8]),
            }
        }
        None
    }
}

/// A label that names no model.
#[derive(Debug, Clone, Copy, PartialEq, Eq, Structural)]
pub struct UnknownDeviceType;

impl std::str::FromStr for DeviceType {
    type Err = UnknownDeviceType;

    fn from_str(s: &str) -> (r: Result<DeviceType, UnknownDeviceType>)
        ensures
            match r {
                Ok(t) => t.label() == s@,
                Err(_) => forall|t: DeviceType| t.label() != s@,
            },
    {
        match DeviceType::from_label(s) {
            Some(t) => Ok(t),
            None => Err(UnknownDeviceType),
        }
    }
}

} // verus!
