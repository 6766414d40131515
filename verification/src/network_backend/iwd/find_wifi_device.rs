//! The service quits if no wifi device can be found. This module finds the wifi device
//! among the objects that iwd manages.

use vstd::prelude::*;
use crate::errors::CaptivePortalError;
use crate::settings::{SettingValue, ValueView, VariantMap};
use crate::text::{owned, str_eq};

verus! {

#[derive(Debug, PartialEq)]
pub struct FindWifiDeviceResult {
    /// The device's bus path
    pub device_path: String,
    /// The interface name
    pub interface_name: String,
    /// The mac address
    pub hw: String,
}

/// An object iwd manages: its path and, if it is a device, the device's properties.
#[derive(Debug, PartialEq)]
pub struct ManagedObject {
    pub path: String,
    pub device: Option<VariantMap>,
}

/// The outcome of inspecting one device entry.
pub enum DeviceCheck {
    /// The properties are not as expected; the error's text.
    Malformed(Seq<char>),
    /// The device, with its address and name.
    Device(Seq<char>, Seq<char>),
}

/// What a device's properties say: it must have string properties "Address" and "Name".
pub open spec fn check_device(props: Map<Seq<char>, ValueView>) -> DeviceCheck {
    if !props.contains_key("Address"@) {
        DeviceCheck::Malformed("net.connman.iwd.Device: Must have an 'Address'"@)
    } else if !(props["Address"@] is Str) {
        DeviceCheck::Malformed("net.connman.iwd.Device/Address: Expects a string!"@)
    } else if !props.contains_key("Name"@) {
        DeviceCheck::Malformed("net.connman.iwd.Device: Must have a 'Name'"@)
    } else if !(props["Name"@] is Str) {
        DeviceCheck::Malformed("net.connman.iwd.Device/Name: Expects a string!"@)
    } else {
        DeviceCheck::Device(props["Address"@]->Str_0, props["Name"@]->Str_0)
    }
}

/// True iff the object is a device that is well formed and not skipped for the preferred interface.
pub open spec fn selected(o: ManagedObject, preferred: Option<Seq<char>>) -> bool {
    match o.device {
        Some(d) => match check_device(d@) {
            DeviceCheck::Device(_, name) => match preferred {
                Some(p) => p == name,
                None => true,
            },
            _ => false,
        },
        None => false,
    }
}

/// True iff the object is a device with malformed properties.
pub open spec fn malformed(o: ManagedObject) -> bool {
    match o.device {
        Some(d) => check_device(d@) is Malformed,
        None => false,
    }
}

/// Finds the first wifi device, or the first one on the preferred interface.
/// A device with malformed properties that comes before the one found is an error.
pub fn find_wifi_device(
    objects: &Vec<ManagedObject>,
    preferred_interface: &Option<String>,
) -> (r: Result<FindWifiDeviceResult, CaptivePortalError>)
    ensures
        match r {
            Ok(dev) => exists|i: int| #![trigger objects@[i]] 0 <= i < objects@.len()
                && selected(objects@[i], crate::state_machine::opt_str(*preferred_interface))
                && dev.device_path@ == objects@[i].path@
                && check_device(objects@[i].device.unwrap()@) == DeviceCheck::Device(dev.hw@, dev.interface_name@)
                && forall|j: int| 0 <= j < i ==> !selected(#[trigger] objects@[j],
                    crate::state_machine::opt_str(*preferred_interface)) && !malformed(objects@[j]),
            Err(CaptivePortalError::NoWifiDeviceFound) => forall|j: int| 0 <= j < objects@.len()
                ==> !selected(#[trigger] objects@[j], crate::state_machine::opt_str(*preferred_interface))
                && !malformed(objects@[j]),
            Err(CaptivePortalError::Generic(m)) => exists|i: int| #![trigger objects@[i]] 0 <= i < objects@.len()
                && check_device(objects@[i].device.unwrap()@) == DeviceCheck::Malformed(m@) && objects@[i].device is Some
                && forall|j: int| 0 <= j < i ==> !selected(#[trigger] objects@[j],
                    crate::state_machine::opt_str(*preferred_interface)) && !malformed(objects@[j]),
            Err(_) => false,
        },
{
    let ghost pref = crate::state_machine::opt_str(*preferred_interface);
    proof {
        reveal_strlit("Address");
        reveal_strlit("Name");
    }
    let mut i: usize = 0;
    while i < objects.len()
        invariant
            i <= objects@.len(),
            pref == crate::state_machine::opt_str(*preferred_interface),
            forall|j: int| 0 <= j < i ==> !selected(#[trigger] objects@[j], pref) && !malformed(objects@[j]),
        decreases objects@.len() - i,
    {
        let object = &objects[i];
        match &object.device {
            Some(entry) => {
                let device_hw = match entry.get("Address") {
                    None => return Err(CaptivePortalError::Generic(owned("net.connman.iwd.Device: Must have an 'Address'"))),
                    Some(SettingValue::Str(s)) => s,
                    Some(_) => return Err(CaptivePortalError::Generic(owned("net.connman.iwd.Device/Address: Expects a string!"))),
                };
                let device_interface = match entry.get("Name") {
                    None => return Err(CaptivePortalError::Generic(owned("net.connman.iwd.Device: Must have a 'Name'"))),
                    Some(SettingValue::Str(s)) => s,
                    Some(_) => return Err(CaptivePortalError::Generic(owned("net.connman.iwd.Device/Name: Expects a string!"))),
                };
                let skip = match preferred_interface {
                    Some(interface_name) => !str_eq(interface_name.as_str(), device_interface.as_str()),
                    None => false,
                };
                if !skip {
                    return Ok(FindWifiDeviceResult {
                        device_path: object.path.clone(),
                        interface_name: device_interface.clone(),
                        hw: device_hw.clone(),
                    });
                }
            },
            None => {},
        }
        i = i + 1;
    }
    Err(CaptivePortalError::NoWifiDeviceFound)
}

} // verus!
