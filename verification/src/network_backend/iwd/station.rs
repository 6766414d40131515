//! The station and access point modes of an iwd device.

use vstd::prelude::*;
use crate::errors::CaptivePortalError;
use crate::network_interface::{ActiveConnection, ConnectionState};
use crate::text::str_eq;

verus! {

/// Scanning and reading the state require the device to be in station mode.
pub fn require_station_mode(mode: &str) -> (r: Result<(), CaptivePortalError>)
    ensures
        mode@ == "station"@ ==> r is Ok,
        mode@ != "station"@ ==> r matches Err(CaptivePortalError::NotInStationMode),
{
    if !str_eq(mode, "station") {
        return Err(CaptivePortalError::NotInStationMode);
    }
    Ok(())
}

/// True iff the device must be switched to the mode (it is in another one).
pub fn needs_mode_change(current_mode: &str, wanted_mode: &str) -> (r: bool)
    ensures
        r == (current_mode@ != wanted_mode@),
{
    !str_eq(current_mode, wanted_mode)
}

/// The hotspot's connection: iwd keeps it on the device itself; it is activated iff the
/// access point reports that it started.
pub fn hotspot_connection(wifi_device_path: String, started: bool) -> (r: ActiveConnection)
    ensures
        r.connection_path == wifi_device_path,
        r.active_connection_path@ == wifi_device_path@,
        r.state == (if started { ConnectionState::Activated } else { ConnectionState::Deactivated }),
{
    ActiveConnection {
        active_connection_path: wifi_device_path.clone(),
        connection_path: wifi_device_path,
        state: if started { ConnectionState::Activated } else { ConnectionState::Deactivated },
    }
}

/// True iff a property change tells that the access point started or stopped: one of
/// the "net.connman.iwd.AccessPoint" interface that changes "Started". Starting a hotspot
/// waits for such a change (or for a second without changes).
pub fn is_started_change(interface_name: &str, changed_properties: &Vec<String>) -> (r: bool)
    ensures
        r == (interface_name@ == "net.connman.iwd.AccessPoint"@ && exists|i: int|
            0 <= i < changed_properties@.len() && #[trigger] changed_properties@[i]@ == "Started"@),
{
    if !str_eq(interface_name, "net.connman.iwd.AccessPoint") {
        return false;
    }
    let mut i: usize = 0;
    while i < changed_properties.len()
        invariant
            interface_name@ == "net.connman.iwd.AccessPoint"@,
            i <= changed_properties@.len(),
            forall|j: int| 0 <= j < i ==> changed_properties@[j]@ != "Started"@,
        decreases changed_properties@.len() - i,
    {
        if str_eq(changed_properties[i].as_str(), "Started") {
            assert(changed_properties@[i as int]@ == "Started"@);
            return true;
        }
        i = i + 1;
    }
    false
}

} // verus!
