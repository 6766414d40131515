//! The network manager backend's view of the wifi device, and the decisions it takes
//! between its calls to the network manager.

use vstd::prelude::*;
use vstd::utf8::{decode_utf8, valid_utf8};
use crate::errors::CaptivePortalError;
use crate::network_backend::nm::security::{get_access_point_security, strongest_security};
use crate::network_interface::{security_name, ActiveConnection, ConnectionState, WifiConnection};
use crate::nm::security::{known_flags, AP_FLAGS_ALL, AP_SEC_ALL};
use crate::text::string_from_utf8;

verus! {

/// The network manager's bus name.
pub const NM_BUSNAME: &'static str = "org.freedesktop.NetworkManager";
/// The network manager's object path.
pub const NM_PATH: &'static str = "/org/freedesktop/NetworkManager";
/// The path of the network manager's connection settings.
pub const NM_SETTINGS_PATH: &'static str = "/org/freedesktop/NetworkManager/Settings";
/// The uuid of the hotspot connection this service creates.
pub const HOTSPOT_UUID: &'static str = "2b0d0f1d-b79d-43af-bde1-71744625642e";

/// Connection flag: save to disk.
pub const SAVE_TO_DISK_FLAG: u32 = 0x01;
/// Connection flags: in memory only and volatile.
pub const VOLATILE_FLAG: u32 = 0x18;
/// Connection flags: in memory only, with blocked auto connect.
pub const IN_MEMORY_ONLY: u32 = 0x28;

/// The wifi device the service works with.
#[derive(Debug, PartialEq)]
pub struct NetworkBackend {
    /// The wifi device's bus path.
    pub wifi_device_path: String,
    /// Mac address of the own network interface
    pub hw: String,
    /// Network interface name
    pub interface_name: String,
}

/// What the network manager reports about an access point.
#[derive(Debug, PartialEq)]
pub struct AccessPointProperties {
    pub hw: String,
    pub ssid: Vec<u8>,
    pub strength: u8,
    pub frequency: u32,
    pub flags: u32,
    pub wpa_flags: u32,
    pub rsn_flags: u32,
}

/// The name of the strongest mode an access point offers.
pub open spec fn ap_security_name(p: AccessPointProperties) -> Seq<char> {
    security_name(
        strongest_security(
            known_flags(p.flags, AP_FLAGS_ALL),
            known_flags(p.wpa_flags, AP_SEC_ALL),
            known_flags(p.rsn_flags, AP_SEC_ALL),
        ),
    )
}

/// True iff `w` presents the access point `p`, as seen from a device with address `own_hw`.
pub open spec fn describes(own_hw: Seq<char>, p: AccessPointProperties, w: WifiConnection) -> bool {
    &&& w.ssid@ == decode_utf8(p.ssid@)
    &&& w.hw@ == p.hw@
    &&& w.security@ == ap_security_name(p)
    &&& w.strength == p.strength
    &&& w.frequency == p.frequency
    &&& w.is_own == (p.hw@ == own_hw)
}

/// The access points of a list that are not the device's own (its hotspot).
pub open spec fn foreign_access_points(own_hw: Seq<char>, aps: Seq<AccessPointProperties>) -> Seq<AccessPointProperties>
    decreases aps.len(),
{
    if aps.len() == 0 {
        Seq::empty()
    } else {
        let rest = foreign_access_points(own_hw, aps.drop_last());
        if aps.last().hw@ != own_hw {
            rest.push(aps.last())
        } else {
            rest
        }
    }
}

/// True iff all SSIDs of the list are valid UTF-8.
pub open spec fn all_ssids_valid(aps: Seq<AccessPointProperties>) -> bool {
    forall|i: int| 0 <= i < aps.len() ==> valid_utf8(#[trigger] aps[i].ssid@)
}

impl NetworkBackend {
    /// The presentation of an access point. The SSID must be UTF-8.
    pub fn access_point(&self, ap: &AccessPointProperties) -> (r: Result<WifiConnection, CaptivePortalError>)
        ensures
            !valid_utf8(ap.ssid@) ==> r matches Err(CaptivePortalError::Utf8),
            valid_utf8(ap.ssid@) ==> (r matches Ok(w) && describes(self.hw@, *ap, w)),
    {
        let security = get_access_point_security(ap.flags, ap.wpa_flags, ap.rsn_flags).as_str();
        let hw = ap.hw.clone();
        let ssid = match string_from_utf8(ap.ssid.clone()) {
            Some(s) => s,
            None => return Err(CaptivePortalError::Utf8),
        };
        let is_own = crate::text::str_eq(hw.as_str(), self.hw.as_str());
        Ok(WifiConnection { is_own, ssid, hw, security, strength: ap.strength, frequency: ap.frequency })
    }

    /// The presentations of the access points the device sees, without its own hotspot.
    /// All SSIDs must be UTF-8.
    pub fn list_access_points(&self, aps: &Vec<AccessPointProperties>) -> (r: Result<Vec<WifiConnection>, CaptivePortalError>)
        ensures
            !all_ssids_valid(aps@) ==> r matches Err(CaptivePortalError::Utf8),
            all_ssids_valid(aps@) ==> (r matches Ok(v) && v@.len() == foreign_access_points(self.hw@, aps@).len()
                && forall|i: int| 0 <= i < v@.len() ==> describes(self.hw@, #[trigger] foreign_access_points(self.hw@, aps@)[i], v@[i])),
    {
        let mut connections: Vec<WifiConnection> = Vec::new();
        let mut i: usize = 0;
        while i < aps.len()
            invariant
                i <= aps@.len(),
                all_ssids_valid(aps@.take(i as int)),
                connections@.len() == foreign_access_points(self.hw@, aps@.take(i as int)).len(),
                forall|j: int| 0 <= j < connections@.len() ==> describes(self.hw@,
                    #[trigger] foreign_access_points(self.hw@, aps@.take(i as int))[j], connections@[j]),
            decreases aps@.len() - i,
        {
            let ghost before = foreign_access_points(self.hw@, aps@.take(i as int));
            assert(aps@.take(i + 1).drop_last() =~= aps@.take(i as int));
            assert(aps@.take(i + 1).last() == aps@[i as int]);
            let ap = match self.access_point(&aps[i]) {
                Ok(ap) => ap,
                Err(e) => {
                    assert(!all_ssids_valid(aps@)) by {
                        assert(!valid_utf8(aps@[i as int].ssid@));
                    }
                    return Err(e);
                },
            };
            if !ap.is_own {
                connections.push(ap);
            }
            i = i + 1;
            assert(all_ssids_valid(aps@.take(i as int))) by {
                assert forall|j: int| 0 <= j < i implies valid_utf8(#[trigger] aps@.take(i as int)[j].ssid@) by {
                    if j < i - 1 {
                        assert(aps@.take(i as int)[j] == aps@.take(i - 1)[j]);
                    }
                }
            }
        }
        assert(aps@.take(aps@.len() as int) =~= aps@);
        Ok(connections)
    }
}

/// The active connection after a connection attempt ended in `state`: kept (and to be
/// saved to disk) if it got activated, `None` (and to be deleted) otherwise.
pub fn finish_connection(
    state: ConnectionState,
    connection_path: String,
    active_connection_path: String,
) -> (r: Option<ActiveConnection>)
    ensures
        state == ConnectionState::Activated ==> r == Some(
            ActiveConnection { connection_path, active_connection_path, state },
        ),
        state != ConnectionState::Activated ==> r is None,
{
    if state == ConnectionState::Activated {
        Some(ActiveConnection { connection_path, active_connection_path, state })
    } else {
        None
    }
}

/// True iff a scan is due: more than ten seconds passed from the last scan (in whole
/// seconds since the epoch) to the time `now_secs` seconds and `now_nanos` nanoseconds
/// after the epoch.
pub open spec fn scan_due(now_secs: int, now_nanos: int, last_scan: int) -> bool {
    (now_secs - last_scan) * 1_000_000_000 + now_nanos > 10_000_000_000
}

/// Whether a scan is due at the given time.
pub fn scan_due_at(now_secs: i64, now_nanos: u32, last_scan: i64) -> (r: bool)
    ensures
        r == scan_due(now_secs as int, now_nanos as int, last_scan as int),
{
    let d: i128 = (now_secs as i128) - (last_scan as i128);
    assert(-0x1_0000_0000_0000_0000 * 1_000_000_000 < d * 1_000_000_000 < 0x1_0000_0000_0000_0000 * 1_000_000_000) by (nonlinear_arith)
        requires
            -0x1_0000_0000_0000_0000 < d < 0x1_0000_0000_0000_0000,
    ;
    d * 1_000_000_000 + (now_nanos as i128) > 10_000_000_000
}

/// The current time: seconds since the epoch and nanoseconds past that second. Calls
/// `chrono::Utc::now` and reads `timestamp` and `timestamp_subsec_nanos` of the result.
/// `Utc::now` takes the nanoseconds from the system clock's duration since the epoch, so
/// they are below one billion; nothing else is stated, as the time depends on the clock.
#[verifier::external_body]
fn utc_now() -> (r: (i64, u32))
    ensures
        r.1 < 1_000_000_000,
{
    let now = chrono::Utc::now();
    (now.timestamp(), now.timestamp_subsec_nanos())
}

/// Scan for access points only if the last scan is older than 10 seconds: reads the
/// clock and returns the time read (seconds and nanoseconds since the epoch) together
/// with whether a scan is due at that time.
pub fn scan_is_due(last_scan: i64) -> (r: (i64, u32, bool))
    ensures
        r.1 < 1_000_000_000,
        r.2 == scan_due(r.0 as int, r.1 as int, last_scan as int),
{
    let (secs, nanos) = utc_now();
    (secs, nanos, scan_due_at(secs, nanos, last_scan))
}

/// What to switch on so that the device can connect: networking and wifi where they are
/// off, and the connectivity check where it is available.
#[derive(Debug, PartialEq)]
pub struct EnableSteps {
    pub enable_networking: bool,
    pub enable_wireless: bool,
    pub enable_connectivity_check: bool,
}

impl NetworkBackend {
    /// Network might be disabled or "unmanaged": from the network manager's
    /// "NetworkingEnabled", "WirelessEnabled" and "ConnectivityCheckAvailable" properties,
    /// what to enable.
    pub fn enable_networking_and_wifi(
        &self,
        networking_enabled: bool,
        wireless_enabled: bool,
        connectivity_check_available: bool,
    ) -> (r: EnableSteps)
        ensures
            r.enable_networking == !networking_enabled,
            r.enable_wireless == !wireless_enabled,
            r.enable_connectivity_check == connectivity_check_available,
    {
        EnableSteps {
            enable_networking: !networking_enabled,
            enable_wireless: !wireless_enabled,
            enable_connectivity_check: connectivity_check_available,
        }
    }
}

} // verus!
