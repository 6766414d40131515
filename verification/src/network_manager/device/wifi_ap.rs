//! Access points seen by a wifi device.

use vstd::prelude::*;
use crate::network_manager::connection::ssid::Ssid;
use crate::network_manager::dbus::{calls, method_call, usable_path, CallArg, MethodCall, NM_WIRELESS_INTERFACE};
use crate::network_manager::errors::NetworkManagerError;
use crate::network_manager::nm::NetworkManager;
use crate::settings::{ValueView, VariantMap};
use crate::sorting::SortKey;
use crate::nm::security::{ap_security_bits, get_access_point_security as security_bits, security_set_name, AP_FLAGS_ALL, AP_SEC_ALL};

pub use crate::nm::security::{AccessPointCredentials, Security};

verus! {

/// An access point: its bus path, SSID, signal strength and encryption modes.
#[derive(Debug, PartialEq)]
pub struct AccessPoint {
    pub path: String,
    pub ssid: Ssid,
    pub strength: u32,
    pub security: Security,
}

/// The encryption modes of an access point from its flags, WPA flags and RSN flags.
/// Flags with an undefined bit cannot be read: `None`.
pub fn get_access_point_security(flags: u32, wpa_flags: u32, rsn_flags: u32) -> (r: Option<Security>)
    ensures
        (flags & !AP_FLAGS_ALL == 0 && wpa_flags & !AP_SEC_ALL == 0 && rsn_flags & !AP_SEC_ALL == 0) ==> (r matches Some(s)
            && s.bits == ap_security_bits(flags, wpa_flags, rsn_flags)),
        !(flags & !AP_FLAGS_ALL == 0 && wpa_flags & !AP_SEC_ALL == 0 && rsn_flags & !AP_SEC_ALL == 0) ==> r is None,
{
    if flags & !AP_FLAGS_ALL == 0 && wpa_flags & !AP_SEC_ALL == 0 && rsn_flags & !AP_SEC_ALL == 0 {
        Some(security_bits(flags, wpa_flags, rsn_flags))
    } else {
        None
    }
}

/// The access point at `path`, if its SSID could be read.
pub fn get_access_point(path: String, ssid: Option<Vec<u8>>, strength: u32, security: Security) -> (r: Option<AccessPoint>)
    ensures
        match ssid {
            Some(s) => r matches Some(ap) && ap.path == path && ap.ssid@ == s@ && ap.strength == strength
                && ap.security == security,
            None => r is None,
        },
{
    match ssid {
        Some(ssid) => Some(AccessPoint { path, ssid: Ssid::from_bytes(ssid), strength, security }),
        None => None,
    }
}

/// The name of the strongest encryption mode of an access point.
pub fn security_string(access_point: &AccessPoint) -> (r: &'static str)
    ensures
        r@ == security_set_name(access_point.security.bits),
{
    access_point.security.as_str()
}

impl SortKey for AccessPoint {
    open spec fn has_key(&self) -> bool {
        true
    }

    open spec fn key_spec(&self) -> int {
        self.strength as int
    }

    fn sort_key(&self) -> (r: i64) {
        self.strength as i64
    }
}

/// The call that asks the wifi device at `path` to scan for access points, with no
/// options; an invalid path is an error.
pub fn request_access_point_scan(dbus_manager: &NetworkManager, path: &str) -> (r: Result<MethodCall, NetworkManagerError>)
    ensures
        r is Ok <==> usable_path(path@),
        r matches Ok(c) ==> calls(c, path@, NM_WIRELESS_INTERFACE, "RequestScan"@, 1) && (c.args@[0] matches CallArg::Options(o)
            && o@ == Map::<Seq<char>, ValueView>::empty()),
{
    let mut args: Vec<CallArg> = Vec::new();
    args.push(CallArg::Options(VariantMap::new()));
    method_call(path, NM_WIRELESS_INTERFACE, "RequestScan", args)
}

} // verus!
