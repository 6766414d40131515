//! Wifi devices: their access points, connecting to one, and hotspots.

use vstd::prelude::*;
use crate::network_manager::connection::ssid::Ssid;
use crate::network_manager::connection::{
    add_wifi_connection, ascii_password_ok, credentials_ok, key_problem, new_connection_section, new_connection_settings,
    prepare_wifi_security_settings, present, with_security,
};
use crate::network_manager::dbus::{
    calls, path_arg, usable_path, CallArg, MethodCall, NM_SERVICE_INTERFACE, NM_SERVICE_PATH, NM_SETTINGS_INTERFACE,
    NM_SETTINGS_PATH, NM_WIRELESS_INTERFACE,
};
use crate::network_manager::device::wifi_ap::{request_access_point_scan, AccessPoint, AccessPointCredentials};
use crate::network_manager::device::wifi_sta::{create_hotspot, hotspot_settings, is_add_and_activate_call, text_view};
use crate::network_manager::device::{Device, PathGetter};
use crate::network_manager::errors::NetworkManagerError;
use crate::network_manager::utils::{add_val, ascii_password_problem};
use crate::settings::{SettingValue, SettingsMap, ValueView, VariantMap};
use crate::sorting::{reverse_vec, same_keyed_order, sorted_by_key, stable_sort_by_key};
use crate::text::{owned, Ipv4Address};

verus! {

/// The settings for connecting to a wifi network with the given SSID octets, before its
/// security sections.
pub open spec fn ssid_settings(ssid: Seq<u8>) -> Map<Seq<char>, Map<Seq<char>, ValueView>> {
    Map::empty().insert("802-11-wireless"@, Map::empty().insert("ssid"@, ValueView::Bytes(ssid)))
}

/// A device that can connect to wifi networks and host one.
pub trait WiFiDevice {
    /// The bus path of the device.
    spec fn wifi_path(&self) -> Seq<char>;

    /// The network interface of the device.
    spec fn wifi_interface(&self) -> Seq<char>;

    /// The access points visible to the device, strongest first (among equally strong
    /// ones, the later seen first). Each access point is given as read from the bus,
    /// `None` where its SSID could not be read; those are left out.
    fn get_access_points(&self, found: Vec<Option<AccessPoint>>) -> (r: Vec<AccessPoint>)
        ensures
            sorted_by_key(r@.reverse()),
            same_keyed_order(r@.reverse(), present(found@)),
            r@.to_multiset() == present(found@).to_multiset(),
    ;

    /// The first of the access points (as listed by `get_access_points`) with the SSID.
    fn find_access_point(&self, access_points: Vec<AccessPoint>, ssid: &Ssid) -> (r: Option<AccessPoint>)
        ensures
            match r {
                Some(ap) => exists|i: int| 0 <= i < access_points@.len() && #[trigger] access_points@[i] == ap
                    && ap.ssid@ == ssid@ && forall|j: int| 0 <= j < i ==> (#[trigger] access_points@[j]).ssid@ != ssid@,
                None => forall|j: int| 0 <= j < access_points@.len() ==> (#[trigger] access_points@[j]).ssid@ != ssid@,
            },
    ;

    /// The call that asks the device to scan for access points.
    fn request_scan(&self) -> (r: Result<MethodCall, NetworkManagerError>)
        ensures
            r is Ok <==> usable_path(self.wifi_path()),
            r matches Ok(c) ==> calls(c, self.wifi_path(), NM_WIRELESS_INTERFACE, "RequestScan"@, 1),
    ;

    /// The call that creates and activates a hotspot on the device (see
    /// `wifi_sta::create_hotspot`).
    fn create_hotspot(&self, ssid: Ssid, password: Option<String>, address: Option<Ipv4Address>) -> (r: Result<
        MethodCall,
        NetworkManagerError,
    >)
        ensures
            match password {
                Some(p) => !ascii_password_ok(p@) ==> (r matches Err(NetworkManagerError::PreSharedKey(m))
                    && m@ == ascii_password_problem(p@)),
                None => true,
            },
            (match password {
                Some(p) => ascii_password_ok(p@),
                None => true,
            }) ==> if usable_path(self.wifi_path()) {
                (r matches Ok(c) && is_add_and_activate_call(
                    c,
                    hotspot_settings(ssid@, self.wifi_interface(), text_view(password), address),
                    self.wifi_path(),
                    "/"@,
                ))
            } else {
                r matches Err(NetworkManagerError::Generic(m)) && m@ == "Invalid object path"@
            },
    ;

    /// The call that stores a connection to `ssid` on the device's interface.
    fn add_connection(&self, ssid: &str, credentials: &AccessPointCredentials) -> (r: Result<
        MethodCall,
        NetworkManagerError,
    >)
        ensures
            r is Ok <==> credentials_ok(*credentials),
            r is Err ==> (r matches Err(NetworkManagerError::PreSharedKey(m)) && m@ == key_problem(*credentials)),
            r matches Ok(c) ==> calls(c, NM_SETTINGS_PATH@, NM_SETTINGS_INTERFACE, "AddConnection"@, 1) && (
            c.args@[0] matches CallArg::Settings(s) && s@ == with_security(
                new_connection_settings(ssid@, self.wifi_interface()),
                *credentials,
            ).insert("connection"@, new_connection_section(ssid@, self.wifi_interface()))),
    ;

    /// The call that adds and activates a connection to the access point with the
    /// credentials. Credentials whose key is not acceptable are an error, as are invalid
    /// device or access point paths.
    fn connect(&self, access_point: &AccessPoint, credentials: &AccessPointCredentials) -> (r: Result<
        MethodCall,
        NetworkManagerError,
    >)
        ensures
            !credentials_ok(*credentials) ==> (r matches Err(NetworkManagerError::PreSharedKey(m))
                && m@ == key_problem(*credentials)),
            credentials_ok(*credentials) ==> if usable_path(self.wifi_path()) && usable_path(access_point.path@) {
                (r matches Ok(c) && is_add_and_activate_call(
                    c,
                    with_security(ssid_settings(access_point.ssid@), *credentials),
                    self.wifi_path(),
                    access_point.path@,
                ))
            } else {
                r matches Err(NetworkManagerError::Generic(m)) && m@ == "Invalid object path"@
            },
    ;
}

impl WiFiDevice for Device {
    open spec fn wifi_path(&self) -> Seq<char> {
        self.path_view()
    }

    open spec fn wifi_interface(&self) -> Seq<char> {
        self.interface_view()
    }

    fn get_access_points(&self, found: Vec<Option<AccessPoint>>) -> (r: Vec<AccessPoint>) {
        let ghost orig = found@;
        let mut kept: Vec<AccessPoint> = Vec::new();
        let mut rest = found;
        let ghost mut done: Seq<Option<AccessPoint>> = Seq::empty();
        proof {
            assert(orig =~= done + rest@);
        }
        while rest.len() > 0
            invariant
                orig == done + rest@,
                kept@ == present(done),
            decreases rest@.len(),
        {
            let ghost before = rest@;
            let entry = rest.remove(0);
            proof {
                assert(before.drop_first() =~= rest@);
                let prev = done;
                done = done.push(entry);
                assert(orig =~= done + rest@);
                assert(done.drop_last() =~= prev);
            }
            match entry {
                Some(ap) => kept.push(ap),
                None => {},
            }
        }
        proof {
            assert(done =~= orig);
        }
        let sorted = stable_sort_by_key(kept);
        let r = reverse_vec(sorted);
        proof {
            assert(r@.reverse() =~= sorted@);
            sorted@.lemma_reverse_to_multiset();
        }
        r
    }

    fn find_access_point(&self, access_points: Vec<AccessPoint>, ssid: &Ssid) -> (r: Option<AccessPoint>) {
        let mut aps = access_points;
        let mut i: usize = 0;
        while i < aps.len()
            invariant
                aps@ == access_points@,
                i <= aps@.len(),
                forall|j: int| 0 <= j < i ==> (#[trigger] aps@[j]).ssid@ != ssid@,
            decreases aps@.len() - i,
        {
            if aps[i].ssid.same_as(ssid) {
                let found = aps.remove(i);
                assert(access_points@[i as int] == found);
                return Some(found);
            }
            i = i + 1;
        }
        None
    }

    fn request_scan(&self) -> (r: Result<MethodCall, NetworkManagerError>) {
        request_access_point_scan(&self.dbus_manager, self.path())
    }

    fn create_hotspot(&self, ssid: Ssid, password: Option<String>, address: Option<Ipv4Address>) -> (r: Result<
        MethodCall,
        NetworkManagerError,
    >) {
        create_hotspot(&self.dbus_manager, self.path(), self.interface(), ssid, password, address)
    }

    fn add_connection(&self, ssid: &str, credentials: &AccessPointCredentials) -> (r: Result<
        MethodCall,
        NetworkManagerError,
    >) {
        add_wifi_connection(&self.dbus_manager, ssid, self.interface(), credentials)
    }

    fn connect(&self, access_point: &AccessPoint, credentials: &AccessPointCredentials) -> (r: Result<
        MethodCall,
        NetworkManagerError,
    >) {
        let mut settings = SettingsMap::new();
        let mut wireless = VariantMap::new();
        add_val(&mut wireless, "ssid", SettingValue::Bytes(access_point.ssid.data().clone()));
        settings.insert(owned("802-11-wireless"), wireless);
        assert(settings@ =~= ssid_settings(access_point.ssid@));

        match prepare_wifi_security_settings(credentials, &mut settings) {
            Ok(()) => {},
            Err(e) => return Err(e),
        }

        let device = match path_arg(self.path()) {
            Ok(a) => a,
            Err(e) => return Err(e),
        };
        let specific = match path_arg(access_point.path.as_str()) {
            Ok(a) => a,
            Err(e) => return Err(e),
        };
        let mut args: Vec<CallArg> = Vec::new();
        args.push(CallArg::Settings(settings));
        args.push(device);
        args.push(specific);
        Ok(MethodCall {
            object: owned(NM_SERVICE_PATH),
            interface: NM_SERVICE_INTERFACE,
            method: "AddAndActivateConnection",
            args,
        })
    }
}

} // verus!
