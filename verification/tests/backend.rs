use wifi_captive::errors::CaptivePortalError;
use wifi_captive::network_backend::iwd::connectivity::iwd_state;
use wifi_captive::network_backend::iwd::find_wifi_device::{find_wifi_device, ManagedObject};
use wifi_captive::network_backend::iwd::station::{hotspot_connection, needs_mode_change, require_station_mode};
use wifi_captive::network_backend::nm::backend::{
    finish_connection, scan_due_at, scan_is_due, AccessPointProperties, NetworkBackend,
};
use wifi_captive::network_backend::nm::connect::{
    connect_step, hotspot_result, wait_while_step, ConnectAction, ConnectEvent, ConnectPhase,
};
use wifi_captive::network_backend::nm::connectivity::{
    backend_state, connectivity_condition, connectivity_lost_condition, connectivity_result, connectivity_wait_step,
};
use wifi_captive::network_backend::nm::find_connection::{
    connection_lookup, find_connection_by_mac, find_connection_by_ssid, ConnectionLookup,
};
use wifi_captive::network_backend::nm::security::get_access_point_security;
use wifi_captive::network_backend::nm::wifi_settings::{
    get_connection_settings, make_arguments_for_ap, make_arguments_for_sta, names_active_connection, WiFiConnectionSettings,
    WifiConnectionMode,
};
use wifi_captive::network_interface::{
    AccessPointCredentials, ActiveConnection, ConnectionState, NetworkManagerState, Security,
};
use wifi_captive::settings::{SettingValue, SettingsMap, VariantMap};
use wifi_captive::text::Ipv4Address;

fn backend() -> NetworkBackend {
    NetworkBackend {
        wifi_device_path: "/org/freedesktop/NetworkManager/Devices/3".to_string(),
        hw: "AA:BB".to_string(),
        interface_name: "wlan0".to_string(),
    }
}

fn ap(hw: &str, ssid: &[u8], strength: u8) -> AccessPointProperties {
    AccessPointProperties {
        hw: hw.to_string(),
        ssid: ssid.to_vec(),
        strength,
        frequency: 2412,
        flags: 1,
        wpa_flags: 0,
        rsn_flags: 0x108,
    }
}

#[test]
fn access_points_are_presented_without_the_own_hotspot() {
    let b = backend();
    let list = b.list_access_points(&vec![ap("11:22", b"home", 70), ap("AA:BB", b"own", 90), ap("33:44", b"cafe", 40)]).unwrap();
    let ssids: Vec<&str> = list.iter().map(|w| w.ssid.as_str()).collect();
    assert_eq!(ssids, vec!["home", "cafe"]);
    assert_eq!(list[0].security, "wpa");
    assert_eq!(list[0].strength, 70);
    assert!(!list[0].is_own);
    let own = b.access_point(&ap("AA:BB", b"own", 90)).unwrap();
    assert!(own.is_own);
    assert!(matches!(b.list_access_points(&vec![ap("11:22", &[0xff], 1)]), Err(CaptivePortalError::Utf8)));
}

#[test]
fn access_point_security_is_the_strongest_mode() {
    assert_eq!(get_access_point_security(1, 0, 0), Security::WEP);
    assert_eq!(get_access_point_security(1, 0x100, 0), Security::WPA);
    assert_eq!(get_access_point_security(1, 0, 0x100), Security::WPA2);
    assert_eq!(get_access_point_security(1, 0, 0x200), Security::ENTERPRISE);
    assert_eq!(get_access_point_security(0, 0, 0), Security::NONE);
}

fn stored(id: &str, ssid: &str, seen: &[&str]) -> WiFiConnectionSettings {
    WiFiConnectionSettings {
        id: id.to_string(),
        uuid: format!("uuid-{}", id),
        ssid: ssid.to_string(),
        mode: WifiConnectionMode::Infrastructure,
        seen_bssids: seen.iter().map(|s| s.to_string()).collect(),
    }
}

#[test]
fn connections_are_found_by_mac_or_ssid() {
    let conns = vec![
        ("/S/1".to_string(), None),
        ("/S/2".to_string(), Some(stored("a", "home", &["11:22"]))),
        ("/S/3".to_string(), Some(stored("b", "cafe", &["33:44", "55:66"]))),
        ("/S/4".to_string(), Some(stored("c", "cafe", &[]))),
    ];
    assert_eq!(find_connection_by_mac(&conns, "55:66"), Some(2));
    assert_eq!(find_connection_by_mac(&conns, "99:99"), None);
    assert_eq!(find_connection_by_ssid(&conns, "cafe"), Some(2));
    assert_eq!(find_connection_by_ssid(&conns, "none"), None);
    assert_eq!(connection_lookup(Some("x".to_string()), true), ConnectionLookup::ByMac("x".to_string()));
    assert_eq!(connection_lookup(None, true), ConnectionLookup::BySsid);
    assert_eq!(connection_lookup(None, false), ConnectionLookup::CreateNew);
}

fn str_setting(map: &SettingsMap, section: &str, key: &str) -> Option<String> {
    match map.get(section)?.get(key)? {
        SettingValue::Str(s) => Some(s.clone()),
        _ => None,
    }
}

#[test]
fn client_connection_settings() {
    let creds = AccessPointCredentials::Wpa { passphrase: "secret123".to_string() };
    let s = make_arguments_for_ap(&"home".to_string(), creds, Some(stored("old", "home", &[]))).unwrap();
    assert_eq!(str_setting(&s, "connection", "id"), Some("old".to_string()));
    assert_eq!(str_setting(&s, "connection", "uuid"), Some("uuid-old".to_string()));
    assert_eq!(str_setting(&s, "802-11-wireless-security", "psk"), Some("secret123".to_string()));
    let short = AccessPointCredentials::Wpa { passphrase: "abc".to_string() };
    assert_eq!(
        make_arguments_for_ap(&"home".to_string(), short, None),
        Err(CaptivePortalError::InvalidSharedKey("Password length should be at least 8 characters: 3 len".to_string()))
    );
}

#[test]
fn hotspot_settings() {
    let s = make_arguments_for_sta(
        "WiFi Connect".to_string(),
        Some("password".to_string()),
        Some(Ipv4Address { a: 192, b: 168, c: 42, d: 1 }),
        "wlan0",
        "2b0d0f1d-b79d-43af-bde1-71744625642e",
    )
    .unwrap();
    assert_eq!(str_setting(&s, "connection", "id"), Some("Hotspot".to_string()));
    assert_eq!(str_setting(&s, "802-11-wireless", "mode"), Some("ap".to_string()));
    assert_eq!(str_setting(&s, "ipv4", "method"), Some("manual".to_string()));
    match s.get("ipv4").unwrap().get("address-data") {
        Some(SettingValue::Addresses(a)) => {
            assert_eq!(a[0].address, "192.168.42.1");
            assert_eq!(a[0].prefix, 24);
        },
        _ => panic!("no address"),
    }
    let open = make_arguments_for_sta("x".to_string(), None, None, "wlan0", "u").unwrap();
    assert_eq!(str_setting(&open, "ipv4", "method"), Some("shared".to_string()));
    assert!(open.get("802-11-wireless-security").is_none());
    assert!(make_arguments_for_sta("x".to_string(), Some("x".repeat(40)), None, "wlan0", "u").is_err());
}

#[test]
fn stored_settings_are_read_back() {
    let mut wireless = VariantMap::new();
    wireless.insert("ssid".to_string(), SettingValue::Bytes(b"home".to_vec()));
    wireless.insert("mode".to_string(), SettingValue::Str("ap".to_string()));
    wireless.insert("seen-bssids".to_string(), SettingValue::StrList(vec!["11:22".to_string()]));
    let mut connection = VariantMap::new();
    connection.insert("id".to_string(), SettingValue::Str("Home".to_string()));
    let mut dict = SettingsMap::new();
    dict.insert("802-11-wireless".to_string(), wireless);
    dict.insert("connection".to_string(), connection);
    let s = get_connection_settings(&dict).unwrap().unwrap();
    assert_eq!(s.ssid, "home");
    assert_eq!(s.id, "Home");
    assert_eq!(s.uuid, "");
    assert_eq!(s.mode, WifiConnectionMode::AP);
    assert_eq!(s.seen_bssids, vec!["11:22".to_string()]);
    assert_eq!(get_connection_settings(&SettingsMap::new()), Ok(None));
}

#[test]
fn connectivity_conditions() {
    assert!(connectivity_condition(NetworkManagerState::Connected, true));
    assert!(connectivity_condition(NetworkManagerState::ConnectedLimited, false));
    assert!(!connectivity_condition(NetworkManagerState::ConnectedLimited, true));
    assert!(connectivity_lost_condition(NetworkManagerState::ConnectedLimited, true));
    assert!(!connectivity_lost_condition(NetworkManagerState::Connected, false));
    assert_eq!(
        connectivity_result(NetworkManagerState::Connecting, false),
        Err(CaptivePortalError::NotRequiredConnectivity(NetworkManagerState::Connecting))
    );
    assert_eq!(backend_state(50), NetworkManagerState::Disconnected);
    assert_eq!(backend_state(60), NetworkManagerState::ConnectedLimited);
    assert_eq!(backend_state(70), NetworkManagerState::Connected);
    assert_eq!(backend_state(1), NetworkManagerState::Unknown);
    assert_eq!(iwd_state("roaming"), NetworkManagerState::Connected);
    assert_eq!(iwd_state("weird"), NetworkManagerState::Unknown);
}

#[test]
fn scans_are_due_after_ten_seconds() {
    assert!(scan_due_at(20, 1, 10));
    assert!(!scan_due_at(20, 0, 10));
    assert!(scan_due_at(21, 0, 10));
    assert!(!scan_due_at(19, 999_999_999, 10));
    let (now, nanos, due) = scan_is_due(0);
    assert!(now > 1_500_000_000);
    assert!(nanos < 1_000_000_000);
    assert!(due);
    let (_, _, due) = scan_is_due(i64::MAX);
    assert!(!due);
}

#[test]
fn attempts_end_saved_or_deleted() {
    assert_eq!(
        finish_connection(ConnectionState::Activated, "/S/1".to_string(), "/A/1".to_string()),
        Some(ActiveConnection {
            connection_path: "/S/1".to_string(),
            active_connection_path: "/A/1".to_string(),
            state: ConnectionState::Activated,
        })
    );
    assert_eq!(finish_connection(ConnectionState::Deactivated, "/S/1".to_string(), "/A/1".to_string()), None);
}

#[test]
fn a_connection_attempt_step_by_step() {
    let b = backend();
    let creds = AccessPointCredentials::Wpa { passphrase: "password1".to_string() };
    let (phase, action) = b.connect_to("home".to_string(), creds, Some("11:22".to_string()), false);
    assert_eq!(action, ConnectAction::FindByMac("11:22".to_string()));
    let (phase, action) = connect_step(phase, ConnectEvent::Found(Some(("/S/2".to_string(), stored("a", "home", &[]))))) ;
    match action {
        ConnectAction::UpdateAndActivate { connection, flags, device, settings } => {
            assert_eq!(connection, "/S/2");
            assert_eq!(flags, 0x28);
            assert_eq!(device, "/org/freedesktop/NetworkManager/Devices/3");
            assert_eq!(str_setting(&settings, "connection", "uuid"), Some("uuid-a".to_string()));
        },
        other => panic!("unexpected {:?}", other),
    }
    let (phase, action) = connect_step(phase, ConnectEvent::Started { connection: "/S/2".to_string(), active: "/A/8".to_string() });
    assert_eq!(action, ConnectAction::WaitWhile { active: "/A/8".to_string(), state: ConnectionState::Deactivated, seconds: 5 });
    let (phase, action) = connect_step(phase, ConnectEvent::State(ConnectionState::Activating));
    assert_eq!(action, ConnectAction::WaitWhile { active: "/A/8".to_string(), state: ConnectionState::Activating, seconds: 30 });
    let (phase, action) = connect_step(phase, ConnectEvent::State(ConnectionState::Activated));
    assert_eq!(phase, ConnectPhase::Finished);
    assert_eq!(
        action,
        ConnectAction::Save {
            connection: ActiveConnection {
                connection_path: "/S/2".to_string(),
                active_connection_path: "/A/8".to_string(),
                state: ConnectionState::Activated,
            },
            flags: 1,
        }
    );
}

#[test]
fn a_failed_connection_attempt_is_deleted() {
    let b = backend();
    let (phase, action) = b.connect_to("cafe".to_string(), AccessPointCredentials::Open, None, true);
    assert_eq!(action, ConnectAction::FindBySsid("cafe".to_string()));
    let (phase, action) = connect_step(phase, ConnectEvent::Found(None));
    assert!(matches!(action, ConnectAction::AddAndActivate { .. }));
    let (phase, _) = connect_step(phase, ConnectEvent::Started { connection: "/S/9".to_string(), active: "/A/9".to_string() });
    let (phase, _) = connect_step(phase, ConnectEvent::State(ConnectionState::Activating));
    let (phase, action) = connect_step(phase, ConnectEvent::State(ConnectionState::Deactivated));
    assert_eq!(phase, ConnectPhase::Finished);
    assert_eq!(action, ConnectAction::Delete("/S/9".to_string()));
}

#[test]
fn a_bad_key_ends_the_attempt_at_once() {
    let b = backend();
    let creds = AccessPointCredentials::Wep { passphrase: "tiny".to_string() };
    let (phase, action) = b.connect_to("home".to_string(), creds, None, false);
    assert_eq!(phase, ConnectPhase::Finished);
    assert_eq!(
        action,
        ConnectAction::Fail(CaptivePortalError::InvalidSharedKey("Password length should be at least 8 characters: 4 len".to_string()))
    );
}

fn device(address: &str, name: &str) -> Option<VariantMap> {
    let mut m = VariantMap::new();
    m.insert("Address".to_string(), SettingValue::Str(address.to_string()));
    m.insert("Name".to_string(), SettingValue::Str(name.to_string()));
    Some(m)
}

#[test]
fn iwd_wifi_device_selection() {
    let objects = vec![
        ManagedObject { path: "/net/connman/iwd".to_string(), device: None },
        ManagedObject { path: "/net/connman/iwd/0/3".to_string(), device: device("aa", "wlan0") },
        ManagedObject { path: "/net/connman/iwd/0/4".to_string(), device: device("bb", "wlan1") },
    ];
    let first = find_wifi_device(&objects, &None).unwrap();
    assert_eq!(first.interface_name, "wlan0");
    assert_eq!(first.device_path, "/net/connman/iwd/0/3");
    let chosen = find_wifi_device(&objects, &Some("wlan1".to_string())).unwrap();
    assert_eq!(chosen.hw, "bb");
    assert!(matches!(find_wifi_device(&objects, &Some("eth0".to_string())), Err(CaptivePortalError::NoWifiDeviceFound)));
    let mut broken = VariantMap::new();
    broken.insert("Name".to_string(), SettingValue::Str("wlan2".to_string()));
    let objects = vec![ManagedObject { path: "/x".to_string(), device: Some(broken) }];
    assert!(matches!(find_wifi_device(&objects, &None), Err(CaptivePortalError::Generic(_))));
}

#[test]
fn iwd_station_mode() {
    assert_eq!(require_station_mode("station"), Ok(()));
    assert_eq!(require_station_mode("ap"), Err(CaptivePortalError::NotInStationMode));
    assert!(needs_mode_change("station", "ap"));
    assert!(!needs_mode_change("ap", "ap"));
    let c = hotspot_connection("/dev/0".to_string(), true);
    assert_eq!(c.state, ConnectionState::Activated);
    assert_eq!(c.active_connection_path, "/dev/0");
}

#[test]
fn written_client_settings_read_back() {
    let creds = AccessPointCredentials::Enterprise { identity: "me".to_string(), passphrase: "pw".to_string() };
    let written = make_arguments_for_ap(&"café".to_string(), creds, Some(stored("old", "home", &["11:22"]))).unwrap();
    let read = get_connection_settings(&written).unwrap().unwrap();
    assert_eq!(read.ssid, "café");
    assert_eq!(read.id, "old");
    assert_eq!(read.uuid, "uuid-old");
    assert_eq!(read.mode, WifiConnectionMode::Infrastructure);
    assert!(read.seen_bssids.is_empty());
    let fresh = make_arguments_for_ap(&"x".to_string(), AccessPointCredentials::Open, None).unwrap();
    let read = get_connection_settings(&fresh).unwrap().unwrap();
    assert_eq!((read.id.as_str(), read.uuid.as_str()), ("", ""));
}

#[test]
fn written_hotspot_settings_read_back() {
    let written = make_arguments_for_sta(
        "Ünïcode AP".to_string(),
        Some("password".to_string()),
        Some(Ipv4Address { a: 10, b: 0, c: 0, d: 1 }),
        "wlan1",
        "0000-1111",
    )
    .unwrap();
    let read = get_connection_settings(&written).unwrap().unwrap();
    assert_eq!(read.ssid, "Ünïcode AP");
    assert_eq!(read.id, "Hotspot");
    assert_eq!(read.uuid, "0000-1111");
    assert_eq!(read.mode, WifiConnectionMode::AP);
}

#[test]
fn connectivity_waits_until_reached_or_timed_out() {
    assert_eq!(connectivity_wait_step(NetworkManagerState::Connected, true, false, 0, 5000), Some(Ok(NetworkManagerState::Connected)));
    assert_eq!(connectivity_wait_step(NetworkManagerState::Connecting, false, false, 4999, 5000), None);
    assert_eq!(
        connectivity_wait_step(NetworkManagerState::ConnectedLimited, true, false, 5000, 5000),
        Some(Err(CaptivePortalError::NotRequiredConnectivity(NetworkManagerState::ConnectedLimited)))
    );
    assert_eq!(connectivity_wait_step(NetworkManagerState::ConnectedLimited, false, false, 1, 5000), Some(Ok(NetworkManagerState::ConnectedLimited)));
    assert_eq!(connectivity_wait_step(NetworkManagerState::Connected, false, true, 10, 5000), None);
    assert_eq!(connectivity_wait_step(NetworkManagerState::Disconnected, false, true, 10, 5000), Some(Ok(NetworkManagerState::Disconnected)));
}

#[test]
fn waiting_while_a_connection_activates() {
    assert_eq!(wait_while_step(ConnectionState::Activating, ConnectionState::Activating, 100, 25_000), None);
    assert_eq!(wait_while_step(ConnectionState::Activated, ConnectionState::Activating, 100, 25_000), Some(ConnectionState::Activated));
    assert_eq!(
        wait_while_step(ConnectionState::Activating, ConnectionState::Activating, 25_000, 25_000),
        Some(ConnectionState::Activating)
    );
    let up = hotspot_result(ConnectionState::Activated, "/C/1".to_string(), "/A/1".to_string()).unwrap();
    assert_eq!(up.active_connection_path, "/A/1");
    assert_eq!(up.connection_path, "/C/1");
    assert_eq!(
        hotspot_result(ConnectionState::Activating, "/C/1".to_string(), "/A/1".to_string()),
        Err(CaptivePortalError::HotspotFailed)
    );
}

#[test]
fn active_connection_paths_are_recognised() {
    assert!(names_active_connection("/org/freedesktop/NetworkManager/ActiveConnection/12"));
    assert!(!names_active_connection("/org/freedesktop/NetworkManager/Settings/3"));
}
